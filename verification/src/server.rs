//! The server's control path: the accept loop as a step function, start and
//! stop, the shutdown signal, and the supervision of one connection.
//!
//! The caller owns the listening socket. It performs the [`ServerAction`] that
//! [`Server::run`] returns and reports the outcome as the next
//! [`ServerEvent`], each event in its turn. The shutdown signal is a latch:
//! once [`Server::stop`] has fired it, it stays fired for every later look, so
//! a wait that begins after the stop cannot miss it. Beside the latch the
//! server holds a notifier, on which a task may sleep until the next stop;
//! [`Server::stop`] wakes it. A caller that waits for a connection waits for
//! the signal as well, so a stop ends the loop though no connection comes.

use vstd::prelude::*;
use std::sync::Arc;
use tokio::sync::Notify;
use crate::client::{Completion, HandleError};

verus! {

/// `tokio::sync::Notify`, a primitive on which tasks wait to be woken. The
/// verifier sees nothing inside it.
#[verifier::external_type_specification]
#[verifier::external_body]
pub struct ExNotify(tokio::sync::Notify);

/// `tokio::sync::Notify::new`: a notifier with nobody waiting on it. Nothing
/// is claimed of the value.
#[verifier::external_body]
fn new_notifier() -> (notifier: Notify) {
    Notify::new()
}

/// `tokio::sync::Notify::notify_waiters`: wakes every task that waits on the
/// notifier at this moment, and stores nothing for a later waiter. Nothing of
/// this shows in a value that the verifier sees, so nothing is claimed.
#[verifier::external_body]
fn wake_waiters(notifier: &Arc<Notify>) {
    notifier.notify_waiters();
}

/// `Arc::clone`: a second handle to the same notifier.
#[verifier::external_body]
fn share(notifier: &Arc<Notify>) -> (shared: Arc<Notify>)
    ensures
        shared == *notifier,
{
    Arc::clone(notifier)
}

/// What the caller reports to the accept loop. `E` is the caller's transport
/// error.
#[derive(Debug, PartialEq, Eq)]
pub enum ServerEvent<E> {
    /// The server is started.
    Started,
    /// A connection came in.
    Accepted,
    /// The accepted connection has its own handler now.
    Spawned,
    /// Accepting failed.
    AcceptFailed(E),
    /// The shutdown signal was seen while the caller waited for a connection.
    ShutdownNotified,
}

/// What the accept loop asks of the caller.
#[derive(Debug, PartialEq, Eq)]
pub enum ServerAction<E> {
    /// Wait for the next connection or for the shutdown signal, whichever
    /// comes first; where the signal has fired already, do not wait.
    Accept,
    /// Give the accepted connection a handler of its own and do not wait for it.
    Spawn,
    /// Return from the loop with this result, and drop a connection that came
    /// in and was not spawned.
    Finish(Result<(), E>),
}

/// What the accept loop is waiting for.
#[derive(Clone, Copy, Debug, PartialEq, Eq)]
pub enum ServerPhase {
    /// Not inside the loop: waiting to be started.
    Idle,
    /// The caller waits for a connection or the shutdown signal.
    Accepting,
    /// The caller gives the accepted connection its handler.
    Spawning,
}

/// What [`Server::stop`] found.
#[derive(Clone, Copy, Debug, PartialEq, Eq)]
pub enum StopOutcome {
    /// The server was running: it is stopped now and the signal has fired.
    Signalled,
    /// The server was not running: nothing changed.
    AlreadyStopped,
}

/// What the supervisor of a connection does next.
#[derive(Debug, PartialEq, Eq)]
pub enum Supervision<E> {
    /// Invoke the connection's handler.
    Invoke,
    /// Tear the connection down with this result.
    Stop(Result<(), HandleError<E>>),
}

/// The mathematical value of a [`Server`].
pub struct ServerView {
    pub port: int,
    pub running: bool,
    pub notified: bool,
    pub phase: ServerPhase,
}

impl ServerView {
    /// The signal has fired only on a stopped server, and a server inside its
    /// loop is running or has been stopped since it was started.
    pub open spec fn wf(self) -> bool {
        &&& !(self.running && self.notified)
        &&& (self.phase is Idle || self.running || self.notified)
    }

    /// Whether `event` is the one that the accept loop waits for in this
    /// state: the event of its phase, and the shutdown signal only where it
    /// has fired.
    pub open spec fn accepts<E>(self, event: ServerEvent<E>) -> bool {
        match event {
            ServerEvent::Started => self.phase is Idle,
            ServerEvent::Accepted => self.phase is Accepting,
            ServerEvent::AcceptFailed(_) => self.phase is Accepting,
            ServerEvent::Spawned => self.phase is Spawning,
            ServerEvent::ShutdownNotified => {
                &&& self.phase is Accepting
                &&& self.notified
                &&& !self.running
            },
        }
    }
}

/// What the accept loop asks for when `event` reaches it in state `pre`. A
/// stopped server neither spawns nor accepts: it returns.
pub open spec fn run_action<E>(pre: ServerView, event: ServerEvent<E>) -> ServerAction<E> {
    match event {
        ServerEvent::Started => ServerAction::Accept,
        ServerEvent::Accepted => if pre.running {
            ServerAction::Spawn
        } else {
            ServerAction::Finish(Ok(()))
        },
        ServerEvent::Spawned => if pre.running {
            ServerAction::Accept
        } else {
            ServerAction::Finish(Ok(()))
        },
        ServerEvent::AcceptFailed(e) => ServerAction::Finish(Err(e)),
        ServerEvent::ShutdownNotified => ServerAction::Finish(Ok(())),
    }
}

/// The phase that follows an action: the loop waits for what it asked.
pub open spec fn phase_after<E>(action: ServerAction<E>) -> ServerPhase {
    match action {
        ServerAction::Accept => ServerPhase::Accepting,
        ServerAction::Spawn => ServerPhase::Spawning,
        ServerAction::Finish(_) => ServerPhase::Idle,
    }
}

/// The state of the server after `event` has reached it in state `pre`: a
/// start sets it running and clears the signal; no other event touches the
/// flag or the signal.
pub open spec fn run_state<E>(pre: ServerView, event: ServerEvent<E>) -> ServerView {
    ServerView {
        port: pre.port,
        running: event is Started || pre.running,
        notified: !(event is Started) && pre.notified,
        phase: phase_after(run_action(pre, event)),
    }
}

/// The state of the server after a stop in state `pre`.
pub open spec fn stop_state(pre: ServerView) -> ServerView {
    if pre.running {
        ServerView { port: pre.port, running: false, notified: true, phase: pre.phase }
    } else {
        pre
    }
}

/// The state of the server after all of `events`, in their order.
pub open spec fn run_all<E>(pre: ServerView, events: Seq<ServerEvent<E>>) -> ServerView
    decreases events.len(),
{
    if events.len() == 0 {
        pre
    } else {
        run_all(run_state(pre, events[0]), events.drop_first())
    }
}

/// What the supervisor of a connection does, given the running flag and how
/// the handler last returned (`None` before its first invocation).
pub open spec fn supervise<E>(
    running: bool,
    last: Option<Result<Completion, HandleError<E>>>,
) -> Supervision<E> {
    match last {
        Some(Err(e)) => Supervision::Stop(Err(e)),
        Some(Ok(Completion::Disconnected)) => Supervision::Stop(Ok(())),
        _ => if running {
            Supervision::Invoke
        } else {
            Supervision::Stop(Ok(()))
        },
    }
}

/// The control state of a server bound to a port.
pub struct Server {
    port: u16,
    is_running: bool,
    shutdown_notified: bool,
    phase: ServerPhase,
    shutdown_notify: Arc<Notify>,
}

impl View for Server {
    type V = ServerView;

    closed spec fn view(&self) -> ServerView {
        ServerView {
            port: self.port as int,
            running: self.is_running,
            notified: self.shutdown_notified,
            phase: self.phase,
        }
    }
}

impl Server {
    /// A server for a listening socket bound to `port`: outside its loop, not
    /// running, its signal not fired.
    pub fn new(port: u16) -> (server: Server)
        ensures
            server@ == (ServerView {
                port: port as int,
                running: false,
                notified: false,
                phase: ServerPhase::Idle,
            }),
            server@.wf(),
    {
        Server {
            port,
            is_running: false,
            shutdown_notified: false,
            phase: ServerPhase::Idle,
            shutdown_notify: Arc::new(new_notifier()),
        }
    }

    /// What the accept loop is waiting for.
    pub fn phase(&self) -> (phase: ServerPhase)
        ensures
            phase == self@.phase,
    {
        self.phase
    }

    /// Whether `event` is the one that the accept loop waits for.
    pub fn accepts<E>(&self, event: &ServerEvent<E>) -> (ok: bool)
        ensures
            ok == self@.accepts(*event),
    {
        match event {
            ServerEvent::Started => matches!(self.phase, ServerPhase::Idle),
            ServerEvent::Accepted => matches!(self.phase, ServerPhase::Accepting),
            ServerEvent::AcceptFailed(_) => matches!(self.phase, ServerPhase::Accepting),
            ServerEvent::Spawned => matches!(self.phase, ServerPhase::Spawning),
            ServerEvent::ShutdownNotified => {
                matches!(self.phase, ServerPhase::Accepting) && self.shutdown_notified
                    && !self.is_running
            },
        }
    }

    /// Takes one step of the accept loop.
    ///
    /// Started, the server is running and accepts. While it is running, every
    /// connection that comes in is spawned, and after the spawn the loop
    /// accepts again. Once it is stopped the loop returns successfully at its
    /// next step: when the signal is seen, when a connection comes in (which
    /// gets no handler), or when a spawn is done. A failed accept ends the
    /// loop with its error.
    pub fn run<E>(&mut self, event: ServerEvent<E>) -> (action: ServerAction<E>)
        requires
            old(self)@.accepts(event),
        ensures
            action == run_action(old(self)@, event),
            final(self)@ == run_state(old(self)@, event),
            final(self).notifier() == old(self).notifier(),
            old(self)@.wf() ==> final(self)@.wf(),
    {
        match event {
            ServerEvent::Started => {
                self.is_running = true;
                self.shutdown_notified = false;
                self.phase = ServerPhase::Accepting;
                ServerAction::Accept
            },
            ServerEvent::Accepted => {
                if self.is_running {
                    self.phase = ServerPhase::Spawning;
                    ServerAction::Spawn
                } else {
                    self.phase = ServerPhase::Idle;
                    ServerAction::Finish(Ok(()))
                }
            },
            ServerEvent::Spawned => {
                if self.is_running {
                    self.phase = ServerPhase::Accepting;
                    ServerAction::Accept
                } else {
                    self.phase = ServerPhase::Idle;
                    ServerAction::Finish(Ok(()))
                }
            },
            ServerEvent::AcceptFailed(e) => {
                self.phase = ServerPhase::Idle;
                ServerAction::Finish(Err(e))
            },
            ServerEvent::ShutdownNotified => {
                self.phase = ServerPhase::Idle;
                ServerAction::Finish(Ok(()))
            },
        }
    }

    /// Decides what the supervisor of one connection does next: an error of
    /// the handler and a disconnect end the connection, and so does a stopped
    /// server; otherwise the handler is invoked (again).
    pub fn handle_client<E>(&self, last: Option<Result<Completion, HandleError<E>>>) -> (next:
        Supervision<E>)
        ensures
            next == supervise(self@.running, last),
    {
        match last {
            Some(Err(e)) => Supervision::Stop(Err(e)),
            Some(Ok(Completion::Disconnected)) => Supervision::Stop(Ok(())),
            _ => {
                if self.is_running {
                    Supervision::Invoke
                } else {
                    Supervision::Stop(Ok(()))
                }
            },
        }
    }

    /// Stops a running server, fires the shutdown signal and wakes the tasks
    /// that wait on the notifier; does nothing to a server that is not running.
    pub fn stop(&mut self) -> (outcome: StopOutcome)
        ensures
            final(self)@ == stop_state(old(self)@),
            final(self).notifier() == old(self).notifier(),
            old(self)@.wf() ==> final(self)@.wf(),
            outcome == if old(self)@.running {
                StopOutcome::Signalled
            } else {
                StopOutcome::AlreadyStopped
            },
    {
        if self.is_running {
            self.is_running = false;
            self.shutdown_notified = true;
            wake_waiters(&self.shutdown_notify);
            StopOutcome::Signalled
        } else {
            StopOutcome::AlreadyStopped
        }
    }

    /// The port that the listening socket is bound to.
    pub fn get_port(&self) -> (port: u16)
        ensures
            port as int == self@.port,
    {
        self.port
    }

    /// Whether the server is running.
    pub fn is_running(&self) -> (running: bool)
        ensures
            running == self@.running,
    {
        self.is_running
    }

    /// A handle to the notifier that [`Server::stop`] wakes. A task that
    /// sleeps on it is woken by the next stop only: look at
    /// [`Server::shutdown_notified`] first.
    pub fn shutdown_notify(&self) -> (notifier: Arc<Notify>)
        ensures
            notifier == self.notifier(),
    {
        share(&self.shutdown_notify)
    }

    /// The server's notifier.
    pub closed spec fn notifier(&self) -> Arc<Notify> {
        self.shutdown_notify
    }

    /// Whether the shutdown signal has fired since the last start.
    pub fn shutdown_notified(&self) -> (notified: bool)
        ensures
            notified == self@.notified,
    {
        self.shutdown_notified
    }
}

/// A start, every event in its turn and a stop keep a well-formed server
/// well-formed.
pub proof fn lemma_steps_keep_wf<E>(pre: ServerView, event: ServerEvent<E>)
    requires
        pre.wf(),
        pre.accepts(event),
    ensures
        run_state(pre, event).wf(),
        stop_state(pre).wf(),
{
}

/// While the server runs, every connection that comes in is spawned and the
/// loop then accepts again, the server's state as it was.
pub proof fn lemma_running_server_keeps_accepting<E>(pre: ServerView)
    requires
        pre.running,
        pre.phase is Accepting,
    ensures
        pre.accepts::<E>(ServerEvent::Accepted),
        run_action::<E>(pre, ServerEvent::Accepted) == ServerAction::<E>::Spawn,
        run_state::<E>(pre, ServerEvent::Accepted).accepts::<E>(ServerEvent::Spawned),
        run_action::<E>(run_state::<E>(pre, ServerEvent::Accepted), ServerEvent::Spawned)
            == ServerAction::<E>::Accept,
        run_state::<E>(run_state::<E>(pre, ServerEvent::Accepted), ServerEvent::Spawned) == pre,
{
}

/// After a stop no connection is taken up: whatever the state before the
/// stop, a connection that comes in gets no handler and nothing makes the
/// loop accept again, short of a new start. A second stop changes nothing.
pub proof fn lemma_stopped_server_takes_no_connection<E>(pre: ServerView, event: ServerEvent<E>)
    requires
        !(event is Started),
    ensures
        !stop_state(pre).running,
        !(run_action(stop_state(pre), event) is Spawn),
        !(run_action(stop_state(pre), event) is Accept),
        run_action(stop_state(pre), event) is Finish,
        stop_state(stop_state(pre)) == stop_state(pre),
{
}

/// A stop ends the accept loop: when a server that runs inside its loop is
/// stopped, the signal's event is in turn while the caller waits for a
/// connection, and the report of the spawn while it spawns, so the loop goes
/// on though no connection ever comes; and every event in turn makes it
/// return, successfully unless it is a failed accept, the server not running.
pub proof fn lemma_stop_ends_accept_loop<E>(pre: ServerView, event: ServerEvent<E>)
    requires
        pre.running,
        !(pre.phase is Idle),
        stop_state(pre).accepts(event),
    ensures
        pre.phase is Accepting ==> stop_state(pre).accepts::<E>(ServerEvent::ShutdownNotified),
        pre.phase is Spawning ==> stop_state(pre).accepts::<E>(ServerEvent::Spawned),
        run_action(stop_state(pre), event) is Finish,
        !(event is AcceptFailed) ==> run_action(stop_state(pre), event) == ServerAction::<
            E,
        >::Finish(Ok(())),
        run_state(stop_state(pre), event).phase is Idle,
        !run_state(stop_state(pre), event).running,
{
}

/// The loop returns successfully only from a server that is not running.
pub proof fn lemma_success_means_stopped<E>(pre: ServerView, event: ServerEvent<E>)
    requires
        pre.accepts(event),
        run_action(pre, event) == ServerAction::<E>::Finish(Ok(())),
    ensures
        !pre.running,
        !run_state(pre, event).running,
{
}

/// No event but a start changes the port, the running flag or the signal,
/// whatever came before.
pub proof fn lemma_only_start_changes_flags<E>(pre: ServerView, events: Seq<ServerEvent<E>>)
    requires
        forall|i: int| 0 <= i < events.len() ==> !(#[trigger] events[i] is Started),
    ensures
        run_all(pre, events).port == pre.port,
        run_all(pre, events).running == pre.running,
        run_all(pre, events).notified == pre.notified,
    decreases events.len(),
{
    if events.len() > 0 {
        let rest = events.drop_first();
        assert forall|i: int| 0 <= i < rest.len() implies !(#[trigger] rest[i] is Started) by {
            assert(rest[i] == events[i + 1]);
        }
        assert(!(events[0] is Started));
        lemma_only_start_changes_flags(run_state(pre, events[0]), rest);
    }
}

/// The shutdown signal cannot be missed: after a running server was stopped,
/// and after any events that follow short of a new start, the signal is still
/// seen as fired; a caller that only then begins to wait for a connection
/// finds the signal's event in turn, and the loop returns successfully.
pub proof fn lemma_shutdown_signal_is_kept<E>(pre: ServerView, events: Seq<ServerEvent<E>>)
    requires
        pre.running,
        forall|i: int| 0 <= i < events.len() ==> !(#[trigger] events[i] is Started),
    ensures
        run_all(stop_state(pre), events).notified,
        !run_all(stop_state(pre), events).running,
        run_all(stop_state(pre), events).phase is Accepting ==> {
            &&& run_all(stop_state(pre), events).accepts::<E>(ServerEvent::ShutdownNotified)
            &&& run_action::<E>(run_all(stop_state(pre), events), ServerEvent::ShutdownNotified)
                == ServerAction::<E>::Finish(Ok(()))
        },
{
    lemma_only_start_changes_flags(stop_state(pre), events);
}

} // verus!
