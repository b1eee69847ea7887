//! What holds of a connection over many steps: whole exchanges and runs of
//! them, stated over the step function of the handler.

use vstd::prelude::*;
use crate::client::{
    action_for, next_state, reply_for, ActionView, ClientView, DecodeView, EventView, ReadOutcome,
    WriteOutcome, BUFFER_SIZE,
};
use crate::message::{error_marker, RequestView, ResponseView};

verus! {

/// One request on the wire: a read that filled the front of the buffer, and
/// what the codec made of those bytes.
pub struct Exchange {
    pub buffer: Seq<u8>,
    pub n: usize,
    pub decoded: DecodeView,
}

impl Exchange {
    /// The read brought at least one byte, into the whole buffer, and the
    /// connection goes on after it: the envelope, if it is one, holds a variant.
    pub open spec fn answered(self) -> bool {
        &&& self.buffer.len() == BUFFER_SIZE
        &&& 0 < self.n <= BUFFER_SIZE
        &&& reply_for(self.decoded) is Some
    }

    /// What the caller reports in the course of this exchange, the reply
    /// going out unharmed.
    pub open spec fn events<E>(self) -> Seq<EventView<E>> {
        seq![
            EventView::Read { buffer: self.buffer, outcome: ReadOutcome::Data(self.n) },
            EventView::Decoded(self.decoded),
            EventView::Written(WriteOutcome::Flushed),
        ]
    }

    /// What the handler is to ask for in the course of this exchange: the
    /// bytes decoded, the reply sent, the next read.
    pub open spec fn actions<E>(self) -> Seq<ActionView<E>>
        recommends
            reply_for(self.decoded) is Some,
    {
        seq![
            ActionView::Decode(self.buffer.subrange(0, self.n as int)),
            ActionView::Send(reply_for(self.decoded)),
            ActionView::Read(self.buffer),
        ]
    }
}

/// The events of a run of exchanges on one connection, in their order.
pub open spec fn session_events<E>(exchanges: Seq<Exchange>) -> Seq<EventView<E>>
    decreases exchanges.len(),
{
    if exchanges.len() == 0 {
        Seq::empty()
    } else {
        exchanges[0].events() + session_events(exchanges.drop_first())
    }
}

/// The actions that a run of exchanges is owed, in their order.
pub open spec fn session_actions<E>(exchanges: Seq<Exchange>) -> Seq<ActionView<E>>
    decreases exchanges.len(),
{
    if exchanges.len() == 0 {
        Seq::empty()
    } else {
        exchanges[0].actions() + session_actions(exchanges.drop_first())
    }
}

/// The actions of a handler over a run of events, each event reaching it in
/// the state that the one before left.
pub open spec fn actions_of<E>(pre: ClientView, events: Seq<EventView<E>>) -> Seq<ActionView<E>>
    decreases events.len(),
{
    if events.len() == 0 {
        Seq::empty()
    } else {
        seq![action_for(pre, events[0])] + actions_of(
            next_state(pre, events[0]),
            events.drop_first(),
        )
    }
}

/// The state of a handler after a run of events.
pub open spec fn state_after<E>(pre: ClientView, events: Seq<EventView<E>>) -> ClientView
    decreases events.len(),
{
    if events.len() == 0 {
        pre
    } else {
        state_after(next_state(pre, events[0]), events.drop_first())
    }
}

/// The states of several connections after `event` has reached the one at
/// `who`: only that one moves.
pub open spec fn deliver<E>(clients: Seq<ClientView>, who: int, event: EventView<E>) -> Seq<
    ClientView,
> {
    clients.update(who, next_state(clients[who], event))
}

/// One exchange, step by step: a handler that waits for a read accepts each
/// event in its turn, asks for the bytes to be decoded, sends the reply that
/// they are owed, asks for the next read, and is then where it began.
pub proof fn lemma_exchange<E>(pre: ClientView, exchange: Exchange)
    requires
        pre.wf(),
        pre.phase is Reading,
        exchange.answered(),
    ensures
        ({
            let events = exchange.events::<E>();
            let read = next_state(pre, events[0]);
            let decoded = next_state(read, events[1]);
            let written = next_state(decoded, events[2]);
            &&& pre.accepts(events[0])
            &&& read.accepts(events[1])
            &&& decoded.accepts(events[2])
            &&& action_for(pre, events[0]) == exchange.actions::<E>()[0]
            &&& action_for(read, events[1]) == exchange.actions::<E>()[1]
            &&& action_for(decoded, events[2]) == exchange.actions::<E>()[2]
            &&& written.wf()
            &&& written.phase is Reading
        }),
{
}

/// Every request on a connection gets its reply, in order: over any run of
/// exchanges the handler does exactly what the run is owed, exchange by
/// exchange, and waits for the next read at the end.
pub proof fn lemma_session<E>(pre: ClientView, exchanges: Seq<Exchange>)
    requires
        pre.wf(),
        pre.phase is Reading,
        forall|i: int| 0 <= i < exchanges.len() ==> (#[trigger] exchanges[i]).answered(),
    ensures
        actions_of(pre, session_events::<E>(exchanges)) == session_actions::<E>(exchanges),
        state_after(pre, session_events::<E>(exchanges)).wf(),
        state_after(pre, session_events::<E>(exchanges)).phase is Reading,
    decreases exchanges.len(),
{
    if exchanges.len() > 0 {
        let first = exchanges[0];
        let rest = exchanges.drop_first();
        let tail = session_events::<E>(rest);
        let events = session_events::<E>(exchanges);
        assert(first.answered());
        assert forall|i: int| 0 <= i < rest.len() implies (#[trigger] rest[i]).answered() by {
            assert(rest[i] == exchanges[i + 1]);
        }
        lemma_exchange::<E>(pre, first);
        let e = first.events::<E>();
        let s1 = next_state(pre, e[0]);
        let s2 = next_state(s1, e[1]);
        let s3 = next_state(s2, e[2]);
        lemma_session::<E>(s3, rest);

        let events1 = seq![e[1], e[2]] + tail;
        let events2 = seq![e[2]] + tail;
        assert(events == e + tail);
        assert(events[0] == e[0]);
        assert(events.drop_first() =~= events1);
        assert(events1[0] == e[1]);
        assert(events1.drop_first() =~= events2);
        assert(events2[0] == e[2]);
        assert(events2.drop_first() =~= tail);

        assert(actions_of(s2, events2) == seq![action_for(s2, e[2])] + actions_of(s3, tail));
        assert(actions_of(s1, events1) == seq![action_for(s1, e[1])] + actions_of(s2, events2));
        assert(actions_of(pre, events) == seq![action_for(pre, e[0])] + actions_of(s1, events1));
        assert(actions_of(pre, events) =~= first.actions::<E>() + session_actions::<E>(rest));

        assert(state_after(s2, events2) == state_after(s3, tail));
        assert(state_after(s1, events1) == state_after(s2, events2));
        assert(state_after(pre, events) == state_after(s1, events1));
    }
}

/// Where the reply to each exchange stands among the actions of a run: three
/// actions to an exchange, the reply the second of them.
pub proof fn lemma_session_reply_at<E>(exchanges: Seq<Exchange>, i: int)
    requires
        0 <= i < exchanges.len(),
        reply_for(exchanges[i].decoded) is Some,
    ensures
        session_actions::<E>(exchanges).len() == 3 * exchanges.len(),
        session_actions::<E>(exchanges)[3 * i + 1] == ActionView::<E>::Send(
            reply_for(exchanges[i].decoded),
        ),
    decreases exchanges.len(),
{
    let rest = exchanges.drop_first();
    lemma_session_len::<E>(exchanges);
    lemma_session_len::<E>(rest);
    if i > 0 {
        assert(rest[i - 1] == exchanges[i]);
        lemma_session_reply_at::<E>(rest, i - 1);
        assert(session_actions::<E>(exchanges)[3 * i + 1] == session_actions::<E>(rest)[3 * (i
            - 1) + 1]);
    }
}

/// A run of exchanges is owed three actions to the exchange.
pub proof fn lemma_session_len<E>(exchanges: Seq<Exchange>)
    ensures
        session_actions::<E>(exchanges).len() == 3 * exchanges.len(),
    decreases exchanges.len(),
{
    if exchanges.len() > 0 {
        lemma_session_len::<E>(exchanges.drop_first());
    }
}

/// Echo requests sent one after another on one connection get one reply
/// each, in the order sent, and each reply is the envelope with the echo of
/// its request, the text unchanged.
pub proof fn lemma_echoes_in_order<E>(
    pre: ClientView,
    exchanges: Seq<Exchange>,
    contents: Seq<Seq<char>>,
)
    requires
        pre.wf(),
        pre.phase is Reading,
        contents.len() == exchanges.len(),
        forall|i: int|
            0 <= i < exchanges.len() ==> {
                &&& (#[trigger] exchanges[i]).buffer.len() == BUFFER_SIZE
                &&& 0 < exchanges[i].n <= BUFFER_SIZE
                &&& exchanges[i].decoded == DecodeView::Request(
                    RequestView::Echo { content: contents[i] },
                )
            },
    ensures
        actions_of(pre, session_events::<E>(exchanges)).len() == 3 * contents.len(),
        forall|i: int|
            0 <= i < contents.len() ==> #[trigger] actions_of(
                pre,
                session_events::<E>(exchanges),
            )[3 * i + 1] == ActionView::<E>::Send(
                Some(ResponseView::Echo { content: contents[i] }),
            ),
{
    assert forall|i: int| 0 <= i < exchanges.len() implies (#[trigger] exchanges[i]).answered() by {
        assert(exchanges[i].buffer.len() == BUFFER_SIZE);
    }
    lemma_session::<E>(pre, exchanges);
    lemma_session_len::<E>(exchanges);
    assert forall|i: int| 0 <= i < contents.len() implies #[trigger] actions_of(
        pre,
        session_events::<E>(exchanges),
    )[3 * i + 1] == ActionView::<E>::Send(Some(ResponseView::Echo { content: contents[i] })) by {
        assert(exchanges[i].answered());
        lemma_session_reply_at::<E>(exchanges, i);
    }
}

/// Malformed bytes do not end a connection: they are answered with a
/// response envelope that holds the echo of the error marker, and every
/// exchange after them still gets the reply that it is owed.
pub proof fn lemma_malformed_keeps_connection<E>(
    pre: ClientView,
    exchanges: Seq<Exchange>,
    k: int,
    later: int,
)
    requires
        pre.wf(),
        pre.phase is Reading,
        forall|i: int| 0 <= i < exchanges.len() ==> (#[trigger] exchanges[i]).answered(),
        0 <= k < later < exchanges.len(),
        exchanges[k].decoded is Malformed,
    ensures
        actions_of(pre, session_events::<E>(exchanges))[3 * k + 1] == ActionView::<E>::Send(
            Some(ResponseView::Echo { content: error_marker() }),
        ),
        actions_of(pre, session_events::<E>(exchanges))[3 * later + 1] == ActionView::<E>::Send(
            reply_for(exchanges[later].decoded),
        ),
        state_after(pre, session_events::<E>(exchanges)).phase is Reading,
{
    lemma_session::<E>(pre, exchanges);
    assert(exchanges[k].answered());
    assert(exchanges[later].answered());
    lemma_session_reply_at::<E>(exchanges, k);
    lemma_session_reply_at::<E>(exchanges, later);
}

/// Connections do not talk across: an event that reaches one connection
/// leaves every other connection's state as it was, and with it the action
/// that any event of its own will get.
pub proof fn lemma_no_cross_talk<E>(
    clients: Seq<ClientView>,
    a: int,
    b: int,
    event_b: EventView<E>,
    event_a: EventView<E>,
)
    requires
        0 <= a < clients.len(),
        0 <= b < clients.len(),
        a != b,
    ensures
        deliver(clients, b, event_b)[a] == clients[a],
        action_for(deliver(clients, b, event_b)[a], event_a) == action_for(clients[a], event_a),
        next_state(deliver(clients, b, event_b)[a], event_a) == next_state(clients[a], event_a),
{
}

/// One event on its way to one of several connections.
pub struct Delivery<E> {
    pub who: int,
    pub event: EventView<E>,
}

/// The states of several connections after all of `deliveries`, in their
/// order.
pub open spec fn deliver_all<E>(clients: Seq<ClientView>, deliveries: Seq<Delivery<E>>) -> Seq<
    ClientView,
>
    decreases deliveries.len(),
{
    if deliveries.len() == 0 {
        clients
    } else {
        deliver_all(
            deliver(clients, deliveries[0].who, deliveries[0].event),
            deliveries.drop_first(),
        )
    }
}

/// The events among `deliveries` that go to the connection at `who`, in
/// their order.
pub open spec fn events_for<E>(deliveries: Seq<Delivery<E>>, who: int) -> Seq<EventView<E>>
    decreases deliveries.len(),
{
    if deliveries.len() == 0 {
        Seq::empty()
    } else if deliveries[0].who == who {
        seq![deliveries[0].event] + events_for(deliveries.drop_first(), who)
    } else {
        events_for(deliveries.drop_first(), who)
    }
}

/// However the events of several connections are interleaved, each
/// connection ends where its own events alone take it: what the others send
/// and get leaves no trace in it.
pub proof fn lemma_interleaving_leaves_no_trace<E>(
    clients: Seq<ClientView>,
    deliveries: Seq<Delivery<E>>,
    a: int,
)
    requires
        0 <= a < clients.len(),
        forall|i: int|
            0 <= i < deliveries.len() ==> 0 <= (#[trigger] deliveries[i]).who < clients.len(),
    ensures
        deliver_all(clients, deliveries).len() == clients.len(),
        deliver_all(clients, deliveries)[a] == state_after(
            clients[a],
            events_for(deliveries, a),
        ),
    decreases deliveries.len(),
{
    if deliveries.len() > 0 {
        let first = deliveries[0];
        let rest = deliveries.drop_first();
        let next = deliver(clients, first.who, first.event);
        assert(0 <= first.who < clients.len());
        assert forall|i: int| 0 <= i < rest.len() implies 0 <= (#[trigger] rest[i]).who
            < next.len() by {
            assert(rest[i] == deliveries[i + 1]);
        }
        lemma_interleaving_leaves_no_trace(next, rest, a);
        if first.who == a {
            let own = events_for(deliveries, a);
            assert(own[0] == first.event);
            assert(own.drop_first() =~= events_for(rest, a));
        }
    }
}

/// A well-formed handler stays well-formed under every event that it accepts.
pub proof fn lemma_step_keeps_wf<E>(pre: ClientView, event: EventView<E>)
    requires
        pre.wf(),
        pre.accepts(event),
    ensures
        next_state(pre, event).wf(),
{
}

} // verus!
