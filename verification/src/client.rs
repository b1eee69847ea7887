//! The handler of one connection, as a step function.
//!
//! A [`Client`] owns the read buffer of its connection and knows what it is
//! waiting for. The caller owns the socket and the codec: it performs the
//! [`Action`] that a step returns and reports the outcome as the next
//! [`Event`]. Every read is taken to hold one whole request.

use vstd::prelude::*;
use crate::message::{
    dispatch, error_marker, fallback_message, response_for, ClientMessage, RequestView, Response,
    ResponseView, ServerMessage,
};

verus! {

/// The capacity of a connection's read buffer, in bytes.
pub const BUFFER_SIZE: usize = 512;

/// What a handler is waiting for.
#[derive(Clone, Copy, Debug, PartialEq, Eq)]
pub enum Phase {
    /// Not inside the loop: waiting to be invoked.
    Idle,
    /// The buffer is with the caller, who reads from the socket into it.
    Reading,
    /// The caller decodes the bytes of the last read.
    Decoding,
    /// The caller encodes, writes and flushes the last reply.
    Writing,
}

/// How a read from the socket ended. `E` is the caller's transport error.
#[derive(Clone, Debug, PartialEq, Eq)]
pub enum ReadOutcome<E> {
    /// So many bytes were read into the front of the buffer; zero means the
    /// peer has closed the connection.
    Data(usize),
    /// No data was ready yet.
    WouldBlock,
    /// Any other failure of the transport.
    Failed(E),
}

/// How decoding the bytes of one read ended.
#[derive(Clone, Debug, PartialEq, Eq)]
pub enum DecodeOutcome {
    /// The bytes are no request envelope.
    Malformed,
    /// The bytes are this envelope.
    Message(ClientMessage),
}

/// How writing and flushing a reply ended.
#[derive(Clone, Debug, PartialEq, Eq)]
pub enum WriteOutcome<E> {
    Flushed,
    Failed(E),
}

/// What the caller reports to the handler.
#[derive(Clone, Debug, PartialEq, Eq)]
pub enum Event<E> {
    /// The handler is invoked and enters its loop.
    Invoked,
    /// A read has ended; the buffer comes back.
    Read { buffer: Vec<u8>, outcome: ReadOutcome<E> },
    /// The bytes of the last read have been through the codec.
    Decoded(DecodeOutcome),
    /// The last reply has been through the socket.
    Written(WriteOutcome<E>),
}

/// Why a handler returned without an error.
#[derive(Clone, Copy, Debug, PartialEq, Eq)]
pub enum Completion {
    /// The peer closed the connection: it is to be torn down.
    Disconnected,
    /// Nothing was ready to read: the handler may be invoked again later.
    NoData,
}

/// Why a handler gave its connection up.
#[derive(Clone, Debug, PartialEq, Eq)]
pub enum HandleError<E> {
    /// A request envelope with no variant in it.
    UnknownMessageType,
    /// The transport failed while reading or writing.
    Io(E),
}

/// What the handler asks of the caller.
#[derive(Debug, PartialEq, Eq)]
pub enum Action<E> {
    /// Read from the socket into this buffer, up to its length.
    Read(Vec<u8>),
    /// Decode a request envelope from these bytes.
    Decode(Vec<u8>),
    /// Encode this response envelope, write all of it and flush.
    Send(ServerMessage),
    /// Leave the loop with this result.
    Finish(Result<Completion, HandleError<E>>),
}

/// The mathematical value of a [`DecodeOutcome`].
pub enum DecodeView {
    Malformed,
    Empty,
    Request(RequestView),
}

/// The mathematical value of an [`Event`].
pub enum EventView<E> {
    Invoked,
    Read { buffer: Seq<u8>, outcome: ReadOutcome<E> },
    Decoded(DecodeView),
    Written(WriteOutcome<E>),
}

/// The mathematical value of an [`Action`].
pub enum ActionView<E> {
    Read(Seq<u8>),
    Decode(Seq<u8>),
    /// The envelope's variant, if it holds one.
    Send(Option<ResponseView>),
    Finish(Result<Completion, HandleError<E>>),
}

/// The mathematical value of a [`Client`]: its phase and the bytes of its
/// buffer (none while the buffer is with the caller).
pub struct ClientView {
    pub phase: Phase,
    pub buffer: Seq<u8>,
}

impl View for DecodeOutcome {
    type V = DecodeView;

    open spec fn view(&self) -> DecodeView {
        match *self {
            DecodeOutcome::Malformed => DecodeView::Malformed,
            DecodeOutcome::Message(envelope) => match envelope.message {
                Some(request) => DecodeView::Request(request@),
                None => DecodeView::Empty,
            },
        }
    }
}

impl View for ServerMessage {
    type V = Option<ResponseView>;

    open spec fn view(&self) -> Option<ResponseView> {
        match self.message {
            Some(response) => Some(response@),
            None => None,
        }
    }
}

impl<E> View for Event<E> {
    type V = EventView<E>;

    open spec fn view(&self) -> EventView<E> {
        match *self {
            Event::Invoked => EventView::Invoked,
            Event::Read { buffer, outcome } => EventView::Read { buffer: buffer@, outcome },
            Event::Decoded(decoded) => EventView::Decoded(decoded@),
            Event::Written(outcome) => EventView::Written(outcome),
        }
    }
}

impl<E> View for Action<E> {
    type V = ActionView<E>;

    open spec fn view(&self) -> ActionView<E> {
        match *self {
            Action::Read(buffer) => ActionView::Read(buffer@),
            Action::Decode(bytes) => ActionView::Decode(bytes@),
            Action::Send(envelope) => ActionView::Send(envelope@),
            Action::Finish(result) => ActionView::Finish(result),
        }
    }
}

impl ClientView {
    /// The buffer is whole whenever the handler holds it.
    pub open spec fn wf(self) -> bool {
        if self.phase is Reading {
            self.buffer.len() == 0
        } else {
            self.buffer.len() == BUFFER_SIZE
        }
    }

    /// Whether `event` is the one that a handler in this state waits for: the
    /// event of its phase, and for a read the whole buffer with a count that
    /// fits in it.
    pub open spec fn accepts<E>(self, event: EventView<E>) -> bool {
        match event {
            EventView::Invoked => self.phase is Idle,
            EventView::Read { buffer, outcome } => {
                &&& self.phase is Reading
                &&& buffer.len() == BUFFER_SIZE
                &&& (outcome matches ReadOutcome::Data(n) ==> n <= BUFFER_SIZE)
            },
            EventView::Decoded(_) => self.phase is Decoding,
            EventView::Written(_) => self.phase is Writing,
        }
    }
}

/// The response that decoded bytes are owed, or `None` where the envelope
/// holds no variant and the connection ends. Bytes that are no request are
/// owed an echo of the error marker.
pub open spec fn reply_for(decoded: DecodeView) -> Option<ResponseView> {
    match decoded {
        DecodeView::Malformed => Some(ResponseView::Echo { content: error_marker() }),
        DecodeView::Empty => None,
        DecodeView::Request(request) => Some(response_for(request)),
    }
}

/// What the handler asks for when `event` reaches it in state `pre`.
pub open spec fn action_for<E>(pre: ClientView, event: EventView<E>) -> ActionView<E> {
    match event {
        EventView::Invoked => ActionView::Read(pre.buffer),
        EventView::Read { buffer, outcome } => match outcome {
            ReadOutcome::Data(n) => if n == 0 {
                ActionView::Finish(Ok(Completion::Disconnected))
            } else {
                ActionView::Decode(buffer.subrange(0, n as int))
            },
            ReadOutcome::WouldBlock => ActionView::Finish(Ok(Completion::NoData)),
            ReadOutcome::Failed(e) => ActionView::Finish(Err(HandleError::Io(e))),
        },
        EventView::Decoded(decoded) => match reply_for(decoded) {
            Some(response) => ActionView::Send(Some(response)),
            None => ActionView::Finish(Err(HandleError::UnknownMessageType)),
        },
        EventView::Written(outcome) => match outcome {
            WriteOutcome::Flushed => ActionView::Read(pre.buffer),
            WriteOutcome::Failed(e) => ActionView::Finish(Err(HandleError::Io(e))),
        },
    }
}

/// The phase that follows an action: the handler waits for what it asked.
pub open spec fn phase_after<E>(action: ActionView<E>) -> Phase {
    match action {
        ActionView::Read(_) => Phase::Reading,
        ActionView::Decode(_) => Phase::Decoding,
        ActionView::Send(_) => Phase::Writing,
        ActionView::Finish(_) => Phase::Idle,
    }
}

/// The state of the handler after `event` has reached it in state `pre`.
pub open spec fn next_state<E>(pre: ClientView, event: EventView<E>) -> ClientView {
    let action = action_for(pre, event);
    ClientView {
        phase: phase_after(action),
        buffer: match event {
            EventView::Read { buffer, outcome } => buffer,
            _ => if action is Read {
                Seq::empty()
            } else {
                pre.buffer
            },
        },
    }
}

/// The handler of one connection.
pub struct Client {
    buffer: Vec<u8>,
    phase: Phase,
}

impl View for Client {
    type V = ClientView;

    closed spec fn view(&self) -> ClientView {
        ClientView { phase: self.phase, buffer: self.buffer@ }
    }
}

/// The first `n` bytes of `buffer`.
fn prefix(buffer: &Vec<u8>, n: usize) -> (bytes: Vec<u8>)
    requires
        n <= buffer@.len(),
    ensures
        bytes@ == buffer@.subrange(0, n as int),
{
    let mut bytes: Vec<u8> = Vec::with_capacity(n);
    let mut i: usize = 0;
    while i < n
        invariant
            i <= n <= buffer@.len(),
            bytes@ == buffer@.subrange(0, i as int),
        decreases n - i,
    {
        bytes.push(buffer[i]);
        i += 1;
        assert(bytes@ =~= buffer@.subrange(0, i as int));
    }
    bytes
}

/// Decides the reply to the outcome of a decode: the response envelope with
/// the dispatched response for a request, the one with the fallback echo for
/// malformed bytes, and `None` for an envelope with no variant.
pub fn reply(decoded: DecodeOutcome) -> (result: Option<ServerMessage>)
    ensures
        match result {
            Some(envelope) => envelope@ is Some && reply_for(decoded@) == envelope@,
            None => reply_for(decoded@) is None,
        },
{
    match decoded {
        DecodeOutcome::Malformed => Some(
            ServerMessage { message: Some(Response::EchoMessage(fallback_message())) },
        ),
        DecodeOutcome::Message(envelope) => match envelope.message {
            Some(request) => Some(ServerMessage { message: Some(dispatch(request)) }),
            None => None,
        },
    }
}

impl Client {
    /// A handler outside its loop, with a zeroed buffer of [`BUFFER_SIZE`] bytes.
    pub fn new() -> (client: Client)
        ensures
            client@.wf(),
            client@.phase is Idle,
            client@.buffer == Seq::new(BUFFER_SIZE as nat, |i: int| 0u8),
    {
        let mut buffer: Vec<u8> = Vec::with_capacity(BUFFER_SIZE);
        let mut i: usize = 0;
        while i < BUFFER_SIZE
            invariant
                i <= BUFFER_SIZE,
                buffer@ == Seq::new(i as nat, |j: int| 0u8),
            decreases BUFFER_SIZE - i,
        {
            buffer.push(0u8);
            i += 1;
            assert(buffer@ =~= Seq::new(i as nat, |j: int| 0u8));
        }
        Client { buffer, phase: Phase::Idle }
    }

    /// What the handler is waiting for.
    pub fn phase(&self) -> (phase: Phase)
        ensures
            phase == self@.phase,
    {
        self.phase
    }

    /// Whether `event` is the one that this handler waits for.
    pub fn accepts<E>(&self, event: &Event<E>) -> (ok: bool)
        ensures
            ok == self@.accepts(event@),
    {
        match event {
            Event::Invoked => matches!(self.phase, Phase::Idle),
            Event::Read { buffer, outcome } => {
                let fits = match outcome {
                    ReadOutcome::Data(n) => *n <= BUFFER_SIZE,
                    _ => true,
                };
                matches!(self.phase, Phase::Reading) && buffer.len() == BUFFER_SIZE && fits
            },
            Event::Decoded(_) => matches!(self.phase, Phase::Decoding),
            Event::Written(_) => matches!(self.phase, Phase::Writing),
        }
    }

    /// Takes one step of the connection's loop: given what happened, says what
    /// to do next.
    ///
    /// Invoked, the handler asks for a read. A read of no bytes ends the loop
    /// (the peer is gone), and so does a read that would block; any other
    /// failed read ends it with that error. A read of `n` bytes asks for the
    /// first `n` bytes of the buffer to be decoded. Decoded bytes get their
    /// reply, see [`reply_for`]; an envelope with no variant ends the loop with
    /// [`HandleError::UnknownMessageType`]. A reply that went out is followed
    /// by the next read; one that did not ends the loop with the error.
    pub fn handle<E>(&mut self, event: Event<E>) -> (action: Action<E>)
        requires
            old(self)@.wf(),
            old(self)@.accepts(event@),
        ensures
            action@ == action_for(old(self)@, event@),
            final(self)@ == next_state(old(self)@, event@),
            final(self)@.wf(),
    {
        match event {
            Event::Invoked => self.next_read(),
            Event::Read { buffer, outcome } => {
                self.buffer = buffer;
                match outcome {
                    ReadOutcome::Data(n) => {
                        if n == 0 {
                            self.phase = Phase::Idle;
                            Action::Finish(Ok(Completion::Disconnected))
                        } else {
                            self.phase = Phase::Decoding;
                            Action::Decode(prefix(&self.buffer, n))
                        }
                    },
                    ReadOutcome::WouldBlock => {
                        self.phase = Phase::Idle;
                        Action::Finish(Ok(Completion::NoData))
                    },
                    ReadOutcome::Failed(e) => {
                        self.phase = Phase::Idle;
                        Action::Finish(Err(HandleError::Io(e)))
                    },
                }
            },
            Event::Decoded(decoded) => match reply(decoded) {
                Some(r) => {
                    self.phase = Phase::Writing;
                    Action::Send(r)
                },
                None => {
                    self.phase = Phase::Idle;
                    Action::Finish(Err(HandleError::UnknownMessageType))
                },
            },
            Event::Written(outcome) => match outcome {
                WriteOutcome::Flushed => self.next_read(),
                WriteOutcome::Failed(e) => {
                    self.phase = Phase::Idle;
                    Action::Finish(Err(HandleError::Io(e)))
                },
            },
        }
    }

    /// Hands the buffer out for the next read.
    fn next_read<E>(&mut self) -> (action: Action<E>)
        ensures
            action@ == ActionView::<E>::Read(old(self)@.buffer),
            final(self)@ == (ClientView { phase: Phase::Reading, buffer: Seq::empty() }),
    {
        let mut buffer: Vec<u8> = Vec::new();
        core::mem::swap(&mut self.buffer, &mut buffer);
        self.phase = Phase::Reading;
        Action::Read(buffer)
    }
}

} // verus!
