//! The messages that travel in each direction, their mathematical views, and
//! the dispatch from a request to its response.

use vstd::prelude::*;

verus! {

/// A request to add two 32-bit integers.
#[derive(Clone, Debug, PartialEq, Eq)]
pub struct AddRequest {
    pub a: i32,
    pub b: i32,
}

/// The answer to an [`AddRequest`].
#[derive(Clone, Debug, PartialEq, Eq)]
pub struct AddResponse {
    pub result: i32,
}

/// A text that the server sends back unchanged.
#[derive(Clone, Debug, PartialEq, Eq)]
pub struct EchoMessage {
    pub content: String,
}

/// The populated variant of a request envelope.
#[derive(Clone, Debug, PartialEq, Eq)]
pub enum Request {
    AddRequest(AddRequest),
    EchoMessage(EchoMessage),
}

/// The populated variant of a response envelope.
#[derive(Clone, Debug, PartialEq, Eq)]
pub enum Response {
    AddResponse(AddResponse),
    EchoMessage(EchoMessage),
}

/// The request envelope: one variant, or none.
#[derive(Clone, Debug, PartialEq, Eq)]
pub struct ClientMessage {
    pub message: Option<Request>,
}

/// The response envelope: one variant, or none.
#[derive(Clone, Debug, PartialEq, Eq)]
pub struct ServerMessage {
    pub message: Option<Response>,
}

/// What a request says, as mathematical values.
pub enum RequestView {
    Add { a: int, b: int },
    Echo { content: Seq<char> },
}

/// What a response says, as mathematical values.
pub enum ResponseView {
    Add { result: int },
    Echo { content: Seq<char> },
}

impl View for Request {
    type V = RequestView;

    open spec fn view(&self) -> RequestView {
        match *self {
            Request::AddRequest(r) => RequestView::Add { a: r.a as int, b: r.b as int },
            Request::EchoMessage(m) => RequestView::Echo { content: m.content@ },
        }
    }
}

impl View for Response {
    type V = ResponseView;

    open spec fn view(&self) -> ResponseView {
        match *self {
            Response::AddResponse(r) => ResponseView::Add { result: r.result as int },
            Response::EchoMessage(m) => ResponseView::Echo { content: m.content@ },
        }
    }
}

/// The sum of two 32-bit integers in two's complement: the exact sum where it
/// fits in 32 bits, else the exact sum moved by 2^32 back into range.
pub open spec fn wrapped_sum(a: int, b: int) -> int {
    let exact = a + b;
    if exact > i32::MAX {
        exact - 0x1_0000_0000
    } else if exact < i32::MIN {
        exact + 0x1_0000_0000
    } else {
        exact
    }
}

/// The response that a request is owed.
pub open spec fn response_for(request: RequestView) -> ResponseView {
    match request {
        RequestView::Add { a, b } => ResponseView::Add { result: wrapped_sum(a, b) },
        RequestView::Echo { content } => ResponseView::Echo { content },
    }
}

/// Computes the response to a request. An addition wraps around on overflow;
/// an echo gives the text back as it came.
pub fn dispatch(request: Request) -> (response: Response)
    ensures
        response@ == response_for(request@),
{
    match request {
        Request::AddRequest(add_request) => {
            let result: i32 = add_request.a.wrapping_add(add_request.b);
            Response::AddResponse(AddResponse { result })
        },
        Request::EchoMessage(echo_message) => Response::EchoMessage(echo_message),
    }
}

/// The text of the reply to bytes that are no request.
pub open spec fn error_marker() -> Seq<char> {
    "Error"@
}

/// The reply to bytes that are no request: an echo of the error marker.
pub fn fallback_message() -> (message: EchoMessage)
    ensures
        message.content@ == error_marker(),
{
    EchoMessage { content: "Error".to_owned() }
}

/// An addition never leaves the 32-bit range, and is exact wherever the
/// exact sum is in range.
pub proof fn lemma_wrapped_sum_in_range(a: i32, b: i32)
    ensures
        i32::MIN <= wrapped_sum(a as int, b as int) <= i32::MAX,
        i32::MIN <= a + b <= i32::MAX ==> wrapped_sum(a as int, b as int) == a + b,
{
}

} // verus!
