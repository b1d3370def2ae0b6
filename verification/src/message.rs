//! The two message families of the wire protocol, as plain data.
//!
//! A client message carries at most one payload: an echo request or an
//! addition request. A server message carries at most one payload: an echo
//! reply or an addition result. Contracts speak of these values through the
//! ghost views `RequestView` and `ResponseView`.

use vstd::prelude::*;

verus! {

/// An echo payload: the text the client asks the server to send back.
#[derive(Clone, PartialEq, Eq, Debug)]
pub struct EchoMessage {
    pub content: String,
}

/// An addition request: the server is asked for the 32-bit sum of `a` and `b`.
#[derive(Clone, Copy, PartialEq, Eq, Debug)]
pub struct AddRequest {
    pub a: i32,
    pub b: i32,
}

/// The result of an addition request.
#[derive(Clone, Copy, PartialEq, Eq, Debug)]
pub struct AddResponse {
    pub result: i32,
}

/// The payload of a client message: exactly one variant at a time.
#[derive(Clone, PartialEq, Eq, Debug)]
pub enum ClientPayload {
    Echo(EchoMessage),
    Add(AddRequest),
}

/// A request as received from a client. `message` is `None` when the decoded
/// bytes populated no variant at all (an empty tagged union).
#[derive(Clone, PartialEq, Eq, Debug)]
pub struct ClientMessage {
    pub message: Option<ClientPayload>,
}

/// The payload of a server message: exactly one variant at a time.
#[derive(Clone, PartialEq, Eq, Debug)]
pub enum ServerPayload {
    Echo(EchoMessage),
    Add(AddResponse),
}

/// A response as sent to a client.
#[derive(Clone, PartialEq, Eq, Debug)]
pub struct ServerMessage {
    pub message: Option<ServerPayload>,
}

/// The mathematical value of a client message.
pub ghost enum RequestView {
    /// No variant was populated.
    Empty,
    /// An echo request with the given text.
    Echo(Seq<char>),
    /// An addition request with the given operands.
    Add(i32, i32),
}

/// The mathematical value of a server message's payload.
pub ghost enum ResponseView {
    /// An echo reply carrying the given text.
    Echo(Seq<char>),
    /// The result of an addition request.
    Sum(i32),
}

impl View for ClientMessage {
    type V = RequestView;

    open spec fn view(&self) -> RequestView {
        match self.message {
            None => RequestView::Empty,
            Some(ClientPayload::Echo(e)) => RequestView::Echo(e.content@),
            Some(ClientPayload::Add(r)) => RequestView::Add(r.a, r.b),
        }
    }
}

impl View for ServerMessage {
    type V = Option<ResponseView>;

    open spec fn view(&self) -> Option<ResponseView> {
        match self.message {
            None => None,
            Some(ServerPayload::Echo(e)) => Some(ResponseView::Echo(e.content@)),
            Some(ServerPayload::Add(r)) => Some(ResponseView::Sum(r.result)),
        }
    }
}

} // verus!
