//! The per-connection dispatch engine.
//!
//! One poll of a connection yields a `ConnectionEvent`; the handler maps it
//! to an `Outcome` (should the connection's loop go on?) and to at most one
//! response to write back. `spec_response` and `spec_step` are the
//! mathematical statement of that mapping.

use vstd::prelude::*;

use crate::message::{
    AddResponse, ClientMessage, ClientPayload, RequestView, ResponseView, ServerMessage,
    ServerPayload,
};

verus! {

/// What one round trip decided about the connection.
#[derive(Clone, Copy, PartialEq, Eq, Structural, Debug)]
pub enum Outcome {
    /// The connection stays open; poll it again.
    Continue,
    /// The remote end closed the connection gracefully.
    Closed,
    /// The connection failed with an unrecoverable transport error.
    Failed,
}

/// The response owed to a request, as a mathematical function.
///
/// An echo request is answered with its own content; an addition request with
/// the 32-bit wrapping sum of its operands (documented choice: on overflow
/// the sum wraps modulo 2^32 rather than failing); an empty request gets no
/// response at all.
pub open spec fn spec_response(req: RequestView) -> Option<ResponseView> {
    match req {
        RequestView::Empty => None,
        RequestView::Echo(content) => Some(ResponseView::Echo(content)),
        RequestView::Add(a, b) => Some(ResponseView::Sum(a.wrapping_add(b))),
    }
}

/// The payload of an optional response, for contracts over `dispatch`.
pub open spec fn response_of(resp: Option<ServerMessage>) -> Option<ResponseView> {
    match resp {
        None => None,
        Some(m) => m@,
    }
}

/// Builds the response owed to one decoded request, or `None` when the
/// request populated no variant. Addition uses 32-bit wrapping arithmetic.
pub fn dispatch(msg: ClientMessage) -> (resp: Option<ServerMessage>)
    ensures
        response_of(resp) == spec_response(msg@),
        resp is Some <==> spec_response(msg@) is Some,
{
    match msg.message {
        None => None,
        Some(ClientPayload::Echo(echo)) => Some(
            ServerMessage { message: Some(ServerPayload::Echo(echo)) },
        ),
        Some(ClientPayload::Add(add)) => {
            let result = add.a.wrapping_add(add.b);
            Some(ServerMessage { message: Some(ServerPayload::Add(AddResponse { result })) })
        },
    }
}

/// What one non-blocking poll of a connection produced, as handed to the
/// handler by whoever owns the stream and the codec.
///
/// One poll is one bounded read: a message must arrive whole in a single
/// read for the codec to decode it, or it counts as malformed. There is no
/// length-prefixed framing.
pub enum ConnectionEvent {
    /// The read returned zero bytes: the remote end closed gracefully.
    Closed,
    /// Nothing to read yet; not an error.
    WouldBlock,
    /// Bytes were read but did not decode to a client message; they are
    /// discarded.
    Malformed,
    /// Bytes were read and decoded to this client message.
    Received(ClientMessage),
    /// The read or a later write failed with an error other than would-block.
    IoError,
}

/// The mathematical value of a connection event.
pub ghost enum EventView {
    Closed,
    WouldBlock,
    Malformed,
    Received(RequestView),
    IoError,
}

impl View for ConnectionEvent {
    type V = EventView;

    open spec fn view(&self) -> EventView {
        match self {
            ConnectionEvent::Closed => EventView::Closed,
            ConnectionEvent::WouldBlock => EventView::WouldBlock,
            ConnectionEvent::Malformed => EventView::Malformed,
            ConnectionEvent::Received(msg) => EventView::Received(msg@),
            ConnectionEvent::IoError => EventView::IoError,
        }
    }
}

/// One round trip as a mathematical function: the outcome of the connection
/// and the response owed, for each event.
///
/// A graceful close yields `Closed`; would-block, malformed bytes and an
/// empty request all yield `Continue` with nothing to write; a populated
/// request yields `Continue` and its response; any other transport error
/// yields `Failed`. At most one response is produced per event.
pub open spec fn spec_step(event: EventView) -> (Outcome, Option<ResponseView>) {
    match event {
        EventView::Closed => (Outcome::Closed, None),
        EventView::WouldBlock => (Outcome::Continue, None),
        EventView::Malformed => (Outcome::Continue, None),
        EventView::Received(req) => (Outcome::Continue, spec_response(req)),
        EventView::IoError => (Outcome::Failed, None),
    }
}

/// Handles one round trip on a connection: maps the event of one poll to the
/// connection's outcome and to the response (if any) the caller must write
/// back and flush before polling again.
pub fn handle_one_round_trip(event: ConnectionEvent) -> (r: (Outcome, Option<ServerMessage>))
    ensures
        r.0 == spec_step(event@).0,
        response_of(r.1) == spec_step(event@).1,
        r.1 is Some <==> spec_step(event@).1 is Some,
{
    match event {
        ConnectionEvent::Closed => (Outcome::Closed, None),
        ConnectionEvent::WouldBlock => (Outcome::Continue, None),
        ConnectionEvent::Malformed => (Outcome::Continue, None),
        ConnectionEvent::Received(msg) => (Outcome::Continue, dispatch(msg)),
        ConnectionEvent::IoError => (Outcome::Failed, None),
    }
}

/// Decides whether a connection's owning task loops for another round trip:
/// only while the shared running flag is set and the last round trip asked to
/// continue. A `Closed` or `Failed` outcome, or a cleared flag, ends the task.
pub fn task_continues(running: bool, outcome: Outcome) -> (go_on: bool)
    ensures
        go_on == (running && outcome == Outcome::Continue),
{
    running && matches!(outcome, Outcome::Continue)
}

} // verus!
