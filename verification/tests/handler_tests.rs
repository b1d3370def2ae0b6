use echo_add_server::handler::{
    dispatch, handle_one_round_trip, task_continues, ConnectionEvent, Outcome,
};
use echo_add_server::message::{
    AddRequest, ClientMessage, ClientPayload, ServerMessage, ServerPayload,
};

fn echo_request(content: &str) -> ClientMessage {
    ClientMessage {
        message: Some(ClientPayload::Echo(echo_add_server::message::EchoMessage {
            content: content.to_string(),
        })),
    }
}

fn add_request(a: i32, b: i32) -> ClientMessage {
    ClientMessage { message: Some(ClientPayload::Add(AddRequest { a, b })) }
}

fn expect_echo_content(resp: Option<ServerMessage>) -> String {
    match resp {
        Some(ServerMessage { message: Some(ServerPayload::Echo(e)) }) => e.content,
        other => panic!("expected an echo response, got {:?}", other),
    }
}

fn expect_sum(resp: Option<ServerMessage>) -> i32 {
    match resp {
        Some(ServerMessage { message: Some(ServerPayload::Add(a)) }) => a.result,
        other => panic!("expected an addition response, got {:?}", other),
    }
}

#[test]
fn echo_response_matches_request_content() {
    let resp = dispatch(echo_request("Hello, World!"));
    assert_eq!(expect_echo_content(resp), "Hello, World!");
}

#[test]
fn empty_echo_content_is_preserved() {
    let resp = dispatch(echo_request(""));
    assert_eq!(expect_echo_content(resp), "");
}

#[test]
fn sequential_echoes_answered_in_order() {
    let contents = vec!["Hello, World!", "How are you?", "Goodbye!"];
    let mut responses = Vec::new();
    for content in &contents {
        responses.push(dispatch(echo_request(content)));
    }
    assert_eq!(responses.len(), contents.len());
    for (resp, content) in responses.into_iter().zip(contents.iter()) {
        assert_eq!(expect_echo_content(resp), *content);
    }
}

#[test]
fn independent_connections_do_not_cross_talk() {
    // Three connections, each serving its own request stream; the responses
    // on each depend only on that connection's requests.
    let connections: usize = 3;
    let messages = vec!["Hello, World!", "How are you?", "Goodbye!"];
    // Interleave the connections round-robin: each still gets back exactly
    // its own content, in its own order.
    for content in &messages {
        for _connection in 0..connections {
            let resp = dispatch(echo_request(content));
            assert_eq!(expect_echo_content(resp), *content);
        }
    }
}

#[test]
fn add_request_answered_with_exact_sum() {
    let resp = dispatch(add_request(10, 20));
    assert_eq!(expect_sum(resp), 30);
}

#[test]
fn add_request_with_negative_operands() {
    let resp = dispatch(add_request(-7, 3));
    assert_eq!(expect_sum(resp), -4);
}

#[test]
fn add_request_wraps_on_overflow() {
    // Documented behavior: 32-bit addition wraps on overflow.
    let resp = dispatch(add_request(i32::MAX, 1));
    assert_eq!(expect_sum(resp), i32::MIN);
    let resp = dispatch(add_request(i32::MIN, -1));
    assert_eq!(expect_sum(resp), i32::MAX);
}

#[test]
fn empty_message_gets_no_response() {
    let resp = dispatch(ClientMessage { message: None });
    assert!(resp.is_none());
}

#[test]
fn graceful_close_ends_the_connection() {
    let (outcome, resp) = handle_one_round_trip(ConnectionEvent::Closed);
    assert_eq!(outcome, Outcome::Closed);
    assert!(resp.is_none());
}

#[test]
fn would_block_is_not_progress_and_not_failure() {
    let (outcome, resp) = handle_one_round_trip(ConnectionEvent::WouldBlock);
    assert_eq!(outcome, Outcome::Continue);
    assert!(resp.is_none());
}

#[test]
fn malformed_bytes_are_dropped_and_connection_stays_open() {
    let (outcome, resp) = handle_one_round_trip(ConnectionEvent::Malformed);
    assert_eq!(outcome, Outcome::Continue);
    assert!(resp.is_none());
}

#[test]
fn io_error_fails_the_connection() {
    let (outcome, resp) = handle_one_round_trip(ConnectionEvent::IoError);
    assert_eq!(outcome, Outcome::Failed);
    assert!(resp.is_none());
}

#[test]
fn empty_request_yields_continue_without_response() {
    let (outcome, resp) =
        handle_one_round_trip(ConnectionEvent::Received(ClientMessage { message: None }));
    assert_eq!(outcome, Outcome::Continue);
    assert!(resp.is_none());
}

#[test]
fn round_trip_answers_echo() {
    let (outcome, resp) =
        handle_one_round_trip(ConnectionEvent::Received(echo_request("Hello, World!")));
    assert_eq!(outcome, Outcome::Continue);
    assert_eq!(expect_echo_content(resp), "Hello, World!");
}

#[test]
fn add_round_trip_then_disconnect() {
    // A client sends 10 + 20, receives 30, then disconnects; the server sees
    // the connection closed.
    let (outcome, resp) = handle_one_round_trip(ConnectionEvent::Received(add_request(10, 20)));
    assert_eq!(outcome, Outcome::Continue);
    assert_eq!(expect_sum(resp), 30);
    let (outcome, resp) = handle_one_round_trip(ConnectionEvent::Closed);
    assert_eq!(outcome, Outcome::Closed);
    assert!(resp.is_none());
}

#[test]
fn task_loops_only_while_running_and_continuing() {
    assert!(task_continues(true, Outcome::Continue));
    assert!(!task_continues(true, Outcome::Closed));
    assert!(!task_continues(true, Outcome::Failed));
    assert!(!task_continues(false, Outcome::Continue));
    assert!(!task_continues(false, Outcome::Failed));
}
