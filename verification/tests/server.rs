use maelstrom_node::codec::DecodeError;
use maelstrom_node::id_gen::IdGenerator;
use maelstrom_node::server::{line_to_message, message_to_line, Outcome, Server};

// The init scenario, byte for byte.
#[test]
fn init_request_gets_init_ok() {
    let mut server = Server::default();
    let input = r#"{"src":"c1","dest":"n1","body":{"type":"init","msg_id":1,"node_id":"n1","node_ids":["n1"]}}"#;
    match server.process_line(input) {
        Outcome::Respond(line) => {
            assert_eq!(
                line,
                r#"{"src":"n1","dest":"c1","body":{"type":"init_ok","in_reply_to":1}}"#
            );
        },
        other => panic!("expected a response, got {:?}", other),
    }
}

// The echo scenario: the response carries the echoed text, the request's
// identifier under in_reply_to, and a fresh msg_id from the generator —
// the first one a fresh server hands out.
#[test]
fn echo_request_gets_echo_ok() {
    let mut server = Server::default();
    let input = r#"{"src":"c1","dest":"n1","body":{"type":"echo","msg_id":1,"echo":"hello"}}"#;
    match server.process_line(input) {
        Outcome::Respond(line) => {
            assert_eq!(
                line,
                r#"{"src":"n1","dest":"c1","body":{"type":"echo_ok","msg_id":0,"in_reply_to":1,"echo":"hello"}}"#
            );
        },
        other => panic!("expected a response, got {:?}", other),
    }
    // The identifier was consumed: the next echo carries the next one.
    assert_eq!(server.current_id(), 1);
}

// Address reversal: the response leaves from the node the request was
// addressed to, back to where the request came from.
#[test]
fn response_reverses_addresses() {
    let mut server = Server::default();
    let input = r#"{"src":"c1","dest":"n1","body":{"type":"echo","msg_id":9,"echo":"x"}}"#;
    let line = match server.process_line(input) {
        Outcome::Respond(line) => line,
        other => panic!("expected a response, got {:?}", other),
    };
    let response = line_to_message(&line).unwrap();
    assert_eq!(response.src, "n1");
    assert_eq!(response.dest, "c1");
}

// A malformed line is dropped with a warning outcome, and the loop goes
// on: the following valid echo still gets exactly one response.
#[test]
fn malformed_line_then_echo() {
    let mut server = Server::default();
    assert_eq!(server.process_line(r#"{"src": oops"#), Outcome::Malformed);
    let input = r#"{"src":"c1","dest":"n1","body":{"type":"echo","msg_id":1,"echo":"hello"}}"#;
    let mut responses = 0;
    for line in [r#"{"src": oops"#, input] {
        if let Outcome::Respond(_) = server.process_line(line) {
            responses += 1;
        }
    }
    assert_eq!(responses, 1);
}

// A well-formed line with an unknown type is dropped silently: zero
// responses, and the node keeps serving.
#[test]
fn unknown_type_is_ignored() {
    let mut server = Server::default();
    let unknown = r#"{"src":"c1","dest":"n1","body":{"type":"unknown_type","msg_id":1}}"#;
    assert_eq!(server.process_line(unknown), Outcome::Ignored);
    let echo = r#"{"src":"c1","dest":"n1","body":{"type":"echo","msg_id":2,"echo":"still here"}}"#;
    assert!(matches!(server.process_line(echo), Outcome::Respond(_)));
}

// Inbound replies and errors are recognized but routed nowhere.
#[test]
fn inbound_replies_are_ignored() {
    let mut server = Server::default();
    let init_ok = r#"{"src":"c1","dest":"n1","body":{"type":"init_ok","in_reply_to":1}}"#;
    assert_eq!(server.process_line(init_ok), Outcome::Ignored);
    let error = r#"{"src":"c1","dest":"n1","body":{"type":"error","in_reply_to":1,"code":13,"text":"no"}}"#;
    assert_eq!(server.process_line(error), Outcome::Ignored);
    let echo_ok = r#"{"src":"c1","dest":"n1","body":{"type":"echo_ok","msg_id":1,"in_reply_to":1,"echo":"e"}}"#;
    assert_eq!(server.process_line(echo_ok), Outcome::Ignored);
}

// A known type with broken fields is an invalid-payload outcome, distinct
// from malformed input.
#[test]
fn known_type_with_bad_fields_is_invalid() {
    let mut server = Server::default();
    let input = r#"{"src":"c1","dest":"n1","body":{"type":"echo","msg_id":1}}"#;
    assert_eq!(server.process_line(input), Outcome::Invalid);
}

// An envelope that matches no known shape is malformed, even though the
// JSON itself is fine.
#[test]
fn envelope_shape_errors_are_malformed() {
    let mut server = Server::default();
    assert_eq!(server.process_line(r#"[1,2,3]"#), Outcome::Malformed);
    assert_eq!(
        server.process_line(r#"{"dest":"n1","body":{"type":"init_ok","in_reply_to":1}}"#),
        Outcome::Malformed
    );
    assert_eq!(
        server.process_line(r#"{"src":"c1","dest":"n1","body":{"msg_id":1}}"#),
        Outcome::Malformed
    );
}

// Identifiers are handed out strictly increasing, with no duplicates and
// no skips, one per call.
#[test]
fn id_generator_is_monotonic() {
    let mut gen = IdGenerator::default();
    let ids: Vec<u64> = (0..100).map(|_| gen.next()).collect();
    for (i, id) in ids.iter().enumerate() {
        assert_eq!(*id, i as u64);
    }
    for w in ids.windows(2) {
        assert!(w[0] < w[1]);
    }
    assert_eq!(gen.current(), 100);
}

// Only echo handling consumes identifiers: a stretch of inits, drops and
// failures leaves the counter alone, so echo identifiers stay gapless.
#[test]
fn only_echo_consumes_identifiers() {
    let mut server = Server::default();
    let init = r#"{"src":"c1","dest":"n1","body":{"type":"init","msg_id":1,"node_id":"n1","node_ids":["n1"]}}"#;
    let unknown = r#"{"src":"c1","dest":"n1","body":{"type":"gossip","x":1}}"#;
    server.process_line(init);
    server.process_line(unknown);
    server.process_line("not json");
    assert_eq!(server.current_id(), 0);
    let echo = r#"{"src":"c1","dest":"n1","body":{"type":"echo","msg_id":5,"echo":"a"}}"#;
    server.process_line(echo);
    server.process_line(echo);
    assert_eq!(server.current_id(), 2);
}

// The two transport halves agree: a rendered message reads back as the
// same message.
#[test]
fn line_to_message_inverts_message_to_line() {
    let input = r#"{"src":"c1","dest":"n1","body":{"type":"echo","msg_id":1,"echo":"hello"}}"#;
    let m = line_to_message(input).unwrap();
    assert_eq!(message_to_line(&m), input);
}

#[test]
fn line_to_message_reports_syntax_errors() {
    assert_eq!(line_to_message("{").unwrap_err(), DecodeError::Syntax);
    assert_eq!(line_to_message(r#""just a string""#).unwrap_err(), DecodeError::Shape);
    let bad_fields = r#"{"src":"c1","dest":"n1","body":{"type":"echo","msg_id":"x","echo":"e"}}"#;
    assert_eq!(line_to_message(bad_fields).unwrap_err(), DecodeError::Fields);
}
