use maelstrom_node::codec::{decode_body, decode_message, encode_body, encode_message, DecodeError};
use maelstrom_node::models::{
    Body, Echo, EchoRequest, EchoResponse, Error, InitRequest, InitResponse, Message, Payload,
};
use maelstrom_node::json::Json;
use maelstrom_node::wire::{parse_json, render_json};

fn parse(text: &str) -> Json {
    parse_json(text).expect("well-formed JSON")
}

// The stored discriminator is not re-serialized: the wire `type` comes from
// the payload variant alone.
#[test]
fn serialize_init_req() {
    let e = InitRequest {
        msg_id: 1,
        node_id: "n1".to_string(),
        node_ids: vec!["n1".to_owned(), "n2".to_owned()],
    };

    let e = Body {
        msg_type: "woot".to_owned(), // It doesn't matter!
        payload: Payload::Init(e),
    };

    println!("SERIALIZE");
    let json = render_json(&encode_body(&e));
    println!("{}", json);
    let expected = r#"{"type":"init","msg_id":1,"node_id":"n1","node_ids":["n1","n2"]}"#;
    assert_eq!(json, expected);
}

#[test]
fn deserialize_error_req() {
    let json = r#"
            {
                "type": "error",
                "in_reply_to": 123,
                "code": 42,
                "text": "Hello"
            }
        "#;
    let b = decode_body(&parse(json)).unwrap();
    assert_eq!(b.msg_type, "error".to_owned());
    assert!(matches!(b.payload, Payload::Error(..)));
}

#[test]
fn deserialize_init_req() {
    let json = r#"
            {
                "type": "init",
                "msg_id": 1,
                "node_id": "n1",
                "node_ids": ["n1", "n2"]
            }
        "#;
    let b = decode_body(&parse(json)).unwrap();
    assert_eq!(b.msg_type, "init".to_owned());
    assert!(matches!(b.payload, Payload::Init(..)));
}

// A discriminator outside the known set is no failure: it decodes to the
// catch-all payload, which the dispatcher drops.
#[test]
fn deserialize_workload() {
    let json = r#"
            {
                "type": "test_payload",
                "in_reply_to": 1,
                "text": "hey there"
            }
        "#;
    let b = decode_body(&parse(json)).unwrap();
    assert_eq!(b.msg_type, "test_payload".to_owned());
    assert!(matches!(b.payload, Payload::Unknown));
}

fn body_of(payload: Payload, msg_type: &str) -> Body {
    Body { msg_type: msg_type.to_owned(), payload }
}

// Round trip per payload variant: decode(encode(v)) == v.
#[test]
fn round_trip_error() {
    let b = body_of(
        Payload::Error(Error { in_reply_to: 7, code: 12, text: "boom".to_owned() }),
        "error",
    );
    assert_eq!(decode_body(&encode_body(&b)).unwrap(), b);
}

#[test]
fn round_trip_init() {
    let b = body_of(
        Payload::Init(InitRequest {
            msg_id: 3,
            node_id: "n5".to_owned(),
            node_ids: vec!["n1".to_owned(), "n5".to_owned()],
        }),
        "init",
    );
    assert_eq!(decode_body(&encode_body(&b)).unwrap(), b);
}

#[test]
fn round_trip_init_empty_node_ids() {
    let b = body_of(
        Payload::Init(InitRequest { msg_id: 3, node_id: "n5".to_owned(), node_ids: vec![] }),
        "init",
    );
    assert_eq!(decode_body(&encode_body(&b)).unwrap(), b);
}

#[test]
fn round_trip_init_ok() {
    let b = body_of(Payload::InitOk(InitResponse { in_reply_to: 9 }), "init_ok");
    assert_eq!(decode_body(&encode_body(&b)).unwrap(), b);
}

#[test]
fn round_trip_echo() {
    let b = body_of(
        Payload::Workload(Echo::Echo(EchoRequest { msg_id: 4, echo: "ping".to_owned() })),
        "echo",
    );
    assert_eq!(decode_body(&encode_body(&b)).unwrap(), b);
}

#[test]
fn round_trip_echo_ok() {
    let b = body_of(
        Payload::Workload(Echo::EchoOk(EchoResponse {
            msg_id: 5,
            in_reply_to: 4,
            echo: "pong".to_owned(),
        })),
        "echo_ok",
    );
    assert_eq!(decode_body(&encode_body(&b)).unwrap(), b);
}

#[test]
fn round_trip_message() {
    let m = Message {
        src: "c1".to_owned(),
        dest: "n1".to_owned(),
        body: body_of(
            Payload::Workload(Echo::Echo(EchoRequest { msg_id: 1, echo: "hello".to_owned() })),
            "echo",
        ),
    };
    assert_eq!(decode_message(&encode_message(&m)).unwrap(), m);
}

// An unknown-type body keeps its discriminator through the round trip:
// encoding writes the stored string, decoding maps it back to the
// catch-all payload.
#[test]
fn round_trip_unknown() {
    let b = body_of(Payload::Unknown, "gossip");
    assert_eq!(render_json(&encode_body(&b)), r#"{"type":"gossip"}"#);
    assert_eq!(decode_body(&encode_body(&b)).unwrap(), b);
}

// The largest identifier the wire can carry survives the round trip.
#[test]
fn round_trip_u64_max() {
    let b = body_of(Payload::InitOk(InitResponse { in_reply_to: u64::MAX }), "init_ok");
    assert_eq!(decode_body(&encode_body(&b)).unwrap(), b);
}

// Shape errors: the value matches no known envelope or body shape.
#[test]
fn decode_body_not_an_object() {
    assert_eq!(decode_body(&parse("[1,2,3]")), Err(DecodeError::Shape));
}

#[test]
fn decode_body_missing_type() {
    assert_eq!(decode_body(&parse(r#"{"msg_id":1}"#)), Err(DecodeError::Shape));
}

#[test]
fn decode_body_type_not_a_string() {
    assert_eq!(decode_body(&parse(r#"{"type":3,"msg_id":1}"#)), Err(DecodeError::Shape));
}

#[test]
fn decode_message_missing_src() {
    let j = parse(r#"{"dest":"n1","body":{"type":"init_ok","in_reply_to":1}}"#);
    assert_eq!(decode_message(&j), Err(DecodeError::Shape));
}

#[test]
fn decode_message_body_not_an_object() {
    let j = parse(r#"{"src":"c1","dest":"n1","body":7}"#);
    assert_eq!(decode_message(&j), Err(DecodeError::Shape));
}

// Field errors: the discriminator is known but a payload field is missing
// or mistyped.
#[test]
fn decode_echo_missing_echo_field() {
    let j = parse(r#"{"type":"echo","msg_id":1}"#);
    assert_eq!(decode_body(&j), Err(DecodeError::Fields));
}

#[test]
fn decode_init_msg_id_mistyped() {
    let j = parse(r#"{"type":"init","msg_id":"1","node_id":"n1","node_ids":[]}"#);
    assert_eq!(decode_body(&j), Err(DecodeError::Fields));
}

#[test]
fn decode_init_node_ids_holds_a_number() {
    let j = parse(r#"{"type":"init","msg_id":1,"node_id":"n1","node_ids":["n1",2]}"#);
    assert_eq!(decode_body(&j), Err(DecodeError::Fields));
}

// Numbers outside u64 fail exactly the fields that need an integer.
#[test]
fn decode_fractional_id_is_a_field_error() {
    let j = parse(r#"{"type":"init_ok","in_reply_to":1.5}"#);
    assert_eq!(decode_body(&j), Err(DecodeError::Fields));
}

#[test]
fn decode_negative_id_is_a_field_error() {
    let j = parse(r#"{"type":"init_ok","in_reply_to":-3}"#);
    assert_eq!(decode_body(&j), Err(DecodeError::Fields));
}

// Extra fields are ignored, as the tagged decode reads only what the
// variant needs.
#[test]
fn decode_ignores_extra_fields() {
    let j = parse(r#"{"type":"echo","msg_id":1,"echo":"hi","flavor":"lemon-lime"}"#);
    let b = decode_body(&j).unwrap();
    assert_eq!(
        b.payload,
        Payload::Workload(Echo::Echo(EchoRequest { msg_id: 1, echo: "hi".to_owned() }))
    );
}

// The parser really parses: structure comes back as data, not as the
// input text.
#[test]
fn parse_json_builds_the_tree() {
    let j = parse(r#"{"a":[1,"x",true,null]}"#);
    match &j {
        Json::Obj(entries) => {
            assert_eq!(entries.len(), 1);
            assert_eq!(entries[0].0, "a");
            match &entries[0].1 {
                Json::Arr(items) => {
                    assert!(matches!(items[0], Json::Int(1)));
                    assert!(matches!(&items[1], Json::Str(s) if s == "x"));
                    assert!(matches!(items[2], Json::Bool(true)));
                    assert!(matches!(items[3], Json::Null));
                },
                other => panic!("expected an array, got {:?}", other),
            }
        },
        other => panic!("expected an object, got {:?}", other),
    }
}

#[test]
fn parse_json_rejects_malformed_text() {
    assert!(parse_json(r#"{"type":"#).is_none());
    assert!(parse_json("").is_none());
    assert!(parse_json("{} trailing").is_none());
}

// Rendering escapes strings, so the output line stays one well-formed
// JSON value.
#[test]
fn render_escapes_strings() {
    let b = body_of(
        Payload::Workload(Echo::Echo(EchoRequest { msg_id: 1, echo: "a\"b\nc".to_owned() })),
        "echo",
    );
    let line = render_json(&encode_body(&b));
    assert_eq!(line, r#"{"type":"echo","msg_id":1,"echo":"a\"b\nc"}"#);
    assert_eq!(decode_body(&parse(&line)).unwrap(), b);
}
