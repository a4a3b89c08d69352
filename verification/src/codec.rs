use vstd::prelude::*;

use crate::json::{spec_field, Json, JsonModel};
use crate::models::{
    Body, BodyModel, Echo, EchoModel, EchoRequest, EchoRequestModel, EchoResponse,
    EchoResponseModel, Error, ErrorModel, InitRequest, InitRequestModel, InitResponse,
    InitResponseModel, Message, MessageModel, Payload, PayloadModel,
};
use crate::models::{wf_body, wf_message};

verus! {

/// Why a wire value failed to decode.
///
/// The dispatch loop treats the variants differently: `Syntax` and `Shape`
/// are malformed input (logged as a warning, dropped), `Fields` is a
/// recognized discriminator whose payload fields are missing or mistyped
/// (logged as an error, dropped).  A well-formed object with an unknown
/// discriminator is *not* an error: it decodes to [`Payload::Unknown`].
#[derive(Debug, Clone, Copy, PartialEq, Eq, Structural)]
pub enum DecodeError {
    /// The line is not valid JSON at all.
    Syntax,
    /// The value is valid JSON but does not match the envelope or body
    /// shape: not an object, or `src`/`dest`/`body`/`type` missing or of
    /// the wrong kind.
    Shape,
    /// The discriminator is known but a required payload field is missing
    /// or of the wrong kind.
    Fields,
}

// ---------------------------------------------------------------------------
// Decoding, specification.
// ---------------------------------------------------------------------------

/// The field `key` of `j` read as an integer.
pub open spec fn spec_u64_field(j: JsonModel, key: Seq<char>) -> Option<u64> {
    match spec_field(j, key) {
        Some(JsonModel::Int(n)) => Some(n),
        _ => None,
    }
}

/// The field `key` of `j` read as a string.
pub open spec fn spec_str_field(j: JsonModel, key: Seq<char>) -> Option<Seq<char>> {
    match spec_field(j, key) {
        Some(JsonModel::Str(s)) => Some(s),
        _ => None,
    }
}

/// The elements of `items` read as strings; `None` if any element is not
/// a string.
pub open spec fn spec_str_items(items: Seq<JsonModel>) -> Option<Seq<Seq<char>>> {
    if forall|i: int| 0 <= i < items.len() ==> (#[trigger] items[i]) is Str {
        Some(Seq::new(items.len(), |i: int| items[i]->Str_0))
    } else {
        None
    }
}

/// The field `key` of `j` read as an array of strings.
pub open spec fn spec_str_array_field(j: JsonModel, key: Seq<char>) -> Option<Seq<Seq<char>>> {
    match spec_field(j, key) {
        Some(JsonModel::Arr(items)) => spec_str_items(items),
        _ => None,
    }
}

/// The payload selected by the discriminator `t` among the fields of the
/// body object `j`.  `None` means `t` is a known discriminator whose
/// required fields are not all present with the right kinds; a `t` outside
/// the known set always yields `Unknown`, never a failure.
pub open spec fn spec_decode_payload(t: Seq<char>, j: JsonModel) -> Option<PayloadModel> {
    if t == "error"@ {
        match (spec_u64_field(j, "in_reply_to"@), spec_u64_field(j, "code"@), spec_str_field(
            j,
            "text"@,
        )) {
            (Some(in_reply_to), Some(code), Some(text)) => Some(
                PayloadModel::Error(ErrorModel { in_reply_to, code, text }),
            ),
            _ => None,
        }
    } else if t == "init"@ {
        match (spec_u64_field(j, "msg_id"@), spec_str_field(j, "node_id"@), spec_str_array_field(
            j,
            "node_ids"@,
        )) {
            (Some(msg_id), Some(node_id), Some(node_ids)) => Some(
                PayloadModel::Init(InitRequestModel { msg_id, node_id, node_ids }),
            ),
            _ => None,
        }
    } else if t == "init_ok"@ {
        match spec_u64_field(j, "in_reply_to"@) {
            Some(in_reply_to) => Some(PayloadModel::InitOk(InitResponseModel { in_reply_to })),
            None => None,
        }
    } else if t == "echo"@ {
        match (spec_u64_field(j, "msg_id"@), spec_str_field(j, "echo"@)) {
            (Some(msg_id), Some(echo)) => Some(
                PayloadModel::Workload(EchoModel::Echo(EchoRequestModel { msg_id, echo })),
            ),
            _ => None,
        }
    } else if t == "echo_ok"@ {
        match (spec_u64_field(j, "msg_id"@), spec_u64_field(j, "in_reply_to"@), spec_str_field(
            j,
            "echo"@,
        )) {
            (Some(msg_id), Some(in_reply_to), Some(echo)) => Some(
                PayloadModel::Workload(
                    EchoModel::EchoOk(EchoResponseModel { msg_id, in_reply_to, echo }),
                ),
            ),
            _ => None,
        }
    } else {
        Some(PayloadModel::Unknown)
    }
}

/// The body decoded from the wire object `j`: the discriminator is read
/// first, then the payload fields are decoded against the variant the
/// discriminator selects.
pub open spec fn spec_decode_body(j: JsonModel) -> Result<BodyModel, DecodeError> {
    match spec_field(j, "type"@) {
        Some(JsonModel::Str(t)) => match spec_decode_payload(t, j) {
            Some(payload) => Ok(BodyModel { msg_type: t, payload }),
            None => Err(DecodeError::Fields),
        },
        _ => Err(DecodeError::Shape),
    }
}

/// The message decoded from the wire object `j`: string `src` and `dest`
/// plus a decodable `body` object.
pub open spec fn spec_decode_message(j: JsonModel) -> Result<MessageModel, DecodeError> {
    match (spec_str_field(j, "src"@), spec_str_field(j, "dest"@), spec_field(j, "body"@)) {
        (Some(src), Some(dest), Some(bj)) => match spec_decode_body(bj) {
            Ok(body) => Ok(MessageModel { src, dest, body }),
            Err(e) => Err(e),
        },
        _ => Err(DecodeError::Shape),
    }
}

// ---------------------------------------------------------------------------
// Decoding, executable.
// ---------------------------------------------------------------------------

/// Whether the string `s` holds exactly the text `lit`.
fn str_is(s: &String, lit: &str) -> (r: bool)
    ensures
        r == (s@ == lit@),
{
    let owned = lit.to_owned();
    *s == owned
}

/// Reads the integer field `key` of `j`.
fn u64_field(j: &Json, key: &str) -> (r: Option<u64>)
    ensures
        r == spec_u64_field(j@, key@),
{
    match j.field(key) {
        Some(Json::Int(n)) => Some(*n),
        _ => None,
    }
}

/// Reads the string field `key` of `j`.
fn str_field(j: &Json, key: &str) -> (r: Option<String>)
    ensures
        match r {
            Some(s) => spec_str_field(j@, key@) == Some(s@),
            None => spec_str_field(j@, key@) is None,
        },
{
    match j.field(key) {
        Some(Json::Str(s)) => Some(s.clone()),
        _ => None,
    }
}

/// Reads the string-array field `key` of `j`.
fn str_array_field(j: &Json, key: &str) -> (r: Option<Vec<String>>)
    ensures
        match r {
            Some(v) => spec_str_array_field(j@, key@) == Some(crate::models::strings_model(v@)),
            None => spec_str_array_field(j@, key@) is None,
        },
{
    match j.field(key) {
        Some(Json::Arr(items)) => {
            proof {
                crate::json::lemma_arr_model(*items);
            }
            let ghost im = Seq::new(items@.len(), |i: int| crate::json::json_model(items@[i]));
            let mut out: Vec<String> = Vec::new();
            let n = items.len();
            for i in 0..n
                invariant
                    n == items.len(),
                    im == Seq::new(items@.len(), |k: int| crate::json::json_model(items@[k])),
                    spec_field(j@, key@) == Some(JsonModel::Arr(im)),
                    out@.len() == i,
                    forall|k: int|
                        0 <= k < i ==> (#[trigger] im[k]) is Str && out@[k]@ == im[k]->Str_0,
            {
                match &items[i] {
                    Json::Str(s) => {
                        out.push(s.clone());
                    },
                    _ => {
                        proof {
                            assert(!(im[i as int] is Str));
                        }
                        return None;
                    },
                }
            }
            proof {
                assert(spec_str_items(im) == Some(crate::models::strings_model(out@))) by {
                    assert(forall|k: int| 0 <= k < im.len() ==> (#[trigger] im[k]) is Str);
                    assert(Seq::new(im.len(), |k: int| im[k]->Str_0) =~= crate::models::strings_model(
                        out@,
                    ));
                }
            }
            Some(out)
        },
        _ => None,
    }
}

/// Decodes the payload fields of the body object `j` against the variant
/// that the discriminator `t` selects.
fn decode_payload(t: &String, j: &Json) -> (r: Option<Payload>)
    ensures
        match r {
            Some(p) => spec_decode_payload(t@, j@) == Some(p@),
            None => spec_decode_payload(t@, j@) is None,
        },
{
    if str_is(t, "error") {
        match (u64_field(j, "in_reply_to"), u64_field(j, "code"), str_field(j, "text")) {
            (Some(in_reply_to), Some(code), Some(text)) => Some(
                Payload::Error(Error { in_reply_to, code, text }),
            ),
            _ => None,
        }
    } else if str_is(t, "init") {
        match (u64_field(j, "msg_id"), str_field(j, "node_id"), str_array_field(j, "node_ids")) {
            (Some(msg_id), Some(node_id), Some(node_ids)) => Some(
                Payload::Init(InitRequest { msg_id, node_id, node_ids }),
            ),
            _ => None,
        }
    } else if str_is(t, "init_ok") {
        match u64_field(j, "in_reply_to") {
            Some(in_reply_to) => Some(Payload::InitOk(InitResponse { in_reply_to })),
            None => None,
        }
    } else if str_is(t, "echo") {
        match (u64_field(j, "msg_id"), str_field(j, "echo")) {
            (Some(msg_id), Some(echo)) => Some(
                Payload::Workload(Echo::Echo(EchoRequest { msg_id, echo })),
            ),
            _ => None,
        }
    } else if str_is(t, "echo_ok") {
        match (u64_field(j, "msg_id"), u64_field(j, "in_reply_to"), str_field(j, "echo")) {
            (Some(msg_id), Some(in_reply_to), Some(echo)) => Some(
                Payload::Workload(Echo::EchoOk(EchoResponse { msg_id, in_reply_to, echo })),
            ),
            _ => None,
        }
    } else {
        Some(Payload::Unknown)
    }
}

/// Decodes one body from its wire object: the discriminator first, then
/// the payload fields against the variant it selects.
pub fn decode_body(j: &Json) -> (r: Result<Body, DecodeError>)
    ensures
        match r {
            Ok(b) => spec_decode_body(j@) == Ok::<BodyModel, DecodeError>(b@),
            Err(e) => spec_decode_body(j@) == Err::<BodyModel, DecodeError>(e),
        },
{
    let t = match j.field("type") {
        Some(Json::Str(s)) => s,
        _ => {
            return Err(DecodeError::Shape);
        },
    };
    match decode_payload(t, j) {
        Some(payload) => Ok(Body { msg_type: t.clone(), payload }),
        None => Err(DecodeError::Fields),
    }
}

/// Decodes one envelope from its wire object.
pub fn decode_message(j: &Json) -> (r: Result<Message, DecodeError>)
    ensures
        match r {
            Ok(m) => spec_decode_message(j@) == Ok::<MessageModel, DecodeError>(m@),
            Err(e) => spec_decode_message(j@) == Err::<MessageModel, DecodeError>(e),
        },
{
    let src = match str_field(j, "src") {
        Some(s) => s,
        None => {
            return Err(DecodeError::Shape);
        },
    };
    let dest = match str_field(j, "dest") {
        Some(s) => s,
        None => {
            return Err(DecodeError::Shape);
        },
    };
    let body_json = match j.field("body") {
        Some(v) => v,
        None => {
            return Err(DecodeError::Shape);
        },
    };
    match decode_body(body_json) {
        Ok(body) => Ok(Message { src, dest, body }),
        Err(e) => Err(e),
    }
}

// ---------------------------------------------------------------------------
// Encoding, specification.
// ---------------------------------------------------------------------------

/// The wire object for the body `b`, flattened: the discriminator is
/// derived from the payload variant and written as a `type` entry beside
/// the payload's own fields, with no nested wrapper.  Only for `Unknown`
/// payloads — which the node itself never sends — is the stored
/// discriminator used.
pub open spec fn spec_encode_body(b: BodyModel) -> JsonModel {
    JsonModel::Obj(
        match b.payload {
            PayloadModel::Error(e) => seq![
                ("type"@, JsonModel::Str("error"@)),
                ("in_reply_to"@, JsonModel::Int(e.in_reply_to)),
                ("code"@, JsonModel::Int(e.code)),
                ("text"@, JsonModel::Str(e.text)),
            ],
            PayloadModel::Init(r) => seq![
                ("type"@, JsonModel::Str("init"@)),
                ("msg_id"@, JsonModel::Int(r.msg_id)),
                ("node_id"@, JsonModel::Str(r.node_id)),
                ("node_ids"@, JsonModel::Arr(r.node_ids.map_values(|s| JsonModel::Str(s)))),
            ],
            PayloadModel::InitOk(r) => seq![
                ("type"@, JsonModel::Str("init_ok"@)),
                ("in_reply_to"@, JsonModel::Int(r.in_reply_to)),
            ],
            PayloadModel::Workload(EchoModel::Echo(r)) => seq![
                ("type"@, JsonModel::Str("echo"@)),
                ("msg_id"@, JsonModel::Int(r.msg_id)),
                ("echo"@, JsonModel::Str(r.echo)),
            ],
            PayloadModel::Workload(EchoModel::EchoOk(r)) => seq![
                ("type"@, JsonModel::Str("echo_ok"@)),
                ("msg_id"@, JsonModel::Int(r.msg_id)),
                ("in_reply_to"@, JsonModel::Int(r.in_reply_to)),
                ("echo"@, JsonModel::Str(r.echo)),
            ],
            PayloadModel::Unknown => seq![("type"@, JsonModel::Str(b.msg_type))],
        },
    )
}

/// The wire object for the envelope `m`: `src`, `dest` and the flattened
/// body object, in that order.
pub open spec fn spec_encode_message(m: MessageModel) -> JsonModel {
    JsonModel::Obj(
        seq![
            ("src"@, JsonModel::Str(m.src)),
            ("dest"@, JsonModel::Str(m.dest)),
            ("body"@, spec_encode_body(m.body)),
        ],
    )
}

// ---------------------------------------------------------------------------
// Laws of the codec.
// ---------------------------------------------------------------------------

/// The wire keys that can share an object are pairwise distinct strings.
proof fn lemma_distinct_keys()
    ensures
        "type"@ != "in_reply_to"@,
        "type"@ != "code"@,
        "type"@ != "text"@,
        "in_reply_to"@ != "code"@,
        "in_reply_to"@ != "text"@,
        "code"@ != "text"@,
        "type"@ != "msg_id"@,
        "type"@ != "node_id"@,
        "type"@ != "node_ids"@,
        "msg_id"@ != "node_id"@,
        "msg_id"@ != "node_ids"@,
        "node_id"@ != "node_ids"@,
        "type"@ != "echo"@,
        "msg_id"@ != "echo"@,
        "msg_id"@ != "in_reply_to"@,
        "in_reply_to"@ != "echo"@,
        "src"@ != "dest"@,
        "src"@ != "body"@,
        "dest"@ != "body"@,
        "init"@ != "error"@,
        "init_ok"@ != "error"@,
        "init_ok"@ != "init"@,
        "echo"@ != "error"@,
        "echo"@ != "init"@,
        "echo"@ != "init_ok"@,
        "echo_ok"@ != "error"@,
        "echo_ok"@ != "init"@,
        "echo_ok"@ != "init_ok"@,
        "echo_ok"@ != "echo"@,
{
    reveal_strlit("error");
    reveal_strlit("init");
    reveal_strlit("init_ok");
    reveal_strlit("echo_ok");
    reveal_strlit("type");
    reveal_strlit("in_reply_to");
    reveal_strlit("code");
    reveal_strlit("text");
    reveal_strlit("msg_id");
    reveal_strlit("node_id");
    reveal_strlit("node_ids");
    reveal_strlit("echo");
    reveal_strlit("src");
    reveal_strlit("dest");
    reveal_strlit("body");
    assert("type"@.len() == 4 && "type"@[0] == 't' && "type"@[1] == 'y');
    assert("in_reply_to"@.len() == 11);
    assert("code"@.len() == 4 && "code"@[0] == 'c');
    assert("text"@.len() == 4 && "text"@[0] == 't' && "text"@[1] == 'e');
    assert("msg_id"@.len() == 6);
    assert("node_id"@.len() == 7);
    assert("node_ids"@.len() == 8);
    assert("echo"@.len() == 4 && "echo"@[0] == 'e');
    assert("src"@.len() == 3);
    assert("dest"@.len() == 4 && "dest"@[0] == 'd');
    assert("body"@.len() == 4 && "body"@[0] == 'b');
    assert("error"@.len() == 5);
    assert("init"@.len() == 4 && "init"@[0] == 'i');
    assert("init_ok"@.len() == 7 && "init_ok"@[0] == 'i');
    assert("echo_ok"@.len() == 7 && "echo_ok"@[0] == 'e');
}

/// Round trip: decoding an encoded body gives the body back.  This holds
/// for every well-formed body — each of the known payload variants, and
/// `Unknown` bodies whose discriminator is outside the known set.
pub proof fn lemma_body_round_trip(b: BodyModel)
    requires
        wf_body(b),
    ensures
        spec_decode_body(spec_encode_body(b)) == Ok::<BodyModel, DecodeError>(b),
{
    lemma_distinct_keys();
    let es = spec_encode_body(b)->Obj_0;
    match b.payload {
        PayloadModel::Error(e) => {
            crate::json::lemma_lookup_from_hits(es, "type"@, 0, 0);
            crate::json::lemma_lookup_from_hits(es, "in_reply_to"@, 0, 1);
            crate::json::lemma_lookup_from_hits(es, "code"@, 0, 2);
            crate::json::lemma_lookup_from_hits(es, "text"@, 0, 3);
        },
        PayloadModel::Init(r) => {
            crate::json::lemma_lookup_from_hits(es, "type"@, 0, 0);
            crate::json::lemma_lookup_from_hits(es, "msg_id"@, 0, 1);
            crate::json::lemma_lookup_from_hits(es, "node_id"@, 0, 2);
            crate::json::lemma_lookup_from_hits(es, "node_ids"@, 0, 3);
            let items = r.node_ids.map_values(|s| JsonModel::Str(s));
            assert(spec_str_items(items) == Some(r.node_ids)) by {
                assert(forall|i: int| 0 <= i < items.len() ==> (#[trigger] items[i]) is Str);
                assert(Seq::new(items.len(), |i: int| items[i]->Str_0) =~= r.node_ids);
            }
        },
        PayloadModel::InitOk(r) => {
            crate::json::lemma_lookup_from_hits(es, "type"@, 0, 0);
            crate::json::lemma_lookup_from_hits(es, "in_reply_to"@, 0, 1);
        },
        PayloadModel::Workload(EchoModel::Echo(r)) => {
            crate::json::lemma_lookup_from_hits(es, "type"@, 0, 0);
            crate::json::lemma_lookup_from_hits(es, "msg_id"@, 0, 1);
            crate::json::lemma_lookup_from_hits(es, "echo"@, 0, 2);
        },
        PayloadModel::Workload(EchoModel::EchoOk(r)) => {
            crate::json::lemma_lookup_from_hits(es, "type"@, 0, 0);
            crate::json::lemma_lookup_from_hits(es, "msg_id"@, 0, 1);
            crate::json::lemma_lookup_from_hits(es, "in_reply_to"@, 0, 2);
            crate::json::lemma_lookup_from_hits(es, "echo"@, 0, 3);
        },
        PayloadModel::Unknown => {
            crate::json::lemma_lookup_from_hits(es, "type"@, 0, 0);
        },
    }
}

/// Round trip at the envelope level: decoding an encoded message gives
/// the message back.
pub proof fn lemma_message_round_trip(m: MessageModel)
    requires
        wf_message(m),
    ensures
        spec_decode_message(spec_encode_message(m)) == Ok::<MessageModel, DecodeError>(m),
{
    lemma_distinct_keys();
    let es = spec_encode_message(m)->Obj_0;
    crate::json::lemma_lookup_from_hits(es, "src"@, 0, 0);
    crate::json::lemma_lookup_from_hits(es, "dest"@, 0, 1);
    crate::json::lemma_lookup_from_hits(es, "body"@, 0, 2);
    lemma_body_round_trip(m.body);
}

/// Every tree the encoder produces can be handed to the serializer: its
/// numbers fit, and no object repeats a key.
pub proof fn lemma_encoded_serializable(m: MessageModel)
    ensures
        crate::json::serializable(spec_encode_message(m)),
{
    lemma_distinct_keys();
    let bj = spec_encode_body(m.body);
    assert(crate::json::serializable(bj)) by {
        reveal_with_fuel(crate::json::serializable, 3);
        match m.body.payload {
            PayloadModel::Init(r) => {
                let items = r.node_ids.map_values(|s| JsonModel::Str(s));
                assert(forall|i: int|
                    0 <= i < items.len() ==> crate::json::serializable(#[trigger] items[i]));
            },
            _ => {},
        }
    }
    assert(crate::json::serializable(spec_encode_message(m))) by {
        reveal_with_fuel(crate::json::serializable, 2);
    }
}

// ---------------------------------------------------------------------------
// Encoding, executable.
// ---------------------------------------------------------------------------

/// Builds the flattened wire object for one body.
pub fn encode_body(b: &Body) -> (j: Json)
    ensures
        j@ == spec_encode_body(b@),
{
    let mut entries: Vec<(String, Json)> = Vec::new();
    match &b.payload {
        Payload::Error(e) => {
            entries.push(("type".to_owned(), Json::Str("error".to_owned())));
            entries.push(("in_reply_to".to_owned(), Json::Int(e.in_reply_to)));
            entries.push(("code".to_owned(), Json::Int(e.code)));
            entries.push(("text".to_owned(), Json::Str(e.text.clone())));
        },
        Payload::Init(r) => {
            let mut items: Vec<Json> = Vec::new();
            let n = r.node_ids.len();
            for i in 0..n
                invariant
                    n == r.node_ids.len(),
                    items@.len() == i,
                    forall|k: int|
                        0 <= k < i ==> crate::json::json_model(#[trigger] items@[k])
                            == JsonModel::Str(r.node_ids@[k]@),
            {
                items.push(Json::Str(r.node_ids[i].clone()));
            }
            entries.push(("type".to_owned(), Json::Str("init".to_owned())));
            entries.push(("msg_id".to_owned(), Json::Int(r.msg_id)));
            entries.push(("node_id".to_owned(), Json::Str(r.node_id.clone())));
            proof {
                crate::json::lemma_arr_model(items);
                assert(Seq::new(items@.len(), |i: int| crate::json::json_model(items@[i]))
                    =~= r@.node_ids.map_values(|s| JsonModel::Str(s)));
            }
            entries.push(("node_ids".to_owned(), Json::Arr(items)));
        },
        Payload::InitOk(r) => {
            entries.push(("type".to_owned(), Json::Str("init_ok".to_owned())));
            entries.push(("in_reply_to".to_owned(), Json::Int(r.in_reply_to)));
        },
        Payload::Workload(Echo::Echo(r)) => {
            entries.push(("type".to_owned(), Json::Str("echo".to_owned())));
            entries.push(("msg_id".to_owned(), Json::Int(r.msg_id)));
            entries.push(("echo".to_owned(), Json::Str(r.echo.clone())));
        },
        Payload::Workload(Echo::EchoOk(r)) => {
            entries.push(("type".to_owned(), Json::Str("echo_ok".to_owned())));
            entries.push(("msg_id".to_owned(), Json::Int(r.msg_id)));
            entries.push(("in_reply_to".to_owned(), Json::Int(r.in_reply_to)));
            entries.push(("echo".to_owned(), Json::Str(r.echo.clone())));
        },
        Payload::Unknown => {
            entries.push(("type".to_owned(), Json::Str(b.msg_type.clone())));
        },
    }
    proof {
        crate::json::lemma_obj_model(entries);
        assert(Seq::new(entries@.len(), |i: int| (entries@[i].0@, crate::json::json_model(entries@[i].1)))
            =~= spec_encode_body(b@)->Obj_0);
    }
    Json::Obj(entries)
}

/// Builds the wire object for one envelope.
pub fn encode_message(m: &Message) -> (j: Json)
    ensures
        j@ == spec_encode_message(m@),
{
    let body_json = encode_body(&m.body);
    let mut entries: Vec<(String, Json)> = Vec::new();
    entries.push(("src".to_owned(), Json::Str(m.src.clone())));
    entries.push(("dest".to_owned(), Json::Str(m.dest.clone())));
    entries.push(("body".to_owned(), body_json));
    proof {
        crate::json::lemma_obj_model(entries);
        assert(Seq::new(entries@.len(), |i: int| (entries@[i].0@, crate::json::json_model(entries@[i].1)))
            =~= spec_encode_message(m@)->Obj_0);
    }
    Json::Obj(entries)
}

} // verus!
