use vstd::prelude::*;

use crate::json::{serializable, Json, JsonModel};

verus! {

// ---------------------------------------------------------------------------
// The boundary to serde_json.
//
// The node's wire format is JSON text; parsing and rendering that text is
// serde_json's work.  Everything here converts between serde_json's generic
// tree and the crate's own [`Json`] tree, so that the codec above it is
// verified over plain data.  serde_json is built with its `preserve_order`
// feature, so an object keeps its entries in insertion order from
// construction through rendering, and `value_model` below is faithful to
// entry order.
// ---------------------------------------------------------------------------

#[verifier::external_type_specification]
#[verifier::external_body]
pub struct ExValue(serde_json::Value);

/// The model of a serde_json tree: the same tree with every number that
/// fits `u64` as `Int`, every other number as `BadNum`, and object entries
/// in the map's iteration order.
pub uninterp spec fn value_model(v: serde_json::Value) -> JsonModel;

/// What parsing the text `s` yields: `None` on malformed JSON, otherwise
/// the model of the parsed tree.  The result depends on the text alone.
pub uninterp spec fn parsed(s: Seq<char>) -> Option<JsonModel>;

/// The one line of text serde_json renders for a serializable tree with
/// model `j`.  For such trees the text depends on the model alone.
pub uninterp spec fn rendered(j: JsonModel) -> Seq<char>;

/// Relies on serde_json::from_str: it returns `Ok` exactly on well-formed
/// JSON text, deterministically in the text.
#[verifier::external_body]
fn parse_value(s: &str) -> (r: Option<serde_json::Value>)
    ensures
        r is Some <==> parsed(s@) is Some,
        r matches Some(v) ==> parsed(s@) == Some(value_model(v)),
{
    serde_json::from_str::<serde_json::Value>(s).ok()
}

/// Relies on serde_json::Value's public variants and Number::as_u64 to
/// read the parsed tree out as plain data, node by node.
#[verifier::external_body]
fn value_to_json(v: serde_json::Value) -> (j: Json)
    ensures
        j@ == value_model(v),
{
    match v {
        serde_json::Value::Null => Json::Null,
        serde_json::Value::Bool(b) => Json::Bool(b),
        serde_json::Value::Number(n) => match n.as_u64() {
            Some(u) => Json::Int(u),
            None => Json::BadNum,
        },
        serde_json::Value::String(s) => Json::Str(s),
        serde_json::Value::Array(a) => Json::Arr(a.into_iter().map(value_to_json).collect()),
        serde_json::Value::Object(m) => Json::Obj(
            m.into_iter().map(|(k, val)| (k, value_to_json(val))).collect(),
        ),
    }
}

/// Relies on serde_json::Value's constructors and the preserve_order map,
/// which keeps entries in insertion order: rebuilding a serializable tree
/// node by node gives a tree with the same model.  `BadNum` is excluded by
/// the precondition; no tree the node emits contains one.
#[verifier::external_body]
fn json_to_value(j: &Json) -> (v: serde_json::Value)
    requires
        serializable(j@),
    ensures
        value_model(v) == j@,
{
    match j {
        Json::Null | Json::BadNum => serde_json::Value::Null,
        Json::Bool(b) => serde_json::Value::Bool(*b),
        Json::Int(n) => serde_json::Value::Number(serde_json::Number::from(*n)),
        Json::Str(s) => serde_json::Value::String(s.clone()),
        Json::Arr(items) => serde_json::Value::Array(items.iter().map(json_to_value).collect()),
        Json::Obj(entries) => serde_json::Value::Object(
            entries.iter().map(|(k, val)| (k.clone(), json_to_value(val))).collect(),
        ),
    }
}

/// Relies on serde_json::to_string: rendering a Value cannot fail (object
/// keys are strings), and for trees without out-of-range numbers the text
/// depends only on the tree's contents and entry order.
#[verifier::external_body]
fn value_to_string(v: &serde_json::Value) -> (s: String)
    requires
        serializable(value_model(*v)),
    ensures
        s@ == rendered(value_model(*v)),
{
    match serde_json::to_string(v) {
        Ok(s) => s,
        Err(_) => String::new(),
    }
}

/// Parses one line of text into a JSON tree; `None` exactly on malformed
/// JSON.
pub fn parse_json(s: &str) -> (r: Option<Json>)
    ensures
        r matches Some(j) ==> parsed(s@) == Some(j@),
        r is None ==> parsed(s@) is None,
{
    match parse_value(s) {
        Some(v) => Some(value_to_json(v)),
        None => None,
    }
}

/// Renders a serializable JSON tree as one line of text.
pub fn render_json(j: &Json) -> (s: String)
    requires
        serializable(j@),
    ensures
        s@ == rendered(j@),
{
    let v = json_to_value(j);
    value_to_string(&v)
}

} // verus!
