use vstd::prelude::*;

verus! {

broadcast use
    vstd::seq::axiom_seq_index_decreases,
    vstd::std_specs::vec::axiom_vec_decreases_to_view;

/// The mathematical model of a JSON tree: what [`Json`] looks like in
/// contracts.  Strings are character sequences and containers are `Seq`s,
/// so two models are equal exactly when they hold the same data.
pub enum JsonModel {
    Null,
    Bool(bool),
    /// A number that fits in `u64` — the only numbers the protocol uses.
    Int(u64),
    /// A number outside `u64` (negative or fractional).  The node never
    /// emits one; on input it fails any field read that expects an integer.
    BadNum,
    Str(Seq<char>),
    Arr(Seq<JsonModel>),
    /// Object entries in wire order; lookups take the first match.
    Obj(Seq<(Seq<char>, JsonModel)>),
}

/// A JSON value as plain data.  Every wire line the node reads or writes
/// passes through this tree, so the codec can be verified over it.
#[derive(Debug)]
pub enum Json {
    Null,
    Bool(bool),
    Int(u64),
    BadNum,
    Str(String),
    Arr(Vec<Json>),
    Obj(Vec<(String, Json)>),
}

/// The model of the JSON value `j`: the same tree with strings and
/// containers replaced by their mathematical views.
pub open spec fn json_model(j: Json) -> JsonModel
    decreases j,
{
    match j {
        Json::Null => JsonModel::Null,
        Json::Bool(b) => JsonModel::Bool(b),
        Json::Int(n) => JsonModel::Int(n),
        Json::BadNum => JsonModel::BadNum,
        Json::Str(s) => JsonModel::Str(s@),
        Json::Arr(items) => JsonModel::Arr(
            Seq::new(
                items@.len(),
                |i: int|
                    if 0 <= i < items@.len() {
                        proof {
                            assert(decreases_to!(j => j->Arr_0));
                            assert(decreases_to!(items@ => items@[i]));
                        }
                        json_model(items@[i])
                    } else {
                        JsonModel::Null
                    },
            ),
        ),
        Json::Obj(entries) => JsonModel::Obj(
            Seq::new(
                entries@.len(),
                |i: int|
                    if 0 <= i < entries@.len() {
                        proof {
                            assert(decreases_to!(j => j->Obj_0));
                            assert(decreases_to!(entries@ => entries@[i]));
                        }
                        (entries@[i].0@, json_model(entries@[i].1))
                    } else {
                        (Seq::<char>::empty(), JsonModel::Null)
                    },
            ),
        ),
    }
}

impl View for Json {
    type V = JsonModel;

    open spec fn view(&self) -> JsonModel {
        json_model(*self)
    }
}

/// First value stored under `key` in the entries `es`, searching from
/// position `i` on; `None` if no entry from `i` on has that key.
pub open spec fn lookup_from(es: Seq<(Seq<char>, JsonModel)>, key: Seq<char>, i: int) -> Option<
    JsonModel,
>
    decreases es.len() - i,
{
    if i < 0 || i >= es.len() {
        None
    } else if es[i].0 == key {
        Some(es[i].1)
    } else {
        lookup_from(es, key, i + 1)
    }
}

/// First value stored under `key` in the object entries `es`.
pub open spec fn lookup(es: Seq<(Seq<char>, JsonModel)>, key: Seq<char>) -> Option<JsonModel> {
    lookup_from(es, key, 0)
}

/// If `es[hit]` is the first entry at or after position `i` whose key is
/// `key`, then the search from `i` finds exactly that entry's value.
pub proof fn lemma_lookup_from_hits(
    es: Seq<(Seq<char>, JsonModel)>,
    key: Seq<char>,
    i: int,
    hit: int,
)
    requires
        0 <= i <= hit < es.len(),
        es[hit].0 == key,
        forall|k: int| i <= k < hit ==> (#[trigger] es[k]).0 != key,
    ensures
        lookup_from(es, key, i) == Some(es[hit].1),
    decreases hit - i,
{
    if i < hit {
        lemma_lookup_from_hits(es, key, i + 1, hit);
    }
}

/// The field `key` of the object `j`; `None` if `j` is not an object or
/// has no such field.
pub open spec fn spec_field(j: JsonModel, key: Seq<char>) -> Option<JsonModel> {
    match j {
        JsonModel::Obj(es) => lookup(es, key),
        _ => None,
    }
}

/// The model of an array value, spelled out element by element.
pub proof fn lemma_arr_model(items: Vec<Json>)
    ensures
        json_model(Json::Arr(items)) == JsonModel::Arr(
            Seq::new(items@.len(), |i: int| json_model(items@[i])),
        ),
{
    assert(json_model(Json::Arr(items))->Arr_0 =~= Seq::new(
        items@.len(),
        |i: int| json_model(items@[i]),
    ));
}

/// The model of an object value, spelled out entry by entry.
pub proof fn lemma_obj_model(entries: Vec<(String, Json)>)
    ensures
        json_model(Json::Obj(entries)) == JsonModel::Obj(
            Seq::new(entries@.len(), |i: int| (entries@[i].0@, json_model(entries@[i].1))),
        ),
{
    assert(json_model(Json::Obj(entries))->Obj_0 =~= Seq::new(
        entries@.len(),
        |i: int| (entries@[i].0@, json_model(entries@[i].1)),
    ));
}

/// Whether the tree `j` can be handed to the serializer: it holds no
/// out-of-range number, and no object has two entries under one key.
/// Every tree the node emits satisfies this.
pub open spec fn serializable(j: JsonModel) -> bool
    decreases j,
{
    match j {
        JsonModel::Null => true,
        JsonModel::Bool(_) => true,
        JsonModel::Int(_) => true,
        JsonModel::BadNum => false,
        JsonModel::Str(_) => true,
        JsonModel::Arr(items) => forall|i: int|
            0 <= i < items.len() ==> serializable(#[trigger] items[i]),
        JsonModel::Obj(entries) => {
            &&& forall|a: int, b: int|
                0 <= a < b < entries.len() ==> (#[trigger] entries[a].0) != (#[trigger] entries[b].0)
            &&& forall|i: int| 0 <= i < entries.len() ==> serializable((#[trigger] entries[i]).1)
        },
    }
}

impl Json {
    /// Looks the field `key` up in this value, if it is an object.
    pub fn field<'a>(&'a self, key: &str) -> (r: Option<&'a Json>)
        ensures
            match r {
                Some(v) => spec_field(self@, key@) == Some(v@),
                None => spec_field(self@, key@) is None,
            },
    {
        match self {
            Json::Obj(entries) => {
                let ghost es = self@->Obj_0;
                let owned_key = key.to_owned();
                let n = entries.len();
                assert(es.len() == n && forall|k: int|
                    0 <= k < n ==> es[k] == (entries@[k].0@, json_model(entries@[k].1)));
                for i in 0..n
                    invariant
                        n == entries.len(),
                        self@ is Obj,
                        es == self@->Obj_0,
                        es.len() == n,
                        owned_key@ == key@,
                        forall|k: int|
                            0 <= k < n ==> es[k] == (entries@[k].0@, json_model(entries@[k].1)),
                        lookup(es, key@) == lookup_from(es, key@, i as int),
                {
                    if entries[i].0 == owned_key {
                        assert(lookup_from(es, key@, i as int) == Some(es[i as int].1));
                        return Some(&entries[i].1);
                    }
                    assert(lookup_from(es, key@, i as int) == lookup_from(es, key@, i + 1));
                }
                None
            },
            _ => None,
        }
    }
}

} // verus!
