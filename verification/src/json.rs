//! A plain model of JSON documents. The platform answers every query with a
//! JSON body; this module parses such a body (through serde_json) into a
//! value of the crate's own `JsonValue` type, so that the shape validation
//! and the unwrap-by-descent logic downstream are verified over an ordinary
//! datatype. Object members keep the order in which the parser hands them
//! out; numbers are kept only as far as the exporter reads them, namely
//! their value as an unsigned integer when they have one.
use vstd::prelude::*;

verus! {

/// A JSON value held as plain data. `Number` carries the value as an
/// unsigned integer when the number is one, and nothing otherwise; the
/// exporter reads numbers only as unsigned integers.
#[derive(Debug)]
pub enum JsonValue {
    Null,
    Bool(bool),
    Number(Option<u64>),
    Str(String),
    Array(Vec<JsonValue>),
    Object(Vec<(String, JsonValue)>),
}

/// The mathematical model of a JSON value.
pub ghost enum JsonModel {
    Null,
    Bool(bool),
    Number(Option<u64>),
    Str(Seq<char>),
    Array(Seq<JsonModel>),
    Object(Seq<(Seq<char>, JsonModel)>),
}

/// The model of a `JsonValue`.
pub open spec fn jv_model(v: JsonValue) -> JsonModel
    decreases v, 1int,
{
    match v {
        JsonValue::Null => JsonModel::Null,
        JsonValue::Bool(b) => JsonModel::Bool(b),
        JsonValue::Number(n) => JsonModel::Number(n),
        JsonValue::Str(s) => JsonModel::Str(s@),
        JsonValue::Array(items) => JsonModel::Array(jv_models(items@)),
        JsonValue::Object(members) => JsonModel::Object(member_models(members@)),
    }
}

/// The models of a sequence of JSON values, in order.
pub open spec fn jv_models(items: Seq<JsonValue>) -> Seq<JsonModel>
    decreases items, 0int,
{
    if items.len() == 0 {
        Seq::empty()
    } else {
        seq![jv_model(items[0])] + jv_models(items.drop_first())
    }
}

/// The models of an object's members, in order.
pub open spec fn member_models(members: Seq<(String, JsonValue)>) -> Seq<(Seq<char>, JsonModel)>
    decreases members, 0int,
{
    if members.len() == 0 {
        Seq::empty()
    } else {
        seq![(members[0].0@, jv_model(members[0].1))] + member_models(members.drop_first())
    }
}

/// Sequence models are elementwise: as long as the sequence, the model of
/// each element at its place.
pub proof fn lemma_jv_models_index(items: Seq<JsonValue>)
    ensures
        jv_models(items).len() == items.len(),
        forall|i: int| 0 <= i < items.len() ==> jv_models(items)[i] == jv_model(items[i]),
    decreases items.len(),
{
    if items.len() > 0 {
        lemma_jv_models_index(items.drop_first());
        assert forall|i: int| 0 <= i < items.len() implies jv_models(items)[i] == jv_model(
            items[i],
        ) by {
            if i > 0 {
                assert(items.drop_first()[i - 1] == items[i]);
            }
        }
    }
}

/// Member models are elementwise: as long as the member list, each member's
/// key view and value model at its place.
pub proof fn lemma_member_models_index(members: Seq<(String, JsonValue)>)
    ensures
        member_models(members).len() == members.len(),
        forall|i: int|
            0 <= i < members.len() ==> member_models(members)[i] == (
            members[i].0@,
            jv_model(members[i].1),
            ),
    decreases members.len(),
{
    if members.len() > 0 {
        lemma_member_models_index(members.drop_first());
        assert forall|i: int| 0 <= i < members.len() implies member_models(members)[i] == (
            members[i].0@,
            jv_model(members[i].1),
        ) by {
            if i > 0 {
                assert(members.drop_first()[i - 1] == members[i]);
            }
        }
    }
}

/// The value under a key among an object's members: the first member whose
/// key matches, absent when none does.
pub open spec fn lookup(members: Seq<(Seq<char>, JsonModel)>, key: Seq<char>) -> Option<JsonModel>
    decreases members.len(),
{
    if members.len() == 0 {
        None
    } else if members[0].0 == key {
        Some(members[0].1)
    } else {
        lookup(members.drop_first(), key)
    }
}

/// The value under a key of a JSON object; absent on any other shape.
pub open spec fn jm_get(m: JsonModel, key: Seq<char>) -> Option<JsonModel> {
    match m {
        JsonModel::Object(members) => lookup(members, key),
        _ => None,
    }
}

proof fn lemma_lookup_first(members: Seq<(Seq<char>, JsonModel)>, key: Seq<char>, i: int)
    requires
        0 <= i < members.len(),
        members[i].0 == key,
        forall|j: int| 0 <= j < i ==> members[j].0 != key,
    ensures
        lookup(members, key) == Some(members[i].1),
    decreases i,
{
    if i > 0 {
        assert(members.drop_first()[i - 1].0 == key);
        lemma_lookup_first(members.drop_first(), key, i - 1);
    }
}

proof fn lemma_lookup_absent(members: Seq<(Seq<char>, JsonModel)>, key: Seq<char>)
    requires
        forall|j: int| 0 <= j < members.len() ==> members[j].0 != key,
    ensures
        lookup(members, key) is None,
    decreases members.len(),
{
    if members.len() > 0 {
        assert(forall|j: int|
            0 <= j < members.drop_first().len() ==> members.drop_first()[j].0 != key);
        lemma_lookup_absent(members.drop_first(), key);
    }
}

/// Finds the member of a JSON object carrying a key; absent when the value
/// is not an object or no member's key matches.
pub fn get_member<'a>(v: &'a JsonValue, key: &str) -> (r: Option<&'a JsonValue>)
    ensures
        match r {
            Some(x) => jm_get(jv_model(*v), key@) == Some(jv_model(*x)),
            None => jm_get(jv_model(*v), key@) is None,
        },
{
    match v {
        JsonValue::Object(members) => {
            let ghost mm = member_models(members@);
            proof {
                lemma_member_models_index(members@);
            }
            let n: usize = members.len();
            let mut i: usize = 0;
            while i < n
                invariant
                    n == members@.len(),
                    mm == member_models(members@),
                    jv_model(*v) == JsonModel::Object(mm),
                    mm.len() == members@.len(),
                    forall|k: int|
                        0 <= k < members@.len() ==> mm[k] == (
                        members@[k].0@,
                        jv_model(members@[k].1),
                        ),
                    0 <= i <= n,
                    forall|j: int| 0 <= j < i ==> mm[j].0 != key@,
                decreases n - i,
            {
                if crate::strutil::str_eq(members[i].0.as_str(), key) {
                    proof {
                        lemma_lookup_first(mm, key@, i as int);
                    }
                    return Some(&members[i].1);
                }
                i = i + 1;
            }
            proof {
                lemma_lookup_absent(mm, key@);
            }
            None
        },
        _ => None,
    }
}

/// What descending a response envelope reaches: while the value is an
/// object with at least one member, descend into its first member's value;
/// the first non-object value, or empty object, reached this way is the
/// terminal value.
pub open spec fn descend(m: JsonModel) -> JsonModel
    decreases m,
{
    match m {
        JsonModel::Object(members) => if members.len() > 0 {
            descend(members[0].1)
        } else {
            m
        },
        _ => m,
    }
}

#[verifier::external_type_specification]
#[verifier::external_body]
pub struct ExValue(serde_json::Value);

/// What parsing a text as one JSON document yields: the model of the
/// resulting value, or nothing when the text is not valid JSON. The result
/// is a function of the text alone.
pub uninterp spec fn parsed_json(s: Seq<char>) -> Option<JsonModel>;

/// Relies on serde_json's `Value` enum: each arm moves one variant of the
/// parsed value over to the crate's own `JsonValue`, member order kept as
/// the parser's map hands it out, and a number kept as its `u64` value when
/// `serde_json::Number::as_u64` yields one.
#[verifier::external_body]
fn value_to_json(v: serde_json::Value) -> JsonValue {
    match v {
        serde_json::Value::Null => JsonValue::Null,
        serde_json::Value::Bool(b) => JsonValue::Bool(b),
        serde_json::Value::Number(n) => JsonValue::Number(n.as_u64()),
        serde_json::Value::String(s) => JsonValue::Str(s),
        serde_json::Value::Array(items) => JsonValue::Array(
            items.into_iter().map(value_to_json).collect(),
        ),
        serde_json::Value::Object(members) => JsonValue::Object(
            members.into_iter().map(|(k, x)| (k, value_to_json(x))).collect(),
        ),
    }
}

/// Relies on `serde_json::from_str`: parses the text as one JSON document,
/// deterministically, yielding a value exactly when the text is valid JSON.
#[verifier::external_body]
pub fn parse_json(s: &str) -> (r: Option<JsonValue>)
    ensures
        match r {
            Some(v) => parsed_json(s@) == Some(jv_model(v)),
            None => parsed_json(s@) is None,
        },
{
    match serde_json::from_str::<serde_json::Value>(s) {
        Ok(v) => Some(value_to_json(v)),
        Err(_) => None,
    }
}

} // verus!
