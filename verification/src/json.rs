//! The library's own picture of a JSON document, and the trusted boundary
//! that produces it.
//!
//! The manager's output is parsed by serde_json behind a single trusted
//! wrapper; everything after that — looking fields up, checking their types,
//! assembling the typed state — is verified code over this `Json` type.
//! Numbers the state schema uses are unsigned integers; any other numeric
//! literal is kept only as a marker, so that a document holding one in an
//! ignored field still decodes.

use vstd::prelude::*;

verus! {

/// One JSON value.  Object fields keep their document order.
#[derive(Debug, PartialEq)]
pub enum Json {
    Null,
    Bool(bool),
    Num(u64),
    /// A numeric literal outside the unsigned integer range: a fraction or
    /// a negative.  The schema never reads one, but a document may hold one
    /// in a field the schema ignores.
    OtherNum,
    Str(String),
    Arr(Vec<Json>),
    Obj(Vec<(String, Json)>),
}

#[verifier::external_type_specification]
#[verifier::external_body]
pub struct ExValue(serde_json::Value);

/// Relies on serde_json::Value being a public enum: each arm moves one
/// variant's contents across, recursing through arrays and objects; a
/// number that is no unsigned integer keeps only its presence.
#[verifier::external_body]
fn value_to_json(v: serde_json::Value) -> (r: Json) {
    match v {
        serde_json::Value::Null => Json::Null,
        serde_json::Value::Bool(b) => Json::Bool(b),
        serde_json::Value::Number(n) => match n.as_u64() {
            Some(u) => Json::Num(u),
            None => Json::OtherNum,
        },
        serde_json::Value::String(s) => Json::Str(s),
        serde_json::Value::Array(a) => Json::Arr(a.into_iter().map(value_to_json).collect()),
        serde_json::Value::Object(m) => Json::Obj(
            m.into_iter().map(|p| (p.0, value_to_json(p.1))).collect(),
        ),
    }
}

/// What parsing these bytes as a JSON document yields, variant for variant;
/// a function of the byte content alone, `None` on malformed input.
pub uninterp spec fn json_of(b: Seq<u8>) -> Option<Json>;

/// Relies on serde_json::from_slice::<Value>: the parse reads nothing but
/// the bytes, and malformed input comes back as `Err`, never a panic.
#[verifier::external_body]
pub(crate) fn json_from_slice(b: &[u8]) -> (r: Option<Json>)
    ensures
        r == json_of(b@),
{
    match serde_json::from_slice::<serde_json::Value>(b) {
        Ok(v) => Some(value_to_json(v)),
        Err(_) => None,
    }
}

/// The first field of the given name, if the object holds one.
pub open spec fn lookup(fields: Seq<(String, Json)>, key: Seq<char>) -> Option<Json>
    decreases fields.len(),
{
    if fields.len() == 0 {
        None
    } else if fields[0].0@ == key {
        Some(fields[0].1)
    } else {
        lookup(fields.skip(1), key)
    }
}

/// Finds a field by name, first match first, ignoring every other field.
pub fn get_field<'a>(fields: &'a Vec<(String, Json)>, key: &str) -> (r: Option<&'a Json>)
    ensures
        match r {
            Some(j) => lookup(fields@, key@) == Some(*j),
            None => lookup(fields@, key@) is None,
        },
{
    let k: String = key.to_owned();
    let mut i: usize = 0;
    proof {
        assert(fields@.skip(0) =~= fields@);
    }
    while i < fields.len()
        invariant
            i <= fields@.len(),
            k@ == key@,
            lookup(fields@, key@) == lookup(fields@.skip(i as int), key@),
        decreases fields@.len() - i,
    {
        proof {
            assert(fields@.skip(i as int)[0] == fields@[i as int]);
            assert(fields@.skip(i as int).skip(1) =~= fields@.skip(i as int + 1));
        }
        if fields[i].0 == k {
            return Some(&fields[i].1);
        }
        i = i + 1;
    }
    None
}

/// A lookup is settled by the first field whose name matches: if no field
/// before position `i` carries the name, the lookup yields field `i`.
pub proof fn lemma_lookup_at(fields: Seq<(String, Json)>, key: Seq<char>, i: int)
    requires
        0 <= i < fields.len(),
        fields[i].0@ == key,
        forall|k: int| 0 <= k < i ==> (#[trigger] fields[k]).0@ != key,
    ensures
        lookup(fields, key) == Some(fields[i].1),
    decreases i,
{
    broadcast use vstd::seq_lib::group_seq_properties;

    if i > 0 {
        let t = fields.skip(1);
        assert(t[i - 1] == fields[i]);
        assert(forall|k: int| 0 <= k < i - 1 ==> (#[trigger] t[k]) == fields[k + 1]);
        lemma_lookup_at(t, key, i - 1);
    }
}

/// The value of an unsigned numeric field that fits the machine word.
pub open spec fn field_num(fields: Seq<(String, Json)>, key: Seq<char>) -> Option<usize> {
    match lookup(fields, key) {
        Some(Json::Num(n)) => if n <= usize::MAX {
            Some(n as usize)
        } else {
            None
        },
        _ => None,
    }
}

pub fn get_num(fields: &Vec<(String, Json)>, key: &str) -> (r: Option<usize>)
    ensures
        r == field_num(fields@, key@),
{
    match get_field(fields, key) {
        Some(Json::Num(n)) => {
            if *n <= usize::MAX as u64 {
                Some(*n as usize)
            } else {
                None
            }
        },
        _ => None,
    }
}

/// The value of a boolean field.
pub open spec fn field_bool(fields: Seq<(String, Json)>, key: Seq<char>) -> Option<bool> {
    match lookup(fields, key) {
        Some(Json::Bool(b)) => Some(b),
        _ => None,
    }
}

pub fn get_bool(fields: &Vec<(String, Json)>, key: &str) -> (r: Option<bool>)
    ensures
        r == field_bool(fields@, key@),
{
    match get_field(fields, key) {
        Some(Json::Bool(b)) => Some(*b),
        _ => None,
    }
}

/// The characters of a string field.
pub open spec fn field_str(fields: Seq<(String, Json)>, key: Seq<char>) -> Option<Seq<char>> {
    match lookup(fields, key) {
        Some(Json::Str(s)) => Some(s@),
        _ => None,
    }
}

pub fn get_str(fields: &Vec<(String, Json)>, key: &str) -> (r: Option<String>)
    ensures
        match r {
            Some(s) => field_str(fields@, key@) == Some(s@),
            None => field_str(fields@, key@) is None,
        },
{
    match get_field(fields, key) {
        Some(Json::Str(s)) => Some(s.clone()),
        _ => None,
    }
}

} // verus!
