//! JSON documents as trees of plain values, and the trusted bridge to the
//! JSON parser.
//!
//! The parser itself is an outside capability: `parse_json` calls into
//! `serde_json` and is trusted.  Everything that reads the resulting tree is
//! ordinary verified code.

use vstd::prelude::*;

verus! {

/// A JSON document.  Object fields are kept as a list of key/value bindings
/// in the order the parser hands them out; `lookup` finds the first binding
/// for a key.
///
/// A number is kept as `UInt` when it fits `u64`, as `NegInt` when it is a
/// negative integer that fits `i64`, and as `Real` otherwise; the endpoints
/// this library decodes only ever use non-negative integers, so a `Real`
/// carries no value and never conforms to a schema.
#[derive(Debug, PartialEq, Eq)]
pub enum JsonValue {
    Null,
    Bool(bool),
    UInt(u64),
    NegInt(i64),
    Real,
    Text(String),
    Array(Vec<JsonValue>),
    Object(Vec<(String, JsonValue)>),
}

#[verifier::external_type_specification]
#[verifier::external_body]
pub struct ExValue(serde_json::Value);

/// Relies on `serde_json::Value` having exactly the six variants matched
/// below; each arm moves that variant's contents into the library's tree,
/// depending on nothing but the value itself (object fields come out of
/// serde_json's map in its key order).
#[verifier::external_body]
fn value_tree(v: serde_json::Value) -> JsonValue {
    match v {
        serde_json::Value::Null => JsonValue::Null,
        serde_json::Value::Bool(b) => JsonValue::Bool(b),
        serde_json::Value::Number(n) => match (n.as_u64(), n.as_i64()) {
            (Some(u), _) => JsonValue::UInt(u),
            (_, Some(i)) => JsonValue::NegInt(i),
            _ => JsonValue::Real,
        },
        serde_json::Value::String(s) => JsonValue::Text(s),
        serde_json::Value::Array(a) => JsonValue::Array(a.into_iter().map(value_tree).collect()),
        serde_json::Value::Object(o) => JsonValue::Object(
            o.into_iter().map(|p| (p.0, value_tree(p.1))).collect(),
        ),
    }
}

/// The document a string parses to, if the parser accepts it: the result of
/// `serde_json::from_str::<serde_json::Value>` as a `JsonValue` tree.
pub uninterp spec fn json_of(s: Seq<char>) -> Option<JsonValue>;

/// Relies on `serde_json::from_str::<serde_json::Value>`: whether the parser
/// accepts a string, and the document it parses it to, depend on the
/// characters alone, so `Err` comes exactly on the strings the parser
/// rejects (the ones that are not JSON documents it can represent).  The
/// `Err` payload is the parser's own message.
#[verifier::external_body]
pub(crate) fn parse_json(s: &str) -> (r: Result<JsonValue, String>)
    ensures
        match r {
            Ok(v) => json_of(s@) == Some(v),
            Err(_) => json_of(s@) is None,
        },
{
    match serde_json::from_str::<serde_json::Value>(s) {
        Ok(v) => Ok(value_tree(v)),
        Err(e) => Err(format!("{}", e)),
    }
}

/// Whether two strings hold the same characters, checked character by
/// character.
pub fn str_eq(a: &str, b: &str) -> (r: bool)
    ensures
        r == (a@ == b@),
{
    let alen = a.unicode_len();
    let blen = b.unicode_len();
    if alen != blen {
        return false;
    }
    let mut i: usize = 0;
    while i < alen
        invariant
            alen == a@.len(),
            blen == b@.len(),
            alen == blen,
            i <= alen,
            forall|j: int| 0 <= j < i ==> a@[j] == b@[j],
        decreases alen - i,
    {
        if a.get_char(i) != b.get_char(i) {
            return false;
        }
        i += 1;
    }
    proof {
        assert(a@ =~= b@);
    }
    true
}

/// The value under `key` among the bindings from index `i` on: the first
/// binding whose key holds the same characters, if there is one.
pub open spec fn lookup_from(
    fields: Seq<(String, JsonValue)>,
    key: Seq<char>,
    i: int,
) -> Option<JsonValue>
    decreases fields.len() - i,
{
    if i < 0 || i >= fields.len() {
        None
    } else if fields[i].0@ == key {
        Some(fields[i].1)
    } else {
        lookup_from(fields, key, i + 1)
    }
}

/// The value under `key` in an object's field list.
pub open spec fn lookup(fields: Seq<(String, JsonValue)>, key: Seq<char>) -> Option<JsonValue> {
    lookup_from(fields, key, 0)
}

/// Finds the first binding for `key` in an object's field list.
pub fn obj_get<'a>(fields: &'a Vec<(String, JsonValue)>, key: &str) -> (r: Option<&'a JsonValue>)
    ensures
        match r {
            Some(v) => lookup(fields@, key@) == Some(*v),
            None => lookup(fields@, key@) is None,
        },
{
    let mut i: usize = 0;
    while i < fields.len()
        invariant
            i <= fields@.len(),
            lookup(fields@, key@) == lookup_from(fields@, key@, i as int),
        decreases fields@.len() - i,
    {
        if str_eq(fields[i].0.as_str(), key) {
            return Some(&fields[i].1);
        }
        i += 1;
    }
    None
}

/// The characters of a `Text` node (empty for any other node).
pub open spec fn text_of(v: JsonValue) -> Seq<char> {
    match v {
        JsonValue::Text(s) => s@,
        _ => Seq::empty(),
    }
}

/// The integer of a `UInt` node (zero for any other node).
pub open spec fn uint_of(v: JsonValue) -> u64 {
    match v {
        JsonValue::UInt(u) => u,
        _ => 0,
    }
}

/// The field list of an `Object` node (empty for any other node).
pub open spec fn obj_fields(j: JsonValue) -> Seq<(String, JsonValue)> {
    match j {
        JsonValue::Object(fields) => fields@,
        _ => Seq::empty(),
    }
}

/// The element list of an `Array` node (empty for any other node).
pub open spec fn arr_items(j: JsonValue) -> Seq<JsonValue> {
    match j {
        JsonValue::Array(items) => items@,
        _ => Seq::empty(),
    }
}

/// The value inside a `Some` (`Null` for `None`).
pub open spec fn opt_val(o: Option<JsonValue>) -> JsonValue {
    match o {
        Some(v) => v,
        None => JsonValue::Null,
    }
}

/// Whether every binding in an object's field list holds a `Text` value, as
/// an amounts table (identifier to amount) does.
pub open spec fn amounts_ok(fields: Seq<(String, JsonValue)>) -> bool {
    forall|i: int| 0 <= i < fields.len() ==> fields[i].1 is Text
}

/// The key/amount pairs of an amounts table, in field order.
pub open spec fn amount_pairs(fields: Seq<(String, JsonValue)>) -> Seq<(Seq<char>, Seq<char>)> {
    Seq::new(fields.len(), |i: int| (fields[i].0@, text_of(fields[i].1)))
}

/// The views of a list of owned string pairs.
pub open spec fn pairs_view(s: Seq<(String, String)>) -> Seq<(Seq<char>, Seq<char>)> {
    s.map_values(|p: (String, String)| (p.0@, p.1@))
}

/// Copies an amounts table out of an object's field list, or reports that
/// some binding is not a string.
pub fn extract_amounts(fields: &Vec<(String, JsonValue)>) -> (r: Option<Vec<(String, String)>>)
    ensures
        match r {
            Some(v) => amounts_ok(fields@) && pairs_view(v@) == amount_pairs(fields@),
            None => !amounts_ok(fields@),
        },
{
    let mut acc: Vec<(String, String)> = Vec::new();
    let mut i: usize = 0;
    while i < fields.len()
        invariant
            i <= fields@.len(),
            acc@.len() == i,
            forall|j: int| 0 <= j < i ==> fields@[j].1 is Text,
            forall|j: int|
                0 <= j < i ==> acc@[j].0@ == fields@[j].0@ && acc@[j].1@ == text_of(fields@[j].1),
        decreases fields@.len() - i,
    {
        match &fields[i].1 {
            JsonValue::Text(s) => {
                acc.push((fields[i].0.clone(), s.clone()));
            },
            _ => {
                return None;
            },
        }
        i += 1;
    }
    proof {
        assert(pairs_view(acc@) =~= amount_pairs(fields@));
    }
    Some(acc)
}

} // verus!
