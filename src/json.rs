//! The JSON text that the codec writes and reads: flat objects whose values
//! are unsigned integers, written compactly.

use vstd::prelude::*;

verus! {

#[verifier::external_type_specification]
#[verifier::external_body]
pub struct ExValue(serde_json::Value);

#[verifier::external_type_specification]
#[verifier::external_body]
#[verifier::reject_recursive_types(K)]
#[verifier::reject_recursive_types(V)]
pub struct ExMap<K, V>(serde_json::Map<K, V>);

/// A parsed JSON object.
pub type JsonObject = serde_json::Map<String, serde_json::Value>;

/// The decimal digit `d` as a character.
pub open spec fn digit_char(d: nat) -> char {
    if d == 0 { '0' }
    else if d == 1 { '1' }
    else if d == 2 { '2' }
    else if d == 3 { '3' }
    else if d == 4 { '4' }
    else if d == 5 { '5' }
    else if d == 6 { '6' }
    else if d == 7 { '7' }
    else if d == 8 { '8' }
    else { '9' }
}

/// The shortest decimal writing of `n`.
pub open spec fn decimal(n: nat) -> Seq<char>
    decreases n,
{
    if n < 10 {
        seq![digit_char(n)]
    } else {
        decimal(n / 10).push(digit_char(n % 10))
    }
}

/// A key made of lower-case ASCII letters and underscores: JSON writes it
/// between quotes with nothing escaped.
pub open spec fn is_plain_key(k: Seq<char>) -> bool {
    &&& k.len() > 0
    &&& forall|i: int| 0 <= i < k.len() ==> ('a' <= #[trigger] k[i] <= 'z' || k[i] == '_')
}

/// Lexicographic order of keys by character.
pub open spec fn key_less(a: Seq<char>, b: Seq<char>) -> bool
    decreases a.len(),
{
    if a.len() == 0 {
        b.len() > 0
    } else if b.len() == 0 {
        false
    } else if a[0] != b[0] {
        (a[0] as u32) < (b[0] as u32)
    } else {
        key_less(a.drop_first(), b.drop_first())
    }
}

/// Plain keys in strictly ascending order: the order in which a JSON object
/// map writes its members.
pub open spec fn well_formed_fields(fields: Seq<(Seq<char>, u64)>) -> bool {
    &&& forall|i: int| 0 <= i < fields.len() ==> is_plain_key(#[trigger] fields[i].0)
    &&& forall|i: int, j: int|
        0 <= i < j < fields.len() ==> key_less(#[trigger] fields[i].0, #[trigger] fields[j].0)
}

/// One member `"key":value`.
pub open spec fn member_text(key: Seq<char>, value: u64) -> Seq<char> {
    seq!['"'] + key + seq!['"', ':'] + decimal(value as nat)
}

/// The members joined by commas.
pub open spec fn members_text(fields: Seq<(Seq<char>, u64)>) -> Seq<char>
    decreases fields.len(),
{
    if fields.len() == 0 {
        seq![]
    } else if fields.len() == 1 {
        member_text(fields[0].0, fields[0].1)
    } else {
        members_text(fields.drop_last()) + seq![','] + member_text(
            fields.last().0,
            fields.last().1,
        )
    }
}

/// The compact JSON text of an object with the given members.
pub open spec fn object_text(fields: Seq<(Seq<char>, u64)>) -> Seq<char> {
    seq!['{'] + members_text(fields) + seq!['}']
}

/// The object with the given members, each value read as an unsigned integer.
pub open spec fn fields_map(fields: Seq<(Seq<char>, u64)>) -> Map<Seq<char>, Option<u64>>
    decreases fields.len(),
{
    if fields.len() == 0 {
        Map::empty()
    } else {
        fields_map(fields.drop_last()).insert(fields.last().0, Some(fields.last().1))
    }
}

/// The members of a parsed object: each key with its value read as an
/// unsigned integer (`None` where the value is not one).
pub uninterp spec fn object_entries(m: JsonObject) -> Map<Seq<char>, Option<u64>>;

/// The members of the object that a text holds, read as by `object_entries`;
/// `None` where the text is not valid JSON or its root is not an object.
pub uninterp spec fn parsed_object(s: Seq<char>) -> Option<Map<Seq<char>, Option<u64>>>;

/// The member `key` of an object read as an unsigned integer: `None` where it
/// is missing or is not one.
pub open spec fn entry_u64(entries: Map<Seq<char>, Option<u64>>, key: Seq<char>) -> Option<u64> {
    if entries.contains_key(key) {
        entries[key]
    } else {
        None
    }
}

/// The view of a list of members with borrowed keys.
pub open spec fn fields_view(fields: Seq<(&str, u64)>) -> Seq<(Seq<char>, u64)> {
    fields.map_values(|f: (&str, u64)| (f.0@, f.1))
}

/// Relies on `serde_json::Value`'s `Display`, which writes a value compactly:
/// an object as its members in the map's key order (sorted, or as inserted;
/// the two agree on sorted keys), a plain key between quotes, an unsigned
/// integer in decimal.
#[verifier::external_body]
pub(crate) fn write_object(fields: &Vec<(&str, u64)>) -> (r: String)
    requires
        well_formed_fields(fields_view(fields@)),
    ensures
        r@ == object_text(fields_view(fields@)),
{
    let map: JsonObject = fields.iter().map(|(k, v)| (k.to_string(), serde_json::Value::from(*v))).collect();
    serde_json::Value::Object(map).to_string()
}

/// Relies on `serde_json::from_str::<Value>`: the text is read as a JSON
/// document, kept only where its root is an object; the compact text of an
/// object whose keys are plain and distinct and whose values are unsigned
/// integers reads back as those members.
#[verifier::external_body]
pub(crate) fn parse_object(s: &str) -> (r: Option<JsonObject>)
    ensures
        r is None <==> parsed_object(s@) is None,
        r is Some ==> object_entries(r->0) == parsed_object(s@)->0,
        forall|fields: Seq<(Seq<char>, u64)>|
            well_formed_fields(fields) && s@ == #[trigger] object_text(fields) ==> r is Some
                && object_entries(r->0) == fields_map(fields),
{
    match serde_json::from_str::<serde_json::Value>(s) {
        Ok(serde_json::Value::Object(m)) => Some(m),
        _ => None,
    }
}

/// Relies on `serde_json::Map::get` and `serde_json::Value::as_u64`: the value
/// stored under `key`, where it is a non-negative integer that fits in `u64`.
#[verifier::external_body]
pub(crate) fn get_u64(m: &JsonObject, key: &str) -> (r: Option<u64>)
    ensures
        r == entry_u64(object_entries(*m), key@),
{
    m.get(key).and_then(serde_json::Value::as_u64)
}

} // verus!
