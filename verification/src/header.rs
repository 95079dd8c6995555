//! The JSON object on the second line of every response.
//!
//! The object is built and rendered by `serde_json`. Verus does not look
//! into that crate: what this module states of it is taken on trust, and
//! everything else in the library is proved from it. The library only ever
//! makes objects whose members are numbers that fit `u64` and strings, with
//! `serde_json` in its default build, where an object keeps its members
//! ordered by key.

use vstd::prelude::*;

verus! {

/// `serde_json::Value`, carried as an opaque value.
#[verifier::external_type_specification]
#[verifier::external_body]
pub struct ExJsonValue(serde_json::Value);

/// `serde_json::Map`, carried as an opaque value.
#[verifier::external_type_specification]
#[verifier::external_body]
#[verifier::reject_recursive_types(K)]
#[verifier::reject_recursive_types(V)]
pub struct ExJsonMap<K, V>(serde_json::Map<K, V>);

/// The value of one member of a header.
pub enum Field {
    Number(u64),
    Text(Seq<char>),
}

/// The members that a `serde_json` object holds, by key: what was last
/// inserted under each.
pub uninterp spec fn members(object: serde_json::Map<String, serde_json::Value>) -> Map<
    Seq<char>,
    Field,
>;

/// The bytes that `serde_json` renders for an object of the given members,
/// in its compact form: the text that `to_string` gives.
pub uninterp spec fn rendered(members: Map<Seq<char>, Field>) -> Seq<u8>;

/// The members of an object that holds nothing.
pub open spec fn no_members() -> Map<Seq<char>, Field> {
    Map::empty()
}

/// `serde_json::Map::new`: an object without members.
#[verifier::external_body]
pub(crate) fn empty_object() -> (object: serde_json::Map<String, serde_json::Value>)
    ensures
        members(object) == no_members(),
{
    serde_json::Map::new()
}

/// `serde_json::Map::insert` of a number made by `serde_json::Value::from`:
/// the object holds what it held, but for `key`, which now has the number.
#[verifier::external_body]
pub(crate) fn insert_number(
    object: &mut serde_json::Map<String, serde_json::Value>,
    key: &str,
    number: u64,
)
    ensures
        members(*final(object)) == members(*old(object)).insert(key@, Field::Number(number)),
{
    object.insert(key.to_owned(), serde_json::Value::from(number));
}

/// `serde_json::Map::insert` of a string made by `serde_json::Value::from`:
/// the object holds what it held, but for `key`, which now has the text.
#[verifier::external_body]
pub(crate) fn insert_text(
    object: &mut serde_json::Map<String, serde_json::Value>,
    key: &str,
    text: &str,
)
    ensures
        members(*final(object)) == members(*old(object)).insert(key@, Field::Text(text@)),
{
    object.insert(key.to_owned(), serde_json::Value::from(text));
}

/// `to_string` of the `serde_json::Value` that holds the object: the bytes
/// of its compact rendering, which depend on nothing but the members. The
/// compact form has no line break between its tokens, and inside a string
/// a line feed is written as an escape, so no byte of it is a line feed.
#[verifier::external_body]
pub(crate) fn render(object: serde_json::Map<String, serde_json::Value>) -> (line: Vec<u8>)
    ensures
        line@ == rendered(members(object)),
        !line@.contains(0x0au8),
{
    serde_json::Value::Object(object).to_string().into_bytes()
}

} // verus!
