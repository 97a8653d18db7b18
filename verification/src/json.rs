//! Free-form structured data: values of `serde_json`, which the library
//! carries through and, in two places, reads or writes one text member of.

use vstd::prelude::*;

verus! {

/// `serde_json::Value`, a value of any JSON shape. Nothing inside one is
/// visible here; what the contracts need of its contents has a name below.
#[verifier::external_type_specification]
#[verifier::external_body]
pub struct ExJsonValue(serde_json::Value);

/// The text members of a value: for an object, its members whose value is a
/// string, each key with its text; for any other value, nothing.
pub uninterp spec fn text_members(value: serde_json::Value) -> Map<Seq<char>, Seq<char>>;

/// The other members of a value: for an object, its members whose value is
/// not a string, each key with its value written out as JSON; for any other
/// value, nothing.
pub uninterp spec fn other_members(value: serde_json::Value) -> Map<Seq<char>, Seq<char>>;

/// No members at all.
pub open spec fn no_members() -> Map<Seq<char>, Seq<char>> {
    Map::empty()
}

/// `serde_json::Value::get` with a text key finds a member of an object, and
/// `serde_json::Value::as_str` gives the text of a string. Together they give
/// the text member under `key`, if there is one.
#[verifier::external_body]
pub(crate) fn text_member(value: &serde_json::Value, key: &str) -> (text: Option<String>)
    ensures
        text is Some <==> text_members(*value).contains_key(key@),
        text matches Some(t) ==> t@ == text_members(*value)[key@],
{
    value.get(key).and_then(serde_json::Value::as_str).map(str::to_owned)
}

/// Assigning through `serde_json::Value`'s index by a text key replaces the
/// member under that key and leaves every other member alone. On a value that
/// is neither an object nor null the index panics: the value has to hold a
/// text member under `key` already.
#[verifier::external_body]
pub(crate) fn set_text_member(value: &mut serde_json::Value, key: &str, text: &str)
    requires
        text_members(*old(value)).contains_key(key@),
    ensures
        text_members(*final(value)) == text_members(*old(value)).insert(key@, text@),
        other_members(*final(value)) == other_members(*old(value)),
{
    value[key] = serde_json::Value::String(text.to_owned());
}

/// `serde_json::Map::insert` into an empty `serde_json::Map`, wrapped as
/// `serde_json::Value::Object`, gives the object with one text member.
#[verifier::external_body]
pub(crate) fn text_object(key: &str, text: &str) -> (value: serde_json::Value)
    ensures
        text_members(value) == map![key@ => text@],
        other_members(value) == no_members(),
{
    let mut members = serde_json::Map::new();
    members.insert(key.to_owned(), serde_json::Value::String(text.to_owned()));
    serde_json::Value::Object(members)
}

} // verus!
