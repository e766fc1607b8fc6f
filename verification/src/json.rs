//! JSON objects, built with `serde_json` and described by the members they hold.
//!
//! The crate is built with `serde_json`'s `preserve_order` feature, so an
//! object keeps its members in the order in which their keys were first
//! inserted, and is written out in that order.

use vstd::prelude::*;

verus! {

/// What a member of an object holds, as far as this service builds one.
pub enum JsonScalar {
    /// A JSON string.
    Text(Seq<char>),
    /// A JSON number that is a non-negative integer.
    Number(nat),
}

/// One member of an object: its key and what it holds.
pub type JsonMember = (Seq<char>, JsonScalar);

/// A JSON object as `serde_json` holds it.
pub type JsonObject = serde_json::Map<String, serde_json::Value>;

/// `serde_json::Value`, opaque to the verifier.
#[verifier::external_type_specification]
#[verifier::external_body]
pub struct ExValue(serde_json::Value);

/// `serde_json::Map`, opaque to the verifier: what it holds is spoken of
/// through [`object_members`].
#[verifier::external_type_specification]
#[verifier::external_body]
#[verifier::reject_recursive_types(K)]
#[verifier::reject_recursive_types(V)]
pub struct ExObject<K, V>(serde_json::Map<K, V>);

/// The members of an object, in the order in which `serde_json` walks and
/// writes them.
pub uninterp spec fn object_members(object: serde_json::Map<String, serde_json::Value>) -> Seq<JsonMember>;

/// Whether some member has this key.
pub open spec fn has_key(members: Seq<JsonMember>, key: Seq<char>) -> bool {
    exists|i: int| 0 <= i < members.len() && (#[trigger] members[i]).0 == key
}

/// The members after `key` is set to `value`: a member with that key keeps its
/// place and takes the new value, and a new key goes to the end.
pub open spec fn upsert(members: Seq<JsonMember>, key: Seq<char>, value: JsonScalar) -> Seq<
    JsonMember,
>
    decreases members.len(),
{
    if members.len() == 0 {
        seq![(key, value)]
    } else if members[0].0 == key {
        members.update(0, (key, value))
    } else {
        seq![members[0]] + upsert(members.drop_first(), key, value)
    }
}

/// Setting a key that no member has appends the new member.
pub proof fn lemma_upsert_new_key(members: Seq<JsonMember>, key: Seq<char>, value: JsonScalar)
    requires
        !has_key(members, key),
    ensures
        upsert(members, key, value) == members.push((key, value)),
    decreases members.len(),
{
    if members.len() > 0 {
        let rest = members.drop_first();
        assert(members[0].0 != key);
        assert(!has_key(rest, key)) by {
            assert forall|i: int| 0 <= i < rest.len() implies (#[trigger] rest[i]).0 != key by {
                assert(rest[i] == members[i + 1]);
            }
        }
        lemma_upsert_new_key(rest, key, value);
        assert(seq![members[0]] + rest.push((key, value)) =~= members.push((key, value)));
    }
}

/// Calls `serde_json::Map::new`, which makes an object without members.
#[verifier::external_body]
pub(crate) fn new_object() -> (object: JsonObject)
    ensures
        object_members(object) == Seq::<JsonMember>::empty(),
{
    serde_json::Map::new()
}

/// Calls `serde_json::Map::insert` with the string `text` as a
/// `serde_json::Value::String`. With `preserve_order` the object is an
/// `IndexMap`, whose `insert` updates the value of a key that is present and
/// leaves it in its place, and puts a new key last.
#[verifier::external_body]
pub(crate) fn insert_text(object: &mut JsonObject, key: &str, text: &str)
    ensures
        object_members(*final(object)) == upsert(
            object_members(*old(object)),
            key@,
            JsonScalar::Text(text@),
        ),
{
    object.insert(key.to_owned(), serde_json::Value::String(text.to_owned()));
}

/// Calls `serde_json::Map::insert` with `number` as a `serde_json::Value`,
/// which `Value::from` makes a `Value::Number` of the same integer. The
/// object changes as in [`insert_text`].
#[verifier::external_body]
pub(crate) fn insert_number(object: &mut JsonObject, key: &str, number: u64)
    ensures
        object_members(*final(object)) == upsert(
            object_members(*old(object)),
            key@,
            JsonScalar::Number(number as nat),
        ),
{
    object.insert(key.to_owned(), serde_json::Value::from(number));
}

} // verus!
