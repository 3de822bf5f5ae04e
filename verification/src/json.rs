//! JSON objects of the API, held in `serde_json`'s own map.

use vstd::prelude::*;

verus! {

/// The map type of `serde_json`, declared so that verified code can carry it.
#[verifier::external_type_specification]
#[verifier::external_body]
#[verifier::reject_recursive_types(K)]
#[verifier::reject_recursive_types(V)]
pub struct ExJsonMap<K, V>(serde_json::Map<K, V>);

/// The value type of `serde_json`, declared so that its map can be named.
#[verifier::external_type_specification]
#[verifier::external_body]
pub struct ExJsonValue(serde_json::Value);

/// What one member of a JSON object holds.
pub enum Member {
    /// `null`.
    Null,
    /// `true` or `false`.
    Flag(bool),
    /// A string.
    Text(Seq<char>),
    /// An array of objects.
    Objects(Seq<Map<Seq<char>, Member>>),
}

/// Members by name.
pub type Members = Map<Seq<char>, Member>;

/// The members of a JSON object, by name.
pub uninterp spec fn members(object: serde_json::Map<String, serde_json::Value>) -> Map<Seq<char>, Member>;

/// A value to put into a JSON object.
pub enum Field {
    /// `null`.
    Null,
    /// `true` or `false`.
    Flag(bool),
    /// A string.
    Text(String),
    /// An array of objects.
    Objects(Vec<serde_json::Map<String, serde_json::Value>>),
}

impl Field {
    /// What a member holds once this value is put there.
    pub open spec fn member(self) -> Member {
        match self {
            Field::Null => Member::Null,
            Field::Flag(b) => Member::Flag(b),
            Field::Text(s) => Member::Text(s@),
            Field::Objects(v) => Member::Objects(
                v@.map_values(|m: serde_json::Map<String, serde_json::Value>| members(m)),
            ),
        }
    }
}

/// `serde_json::Map::new` makes an object without members.
#[verifier::external_body]
pub(crate) fn empty_object() -> (r: serde_json::Map<String, serde_json::Value>)
    ensures
        members(r) == Members::empty(),
{
    serde_json::Map::new()
}

/// `serde_json::Map::insert` puts the value under the key, in place of what was there, and leaves
/// every other member as it was.
#[verifier::external_body]
pub(crate) fn put(object: &mut serde_json::Map<String, serde_json::Value>, key: &str, field: Field)
    ensures
        members(*final(object)) == members(*old(object)).insert(key@, field.member()),
{
    let value = match field {
        Field::Null => serde_json::Value::Null,
        Field::Flag(b) => serde_json::Value::Bool(b),
        Field::Text(s) => serde_json::Value::String(s),
        Field::Objects(v) => {
            serde_json::Value::Array(v.into_iter().map(serde_json::Value::Object).collect())
        },
    };
    object.insert(key.to_string(), value);
}

/// A value is seen as what it is, and an array with every one of its objects at its place.
pub proof fn law_a_field_is_seen_in_full(field: Field)
    ensures
        match field {
            Field::Null => field.member() is Null,
            Field::Flag(b) => field.member() == Member::Flag(b),
            Field::Text(s) => field.member() == Member::Text(s@),
            Field::Objects(v) => field.member() matches Member::Objects(seen) && {
                &&& seen.len() == v@.len()
                &&& forall|i: int| 0 <= i < v@.len() ==> #[trigger] seen[i] == members(v@[i])
            },
        },
{
}

} // verus!
