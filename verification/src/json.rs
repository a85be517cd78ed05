use vstd::prelude::*;

verus! {

/// `serde_json::Value`, one JSON value.
#[verifier::external_type_specification]
#[verifier::external_body]
pub struct ExJsonValue(serde_json::Value);

/// `serde_json::Map`, a JSON object: its members by key.
#[verifier::external_type_specification]
#[verifier::external_body]
#[verifier::reject_recursive_types(K)]
#[verifier::reject_recursive_types(V)]
pub struct ExJsonObject<K, V>(serde_json::Map<K, V>);

/// `serde_json::Error`, why a text is not the JSON that was asked for.
#[verifier::external_type_specification]
#[verifier::external_body]
pub struct ExJsonError(serde_json::Error);

/// What one member of a JSON object holds, as far as an envelope reads it:
/// a string, a boolean, or anything else (null, a number, an array, an object).
pub enum Member {
    Text(Seq<char>),
    Flag(bool),
    Other,
}

/// The members of a JSON object, by key.
pub uninterp spec fn members(object: serde_json::Map<String, serde_json::Value>) -> Map<
    Seq<char>,
    Member,
>;

/// What `serde_json::from_slice` makes of `text` when it is asked for an
/// object: the members of the object (the later one where a key comes
/// twice), or `None` where it reports an error, as it does on text that is
/// not JSON, that holds more than one value, or whose value is no object.
pub uninterp spec fn parsed_members(text: Seq<u8>) -> Option<Map<Seq<char>, Member>>;

/// The text `serde_json::to_vec` writes for an object with these members,
/// all of them strings or booleans: compact JSON, the members in the order
/// of their keys.
pub uninterp spec fn object_text(members: Map<Seq<char>, Member>) -> Seq<u8>;

/// The members of an object that has none.
pub open spec fn no_members() -> Map<Seq<char>, Member> {
    Map::empty()
}

/// Whether every member is a string or a boolean.
pub open spec fn is_flat(members: Map<Seq<char>, Member>) -> bool {
    forall|key: Seq<char>| members.contains_key(key) ==> !(#[trigger] members[key] is Other)
}

/// `serde_json::Map::new`: an object without members.
#[verifier::external_body]
pub(crate) fn new_object() -> (object: serde_json::Map<String, serde_json::Value>)
    ensures
        members(object) == no_members(),
{
    serde_json::Map::new()
}

/// `serde_json::Map::insert` with a `Value::String`: sets the member `key`
/// to a string, replacing what the key held.
#[verifier::external_body]
pub(crate) fn put_text(
    object: &mut serde_json::Map<String, serde_json::Value>,
    key: &str,
    text: &str,
)
    ensures
        members(*final(object)) == members(*old(object)).insert(key@, Member::Text(text@)),
{
    object.insert(key.to_owned(), serde_json::Value::String(text.to_owned()));
}

/// `serde_json::Map::insert` with a `Value::Bool`: sets the member `key` to a
/// boolean, replacing what the key held.
#[verifier::external_body]
pub(crate) fn put_flag(
    object: &mut serde_json::Map<String, serde_json::Value>,
    key: &str,
    flag: bool,
)
    ensures
        members(*final(object)) == members(*old(object)).insert(key@, Member::Flag(flag)),
{
    object.insert(key.to_owned(), serde_json::Value::Bool(flag));
}

/// `serde_json::Map::get` and `Value::as_str`: the string under `key`, or
/// `None` where the key is absent or holds no string.
#[verifier::external_body]
pub(crate) fn text_member(
    object: &serde_json::Map<String, serde_json::Value>,
    key: &str,
) -> (found: Option<String>)
    ensures
        found matches Some(text) ==> members(*object).contains_key(key@) && members(
            *object,
        )[key@] == Member::Text(text@),
        found is None ==> !(members(*object).contains_key(key@) && members(*object)[key@] is Text),
{
    object.get(key).and_then(serde_json::Value::as_str).map(str::to_owned)
}

/// `serde_json::Map::get` and `Value::as_bool`: the boolean under `key`, or
/// `None` where the key is absent or holds no boolean.
#[verifier::external_body]
pub(crate) fn flag_member(
    object: &serde_json::Map<String, serde_json::Value>,
    key: &str,
) -> (found: Option<bool>)
    ensures
        found matches Some(flag) ==> members(*object).contains_key(key@) && members(
            *object,
        )[key@] == Member::Flag(flag),
        found is None ==> !(members(*object).contains_key(key@) && members(*object)[key@] is Flag),
{
    object.get(key).and_then(serde_json::Value::as_bool)
}

/// `serde_json::from_slice` at the type `Map<String, Value>`. Its outcome is
/// a function of the text alone, so it is named: an object with the named
/// members, or an error where the name says `None`.
#[verifier::external_body]
pub(crate) fn parse_object(text: &[u8]) -> (parsed: Result<
    serde_json::Map<String, serde_json::Value>,
    serde_json::Error,
>)
    ensures
        parsed matches Ok(object) ==> parsed_members(text@) == Some(members(object)),
        parsed is Err ==> parsed_members(text@) is None,
{
    serde_json::from_slice(text)
}

/// `serde_json::to_vec` on an object. Writing an object of strings and
/// booleans cannot fail (the keys are strings, and no such value refuses to
/// be written), gives the same text for the same members, and that text
/// parses back to those members: serde_json reads every string it writes.
#[verifier::external_body]
pub(crate) fn write_object(object: &serde_json::Map<String, serde_json::Value>) -> (text: Result<
    Vec<u8>,
    serde_json::Error,
>)
    ensures
        is_flat(members(*object)) ==> text is Ok,
        is_flat(members(*object)) ==> text.unwrap()@ == object_text(members(*object)),
        is_flat(members(*object)) ==> parsed_members(text.unwrap()@) == Some(members(*object)),
{
    serde_json::to_vec(object)
}

} // verus!
