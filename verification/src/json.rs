//! JSON documents, held and changed by `serde_json`.
//!
//! A [`serde_json::Value`] is known here by the [`Json`] document that it
//! holds ([`document`]), a [`serde_json::Map`] by its members ([`members`]).
//! The functions of this module that touch either are the only ones whose
//! contracts are taken from `serde_json` and not proved.
use vstd::prelude::*;

verus! {

/// A JSON document.
///
/// A number is its text; an object has no order among its members.
#[verifier::ext_equal]
pub enum Json {
    Null,
    Bool(bool),
    Number(Seq<char>),
    Text(Seq<char>),
    Array(Seq<Json>),
    Object(Map<Seq<char>, Json>),
}

/// The member `key` of `json`, where it is an object that has one.
pub open spec fn field(json: Json, key: Seq<char>) -> Option<Json> {
    match json {
        Json::Object(fields) => if fields.contains_key(key) {
            Some(fields[key])
        } else {
            None
        },
        _ => None,
    }
}

/// The object `json` with its member `key` set to `value`; anything else as it is.
pub open spec fn with_field(json: Json, key: Seq<char>, value: Json) -> Json {
    match json {
        Json::Object(fields) => Json::Object(fields.insert(key, value)),
        _ => json,
    }
}

/// Setting a member to what it is changes nothing.
pub proof fn lemma_with_same_field(json: Json, key: Seq<char>)
    ensures
        field(json, key) matches Some(value) ==> with_field(json, key, value) == json,
{
    match json {
        Json::Object(fields) => if fields.contains_key(key) {
            assert(fields.insert(key, fields[key]) =~= fields);
        },
        _ => {},
    }
}

/// The members of an empty object.
pub open spec fn no_members() -> Map<Seq<char>, Json> {
    Map::empty()
}

/// How many arrays and objects may stand in one another in a text that is
/// read.
pub const DEPTH: usize = 127;

/// Whether a number is written as an integer.
pub open spec fn integer_text(text: Seq<char>) -> bool {
    forall|i: int| 0 <= i < text.len() ==> ('0' <= #[trigger] text[i] <= '9' || text[i] == '-')
}

/// Whether a document has no more than `depth` arrays and objects in one
/// another.
pub open spec fn shallow(json: Json, depth: nat) -> bool
    decreases depth,
{
    match json {
        Json::Number(text) => true,
        Json::Array(items) => if depth == 0 {
            false
        } else {
            forall|i: int|
                0 <= i < items.len() ==> shallow(#[trigger] items[i], (depth - 1) as nat)
        },
        Json::Object(fields) => if depth == 0 {
            false
        } else {
            forall|key: Seq<char>| #[trigger]
                fields.contains_key(key) ==> shallow(fields[key], (depth - 1) as nat)
        },
        _ => true,
    }
}

/// Whether a document has no numbers but integers, as far as `depth` arrays and
/// objects in one another.
pub open spec fn integral(json: Json, depth: nat) -> bool
    decreases depth,
{
    match json {
        Json::Number(text) => integer_text(text),
        Json::Array(items) => if depth == 0 {
            true
        } else {
            forall|i: int|
                0 <= i < items.len() ==> integral(#[trigger] items[i], (depth - 1) as nat)
        },
        Json::Object(fields) => if depth == 0 {
            true
        } else {
            forall|key: Seq<char>| #[trigger]
                fields.contains_key(key) ==> integral(fields[key], (depth - 1) as nat)
        },
        _ => true,
    }
}

/// Whether a document is one that is read back as it was written.
pub open spec fn plain(json: Json) -> bool {
    shallow(json, DEPTH as nat) && integral(json, DEPTH as nat)
}

/// A member stands one level deeper than its object.
pub proof fn lemma_shallow_field(json: Json, key: Seq<char>, depth: nat)
    requires
        shallow(json, depth),
    ensures
        field(json, key) matches Some(value) ==> depth > 0 && shallow(value, (depth - 1) as nat),
{
}

/// An object is as deep as its members allow.
pub proof fn lemma_shallow_with_field(json: Json, key: Seq<char>, value: Json, depth: nat)
    requires
        shallow(json, depth),
        depth > 0,
        shallow(value, (depth - 1) as nat),
    ensures
        shallow(with_field(json, key, value), depth),
{
    if let Json::Object(fields) = json {
        let changed = fields.insert(key, value);
        assert forall|other: Seq<char>| #[trigger] changed.contains_key(other) implies shallow(
            changed[other],
            (depth - 1) as nat,
        ) by {
            if other != key {
                assert(fields.contains_key(other));
            }
        }
    }
}

/// What `bytes` hold, where they are a JSON text.
pub open spec fn parsed(bytes: Seq<u8>) -> Option<Json> {
    match reading(bytes) {
        Ok(json) => Some(json),
        Err(_) => None,
    }
}

/// The documents that `values` hold, in order.
pub open spec fn documents(values: Seq<serde_json::Value>) -> Seq<Json> {
    values.map_values(|value: serde_json::Value| document(value))
}

/// The JSON texts for `items`, in order.
pub open spec fn text_items(items: Seq<Seq<char>>) -> Seq<Json> {
    items.map_values(|item: Seq<char>| Json::Text(item))
}

/// `serde_json::Value`: a JSON document.
#[verifier::external_type_specification]
#[verifier::external_body]
pub struct ExValue(serde_json::Value);

/// `serde_json::Map`: the members of a JSON object.
#[verifier::external_type_specification]
#[verifier::external_body]
#[verifier::reject_recursive_types(K)]
#[verifier::reject_recursive_types(V)]
pub struct ExMap<K, V>(serde_json::Map<K, V>);

/// `serde_json::Error`: why a text is no JSON document.
#[verifier::external_type_specification]
#[verifier::external_body]
pub struct ExError(serde_json::Error);

/// The document that a `serde_json::Value` holds. A number is known by the
/// text that `serde_json` writes for it.
pub uninterp spec fn document(value: serde_json::Value) -> Json;

/// The members that a `serde_json::Map` holds.
pub uninterp spec fn members(map: serde_json::Map<String, serde_json::Value>) -> Map<
    Seq<char>,
    Json,
>;

/// The message of a `serde_json::Error`.
pub uninterp spec fn error_text(error: serde_json::Error) -> Seq<char>;

/// What `serde_json::from_slice` reads from `bytes`: a document, or the message
/// of the error.
pub uninterp spec fn reading(bytes: Seq<u8>) -> Result<Json, Seq<char>>;

/// What `serde_json::to_vec` writes for `json`. Members come in the order of
/// their keys: the maps of `serde_json` are sorted in the default build.
pub uninterp spec fn rendered(json: Json) -> Seq<u8>;

/// `serde_json::from_slice`, for any JSON document.
///
/// Claims that the outcome is a function of the bytes, named [`reading`], and
/// that a document is not read beyond a depth of [`DEPTH`].
#[verifier::external_body]
pub(crate) fn parse(bytes: &[u8]) -> (outcome: Result<serde_json::Value, serde_json::Error>)
    ensures
        match outcome {
            Ok(value) => reading(bytes@) == Ok::<Json, Seq<char>>(document(value)),
            Err(error) => reading(bytes@) == Err::<Json, Seq<char>>(error_text(error)),
        },
        outcome matches Ok(value) ==> shallow(document(value), DEPTH as nat),
{
    serde_json::from_slice(bytes)
}

/// `serde_json::to_vec`, for any JSON document.
///
/// Claims that writing a document into memory succeeds; that the bytes are a
/// function of the document, named [`rendered`]; and that `from_slice` reads the
/// document back from them, where it is [`plain`]. Other numbers may be read
/// back as their neighbours, and deeper documents are not read.
#[verifier::external_body]
pub(crate) fn render(value: &serde_json::Value) -> (outcome: Result<Vec<u8>, serde_json::Error>)
    ensures
        outcome is Ok,
        outcome->Ok_0@ == rendered(document(*value)),
        plain(document(*value)) ==> parsed(outcome->Ok_0@) == Some(document(*value)),
{
    serde_json::to_vec(value)
}

/// `serde_json::Error::to_string`: the message of the error.
#[verifier::external_body]
pub(crate) fn error_message(error: &serde_json::Error) -> (message: String)
    ensures
        message@ == error_text(*error),
{
    error.to_string()
}

/// `serde_json::Value::get` with a text as the index.
///
/// Claims that it finds the member of that key in an object, and nothing
/// anywhere else.
#[verifier::external_body]
pub(crate) fn member<'a>(value: &'a serde_json::Value, key: &str) -> (found: Option<
    &'a serde_json::Value,
>)
    ensures
        match found {
            Some(inner) => field(document(*value), key@) == Some(document(*inner)),
            None => field(document(*value), key@) is None,
        },
{
    value.get(key)
}

/// `serde_json::Value::get_mut` with a text as the index.
///
/// Claims that it lends the member of that key in an object, and nothing
/// anywhere else; that what is put there becomes the member of that key; and
/// that nothing else changes.
#[verifier::external_body]
pub(crate) fn member_mut<'a>(value: &'a mut serde_json::Value, key: &str) -> (found: Option<
    &'a mut serde_json::Value,
>)
    ensures
        match found {
            Some(inner) => {
                &&& field(document(*old(value)), key@) == Some(document(*inner))
                &&& document(*final(value)) == with_field(
                    document(*old(value)),
                    key@,
                    document(*final(inner)),
                )
            },
            None => {
                &&& field(document(*old(value)), key@) is None
                &&& document(*final(value)) == document(*old(value))
            },
        },
{
    value.get_mut(key)
}

/// `serde_json::Value::as_str`: the text of a JSON string, and of nothing else.
pub assume_specification[ serde_json::Value::as_str ](value: &serde_json::Value) -> (found: Option<
    &str,
>)
    ensures
        match found {
            Some(text) => document(*value) == Json::Text(text@),
            None => !(document(*value) is Text),
        },
;

/// `serde_json::Value::as_array`: the items of a JSON array, and of nothing else.
pub assume_specification[ serde_json::Value::as_array ](value: &serde_json::Value) -> (found:
    Option<&Vec<serde_json::Value>>)
    ensures
        match found {
            Some(items) => document(*value) == Json::Array(documents(items@)),
            None => !(document(*value) is Array),
        },
;

/// `serde_json::Value::as_object_mut`: lends the members of a JSON object, and
/// of nothing else. What is made of them becomes the members of the object.
pub assume_specification[ serde_json::Value::as_object_mut ](value: &mut serde_json::Value) -> (found:
    Option<&mut serde_json::Map<String, serde_json::Value>>)
    ensures
        match found {
            Some(map) => {
                &&& document(*old(value)) == Json::Object(members(*map))
                &&& document(*final(value)) == Json::Object(members(*final(map)))
            },
            None => {
                &&& !(document(*old(value)) is Object)
                &&& document(*final(value)) == document(*old(value))
            },
        },
;

/// `serde_json::Map::new`: no members.
pub assume_specification[ serde_json::Map::<String, serde_json::Value>::new ]() -> (map:
    serde_json::Map<String, serde_json::Value>)
    ensures
        members(map) == no_members(),
;

/// `serde_json::Map::insert`: sets the member of that key and gives back what
/// it was.
pub assume_specification[ serde_json::Map::<String, serde_json::Value>::insert ](
    map: &mut serde_json::Map<String, serde_json::Value>,
    k: String,
    v: serde_json::Value,
) -> (previous: Option<serde_json::Value>)
    ensures
        members(*final(map)) == members(*old(map)).insert(k@, document(v)),
        match previous {
            Some(value) => field(Json::Object(members(*old(map))), k@) == Some(document(value)),
            None => field(Json::Object(members(*old(map))), k@) is None,
        },
;

/// `serde_json::Map::clone`: a map with the same members.
pub assume_specification[ <serde_json::Map<String, serde_json::Value> as Clone>::clone ](
    map: &serde_json::Map<String, serde_json::Value>,
) -> (copy: serde_json::Map<String, serde_json::Value>)
    ensures
        members(copy) == members(*map),
;

/// `serde_json::Map::remove`: takes the member of that key out of the map.
#[verifier::external_body]
pub(crate) fn remove_member(
    map: &mut serde_json::Map<String, serde_json::Value>,
    key: &str,
) -> (removed: Option<serde_json::Value>)
    ensures
        members(*final(map)) == members(*old(map)).remove(key@),
        match removed {
            Some(value) => field(Json::Object(members(*old(map))), key@) == Some(document(value)),
            None => field(Json::Object(members(*old(map))), key@) is None,
        },
{
    map.remove(key)
}

/// `serde_json::Map::extend` with another map: every member of it is set.
#[verifier::external_body]
pub(crate) fn extend_members(
    map: &mut serde_json::Map<String, serde_json::Value>,
    more: serde_json::Map<String, serde_json::Value>,
)
    ensures
        members(*final(map)) == members(*old(map)).union_prefer_right(members(more)),
{
    map.extend(more)
}

/// `serde_json::Value::from` a text: that JSON string.
#[verifier::external_body]
pub(crate) fn text_value(text: String) -> (value: serde_json::Value)
    ensures
        document(value) == Json::Text(text@),
{
    serde_json::Value::from(text)
}

/// `serde_json::Value::from` a list of texts: the JSON array of those strings.
#[verifier::external_body]
pub(crate) fn texts_value(texts: Vec<String>) -> (value: serde_json::Value)
    ensures
        document(value) == Json::Array(text_items(texts@.map_values(|text: String| text@))),
{
    serde_json::Value::from(texts)
}

/// `serde_json::Value::from` a map: the JSON object with those members.
#[verifier::external_body]
pub(crate) fn object_value(map: serde_json::Map<String, serde_json::Value>) -> (value:
    serde_json::Value)
    ensures
        document(value) == Json::Object(members(map)),
{
    serde_json::Value::from(map)
}

/// A member of an object is what stands under its key, and nothing else has
/// members; setting one changes that key alone.
pub proof fn law_members_stand_under_their_keys(
    json: Json,
    fields: Map<Seq<char>, Json>,
    key: Seq<char>,
    value: Json,
)
    ensures
        fields.contains_key(key) ==> field(Json::Object(fields), key) == Some(fields[key]),
        !fields.contains_key(key) ==> field(Json::Object(fields), key) is None,
        !(json is Object) ==> field(json, key) is None && with_field(json, key, value) == json,
        with_field(Json::Object(fields), key, value) == Json::Object(fields.insert(key, value)),
{
}

} // verus!
