//! JSON objects whose members are texts and integers.
//!
//! `serde_json` holds, encodes and parses the objects. This module gives its
//! map a mathematical model, says in contracts what the calls of `serde_json`
//! that the library makes do to that model, and builds the verified operations
//! of the library on them.

use crate::models::HandlersErr;
use vstd::prelude::*;

verus! {

/// `serde_json::Value`, which is carried through and never looked into.
#[verifier::external_type_specification]
#[verifier::external_body]
pub struct ExJsonValue(serde_json::Value);

/// `serde_json::Map`, whose contents `members` names.
#[verifier::external_type_specification]
#[verifier::external_body]
#[verifier::reject_recursive_types(K)]
#[verifier::reject_recursive_types(V)]
pub struct ExJsonMap<K, V>(serde_json::Map<K, V>);

/// `serde_json::Error`, of which only its presence is read.
#[verifier::external_type_specification]
#[verifier::external_body]
pub struct ExJsonError(serde_json::Error);

/// The map that `serde_json` keeps a JSON object in.
pub type RawObject = serde_json::Map<String, serde_json::Value>;

/// What a member of a JSON object holds, as far as this library reads it.
pub enum JsonView {
    /// A JSON string.
    Text(Seq<char>),
    /// A JSON number that `serde_json` holds as an integer: one written
    /// without fraction or exponent that fits `u64` or `i64`.
    Integer(int),
    /// Anything else: null, a boolean, a number with a fraction, an array or
    /// an object.
    Other,
}

/// A value that the library puts into a JSON object.
#[derive(Debug)]
pub enum Scalar {
    Text(String),
    Integer(i64),
}

impl View for Scalar {
    type V = JsonView;

    open spec fn view(&self) -> JsonView {
        match self {
            Scalar::Text(text) => JsonView::Text(text@),
            Scalar::Integer(number) => JsonView::Integer(*number as int),
        }
    }
}

/// The members of a JSON object: each name with what its value holds.
pub type Members = Map<Seq<char>, JsonView>;

/// Whether every member is a text or an integer.
pub open spec fn plain(members: Members) -> bool {
    forall|name: Seq<char>|
        members.contains_key(name) ==> !(#[trigger] members[name] is Other)
}

/// The member `name` of `members`, if it is there and is a text.
pub open spec fn text_at(members: Members, name: Seq<char>) -> Option<Seq<char>> {
    if members.contains_key(name) {
        match members[name] {
            JsonView::Text(text) => Some(text),
            _ => None,
        }
    } else {
        None
    }
}

/// What a `serde_json` map holds: for each of its keys, what the value under
/// it holds.
pub uninterp spec fn members(object: RawObject) -> Members;

/// The compact JSON text that `serde_json::to_string` writes for a map with
/// the given members, all of them texts and integers; `None` where it fails.
/// The map keeps its keys sorted, so the order in which the members were put
/// in has no part in the text.
pub uninterp spec fn object_text(members: Members) -> Option<Seq<char>>;

/// The members of the JSON object that `serde_json::from_str` reads from a
/// text; `None` where the text is not exactly one JSON object.
pub uninterp spec fn parsed_members(text: Seq<char>) -> Option<Members>;

/// `serde_json::Map::new`: a map without members.
#[verifier::external_body]
fn empty_object() -> (object: RawObject)
    ensures
        members(object) == Members::empty(),
{
    serde_json::Map::new()
}

/// `serde_json::Map::insert`, with the value made from a `Scalar`: afterwards
/// the member `name` holds that value, whether or not the name was there
/// before, and the other members are as they were.
#[verifier::external_body]
fn insert_member(object: &mut RawObject, name: &str, value: Scalar)
    ensures
        members(*final(object)) == members(*old(object)).insert(name@, value@),
{
    let value = match value {
        Scalar::Text(text) => serde_json::Value::String(text),
        Scalar::Integer(number) => serde_json::Value::from(number),
    };
    object.insert(name.to_owned(), value);
}

/// `serde_json::to_string` on a map. The map is written in the order of its
/// keys, so for members that are texts and integers the text is a function of
/// the members alone. Nothing is promised on whether it succeeds.
#[verifier::external_body]
fn encode_object(object: &RawObject) -> (text: Result<String, serde_json::Error>)
    requires
        plain(members(*object)),
    ensures
        text is Ok <==> object_text(members(*object)) is Some,
        text matches Ok(t) ==> object_text(members(*object)) == Some(t@),
{
    serde_json::to_string(object)
}

/// `serde_json::from_str` into a map: succeeds on a text that holds one JSON
/// object and nothing but white space around it, and fails on every other.
#[verifier::external_body]
fn decode_object(text: &str) -> (object: Result<RawObject, serde_json::Error>)
    ensures
        object is Ok <==> parsed_members(text@) is Some,
        object matches Ok(o) ==> parsed_members(text@) == Some(members(o)),
{
    serde_json::from_str::<RawObject>(text)
}

/// `serde_json::Map::get`, and the text of the value found where it is a JSON
/// string.
#[verifier::external_body]
fn member_text(object: &RawObject, name: &str) -> (text: Option<String>)
    ensures
        text is Some <==> text_at(members(*object), name@) is Some,
        text matches Some(t) ==> text_at(members(*object), name@) == Some(t@),
{
    match object.get(name) {
        Some(serde_json::Value::String(text)) => Some(text.clone()),
        _ => None,
    }
}

/// The text of member `name` of the JSON object that `document` holds, if
/// `document` is a JSON object and has such a member and it is a string.
pub open spec fn document_text_at(document: Seq<char>, name: Seq<char>) -> Option<Seq<char>> {
    match parsed_members(document) {
        Some(members) => text_at(members, name),
        None => None,
    }
}

/// Reads the string member `name` out of a JSON document.
pub fn text_member(document: &str, name: &str) -> (text: Option<String>)
    ensures
        text is Some <==> document_text_at(document@, name@) is Some,
        text matches Some(t) ==> document_text_at(document@, name@) == Some(t@),
{
    match decode_object(document) {
        Ok(object) => member_text(&object, name),
        Err(_) => None,
    }
}

/// A JSON object under construction. Its members are texts and integers.
pub struct JsonObject {
    raw: RawObject,
}

impl View for JsonObject {
    type V = Members;

    closed spec fn view(&self) -> Members {
        members(self.raw)
    }
}

impl JsonObject {
    #[verifier::type_invariant]
    closed spec fn well_formed(&self) -> bool {
        plain(members(self.raw))
    }

    /// An object without members.
    pub fn new() -> (object: JsonObject)
        ensures
            object@ == Members::empty(),
    {
        JsonObject { raw: empty_object() }
    }

    /// The object with member `name` set to `value`.
    pub fn with(self, name: &str, value: Scalar) -> (object: JsonObject)
        ensures
            object@ == self@.insert(name@, value@),
    {
        proof {
            use_type_invariant(&self);
        }
        let mut raw = self.raw;
        insert_member(&mut raw, name, value);
        JsonObject { raw }
    }

    /// The object as compact JSON text.
    pub fn to_text(&self) -> (text: Result<String, HandlersErr>)
        ensures
            encoded(self@, text),
    {
        proof {
            use_type_invariant(self);
        }
        match encode_object(&self.raw) {
            Ok(text) => Ok(text),
            Err(_) => Err(HandlersErr::SerializationError),
        }
    }

    /// The map behind the object.
    pub(crate) fn raw(&self) -> (raw: &RawObject)
        ensures
            members(*raw) == self@,
            plain(self@),
    {
        proof {
            use_type_invariant(self);
        }
        &self.raw
    }
}

/// Whether `text` is the result of encoding an object with `members`: its
/// JSON text, or `SerializationError` where there is none.
pub open spec fn encoded(members: Members, text: Result<String, HandlersErr>) -> bool {
    match object_text(members) {
        Some(t) => text is Ok && text->Ok_0@ == t,
        None => text == Err::<String, HandlersErr>(HandlersErr::SerializationError),
    }
}

} // verus!
