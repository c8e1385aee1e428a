//! JSON objects made of text, written by `serde_json`.

use crate::text::texts;
use vstd::prelude::*;

verus! {

/// A JSON value.
#[verifier::ext_equal]
pub enum JsonText {
    Text(Seq<char>),
    /// An array of nothing but texts.
    List(Seq<Seq<char>>),
    /// Any other value, by its own JSON text.
    Other(Seq<char>),
}

/// `serde_json::Map`, a JSON object.
#[verifier::external_type_specification]
#[verifier::external_body]
#[verifier::reject_recursive_types(K)]
#[verifier::reject_recursive_types(V)]
pub struct ExJsonMap<K, V>(serde_json::Map<K, V>);

/// `serde_json::Value`, a JSON value.
#[verifier::external_type_specification]
#[verifier::external_body]
pub struct ExJsonValue(serde_json::Value);

/// An object without members.
pub open spec fn no_members() -> Map<Seq<char>, JsonText> {
    Map::empty()
}

/// The members of a JSON object.
pub uninterp spec fn json_members(object: serde_json::Map<String, serde_json::Value>) -> Map<
    Seq<char>,
    JsonText,
>;

/// The compact JSON text of an object with the given members.
pub uninterp spec fn json_text(members: Map<Seq<char>, JsonText>) -> Seq<char>;

/// `serde_json::Map::new`: an object without members.
#[verifier::external_body]
fn empty_object() -> (object: serde_json::Map<String, serde_json::Value>)
    ensures
        json_members(object) == no_members(),
{
    serde_json::Map::new()
}

/// `serde_json::Map::insert` with a text value: the member is set, replacing
/// one of the same name, and the others stay.
#[verifier::external_body]
fn set_text(object: &mut serde_json::Map<String, serde_json::Value>, name: &str, text: &str)
    ensures
        json_members(*final(object)) == json_members(*old(object)).insert(
            name@,
            JsonText::Text(text@),
        ),
{
    object.insert(name.to_string(), serde_json::Value::String(text.to_string()));
}

/// `serde_json::Map::insert` with an array of text: the member is set,
/// replacing one of the same name, and the others stay.
#[verifier::external_body]
fn set_list(object: &mut serde_json::Map<String, serde_json::Value>, name: &str, list: Vec<String>)
    ensures
        json_members(*final(object)) == json_members(*old(object)).insert(
            name@,
            JsonText::List(texts(list@)),
        ),
{
    object.insert(name.to_string(), serde_json::Value::from(list));
}

/// `serde_json::to_string` on an object: its text is determined by the
/// members, which are written in the order of their names. Writing text to
/// memory does not fail; the default covers the outside signature.
#[verifier::external_body]
fn object_text(object: &serde_json::Map<String, serde_json::Value>) -> (text: String)
    ensures
        text@ == json_text(json_members(*object)),
{
    serde_json::to_string(object).unwrap_or_default()
}

/// A JSON object under construction.
pub struct Attributes {
    object: serde_json::Map<String, serde_json::Value>,
}

impl View for Attributes {
    type V = Map<Seq<char>, JsonText>;

    closed spec fn view(&self) -> Map<Seq<char>, JsonText> {
        json_members(self.object)
    }
}

impl Attributes {
    pub fn new() -> (attributes: Self)
        ensures
            attributes@ == no_members(),
    {
        Attributes { object: empty_object() }
    }

    /// Sets a member to a text.
    pub fn text(&mut self, name: &str, text: &str)
        ensures
            final(self)@ == old(self)@.insert(name@, JsonText::Text(text@)),
    {
        set_text(&mut self.object, name, text);
    }

    /// Sets a member to a text, where there is one.
    pub fn text_option(&mut self, name: &str, text: &Option<String>)
        ensures
            final(self)@ == with_text(old(self)@, name@, *text),
    {
        if let Some(t) = text {
            self.text(name, t.as_str());
        }
    }

    /// Sets a member to a list of texts.
    pub fn list(&mut self, name: &str, list: Vec<String>)
        ensures
            final(self)@ == old(self)@.insert(name@, JsonText::List(texts(list@))),
    {
        set_list(&mut self.object, name, list);
    }

    /// The JSON text of the object.
    pub fn render(&self) -> (text: String)
        ensures
            text@ == json_text(self@),
    {
        object_text(&self.object)
    }
}

/// Members with one more text, where there is one.
pub open spec fn with_text(
    members: Map<Seq<char>, JsonText>,
    name: Seq<char>,
    text: Option<String>,
) -> Map<Seq<char>, JsonText> {
    match text {
        Some(t) => members.insert(name, JsonText::Text(t@)),
        None => members,
    }
}

/// A text that is there becomes a member of that name, and one that is not changes
/// nothing; the other members stay.
pub proof fn law_text_becomes_a_member(
    members: Map<Seq<char>, JsonText>,
    name: Seq<char>,
    text: Option<String>,
    other: Seq<char>,
)
    ensures
        text is None ==> with_text(members, name, text) == members,
        text matches Some(t) ==> with_text(members, name, text).dom().contains(name) && with_text(
            members,
            name,
            text,
        )[name] == JsonText::Text(t@),
        other != name ==> (with_text(members, name, text).dom().contains(other)
            <==> members.dom().contains(other)),
        other != name && members.dom().contains(other) ==> with_text(members, name, text)[other]
            == members[other],
        no_members().dom() == Set::<Seq<char>>::empty(),
{
}

} // verus!
