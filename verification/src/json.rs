//! JSON values as the backends' answers hold them, and their reading from
//! text.

use vstd::prelude::*;

verus! {

/// A JSON value.
#[derive(Debug)]
pub enum Json {
    /// `null`
    Null,
    /// `true` or `false`
    Bool(bool),
    /// A number. Its value is not kept: no answer is read by its numbers.
    Number,
    /// A string.
    Text(String),
    /// An array.
    List(Vec<Json>),
    /// An object. Its members are not kept: no answer is read by them.
    Object,
}

/// A JSON value as a mathematical value.
pub enum JsonView {
    /// `null`
    Null,
    /// `true` or `false`
    Bool(bool),
    /// A number.
    Number,
    /// A string.
    Text(Seq<char>),
    /// An array.
    List(Seq<JsonView>),
    /// An object.
    Object,
}

/// The mathematical value of a JSON value.
pub open spec fn json_view(json: Json) -> JsonView
    decreases json,
{
    match json {
        Json::Null => JsonView::Null,
        Json::Bool(flag) => JsonView::Bool(flag),
        Json::Number => JsonView::Number,
        Json::Text(text) => JsonView::Text(text@),
        Json::List(items) => JsonView::List(
            Seq::new(
                items@.len(),
                |at: int|
                    if 0 <= at < items@.len() {
                        json_view(items@[at])
                    } else {
                        JsonView::Null
                    },
            ),
        ),
        Json::Object => JsonView::Object,
    }
}

impl View for Json {
    type V = JsonView;

    open spec fn view(&self) -> JsonView {
        json_view(*self)
    }
}

impl JsonView {
    /// The element of an array at the given place; `null` where the value
    /// is no array or has no such element.
    pub open spec fn at(self, index: int) -> JsonView {
        match self {
            JsonView::List(items) => if 0 <= index < items.len() {
                items[index]
            } else {
                JsonView::Null
            },
            _ => JsonView::Null,
        }
    }

    /// The elements of an array; none where the value is no array.
    pub open spec fn items(self) -> Seq<JsonView> {
        match self {
            JsonView::List(items) => items,
            _ => Seq::empty(),
        }
    }
}

impl Json {
    /// The element of an array at the given place; `null` where the value
    /// is no array or has no such element.
    pub fn at(&self, index: usize) -> (item: &Json)
        ensures
            item@ == self@.at(index as int),
    {
        match self {
            Json::List(items) => {
                if index < items.len() {
                    &items[index]
                } else {
                    &Json::Null
                }
            },
            _ => &Json::Null,
        }
    }

    /// Whether the value is an array.
    pub fn is_array(&self) -> (array: bool)
        ensures
            array == (self@ is List),
    {
        match self {
            Json::List(_) => true,
            _ => false,
        }
    }

    /// Whether the value is a string.
    pub fn is_string(&self) -> (string: bool)
        ensures
            string == (self@ is Text),
    {
        match self {
            Json::Text(_) => true,
            _ => false,
        }
    }

    /// The text of a string.
    pub fn as_str(&self) -> (text: Option<&str>)
        ensures
            match text {
                Some(text) => self@ == JsonView::Text(text@),
                None => !(self@ is Text),
            },
    {
        match self {
            Json::Text(text) => Some(text.as_str()),
            _ => None,
        }
    }

    /// The elements of an array.
    pub fn as_array(&self) -> (items: Option<&Vec<Json>>)
        ensures
            match items {
                Some(items) => self@ is List && self@.items().len() == items.len() && forall|
                    at: int,
                |
                    0 <= at < items.len() ==> (#[trigger] items[at])@ == self@.items()[at],
                None => !(self@ is List),
            },
    {
        match self {
            Json::List(items) => Some(items),
            _ => None,
        }
    }
}

/// `serde_json::Value`, taken as it comes: nothing is known of what is
/// inside but what `value_view` names.
#[verifier::external_type_specification]
#[verifier::external_body]
pub struct ExValue(serde_json::Value);

/// What `serde_json::from_str` makes of a text when asked for a
/// `serde_json::Value`: the value, or the message of the error.
pub uninterp spec fn json_of(text: Seq<char>) -> Result<JsonView, Seq<char>>;

/// What a `serde_json::Value` holds, as far as the library reads it:
/// `null`, a truth value, that it is a number, a string, the elements of an
/// array in order, or that it is an object.
pub uninterp spec fn value_view(value: serde_json::Value) -> JsonView;

/// `serde_json::from_str` for a `serde_json::Value`: the value that the
/// text stands for, or the message of the error (its `to_string`) where the
/// text is no JSON. All that is claimed is that the outcome depends on the
/// text alone: it is what `json_of` names.
#[verifier::external_body]
fn read_value(text: &str) -> (read: Result<serde_json::Value, String>)
    ensures
        match read {
            Ok(value) => json_of(text@) == Ok::<JsonView, Seq<char>>(value_view(value)),
            Err(fault) => json_of(text@) == Err::<JsonView, Seq<char>>(fault@),
        },
{
    match serde_json::from_str::<serde_json::Value>(text) {
        Ok(value) => Ok(value),
        Err(error) => Err(error.to_string()),
    }
}

/// The value of the `serde_json` crate as a value of this library, variant
/// by variant; a string and the elements of an array are kept, the value of
/// a number and the members of an object are not. The claim is that the
/// result shows what `value_view` names, which is what the value holds.
#[verifier::external_body]
fn json_from(value: &serde_json::Value) -> (json: Json)
    ensures
        json@ == value_view(*value),
{
    match value {
        serde_json::Value::Null => Json::Null,
        serde_json::Value::Bool(flag) => Json::Bool(*flag),
        serde_json::Value::Number(_) => Json::Number,
        serde_json::Value::String(text) => Json::Text(text.clone()),
        serde_json::Value::Array(items) => Json::List(items.iter().map(json_from).collect()),
        serde_json::Value::Object(_) => Json::Object,
    }
}

/// The text as a JSON value, or the message of the error where the text is
/// no JSON.
pub fn parse_json(text: &str) -> (parsed: Result<Json, String>)
    ensures
        match parsed {
            Ok(json) => json_of(text@) == Ok::<JsonView, Seq<char>>(json@),
            Err(fault) => json_of(text@) == Err::<JsonView, Seq<char>>(fault@),
        },
{
    match read_value(text) {
        Ok(value) => Ok(json_from(&value)),
        Err(fault) => Err(fault),
    }
}

} // verus!
