//! JSON values: what `package.json` and the linter's settings hold.
use crate::text::same_text;
use vstd::prelude::*;

verus! {

/// A JSON value. Of a number nothing is kept but that it is one.
#[derive(Debug)]
pub enum Json {
    Null,
    Bool(bool),
    Number,
    Text(String),
    Array(Vec<Json>),
    Object(Vec<(String, Json)>),
}

/// The contents of a [`Json`].
pub enum JsonView {
    Null,
    Bool(bool),
    Number,
    Text(Seq<char>),
    Array(Seq<JsonView>),
    Object(Seq<(Seq<char>, JsonView)>),
}

impl Json {
    /// The contents of the value.
    pub open spec fn view(&self) -> JsonView
        decreases self,
    {
        match self {
            Json::Null => JsonView::Null,
            Json::Bool(value) => JsonView::Bool(*value),
            Json::Number => JsonView::Number,
            Json::Text(text) => JsonView::Text(text@),
            Json::Array(items) => JsonView::Array(
                Seq::new(
                    items@.len(),
                    |i: int|
                        if 0 <= i < items@.len() {
                            items@[i].view()
                        } else {
                            JsonView::Null
                        },
                ),
            ),
            Json::Object(fields) => JsonView::Object(
                Seq::new(
                    fields@.len(),
                    |i: int|
                        if 0 <= i < fields@.len() {
                            (fields@[i].0@, fields@[i].1.view())
                        } else {
                            (seq![], JsonView::Null)
                        },
                ),
            ),
        }
    }
}

/// The contents of an optional value.
pub open spec fn optional_json(value: Option<&Json>) -> Option<JsonView> {
    match value {
        Some(value) => Some(value@),
        None => None,
    }
}

/// The value of the first field from the `from`-th on whose key is `key`.
pub open spec fn field_from(
    fields: Seq<(Seq<char>, JsonView)>,
    key: Seq<char>,
    from: int,
) -> Option<JsonView>
    decreases fields.len() - from,
{
    if from >= fields.len() {
        None
    } else if fields[from].0 == key {
        Some(fields[from].1)
    } else {
        field_from(fields, key, from + 1)
    }
}

impl JsonView {
    /// The value under `key`, of an object that has one.
    pub open spec fn field(self, key: Seq<char>) -> Option<JsonView> {
        match self {
            JsonView::Object(fields) => field_from(fields, key, 0),
            _ => None,
        }
    }

    /// The text of a string.
    pub open spec fn text(self) -> Option<Seq<char>> {
        match self {
            JsonView::Text(text) => Some(text),
            _ => None,
        }
    }

    /// The keys of an object; no other value has any.
    pub open spec fn keys(self) -> Set<Seq<char>> {
        match self {
            JsonView::Object(fields) => Set::new(
                |key: Seq<char>|
                    exists|i: int| 0 <= i < fields.len() && (#[trigger] fields[i]).0 == key,
            ),
            _ => Set::empty(),
        }
    }

    /// The strings among the items of an array; no other value has any.
    pub open spec fn strings(self) -> Set<Seq<char>> {
        match self {
            JsonView::Array(items) => Set::new(
                |text: Seq<char>|
                    exists|i: int|
                        0 <= i < items.len() && (#[trigger] items[i]) == JsonView::Text(text),
            ),
            _ => Set::empty(),
        }
    }
}

/// What a text holds, read as JSON: the value, or the message of the parser.
pub uninterp spec fn json_parsed(text: Seq<char>) -> Result<JsonView, Seq<char>>;

/// The type of the values that the parser builds, `serde_json::Value`.
#[verifier::external_type_specification]
#[verifier::external_body]
pub struct ExValue(serde_json::Value);

/// What a value that the parser built holds.
pub uninterp spec fn value_contents(value: serde_json::Value) -> JsonView;

/// `serde_json::from_str`: the value that a text holds, or the message of the error. Which it
/// is, and what it holds, depends on the text alone.
#[verifier::external_body]
fn parse_value(text: &str) -> (parsed: Result<serde_json::Value, String>)
    ensures
        match parsed {
            Ok(value) => json_parsed(text@) == Ok::<JsonView, Seq<char>>(value_contents(value)),
            Err(message) => json_parsed(text@) == Err::<JsonView, Seq<char>>(message@),
        },
{
    serde_json::from_str::<serde_json::Value>(text).map_err(|error| error.to_string())
}

/// A value of the parser by its variant, with the values inside it as they are.
enum Parts {
    Null,
    Bool(bool),
    Number,
    Text(String),
    Array(Vec<serde_json::Value>),
    Object(Vec<(String, serde_json::Value)>),
}

/// The contents of a value that was taken apart.
spec fn parts_contents(parts: Parts) -> JsonView {
    match parts {
        Parts::Null => JsonView::Null,
        Parts::Bool(value) => JsonView::Bool(value),
        Parts::Number => JsonView::Number,
        Parts::Text(text) => JsonView::Text(text@),
        Parts::Array(items) => JsonView::Array(
            Seq::new(items@.len(), |i: int| value_contents(items@[i])),
        ),
        Parts::Object(fields) => JsonView::Object(
            Seq::new(fields@.len(), |i: int| (fields@[i].0@, value_contents(fields@[i].1))),
        ),
    }
}

/// The variants of `serde_json::Value`, told apart: an array holds its items, and an object its
/// keys and values, in the order in which `serde_json::Map` walks them.
#[verifier::external_body]
fn take_apart(value: serde_json::Value) -> (parts: Parts)
    ensures
        parts_contents(parts) == value_contents(value),
{
    match value {
        serde_json::Value::Null => Parts::Null,
        serde_json::Value::Bool(value) => Parts::Bool(value),
        serde_json::Value::Number(_) => Parts::Number,
        serde_json::Value::String(text) => Parts::Text(text),
        serde_json::Value::Array(items) => Parts::Array(items),
        serde_json::Value::Object(fields) => Parts::Object(fields.into_iter().collect()),
    }
}

/// The value that the parser built, as a [`Json`].
pub fn from_value(value: serde_json::Value) -> (json: Json)
    ensures
        json@ == value_contents(value),
    decreases value_contents(value),
{
    let ghost contents = value_contents(value);
    match take_apart(value) {
        Parts::Null => Json::Null,
        Parts::Bool(value) => Json::Bool(value),
        Parts::Number => Json::Number,
        Parts::Text(text) => Json::Text(text),
        Parts::Array(items) => {
            let mut converted: Vec<Json> = Vec::new();
            for item in it: items
                invariant
                    contents == value_contents(value),
                    contents == parts_contents(Parts::Array(items)),
                    it.seq() == items@,
                    converted@.len() == it.index(),
                    forall|i: int|
                        0 <= i < it.index() ==> (#[trigger] converted@[i])@ == value_contents(
                            items@[i],
                        ),
            {
                assert(contents->Array_0[it.index()] == value_contents(item));
                assert(decreases_to!(contents => contents->Array_0));
                converted.push(from_value(item));
            }
            let json = Json::Array(converted);
            proof {
                lemma_array_contents(converted);
                assert(json@->Array_0 =~= contents->Array_0);
            }
            json
        },
        Parts::Object(fields) => {
            let mut converted: Vec<(String, Json)> = Vec::new();
            for field in it: fields
                invariant
                    contents == value_contents(value),
                    contents == parts_contents(Parts::Object(fields)),
                    it.seq() == fields@,
                    converted@.len() == it.index(),
                    forall|i: int|
                        0 <= i < it.index() ==> (#[trigger] converted@[i]).0@ == fields@[i].0@
                            && converted@[i].1@ == value_contents(fields@[i].1),
            {
                assert(contents->Object_0[it.index()].1 == value_contents(field.1));
                assert(decreases_to!(contents => contents->Object_0));
                assert(decreases_to!(contents->Object_0 => contents->Object_0[it.index()]));
                converted.push((field.0, from_value(field.1)));
            }
            let json = Json::Object(converted);
            proof {
                lemma_object_contents(converted);
                assert(json@->Object_0 =~= contents->Object_0);
            }
            json
        },
    }
}

/// Reads a text as JSON.
pub fn parse_json(text: &str) -> (parsed: Result<Json, String>)
    ensures
        match parsed {
            Ok(value) => json_parsed(text@) == Ok::<JsonView, Seq<char>>(value@),
            Err(message) => json_parsed(text@) == Err::<JsonView, Seq<char>>(message@),
        },
{
    match parse_value(text) {
        Ok(value) => Ok(from_value(value)),
        Err(message) => Err(message),
    }
}

/// The contents of an array are the contents of its items.
pub proof fn lemma_array_contents(items: Vec<Json>)
    ensures
        Json::Array(items)@ is Array,
        Json::Array(items)@->Array_0.len() == items@.len(),
        forall|i: int|
            0 <= i < items@.len() ==> #[trigger] Json::Array(items)@->Array_0[i] == items@[i]@,
{
    reveal_with_fuel(Json::view, 2);
}

/// The contents of an object are its keys and the contents of its values.
pub proof fn lemma_object_contents(fields: Vec<(String, Json)>)
    ensures
        Json::Object(fields)@ is Object,
        Json::Object(fields)@->Object_0.len() == fields@.len(),
        forall|i: int|
            0 <= i < fields@.len() ==> #[trigger] Json::Object(fields)@->Object_0[i] == (
                fields@[i].0@,
                fields@[i].1@,
            ),
{
    reveal_with_fuel(Json::view, 2);
}

impl Json {
    /// The value under `key`, of an object that has one.
    pub fn field(&self, key: &str) -> (value: Option<&Json>)
        ensures
            optional_json(value) == self@.field(key@),
    {
        match self {
            Json::Object(fields) => {
                proof {
                    lemma_object_contents(*fields);
                }
                let ghost contents = self@->Object_0;
                for i in 0..fields.len()
                    invariant
                        contents.len() == fields@.len(),
                        forall|j: int|
                            0 <= j < fields@.len() ==> #[trigger] contents[j] == (
                                fields@[j].0@,
                                fields@[j].1@,
                            ),
                        self@ == JsonView::Object(contents),
                        self@.field(key@) == field_from(contents, key@, i as int),
                {
                    assert(contents[i as int] == (fields@[i as int].0@, fields@[i as int].1@));
                    if same_text(fields[i].0.as_str(), key) {
                        return Some(&fields[i].1);
                    }
                }
                None
            },
            _ => None,
        }
    }

    /// The text of a string.
    pub fn as_str(&self) -> (text: Option<&str>)
        ensures
            match text {
                Some(text) => self@ == JsonView::Text(text@),
                None => self@.text() is None,
            },
    {
        match self {
            Json::Text(text) => Some(text.as_str()),
            _ => None,
        }
    }
}

} // verus!
