//! JSON values as plain data, and the reading and writing of JSON text.

use crate::text;
use serde_json::Value;
use vstd::prelude::*;
use vstd::string::*;

verus! {

/// A JSON number. One that is no integer, or none that 64 bits hold, is kept as its text.
#[derive(Debug)]
pub enum JsonNumber {
    Unsigned(u64),
    Negative(i64),
    Float(String),
}

/// A JSON value.
#[derive(Debug)]
pub enum Json {
    Null,
    Bool(bool),
    Number(JsonNumber),
    Text(String),
    Array(Vec<Json>),
    Object(Vec<(String, Json)>),
}

/// What a [`Json`] stands for. The fields of an object have the order in which they are written.
pub enum JsonView {
    Null,
    Bool(bool),
    Unsigned(u64),
    Negative(i64),
    Float(Seq<char>),
    Text(Seq<char>),
    Array(Seq<JsonView>),
    Object(Seq<(Seq<char>, JsonView)>),
}

impl View for Json {
    type V = JsonView;

    open spec fn view(&self) -> JsonView {
        json_view(*self)
    }
}

pub open spec fn json_view(value: Json) -> JsonView
    decreases value,
{
    match value {
        Json::Null => JsonView::Null,
        Json::Bool(b) => JsonView::Bool(b),
        Json::Number(JsonNumber::Unsigned(n)) => JsonView::Unsigned(n),
        Json::Number(JsonNumber::Negative(n)) => JsonView::Negative(n),
        Json::Number(JsonNumber::Float(text)) => JsonView::Float(text@),
        Json::Text(text) => JsonView::Text(text@),
        Json::Array(items) => JsonView::Array(
            Seq::new(
                items@.len(),
                |i: int|
                    if 0 <= i < items@.len() {
                        json_view(items@[i])
                    } else {
                        JsonView::Null
                    },
            ),
        ),
        Json::Object(fields) => JsonView::Object(
            Seq::new(
                fields@.len(),
                |i: int|
                    if 0 <= i < fields@.len() {
                        (fields@[i].0@, json_view(fields@[i].1))
                    } else {
                        (Seq::empty(), JsonView::Null)
                    },
            ),
        ),
    }
}

/// The position, from `from` on, of the first field that has the given name.
pub open spec fn field_position_from(
    fields: Seq<(Seq<char>, JsonView)>,
    name: Seq<char>,
    from: int,
) -> Option<int>
    decreases fields.len() - from,
{
    if from < 0 || from >= fields.len() {
        None
    } else if fields[from].0 == name {
        Some(from)
    } else {
        field_position_from(fields, name, from + 1)
    }
}

/// The position of the first field that has the given name.
pub open spec fn field_position(fields: Seq<(Seq<char>, JsonView)>, name: Seq<char>) -> Option<
    int,
> {
    field_position_from(fields, name, 0)
}

/// The value of the first field that has the given name.
pub open spec fn field(fields: Seq<(Seq<char>, JsonView)>, name: Seq<char>) -> Option<JsonView> {
    match field_position(fields, name) {
        Some(i) => Some(fields[i].1),
        None => None,
    }
}

/// The position of a field is one at which the name stands.
pub proof fn lemma_field_position(fields: Seq<(Seq<char>, JsonView)>, name: Seq<char>)
    ensures
        field_position(fields, name) matches Some(i) ==> 0 <= i < fields.len() && fields[i].0
            == name,
{
    lemma_field_position_from(fields, name, 0);
}

proof fn lemma_field_position_from(fields: Seq<(Seq<char>, JsonView)>, name: Seq<char>, from: int)
    ensures
        field_position_from(fields, name, from) matches Some(i) ==> 0 <= i < fields.len()
            && fields[i].0 == name,
    decreases fields.len() - from,
{
    if 0 <= from < fields.len() && fields[from].0 != name {
        lemma_field_position_from(fields, name, from + 1);
    }
}

/// The views of the fields of an object.
pub open spec fn field_views(fields: Seq<(String, Json)>) -> Seq<(Seq<char>, JsonView)> {
    Seq::new(fields.len(), |i: int| (fields[i].0@, fields[i].1@))
}

/// The views of the items of an array.
pub open spec fn item_views(items: Seq<Json>) -> Seq<JsonView> {
    Seq::new(items.len(), |i: int| items[i]@)
}

/// The view of an array is made of the views of its items.
pub proof fn lemma_array_view(items: Vec<Json>)
    ensures
        Json::Array(items)@ == JsonView::Array(item_views(items@)),
{
    assert(Json::Array(items)@->Array_0 =~= item_views(items@));
}

/// The view of an object is made of the views of its fields.
pub proof fn lemma_object_view(fields: Vec<(String, Json)>)
    ensures
        Json::Object(fields)@ == JsonView::Object(field_views(fields@)),
{
    assert(Json::Object(fields)@->Object_0 =~= field_views(fields@));
}

impl JsonView {
    /// The field of that name, where the value is an object that has one.
    pub open spec fn get(self, name: Seq<char>) -> Option<JsonView> {
        match self {
            JsonView::Object(fields) => field(fields, name),
            _ => None,
        }
    }

    /// The text, where the value is one.
    pub open spec fn as_text(self) -> Option<Seq<char>> {
        match self {
            JsonView::Text(text) => Some(text),
            _ => None,
        }
    }

    /// The truth value, where the value is one.
    pub open spec fn as_bool(self) -> Option<bool> {
        match self {
            JsonView::Bool(b) => Some(b),
            _ => None,
        }
    }

    /// The integer, where the value is one that an unsigned number of 64 bits holds.
    pub open spec fn as_unsigned(self) -> Option<u64> {
        match self {
            JsonView::Unsigned(n) => Some(n),
            _ => None,
        }
    }

    /// The integer, where the value is one that a signed number of 64 bits holds.
    pub open spec fn as_signed(self) -> Option<i64> {
        match self {
            JsonView::Unsigned(n) => if n <= i64::MAX {
                Some(n as i64)
            } else {
                None
            },
            JsonView::Negative(n) => Some(n),
            _ => None,
        }
    }

    /// The field of that name as an unsigned integer, where there is one and it is such a number.
    pub open spec fn unsigned_field(self, name: Seq<char>) -> Option<u64> {
        match self.get(name) {
            Some(value) => value.as_unsigned(),
            None => None,
        }
    }

    /// The field of that name as a signed integer, where there is one and it is such a number.
    pub open spec fn signed_field(self, name: Seq<char>) -> Option<i64> {
        match self.get(name) {
            Some(value) => value.as_signed(),
            None => None,
        }
    }

    /// The text of the field of that name, where there is one and it is a text.
    pub open spec fn text_field(self, name: Seq<char>) -> Option<Seq<char>> {
        match self.get(name) {
            Some(value) => value.as_text(),
            None => None,
        }
    }
}

/// Every number in the value that is kept as its text is a number.
pub open spec fn writable(value: JsonView) -> bool
    decreases value,
{
    match value {
        JsonView::Float(_) => json_text(value) is Some,
        JsonView::Array(items) => forall|i: int| 0 <= i < items.len() ==> writable(items[i]),
        JsonView::Object(fields) => forall|i: int|
            0 <= i < fields.len() ==> writable((#[trigger] fields[i]).1),
        _ => true,
    }
}

/// The view of a value that may be missing.
pub open spec fn optional_view(value: Option<Json>) -> Option<JsonView> {
    match value {
        Some(value) => Some(value@),
        None => None,
    }
}

/// The view of a borrowed value that may be missing.
pub open spec fn reference_view(value: Option<&Json>) -> Option<JsonView> {
    match value {
        Some(value) => Some(value@),
        None => None,
    }
}

/// The position of the first field that has the given name.
pub fn position_of_field(fields: &Vec<(String, Json)>, name: &str) -> (position: Option<usize>)
    ensures
        match position {
            Some(i) => i < fields@.len() && field_position(field_views(fields@), name@) == Some(
                i as int,
            ),
            None => field_position(field_views(fields@), name@) is None,
        },
{
    let mut i: usize = 0;
    while i < fields.len()
        invariant
            i <= fields.len(),
            field_position(field_views(fields@), name@) == field_position_from(
                field_views(fields@),
                name@,
                i as int,
            ),
        decreases fields.len() - i,
    {
        if text::same_text(fields[i].0.as_str(), name) {
            return Some(i);
        }
        i = i + 1;
    }
    None
}

impl Json {
    /// The first field of that name, where the value is an object that has one.
    pub fn get(&self, name: &str) -> (value: Option<&Json>)
        ensures
            reference_view(value) == self@.get(name@),
    {
        match self {
            Json::Object(fields) => {
                proof {
                    lemma_object_view(*fields);
                }
                match position_of_field(fields, name) {
                    Some(i) => Some(&fields[i].1),
                    None => None,
                }
            },
            _ => None,
        }
    }

    /// The text, where the value is one.
    pub fn as_text(&self) -> (text: Option<&str>)
        ensures
            text::str_view(text) == self@.as_text(),
    {
        match self {
            Json::Text(text) => Some(text.as_str()),
            _ => None,
        }
    }

    /// The truth value, where the value is one.
    pub fn as_bool(&self) -> (b: Option<bool>)
        ensures
            b == self@.as_bool(),
    {
        match self {
            Json::Bool(b) => Some(*b),
            _ => None,
        }
    }

    /// The integer, where the value is one that an unsigned number of 64 bits holds.
    pub fn as_unsigned(&self) -> (n: Option<u64>)
        ensures
            n == self@.as_unsigned(),
    {
        match self {
            Json::Number(JsonNumber::Unsigned(n)) => Some(*n),
            _ => None,
        }
    }

    /// The integer, where the value is one that a signed number of 64 bits holds.
    pub fn as_signed(&self) -> (n: Option<i64>)
        ensures
            n == self@.as_signed(),
    {
        match self {
            Json::Number(JsonNumber::Unsigned(n)) => if *n <= i64::MAX as u64 {
                Some(*n as i64)
            } else {
                None
            },
            Json::Number(JsonNumber::Negative(n)) => Some(*n),
            _ => None,
        }
    }

    /// The field of that name as an unsigned integer, where there is one and it is such a number.
    pub fn unsigned_field(&self, name: &str) -> (n: Option<u64>)
        ensures
            n == self@.unsigned_field(name@),
    {
        match self.get(name) {
            Some(value) => value.as_unsigned(),
            None => None,
        }
    }

    /// The field of that name as a signed integer, where there is one and it is such a number.
    pub fn signed_field(&self, name: &str) -> (n: Option<i64>)
        ensures
            n == self@.signed_field(name@),
    {
        match self.get(name) {
            Some(value) => value.as_signed(),
            None => None,
        }
    }

    /// The text of the field of that name, where there is one and it is a text.
    pub fn text_field(&self, name: &str) -> (text: Option<&str>)
        ensures
            text::str_view(text) == self@.text_field(name@),
    {
        match self.get(name) {
            Some(value) => value.as_text(),
            None => None,
        }
    }
}

/// A value of the crate `serde_json`.
#[verifier::external_type_specification]
#[verifier::external_body]
pub struct ExValue(serde_json::Value);

/// A `serde_json::Value` as a [`Json`], part by part. It serves the readers of this crate, whose
/// contracts say what comes out.
#[verifier::external_body]
pub(crate) fn json_from_value(value: Value) -> (json: Json) {
    match value {
        Value::Null => Json::Null,
        Value::Bool(b) => Json::Bool(b),
        Value::Number(n) => Json::Number(n.as_u64().map(JsonNumber::Unsigned)
            .or_else(|| n.as_i64().map(JsonNumber::Negative))
            .unwrap_or_else(|| JsonNumber::Float(n.to_string()))),
        Value::String(s) => Json::Text(s),
        Value::Array(a) => Json::Array(a.into_iter().map(json_from_value).collect()),
        Value::Object(o) =>
            Json::Object(o.into_iter().map(|(k, v)| (k, json_from_value(v))).collect()),
    }
}

/// A [`Json`] as a `serde_json::Value`, part by part; `None` where a number that is kept as its
/// text is no number. It serves the writer of this crate, whose contract says what comes out.
#[verifier::external_body]
fn json_to_value(json: &Json) -> (value: Option<Value>) {
    Some(match json {
        Json::Null => Value::Null,
        Json::Bool(b) => Value::from(*b),
        Json::Number(JsonNumber::Unsigned(n)) => Value::from(*n),
        Json::Number(JsonNumber::Negative(n)) => Value::from(*n),
        Json::Number(JsonNumber::Float(t)) => Value::Number(serde_json::from_str(t).ok()?),
        Json::Text(t) => Value::from(t.as_str()),
        Json::Array(a) => a.iter().map(json_to_value).collect::<Option<Value>>()?,
        Json::Object(o) => o.iter().map(|(k, v)| Some((k.clone(), json_to_value(v)?)))
            .collect::<Option<Value>>()?,
    })
}

/// The value that a JSON document holds, or `None` where the bytes are none.
pub uninterp spec fn json_document(data: Seq<u8>) -> Option<JsonView>;

/// The JSON text of a value, without white space; `None` where a number that is kept as its text
/// is no number.
pub uninterp spec fn json_text(value: JsonView) -> Option<Seq<char>>;

/// `serde_json::from_slice` to a `serde_json::Value`: the value that the bytes hold. A value that
/// was read can be written again.
#[verifier::external_body]
pub(crate) fn read_json(data: &[u8]) -> (value: Option<Json>)
    ensures
        optional_view(value) == json_document(data@),
        value matches Some(read) ==> writable(read@),
{
    serde_json::from_slice::<serde_json::Value>(data).ok().map(json_from_value)
}

/// The text of a `serde_json::Value`: the value as a JSON document without white space. There is
/// one exactly where every number that is kept as its text is a number.
#[verifier::external_body]
pub(crate) fn write_json(value: &Json) -> (written: Option<String>)
    ensures
        text::text_view(written) == json_text(value@),
        written is Some <==> writable(value@),
{
    json_to_value(value).map(|v| v.to_string())
}

/// A text as a JSON string, with its quotes.
pub open spec fn json_string(s: Seq<char>) -> Seq<char> {
    json_text(JsonView::Text(s)).unwrap()
}

/// A text as a JSON string, with its quotes.
pub fn quoted(content: &str) -> (written: String)
    ensures
        written@ == json_string(content@),
{
    write_json(&Json::Text(content.to_owned())).unwrap()
}

// ---------------------------------------------------------------------------------------------
// Laws
// ---------------------------------------------------------------------------------------------

/// A field is found wherever it stands: the first of its name, whatever stands before and behind it.
/// Where no field has the name, none is found.
pub proof fn a_field_is_found_wherever_it_stands(
    before: Seq<(Seq<char>, JsonView)>,
    name: Seq<char>,
    value: JsonView,
    after: Seq<(Seq<char>, JsonView)>,
)
    requires
        forall|i: int| 0 <= i < before.len() ==> (#[trigger] before[i]).0 != name,
    ensures
        JsonView::Object(before.push((name, value)) + after).get(name) == Some(value),
        JsonView::Object(before).get(name) is None,
{
    let fields = before.push((name, value)) + after;
    assert forall|i: int| 0 <= i < before.len() implies (#[trigger] fields[i]).0 != name by {
        assert(fields[i] == before[i]);
    }
    assert(fields[before.len() as int] == (name, value));
    lemma_field_found(fields, name, 0, before.len() as int);
    lemma_field_found(before, name, 0, before.len() as int);
}

proof fn lemma_field_found(
    fields: Seq<(Seq<char>, JsonView)>,
    name: Seq<char>,
    from: int,
    at: int,
)
    requires
        0 <= from <= at <= fields.len(),
        forall|i: int| from <= i < at ==> (#[trigger] fields[i]).0 != name,
        at < fields.len() ==> fields[at].0 == name,
    ensures
        field_position_from(fields, name, from) == if at < fields.len() {
            Some(at)
        } else {
            None
        },
    decreases at - from,
{
    if from < at {
        assert(fields[from].0 != name);
        lemma_field_found(fields, name, from + 1, at);
    }
}

/// What a value is taken for: a text only as a text, a truth value only as one, and an integer as
/// the number that it is, wherever that fits. Nothing but an object has fields.
pub proof fn values_are_taken_for_what_they_are(value: JsonView, name: Seq<char>)
    ensures
        value.as_text() is Some <==> value is Text,
        value matches JsonView::Text(content) ==> value.as_text() == Some(content),
        value.as_bool() is Some <==> value is Bool,
        value matches JsonView::Bool(b) ==> value.as_bool() == Some(b),
        value.as_unsigned() is Some <==> value is Unsigned,
        value matches JsonView::Unsigned(n) ==> value.as_unsigned() == Some(n),
        value matches JsonView::Unsigned(n) ==> n <= 9_223_372_036_854_775_807 ==> (
        value.as_signed() matches Some(m) && m == n),
        value matches JsonView::Unsigned(n) ==> n > 9_223_372_036_854_775_807
            ==> value.as_signed() is None,
        value matches JsonView::Negative(n) ==> value.as_signed() == Some(n),
        value.as_signed() is Some ==> value is Unsigned || value is Negative,
        !(value is Object) ==> value.get(name) is None,
{
}

} // verus!
