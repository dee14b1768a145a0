//! A JSON value as plain data, and the parser that produces one.
//!
//! The parsing itself is `serde_json`'s.  This module holds the value in a
//! type of its own, so that the code that reads a value is verified against
//! what the value holds.

use crate::text::str_equal;
use vstd::prelude::*;

verus! {

/// A JSON value.
///
/// Numbers come in two variants: `Int` holds every number that is an integer
/// in the range of `i64`, and `Number` holds any other number (an integer
/// beyond that range, or one written with a fraction or an exponent) as its
/// decimal text.  The members of an object are kept in a list; a lookup takes
/// the first member with the key asked for.
#[derive(Debug, PartialEq, Eq)]
pub enum Json {
    Null,
    Bool(bool),
    Int(i64),
    Number(String),
    Str(String),
    Array(Vec<Json>),
    Object(Vec<(String, Json)>),
}

/// The mathematical value of a [`Json`]: strings are sequences of characters,
/// arrays and objects are sequences.
pub enum JsonView {
    Null,
    Bool(bool),
    Int(i64),
    Number(Seq<char>),
    Str(Seq<char>),
    Array(Seq<JsonView>),
    Object(Seq<(Seq<char>, JsonView)>),
}

/// The value that a [`Json`] stands for.
pub open spec fn json_view(json: Json) -> JsonView
    decreases json,
{
    match json {
        Json::Null => JsonView::Null,
        Json::Bool(b) => JsonView::Bool(b),
        Json::Int(n) => JsonView::Int(n),
        Json::Number(text) => JsonView::Number(text@),
        Json::Str(text) => JsonView::Str(text@),
        Json::Array(items) => JsonView::Array(
            Seq::new(
                items@.len(),
                |i: int|
                    if 0 <= i < items@.len() {
                        json_view(items@[i])
                    } else {
                        JsonView::Null
                    },
            ),
        ),
        Json::Object(members) => JsonView::Object(
            Seq::new(
                members@.len(),
                |i: int|
                    if 0 <= i < members@.len() {
                        (members@[i].0@, json_view(members@[i].1))
                    } else {
                        (Seq::empty(), JsonView::Null)
                    },
            ),
        ),
    }
}

impl View for Json {
    type V = JsonView;

    open spec fn view(&self) -> JsonView {
        json_view(*self)
    }
}

/// The views of the items of an array.
pub open spec fn items_view(items: Seq<Json>) -> Seq<JsonView> {
    Seq::new(items.len(), |i: int| items[i]@)
}

/// The views of the members of an object.
pub open spec fn members_view(members: Seq<(String, Json)>) -> Seq<(Seq<char>, JsonView)> {
    Seq::new(members.len(), |i: int| (members[i].0@, members[i].1@))
}

/// The value of the first member with the key `key`, if there is one.
pub open spec fn spec_member(members: Seq<(Seq<char>, JsonView)>, key: Seq<char>) -> Option<
    JsonView,
>
    decreases members.len(),
{
    if members.len() == 0 {
        None
    } else if members[0].0 == key {
        Some(members[0].1)
    } else {
        spec_member(members.drop_first(), key)
    }
}

impl JsonView {
    /// The integer that the value is, if it is one in the range of `i64`.
    pub open spec fn as_i64(self) -> Option<i64> {
        match self {
            JsonView::Int(n) => Some(n),
            _ => None,
        }
    }

    /// The text of the value, if it is a string.
    pub open spec fn as_str(self) -> Option<Seq<char>> {
        match self {
            JsonView::Str(text) => Some(text),
            _ => None,
        }
    }

    /// The items of the value, if it is an array.
    pub open spec fn as_array(self) -> Option<Seq<JsonView>> {
        match self {
            JsonView::Array(items) => Some(items),
            _ => None,
        }
    }

    /// The value of the member `key`, if the value is an object that has
    /// such a member.
    pub open spec fn get(self, key: Seq<char>) -> Option<JsonView> {
        match self {
            JsonView::Object(members) => spec_member(members, key),
            _ => None,
        }
    }
}

/// An array's view is made of the views of its items.
pub proof fn lemma_array_view(items: Vec<Json>)
    ensures
        Json::Array(items)@ == JsonView::Array(items_view(items@)),
{
    let inner = Json::Array(items)@->Array_0;
    assert(inner.len() == items@.len());
    assert forall|i: int| 0 <= i < inner.len() implies inner[i] == items_view(items@)[i] by {}
    assert(inner =~= items_view(items@));
}

/// An object's view is made of the views of its members.
pub proof fn lemma_object_view(members: Vec<(String, Json)>)
    ensures
        Json::Object(members)@ == JsonView::Object(members_view(members@)),
{
    let inner = Json::Object(members)@->Object_0;
    assert(inner.len() == members@.len());
    assert forall|i: int| 0 <= i < inner.len() implies inner[i] == members_view(members@)[i] by {}
    assert(inner =~= members_view(members@));
}

impl Json {
    /// The integer that the value is, if it is one in the range of `i64`.
    pub fn as_i64(&self) -> (r: Option<i64>)
        ensures
            r == self@.as_i64(),
    {
        match self {
            Json::Int(n) => Some(*n),
            _ => None,
        }
    }

    /// The text of the value, if it is a string.
    pub fn as_str(&self) -> (r: Option<&str>)
        ensures
            r is Some <==> self@.as_str() is Some,
            r matches Some(text) ==> self@.as_str() == Some(text@),
    {
        match self {
            Json::Str(text) => Some(text.as_str()),
            _ => None,
        }
    }

    /// The items of the value, if it is an array.
    pub fn as_array(&self) -> (r: Option<&Vec<Json>>)
        ensures
            r is Some <==> self@.as_array() is Some,
            r matches Some(items) ==> self@.as_array() == Some(items_view(items@)),
    {
        match self {
            Json::Array(items) => {
                proof {
                    lemma_array_view(*items);
                }
                Some(items)
            },
            _ => None,
        }
    }

    /// The value of the member `key`, if the value is an object that has
    /// such a member; of several members with that key, the first.
    pub fn get(&self, key: &str) -> (r: Option<&Json>)
        ensures
            r is Some <==> self@.get(key@) is Some,
            r matches Some(value) ==> self@.get(key@) == Some(value@),
    {
        match self {
            Json::Object(members) => {
                proof {
                    lemma_object_view(*members);
                }
                let ghost all = members_view(members@);
                let mut i: usize = 0;
                proof {
                    assert(all.skip(0) =~= all);
                }
                while i < members.len()
                    invariant
                        i <= members.len(),
                        all == members_view(members@),
                        self@ == JsonView::Object(all),
                        spec_member(all, key@) == spec_member(all.skip(i as int), key@),
                    decreases members.len() - i,
                {
                    proof {
                        assert(all.skip(i as int).drop_first() =~= all.skip(i as int + 1));
                        assert(all.skip(i as int)[0] == all[i as int]);
                    }
                    if str_equal(members[i].0.as_str(), key) {
                        return Some(&members[i].1);
                    }
                    i += 1;
                }
                None
            },
            _ => None,
        }
    }
}

/// The class of a failure to parse, as `serde_json` reports it.
#[derive(Clone, Copy, Debug, PartialEq, Eq, Structural, Hash)]
pub enum ErrorCategory {
    /// A failure to read or write bytes.
    Io,
    /// The text is not JSON.
    Syntax,
    /// The text is JSON, but of a shape that was not asked for.
    Data,
    /// The text ends before the value does.
    Eof,
}

/// Why a text could not be parsed as JSON, and where in the text: the line
/// and the column are counted from 1.
#[derive(Clone, Debug, PartialEq, Eq)]
pub struct JsonError {
    pub category: ErrorCategory,
    pub line: usize,
    pub column: usize,
    pub message: String,
}

/// The mathematical value of a [`JsonError`].
pub struct JsonErrorView {
    pub category: ErrorCategory,
    pub line: usize,
    pub column: usize,
    pub message: Seq<char>,
}

impl View for JsonError {
    type V = JsonErrorView;

    open spec fn view(&self) -> JsonErrorView {
        JsonErrorView {
            category: self.category,
            line: self.line,
            column: self.column,
            message: self.message@,
        }
    }
}

/// The view of the outcome of a parse.
pub open spec fn outcome_view(outcome: Result<Json, JsonError>) -> Result<JsonView, JsonErrorView> {
    match outcome {
        Ok(value) => Ok(value@),
        Err(error) => Err(error@),
    }
}

/// `serde_json::Value`, carried from the parser to [`json_from_value`]
/// without a look inside.
#[verifier::external_type_specification]
#[verifier::external_body]
pub struct ExValue(serde_json::Value);

/// `serde_json::Error`, carried from the parser to the functions that read
/// its report, without a look inside.
#[verifier::external_type_specification]
#[verifier::external_body]
pub struct ExError(serde_json::Error);

/// What `serde_json::from_str::<serde_json::Value>` makes of a text: the
/// value that it parses to, or the error that `serde_json` reports.
pub uninterp spec fn json_text_value(text: Seq<char>) -> Result<JsonView, JsonErrorView>;

/// What a `serde_json::Value` holds.
pub uninterp spec fn value_view(value: serde_json::Value) -> JsonView;

/// What a `serde_json::Error` reports: its category, line, column and
/// message.
pub uninterp spec fn error_view(error: serde_json::Error) -> JsonErrorView;

/// The view of what `serde_json` hands back from a parse.
pub open spec fn parsed_view(outcome: Result<serde_json::Value, serde_json::Error>) -> Result<
    JsonView,
    JsonErrorView,
> {
    match outcome {
        Ok(value) => Ok(value_view(value)),
        Err(error) => Err(error_view(error)),
    }
}

/// Calls `serde_json::from_str` for a `serde_json::Value`.  Trusted: the
/// outcome is the one that [`json_text_value`] names for this text.
#[verifier::external_body]
fn value_from_str(text: &str) -> (r: Result<serde_json::Value, serde_json::Error>)
    ensures
        parsed_view(r) == json_text_value(text@),
{
    serde_json::from_str::<serde_json::Value>(text)
}

/// `serde_json::Number`, carried from a value to the functions that read
/// it, without a look inside.
#[verifier::external_type_specification]
#[verifier::external_body]
pub struct ExNumber(serde_json::Number);

/// What `serde_json::Number::as_i64` gives for a number: the integer that
/// the number is, if it is one in the range of `i64`.
pub uninterp spec fn number_int(number: serde_json::Number) -> Option<i64>;

/// The text that `serde_json` prints for a number.
pub uninterp spec fn number_text(number: serde_json::Number) -> Seq<char>;

/// `serde_json::Number::as_i64`.  Trusted: the result is the one that
/// [`number_int`] names.
pub assume_specification[ serde_json::Number::as_i64 ](number: &serde_json::Number) -> (r: Option<
    i64,
>)
    ensures
        r == number_int(*number),
;

/// Prints a `serde_json::Number` through its `Display`.  Trusted: the
/// result is the text that [`number_text`] names.
#[verifier::external_body]
fn number_to_text(number: &serde_json::Number) -> (text: String)
    ensures
        text@ == number_text(*number),
{
    number.to_string()
}

/// The outermost level of a `serde_json::Value`: its variant, with what the
/// variant holds as `serde_json` has it.  The members of an object stand in
/// the order in which `serde_json` keeps them.
enum Level {
    Null,
    Bool(bool),
    Number(serde_json::Number),
    Str(String),
    Array(Vec<serde_json::Value>),
    Object(Vec<(String, serde_json::Value)>),
}

/// The value that a number stands for: `Int` where it is an integer in the
/// range of `i64`, and `Number` with its text where not.
pub open spec fn spec_number(number: serde_json::Number) -> JsonView {
    match number_int(number) {
        Some(n) => JsonView::Int(n),
        None => JsonView::Number(number_text(number)),
    }
}

/// The views of the items of an array of `serde_json`.
pub open spec fn values_view(items: Seq<serde_json::Value>) -> Seq<JsonView> {
    Seq::new(items.len(), |i: int| value_view(items[i]))
}

/// The views of the members of an object of `serde_json`.
pub open spec fn entries_view(members: Seq<(String, serde_json::Value)>) -> Seq<
    (Seq<char>, JsonView),
> {
    Seq::new(members.len(), |i: int| (members[i].0@, value_view(members[i].1)))
}

/// The value that a level stands for, given what the values below it hold.
spec fn level_view(level: Level) -> JsonView {
    match level {
        Level::Null => JsonView::Null,
        Level::Bool(b) => JsonView::Bool(b),
        Level::Number(number) => spec_number(number),
        Level::Str(text) => JsonView::Str(text@),
        Level::Array(items) => JsonView::Array(values_view(items@)),
        Level::Object(members) => JsonView::Object(entries_view(members@)),
    }
}

/// Takes a `serde_json::Value` apart by its variant, moving out what the
/// variant holds.  Trusted: a value holds what its variant holds.
#[verifier::external_body]
fn peel(value: serde_json::Value) -> (level: Level)
    ensures
        level_view(level) == value_view(value),
{
    match value {
        serde_json::Value::Null => Level::Null,
        serde_json::Value::Bool(b) => Level::Bool(b),
        serde_json::Value::Number(number) => Level::Number(number),
        serde_json::Value::String(text) => Level::Str(text),
        serde_json::Value::Array(items) => Level::Array(items),
        serde_json::Value::Object(members) => Level::Object(members.into_iter().collect()),
    }
}

/// Moves the contents of a `serde_json::Value` into a [`Json`].
fn json_from_value(value: serde_json::Value) -> (r: Json)
    ensures
        r@ == value_view(value),
    decreases value_view(value),
{
    let ghost whole = value_view(value);
    match peel(value) {
        Level::Null => Json::Null,
        Level::Bool(b) => Json::Bool(b),
        Level::Number(number) => match number.as_i64() {
            Some(n) => Json::Int(n),
            None => Json::Number(number_to_text(&number)),
        },
        Level::Str(text) => Json::Str(text),
        Level::Array(values) => {
            let ghost all = values@;
            let mut items: Vec<Json> = Vec::new();
            for child in it: values.into_iter()
                invariant
                    it.seq() == all,
                    whole == JsonView::Array(values_view(all)),
                    whole == value_view(value),
                    items@.len() == it.index(),
                    forall|j: int| 0 <= j < items@.len() ==> (#[trigger] items@[j])@ == value_view(
                        all[j],
                    ),
            {
                proof {
                    let below = whole->Array_0;
                    assert(below[it.index() as int] == value_view(child));
                    assert(decreases_to!(whole => below));
                    assert(decreases_to!(below => below[it.index() as int]));
                }
                items.push(json_from_value(child));
            }
            proof {
                lemma_array_view(items);
                assert(items_view(items@) =~= values_view(all));
            }
            Json::Array(items)
        },
        Level::Object(entries) => {
            let ghost all = entries@;
            let mut members: Vec<(String, Json)> = Vec::new();
            for entry in it: entries.into_iter()
                invariant
                    it.seq() == all,
                    whole == JsonView::Object(entries_view(all)),
                    whole == value_view(value),
                    members@.len() == it.index(),
                    forall|j: int|
                        0 <= j < members@.len() ==> (#[trigger] members@[j]).0@ == all[j].0@
                            && members@[j].1@ == value_view(all[j].1),
            {
                proof {
                    let below = whole->Object_0;
                    let member = below[it.index() as int];
                    assert(member.1 == value_view(entry.1));
                    assert(decreases_to!(whole => below));
                    assert(decreases_to!(below => below[it.index() as int]));
                    assert(decreases_to!(member => member.1));
                }
                let (key, child) = entry;
                members.push((key, json_from_value(child)));
            }
            proof {
                lemma_object_view(members);
                assert(members_view(members@) =~= entries_view(all));
            }
            Json::Object(members)
        },
    }
}

/// `serde_json::Error::line`.  Trusted: it is the line that the error
/// reports.
pub assume_specification[ serde_json::Error::line ](error: &serde_json::Error) -> (line: usize)
    ensures
        line == error_view(*error).line,
;

/// `serde_json::Error::column`.  Trusted: it is the column that the error
/// reports.
pub assume_specification[ serde_json::Error::column ](error: &serde_json::Error) -> (column: usize)
    ensures
        column == error_view(*error).column,
;

/// Calls `serde_json::Error::classify` and names the category in this
/// library's own enum.  Trusted: it is the category that the error reports.
#[verifier::external_body]
fn error_category(error: &serde_json::Error) -> (category: ErrorCategory)
    ensures
        category == error_view(*error).category,
{
    match error.classify() {
        serde_json::error::Category::Io => ErrorCategory::Io,
        serde_json::error::Category::Syntax => ErrorCategory::Syntax,
        serde_json::error::Category::Data => ErrorCategory::Data,
        serde_json::error::Category::Eof => ErrorCategory::Eof,
    }
}

/// Prints a `serde_json::Error` through its `Display`.  Trusted: it is the
/// message that the error reports.
#[verifier::external_body]
fn error_message(error: &serde_json::Error) -> (message: String)
    ensures
        message@ == error_view(*error).message,
{
    error.to_string()
}

/// Parses a text as one JSON value.
///
/// The outcome is the one that `serde_json` gives for the text: its value,
/// or its report of why the text is not a JSON value.
pub fn parse(text: &str) -> (r: Result<Json, JsonError>)
    ensures
        outcome_view(r) == json_text_value(text@),
{
    match value_from_str(text) {
        Ok(value) => Ok(json_from_value(value)),
        Err(error) => Err(
            JsonError {
                category: error_category(&error),
                line: error.line(),
                column: error.column(),
                message: error_message(&error),
            },
        ),
    }
}

} // verus!
