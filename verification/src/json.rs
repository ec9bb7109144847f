//! JSON documents.
//!
//! Reading and writing JSON text is the work of `serde_json`: a document is
//! held as a `serde_json::Value`. Verus cannot look inside such a value, so
//! the contracts of this crate speak of its [`JsonModel`] instead, and every
//! call into `serde_json` is stated here over that model. None of those
//! statements is proved: each one says what it takes from `serde_json`.

use vstd::prelude::*;

verus! {

/// The kind of a JSON value.
#[derive(Debug, Clone, Copy, PartialEq, Eq)]
pub enum JsonKind {
    Null,
    Bool,
    Number,
    String,
    Array,
    Object,
}

/// A JSON number.
pub enum JsonNumber {
    /// An integer from zero up to `u64::MAX`.
    Unsigned(u64),
    /// An integer below zero, down to `i64::MIN`.
    Negative(i64),
    /// Any other number, told apart by the bits of its double.
    Real(u64),
}

/// A JSON document as a mathematical value.
///
/// An object is a map from member names to members: a name occurs once, and
/// the order in which the members were written is no part of the document.
pub enum JsonModel {
    Null,
    Bool(bool),
    Number(JsonNumber),
    String(Seq<char>),
    Array(Seq<JsonModel>),
    Object(Map<Seq<char>, JsonModel>),
}

impl JsonModel {
    /// The kind of this document.
    pub open spec fn kind(self) -> JsonKind {
        match self {
            JsonModel::Null => JsonKind::Null,
            JsonModel::Bool(_) => JsonKind::Bool,
            JsonModel::Number(_) => JsonKind::Number,
            JsonModel::String(_) => JsonKind::String,
            JsonModel::Array(_) => JsonKind::Array,
            JsonModel::Object(_) => JsonKind::Object,
        }
    }

    /// The member called `name`, where this document is an object that has
    /// one.
    pub open spec fn member(self, name: Seq<char>) -> Option<JsonModel> {
        match self {
            JsonModel::Object(members) => if members.contains_key(name) {
                Some(members[name])
            } else {
                None
            },
            _ => None,
        }
    }
}

/// Where and why a text failed to parse as JSON.
pub struct SyntaxFault {
    /// The line of the fault, counted from one.
    pub line: usize,
    /// The column of the fault.
    pub column: usize,
    /// The parser's message.
    pub message: Seq<char>,
}

#[verifier::external_type_specification]
#[verifier::external_body]
pub struct ExValue(serde_json::Value);

#[verifier::external_type_specification]
#[verifier::external_body]
pub struct ExError(serde_json::Error);

#[verifier::external_type_specification]
#[verifier::external_body]
#[verifier::reject_recursive_types(K)]
#[verifier::reject_recursive_types(V)]
pub struct ExMap<K, V>(serde_json::Map<K, V>);

/// The document that a `serde_json::Value` holds.
pub uninterp spec fn value_model(v: serde_json::Value) -> JsonModel;

/// The members that a `serde_json::Map` holds, by name.
pub uninterp spec fn object_model(m: serde_json::Map<String, serde_json::Value>) -> Map<
    Seq<char>,
    JsonModel,
>;

/// The position and message that a `serde_json::Error` holds.
pub uninterp spec fn fault_model(e: serde_json::Error) -> SyntaxFault;

/// What `serde_json::from_str` makes of a text: the document it reads, or the
/// fault it reports.
pub uninterp spec fn json_parse(text: Seq<char>) -> Result<JsonModel, SyntaxFault>;

/// The compact JSON text that `serde_json` writes for a document.
pub uninterp spec fn json_text(j: JsonModel) -> Seq<char>;

/// `serde_json::from_str` at the type `serde_json::Value`.
///
/// Claimed: the outcome depends on the text alone. It is the document
/// `json_parse(text)` on success and the fault `json_parse(text)` otherwise.
/// Nothing is claimed about which texts parse.
#[verifier::external_body]
pub(crate) fn parse_value(text: &str) -> (r: Result<serde_json::Value, serde_json::Error>)
    ensures
        match r {
            Ok(v) => json_parse(text@) == Ok::<JsonModel, SyntaxFault>(value_model(v)),
            Err(e) => json_parse(text@) == Err::<JsonModel, SyntaxFault>(fault_model(e)),
        },
{
    serde_json::from_str::<serde_json::Value>(text)
}

/// `serde_json::Error::line`: the line that the error holds.
pub assume_specification[ serde_json::Error::line ](e: &serde_json::Error) -> (line: usize)
    ensures
        line == fault_model(*e).line,
;

/// `serde_json::Error::column`: the column that the error holds.
pub assume_specification[ serde_json::Error::column ](e: &serde_json::Error) -> (column: usize)
    ensures
        column == fault_model(*e).column,
;

/// The `Display` text of a `serde_json::Error`: the message that the error
/// holds.
#[verifier::external_body]
pub(crate) fn error_message(e: &serde_json::Error) -> (message: String)
    ensures
        message@ == fault_model(*e).message,
{
    e.to_string()
}

/// Which of the six variants of `serde_json::Value` a value is.
#[verifier::external_body]
pub(crate) fn value_kind(v: &serde_json::Value) -> (kind: JsonKind)
    ensures
        kind == value_model(*v).kind(),
{
    match v {
        serde_json::Value::Null => JsonKind::Null,
        serde_json::Value::Bool(_) => JsonKind::Bool,
        serde_json::Value::Number(_) => JsonKind::Number,
        serde_json::Value::String(_) => JsonKind::String,
        serde_json::Value::Array(_) => JsonKind::Array,
        serde_json::Value::Object(_) => JsonKind::Object,
    }
}

/// `serde_json::Value::as_bool`: the boolean of a boolean, `None` for
/// anything else.
pub assume_specification[ serde_json::Value::as_bool ](v: &serde_json::Value) -> (r: Option<bool>)
    ensures
        r == (match value_model(*v) {
            JsonModel::Bool(b) => Some(b),
            _ => None,
        }),
;

/// `serde_json::Value::as_u64`: the integer of a number that is an integer
/// from zero up to `u64::MAX`, `None` for anything else.
pub assume_specification[ serde_json::Value::as_u64 ](v: &serde_json::Value) -> (r: Option<u64>)
    ensures
        r == (match value_model(*v) {
            JsonModel::Number(JsonNumber::Unsigned(n)) => Some(n),
            _ => None,
        }),
;

/// `serde_json::Value::as_str`: the text of a string, `None` for anything
/// else.
pub assume_specification[ serde_json::Value::as_str ](v: &serde_json::Value) -> (r: Option<&str>)
    ensures
        match r {
            Some(s) => value_model(*v) == JsonModel::String(s@),
            None => !(value_model(*v) is String),
        },
;

/// `serde_json::Value::as_array`: the elements of an array, `None` for
/// anything else.
pub assume_specification[ serde_json::Value::as_array ](
    v: &serde_json::Value,
) -> (r: Option<&Vec<serde_json::Value>>)
    ensures
        match r {
            Some(items) => value_model(*v) == JsonModel::Array(
                items@.map_values(|x: serde_json::Value| value_model(x)),
            ),
            None => !(value_model(*v) is Array),
        },
;

/// `serde_json::Value::get` with a string: the member of that name where
/// the value is an object that has one, `None` otherwise.
#[verifier::external_body]
pub(crate) fn value_get<'a>(
    v: &'a serde_json::Value,
    name: &str,
) -> (r: Option<&'a serde_json::Value>)
    ensures
        match r {
            Some(x) => value_model(*v).member(name@) == Some(value_model(*x)),
            None => value_model(*v).member(name@) is None,
        },
{
    v.get(name)
}

/// The variant `serde_json::Value::Null`.
#[verifier::external_body]
pub(crate) fn value_null() -> (v: serde_json::Value)
    ensures
        value_model(v) == JsonModel::Null,
{
    serde_json::Value::Null
}

/// The variant `serde_json::Value::Bool`.
#[verifier::external_body]
pub(crate) fn value_bool(b: bool) -> (v: serde_json::Value)
    ensures
        value_model(v) == JsonModel::Bool(b),
{
    serde_json::Value::Bool(b)
}

/// `serde_json::Value::from` on a `u8`: the number that is this integer.
#[verifier::external_body]
pub(crate) fn value_small(n: u8) -> (v: serde_json::Value)
    ensures
        value_model(v) == JsonModel::Number(JsonNumber::Unsigned(n as u64)),
{
    serde_json::Value::from(n)
}

/// The variant `serde_json::Value::String`.
#[verifier::external_body]
pub(crate) fn value_string(s: String) -> (v: serde_json::Value)
    ensures
        value_model(v) == JsonModel::String(s@),
{
    serde_json::Value::String(s)
}

/// The variant `serde_json::Value::Array`.
#[verifier::external_body]
pub(crate) fn value_array(items: Vec<serde_json::Value>) -> (v: serde_json::Value)
    ensures
        value_model(v) == JsonModel::Array(
            items@.map_values(|x: serde_json::Value| value_model(x)),
        ),
{
    serde_json::Value::Array(items)
}

/// The variant `serde_json::Value::Object`.
#[verifier::external_body]
pub(crate) fn value_object(
    members: serde_json::Map<String, serde_json::Value>,
) -> (v: serde_json::Value)
    ensures
        value_model(v) == JsonModel::Object(object_model(members)),
{
    serde_json::Value::Object(members)
}

/// `serde_json::Map::new`: a map without members.
#[verifier::external_body]
pub(crate) fn object_new() -> (members: serde_json::Map<String, serde_json::Value>)
    ensures
        object_model(members) == (Map::<Seq<char>, JsonModel>::empty()),
{
    serde_json::Map::new()
}

/// `serde_json::Map::insert`: the member is set under its name, in place of
/// one that had the name before.
#[verifier::external_body]
pub(crate) fn object_insert(
    members: &mut serde_json::Map<String, serde_json::Value>,
    name: String,
    member: serde_json::Value,
)
    ensures
        object_model(*final(members)) == object_model(*old(members)).insert(
            name@,
            value_model(member),
        ),
{
    members.insert(name, member);
}

/// The `Display` text of a `serde_json::Value`: the document as compact
/// JSON.
///
/// Claimed: the text depends on the document alone. `serde_json` keeps the
/// members of an object sorted by name, so the order in which they were
/// inserted leaves no trace in it.
#[verifier::external_body]
pub(crate) fn value_to_text(v: &serde_json::Value) -> (text: String)
    ensures
        text@ == json_text(value_model(*v)),
{
    v.to_string()
}

} // verus!
