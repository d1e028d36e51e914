//! JSON values as the codec reads them, the calls into `rustc_serialize` that
//! parse and write JSON text, and the typed readers for the members of a JSON
//! object.

use crate::limits::{has_dangling_comma, measure, within_limits, within_measure, MAX_TEXT};
use rustc_serialize::json::Json;
use rustc_serialize::json::ParserError;
use vstd::prelude::*;

verus! {

/// A JSON value. Numbers without fraction or exponent are `Unsigned` when
/// they carry no minus sign and `Signed` otherwise; every other number is a
/// `Fraction`, whose amount no rule of this library reads.
#[derive(Debug)]
pub enum JsonValue {
    Null,
    Boolean(bool),
    Signed(i64),
    Unsigned(u64),
    Fraction,
    Text(String),
    Array(Vec<JsonValue>),
    Object(Vec<(String, JsonValue)>),
}

/// A value that is written into the body of a call: a text or a whole
/// number.
#[derive(Debug, Clone, PartialEq, Eq)]
pub enum Scalar {
    Text(String),
    Number(u64),
}

/// A `Scalar` with its text as a sequence of characters.
pub enum ScalarView {
    Text(Seq<char>),
    Number(u64),
}

impl View for Scalar {
    type V = ScalarView;

    open spec fn view(&self) -> ScalarView {
        match *self {
            Scalar::Text(t) => ScalarView::Text(t@),
            Scalar::Number(n) => ScalarView::Number(n),
        }
    }
}

/// The members of an object to write, each key and value by its view.
pub open spec fn members_view(members: Seq<(String, Scalar)>) -> Seq<(Seq<char>, ScalarView)> {
    Seq::new(members.len(), |i: int| (members[i].0@, members[i].1@))
}

/// Why a payload could not be decoded.
#[derive(Debug, Clone, Copy, PartialEq, Eq, Structural)]
pub enum DecodeError {
    /// The text is not JSON.
    Syntax,
    /// The text is beyond the limits within which it can be parsed.
    OverLimit,
    /// A value is of another kind than the shape asks for.
    Expected,
    /// A member that the shape requires is absent.
    MissingField,
    /// A text that should name a variant names none.
    UnknownVariant,
}

/// The error with which `rustc_serialize` refuses a text that is not JSON.
#[verifier::external_type_specification]
#[verifier::external_body]
pub struct ExParserError(ParserError);

/// A JSON value as `rustc_serialize` holds it. It only passes between the
/// outside calls and the conversions below.
#[verifier::external_type_specification]
#[verifier::external_body]
pub struct ExJson(Json);

/// What `rustc_serialize::json::Json::from_str` makes of a text: the value
/// it reads, or `None` where it refuses the text.
pub uninterp spec fn json_of_text(text: Seq<char>) -> Option<JsonValue>;

/// The compact JSON text that `rustc_serialize` writes for an object with
/// these members.
pub uninterp spec fn text_of_object(members: Seq<(Seq<char>, ScalarView)>) -> Seq<char>;

/// Turns a value of `rustc_serialize` into a `JsonValue`, variant by variant;
/// the members of an object come in the order of their keys.
#[verifier::external_body]
fn lift(json: Json) -> JsonValue {
    match json {
        Json::Null => JsonValue::Null,
        Json::Boolean(b) => JsonValue::Boolean(b),
        Json::I64(i) => JsonValue::Signed(i),
        Json::U64(u) => JsonValue::Unsigned(u),
        Json::F64(_) => JsonValue::Fraction,
        Json::String(s) => JsonValue::Text(s),
        Json::Array(items) => JsonValue::Array(items.into_iter().map(lift).collect()),
        Json::Object(members) => {
            JsonValue::Object(members.into_iter().map(|(k, v)| (k, lift(v))).collect())
        },
    }
}

/// Calls `rustc_serialize::json::Json::from_str`. The contract claims only
/// that the outcome is a function of the text: `Ok` with the value that
/// `json_of_text` names, or `Err` where it names none. A text beyond the limits,
/// or one in which an object closes behind a comma, may bring the parser to
/// panic or to overflow the stack, and is left out.
#[verifier::external_body]
fn parse_text(text: &str) -> (r: Result<JsonValue, ParserError>)
    requires
        within_limits(text@),
        !has_dangling_comma(text@),
    ensures
        match r {
            Ok(v) => json_of_text(text@) == Some(v),
            Err(_) => json_of_text(text@) is None,
        },
{
    match Json::from_str(text) {
        Ok(json) => Ok(lift(json)),
        Err(e) => Err(e),
    }
}

/// Calls `to_string` of `rustc_serialize::json::Json` on an object with
/// these members, which writes it as compact JSON. The contract claims only
/// that the text is a function of the members' keys and values.
#[verifier::external_body]
pub(crate) fn render_object(members: &Vec<(String, Scalar)>) -> (s: String)
    ensures
        s@ == text_of_object(members_view(members@)),
{
    let member = |m: &(String, Scalar)| match &m.1 {
        Scalar::Text(t) => (m.0.clone(), Json::String(t.clone())),
        Scalar::Number(n) => (m.0.clone(), Json::U64(*n)),
    };
    Json::Object(members.iter().map(member).collect()).to_string()
}

/// The value that a text stands for: a text beyond the limits is refused
/// unread, and one that is not JSON is a syntax error. A text in which an
/// object closes behind a comma is not JSON, and is not handed to the parser
/// either.
pub open spec fn spec_parse(text: Seq<char>) -> Result<JsonValue, DecodeError> {
    if !within_limits(text) {
        Err(DecodeError::OverLimit)
    } else if has_dangling_comma(text) {
        Err(DecodeError::Syntax)
    } else {
        match json_of_text(text) {
            None => Err(DecodeError::Syntax),
            Some(json) => Ok(json),
        }
    }
}

/// Reads a JSON text.
pub fn parse(text: &str) -> (r: Result<JsonValue, DecodeError>)
    ensures
        r == spec_parse(text@),
{
    if text.as_bytes().len() > MAX_TEXT {
        return Err(DecodeError::OverLimit);
    }
    let m = measure(text);
    if !within_measure(m) {
        return Err(DecodeError::OverLimit);
    }
    if m.dangling_comma {
        return Err(DecodeError::Syntax);
    }
    match parse_text(text) {
        Err(_) => Err(DecodeError::Syntax),
        Ok(json) => Ok(json),
    }
}

/// The value of the first member of `members` from index `i` on whose key is
/// `key`.
pub open spec fn member_from(members: Seq<(String, JsonValue)>, key: Seq<char>, i: int) -> Option<
    JsonValue,
>
    decreases members.len() - i,
{
    if i < 0 || i >= members.len() {
        None
    } else if members[i].0@ == key {
        Some(members[i].1)
    } else {
        member_from(members, key, i + 1)
    }
}

/// The member `key` of `value`: `Err(Expected)` where `value` is no object,
/// `Ok(None)` where it is one without that key.
pub open spec fn spec_member(value: JsonValue, key: Seq<char>) -> Result<
    Option<JsonValue>,
    DecodeError,
> {
    match value {
        JsonValue::Object(members) => Ok(member_from(members@, key, 0)),
        _ => Err(DecodeError::Expected),
    }
}

/// The number that a JSON value stands for, where it is a whole number that
/// a `usize` holds.
pub open spec fn spec_as_usize(value: JsonValue) -> Result<usize, DecodeError> {
    match value {
        JsonValue::Unsigned(u) => if u <= usize::MAX {
            Ok(u as usize)
        } else {
            Err(DecodeError::Expected)
        },
        JsonValue::Signed(i) => if 0 <= i && i <= usize::MAX {
            Ok(i as usize)
        } else {
            Err(DecodeError::Expected)
        },
        _ => Err(DecodeError::Expected),
    }
}

/// The text that a JSON value stands for.
pub open spec fn spec_as_text(value: JsonValue) -> Result<String, DecodeError> {
    match value {
        JsonValue::Text(s) => Ok(s),
        _ => Err(DecodeError::Expected),
    }
}

/// The flag that a JSON value stands for.
pub open spec fn spec_as_bool(value: JsonValue) -> Result<bool, DecodeError> {
    match value {
        JsonValue::Boolean(b) => Ok(b),
        _ => Err(DecodeError::Expected),
    }
}

/// A member that the shape requires: absent, it is `MissingField`; present,
/// it is read by `read`, an explicit `null` included.
pub open spec fn required<T>(
    value: JsonValue,
    key: Seq<char>,
    read: spec_fn(JsonValue) -> Result<T, DecodeError>,
) -> Result<T, DecodeError> {
    match spec_member(value, key) {
        Err(e) => Err(e),
        Ok(None) => Err(DecodeError::MissingField),
        Ok(Some(m)) => read(m),
    }
}

/// A member that may be left out: absent or `null`, it is `None`; otherwise
/// it is read by `read`.
pub open spec fn optional<T>(
    value: JsonValue,
    key: Seq<char>,
    read: spec_fn(JsonValue) -> Result<T, DecodeError>,
) -> Result<Option<T>, DecodeError> {
    match spec_member(value, key) {
        Err(e) => Err(e),
        Ok(None) => Ok(None),
        Ok(Some(JsonValue::Null)) => Ok(None),
        Ok(Some(m)) => match read(m) {
            Ok(x) => Ok(Some(x)),
            Err(e) => Err(e),
        },
    }
}

/// A required member that is a whole number.
pub open spec fn spec_usize_field(value: JsonValue, key: Seq<char>) -> Result<usize, DecodeError> {
    required(value, key, |m: JsonValue| spec_as_usize(m))
}

/// A required member that is a text.
pub open spec fn spec_text_field(value: JsonValue, key: Seq<char>) -> Result<String, DecodeError> {
    required(value, key, |m: JsonValue| spec_as_text(m))
}

/// A required member that is a flag.
pub open spec fn spec_bool_field(value: JsonValue, key: Seq<char>) -> Result<bool, DecodeError> {
    required(value, key, |m: JsonValue| spec_as_bool(m))
}

/// A whole number that may be left out.
pub open spec fn spec_opt_usize_field(value: JsonValue, key: Seq<char>) -> Result<
    Option<usize>,
    DecodeError,
> {
    optional(value, key, |m: JsonValue| spec_as_usize(m))
}

/// A text that may be left out.
pub open spec fn spec_opt_text_field(value: JsonValue, key: Seq<char>) -> Result<
    Option<String>,
    DecodeError,
> {
    optional(value, key, |m: JsonValue| spec_as_text(m))
}

/// A flag that may be left out.
pub open spec fn spec_opt_bool_field(value: JsonValue, key: Seq<char>) -> Result<
    Option<bool>,
    DecodeError,
> {
    optional(value, key, |m: JsonValue| spec_as_bool(m))
}

/// Looks a key up among the members of an object.
pub fn member<'a>(value: &'a JsonValue, key: &str) -> (r: Result<
    Option<&'a JsonValue>,
    DecodeError,
>)
    ensures
        match r {
            Ok(Some(m)) => spec_member(*value, key@) == Ok::<_, DecodeError>(Some(*m)),
            Ok(None) => spec_member(*value, key@) == Ok::<Option<JsonValue>, DecodeError>(None),
            Err(e) => spec_member(*value, key@) == Err::<Option<JsonValue>, _>(e),
        },
{
    match value {
        JsonValue::Object(members) => {
            let wanted = key.to_owned();
            let mut i: usize = 0;
            while i < members.len()
                invariant
                    i <= members.len(),
                    wanted@ == key@,
                    *value == JsonValue::Object(*members),
                    member_from(members@, key@, 0) == member_from(members@, key@, i as int),
                decreases members.len() - i,
            {
                if members[i].0 == wanted {
                    return Ok(Some(&members[i].1));
                }
                i += 1;
            }
            Ok(None)
        },
        _ => Err(DecodeError::Expected),
    }
}

/// Reads a whole number.
pub fn as_usize(value: &JsonValue) -> (r: Result<usize, DecodeError>)
    ensures
        r == spec_as_usize(*value),
{
    match value {
        JsonValue::Unsigned(u) => {
            if *u <= usize::MAX as u64 {
                Ok(*u as usize)
            } else {
                Err(DecodeError::Expected)
            }
        },
        JsonValue::Signed(i) => {
            if 0 <= *i && *i as u64 <= usize::MAX as u64 {
                Ok(*i as usize)
            } else {
                Err(DecodeError::Expected)
            }
        },
        _ => Err(DecodeError::Expected),
    }
}

/// Reads a text.
pub fn as_text(value: &JsonValue) -> (r: Result<String, DecodeError>)
    ensures
        r == spec_as_text(*value),
{
    match value {
        JsonValue::Text(s) => Ok(s.clone()),
        _ => Err(DecodeError::Expected),
    }
}

/// Reads a flag.
pub fn as_bool(value: &JsonValue) -> (r: Result<bool, DecodeError>)
    ensures
        r == spec_as_bool(*value),
{
    match value {
        JsonValue::Boolean(b) => Ok(*b),
        _ => Err(DecodeError::Expected),
    }
}

/// Reads a required member that is a whole number.
pub fn usize_field(value: &JsonValue, key: &str) -> (r: Result<usize, DecodeError>)
    ensures
        r == spec_usize_field(*value, key@),
{
    match member(value, key)? {
        None => Err(DecodeError::MissingField),
        Some(m) => as_usize(m),
    }
}

/// Reads a required member that is a text.
pub fn text_field(value: &JsonValue, key: &str) -> (r: Result<String, DecodeError>)
    ensures
        r == spec_text_field(*value, key@),
{
    match member(value, key)? {
        None => Err(DecodeError::MissingField),
        Some(m) => as_text(m),
    }
}

/// Reads a required member that is a flag.
pub fn bool_field(value: &JsonValue, key: &str) -> (r: Result<bool, DecodeError>)
    ensures
        r == spec_bool_field(*value, key@),
{
    match member(value, key)? {
        None => Err(DecodeError::MissingField),
        Some(m) => as_bool(m),
    }
}

/// Reads a whole number that may be left out.
pub fn opt_usize_field(value: &JsonValue, key: &str) -> (r: Result<Option<usize>, DecodeError>)
    ensures
        r == spec_opt_usize_field(*value, key@),
{
    match member(value, key)? {
        None => Ok(None),
        Some(JsonValue::Null) => Ok(None),
        Some(m) => Ok(Some(as_usize(m)?)),
    }
}

/// Reads a text that may be left out.
pub fn opt_text_field(value: &JsonValue, key: &str) -> (r: Result<Option<String>, DecodeError>)
    ensures
        r == spec_opt_text_field(*value, key@),
{
    match member(value, key)? {
        None => Ok(None),
        Some(JsonValue::Null) => Ok(None),
        Some(m) => Ok(Some(as_text(m)?)),
    }
}

/// Reads a flag that may be left out.
pub fn opt_bool_field(value: &JsonValue, key: &str) -> (r: Result<Option<bool>, DecodeError>)
    ensures
        r == spec_opt_bool_field(*value, key@),
{
    match member(value, key)? {
        None => Ok(None),
        Some(JsonValue::Null) => Ok(None),
        Some(m) => Ok(Some(as_bool(m)?)),
    }
}

} // verus!
