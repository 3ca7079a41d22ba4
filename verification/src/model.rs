//! What the models share: identifiers, and the record of what is wrong
//! with the data that a model was given.
use vstd::prelude::*;
use crate::value::{Json, Value};

verus! {

/// The identifier that a text denotes, or why it denotes none.
pub uninterp spec fn parsed_uuid(s: Seq<char>) -> Result<u128, Seq<char>>;

/// The text of an identifier: 32 hexadecimal digits in five groups.
pub uninterp spec fn uuid_text(id: u128) -> Seq<char>;

/// Reads an identifier.
///
/// Trusted: this is `uuid::Uuid::parse_str`; the number is that of
/// `uuid::Uuid::as_u128`, and the error is the text of its error.
#[verifier::external_body]
fn parse_str(s: &str) -> (r: Result<u128, String>)
    ensures
        match r {
            Ok(id) => parsed_uuid(s@) == Ok::<u128, Seq<char>>(id),
            Err(message) => parsed_uuid(s@) == Err::<u128, Seq<char>>(message@),
        },
{
    match ::uuid::Uuid::parse_str(s) {
        Ok(id) => Ok(id.as_u128()),
        Err(error) => Err(error.to_string()),
    }
}

/// Writes an identifier.
///
/// Trusted: this is the `Display` of `uuid::Uuid`, for the identifier
/// that `uuid::Uuid::from_u128` makes.
#[verifier::external_body]
fn hyphenated(id: u128) -> (r: String)
    ensures
        r@ == uuid_text(id),
{
    ::uuid::Uuid::from_u128(id).to_string()
}

/// A universally unique identifier: a number of 128 bits.
#[derive(Clone, Copy, Debug, PartialEq, Eq, Structural, Hash)]
pub struct Uuid(pub u128);

impl Uuid {
    /// The identifier whose bits are all zero.
    pub fn nil() -> (r: Uuid)
        ensures
            r.0 == 0,
    {
        Uuid(0)
    }

    /// Reads an identifier, or says why the text denotes none.
    pub fn parse(s: &str) -> (r: Result<Uuid, String>)
        ensures
            match r {
                Ok(id) => parsed_uuid(s@) == Ok::<u128, Seq<char>>(id.0),
                Err(message) => parsed_uuid(s@) == Err::<u128, Seq<char>>(message@),
            },
    {
        match parse_str(s) {
            Ok(id) => Ok(Uuid(id)),
            Err(message) => Err(message),
        }
    }

    /// The text of the identifier.
    pub fn to_text(&self) -> (r: String)
        ensures
            r@ == uuid_text(self.0),
    {
        hyphenated(self.0)
    }
}

/// The contents of a list of failures, one for one.
pub open spec fn failures_view(failures: Seq<(String, String)>) -> Seq<(Seq<char>, Seq<char>)> {
    Seq::new(failures.len(), |i: int| (failures[i].0@, failures[i].1@))
}

/// What is wrong with the data that a model was given: for each field
/// that failed, its name and a message.
#[derive(Debug)]
pub struct Validation {
    pub failed_entries: Vec<(String, String)>,
}

impl View for Validation {
    type V = Seq<(Seq<char>, Seq<char>)>;

    open spec fn view(&self) -> Seq<(Seq<char>, Seq<char>)> {
        failures_view(self.failed_entries@)
    }
}

/// The identifier that a value holds: nothing where there is no value or
/// the value is no string, else what the string is read as.
pub open spec fn value_uuid(value: Option<Json>) -> Option<Result<u128, Seq<char>>> {
    match value {
        Some(Json::Text(s)) => Some(parsed_uuid(s)),
        _ => None,
    }
}

/// The string that a value holds, if it holds one.
pub open spec fn value_string(value: Option<Json>) -> Option<Seq<char>> {
    match value {
        Some(Json::Text(s)) => Some(s),
        _ => None,
    }
}

impl Validation {
    /// A record without failures.
    pub fn new() -> (r: Validation)
        ensures
            r@ == Seq::<(Seq<char>, Seq<char>)>::empty(),
    {
        Validation { failed_entries: Vec::new() }
    }

    /// Whether no field failed.
    pub fn is_success(&self) -> (r: bool)
        ensures
            r == (self@.len() == 0),
    {
        self.failed_entries.len() == 0
    }

    /// Records that the field `key` failed, with a message.
    pub fn record_fail(&mut self, key: &str, message: String)
        ensures
            final(self)@ == old(self)@.push((key@, message@)),
    {
        self.failed_entries.push((String::from_str(key), message));
    }

    /// Reads the identifier that a value holds.
    pub fn parse_uuid(value: Option<&Value>) -> (r: Option<Result<Uuid, String>>)
        ensures
            match r {
                Some(Ok(id)) => value_uuid(option_view(value)) == Some(Ok::<u128, Seq<char>>(id.0)),
                Some(Err(message)) => value_uuid(option_view(value)) == Some(
                    Err::<u128, Seq<char>>(message@),
                ),
                None => value_uuid(option_view(value)) is None,
            },
    {
        match value {
            Some(Value::String(s)) => Some(Uuid::parse(s.as_str())),
            _ => None,
        }
    }

    /// The string that a value holds.
    pub fn parse_string(value: Option<&Value>) -> (r: Option<String>)
        ensures
            match r {
                Some(s) => value_string(option_view(value)) == Some(s@),
                None => value_string(option_view(value)) is None,
            },
    {
        match value {
            Some(Value::String(s)) => Some(s.clone()),
            _ => None,
        }
    }
}

/// The content of a value that may be missing.
pub open spec fn option_view(value: Option<&Value>) -> Option<Json> {
    match value {
        Some(v) => Some(v@),
        None => None,
    }
}

} // verus!
