//! Reading settings from a configuration table.
//!
//! A table is a `toml` table. What it holds is opaque to the verifier;
//! [`table_settings`] names it, and the one function that reads a table,
//! [`get`], is trusted to return what it names. Everything that is made of
//! what it returns is verified.
use vstd::prelude::*;
use toml::value::Table;
use toml::Value as TomlValue;
use crate::duration::{duration_millis, parse_duration};

verus! {

/// A table of the `toml` crate: a map from strings to values.
#[verifier::external_type_specification]
#[verifier::external_body]
#[verifier::reject_recursive_types(K)]
#[verifier::reject_recursive_types(V)]
pub struct ExTable<K, V>(toml::map::Map<K, V>);

/// A value of the `toml` crate.
#[verifier::external_type_specification]
#[verifier::external_body]
pub struct ExTomlValue(TomlValue);

/// What a table holds under a key, as far as settings are read: a string,
/// an integer, or something else.
pub enum Setting {
    Text(Seq<char>),
    Integer(i64),
    Other,
}

/// What a table holds, key by key.
pub uninterp spec fn table_settings(table: Table) -> Map<Seq<char>, Setting>;

/// The string that the settings hold under `key`, if they hold one.
pub open spec fn setting_text(settings: Map<Seq<char>, Setting>, key: Seq<char>) -> Option<
    Seq<char>,
> {
    if settings.contains_key(key) && settings[key] is Text {
        Some(settings[key]->Text_0)
    } else {
        None
    }
}

/// The integer that the settings hold under `key`, if they hold one.
pub open spec fn setting_integer(settings: Map<Seq<char>, Setting>, key: Seq<char>) -> Option<
    i64,
> {
    if settings.contains_key(key) && settings[key] is Integer {
        Some(settings[key]->Integer_0)
    } else {
        None
    }
}

/// The integer that the settings hold under `key`, if they hold one that
/// is at least zero and at most `max`.
pub open spec fn setting_bounded(settings: Map<Seq<char>, Setting>, key: Seq<char>, max: u64)
    -> Option<u64> {
    match setting_integer(settings, key) {
        Some(value) => if 0 <= value && value <= max {
            Some(value as u64)
        } else {
            None
        },
        None => None,
    }
}

/// The duration, in milliseconds, that the settings hold under `key` as
/// a text such as `30s`, if they hold one that fits in 64 bits.
pub open spec fn setting_duration(settings: Map<Seq<char>, Setting>, key: Seq<char>) -> Option<
    u64,
> {
    match setting_text(settings, key) {
        Some(text) => match duration_millis(text) {
            Some(millis) => if millis <= u64::MAX {
                Some(millis as u64)
            } else {
                None
            },
            None => None,
        },
        None => None,
    }
}

/// What a table holds under a key.
#[derive(Debug)]
pub enum Entry {
    Text(String),
    Integer(i64),
    Other,
}

impl View for Entry {
    type V = Setting;

    open spec fn view(&self) -> Setting {
        match self {
            Entry::Text(text) => Setting::Text(text@),
            Entry::Integer(value) => Setting::Integer(*value),
            Entry::Other => Setting::Other,
        }
    }
}

/// What the table holds under `key`, if it holds anything.
///
/// Trusted: this is `toml::map::Map::get`, which returns the value under
/// the key, if there is one. A value is a string where it is the variant
/// `toml::Value::String`, of which the result holds a copy, and an integer
/// where it is the variant `toml::Value::Integer`.
#[verifier::external_body]
pub(crate) fn get(table: &Table, key: &str) -> (r: Option<Entry>)
    ensures
        match r {
            Some(entry) => table_settings(*table).contains_key(key@) && table_settings(
                *table,
            )[key@] == entry@,
            None => !table_settings(*table).contains_key(key@),
        },
{
    match table.get(key) {
        Some(TomlValue::String(text)) => Some(Entry::Text(text.clone())),
        Some(TomlValue::Integer(value)) => Some(Entry::Integer(*value)),
        Some(_) => Some(Entry::Other),
        None => None,
    }
}

/// The string under `key`, if there is one.
pub fn get_str(table: &Table, key: &str) -> (r: Option<String>)
    ensures
        match r {
            Some(text) => setting_text(table_settings(*table), key@) == Some(text@),
            None => setting_text(table_settings(*table), key@) is None,
        },
{
    match get(table, key) {
        Some(Entry::Text(text)) => Some(text),
        _ => None,
    }
}

/// The integer under `key`, if there is one.
pub fn get_integer(table: &Table, key: &str) -> (r: Option<i64>)
    ensures
        r == setting_integer(table_settings(*table), key@),
{
    match get(table, key) {
        Some(Entry::Integer(value)) => Some(value),
        _ => None,
    }
}

/// The integer under `key`, if there is one that is at least zero and at
/// most `max`.
pub fn get_bounded(table: &Table, key: &str, max: u64) -> (r: Option<u64>)
    ensures
        r == setting_bounded(table_settings(*table), key@, max),
{
    match get_integer(table, key) {
        Some(value) => {
            if value >= 0 && value as u64 <= max {
                Some(value as u64)
            } else {
                None
            }
        },
        None => None,
    }
}

/// The duration, in milliseconds, under `key`.
pub fn get_duration(table: &Table, key: &str) -> (r: Option<u64>)
    ensures
        r == setting_duration(table_settings(*table), key@),
{
    match get_str(table, key) {
        Some(text) => parse_duration(text.as_str()),
        None => None,
    }
}

} // verus!
