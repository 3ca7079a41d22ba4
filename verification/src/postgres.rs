//! How values are written into statements for a Postgres-family database:
//! the type of a column, a default value, and a value of a row, each by the
//! declared type of its column.
use vstd::prelude::*;
use crate::column::{Column, ColumnSpec, ColumnType};
use crate::json::json_text;
use crate::text::{
    chars_of, is_digit, join, literal, push_literal, push_signed_decimal, quote_literal,
    same_text, signed_decimal,
};
use crate::value::{values_view, Json, Value};

verus! {

/// The name of the type of a column in the database.
pub open spec fn sql_type(t: ColumnType) -> Seq<char> {
    match t {
        ColumnType::Bool => "boolean"@,
        ColumnType::SmallInt => "smallint"@,
        ColumnType::Int => "int"@,
        ColumnType::BigInt => "bigint"@,
        ColumnType::Text => "text"@,
        ColumnType::Uuid => "uuid"@,
        ColumnType::DateTime => "timestamptz"@,
        ColumnType::TextArray => "text[]"@,
        ColumnType::UuidArray => "uuid[]"@,
        ColumnType::Json => "jsonb"@,
    }
}

/// Whether a column of this type holds arrays.
pub open spec fn is_array_type(t: ColumnType) -> bool {
    t == ColumnType::TextArray || t == ColumnType::UuidArray
}

/// Whether a column of this type holds integers.
pub open spec fn is_integer_type(t: ColumnType) -> bool {
    t == ColumnType::SmallInt || t == ColumnType::Int || t == ColumnType::BigInt
}

/// A value written without regard to a column: null, a boolean and a number
/// as keywords and numerals, a string as a quoted literal, an array and an
/// object as the quoted literal of their JSON text.
pub open spec fn encoded_scalar(v: Json) -> Seq<char> {
    match v {
        Json::Null => "NULL"@,
        Json::Bool(b) => if b {
            "TRUE"@
        } else {
            "FALSE"@
        },
        Json::Number(n) => signed_decimal(n),
        Json::Text(s) => quote_literal(s),
        _ => quote_literal(json_text(v)),
    }
}

/// The items of an array, each written by [`encoded_scalar`].
pub open spec fn encoded_items(items: Seq<Json>) -> Seq<Seq<char>> {
    Seq::new(items.len(), |i: int| encoded_scalar(items[i]))
}

/// A value written for a column of type `t`:
/// - null as `NULL`;
/// - for a `jsonb` column, the quoted literal of the value's JSON text;
/// - an array for an array column as `ARRAY[..]` with a cast to the
///   column's type, so that the empty array has a type too;
/// - anything else by [`encoded_scalar`].
pub open spec fn encoded_present(t: ColumnType, v: Json) -> Seq<char> {
    if v is Null {
        "NULL"@
    } else if t == ColumnType::Json {
        quote_literal(json_text(v))
    } else if v is Array && is_array_type(t) {
        "ARRAY["@ + join(encoded_items(v->Array_0), ","@) + "]::"@ + sql_type(t)
    } else {
        encoded_scalar(v)
    }
}

/// What is written for the value of a column in a row: the value by
/// [`encoded_present`] where the row has one; else `DEFAULT` where the column
/// declares a default value, and `NULL` where it does not.
pub open spec fn encoded_value(column: ColumnSpec, value: Option<Json>) -> Seq<char> {
    match value {
        Some(v) => encoded_present(column.column_type, v),
        None => if column.default_value is Some {
            "DEFAULT"@
        } else {
            "NULL"@
        },
    }
}

/// One or more digits.
pub open spec fn all_digits(s: Seq<char>) -> bool {
    &&& s.len() > 0
    &&& forall|i: int| 0 <= i < s.len() ==> is_digit(#[trigger] s[i])
}

/// An integer numeral: one or more digits, after a minus sign or not.
pub open spec fn is_integer_literal(s: Seq<char>) -> bool {
    if s.len() > 0 && s[0] == '-' {
        all_digits(s.skip(1))
    } else {
        all_digits(s)
    }
}

/// A default value written for a column of type `t`:
/// - `true` and `false` for a boolean column as `TRUE` and `FALSE`;
/// - an integer numeral for an integer column as it is;
/// - `now` for a date-time column as the call `now()`;
/// - anything else as a quoted literal.
pub open spec fn formatted_value(t: ColumnType, value: Seq<char>) -> Seq<char> {
    if t == ColumnType::Bool && value == "true"@ {
        "TRUE"@
    } else if t == ColumnType::Bool && value == "false"@ {
        "FALSE"@
    } else if is_integer_type(t) && is_integer_literal(value) {
        value
    } else if t == ColumnType::DateTime && value == "now"@ {
        "now()"@
    } else {
        quote_literal(value)
    }
}

/// The name of the type of `column` in the database.
pub fn column_type(column: &Column) -> (r: &'static str)
    ensures
        r@ == sql_type(column@.column_type),
{
    match column.column_type() {
        ColumnType::Bool => "boolean",
        ColumnType::SmallInt => "smallint",
        ColumnType::Int => "int",
        ColumnType::BigInt => "bigint",
        ColumnType::Text => "text",
        ColumnType::Uuid => "uuid",
        ColumnType::DateTime => "timestamptz",
        ColumnType::TextArray => "text[]",
        ColumnType::UuidArray => "uuid[]",
        ColumnType::Json => "jsonb",
    }
}

fn check_integer_literal(s: &str) -> (r: bool)
    ensures
        r == is_integer_literal(s@),
{
    let chars = chars_of(s);
    let start: usize = if chars.len() > 0 && chars[0] == '-' {
        1
    } else {
        0
    };
    let ghost digits = s@.skip(start as int);
    proof {
        assert(s@.skip(0) == s@);
    }
    if chars.len() == start {
        return false;
    }
    let mut i: usize = start;
    while i < chars.len()
        invariant
            start <= i <= chars.len(),
            chars@ == s@,
            digits == s@.skip(start as int),
            is_integer_literal(s@) == all_digits(digits),
            forall|j: int| 0 <= j < i - start ==> is_digit(#[trigger] digits[j]),
        decreases chars.len() - i,
    {
        let c = chars[i];
        assert(digits[i - start] == s@[i as int]);
        if !('0' <= c && c <= '9') {
            assert(digits[i - start] == s@[i as int]);
            return false;
        }
        i += 1;
    }
    true
}

/// Writes the default value `value` for `column`.
pub fn format_value(column: &Column, value: &str) -> (r: String)
    ensures
        r@ == formatted_value(column@.column_type, value@),
{
    let t = column.column_type();
    if t == ColumnType::Bool && same_text(value, "true") {
        return String::from_str("TRUE");
    }
    if t == ColumnType::Bool && same_text(value, "false") {
        return String::from_str("FALSE");
    }
    if (t == ColumnType::SmallInt || t == ColumnType::Int || t == ColumnType::BigInt)
        && check_integer_literal(value) {
        return String::from_str(value);
    }
    if t == ColumnType::DateTime && same_text(value, "now") {
        return String::from_str("now()");
    }
    literal(value)
}

/// Appends `v`, written without regard to a column, to `out`.
pub fn push_scalar(out: &mut String, v: &Value)
    ensures
        final(out)@ == old(out)@ + encoded_scalar(v@),
{
    match v {
        Value::Null => {
            out.append("NULL");
        },
        Value::Bool(b) => {
            if *b {
                out.append("TRUE");
            } else {
                out.append("FALSE");
            }
        },
        Value::Number(n) => {
            push_signed_decimal(out, *n);
        },
        Value::String(s) => {
            push_literal(out, s.as_str());
        },
        _ => {
            let text = v.to_json();
            push_literal(out, text.as_str());
        },
    }
}

/// Writes `value` without regard to a column.
pub fn encode_scalar(value: &Value) -> (r: String)
    ensures
        r@ == encoded_scalar(value@),
{
    let mut r = String::new();
    push_scalar(&mut r, value);
    r
}

/// Writes `value` for a column of type `t`.
pub fn encode_present(t: ColumnType, value: &Value) -> (r: String)
    ensures
        r@ == encoded_present(t, value@),
{
    let mut r = String::new();
    match value {
        Value::Null => {
            r.append("NULL");
            return r;
        },
        _ => {},
    }
    if t == ColumnType::Json {
        let text = value.to_json();
        push_literal(&mut r, text.as_str());
        return r;
    }
    match value {
        Value::Array(items) => {
            if t == ColumnType::TextArray || t == ColumnType::UuidArray {
                let ghost parts = encoded_items(values_view(items@));
                r.append("ARRAY[");
                let mut i: usize = 0;
                while i < items.len()
                    invariant
                        i <= items.len(),
                        parts == encoded_items(values_view(items@)),
                        r@ == "ARRAY["@ + join(parts.take(i as int), ","@),
                    decreases items.len() - i,
                {
                    proof {
                        assert(parts.take(i + 1).drop_last() == parts.take(i as int));
                        assert(parts.take(i + 1).last() == encoded_scalar(items@[i as int]@));
                    }
                    if i > 0 {
                        r.append(",");
                    }
                    push_scalar(&mut r, &items[i]);
                    proof {
                        assert(r@ == "ARRAY["@ + join(parts.take(i + 1), ","@));
                    }
                    i += 1;
                }
                proof {
                    assert(parts.take(items.len() as int) == parts);
                }
                r.append("]::");
                if t == ColumnType::TextArray {
                    r.append("text[]");
                } else {
                    r.append("uuid[]");
                }
                return r;
            }
        },
        _ => {},
    }
    push_scalar(&mut r, value);
    r
}

/// Writes what stands for the value of `column` in a row that holds
/// `value` for it, or nothing.
pub fn encode_value(column: &Column, value: Option<&Value>) -> (r: String)
    ensures
        r@ == encoded_value(
            column@,
            match value {
                Some(v) => Some(v@),
                None => None,
            },
        ),
{
    match value {
        Some(v) => encode_present(column.column_type(), v),
        None => {
            if column.default_value().is_some() {
                String::from_str("DEFAULT")
            } else {
                String::from_str("NULL")
            }
        },
    }
}

} // verus!
