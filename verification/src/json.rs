//! The JSON text of a value, as it is stored in a `jsonb` column.
use vstd::prelude::*;
use crate::text::{chars_of, join, push_char, push_signed_decimal, signed_decimal};
use crate::value::{entries_view, values_view, Json, Object, Value};

verus! {

/// The character of the hexadecimal digit `d`.
pub open spec fn hex_digit_char(d: int) -> char {
    if d == 0 {
        '0'
    } else if d == 1 {
        '1'
    } else if d == 2 {
        '2'
    } else if d == 3 {
        '3'
    } else if d == 4 {
        '4'
    } else if d == 5 {
        '5'
    } else if d == 6 {
        '6'
    } else if d == 7 {
        '7'
    } else if d == 8 {
        '8'
    } else if d == 9 {
        '9'
    } else if d == 10 {
        'a'
    } else if d == 11 {
        'b'
    } else if d == 12 {
        'c'
    } else if d == 13 {
        'd'
    } else if d == 14 {
        'e'
    } else {
        'f'
    }
}

/// What one character of a string is written as in JSON text: a double
/// quote and a backslash after a backslash; a line feed, a carriage return
/// and a tab as `\n`, `\r` and `\t`; any other control character as `\u00`
/// and its two hexadecimal digits; every other character as it is.
pub open spec fn json_escape_char(c: char) -> Seq<char> {
    if c == '"' {
        seq!['\\', '"']
    } else if c == '\\' {
        seq!['\\', '\\']
    } else if c == '\n' {
        seq!['\\', 'n']
    } else if c == '\r' {
        seq!['\\', 'r']
    } else if c == '\t' {
        seq!['\\', 't']
    } else if (c as u32) < 0x20 {
        seq![
            '\\',
            'u',
            '0',
            '0',
            hex_digit_char((c as u32 / 16) as int),
            hex_digit_char((c as u32 % 16) as int),
        ]
    } else {
        seq![c]
    }
}

/// The characters of `s`, each written as JSON text writes it.
pub open spec fn json_escape(s: Seq<char>) -> Seq<char>
    decreases s.len(),
{
    if s.len() == 0 {
        Seq::empty()
    } else {
        json_escape(s.drop_last()) + json_escape_char(s.last())
    }
}

/// The JSON text of a string: its escaped characters between two double
/// quotes.
pub open spec fn json_string(s: Seq<char>) -> Seq<char> {
    seq!['"'] + json_escape(s) + seq!['"']
}

/// The JSON texts of the items of an array, one for one.
pub open spec fn json_items(items: Seq<Json>) -> Seq<Seq<char>>
    decreases items,
{
    Seq::new(
        items.len(),
        |i: int|
            if 0 <= i < items.len() {
                json_text(items[i])
            } else {
                Seq::empty()
            },
    )
}

/// The JSON texts of the entries of an object, one for one: the key as a
/// string, a colon, and the value.
pub open spec fn json_members(entries: Seq<(Seq<char>, Json)>) -> Seq<Seq<char>>
    decreases entries,
{
    Seq::new(
        entries.len(),
        |i: int|
            if 0 <= i < entries.len() {
                json_string(entries[i].0) + seq![':'] + json_text(entries[i].1)
            } else {
                Seq::empty()
            },
    )
}

/// The JSON text of a value, without any white space.
pub open spec fn json_text(v: Json) -> Seq<char>
    decreases v,
{
    match v {
        Json::Null => "null"@,
        Json::Bool(b) => if b {
            "true"@
        } else {
            "false"@
        },
        Json::Number(n) => signed_decimal(n),
        Json::Text(s) => json_string(s),
        Json::Array(items) => seq!['['] + join(json_items(items), seq![',']) + seq![']'],
        Json::Object(entries) => seq!['{'] + join(json_members(entries), seq![',']) + seq!['}'],
    }
}

fn hex_digit_of(d: u32) -> (c: char)
    requires
        d < 16,
    ensures
        c == hex_digit_char(d as int),
{
    if d == 0 {
        '0'
    } else if d == 1 {
        '1'
    } else if d == 2 {
        '2'
    } else if d == 3 {
        '3'
    } else if d == 4 {
        '4'
    } else if d == 5 {
        '5'
    } else if d == 6 {
        '6'
    } else if d == 7 {
        '7'
    } else if d == 8 {
        '8'
    } else if d == 9 {
        '9'
    } else if d == 10 {
        'a'
    } else if d == 11 {
        'b'
    } else if d == 12 {
        'c'
    } else if d == 13 {
        'd'
    } else if d == 14 {
        'e'
    } else {
        'f'
    }
}

fn push_json_char(out: &mut String, c: char)
    ensures
        final(out)@ == old(out)@ + json_escape_char(c),
{
    if c == '"' {
        push_char(out, '\\');
        push_char(out, '"');
    } else if c == '\\' {
        push_char(out, '\\');
        push_char(out, '\\');
    } else if c == '\n' {
        push_char(out, '\\');
        push_char(out, 'n');
    } else if c == '\r' {
        push_char(out, '\\');
        push_char(out, 'r');
    } else if c == '\t' {
        push_char(out, '\\');
        push_char(out, 't');
    } else if (c as u32) < 0x20 {
        let code: u32 = c as u32;
        push_char(out, '\\');
        push_char(out, 'u');
        push_char(out, '0');
        push_char(out, '0');
        push_char(out, hex_digit_of(code / 16));
        push_char(out, hex_digit_of(code % 16));
    } else {
        push_char(out, c);
    }
}

/// Appends the JSON text of the string `s` to `out`.
pub fn push_json_string(out: &mut String, s: &str)
    ensures
        final(out)@ == old(out)@ + json_string(s@),
{
    let chars = chars_of(s);
    let ghost before = out@;
    push_char(out, '"');
    let mut i: usize = 0;
    while i < chars.len()
        invariant
            i <= chars.len(),
            chars@ == s@,
            out@ == before + seq!['"'] + json_escape(s@.take(i as int)),
        decreases chars.len() - i,
    {
        proof {
            assert(s@.take(i + 1).drop_last() == s@.take(i as int));
        }
        push_json_char(out, chars[i]);
        i += 1;
    }
    proof {
        assert(s@.take(chars.len() as int) == s@);
    }
    push_char(out, '"');
}

/// Appends the JSON text of `v` to `out`.
#[verifier::loop_isolation(false)]
pub fn push_json(out: &mut String, v: &Value)
    ensures
        final(out)@ == old(out)@ + json_text(v@),
    decreases v,
{
    let ghost before = out@;
    match v {
        Value::Null => {
            out.append("null");
        },
        Value::Bool(b) => {
            if *b {
                out.append("true");
            } else {
                out.append("false");
            }
        },
        Value::Number(n) => {
            push_signed_decimal(out, *n);
        },
        Value::String(s) => {
            push_json_string(out, s.as_str());
        },
        Value::Array(items) => {
            let ghost parts = json_items(values_view(items@));
            push_char(out, '[');
            let mut i: usize = 0;
            while i < items.len()
                invariant
                    i <= items.len(),
                    out@ == before + seq!['['] + join(parts.take(i as int), seq![',']),
                decreases items.len() - i,
            {
                proof {
                    vstd::std_specs::vec::axiom_vec_index_decreases(*items, i as int);
                    assert(parts.take(i + 1).drop_last() == parts.take(i as int));
                    assert(parts.take(i + 1).last() == json_text(items@[i as int]@));
                }
                if i > 0 {
                    push_char(out, ',');
                }
                push_json(out, &items[i]);
                proof {
                    assert(out@ == before + seq!['['] + join(parts.take(i + 1), seq![',']));
                }
                i += 1;
            }
            proof {
                assert(parts.take(items.len() as int) == parts);
            }
            push_char(out, ']');
        },
        Value::Object(object) => {
            let ghost parts = json_members(entries_view(object.entries@));
            push_char(out, '{');
            let mut i: usize = 0;
            while i < object.entries.len()
                invariant
                    i <= object.entries.len(),
                    out@ == before + seq!['{'] + join(parts.take(i as int), seq![',']),
                decreases object.entries.len() - i,
            {
                proof {
                    vstd::std_specs::vec::axiom_vec_index_decreases(object.entries, i as int);
                    assert(parts.take(i + 1).drop_last() == parts.take(i as int));
                    assert(parts.take(i + 1).last() == json_string(object.entries@[i as int].0@)
                        + seq![':'] + json_text(object.entries@[i as int].1@));
                }
                if i > 0 {
                    push_char(out, ',');
                }
                push_json_string(out, object.entries[i].0.as_str());
                push_char(out, ':');
                push_json(out, &object.entries[i].1);
                proof {
                    assert(out@ == before + seq!['{'] + join(parts.take(i + 1), seq![',']));
                }
                i += 1;
            }
            proof {
                assert(parts.take(object.entries.len() as int) == parts);
            }
            push_char(out, '}');
        },
    }
}

impl Value {
    /// The JSON text of the value.
    pub fn to_json(&self) -> (r: String)
        ensures
            r@ == json_text(self@),
    {
        let mut r = String::new();
        push_json(&mut r, self);
        r
    }
}

impl Object {
    /// The JSON text of the object.
    pub fn to_json(&self) -> (r: String)
        ensures
            r@ == json_text(Json::Object(self@)),
    {
        let ghost members = json_members(self@);
        let mut r = String::new();
        push_char(&mut r, '{');
        let mut i: usize = 0;
        while i < self.entries.len()
            invariant
                i <= self.entries.len(),
                members == json_members(self@),
                r@ == seq!['{'] + join(members.take(i as int), seq![',']),
            decreases self.entries.len() - i,
        {
            proof {
                assert(members.take(i + 1).drop_last() == members.take(i as int));
                assert(members.take(i + 1).last() == json_string(self.entries@[i as int].0@)
                    + seq![':'] + json_text(self.entries@[i as int].1@));
            }
            if i > 0 {
                push_char(&mut r, ',');
            }
            push_json_string(&mut r, self.entries[i].0.as_str());
            push_char(&mut r, ':');
            push_json(&mut r, &self.entries[i].1);
            proof {
                assert(r@ == seq!['{'] + join(members.take(i + 1), seq![',']));
            }
            i += 1;
        }
        proof {
            assert(members.take(self.entries.len() as int) == members);
        }
        push_char(&mut r, '}');
        r
    }
}

} // verus!
