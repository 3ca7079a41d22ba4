//! Durations written as text: one or more numbers, each followed by its
//! unit, such as `30s`, `10m` or `1h30m`.
//!
//! The units are `ms`, `s`, `m`, `h` and `d`. A duration is counted in
//! milliseconds.
use vstd::prelude::*;
use crate::text::{chars_of, is_digit, is_letter};

verus! {

/// The first index at or after `from` that holds no digit.
pub open spec fn digits_end(s: Seq<char>, from: int) -> int
    decreases s.len() - from,
{
    if from < 0 || from >= s.len() || !is_digit(s[from]) {
        from
    } else {
        digits_end(s, from + 1)
    }
}

/// The first index at or after `from` that holds no letter.
pub open spec fn letters_end(s: Seq<char>, from: int) -> int
    decreases s.len() - from,
{
    if from < 0 || from >= s.len() || !is_letter(s[from]) {
        from
    } else {
        letters_end(s, from + 1)
    }
}

/// The value of a decimal digit.
pub open spec fn digit_value(c: char) -> nat {
    (c as u32 - '0' as u32) as nat
}

/// The number that a run of digits denotes.
pub open spec fn number(digits: Seq<char>) -> nat
    decreases digits.len(),
{
    if digits.len() == 0 {
        0
    } else {
        number(digits.drop_last()) * 10 + digit_value(digits.last())
    }
}

/// The milliseconds in one of a unit, if it is a unit.
pub open spec fn unit_millis(unit: Seq<char>) -> Option<nat> {
    if unit == "ms"@ {
        Some(1)
    } else if unit == "s"@ {
        Some(1000)
    } else if unit == "m"@ {
        Some(60000)
    } else if unit == "h"@ {
        Some(3600000)
    } else if unit == "d"@ {
        Some(86400000)
    } else {
        None
    }
}

/// The milliseconds that the text from `at` on denotes: nothing at the end
/// of the text, else a number with its unit and what follows them. `None`
/// where the text from `at` on is not made of numbers with units.
pub open spec fn millis_from(s: Seq<char>, at: int) -> Option<nat>
    decreases s.len() - at,
{
    let number_end = digits_end(s, at);
    let unit_end = letters_end(s, number_end);
    if at < 0 || at >= s.len() {
        Some(0)
    } else if number_end == at || unit_end == number_end {
        None
    } else {
        proof {
            lemma_run_ends(s, at);
            lemma_run_ends(s, number_end);
        }
        match (unit_millis(s.subrange(number_end, unit_end)), millis_from(s, unit_end)) {
            (Some(unit), Some(rest)) => Some(number(s.subrange(at, number_end)) * unit + rest),
            _ => None,
        }
    }
}

/// The milliseconds that a text denotes. `None` where the text is empty
/// or not made of numbers with units.
pub open spec fn duration_millis(s: Seq<char>) -> Option<nat> {
    if s.len() == 0 {
        None
    } else {
        millis_from(s, 0)
    }
}

/// A run ends at or after its start, and within the text.
pub proof fn lemma_run_ends(s: Seq<char>, from: int)
    requires
        0 <= from <= s.len(),
    ensures
        from <= digits_end(s, from) <= s.len(),
        from <= letters_end(s, from) <= s.len(),
    decreases s.len() - from,
{
    if from < s.len() {
        lemma_run_ends(s, from + 1);
    }
}

proof fn lemma_digits_end(s: Seq<char>, from: int, to: int)
    requires
        0 <= from <= to <= s.len(),
        forall|j: int| from <= j < to ==> is_digit(#[trigger] s[j]),
    ensures
        digits_end(s, from) == digits_end(s, to),
        from <= digits_end(s, from) <= s.len(),
    decreases s.len() - from,
{
    if from < to {
        lemma_digits_end(s, from + 1, to);
    } else if from < s.len() && is_digit(s[from]) {
        lemma_digits_end(s, from + 1, from + 1);
    }
}

proof fn lemma_letters_end(s: Seq<char>, from: int, to: int)
    requires
        0 <= from <= to <= s.len(),
        forall|j: int| from <= j < to ==> is_letter(#[trigger] s[j]),
    ensures
        letters_end(s, from) == letters_end(s, to),
        from <= letters_end(s, from) <= s.len(),
    decreases s.len() - from,
{
    if from < to {
        lemma_letters_end(s, from + 1, to);
    } else if from < s.len() && is_letter(s[from]) {
        lemma_letters_end(s, from + 1, from + 1);
    }
}

/// The milliseconds in one of the unit that `chars` holds from `from` up
/// to `to`.
fn unit_of(chars: &Vec<char>, from: usize, to: usize) -> (r: Option<u64>)
    requires
        from < to <= chars.len(),
    ensures
        match r {
            Some(unit) => unit_millis(chars@.subrange(from as int, to as int)) == Some(
                unit as nat,
            ) && 0 < unit <= 86400000,
            None => unit_millis(chars@.subrange(from as int, to as int)) is None,
        },
{
    let ghost unit = chars@.subrange(from as int, to as int);
    proof {
        reveal_strlit("ms");
        reveal_strlit("s");
        reveal_strlit("m");
        reveal_strlit("h");
        reveal_strlit("d");
        assert(unit.len() == to - from);
        assert(unit[0] == chars@[from as int]);
        if to - from >= 2 {
            assert(unit[1] == chars@[from + 1]);
        }
    }
    if to - from == 2 {
        if chars[from] == 'm' && chars[from + 1] == 's' {
            assert(unit =~= "ms"@);
            Some(1)
        } else {
            None
        }
    } else if to - from == 1 {
        let c = chars[from];
        if c == 's' {
            assert(unit =~= "s"@);
            Some(1000)
        } else if c == 'm' {
            assert(unit =~= "m"@);
            Some(60000)
        } else if c == 'h' {
            assert(unit =~= "h"@);
            Some(3600000)
        } else if c == 'd' {
            assert(unit =~= "d"@);
            Some(86400000)
        } else {
            None
        }
    } else {
        None
    }
}

/// The duration that `s` denotes, in milliseconds. `None` where `s`
/// denotes no duration, and where the duration does not fit in 64 bits.
pub fn parse_duration(s: &str) -> (r: Option<u64>)
    ensures
        match r {
            Some(millis) => duration_millis(s@) == Some(millis as nat),
            None => duration_millis(s@) is None || duration_millis(s@)->0 > u64::MAX,
        },
{
    let chars = chars_of(s);
    let n = chars.len();
    if n == 0 {
        return None;
    }
    let ghost text = s@;
    let mut total: u64 = 0;
    let mut at: usize = 0;
    while at < n
        invariant
            at <= n,
            0 < n == chars.len(),
            chars@ == text,
            text == s@,
            match millis_from(text, at as int) {
                Some(rest) => millis_from(text, 0) == Some(total as nat + rest),
                None => millis_from(text, 0) is None,
            },
        decreases n - at,
    {
        // The number.
        let mut value: u64 = 0;
        let mut overflow = false;
        let mut number_end: usize = at;
        while number_end < n && '0' <= chars[number_end] && chars[number_end] <= '9'
            invariant
                at <= number_end <= n,
                n == chars.len(),
                chars@ == text,
                forall|j: int| at <= j < number_end ==> is_digit(#[trigger] text[j]),
                !overflow ==> value as nat == number(text.subrange(at as int, number_end as int)),
                overflow ==> number(text.subrange(at as int, number_end as int)) > u64::MAX,
            decreases n - number_end,
        {
            let ghost run = text.subrange(at as int, number_end + 1);
            proof {
                assert(run.drop_last() == text.subrange(at as int, number_end as int));
                assert(run.last() == text[number_end as int]);
            }
            let digit: u64 = (chars[number_end] as u32 - '0' as u32) as u64;
            if !overflow {
                if value > (u64::MAX - digit) / 10 {
                    overflow = true;
                } else {
                    value = value * 10 + digit;
                }
            }
            number_end += 1;
        }
        proof {
            lemma_digits_end(text, at as int, number_end as int);
        }
        // The unit.
        let mut unit_end: usize = number_end;
        while unit_end < n && is_unit_char(chars[unit_end])
            invariant
                number_end <= unit_end <= n,
                n == chars.len(),
                chars@ == text,
                forall|j: int| number_end <= j < unit_end ==> is_letter(#[trigger] text[j]),
            decreases n - unit_end,
        {
            unit_end += 1;
        }
        proof {
            lemma_letters_end(text, number_end as int, unit_end as int);
        }
        if number_end == at || unit_end == number_end {
            return None;
        }
        let unit = match unit_of(&chars, number_end, unit_end) {
            Some(unit) => unit,
            None => {
                return None;
            },
        };
        if overflow {
            proof {
                lemma_product_grows(number(text.subrange(at as int, number_end as int)), unit as nat);
            }
            return None;
        }
        if value > (u64::MAX - total) / unit {
            proof {
                lemma_product_exceeds(value as nat, unit as nat, (u64::MAX - total) as nat);
            }
            return None;
        }
        proof {
            lemma_product_fits(value as nat, unit as nat, (u64::MAX - total) as nat);
        }
        total = total + value * unit;
        at = unit_end;
    }
    Some(total)
}

fn is_unit_char(c: char) -> (r: bool)
    ensures
        r == is_letter(c),
{
    ('a' <= c && c <= 'z') || ('A' <= c && c <= 'Z')
}

proof fn lemma_product_grows(value: nat, unit: nat)
    requires
        unit >= 1,
    ensures
        value * unit >= value,
{
    assert(value * unit >= value) by (nonlinear_arith)
        requires
            unit >= 1,
    ;
}

proof fn lemma_product_exceeds(value: nat, unit: nat, room: nat)
    requires
        unit >= 1,
        value > room / unit,
    ensures
        value * unit > room,
{
    assert(value * unit > room) by (nonlinear_arith)
        requires
            unit >= 1,
            value > room / unit,
    ;
}

proof fn lemma_product_fits(value: nat, unit: nat, room: nat)
    requires
        unit >= 1,
        value <= room / unit,
    ensures
        value * unit <= room,
{
    assert(value * unit <= room) by (nonlinear_arith)
        requires
            unit >= 1,
            value <= room / unit,
    ;
}

} // verus!
