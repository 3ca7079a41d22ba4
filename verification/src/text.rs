//! Text building blocks: characters of a string, decimal numerals, joined
//! lists, identifiers and quoted SQL literals.
//!
//! Every function states its result over `Seq<char>`, the view of `str` and
//! `String`.
use vstd::prelude::*;
use vstd::std_specs::iter::IteratorSpec;

verus! {

/// Appends one character to a string.
///
/// Trusted: this is `String::push` of the standard library, which is
/// documented to append the given character to the end of the string.
#[verifier::external_body]
pub(crate) fn push_char(out: &mut String, c: char)
    ensures
        final(out)@ == old(out)@.push(c),
{
    out.push(c);
}

/// The characters of `s`, in order.
pub fn chars_of(s: &str) -> (v: Vec<char>)
    ensures
        v@ == s@,
{
    broadcast use vstd::string::group_string_axioms;

    let mut v: Vec<char> = Vec::new();
    let mut it = s.chars();
    loop
        invariant
            it.obeys_prophetic_iter_laws(),
            it.decrease() is Some,
            v@ + it.remaining() == s@,
        ensures
            v@ == s@,
        decreases it.decrease()->0,
    {
        let next = it.next();
        match next {
            Some(c) => {
                v.push(c);
            },
            None => {
                break ;
            },
        }
    }
    v
}

/// Whether two string slices hold the same characters.
pub fn same_text(a: &str, b: &str) -> (r: bool)
    ensures
        r == (a@ == b@),
{
    let x = String::from_str(a);
    let y = String::from_str(b);
    x == y
}

/// The views of a sequence of strings.
pub open spec fn texts(items: Seq<String>) -> Seq<Seq<char>> {
    Seq::new(items.len(), |i: int| items[i]@)
}

// ---------------------------------------------------------------------
// Looking a name up in a list
// ---------------------------------------------------------------------
/// The index of the first occurrence of `name` in `names` at or after
/// `from`, or -1 where there is none.
pub open spec fn index_from(names: Seq<Seq<char>>, name: Seq<char>, from: int) -> int
    decreases names.len() - from,
{
    if from < 0 || from >= names.len() {
        -1
    } else if names[from] == name {
        from
    } else {
        index_from(names, name, from + 1)
    }
}

/// The index of the first occurrence of `name` in `names`, or -1.
pub open spec fn index_of(names: Seq<Seq<char>>, name: Seq<char>) -> int {
    index_from(names, name, 0)
}

/// What [`index_from`] returns, said without recursion.
pub proof fn lemma_index_from(names: Seq<Seq<char>>, name: Seq<char>, from: int)
    requires
        0 <= from,
    ensures
        ({
            let r = index_from(names, name, from);
            &&& r == -1 || (from <= r < names.len() && names[r] == name)
            &&& forall|j: int|
                from <= j < (if r == -1 {
                    names.len() as int
                } else {
                    r
                }) ==> names[j] != name
        }),
    decreases names.len() - from,
{
    if from < names.len() && names[from] != name {
        lemma_index_from(names, name, from + 1);
    }
}

/// What [`index_of`] returns, said without recursion: the first index that
/// holds `name`, or -1 where no index does.
pub proof fn lemma_index_of(names: Seq<Seq<char>>, name: Seq<char>)
    ensures
        ({
            let r = index_of(names, name);
            &&& r == -1 || (0 <= r < names.len() && names[r] == name)
            &&& forall|j: int|
                0 <= j < (if r == -1 {
                    names.len() as int
                } else {
                    r
                }) ==> names[j] != name
        }),
{
    lemma_index_from(names, name, 0);
}

/// An index that holds `name` with none before it that does is the one that
/// [`index_of`] returns.
pub proof fn lemma_index_of_is(names: Seq<Seq<char>>, name: Seq<char>, i: int)
    requires
        0 <= i < names.len(),
        names[i] == name,
        forall|j: int| 0 <= j < i ==> names[j] != name,
    ensures
        index_of(names, name) == i,
{
    lemma_index_of(names, name);
}

/// No index holds `name`: [`index_of`] returns -1.
pub proof fn lemma_index_of_none(names: Seq<Seq<char>>, name: Seq<char>)
    requires
        forall|j: int| 0 <= j < names.len() ==> names[j] != name,
    ensures
        index_of(names, name) == -1,
{
    lemma_index_of(names, name);
}

/// The views of a slice of string slices.
pub open spec fn strs(items: Seq<&str>) -> Seq<Seq<char>> {
    Seq::new(items.len(), |i: int| items[i]@)
}

/// The index of the first occurrence of `name` in `names`.
pub fn find_text(names: &Vec<String>, name: &str) -> (r: Option<usize>)
    ensures
        match r {
            Some(i) => i < names@.len() && i == index_of(texts(names@), name@),
            None => index_of(texts(names@), name@) == -1,
        },
{
    let mut i: usize = 0;
    while i < names.len()
        invariant
            i <= names.len(),
            forall|j: int| 0 <= j < i ==> texts(names@)[j] != name@,
        decreases names.len() - i,
    {
        if same_text(names[i].as_str(), name) {
            proof {
                lemma_index_of_is(texts(names@), name@, i as int);
            }
            return Some(i);
        }
        i += 1;
    }
    proof {
        lemma_index_of_none(texts(names@), name@);
    }
    None
}

/// Whether `name` is one of `names`.
pub fn listed(names: &[&str], name: &str) -> (r: bool)
    ensures
        r == (index_of(strs(names@), name@) >= 0),
{
    let mut i: usize = 0;
    while i < names.len()
        invariant
            i <= names.len(),
            forall|j: int| 0 <= j < i ==> strs(names@)[j] != name@,
        decreases names.len() - i,
    {
        if same_text(names[i], name) {
            proof {
                lemma_index_of_is(strs(names@), name@, i as int);
            }
            return true;
        }
        i += 1;
    }
    proof {
        lemma_index_of_none(strs(names@), name@);
    }
    false
}

// ---------------------------------------------------------------------
// Decimal numerals
// ---------------------------------------------------------------------
/// The character of the decimal digit `d`.
pub open spec fn digit_char(d: int) -> char {
    if d == 0 {
        '0'
    } else if d == 1 {
        '1'
    } else if d == 2 {
        '2'
    } else if d == 3 {
        '3'
    } else if d == 4 {
        '4'
    } else if d == 5 {
        '5'
    } else if d == 6 {
        '6'
    } else if d == 7 {
        '7'
    } else if d == 8 {
        '8'
    } else {
        '9'
    }
}

/// The decimal numeral of a natural number, without leading zeros.
pub open spec fn decimal(n: nat) -> Seq<char>
    decreases n,
{
    if n < 10 {
        seq![digit_char(n as int)]
    } else {
        decimal(n / 10).push(digit_char((n % 10) as int))
    }
}

/// The decimal numeral of an integer: a minus sign before the numeral of
/// the magnitude where the integer is negative.
pub open spec fn signed_decimal(i: int) -> Seq<char> {
    if i < 0 {
        seq!['-'] + decimal((-i) as nat)
    } else {
        decimal(i as nat)
    }
}

fn digit_of(d: u64) -> (c: char)
    requires
        d < 10,
    ensures
        c == digit_char(d as int),
{
    if d == 0 {
        '0'
    } else if d == 1 {
        '1'
    } else if d == 2 {
        '2'
    } else if d == 3 {
        '3'
    } else if d == 4 {
        '4'
    } else if d == 5 {
        '5'
    } else if d == 6 {
        '6'
    } else if d == 7 {
        '7'
    } else if d == 8 {
        '8'
    } else {
        '9'
    }
}

/// Appends the decimal numeral of `n` to `out`.
pub fn push_decimal(out: &mut String, n: u64)
    ensures
        final(out)@ == old(out)@ + decimal(n as nat),
    decreases n,
{
    if n >= 10 {
        push_decimal(out, n / 10);
    }
    push_char(out, digit_of(n % 10));
}

/// Appends the decimal numeral of the signed integer `i` to `out`.
pub fn push_signed_decimal(out: &mut String, i: i64)
    ensures
        final(out)@ == old(out)@ + signed_decimal(i as int),
{
    if i < 0 {
        push_char(out, '-');
        // The magnitude of the least `i64` does not fit in an `i64`.
        let magnitude: u64 = if i == i64::MIN {
            9223372036854775808u64
        } else {
            (-i) as u64
        };
        push_decimal(out, magnitude);
    } else {
        push_decimal(out, i as u64);
    }
}

/// The decimal numeral of `n` as a string.
pub fn decimal_string(n: u64) -> (r: String)
    ensures
        r@ == decimal(n as nat),
{
    let mut r = String::new();
    push_decimal(&mut r, n);
    r
}

// ---------------------------------------------------------------------
// Joined lists
// ---------------------------------------------------------------------
/// The items of `parts` with `sep` between each two neighbours.
pub open spec fn join(parts: Seq<Seq<char>>, sep: Seq<char>) -> Seq<char>
    decreases parts.len(),
{
    if parts.len() == 0 {
        Seq::empty()
    } else if parts.len() == 1 {
        parts[0]
    } else {
        join(parts.drop_last(), sep) + sep + parts.last()
    }
}

/// Joins `parts` with `sep` between each two neighbours.
pub fn join_strings(parts: &Vec<String>, sep: &str) -> (r: String)
    ensures
        r@ == join(texts(parts@), sep@),
{
    let mut r = String::new();
    let mut i: usize = 0;
    while i < parts.len()
        invariant
            i <= parts.len(),
            r@ == join(texts(parts@).take(i as int), sep@),
        decreases parts.len() - i,
    {
        proof {
            let next = texts(parts@).take(i + 1);
            assert(next.drop_last() == texts(parts@).take(i as int));
            assert(next.last() == parts@[i as int]@);
        }
        if i > 0 {
            r.append(sep);
        }
        r.append(parts[i].as_str());
        i += 1;
    }
    proof {
        assert(texts(parts@).take(parts.len() as int) == texts(parts@));
    }
    r
}

// ---------------------------------------------------------------------
// Identifiers
// ---------------------------------------------------------------------
/// An ASCII letter.
pub open spec fn is_letter(c: char) -> bool {
    ('a' <= c && c <= 'z') || ('A' <= c && c <= 'Z')
}

/// An ASCII decimal digit.
pub open spec fn is_digit(c: char) -> bool {
    '0' <= c && c <= '9'
}

/// A character that may stand in an identifier: a letter, a digit or an
/// underscore.
pub open spec fn is_identifier_char(c: char) -> bool {
    is_letter(c) || is_digit(c) || c == '_'
}

/// An identifier that can be written into a statement as it is: not empty,
/// made of letters, digits and underscores, and not starting with a digit.
pub open spec fn is_identifier(s: Seq<char>) -> bool {
    &&& s.len() > 0
    &&& !is_digit(s[0])
    &&& forall|i: int| 0 <= i < s.len() ==> is_identifier_char(#[trigger] s[i])
}

fn letter(c: char) -> (r: bool)
    ensures
        r == is_letter(c),
{
    ('a' <= c && c <= 'z') || ('A' <= c && c <= 'Z')
}

fn digit(c: char) -> (r: bool)
    ensures
        r == is_digit(c),
{
    '0' <= c && c <= '9'
}

/// Decides [`is_identifier`].
pub fn check_identifier(s: &str) -> (r: bool)
    ensures
        r == is_identifier(s@),
{
    let chars = chars_of(s);
    if chars.len() == 0 || digit(chars[0]) {
        return false;
    }
    let mut i: usize = 0;
    while i < chars.len()
        invariant
            i <= chars.len(),
            chars@ == s@,
            forall|j: int| 0 <= j < i ==> is_identifier_char(#[trigger] s@[j]),
        decreases chars.len() - i,
    {
        let c = chars[i];
        if !(letter(c) || digit(c) || c == '_') {
            return false;
        }
        i += 1;
    }
    true
}

// ---------------------------------------------------------------------
// Quoted literals
// ---------------------------------------------------------------------
/// What one character of a literal's content is written as: a single quote
/// is written twice, every other character as it is.
pub open spec fn escape_char(c: char) -> Seq<char> {
    if c == '\'' {
        seq!['\'', '\'']
    } else {
        seq![c]
    }
}

/// The content of a literal with every single quote doubled.
pub open spec fn escape_quotes(s: Seq<char>) -> Seq<char>
    decreases s.len(),
{
    if s.len() == 0 {
        Seq::empty()
    } else {
        escape_quotes(s.drop_last()) + escape_char(s.last())
    }
}

/// The SQL string literal that denotes `s`: the escaped content between two
/// single quotes.
pub open spec fn quote_literal(s: Seq<char>) -> Seq<char> {
    seq!['\''] + escape_quotes(s) + seq!['\'']
}

/// The content that an escaped text stands for: read from the end, two
/// single quotes stand for one, and any other character for itself.
pub open spec fn unescape_quotes(t: Seq<char>) -> Seq<char>
    decreases t.len(),
{
    if t.len() == 0 {
        Seq::empty()
    } else if t.last() == '\'' && t.len() >= 2 {
        unescape_quotes(t.take(t.len() - 2)).push('\'')
    } else {
        unescape_quotes(t.drop_last()).push(t.last())
    }
}

/// Escaping loses nothing: the content is read back from its escaped
/// text.
pub proof fn lemma_unescape_escaped(s: Seq<char>)
    ensures
        unescape_quotes(escape_quotes(s)) == s,
    decreases s.len(),
{
    if s.len() > 0 {
        let head = escape_quotes(s.drop_last());
        let t = escape_quotes(s);
        lemma_unescape_escaped(s.drop_last());
        if s.last() == '\'' {
            assert(t == head + seq!['\'', '\'']);
            assert(t.take(t.len() - 2) == head);
        } else {
            assert(t == head + seq![s.last()]);
            assert(t.drop_last() == head);
        }
        assert(s.drop_last().push(s.last()) == s);
    }
}

/// Two contents with the same literal are the same content: a literal
/// denotes one string and no other.
pub proof fn lemma_literal_denotes_one_string(a: Seq<char>, b: Seq<char>)
    requires
        quote_literal(a) == quote_literal(b),
    ensures
        a == b,
{
    let x = quote_literal(a);
    let y = quote_literal(b);
    assert(x.subrange(1, x.len() - 1) == escape_quotes(a));
    assert(y.subrange(1, y.len() - 1) == escape_quotes(b));
    lemma_unescape_escaped(a);
    lemma_unescape_escaped(b);
}

/// In an escaped text every single quote has a partner: read from the
/// start, the quotes come in pairs, so the text holds no quote that could
/// end the literal around it.
pub open spec fn quotes_paired(t: Seq<char>, from: int) -> bool
    decreases t.len() - from,
{
    if from < 0 || from >= t.len() {
        true
    } else if t[from] == '\'' {
        from + 1 < t.len() && t[from + 1] == '\'' && quotes_paired(t, from + 2)
    } else {
        quotes_paired(t, from + 1)
    }
}

/// Text whose quotes are paired from `from` on, followed by an escaped
/// character, has its quotes paired from `from` on.
proof fn lemma_paired_extends(t: Seq<char>, c: char, from: int)
    requires
        0 <= from <= t.len(),
        quotes_paired(t, from),
    ensures
        quotes_paired(t + escape_char(c), from),
    decreases t.len() - from,
{
    let u = t + escape_char(c);
    if from < t.len() {
        assert(u[from] == t[from]);
        if t[from] == '\'' {
            assert(u[from + 1] == t[from + 1]);
            lemma_paired_extends(t, c, from + 2);
        } else {
            lemma_paired_extends(t, c, from + 1);
        }
    } else {
        if c == '\'' {
            assert(u[from] == '\'');
            assert(u[from + 1] == '\'');
            assert(quotes_paired(u, from + 2));
        } else {
            assert(u[from] == c);
            assert(quotes_paired(u, from + 1));
        }
    }
}

/// The quotes of an escaped text are paired: whatever the content, the
/// literal ends at its last character and nowhere before.
pub proof fn lemma_escaped_quotes_are_paired(s: Seq<char>)
    ensures
        quotes_paired(escape_quotes(s), 0),
    decreases s.len(),
{
    if s.len() > 0 {
        lemma_escaped_quotes_are_paired(s.drop_last());
        lemma_paired_extends(escape_quotes(s.drop_last()), s.last(), 0);
    }
}

/// Appends the SQL string literal that denotes `s` to `out`.
pub fn push_literal(out: &mut String, s: &str)
    ensures
        final(out)@ == old(out)@ + quote_literal(s@),
{
    let chars = chars_of(s);
    let ghost before = out@;
    push_char(out, '\'');
    let mut i: usize = 0;
    while i < chars.len()
        invariant
            i <= chars.len(),
            chars@ == s@,
            out@ == before + seq!['\''] + escape_quotes(s@.take(i as int)),
        decreases chars.len() - i,
    {
        proof {
            assert(s@.take(i + 1).drop_last() == s@.take(i as int));
        }
        let c = chars[i];
        if c == '\'' {
            push_char(out, '\'');
            push_char(out, '\'');
        } else {
            push_char(out, c);
        }
        i += 1;
    }
    proof {
        assert(s@.take(chars.len() as int) == s@);
    }
    push_char(out, '\'');
}

/// The SQL string literal that denotes `s`.
pub fn literal(s: &str) -> (r: String)
    ensures
        r@ == quote_literal(s@),
{
    let mut r = String::new();
    push_literal(&mut r, s);
    r
}

} // verus!
