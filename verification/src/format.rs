//! Statement templates with named parameters.
//!
//! A parameter is written `${name}` in a template, where `name` is one or
//! more letters, digits and underscores. Where the parameters hold a value
//! under that name, the value stands in place of the parameter, encoded as
//! a value of a statement: a string as a quoted literal, so that no value
//! can change what the statement does. Any other text, and a parameter
//! without a value, is left as it is.
use vstd::prelude::*;
use crate::postgres::{encode_scalar, encoded_scalar};
use crate::text::{chars_of, is_identifier_char, push_char};
use crate::value::{lookup, Json, Object};

verus! {

/// The first index at or after `from` that holds no identifier character.
pub open spec fn name_end(template: Seq<char>, from: int) -> int
    decreases template.len() - from,
{
    if from < 0 || from >= template.len() || !is_identifier_char(template[from]) {
        from
    } else {
        name_end(template, from + 1)
    }
}

/// Whether a parameter starts at `at`: a dollar sign, an opening brace, a
/// name of at least one character, and a closing brace.
pub open spec fn parameter_at(template: Seq<char>, at: int) -> bool {
    &&& 0 <= at
    &&& at + 2 < template.len()
    &&& template[at] == '$'
    &&& template[at + 1] == '{'
    &&& name_end(template, at + 2) > at + 2
    &&& name_end(template, at + 2) < template.len()
    &&& template[name_end(template, at + 2)] == '}'
}

/// The name of the parameter that starts at `at`.
pub open spec fn parameter_name(template: Seq<char>, at: int) -> Seq<char> {
    template.subrange(at + 2, name_end(template, at + 2))
}

/// The template from `at` on, with each parameter that has a value
/// replaced by the value, encoded.
pub open spec fn expand_from(template: Seq<char>, params: Seq<(Seq<char>, Json)>, at: int) -> Seq<
    char,
>
    decreases template.len() - at,
{
    if at < 0 || at >= template.len() {
        Seq::empty()
    } else if parameter_at(template, at) && lookup(params, parameter_name(template, at)) is Some {
        encoded_scalar(lookup(params, parameter_name(template, at))->0) + expand_from(
            template,
            params,
            name_end(template, at + 2) + 1,
        )
    } else {
        seq![template[at]] + expand_from(template, params, at + 1)
    }
}

/// The template with each parameter that has a value replaced by the
/// value, encoded.
pub open spec fn expand(template: Seq<char>, params: Seq<(Seq<char>, Json)>) -> Seq<char> {
    expand_from(template, params, 0)
}

/// From an index inside a run of identifier characters, the run ends where
/// it ends from its start.
proof fn lemma_name_end_step(template: Seq<char>, from: int, to: int)
    requires
        0 <= from <= to <= template.len(),
        forall|j: int| from <= j < to ==> is_identifier_char(#[trigger] template[j]),
    ensures
        name_end(template, from) == name_end(template, to),
    decreases to - from,
{
    if from < to {
        lemma_name_end_step(template, from + 1, to);
    }
}

/// Without parameters that have a value, the template is left as it is.
pub proof fn lemma_expand_without_values(template: Seq<char>, at: int)
    requires
        0 <= at <= template.len(),
    ensures
        expand_from(template, Seq::empty(), at) == template.skip(at),
    decreases template.len() - at,
{
    if at < template.len() {
        lemma_expand_without_values(template, at + 1);
        assert(template.skip(at) == seq![template[at]] + template.skip(at + 1));
    }
}

/// Replaces each parameter of `query` that has a value in `params` by the
/// value, encoded. Without `params`, the result is `query`.
pub fn format_query(query: &str, params: Option<&Object>) -> (r: String)
    ensures
        r@ == match params {
            Some(params) => expand(query@, params@),
            None => query@,
        },
{
    let params = match params {
        Some(params) => params,
        None => {
            return String::from_str(query);
        },
    };
    let chars = chars_of(query);
    let ghost template = query@;
    let n = chars.len();
    let mut r = String::new();
    let mut i: usize = 0;
    while i < n
        invariant
            i <= n,
            n == chars.len(),
            chars@ == template,
            r@ + expand_from(template, params@, i as int) == expand(template, params@),
        decreases n - i,
    {
        let ghost before = r@;
        let mut replaced = false;
        if chars[i] == '$' && n - i > 2 && chars[i + 1] == '{' {
            // The name runs from `i + 2` up to `end`.
            let mut end: usize = i + 2;
            let mut name = String::new();
            while end < n && is_name_char(chars[end])
                invariant
                    i + 2 <= end <= n,
                    n == chars.len(),
                    chars@ == template,
                    name@ == template.subrange(i + 2, end as int),
                    forall|j: int| i + 2 <= j < end ==> is_identifier_char(#[trigger] template[j]),
                decreases n - end,
            {
                push_char(&mut name, chars[end]);
                end += 1;
            }
            proof {
                lemma_name_end_step(template, i + 2, end as int);
            }
            assert(name_end(template, i + 2) == end);
            if end > i + 2 && end < n && chars[end] == '}' {
                assert(parameter_at(template, i as int));
                match params.get(name.as_str()) {
                    Some(value) => {
                        let text = encode_scalar(value);
                        r.append(text.as_str());
                        proof {
                            assert(expand_from(template, params@, i as int) == text@ + expand_from(
                                template,
                                params@,
                                end + 1,
                            ));
                            assert(r@ + expand_from(template, params@, end + 1) == before + (text@
                                + expand_from(template, params@, end + 1)));
                        }
                        i = end + 1;
                        replaced = true;
                    },
                    None => {},
                }
            } else {
                assert(!parameter_at(template, i as int));
            }
        } else {
            assert(!parameter_at(template, i as int));
        }
        if !replaced {
            push_char(&mut r, chars[i]);
            proof {
                assert(r@ + expand_from(template, params@, i + 1) == before + (seq![template[i as int]]
                    + expand_from(template, params@, i + 1)));
            }
            i += 1;
        }
    }
    proof {
        assert(r@ + Seq::<char>::empty() == r@);
    }
    r
}

fn is_name_char(c: char) -> (r: bool)
    ensures
        r == is_identifier_char(c),
{
    ('a' <= c && c <= 'z') || ('A' <= c && c <= 'Z') || ('0' <= c && c <= '9') || c == '_'
}

} // verus!
