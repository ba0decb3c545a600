use vstd::prelude::*;

use crate::text::push_char;

verus! {

pub open spec fn is_ascii_upper(c: char) -> bool {
    'A' <= c && c <= 'Z'
}

/// `c` with an ASCII capital letter mapped to its small letter.
pub open spec fn ascii_lower(c: char) -> char {
    if is_ascii_upper(c) {
        ((c as u32) + 32) as char
    } else {
        c
    }
}

pub open spec fn is_word_separator(c: char) -> bool {
    c == '_' || c == '-' || c == ' '
}

/// The text written so far and whether the last character read was a
/// separator, after reading `ch` at position `i`: a run of separators
/// becomes one `sep` (none at the start), a capital letter after a
/// non-separator gets `sep` before it, and letters are written small.
pub open spec fn fold_step(st: (Seq<char>, bool), i: int, ch: char, sep: char) -> (Seq<char>, bool) {
    if is_word_separator(ch) {
        (
            if !st.1 && st.0.len() > 0 {
                st.0.push(sep)
            } else {
                st.0
            },
            true,
        )
    } else {
        let o = if i > 0 && is_ascii_upper(ch) && !st.1 {
            st.0.push(sep)
        } else {
            st.0
        };
        (o.push(ascii_lower(ch)), false)
    }
}

/// The state after reading all of `s`.
pub open spec fn fold_words(s: Seq<char>, sep: char) -> (Seq<char>, bool)
    decreases s.len(),
{
    if s.len() == 0 {
        (Seq::empty(), false)
    } else {
        fold_step(fold_words(s.drop_last(), sep), s.len() - 1, s.last(), sep)
    }
}

/// Relies on char::to_ascii_lowercase: capitals A to Z become small, all else
/// is kept.
#[verifier::external_body]
fn lower_char(c: char) -> (r: char)
    ensures
        r == ascii_lower(c),
{
    c.to_ascii_lowercase()
}

fn fold_with(input: &str, sep: char) -> (r: String)
    ensures
        r@ == fold_words(input@, sep).0,
{
    let n = input.unicode_len();
    let mut out = String::new();
    let mut prev_is_sep = false;
    let mut i: usize = 0;
    while i < n
        invariant
            n == input@.len(),
            i <= n,
            (out@, prev_is_sep) == fold_words(input@.subrange(0, i as int), sep),
        decreases n - i,
    {
        let ch = input.get_char(i);
        assert(input@.subrange(0, i + 1).drop_last() =~= input@.subrange(0, i as int));
        assert(input@.subrange(0, i + 1).last() == ch);
        if ch == '_' || ch == '-' || ch == ' ' {
            if !prev_is_sep && out.unicode_len() > 0 {
                push_char(&mut out, sep);
            }
            prev_is_sep = true;
        } else {
            let is_upper = 'A' <= ch && ch <= 'Z';
            if i > 0 && is_upper && !prev_is_sep {
                push_char(&mut out, sep);
            }
            push_char(&mut out, lower_char(ch));
            prev_is_sep = false;
        }
        i = i + 1;
    }
    assert(input@.subrange(0, n as int) =~= input@);
    out
}

/// `input` in kebab case: words split at separators (`_`, `-`, space) and
/// before capitals, joined by `-`, in small letters.
pub fn to_kebab(input: &str) -> (r: String)
    ensures
        r@ == fold_words(input@, '-').0,
{
    fold_with(input, '-')
}

/// `input` in snake case: words split at separators (`_`, `-`, space) and
/// before capitals, joined by `_`, in small letters.
pub fn to_snake(input: &str) -> (r: String)
    ensures
        r@ == fold_words(input@, '_').0,
{
    fold_with(input, '_')
}

/// `input` with every ASCII capital made small.
pub fn ascii_lowercase(input: &str) -> (r: String)
    ensures
        r@ == input@.map_values(|c: char| ascii_lower(c)),
{
    let n = input.unicode_len();
    let mut out = String::new();
    let mut i: usize = 0;
    while i < n
        invariant
            n == input@.len(),
            i <= n,
            out@ == input@.subrange(0, i as int).map_values(|c: char| ascii_lower(c)),
        decreases n - i,
    {
        let ch = input.get_char(i);
        push_char(&mut out, lower_char(ch));
        assert(input@.subrange(0, i + 1).map_values(|c: char| ascii_lower(c)) =~= input@.subrange(
            0,
            i as int,
        ).map_values(|c: char| ascii_lower(c)).push(ascii_lower(ch)));
        i = i + 1;
    }
    assert(input@.subrange(0, n as int) =~= input@);
    out
}

/// The spellings under which a component may be found: as given, in kebab
/// case, in snake case, and in small letters.
pub fn name_variants(name: &str) -> (r: Vec<String>)
    ensures
        r@.len() == 4,
        r@[0]@ == name@,
        r@[1]@ == fold_words(name@, '-').0,
        r@[2]@ == fold_words(name@, '_').0,
        r@[3]@ == name@.map_values(|c: char| ascii_lower(c)),
{
    let mut v: Vec<String> = Vec::new();
    v.push(name.to_owned());
    v.push(to_kebab(name));
    v.push(to_snake(name));
    v.push(ascii_lowercase(name));
    v
}

} // verus!
