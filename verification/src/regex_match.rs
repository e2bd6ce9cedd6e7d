//! Recognition of command-line argument shapes: `--key=value`,
//! `--key value`, `--key`, `-k value`, and `-k`, after trimming outer
//! whitespace.

use vstd::prelude::*;
use vstd::string::*;

use crate::name::is_word_char;
use crate::text;
use crate::text::{is_ws, trim_seq};

mod parse_long_arg_with_value;
mod parse_long_arg_without_value;
mod parse_short_arg_with_value;
mod parse_short_arg_without_value;

verus! {

/// Whether `c` may appear in a long option key: a word character or `-`.
pub open spec fn key_char(c: char) -> bool {
    is_word_char(c) || c == '-'
}

/// The end of the run of key characters starting at `i`.
pub open spec fn run_end(t: Seq<char>, i: int) -> int
    decreases t.len() - i,
    when 0 <= i <= t.len()
{
    if i >= t.len() {
        i
    } else if !key_char(t[i]) {
        i
    } else {
        run_end(t, i + 1)
    }
}

pub proof fn lemma_run_end(t: Seq<char>, from: int, j: int)
    requires
        0 <= from <= j <= t.len(),
        forall|k: int| from <= k < j ==> key_char(t[k]),
        j == t.len() || !key_char(t[j]),
    ensures
        run_end(t, from) == j,
    decreases j - from,
{
    if from < j {
        lemma_run_end(t, from + 1, j);
    }
}

/// Whether the trimmed text has the shape `--key=value` or `--key value`:
/// a key of at least two characters starting with a word character, one
/// `=` or whitespace character, then a non-empty value on a single line.
pub open spec fn long_with_value_shape(t: Seq<char>) -> bool {
    let j = run_end(t, 2);
    &&& t.len() > 2
    &&& t[0] == '-'
    &&& t[1] == '-'
    &&& is_word_char(t[2])
    &&& j >= 4
    &&& j < t.len()
    &&& (t[j] == '=' || is_ws(t[j]))
    &&& j + 1 < t.len()
    &&& forall|k: int| j + 1 <= k < t.len() ==> t[k] != '\n'
}

/// The key of a `--key=value` argument.
pub open spec fn long_wv_key(t: Seq<char>) -> Seq<char> {
    t.subrange(2, run_end(t, 2))
}

/// The value of a `--key=value` argument.
pub open spec fn long_wv_value(t: Seq<char>) -> Seq<char> {
    t.skip(run_end(t, 2) + 1)
}

/// Whether the trimmed text has the shape `--key`: only key characters
/// after the dashes, at least two of them, the first a word character.
pub open spec fn long_no_value_shape(t: Seq<char>) -> bool {
    &&& t.len() >= 4
    &&& t[0] == '-'
    &&& t[1] == '-'
    &&& is_word_char(t[2])
    &&& run_end(t, 2) == t.len()
}

/// Whether the trimmed text has the shape `-k value`: one word character,
/// one whitespace character, then a non-empty value on a single line.
pub open spec fn short_with_value_shape(t: Seq<char>) -> bool {
    &&& t.len() >= 4
    &&& t[0] == '-'
    &&& is_word_char(t[1])
    &&& is_ws(t[2])
    &&& forall|k: int| 3 <= k < t.len() ==> t[k] != '\n'
}

/// Whether the trimmed text has the shape `-k`.
pub open spec fn short_no_value_shape(t: Seq<char>) -> bool {
    &&& t.len() == 2
    &&& t[0] == '-'
    &&& is_word_char(t[1])
}

/// Whether any of the four shapes matches.
pub open spec fn arg_shape_some(t: Seq<char>) -> bool {
    long_with_value_shape(t) || long_no_value_shape(t) || short_with_value_shape(t)
        || short_no_value_shape(t)
}

/// The key of a recognised argument, without its dashes, for the shape
/// that matches first.
pub open spec fn arg_key(t: Seq<char>) -> Seq<char> {
    if long_with_value_shape(t) {
        long_wv_key(t)
    } else if long_no_value_shape(t) {
        t.skip(2)
    } else {
        t.subrange(1, 2)
    }
}

/// The value of a recognised argument, for the shape that matches first.
pub open spec fn arg_value(t: Seq<char>) -> Option<Seq<char>> {
    if long_with_value_shape(t) {
        Some(long_wv_value(t))
    } else if long_no_value_shape(t) {
        None
    } else if short_with_value_shape(t) {
        Some(t.skip(3))
    } else {
        None
    }
}

/// Finds the end of the run of key characters starting at `from`.
fn key_run(s: &str, from: usize) -> (r: usize)
    requires
        from <= s@.len(),
    ensures
        r == run_end(s@, from as int),
        from <= r <= s@.len(),
        forall|k: int| from <= k < r ==> key_char(s@[k]),
        r == s@.len() || !key_char(s@[r as int]),
{
    let n: usize = s.unicode_len();
    let mut i: usize = from;
    while i < n && key_char_exec(s.get_char(i))
        invariant
            from <= i <= n,
            n == s@.len(),
            forall|k: int| from <= k < i ==> key_char(s@[k]),
        decreases n - i,
    {
        i = i + 1;
    }
    proof {
        lemma_run_end(s@, from as int, i as int);
    }
    i
}

/// Whether `c` is a key character.
fn key_char_exec(c: char) -> (b: bool)
    ensures
        b == key_char(c),
{
    crate::name::word_char(c) || c == '-'
}

/// One recognised command-line argument: its key and, for the shapes that
/// carry one, its value.
pub enum RegexMatch<'a> {
    /// A long argument without a value, e.g. `--option`.
    LongArg(&'a str),
    /// A long argument with a value, e.g. `--option=value`.
    LongArgWithValue(&'a str, &'a str),
    /// A short argument without a value, e.g. `-o`.
    ShortArg(&'a str),
    /// A short argument with a value, e.g. `-o value`.
    ShortArgWithValue(&'a str, &'a str),
}

impl<'a> RegexMatch<'a> {
    /// The key of the match, without its dashes.
    pub fn key(&self) -> (r: &'a str)
        ensures
            match self {
                RegexMatch::LongArg(k) => r@ == k@,
                RegexMatch::LongArgWithValue(k, _) => r@ == k@,
                RegexMatch::ShortArg(k) => r@ == k@,
                RegexMatch::ShortArgWithValue(k, _) => r@ == k@,
            },
    {
        match self {
            RegexMatch::LongArg(key) => key,
            RegexMatch::LongArgWithValue(key, _) => key,
            RegexMatch::ShortArg(key) => key,
            RegexMatch::ShortArgWithValue(key, _) => key,
        }
    }

    /// The value of the match, for the shapes that carry one.
    pub fn value(&self) -> (r: Option<&'a str>)
        ensures
            match self {
                RegexMatch::LongArg(_) => r is None,
                RegexMatch::LongArgWithValue(_, v) => r matches Some(rv) && rv@ == v@,
                RegexMatch::ShortArg(_) => r is None,
                RegexMatch::ShortArgWithValue(_, v) => r matches Some(rv) && rv@ == v@,
            },
    {
        match self {
            RegexMatch::LongArg(_) => None,
            RegexMatch::LongArgWithValue(_, value) => Some(value),
            RegexMatch::ShortArg(_) => None,
            RegexMatch::ShortArgWithValue(_, value) => Some(value),
        }
    }

    /// Recognises the argument shape, trying the long forms first.
    pub fn from_str(value: &'a str) -> (r: Option<RegexMatch<'a>>)
        ensures
            match r {
                None => !arg_shape_some(trim_seq(value@)),
                Some(m) => match m {
                    RegexMatch::LongArgWithValue(k, v) => long_with_value_shape(
                        trim_seq(value@),
                    ) && k@ == long_wv_key(trim_seq(value@)) && v@ == long_wv_value(
                        trim_seq(value@),
                    ),
                    RegexMatch::LongArg(k) => !long_with_value_shape(trim_seq(value@))
                        && long_no_value_shape(trim_seq(value@)) && k@ == trim_seq(
                        value@,
                    ).skip(2),
                    RegexMatch::ShortArgWithValue(k, v) => !long_with_value_shape(
                        trim_seq(value@),
                    ) && !long_no_value_shape(trim_seq(value@)) && short_with_value_shape(
                        trim_seq(value@),
                    ) && k@ == trim_seq(value@).subrange(1, 2) && v@ == trim_seq(
                        value@,
                    ).skip(3),
                    RegexMatch::ShortArg(k) => !long_with_value_shape(trim_seq(value@))
                        && !long_no_value_shape(trim_seq(value@)) && !short_with_value_shape(
                        trim_seq(value@),
                    ) && short_no_value_shape(trim_seq(value@)) && k@ == trim_seq(
                        value@,
                    ).subrange(1, 2),
                },
            },
    {
        match parse_long_arg_with_value::parse(value) {
            Some(m) => {
                return Some(m);
            },
            None => {},
        }
        match parse_long_arg_without_value::parse(value) {
            Some(m) => {
                return Some(m);
            },
            None => {},
        }
        match parse_short_arg_with_value::parse(value) {
            Some(m) => {
                return Some(m);
            },
            None => {},
        }
        parse_short_arg_without_value::parse(value)
    }
}

} // verus!
