//! The `--key` argument shape.

use vstd::prelude::*;
use vstd::string::*;

use super::{long_no_value_shape, RegexMatch};
use crate::text;
use crate::text::trim_seq;

verus! {

/// Recognises `--key` in the trimmed input.
pub fn parse(input: &str) -> (r: Option<RegexMatch>)
    ensures
        match r {
            Some(m) => m matches RegexMatch::LongArg(k) && long_no_value_shape(
                trim_seq(input@),
            ) && k@ == trim_seq(input@).skip(2),
            None => !long_no_value_shape(trim_seq(input@)),
        },
{
    let t = text::trim(input);
    let n: usize = t.unicode_len();
    if n < 4 {
        return None;
    }
    if t.get_char(0) != '-' || t.get_char(1) != '-' {
        return None;
    }
    if !crate::name::word_char(t.get_char(2)) {
        return None;
    }
    let j = super::key_run(t, 2);
    if j != n {
        return None;
    }
    Some(RegexMatch::LongArg(t.substring_char(2, n)))
}

} // verus!
