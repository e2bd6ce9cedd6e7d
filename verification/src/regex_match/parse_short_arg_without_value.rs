//! The `-k` argument shape.

use vstd::prelude::*;
use vstd::string::*;

use super::{short_no_value_shape, RegexMatch};
use crate::text;
use crate::text::trim_seq;

verus! {

/// Recognises `-k` in the trimmed input.
pub fn parse(input: &str) -> (r: Option<RegexMatch>)
    ensures
        match r {
            Some(m) => m matches RegexMatch::ShortArg(k) && short_no_value_shape(
                trim_seq(input@),
            ) && k@ == trim_seq(input@).subrange(1, 2),
            None => !short_no_value_shape(trim_seq(input@)),
        },
{
    let t = text::trim(input);
    let n: usize = t.unicode_len();
    if n != 2 {
        return None;
    }
    if t.get_char(0) != '-' {
        return None;
    }
    if !crate::name::word_char(t.get_char(1)) {
        return None;
    }
    Some(RegexMatch::ShortArg(t.substring_char(1, 2)))
}

} // verus!
