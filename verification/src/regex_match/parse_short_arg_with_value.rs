//! The `-k value` argument shape.

use vstd::prelude::*;
use vstd::string::*;

use super::{short_with_value_shape, RegexMatch};
use crate::text;
use crate::text::trim_seq;

verus! {

/// Recognises `-k value` in the trimmed input.
pub fn parse(input: &str) -> (r: Option<RegexMatch>)
    ensures
        match r {
            Some(m) => m matches RegexMatch::ShortArgWithValue(k, v)
                && short_with_value_shape(trim_seq(input@)) && k@ == trim_seq(
                input@,
            ).subrange(1, 2) && v@ == trim_seq(input@).skip(3),
            None => !short_with_value_shape(trim_seq(input@)),
        },
{
    let t = text::trim(input);
    let n: usize = t.unicode_len();
    if n < 4 {
        return None;
    }
    if t.get_char(0) != '-' {
        return None;
    }
    if !crate::name::word_char(t.get_char(1)) {
        return None;
    }
    if !text::ws_char(t.get_char(2)) {
        return None;
    }
    let val = t.substring_char(3, n);
    let newline = text::find_char(val, '\n');
    match newline {
        Some(k) => {
            proof {
                assert(val@[k as int] == t@[3 + k]);
            }
            None
        },
        None => {
            proof {
                assert(forall|k: int| 3 <= k < t@.len() ==> #[trigger] t@[k] == val@[k - 3]);
            }
            Some(RegexMatch::ShortArgWithValue(t.substring_char(1, 2), val))
        },
    }
}

} // verus!
