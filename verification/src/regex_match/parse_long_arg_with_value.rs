//! The `--key=value` and `--key value` argument shape.

use vstd::prelude::*;
use vstd::string::*;

use super::{long_with_value_shape, long_wv_key, long_wv_value, RegexMatch};
use crate::text;
use crate::text::trim_seq;

verus! {

/// Recognises `--key=value` or `--key value` in the trimmed input.
pub fn parse(input: &str) -> (r: Option<RegexMatch>)
    ensures
        match r {
            Some(m) => m matches RegexMatch::LongArgWithValue(k, v) && long_with_value_shape(
                trim_seq(input@),
            ) && k@ == long_wv_key(trim_seq(input@)) && v@ == long_wv_value(trim_seq(input@)),
            None => !long_with_value_shape(trim_seq(input@)),
        },
{
    let t = text::trim(input);
    let n: usize = t.unicode_len();
    if n <= 2 {
        return None;
    }
    if t.get_char(0) != '-' || t.get_char(1) != '-' {
        return None;
    }
    if !crate::name::word_char(t.get_char(2)) {
        return None;
    }
    let j = super::key_run(t, 2);
    if j < 4 {
        return None;
    }
    if j >= n {
        return None;
    }
    let c = t.get_char(j);
    if !(c == '=' || text::ws_char(c)) {
        return None;
    }
    if j + 1 >= n {
        return None;
    }
    let key = t.substring_char(2, j);
    let val = t.substring_char(j + 1, n);
    let newline = text::find_char(val, '\n');
    match newline {
        Some(k) => {
            proof {
                assert(val@[k as int] == t@[j + 1 + k]);
            }
            None
        },
        None => {
            proof {
                assert(forall|k: int|
                    j + 1 <= k < t@.len() ==> #[trigger] t@[k] == val@[k - (j + 1)]);
            }
            Some(RegexMatch::LongArgWithValue(key, val))
        },
    }
}

} // verus!
