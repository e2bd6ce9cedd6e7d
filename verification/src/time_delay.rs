//! A time delay in minutes for the `after` dependency: a strictly positive
//! number.

use vstd::prelude::*;
use vstd::string::*;

use crate::num;
use crate::num::{all_digits, dec_str, dec_val};
use crate::text;
use crate::text::clean_seq;

verus! {

/// Whether the cleaned text is a decimal number in `1..=u32::MAX`.
pub open spec fn time_delay_from_ok(s0: Seq<char>) -> bool {
    let s = clean_seq(s0);
    s.len() > 0 && all_digits(s) && 1 <= dec_val(s) <= u32::MAX
}

/// Errors raised when building a time delay.
#[derive(Debug, Clone, PartialEq, Eq)]
pub enum TimeDelayError {
    /// The text is not a strictly positive decimal number; carries the
    /// cleaned text.
    ParseIntError(String),
    /// The number is zero.
    TryFromIntError,
}

/// A strictly positive time delay in minutes.
#[derive(Debug, Clone, PartialEq, Eq, Hash)]
pub struct TimeDelay {
    minutes: u32,
}

impl View for TimeDelay {
    type V = u32;

    closed spec fn view(&self) -> u32 {
        self.minutes
    }
}

impl TimeDelay {
    /// Wraps a number of minutes; zero is rejected.
    pub fn new(value: u32) -> (r: Result<TimeDelay, TimeDelayError>)
        ensures
            r is Ok <==> value >= 1,
            r matches Ok(d) ==> d@ == value,
            r matches Err(e) ==> e == TimeDelayError::TryFromIntError,
    {
        if value == 0 {
            Err(TimeDelayError::TryFromIntError)
        } else {
            Ok(TimeDelay { minutes: value })
        }
    }

    /// Parses a strictly positive number, cleaning quotes and whitespace
    /// first.
    pub fn from_str(s: &str) -> (r: Result<TimeDelay, TimeDelayError>)
        ensures
            r is Ok <==> time_delay_from_ok(s@),
            r matches Ok(d) ==> d@ as nat == dec_val(clean_seq(s@)) && d@ >= 1,
            r matches Err(e) ==> e matches TimeDelayError::ParseIntError(t) && t@
                == clean_seq(s@),
    {
        let t = text::clean(s);
        match num::parse_u32(t) {
            Some(v) => {
                if v == 0 {
                    Err(TimeDelayError::ParseIntError(String::from_str(t)))
                } else {
                    Ok(TimeDelay { minutes: v })
                }
            },
            None => Err(TimeDelayError::ParseIntError(String::from_str(t))),
        }
    }

    /// The delay in minutes.
    pub fn get(&self) -> (r: u32)
        ensures
            r == self@,
    {
        self.minutes
    }

    /// Renders the delay in decimal.
    pub fn render(&self) -> (r: String)
        ensures
            r@ == dec_str(self@ as nat),
    {
        num::u32_text(self.minutes)
    }
}

} // verus!
