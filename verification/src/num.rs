//! Decimal rendering and parsing of unsigned numbers, specified by the
//! recursive functions `dec_str` and `dec_val`.

use vstd::prelude::*;
use vstd::string::*;

verus! {

/// The decimal digit character for a value below ten.
pub open spec fn digit_char(d: nat) -> char {
    ((48 + d) as char)
}

/// Whether `c` is a decimal digit.
pub open spec fn is_digit(c: char) -> bool {
    48 <= (c as u32) <= 57
}

/// The value of a decimal digit character.
pub open spec fn digit_val(c: char) -> nat {
    ((c as int) - 48) as nat
}

/// The decimal rendering of a natural number, most significant digit first.
pub open spec fn dec_str(n: nat) -> Seq<char>
    decreases n,
{
    if n < 10 {
        seq![digit_char(n)]
    } else {
        dec_str(n / 10).push(digit_char(n % 10))
    }
}

/// Whether every character of `s` is a decimal digit.
pub open spec fn all_digits(s: Seq<char>) -> bool {
    forall|i: int| 0 <= i < s.len() ==> is_digit(#[trigger] s[i])
}

/// The value of a sequence of decimal digits.
pub open spec fn dec_val(s: Seq<char>) -> nat
    decreases s.len(),
{
    if s.len() == 0 {
        0
    } else {
        dec_val(s.drop_last()) * 10 + digit_val(s.last())
    }
}

pub proof fn lemma_dec_str_val(n: nat)
    ensures
        dec_str(n).len() >= 1,
        all_digits(dec_str(n)),
        dec_val(dec_str(n)) == n,
    decreases n,
{
    if n < 10 {
        assert(dec_str(n) =~= seq![digit_char(n)]);
        assert(digit_val(digit_char(n)) == n);
        assert(dec_val(seq![digit_char(n)].drop_last()) == 0);
    } else {
        lemma_dec_str_val(n / 10);
        let t = dec_str(n / 10);
        let c = digit_char(n % 10);
        assert(t.push(c).drop_last() =~= t);
        assert(t.push(c).last() == c);
        assert(dec_val(t.push(c)) == (n / 10) * 10 + (n % 10));
        assert((n / 10) * 10 + (n % 10) == n);
        assert(forall|i: int|
            0 <= i < t.push(c).len() ==> is_digit(#[trigger] t.push(c)[i]));
    }
}

/// A digit value grows weakly as digits are appended.
pub proof fn lemma_dec_val_prefix(s: Seq<char>, k: int)
    requires
        0 <= k <= s.len(),
    ensures
        dec_val(s.take(k)) <= dec_val(s),
    decreases s.len() - k,
{
    if k == s.len() {
        assert(s.take(k) =~= s);
    } else {
        lemma_dec_val_prefix(s, k + 1);
        let t = s.take(k + 1);
        assert(t.drop_last() =~= s.take(k));
        assert(dec_val(t) == dec_val(s.take(k)) * 10 + digit_val(t.last()));
        assert(dec_val(s.take(k)) <= dec_val(s.take(k)) * 10);
    }
}

/// The digit character for a value below ten, as a string slice.
fn digit_str(d: u32) -> (r: &'static str)
    requires
        d < 10,
    ensures
        r@ == seq![digit_char(d as nat)],
{
    proof {
        reveal_strlit("0");
        reveal_strlit("1");
        reveal_strlit("2");
        reveal_strlit("3");
        reveal_strlit("4");
        reveal_strlit("5");
        reveal_strlit("6");
        reveal_strlit("7");
        reveal_strlit("8");
        reveal_strlit("9");
    }
    if d == 0 {
        proof {
            assert("0"@ =~= seq![digit_char(0)]);
        }
        "0"
    } else if d == 1 {
        proof {
            assert("1"@ =~= seq![digit_char(1)]);
        }
        "1"
    } else if d == 2 {
        proof {
            assert("2"@ =~= seq![digit_char(2)]);
        }
        "2"
    } else if d == 3 {
        proof {
            assert("3"@ =~= seq![digit_char(3)]);
        }
        "3"
    } else if d == 4 {
        proof {
            assert("4"@ =~= seq![digit_char(4)]);
        }
        "4"
    } else if d == 5 {
        proof {
            assert("5"@ =~= seq![digit_char(5)]);
        }
        "5"
    } else if d == 6 {
        proof {
            assert("6"@ =~= seq![digit_char(6)]);
        }
        "6"
    } else if d == 7 {
        proof {
            assert("7"@ =~= seq![digit_char(7)]);
        }
        "7"
    } else if d == 8 {
        proof {
            assert("8"@ =~= seq![digit_char(8)]);
        }
        "8"
    } else {
        proof {
            assert("9"@ =~= seq![digit_char(9)]);
        }
        "9"
    }
}

/// Renders an unsigned number in decimal.
pub fn u32_text(n: u32) -> (r: String)
    ensures
        r@ == dec_str(n as nat),
    decreases n,
{
    if n < 10 {
        let mut s = String::new();
        s.append(digit_str(n));
        proof {
            assert(Seq::<char>::empty() + seq![digit_char(n as nat)] =~= seq![
                digit_char(n as nat),
            ]);
        }
        s
    } else {
        let mut s = u32_text(n / 10);
        s.append(digit_str(n % 10));
        proof {
            assert(dec_str((n / 10) as nat) + seq![digit_char((n % 10) as nat)] =~= dec_str(
                (n / 10) as nat,
            ).push(digit_char((n % 10) as nat)));
        }
        s
    }
}

/// Parses a string of decimal digits into a `u32`; fails on an empty
/// string, a non-digit character, or a value above `u32::MAX`.
pub fn parse_u32(s: &str) -> (r: Option<u32>)
    ensures
        match r {
            Some(v) => s@.len() > 0 && all_digits(s@) && dec_val(s@) == v as nat,
            None => s@.len() == 0 || !all_digits(s@) || dec_val(s@) > u32::MAX,
        },
{
    let n: usize = s.unicode_len();
    if n == 0 {
        return None;
    }
    let mut acc: u64 = 0;
    let mut i: usize = 0;
    while i < n
        invariant
            i <= n,
            n == s@.len(),
            acc <= u32::MAX,
            forall|j: int| 0 <= j < i ==> is_digit(#[trigger] s@[j]),
            acc as nat == dec_val(s@.take(i as int)),
        decreases n - i,
    {
        let c = s.get_char(i);
        let cv = c as u32;
        if cv < 48 || cv > 57 {
            return None;
        }
        let d: u64 = (cv - 48) as u64;
        let next: u64 = acc * 10 + d;
        proof {
            let t = s@.take(i + 1);
            assert(t.drop_last() =~= s@.take(i as int));
            assert(t.last() == s@[i as int]);
            assert(digit_val(s@[i as int]) == d as nat);
            assert(dec_val(t) == dec_val(s@.take(i as int)) * 10 + d as nat);
        }
        if next > u32::MAX as u64 {
            proof {
                lemma_dec_val_prefix(s@, i + 1);
            }
            return None;
        }
        acc = next;
        i = i + 1;
    }
    proof {
        assert(s@.take(n as int) =~= s@);
    }
    Some(acc as u32)
}

/// Whether `s` is a signed decimal number that fits an `i32`: an optional
/// sign, then digits.
pub open spec fn int_ok(s: Seq<char>) -> bool {
    if s.len() > 0 && (s[0] == '+' || s[0] == '-') {
        let t = s.drop_first();
        t.len() > 0 && all_digits(t) && (if s[0] == '-' {
            dec_val(t) <= 0x8000_0000
        } else {
            dec_val(t) <= 0x7fff_ffff
        })
    } else {
        s.len() > 0 && all_digits(s) && dec_val(s) <= 0x7fff_ffff
    }
}

/// The value of a signed decimal number.
pub open spec fn int_val(s: Seq<char>) -> int {
    if s.len() > 0 && s[0] == '-' {
        -(dec_val(s.drop_first()) as int)
    } else if s.len() > 0 && s[0] == '+' {
        dec_val(s.drop_first()) as int
    } else {
        dec_val(s) as int
    }
}

/// The decimal rendering of a signed number.
pub open spec fn int_str(v: int) -> Seq<char> {
    if v < 0 {
        seq!['-'] + dec_str((-v) as nat)
    } else {
        dec_str(v as nat)
    }
}

/// Parses an optionally signed decimal number into an `i32`.
pub fn parse_i32(s: &str) -> (r: Option<i32>)
    ensures
        match r {
            Some(v) => int_ok(s@) && v as int == int_val(s@),
            None => !int_ok(s@),
        },
{
    let n: usize = s.unicode_len();
    if n == 0 {
        return None;
    }
    let c0 = s.get_char(0);
    let signed = c0 == '+' || c0 == '-';
    let digits: &str = if signed {
        s.substring_char(1, n)
    } else {
        s
    };
    proof {
        if signed {
            assert(digits@ =~= s@.drop_first());
        }
    }
    let mag = match parse_u32(digits) {
        Some(m) => m,
        None => {
            return None;
        },
    };
    if c0 == '-' {
        if mag == 0x8000_0000 {
            Some(i32::MIN)
        } else if mag < 0x8000_0000 {
            Some(-(mag as i32))
        } else {
            None
        }
    } else {
        if mag <= 0x7fff_ffff {
            Some(mag as i32)
        } else {
            None
        }
    }
}

/// Renders a signed number in decimal.
pub fn i32_text(n: i32) -> (r: String)
    ensures
        r@ == int_str(n as int),
{
    if n >= 0 {
        u32_text(n as u32)
    } else {
        proof {
            reveal_strlit("-");
            assert("-"@ =~= seq!['-']);
        }
        let wide: i64 = n as i64;
        let mag: u32 = (-wide) as u32;
        let mut out = String::from_str("-");
        let digits = u32_text(mag);
        out.append(digits.as_str());
        proof {
            assert(mag as nat == (-(n as int)) as nat);
        }
        out
    }
}

} // verus!
