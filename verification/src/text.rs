//! Character-level helpers shared by every parser in the crate: whitespace
//! trimming, quote stripping, prefix matching, character search, and string
//! equality, each specified over the `Seq<char>` view of `&str`.

use vstd::prelude::*;
use vstd::string::*;

verus! {

/// ASCII whitespace; the only whitespace the `sbatch` grammar accepts.
pub open spec fn is_ws(c: char) -> bool {
    c == ' ' || c == '\t' || c == '\n' || c == '\r'
}

/// The sequence with leading whitespace removed.
pub open spec fn trim_front(s: Seq<char>) -> Seq<char>
    decreases s.len(),
{
    if s.len() > 0 && is_ws(s[0]) {
        trim_front(s.drop_first())
    } else {
        s
    }
}

/// The sequence with trailing whitespace removed.
pub open spec fn trim_back(s: Seq<char>) -> Seq<char>
    decreases s.len(),
{
    if s.len() > 0 && is_ws(s.last()) {
        trim_back(s.drop_last())
    } else {
        s
    }
}

/// The sequence with both leading and trailing whitespace removed.
pub open spec fn trim_seq(s: Seq<char>) -> Seq<char> {
    trim_back(trim_front(s))
}

proof fn lemma_trim_front_skip(s: Seq<char>, k: int)
    requires
        0 <= k <= s.len(),
        forall|j: int| 0 <= j < k ==> is_ws(s[j]),
        k == s.len() || !is_ws(s[k]),
    ensures
        trim_front(s) == s.skip(k),
    decreases k,
{
    if k == 0 {
        assert(s.skip(0) =~= s);
    } else {
        assert(is_ws(s[0]));
        let t = s.drop_first();
        assert(forall|j: int| 0 <= j < k - 1 ==> is_ws(#[trigger] t[j]));
        lemma_trim_front_skip(t, k - 1);
        assert(t.skip(k - 1) =~= s.skip(k));
    }
}

proof fn lemma_trim_back_take(s: Seq<char>, m: int)
    requires
        0 <= m <= s.len(),
        forall|j: int| m <= j < s.len() ==> is_ws(s[j]),
        m == 0 || !is_ws(s[m - 1]),
    ensures
        trim_back(s) == s.take(m),
    decreases s.len() - m,
{
    if m == s.len() {
        assert(s.take(m) =~= s);
    } else {
        assert(is_ws(s.last()));
        let t = s.drop_last();
        lemma_trim_back_take(t, m);
        assert(t.take(m) =~= s.take(m));
    }
}

/// Whether `c` is ASCII whitespace.
pub fn ws_char(c: char) -> (b: bool)
    ensures
        b == is_ws(c),
{
    c == ' ' || c == '\t' || c == '\n' || c == '\r'
}

/// Removes leading and trailing ASCII whitespace.
pub fn trim(s: &str) -> (r: &str)
    ensures
        r@ == trim_seq(s@),
{
    let n: usize = s.unicode_len();
    let mut a: usize = 0;
    while a < n && ws_char(s.get_char(a))
        invariant
            a <= n,
            n == s@.len(),
            forall|j: int| 0 <= j < a ==> is_ws(s@[j]),
        decreases n - a,
    {
        a = a + 1;
    }
    if a == n {
        proof {
            lemma_trim_front_skip(s@, a as int);
            assert(s@.skip(n as int) =~= Seq::<char>::empty());
            assert(trim_back(Seq::<char>::empty()) == Seq::<char>::empty());
        }
        s.substring_char(n, n)
    } else {
        let mut b: usize = n - 1;
        while b > a && ws_char(s.get_char(b))
            invariant
                a <= b < n,
            n == s@.len(),
            !is_ws(s@[a as int]),
            forall|j: int| b < j < n ==> is_ws(s@[j]),
            decreases b,
        {
            b = b - 1;
        }
        proof {
            lemma_trim_front_skip(s@, a as int);
            let t = s@.skip(a as int);
            let m = b + 1 - a;
            assert(!is_ws(s@[b as int]));
            assert(forall|j: int| m <= j < t.len() ==> is_ws(#[trigger] t[j]));
            assert(t[m - 1] == s@[b as int]);
            lemma_trim_back_take(t, m as int);
            assert(t.take(m as int) =~= s@.subrange(a as int, b + 1));
        }
        s.substring_char(a, b + 1)
    }
}

/// Whether the views of the two strings are equal.
pub fn str_eq(a: &str, b: &str) -> (r: bool)
    ensures
        r == (a@ == b@),
{
    let n: usize = a.unicode_len();
    if n != b.unicode_len() {
        return false;
    }
    let mut i: usize = 0;
    while i < n
        invariant
            i <= n,
            n == a@.len(),
            n == b@.len(),
            forall|j: int| 0 <= j < i ==> a@[j] == b@[j],
        decreases n - i,
    {
        if a.get_char(i) != b.get_char(i) {
            return false;
        }
        i = i + 1;
    }
    proof {
        assert(a@ =~= b@);
    }
    true
}

/// The index of the first occurrence of `c`, if any.
pub fn find_char(s: &str, c: char) -> (r: Option<usize>)
    ensures
        match r {
            Some(i) => i < s@.len() && s@[i as int] == c && forall|j: int|
                0 <= j < i ==> s@[j] != c,
            None => forall|j: int| 0 <= j < s@.len() ==> s@[j] != c,
        },
{
    let n: usize = s.unicode_len();
    let mut i: usize = 0;
    while i < n
        invariant
            i <= n,
            n == s@.len(),
            forall|j: int| 0 <= j < i ==> s@[j] != c,
        decreases n - i,
    {
        if s.get_char(i) == c {
            return Some(i);
        }
        i = i + 1;
    }
    None
}

/// Whether `c` occurs in `s`.
pub fn contains_char(s: &str, c: char) -> (r: bool)
    ensures
        r == s@.contains(c),
{
    let found = find_char(s, c);
    match found {
        Some(i) => {
            proof {
                assert(s@[i as int] == c);
            }
            true
        },
        None => {
            proof {
                assert(forall|j: int| 0 <= j < s@.len() ==> s@[j] != c);
            }
            false
        },
    }
}

/// The sequence with one matching pair of surrounding single or double
/// quotes removed.
pub open spec fn unquote_seq(s: Seq<char>) -> Seq<char> {
    if s.len() >= 2 && s[0] == '\'' && s.last() == '\'' {
        s.subrange(1, s.len() - 1)
    } else if s.len() >= 2 && s[0] == '"' && s.last() == '"' {
        s.subrange(1, s.len() - 1)
    } else {
        s
    }
}

/// An operand or clause cleaned for parsing: one layer of matching quotes
/// removed, then outer whitespace trimmed.
pub open spec fn clean_seq(s: Seq<char>) -> Seq<char> {
    trim_seq(unquote_seq(s))
}

/// Removes one matching pair of surrounding single or double quotes.
pub fn unquote(s: &str) -> (r: &str)
    ensures
        r@ == unquote_seq(s@),
{
    let n: usize = s.unicode_len();
    if n >= 2 {
        let first = s.get_char(0);
        let last = s.get_char(n - 1);
        if (first == '\'' && last == '\'') || (first == '"' && last == '"') {
            return s.substring_char(1, n - 1);
        }
    }
    s
}

/// Removes one matching pair of quotes, then trims outer whitespace.
pub fn clean(s: &str) -> (r: &str)
    ensures
        r@ == clean_seq(s@),
{
    trim(unquote(s))
}

/// Cleaning leaves a sequence unchanged when its ends are neither
/// whitespace nor a matching pair of quotes.
pub proof fn lemma_clean_id(s: Seq<char>)
    requires
        s.len() > 0,
        !is_ws(s[0]),
        !is_ws(s.last()),
        !(s[0] == '\'' && s.last() == '\''),
        !(s[0] == '"' && s.last() == '"'),
    ensures
        clean_seq(s) == s,
{
    assert(unquote_seq(s) == s);
    assert(trim_front(s) == s);
    assert(trim_back(s) == s);
}

/// The sequence with one matching pair of surrounding double quotes removed.
pub open spec fn unquote_double_seq(s: Seq<char>) -> Seq<char> {
    if s.len() >= 2 && s[0] == '"' && s.last() == '"' {
        s.subrange(1, s.len() - 1)
    } else {
        s
    }
}

/// Removes one matching pair of surrounding double quotes.
pub fn unquote_double(s: &str) -> (r: &str)
    ensures
        r@ == unquote_double_seq(s@),
{
    let n: usize = s.unicode_len();
    if n >= 2 {
        let first = s.get_char(0);
        let last = s.get_char(n - 1);
        if first == '"' && last == '"' {
            return s.substring_char(1, n - 1);
        }
    }
    s
}

/// How many times `c` occurs in `s`.
pub open spec fn count_occ(s: Seq<char>, c: char) -> nat
    decreases s.len(),
{
    if s.len() == 0 {
        0
    } else {
        (if s[0] == c {
            1nat
        } else {
            0nat
        }) + count_occ(s.drop_first(), c)
    }
}

/// The index of the first occurrence of `c`; meaningful only when one
/// exists.
pub open spec fn first_occ(s: Seq<char>, c: char) -> int
    decreases s.len(),
{
    if s.len() == 0 {
        0
    } else if s[0] == c {
        0
    } else {
        1 + first_occ(s.drop_first(), c)
    }
}

pub proof fn lemma_count_none(s: Seq<char>, c: char)
    ensures
        (forall|j: int| 0 <= j < s.len() ==> s[j] != c) <==> count_occ(s, c) == 0,
    decreases s.len(),
{
    if s.len() > 0 {
        lemma_count_none(s.drop_first(), c);
        if count_occ(s, c) == 0 {
            assert(forall|j: int|
                1 <= j < s.len() ==> #[trigger] s[j] == s.drop_first()[j - 1]);
        }
    }
}

pub proof fn lemma_first_occ(s: Seq<char>, c: char, i: int)
    requires
        0 <= i < s.len(),
        s[i] == c,
        forall|j: int| 0 <= j < i ==> s[j] != c,
    ensures
        first_occ(s, c) == i,
        count_occ(s, c) == 1 + count_occ(s.skip(i + 1), c),
    decreases i,
{
    if i == 0 {
        assert(s.drop_first() =~= s.skip(1));
    } else {
        let t = s.drop_first();
        assert(forall|j: int| 0 <= j < i - 1 ==> #[trigger] t[j] == s[j + 1]);
        lemma_first_occ(t, c, i - 1);
        assert(t.skip(i) =~= s.skip(i + 1));
    }
}

/// Whether `p` is a prefix of `s`.
pub open spec fn has_prefix(s: Seq<char>, p: Seq<char>) -> bool {
    p.len() <= s.len() && s.subrange(0, p.len() as int) == p
}

/// The views of a sequence of string slices.
pub open spec fn views_of_strs(l: Seq<&str>) -> Seq<Seq<char>> {
    l.map_values(|t: &str| t@)
}

/// The tokens of `s` split at every occurrence of `c`. Splitting the empty
/// sequence yields one empty token.
pub open spec fn split_seq(s: Seq<char>, c: char) -> Seq<Seq<char>>
    decreases s.len(),
{
    if s.len() == 0 {
        seq![Seq::<char>::empty()]
    } else if s[0] == c {
        seq![Seq::<char>::empty()] + split_seq(s.drop_first(), c)
    } else {
        let r = split_seq(s.drop_first(), c);
        seq![seq![s[0]] + r[0]] + r.drop_first()
    }
}

pub proof fn lemma_split_len(s: Seq<char>, c: char)
    ensures
        split_seq(s, c).len() == count_occ(s, c) + 1,
    decreases s.len(),
{
    if s.len() > 0 {
        lemma_split_len(s.drop_first(), c);
    }
}

/// Splitting separates the part before the first separator from the split
/// of the part after it.
pub proof fn lemma_split_at_first(s: Seq<char>, c: char)
    ensures
        count_occ(s, c) == 0 ==> split_seq(s, c) == seq![s],
        count_occ(s, c) > 0 ==> 0 <= first_occ(s, c) < s.len() && split_seq(s, c) == seq![
            s.take(first_occ(s, c)),
        ] + split_seq(s.skip(first_occ(s, c) + 1), c),
    decreases s.len(),
{
    lemma_split_len(s, c);
    if s.len() == 0 {
        assert(split_seq(s, c) =~~= seq![s]);
    } else if s[0] == c {
        assert(s.take(0) =~= Seq::<char>::empty());
        assert(s.skip(1) =~= s.drop_first());
        assert(split_seq(s, c) =~~= seq![s.take(first_occ(s, c))] + split_seq(
            s.skip(first_occ(s, c) + 1),
            c,
        ));
    } else {
        let t = s.drop_first();
        lemma_split_at_first(t, c);
        lemma_split_len(t, c);
        let r = split_seq(t, c);
        if count_occ(s, c) == 0 {
            assert(count_occ(t, c) == 0);
            assert(r == seq![t]);
            assert(seq![s[0]] + r[0] =~= s);
            assert(r.drop_first() =~= Seq::<Seq<char>>::empty());
            assert(split_seq(s, c) =~~= seq![s]);
        } else {
            assert(count_occ(t, c) > 0);
            let ft = first_occ(t, c);
            assert(first_occ(s, c) == 1 + ft);
            assert(r[0] == t.take(ft));
            assert(seq![s[0]] + t.take(ft) =~= s.take(1 + ft));
            assert(r.drop_first() =~= split_seq(t.skip(ft + 1), c));
            assert(t.skip(ft + 1) =~= s.skip(1 + ft + 1));
            assert(split_seq(s, c) =~~= seq![s.take(first_occ(s, c))] + split_seq(
                s.skip(first_occ(s, c) + 1),
                c,
            ));
        }
    }
}

/// Splits `s` at every occurrence of `c`.
pub fn split_str<'a>(s: &'a str, c: char) -> (v: Vec<&'a str>)
    ensures
        views_of_strs(v@) == split_seq(s@, c),
{
    let mut v: Vec<&'a str> = Vec::new();
    let mut rest: &'a str = s;
    proof {
        assert(views_of_strs(v@) + split_seq(rest@, c) =~= split_seq(s@, c));
    }
    loop
        invariant
            split_seq(s@, c) == views_of_strs(v@) + split_seq(rest@, c),
        decreases rest@.len(),
    {
        let found = find_char(rest, c);
        match found {
            None => {
                proof {
                    lemma_count_none(rest@, c);
                    lemma_split_at_first(rest@, c);
                }
                let ghost prev = views_of_strs(v@);
                v.push(rest);
                proof {
                    assert(views_of_strs(v@) =~= prev.push(rest@));
                    assert(prev.push(rest@) =~= prev + seq![rest@]);
                    assert(views_of_strs(v@) =~= split_seq(s@, c));
                }
                return v;
            },
            Some(i) => {
                proof {
                    lemma_first_occ(rest@, c, i as int);
                    lemma_split_at_first(rest@, c);
                }
                let n: usize = rest.unicode_len();
                let tok = rest.substring_char(0, i);
                let new_rest = rest.substring_char(i + 1, n);
                let ghost prev = views_of_strs(v@);
                v.push(tok);
                proof {
                    assert(tok@ =~= rest@.take(i as int));
                    assert(new_rest@ =~= rest@.skip(i + 1));
                    assert(views_of_strs(v@) =~= prev.push(tok@));
                    assert(prev + (seq![tok@] + split_seq(new_rest@, c)) =~= prev.push(tok@)
                        + split_seq(new_rest@, c));
                }
                rest = new_rest;
            },
        }
    }
}

/// A mismatch at any index rules a prefix out.
pub proof fn lemma_prefix_differs(s: Seq<char>, p: Seq<char>, k: int)
    requires
        0 <= k < p.len(),
        k < s.len(),
        s[k] != p[k],
    ensures
        !has_prefix(s, p),
{
    if has_prefix(s, p) {
        assert(s.subrange(0, p.len() as int)[k] == s[k]);
    }
}

/// Strips the prefix `p` from `s`, returning the remainder.
pub fn strip_prefix_of<'a>(s: &'a str, p: &str) -> (r: Option<&'a str>)
    ensures
        match r {
            Some(rest) => has_prefix(s@, p@) && rest@ == s@.skip(p@.len() as int),
            None => !has_prefix(s@, p@),
        },
{
    let n: usize = s.unicode_len();
    let m: usize = p.unicode_len();
    if m > n {
        proof {
            assert(!has_prefix(s@, p@));
        }
        return None;
    }
    let mut i: usize = 0;
    while i < m
        invariant
            i <= m <= n,
            n == s@.len(),
            m == p@.len(),
            forall|j: int| 0 <= j < i ==> s@[j] == p@[j],
        decreases m - i,
    {
        if s.get_char(i) != p.get_char(i) {
            proof {
                if has_prefix(s@, p@) {
                    assert(s@.subrange(0, m as int)[i as int] == p@[i as int]);
                }
            }
            return None;
        }
        i = i + 1;
    }
    proof {
        assert(s@.subrange(0, m as int) =~= p@);
    }
    Some(s.substring_char(m, n))
}

} // verus!
