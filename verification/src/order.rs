//! Lexicographic order on character sequences, sorted insertion into string
//! vectors (with and without duplicates), and joining with a separator.
//! Deterministic rendering of clause and option sets rests on these.

use vstd::prelude::*;
use vstd::string::*;

verus! {

/// Strict lexicographic order on character sequences, by code point.
pub open spec fn lex_lt(a: Seq<char>, b: Seq<char>) -> bool
    decreases a.len(),
{
    if b.len() == 0 {
        false
    } else if a.len() == 0 {
        true
    } else if (a[0] as int) < (b[0] as int) {
        true
    } else if (a[0] as int) > (b[0] as int) {
        false
    } else {
        lex_lt(a.drop_first(), b.drop_first())
    }
}

/// Non-strict lexicographic order.
pub open spec fn lex_le(a: Seq<char>, b: Seq<char>) -> bool {
    lex_lt(a, b) || a == b
}

pub proof fn lemma_lex_irrefl(a: Seq<char>)
    ensures
        !lex_lt(a, a),
    decreases a.len(),
{
    if a.len() > 0 {
        lemma_lex_irrefl(a.drop_first());
    }
}

pub proof fn lemma_lex_connected(a: Seq<char>, b: Seq<char>)
    ensures
        a != b ==> lex_lt(a, b) || lex_lt(b, a),
    decreases a.len(),
{
    if a.len() == 0 {
        if b.len() == 0 {
            assert(a =~= b);
        }
    } else if b.len() == 0 {
    } else if a[0] == b[0] {
        lemma_lex_connected(a.drop_first(), b.drop_first());
        assert(lex_lt(a, b) == lex_lt(a.drop_first(), b.drop_first()));
        assert(lex_lt(b, a) == lex_lt(b.drop_first(), a.drop_first()));
        if !lex_lt(a, b) && !lex_lt(b, a) {
            assert(a.drop_first() == b.drop_first());
            assert(forall|i: int|
                1 <= i < a.len() ==> #[trigger] a[i] == a.drop_first()[i - 1]);
            assert(forall|i: int|
                1 <= i < b.len() ==> #[trigger] b[i] == b.drop_first()[i - 1]);
            assert(a =~= b);
        }
    }
}

pub proof fn lemma_lex_trans(a: Seq<char>, b: Seq<char>, c: Seq<char>)
    requires
        lex_lt(a, b),
        lex_lt(b, c),
    ensures
        lex_lt(a, c),
    decreases a.len(),
{
    if a.len() == 0 || b.len() == 0 || c.len() == 0 {
    } else if (a[0] as int) == (b[0] as int) && (b[0] as int) == (c[0] as int) {
        lemma_lex_trans(a.drop_first(), b.drop_first(), c.drop_first());
    }
}

/// Compares two strings in lexicographic order.
pub fn lex_lt_str(a: &str, b: &str) -> (r: bool)
    ensures
        r == lex_lt(a@, b@),
{
    let an: usize = a.unicode_len();
    let bn: usize = b.unicode_len();
    proof {
        assert(a@.skip(0) =~= a@);
        assert(b@.skip(0) =~= b@);
    }
    let mut i: usize = 0;
    while i < an && i < bn
        invariant
            i <= an,
            i <= bn,
            an == a@.len(),
            bn == b@.len(),
            lex_lt(a@, b@) == lex_lt(a@.skip(i as int), b@.skip(i as int)),
        decreases an - i,
    {
        let ca = a.get_char(i);
        let cb = b.get_char(i);
        if (ca as u32) < (cb as u32) {
            proof {
                assert(a@.skip(i as int)[0] == ca);
                assert(b@.skip(i as int)[0] == cb);
            }
            return true;
        }
        if (ca as u32) > (cb as u32) {
            proof {
                assert(a@.skip(i as int)[0] == ca);
                assert(b@.skip(i as int)[0] == cb);
            }
            return false;
        }
        proof {
            assert(a@.skip(i as int)[0] == ca);
            assert(b@.skip(i as int)[0] == cb);
            assert(a@.skip(i as int).drop_first() =~= a@.skip(i + 1));
            assert(b@.skip(i as int).drop_first() =~= b@.skip(i + 1));
        }
        i = i + 1;
    }
    proof {
        if i == an {
            assert(a@.skip(an as int) =~= Seq::<char>::empty());
        }
        if i == bn {
            assert(b@.skip(bn as int) =~= Seq::<char>::empty());
        }
    }
    an < bn
}

/// The views of a sequence of strings.
pub open spec fn views_of(l: Seq<String>) -> Seq<Seq<char>> {
    l.map_values(|s: String| s@)
}

/// Insertion into a sequence sorted in non-strict lexicographic order,
/// keeping duplicates.
pub open spec fn ins_sorted(l: Seq<Seq<char>>, x: Seq<char>) -> Seq<Seq<char>>
    decreases l.len(),
{
    if l.len() == 0 {
        seq![x]
    } else if lex_le(x, l[0]) {
        seq![x] + l
    } else {
        seq![l[0]] + ins_sorted(l.drop_first(), x)
    }
}

/// Insertion sort of a sequence of character sequences.
pub open spec fn sort_seq(l: Seq<Seq<char>>) -> Seq<Seq<char>>
    decreases l.len(),
{
    if l.len() == 0 {
        Seq::empty()
    } else {
        ins_sorted(sort_seq(l.drop_last()), l.last())
    }
}

proof fn lemma_ins_sorted_len(l: Seq<Seq<char>>, x: Seq<char>)
    ensures
        ins_sorted(l, x).len() == l.len() + 1,
    decreases l.len(),
{
    if l.len() > 0 && !lex_le(x, l[0]) {
        lemma_ins_sorted_len(l.drop_first(), x);
    }
}

/// Sorting keeps the number of elements.
pub proof fn lemma_sort_seq_len(l: Seq<Seq<char>>)
    ensures
        sort_seq(l).len() == l.len(),
    decreases l.len(),
{
    if l.len() > 0 {
        lemma_sort_seq_len(l.drop_last());
        lemma_ins_sorted_len(sort_seq(l.drop_last()), l.last());
    }
}

/// Insertion into a strictly sorted sequence; an element already present
/// is dropped.
pub open spec fn ins_uniq(l: Seq<Seq<char>>, x: Seq<char>) -> Seq<Seq<char>>
    decreases l.len(),
{
    if l.len() == 0 {
        seq![x]
    } else if lex_lt(x, l[0]) {
        seq![x] + l
    } else if x == l[0] {
        l
    } else {
        seq![l[0]] + ins_uniq(l.drop_first(), x)
    }
}

/// Sorting with deduplication: the canonical form of a multiset of
/// character sequences.
pub open spec fn dedup_sort_seq(l: Seq<Seq<char>>) -> Seq<Seq<char>>
    decreases l.len(),
{
    if l.len() == 0 {
        Seq::empty()
    } else {
        ins_uniq(dedup_sort_seq(l.drop_last()), l.last())
    }
}

proof fn lemma_ins_sorted_split(l: Seq<Seq<char>>, x: Seq<char>, i: int)
    requires
        0 <= i <= l.len(),
        forall|j: int| 0 <= j < i ==> lex_lt(#[trigger] l[j], x),
    ensures
        ins_sorted(l, x) == l.take(i) + ins_sorted(l.skip(i), x),
    decreases i,
{
    if i == 0 {
        assert(l.take(0) =~= Seq::<Seq<char>>::empty());
        assert(l.skip(0) =~= l);
        assert(l.take(0) + ins_sorted(l, x) =~= ins_sorted(l, x));
    } else {
        assert(lex_lt(l[0], x));
        lemma_lex_irrefl(x);
        if lex_lt(x, l[0]) {
            lemma_lex_trans(x, l[0], x);
        }
        assert(!lex_le(x, l[0]));
        let t = l.drop_first();
        assert(forall|j: int| 0 <= j < i - 1 ==> lex_lt(#[trigger] t[j], x));
        lemma_ins_sorted_split(t, x, i - 1);
        assert(t.take(i - 1) =~= l.take(i).drop_first());
        assert(t.skip(i - 1) =~= l.skip(i));
        assert(seq![l[0]] + (t.take(i - 1) + ins_sorted(t.skip(i - 1), x)) =~= l.take(i)
            + ins_sorted(l.skip(i), x));
    }
}

pub proof fn lemma_ins_uniq_split(l: Seq<Seq<char>>, x: Seq<char>, i: int)
    requires
        0 <= i <= l.len(),
        forall|j: int| 0 <= j < i ==> lex_lt(#[trigger] l[j], x),
    ensures
        ins_uniq(l, x) == l.take(i) + ins_uniq(l.skip(i), x),
    decreases i,
{
    if i == 0 {
        assert(l.take(0) =~= Seq::<Seq<char>>::empty());
        assert(l.skip(0) =~= l);
        assert(l.take(0) + ins_uniq(l, x) =~= ins_uniq(l, x));
    } else {
        assert(lex_lt(l[0], x));
        lemma_lex_irrefl(x);
        if lex_lt(x, l[0]) {
            lemma_lex_trans(x, l[0], x);
        }
        let t = l.drop_first();
        assert(forall|j: int| 0 <= j < i - 1 ==> lex_lt(#[trigger] t[j], x));
        lemma_ins_uniq_split(t, x, i - 1);
        assert(t.take(i - 1) =~= l.take(i).drop_first());
        assert(t.skip(i - 1) =~= l.skip(i));
        assert(seq![l[0]] + (t.take(i - 1) + ins_uniq(t.skip(i - 1), x)) =~= l.take(i)
            + ins_uniq(l.skip(i), x));
    }
}

/// Inserts `s` into a vector sorted lexicographically, keeping duplicates.
pub fn insert_string_sorted(v: &mut Vec<String>, s: String)
    ensures
        views_of(final(v)@) == ins_sorted(views_of(old(v)@), s@),
{
    let ghost l = views_of(old(v)@);
    let mut i: usize = 0;
    while i < v.len() && lex_lt_str(v[i].as_str(), s.as_str())
        invariant
            i <= v.len(),
            v@ == old(v)@,
            l == views_of(v@),
            l.len() == v@.len(),
            forall|j: int| 0 <= j < i ==> lex_lt(#[trigger] l[j], s@),
        decreases v.len() - i,
    {
        proof {
            assert(l[i as int] == v@[i as int]@);
        }
        i = i + 1;
    }
    proof {
        lemma_ins_sorted_split(l, s@, i as int);
        if i < v@.len() {
            lemma_lex_connected(s@, l[i as int]);
            assert(lex_le(s@, l.skip(i as int)[0]));
        }
    }
    v.insert(i, s);
    proof {
        if i as int == l.len() {
            assert(ins_sorted(l.skip(i as int), s@) =~= seq![s@]);
            assert(views_of(v@) =~= l.take(i as int) + seq![s@]);
        } else {
            assert(ins_sorted(l.skip(i as int), s@) =~= seq![s@] + l.skip(i as int));
            assert(views_of(v@) =~= l.take(i as int) + (seq![s@] + l.skip(i as int)));
        }
    }
}

/// Inserts `s` into a strictly sorted vector; drops it when already present.
pub fn insert_string_uniq(v: &mut Vec<String>, s: String)
    ensures
        views_of(final(v)@) == ins_uniq(views_of(old(v)@), s@),
{
    let ghost l = views_of(old(v)@);
    let mut i: usize = 0;
    while i < v.len() && lex_lt_str(v[i].as_str(), s.as_str())
        invariant
            i <= v.len(),
            v@ == old(v)@,
            l == views_of(v@),
            l.len() == v@.len(),
            forall|j: int| 0 <= j < i ==> lex_lt(#[trigger] l[j], s@),
        decreases v.len() - i,
    {
        proof {
            assert(l[i as int] == v@[i as int]@);
        }
        i = i + 1;
    }
    proof {
        lemma_ins_uniq_split(l, s@, i as int);
    }
    if i < v.len() {
        if str_eq_strings(&v[i], &s) {
            proof {
                assert(l.skip(i as int)[0] == l[i as int]);
                lemma_lex_irrefl(s@);
                assert(ins_uniq(l.skip(i as int), s@) =~= l.skip(i as int));
                assert(views_of(v@) =~= l.take(i as int) + l.skip(i as int));
            }
            return;
        }
        proof {
            lemma_lex_connected(s@, l[i as int]);
            assert(lex_lt(s@, l.skip(i as int)[0]));
        }
        v.insert(i, s);
        proof {
            assert(ins_uniq(l.skip(i as int), s@) =~= seq![s@] + l.skip(i as int));
            assert(views_of(v@) =~= l.take(i as int) + (seq![s@] + l.skip(i as int)));
        }
    } else {
        v.insert(i, s);
        proof {
            assert(ins_uniq(l.skip(i as int), s@) =~= seq![s@]);
            assert(views_of(v@) =~= l.take(i as int) + seq![s@]);
        }
    }
}

/// Whether the views of the two strings are equal.

fn str_eq_strings(a: &String, b: &String) -> (r: bool)
    ensures
        r == (a@ == b@),
{
    crate::text::str_eq(a.as_str(), b.as_str())
}

/// The elements joined with `sep` between consecutive elements.
pub open spec fn join_seq(l: Seq<Seq<char>>, sep: Seq<char>) -> Seq<char>
    decreases l.len(),
{
    if l.len() == 0 {
        Seq::empty()
    } else if l.len() == 1 {
        l[0]
    } else {
        l[0] + sep + join_seq(l.drop_first(), sep)
    }
}

proof fn lemma_join_push(l: Seq<Seq<char>>, sep: Seq<char>, x: Seq<char>)
    requires
        l.len() > 0,
    ensures
        join_seq(l.push(x), sep) == join_seq(l, sep) + sep + x,
    decreases l.len(),
{
    if l.len() == 1 {
        assert(l.push(x).drop_first() =~= seq![x]);
        assert(l.push(x).len() == 2);
        assert(l.push(x)[0] == l[0]);
        assert(seq![x].len() == 1);
        assert(join_seq(seq![x], sep) == seq![x][0]);
        assert(join_seq(l.push(x), sep) == l.push(x)[0] + sep + join_seq(
            l.push(x).drop_first(),
            sep,
        ));
        assert(join_seq(l, sep) == l[0]);
    } else {
        assert(l.push(x).drop_first() =~= l.drop_first().push(x));
        lemma_join_push(l.drop_first(), sep, x);
        assert(l[0] + sep + (join_seq(l.drop_first(), sep) + sep + x) =~= (l[0] + sep + join_seq(
            l.drop_first(),
            sep,
        )) + sep + x);
    }
}

/// Joins the strings with the separator.
pub fn join_strings(v: &Vec<String>, sep: &str) -> (r: String)
    ensures
        r@ == join_seq(views_of(v@), sep@),
{
    let ghost l = views_of(v@);
    let mut out = String::new();
    let mut i: usize = 0;
    while i < v.len()
        invariant
            i <= v.len(),
            l == views_of(v@),
            out@ == join_seq(l.take(i as int), sep@),
        decreases v.len() - i,
    {
        if i > 0 {
            out.append(sep);
        }
        out.append(v[i].as_str());
        proof {
            assert(l.take(i + 1) =~= l.take(i as int).push(l[i as int]));
            if i > 0 {
                lemma_join_push(l.take(i as int), sep@, l[i as int]);
            } else {
                assert(join_seq(l.take(1), sep@) == l.take(1)[0]);
                assert(Seq::<char>::empty() + l[0] =~= l[0]);
            }
        }
        i = i + 1;
    }
    proof {
        assert(l.take(v@.len() as int) =~= l);
    }
    out
}

} // verus!
