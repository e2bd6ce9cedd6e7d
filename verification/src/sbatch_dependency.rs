//! A full `--dependency` expression: a deduplicated, canonically ordered
//! set of clauses and one separator. Parsing detects the separator, expands
//! the colon shorthand (`after:1:2` stands for `after:1,after:2`), parses
//! each clause, and collapses duplicates; rendering is deterministic and
//! always quoted.

use vstd::prelude::*;
use vstd::seq_lib::lemma_seq_contains;
use vstd::string::*;

use crate::dependency_type::{
    clause_from_ok, clause_text, clause_wf, lemma_clause_text_injective, lit_singleton,
    parsed_clause, DependencyType, DependencyTypeView,
};
use crate::order::{
    join_seq, lemma_lex_connected, lemma_lex_irrefl, lemma_lex_trans, lex_lt, lex_lt_str,
    views_of,
};
use crate::text;
use crate::text::{split_seq, unquote_double_seq, views_of_strs};

verus! {

/// The separator between the clauses of one expression: all of them
/// (comma) or any of them (question mark). Slurm defaults to `And`.
#[derive(Debug, Clone, Copy, PartialEq, Eq, Hash, Structural)]
pub enum DependencySeparator {
    And,
    Or,
}

impl Default for DependencySeparator {
    /// The default separator is `And`, as in Slurm.
    fn default() -> (r: DependencySeparator)
        ensures
            r == DependencySeparator::And,
    {
        DependencySeparator::And
    }
}

/// The character that joins clauses under a separator.
pub open spec fn sep_char(sep: DependencySeparator) -> char {
    match sep {
        DependencySeparator::And => ',',
        DependencySeparator::Or => '?',
    }
}

/// The mathematical value of a dependency expression: the clauses in
/// canonical order, and the separator.
#[verifier::ext_equal]
pub struct SbatchDependencyView {
    pub clauses: Seq<DependencyTypeView>,
    pub separator: DependencySeparator,
}

/// Whether a clause sequence is canonical: every clause well formed, and
/// the rendered texts strictly increasing.
pub open spec fn canonical(cs: Seq<DependencyTypeView>) -> bool {
    &&& forall|i: int| 0 <= i < cs.len() ==> clause_wf(#[trigger] cs[i])
    &&& forall|i: int, j: int|
        0 <= i < j < cs.len() ==> lex_lt(
            clause_text(#[trigger] cs[i]),
            clause_text(#[trigger] cs[j]),
        )
}

/// Insertion into a canonical clause sequence; a clause whose text is
/// already present is dropped.
pub open spec fn clause_insert(cs: Seq<DependencyTypeView>, c: DependencyTypeView) -> Seq<
    DependencyTypeView,
>
    decreases cs.len(),
{
    if cs.len() == 0 {
        seq![c]
    } else if lex_lt(clause_text(c), clause_text(cs[0])) {
        seq![c] + cs
    } else if clause_text(c) == clause_text(cs[0]) {
        cs
    } else {
        seq![cs[0]] + clause_insert(cs.drop_first(), c)
    }
}

/// The canonical form of a clause sequence: all clauses inserted in turn,
/// duplicates collapsed.
pub open spec fn canon_clauses(l: Seq<DependencyTypeView>) -> Seq<DependencyTypeView>
    decreases l.len(),
{
    if l.len() == 0 {
        Seq::empty()
    } else {
        clause_insert(canon_clauses(l.drop_last()), l.last())
    }
}

proof fn lemma_clause_insert_split(cs: Seq<DependencyTypeView>, c: DependencyTypeView, i: int)
    requires
        0 <= i <= cs.len(),
        forall|j: int| 0 <= j < i ==> lex_lt(clause_text(#[trigger] cs[j]), clause_text(c)),
    ensures
        clause_insert(cs, c) == cs.take(i) + clause_insert(cs.skip(i), c),
    decreases i,
{
    if i == 0 {
        assert(cs.skip(0) =~= cs);
        assert(cs.take(0) + clause_insert(cs, c) =~= clause_insert(cs, c));
    } else {
        assert(lex_lt(clause_text(cs[0]), clause_text(c)));
        lemma_lex_irrefl(clause_text(c));
        if lex_lt(clause_text(c), clause_text(cs[0])) {
            lemma_lex_trans(clause_text(c), clause_text(cs[0]), clause_text(c));
        }
        let t = cs.drop_first();
        assert(forall|j: int|
            0 <= j < i - 1 ==> lex_lt(clause_text(#[trigger] t[j]), clause_text(c)));
        lemma_clause_insert_split(t, c, i - 1);
        assert(t.take(i - 1) =~= cs.take(i).drop_first());
        assert(t.skip(i - 1) =~= cs.skip(i));
        assert(seq![cs[0]] + (t.take(i - 1) + clause_insert(t.skip(i - 1), c)) =~= cs.take(i)
            + clause_insert(cs.skip(i), c));
    }
}

/// Inserting into a canonical sequence keeps it canonical and adds the
/// clause to the set of clauses.
pub proof fn lemma_clause_insert_props(cs: Seq<DependencyTypeView>, c: DependencyTypeView)
    requires
        canonical(cs),
        clause_wf(c),
    ensures
        canonical(clause_insert(cs, c)),
        clause_insert(cs, c).to_set() == cs.to_set().insert(c),
    decreases cs.len(),
{
    let r = clause_insert(cs, c);
    if cs.len() == 0 {
        assert(r == seq![c]);
        assert(r.to_set() =~= cs.to_set().insert(c)) by {
            assert(r.contains(c)) by {
                assert(r[0] == c);
            }
        }
    } else if lex_lt(clause_text(c), clause_text(cs[0])) {
        assert(r == seq![c] + cs);
        assert forall|i: int, j: int| 0 <= i < j < r.len() implies lex_lt(
            clause_text(#[trigger] r[i]),
            clause_text(#[trigger] r[j]),
        ) by {
            if i == 0 {
                assert(r[j] == cs[j - 1]);
                if j > 1 {
                    lemma_lex_trans(
                        clause_text(c),
                        clause_text(cs[0]),
                        clause_text(cs[j - 1]),
                    );
                }
            } else {
                assert(r[i] == cs[i - 1]);
                assert(r[j] == cs[j - 1]);
            }
        }
        assert(r.to_set() =~= cs.to_set().insert(c)) by {
            assert forall|x: DependencyTypeView| r.contains(x) implies (cs.to_set().insert(
                c,
            )).contains(x) by {
                let i = choose|i: int| 0 <= i < r.len() && r[i] == x;
                if i > 0 {
                    assert(cs[i - 1] == x);
                }
            }
            assert forall|x: DependencyTypeView| (cs.to_set().insert(c)).contains(
                x,
            ) implies r.contains(x) by {
                if x == c {
                    assert(r[0] == x);
                } else {
                    let i = choose|i: int| 0 <= i < cs.len() && cs[i] == x;
                    assert(r[i + 1] == x);
                }
            }
        }
    } else if clause_text(c) == clause_text(cs[0]) {
        lemma_clause_text_injective(c, cs[0]);
        assert(r == cs);
        assert(r.to_set() =~= cs.to_set().insert(c)) by {
            assert(cs.contains(c)) by {
                assert(cs[0] == c);
            }
        }
    } else {
        lemma_lex_connected(clause_text(c), clause_text(cs[0]));
        assert(lex_lt(clause_text(cs[0]), clause_text(c)));
        let t = cs.drop_first();
        assert(canonical(t)) by {
            assert(forall|i: int| 0 <= i < t.len() ==> #[trigger] t[i] == cs[i + 1]);
        }
        lemma_clause_insert_props(t, c);
        let tr = clause_insert(t, c);
        assert(r == seq![cs[0]] + tr);
        assert forall|i: int, j: int| 0 <= i < j < r.len() implies lex_lt(
            clause_text(#[trigger] r[i]),
            clause_text(#[trigger] r[j]),
        ) by {
            if i == 0 {
                assert(r[j] == tr[j - 1]);
                assert(tr.contains(tr[j - 1])) by {
                    lemma_seq_contains(tr, tr[j - 1]);
                }
                assert(tr.to_set().contains(tr[j - 1]));
                if t.to_set().contains(tr[j - 1]) {
                    let k = choose|k: int| 0 <= k < t.len() && t[k] == tr[j - 1];
                    assert(cs[k + 1] == tr[j - 1]);
                } else {
                    assert(tr[j - 1] == c);
                }
            } else {
                assert(r[i] == tr[i - 1]);
                assert(r[j] == tr[j - 1]);
            }
        }
        assert forall|i: int| 0 <= i < r.len() implies clause_wf(#[trigger] r[i]) by {
            if i > 0 {
                assert(r[i] == tr[i - 1]);
                assert(tr.contains(tr[i - 1])) by {
                    lemma_seq_contains(tr, tr[i - 1]);
                }
                assert(tr.to_set().contains(tr[i - 1]));
                if t.to_set().contains(tr[i - 1]) {
                    let k = choose|k: int| 0 <= k < t.len() && t[k] == tr[i - 1];
                } else {
                    assert(tr[i - 1] == c);
                }
            }
        }
        assert(r.to_set() =~= cs.to_set().insert(c)) by {
            assert forall|x: DependencyTypeView| r.contains(x) implies (cs.to_set().insert(
                c,
            )).contains(x) by {
                let i = choose|i: int| 0 <= i < r.len() && r[i] == x;
                if i > 0 {
                    assert(tr[i - 1] == x);
                    assert(tr.to_set().contains(x));
                    if t.to_set().contains(x) {
                        let k = choose|k: int| 0 <= k < t.len() && t[k] == x;
                        assert(cs[k + 1] == x);
                    }
                } else {
                    assert(cs[0] == x);
                }
            }
            assert forall|x: DependencyTypeView| (cs.to_set().insert(c)).contains(
                x,
            ) implies r.contains(x) by {
                if x == c {
                    assert(tr.to_set().contains(x));
                    let k = choose|k: int| 0 <= k < tr.len() && tr[k] == x;
                    assert(r[k + 1] == x);
                } else {
                    let i = choose|i: int| 0 <= i < cs.len() && cs[i] == x;
                    if i == 0 {
                        assert(r[0] == x);
                    } else {
                        assert(t[i - 1] == x);
                        assert(t.to_set().contains(x));
                        assert(tr.to_set().contains(x));
                        let k = choose|k: int| 0 <= k < tr.len() && tr[k] == x;
                        assert(r[k + 1] == x);
                    }
                }
            }
        }
    }
}

/// Canonicalisation keeps exactly the set of clauses: duplicates collapse,
/// nothing else is lost or invented.
pub proof fn lemma_canon_clauses_props(l: Seq<DependencyTypeView>)
    requires
        forall|i: int| 0 <= i < l.len() ==> clause_wf(#[trigger] l[i]),
    ensures
        canonical(canon_clauses(l)),
        canon_clauses(l).to_set() == l.to_set(),
    decreases l.len(),
{
    if l.len() == 0 {
        assert(canon_clauses(l).to_set() =~= l.to_set());
    } else {
        let t = l.drop_last();
        assert(forall|i: int| 0 <= i < t.len() ==> #[trigger] t[i] == l[i]);
        lemma_canon_clauses_props(t);
        lemma_clause_insert_props(canon_clauses(t), l.last());
        assert(l.to_set() =~= t.to_set().insert(l.last())) by {
            assert forall|x: DependencyTypeView| l.contains(x) implies (t.to_set().insert(
                l.last(),
            )).contains(x) by {
                let i = choose|i: int| 0 <= i < l.len() && l[i] == x;
                if i < l.len() - 1 {
                    assert(t[i] == x);
                }
            }
            assert forall|x: DependencyTypeView| (t.to_set().insert(l.last())).contains(
                x,
            ) implies l.contains(x) by {
                if x == l.last() {
                    assert(l[l.len() - 1] == x);
                } else {
                    let i = choose|i: int| 0 <= i < t.len() && t[i] == x;
                    assert(l[i] == x);
                }
            }
        }
    }
}

/// A canonical sequence has no duplicate clauses.
pub proof fn lemma_canonical_no_dup(cs: Seq<DependencyTypeView>)
    requires
        canonical(cs),
    ensures
        cs.no_duplicates(),
{
    assert forall|i: int, j: int|
        0 <= i < cs.len() && 0 <= j < cs.len() && i != j implies cs[i] != cs[j] by {
        if cs[i] == cs[j] {
            if i < j {
                lemma_lex_irrefl(clause_text(cs[i]));
            } else {
                lemma_lex_irrefl(clause_text(cs[j]));
            }
        }
    }
}

/// Determinism: two canonical sequences holding the same set of clauses
/// are identical, whatever order the clauses were inserted in.
pub proof fn lemma_canonical_unique(a: Seq<DependencyTypeView>, b: Seq<DependencyTypeView>)
    requires
        canonical(a),
        canonical(b),
        a.to_set() == b.to_set(),
    ensures
        a == b,
    decreases a.len(),
{
    if a.len() == 0 {
        if b.len() > 0 {
            assert(b.contains(b[0])) by {
                lemma_seq_contains(b, b[0]);
            }
            assert(a.to_set().contains(b[0]));
            let i = choose|i: int| 0 <= i < a.len() && a[i] == b[0];
            assert(false);
        }
        assert(a =~= b);
    } else if b.len() == 0 {
        assert(a.contains(a[0])) by {
            lemma_seq_contains(a, a[0]);
        }
        assert(b.to_set().contains(a[0]));
        let i = choose|i: int| 0 <= i < b.len() && b[i] == a[0];
        assert(false);
    } else {
        assert(a.contains(a[0])) by {
            lemma_seq_contains(a, a[0]);
        }
        assert(b.contains(b[0])) by {
            lemma_seq_contains(b, b[0]);
        }
        assert(b.to_set().contains(a[0]));
        assert(a.to_set().contains(b[0]));
        let j = choose|j: int| 0 <= j < b.len() && b[j] == a[0];
        let i = choose|i: int| 0 <= i < a.len() && a[i] == b[0];
        if j > 0 {
            assert(lex_lt(clause_text(b[0]), clause_text(a[0])));
            if i > 0 {
                assert(lex_lt(clause_text(a[0]), clause_text(b[0])));
                lemma_lex_trans(clause_text(a[0]), clause_text(b[0]), clause_text(a[0]));
                lemma_lex_irrefl(clause_text(a[0]));
            }
            assert(a[0] == b[0]);
            lemma_lex_irrefl(clause_text(a[0]));
        }
        assert(a[0] == b[0]);
        let ta = a.drop_first();
        let tb = b.drop_first();
        assert(canonical(ta)) by {
            assert(forall|k: int| 0 <= k < ta.len() ==> #[trigger] ta[k] == a[k + 1]);
        }
        assert(canonical(tb)) by {
            assert(forall|k: int| 0 <= k < tb.len() ==> #[trigger] tb[k] == b[k + 1]);
        }
        assert(ta.to_set() =~= a.to_set().remove(a[0])) by {
            assert forall|x: DependencyTypeView| ta.contains(x) implies a.to_set().remove(
                a[0],
            ).contains(x) by {
                let k = choose|k: int| 0 <= k < ta.len() && ta[k] == x;
                assert(a[k + 1] == x);
                if x == a[0] {
                    lemma_lex_irrefl(clause_text(a[0]));
                }
            }
            assert forall|x: DependencyTypeView| a.to_set().remove(a[0]).contains(
                x,
            ) implies ta.contains(x) by {
                let k = choose|k: int| 0 <= k < a.len() && a[k] == x;
                assert(k > 0);
                assert(ta[k - 1] == x);
            }
        }
        assert(tb.to_set() =~= b.to_set().remove(b[0])) by {
            assert forall|x: DependencyTypeView| tb.contains(x) implies b.to_set().remove(
                b[0],
            ).contains(x) by {
                let k = choose|k: int| 0 <= k < tb.len() && tb[k] == x;
                assert(b[k + 1] == x);
                if x == b[0] {
                    lemma_lex_irrefl(clause_text(b[0]));
                }
            }
            assert forall|x: DependencyTypeView| b.to_set().remove(b[0]).contains(
                x,
            ) implies tb.contains(x) by {
                let k = choose|k: int| 0 <= k < b.len() && b[k] == x;
                assert(k > 0);
                assert(tb[k - 1] == x);
            }
        }
        lemma_canonical_unique(ta, tb);
        assert(a =~= b) by {
            assert(forall|k: int| 1 <= k < a.len() ==> #[trigger] a[k] == ta[k - 1]);
            assert(forall|k: int| 1 <= k < b.len() ==> #[trigger] b[k] == tb[k - 1]);
        }
    }
}

/// Idempotent accumulation: the clauses of a parsed expression hold each
/// distinct clause of the source exactly once, however often it was
/// repeated.
pub proof fn lemma_parse_dedups(s: Seq<char>)
    requires
        expr_ok(s),
    ensures
        canonical(canon_clauses(expr_clause_views(s))),
        canon_clauses(expr_clause_views(s)).to_set() == expr_clause_views(s).to_set(),
        canon_clauses(expr_clause_views(s)).no_duplicates(),
{
    let pv = expr_clause_views(s);
    assert forall|i: int| 0 <= i < pv.len() implies clause_wf(#[trigger] pv[i]) by {
        assert(pv[i] == parsed_clause(expr_pieces(s)[i]));
        assert(clause_from_ok(expr_pieces(s)[i]));
        crate::dependency_type::lemma_parsed_clause_wf(expr_pieces(s)[i]);
    }
    lemma_canon_clauses_props(pv);
    lemma_canonical_no_dup(canon_clauses(pv));
}

/// The rendered texts of a clause sequence.
pub open spec fn clause_texts(cs: Seq<DependencyTypeView>) -> Seq<Seq<char>> {
    cs.map_values(|c: DependencyTypeView| clause_text(c))
}

/// The rendered form of an expression: the clause texts joined with the
/// separator, wrapped in one pair of double quotes.
pub open spec fn expr_text(v: SbatchDependencyView) -> Seq<char> {
    seq!['"'] + join_seq(clause_texts(v.clauses), seq![sep_char(v.separator)]) + seq!['"']
}

/// Determinism of rendering: equal clause sets under equal separators give
/// equal views, hence byte-identical rendered text.
pub proof fn lemma_render_deterministic(a: SbatchDependencyView, b: SbatchDependencyView)
    requires
        canonical(a.clauses),
        canonical(b.clauses),
        a.clauses.to_set() == b.clauses.to_set(),
        a.separator == b.separator,
    ensures
        a == b,
        expr_text(a) == expr_text(b),
{
    lemma_canonical_unique(a.clauses, b.clauses);
    assert(a =~= b);
}

/// The clause-kind keywords that admit the colon shorthand, as transparent
/// sequences.
pub open spec fn lit_kw_after() -> Seq<char> {
    seq!['a', 'f', 't', 'e', 'r']
}

pub open spec fn lit_kw_afterany() -> Seq<char> {
    seq!['a', 'f', 't', 'e', 'r', 'a', 'n', 'y']
}

pub open spec fn lit_kw_afterok() -> Seq<char> {
    seq!['a', 'f', 't', 'e', 'r', 'o', 'k']
}

pub open spec fn lit_kw_afternotok() -> Seq<char> {
    seq!['a', 'f', 't', 'e', 'r', 'n', 'o', 't', 'o', 'k']
}

pub open spec fn lit_kw_aftercorr() -> Seq<char> {
    seq!['a', 'f', 't', 'e', 'r', 'c', 'o', 'r', 'r']
}

pub open spec fn lit_kw_afterburstbuffer() -> Seq<char> {
    seq!['a', 'f', 't', 'e', 'r', 'b', 'u', 'r', 's', 't', 'b', 'u', 'f', 'f', 'e', 'r']
}

/// Whether `k` is a job-id-bearing clause kind.
pub open spec fn kind_lit(k: Seq<char>) -> bool {
    k == lit_kw_after() || k == lit_kw_afterany() || k == lit_kw_afterok() || k
        == lit_kw_afternotok() || k == lit_kw_aftercorr() || k == lit_kw_afterburstbuffer()
}

/// Whether the colon-shorthand expansion of one token succeeds: the first
/// colon-piece must be a known kind with at least one operand piece, or the
/// token must be exactly `singleton`.
pub open spec fn expand_ok(t: Seq<char>) -> bool {
    let ps = split_seq(t, ':');
    (kind_lit(ps[0]) && ps.len() >= 2) || t == lit_singleton()
}

/// The clauses one token expands to: one `kind:piece` per operand piece,
/// or `singleton` alone.
pub open spec fn expand_pieces(t: Seq<char>) -> Seq<Seq<char>> {
    let ps = split_seq(t, ':');
    if kind_lit(ps[0]) && ps.len() >= 2 {
        Seq::new((ps.len() - 1) as nat, |j: int| ps[0] + seq![':'] + ps[j + 1])
    } else {
        seq![lit_singleton()]
    }
}

/// Whether the expression holds both separators, which Slurm forbids.
pub open spec fn expr_mixed(s: Seq<char>) -> bool {
    s.contains(',') && s.contains('?')
}

/// The separator of an unmixed expression; an expression with neither
/// separator defaults to `And`.
pub open spec fn expr_sep(s: Seq<char>) -> DependencySeparator {
    if s.contains('?') {
        DependencySeparator::Or
    } else {
        DependencySeparator::And
    }
}

/// The clause tokens of an expression: one layer of double quotes removed,
/// then split at the separator.
pub open spec fn expr_tokens(s: Seq<char>) -> Seq<Seq<char>> {
    split_seq(unquote_double_seq(s), sep_char(expr_sep(s)))
}

/// The expansions of a sequence of tokens.
pub open spec fn expand_all(ts: Seq<Seq<char>>) -> Seq<Seq<Seq<char>>> {
    ts.map_values(|t: Seq<char>| expand_pieces(t))
}

/// Every single-clause text of the expression, in source order, shorthand
/// expanded.
pub open spec fn expr_pieces(s: Seq<char>) -> Seq<Seq<char>> {
    expand_all(expr_tokens(s)).flatten()
}

/// Whether every token of the expression expands.
pub open spec fn expr_tokens_ok(s: Seq<char>) -> bool {
    forall|i: int| 0 <= i < expr_tokens(s).len() ==> expand_ok(#[trigger] expr_tokens(s)[i])
}

/// Whether every expanded clause text parses.
pub open spec fn expr_pieces_ok(s: Seq<char>) -> bool {
    forall|i: int|
        0 <= i < expr_pieces(s).len() ==> clause_from_ok(#[trigger] expr_pieces(s)[i])
}

/// Whether parsing the whole expression succeeds.
pub open spec fn expr_ok(s: Seq<char>) -> bool {
    !expr_mixed(s) && expr_tokens_ok(s) && expr_pieces_ok(s)
}

/// The clauses of the expression, in source order, duplicates kept.
pub open spec fn expr_clause_views(s: Seq<char>) -> Seq<DependencyTypeView> {
    expr_pieces(s).map_values(|p: Seq<char>| parsed_clause(p))
}

/// Detects the separator of an expression; both separators at once are an
/// error, neither defaults to `And`.
pub fn determine_separator(s: &str) -> (r: Result<DependencySeparator, SbatchDependencyError>)
    ensures
        r is Ok <==> !expr_mixed(s@),
        r matches Ok(sep) ==> sep == expr_sep(s@),
        r matches Err(e) ==> e matches SbatchDependencyError::MixedSeparators(t) && t@ == s@
            && expr_mixed(s@),
{
    let has_comma = text::contains_char(s, ',');
    let has_question = text::contains_char(s, '?');
    if has_comma && has_question {
        Err(SbatchDependencyError::MixedSeparators(String::from_str(s)))
    } else if has_question {
        Ok(DependencySeparator::Or)
    } else {
        Ok(DependencySeparator::And)
    }
}

/// Expands the colon shorthand of one clause token: `after:1:2` becomes
/// `after:1` and `after:2`, `singleton` stays alone; any other shape is an
/// error naming the token.
pub fn split_dependency_by_colon(s: &str) -> (r: Result<Vec<String>, SbatchDependencyError>)
    ensures
        r is Ok <==> expand_ok(s@),
        r matches Ok(v) ==> views_of(v@) == expand_pieces(s@),
        r matches Err(e) ==> e matches SbatchDependencyError::ParseError(t) && t@ == s@
            && !expand_ok(s@),
{
    proof {
        reveal_strlit("after");
        reveal_strlit("afterany");
        reveal_strlit("afterok");
        reveal_strlit("afternotok");
        reveal_strlit("aftercorr");
        reveal_strlit("afterburstbuffer");
        reveal_strlit("singleton");
        reveal_strlit(":");
        assert("after"@ =~= lit_kw_after());
        assert("afterany"@ =~= lit_kw_afterany());
        assert("afterok"@ =~= lit_kw_afterok());
        assert("afternotok"@ =~= lit_kw_afternotok());
        assert("aftercorr"@ =~= lit_kw_aftercorr());
        assert("afterburstbuffer"@ =~= lit_kw_afterburstbuffer());
        assert("singleton"@ =~= lit_singleton());
        assert(":"@ =~= seq![':']);
        text::lemma_split_len(s@, ':');
    }
    let ps = text::split_str(s, ':');
    let ghost psv = split_seq(s@, ':');
    let k: &str = ps[0];
    proof {
        assert(k@ == psv[0]);
    }
    let is_kind = text::str_eq(k, "after") || text::str_eq(k, "afterany") || text::str_eq(
        k,
        "afterok",
    ) || text::str_eq(k, "afternotok") || text::str_eq(k, "aftercorr") || text::str_eq(
        k,
        "afterburstbuffer",
    );
    proof {
        assert(is_kind == kind_lit(psv[0]));
    }
    if is_kind && ps.len() >= 2 {
        let ghost pieces = expand_pieces(s@);
        let mut out: Vec<String> = Vec::new();
        let mut i: usize = 1;
        proof {
            assert(pieces.len() == psv.len() - 1);
            assert(views_of(out@) =~= pieces.take(0));
        }
        while i < ps.len()
            invariant
                1 <= i <= ps@.len(),
                views_of_strs(ps@) == psv,
                psv == split_seq(s@, ':'),
                kind_lit(psv[0]),
                psv.len() >= 2,
                k@ == psv[0],
                pieces == expand_pieces(s@),
                pieces.len() == psv.len() - 1,
                views_of(out@) == pieces.take(i - 1),
            decreases ps@.len() - i,
        {
            let mut piece = String::from_str(k);
            piece.append(":");
            piece.append(ps[i]);
            let ghost piece_view = piece@;
            let ghost prev = views_of(out@);
            proof {
                reveal_strlit(":");
                assert(":"@ =~= seq![':']);
                assert(ps@[i as int]@ == psv[i as int]);
                assert(pieces[i - 1] == psv[0] + seq![':'] + psv[i as int]);
                assert(piece_view == pieces[i - 1]);
            }
            out.push(piece);
            proof {
                assert(views_of(out@) =~= prev.push(piece_view));
                assert(pieces.take(i as int) =~= pieces.take(i - 1).push(pieces[i - 1]));
            }
            i = i + 1;
        }
        proof {
            assert(pieces.take(pieces.len() as int) =~= pieces);
        }
        Ok(out)
    } else if text::str_eq(s, "singleton") {
        let mut out: Vec<String> = Vec::new();
        out.push(String::from_str("singleton"));
        proof {
            assert(views_of(out@) =~= seq![lit_singleton()]);
        }
        Ok(out)
    } else {
        Err(SbatchDependencyError::ParseError(String::from_str(s)))
    }
}

/// Errors raised when parsing a dependency expression.
#[derive(Debug, Clone, PartialEq, Eq, Hash)]
pub enum SbatchDependencyError {
    /// The expression holds both `,` and `?`; carries the expression.
    MixedSeparators(String),
    /// A token or clause of the expression is malformed; carries it.
    ParseError(String),
}

/// A deduplicated set of dependency clauses and their separator, kept in
/// canonical (rendered-text) order.
#[derive(Debug, Clone, PartialEq, Eq, Hash)]
pub struct SbatchDependency {
    dependencies: Vec<DependencyType>,
    separator: DependencySeparator,
}

impl View for SbatchDependency {
    type V = SbatchDependencyView;

    closed spec fn view(&self) -> SbatchDependencyView {
        SbatchDependencyView {
            clauses: self.dependencies@.map_values(|d: DependencyType| d@),
            separator: self.separator,
        }
    }
}

impl Default for SbatchDependency {
    /// An empty expression under the default separator.
    fn default() -> (r: SbatchDependency)
        ensures
            r@.clauses == Seq::<DependencyTypeView>::empty(),
            r@.separator == DependencySeparator::And,
            r.wf(),
    {
        SbatchDependency::new()
    }
}

impl SbatchDependency {
    /// The invariant of every reachable value: the stored clauses are
    /// canonical.
    pub open spec fn wf(&self) -> bool {
        canonical(self@.clauses)
    }

    /// An empty expression under the default separator.
    pub fn new() -> (r: SbatchDependency)
        ensures
            r@.clauses == Seq::<DependencyTypeView>::empty(),
            r@.separator == DependencySeparator::And,
            r.wf(),
    {
        let r = SbatchDependency {
            dependencies: Vec::new(),
            separator: DependencySeparator::And,
        };
        proof {
            assert(r@.clauses =~= Seq::<DependencyTypeView>::empty());
        }
        r
    }

    /// The number of distinct clauses held.
    pub fn len(&self) -> (r: usize)
        ensures
            r == self@.clauses.len(),
    {
        self.dependencies.len()
    }

    /// Sets the separator; the clauses are untouched.
    pub fn set_separator(&mut self, separator: DependencySeparator)
        ensures
            final(self)@.clauses == old(self)@.clauses,
            final(self)@.separator == separator,
            final(self).wf() == old(self).wf(),
    {
        self.separator = separator;
    }

    /// Inserts a clause; a clause already present is dropped, so insertion
    /// is idempotent.
    pub fn set_dependency(&mut self, dependency: DependencyType)
        requires
            old(self).wf(),
            clause_wf(dependency@),
        ensures
            final(self).wf(),
            final(self)@.clauses == clause_insert(old(self)@.clauses, dependency@),
            final(self)@.clauses.to_set() == old(self)@.clauses.to_set().insert(dependency@),
            final(self)@.separator == old(self)@.separator,
    {
        proof {
            lemma_clause_insert_props(old(self)@.clauses, dependency@);
        }
        let ghost l = self@.clauses;
        let ctext = dependency.render();
        let mut i: usize = 0;
        loop
            invariant
                i <= self.dependencies.len(),
                self == old(self),
                l == self@.clauses,
                l.len() == self.dependencies@.len(),
                canonical(l),
                clause_wf(dependency@),
                ctext@ == clause_text(dependency@),
                forall|j: int|
                    0 <= j < i ==> lex_lt(clause_text(#[trigger] l[j]), clause_text(dependency@)),
            ensures
                i <= self.dependencies.len(),
                self == old(self),
                l == self@.clauses,
                i == self.dependencies.len() || !lex_lt(
                    clause_text(l[i as int]),
                    clause_text(dependency@),
                ),
                forall|j: int|
                    0 <= j < i ==> lex_lt(clause_text(#[trigger] l[j]), clause_text(dependency@)),
            decreases self.dependencies.len() - i,
        {
            if i == self.dependencies.len() {
                break;
            }
            let etext = self.dependencies[i].render();
            proof {
                assert(self.dependencies@[i as int]@ == l[i as int]);
            }
            if !lex_lt_str(etext.as_str(), ctext.as_str()) {
                break;
            }
            i = i + 1;
        }
        proof {
            lemma_clause_insert_split(l, dependency@, i as int);
        }
        if i < self.dependencies.len() {
            let etext = self.dependencies[i].render();
            proof {
                assert(self.dependencies@[i as int]@ == l[i as int]);
                assert(l.skip(i as int)[0] == l[i as int]);
            }
            if text::str_eq(etext.as_str(), ctext.as_str()) {
                proof {
                    assert(clause_insert(l.skip(i as int), dependency@) =~= l.skip(i as int));
                    assert(l.take(i as int) + l.skip(i as int) =~= l);
                }
                return;
            }
            proof {
                lemma_lex_connected(clause_text(dependency@), clause_text(l[i as int]));
                assert(lex_lt(clause_text(dependency@), clause_text(l.skip(i as int)[0])));
                assert(clause_insert(l.skip(i as int), dependency@) =~= seq![dependency@]
                    + l.skip(i as int));
            }
            self.dependencies.insert(i, dependency);
            proof {
                assert(self@.clauses =~= l.take(i as int) + (seq![dependency@] + l.skip(
                    i as int,
                )));
            }
        } else {
            proof {
                assert(l.skip(i as int) =~= Seq::<DependencyTypeView>::empty());
                assert(clause_insert(l.skip(i as int), dependency@) =~= seq![dependency@]);
            }
            self.dependencies.insert(i, dependency);
            proof {
                assert(self@.clauses =~= l.take(i as int) + seq![dependency@]);
            }
        }
    }

    /// Parses a full `--dependency` expression: detects the separator,
    /// strips one layer of double quotes, splits into clause tokens,
    /// expands the colon shorthand, parses every clause, and collapses
    /// duplicates. The first malformed token or clause aborts the parse.
    #[verifier::rlimit(100)]
    pub fn from_str(s: &str) -> (r: Result<SbatchDependency, SbatchDependencyError>)
        ensures
            r is Ok <==> expr_ok(s@),
            r matches Ok(d) ==> d.wf() && d@.separator == expr_sep(s@) && d@.clauses
                == canon_clauses(expr_clause_views(s@)) && d@.clauses.to_set()
                == expr_clause_views(s@).to_set(),
            r matches Err(e) ==> match e {
                SbatchDependencyError::MixedSeparators(t) => t@ == s@ && expr_mixed(s@),
                SbatchDependencyError::ParseError(t) => !expr_mixed(s@) && ((exists|i: int|
                    0 <= i < expr_tokens(s@).len() && !expand_ok(#[trigger] expr_tokens(s@)[i])
                        && t@ == expr_tokens(s@)[i] && (forall|j: int|
                        0 <= j < i ==> expand_ok(#[trigger] expr_tokens(s@)[j]))) || (
                    expr_tokens_ok(s@) && exists|i: int|
                        0 <= i < expr_pieces(s@).len() && !clause_from_ok(
                            #[trigger] expr_pieces(s@)[i],
                        ) && t@ == expr_pieces(s@)[i] && (forall|j: int|
                            0 <= j < i ==> clause_from_ok(#[trigger] expr_pieces(s@)[j])))),
            },
    {
        let sep = match determine_separator(s) {
            Ok(sep) => sep,
            Err(e) => {
                return Err(e);
            },
        };
        let t = text::unquote_double(s);
        let sc: char = match sep {
            DependencySeparator::And => ',',
            DependencySeparator::Or => '?',
        };
        proof {
            assert(sc == sep_char(expr_sep(s@)));
        }
        let tokens = text::split_str(t, sc);
        let ghost gtoks = expr_tokens(s@);
        proof {
            assert(views_of_strs(tokens@) == gtoks);
        }
        let mut pieces: Vec<String> = Vec::new();
        let mut ti: usize = 0;
        proof {
            assert(expand_all(gtoks.take(0)) =~= Seq::<Seq<Seq<char>>>::empty());
            assert(views_of(pieces@) =~= expand_all(gtoks.take(0)).flatten());
        }
        while ti < tokens.len()
            invariant
                ti <= tokens@.len(),
                !expr_mixed(s@),
                views_of_strs(tokens@) == gtoks,
                gtoks == expr_tokens(s@),
                forall|j: int| 0 <= j < ti ==> expand_ok(#[trigger] gtoks[j]),
                views_of(pieces@) == expand_all(gtoks.take(ti as int)).flatten(),
            decreases tokens@.len() - ti,
        {
            let tok: &str = tokens[ti];
            proof {
                assert(tok@ == gtoks[ti as int]);
            }
            let expanded = match split_dependency_by_colon(tok) {
                Ok(v) => v,
                Err(e) => {
                    proof {
                        assert(!expand_ok(expr_tokens(s@)[ti as int]));
                    }
                    return Err(e);
                },
            };
            let ghost base = views_of(pieces@);
            let ghost x = expand_pieces(gtoks[ti as int]);
            let mut k: usize = 0;
            proof {
                assert(base + x.take(0) =~= base);
            }
            while k < expanded.len()
                invariant
                    k <= expanded@.len(),
                    views_of(expanded@) == x,
                    views_of(pieces@) == base + x.take(k as int),
                decreases expanded@.len() - k,
            {
                let ghost prev = views_of(pieces@);
                pieces.push(expanded[k].clone());
                proof {
                    assert(expanded@[k as int]@ == x[k as int]);
                    assert(views_of(pieces@) =~= prev.push(x[k as int]));
                    assert(x.take(k + 1) =~= x.take(k as int).push(x[k as int]));
                    assert(base + x.take(k as int).push(x[k as int]) =~= (base + x.take(
                        k as int,
                    )).push(x[k as int]));
                }
                k = k + 1;
            }
            proof {
                assert(x.take(x.len() as int) =~= x);
                assert(expand_all(gtoks.take(ti + 1)) =~= expand_all(gtoks.take(ti as int)).push(
                    x,
                ));
                expand_all(gtoks.take(ti as int)).lemma_flatten_push(x);
                assert(views_of(pieces@) =~= expand_all(gtoks.take(ti + 1)).flatten());
            }
            ti = ti + 1;
        }
        proof {
            assert(gtoks.take(gtoks.len() as int) =~= gtoks);
            assert(views_of(pieces@) == expr_pieces(s@));
        }
        let mut result = SbatchDependency::new();
        result.set_separator(sep);
        let ghost pv = expr_clause_views(s@);
        let ghost gpieces = expr_pieces(s@);
        let mut pi: usize = 0;
        proof {
            assert(result@.clauses =~= canon_clauses(pv.take(0)));
        }
        while pi < pieces.len()
            invariant
                pi <= pieces@.len(),
                !expr_mixed(s@),
                expr_tokens_ok(s@),
                views_of(pieces@) == gpieces,
                gpieces == expr_pieces(s@),
                pv == expr_clause_views(s@),
                pv.len() == gpieces.len(),
                forall|j: int| 0 <= j < pi ==> clause_from_ok(#[trigger] gpieces[j]),
                forall|j: int| 0 <= j < pi ==> clause_wf(#[trigger] pv[j]),
                result.wf(),
                result@.separator == expr_sep(s@),
                result@.clauses == canon_clauses(pv.take(pi as int)),
            decreases pieces@.len() - pi,
        {
            proof {
                assert(pieces@[pi as int]@ == gpieces[pi as int]);
            }
            let parsed = DependencyType::from_str(pieces[pi].as_str());
            match parsed {
                Err(_) => {
                    let bad = pieces[pi].clone();
                    proof {
                        assert(!clause_from_ok(expr_pieces(s@)[pi as int]));
                    }
                    return Err(SbatchDependencyError::ParseError(bad));
                },
                Ok(c) => {
                    proof {
                        assert(c@ == parsed_clause(gpieces[pi as int]));
                        assert(pv[pi as int] == parsed_clause(gpieces[pi as int]));
                    }
                    result.set_dependency(c);
                    proof {
                        assert(pv.take(pi + 1) =~= pv.take(pi as int).push(pv[pi as int]));
                        assert(pv.take(pi + 1).drop_last() =~= pv.take(pi as int));
                        assert(pv.take(pi + 1).last() == pv[pi as int]);
                        assert(canon_clauses(pv.take(pi + 1)) == clause_insert(
                            canon_clauses(pv.take(pi + 1).drop_last()),
                            pv.take(pi + 1).last(),
                        ));
                    }
                },
            }
            pi = pi + 1;
        }
        proof {
            assert(pv.take(pieces@.len() as int) =~= pv);
            lemma_canon_clauses_props(pv);
        }
        Ok(result)
    }

    /// Renders the expression: the clauses in canonical order, joined with
    /// the separator, wrapped in one pair of double quotes. The shorthand
    /// form is never re-emitted.
    pub fn render(&self) -> (r: String)
        ensures
            r@ == expr_text(self@),
    {
        let ghost cs = self@.clauses;
        let mut texts: Vec<String> = Vec::new();
        let mut i: usize = 0;
        while i < self.dependencies.len()
            invariant
                i <= self.dependencies.len(),
                cs == self@.clauses,
                cs.len() == self.dependencies@.len(),
                views_of(texts@) == clause_texts(cs).take(i as int),
            decreases self.dependencies.len() - i,
        {
            let t = self.dependencies[i].render();
            proof {
                assert(self.dependencies@[i as int]@ == cs[i as int]);
            }
            let ghost prev = views_of(texts@);
            texts.push(t);
            proof {
                assert(views_of(texts@) =~= prev.push(t@));
                assert(clause_texts(cs).take(i + 1) =~= clause_texts(cs).take(i as int).push(
                    clause_text(cs[i as int]),
                ));
            }
            i = i + 1;
        }
        proof {
            assert(clause_texts(cs).take(cs.len() as int) =~= clause_texts(cs));
            reveal_strlit("\"");
            reveal_strlit(",");
            reveal_strlit("?");
            assert("\""@ =~= seq!['"']);
            assert(","@ =~= seq![',']);
            assert("?"@ =~= seq!['?']);
        }
        let sep_str: &str = match self.separator {
            DependencySeparator::And => ",",
            DependencySeparator::Or => "?",
        };
        let body = crate::order::join_strings(&texts, sep_str);
        let mut out = String::from_str("\"");
        out.append(body.as_str());
        out.append("\"");
        proof {
            assert((seq!['"'] + join_seq(clause_texts(cs), seq![sep_char(self@.separator)]))
                + seq!['"'] =~= expr_text(self@));
        }
        out
    }
}

} // verus!
