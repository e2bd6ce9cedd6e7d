//! A single dependency clause of an `sbatch` `--dependency` expression:
//! the closed set of clause kinds, each carrying validated operands, with
//! parsing from and rendering to Slurm's compact syntax.

use vstd::prelude::*;
use vstd::string::*;

use crate::job_id::{job_id_from_ok, job_id_text, job_id_wf, parsed_job_id, JobId, JobIdError};
use crate::num::{dec_str, dec_val};
use crate::text;
use crate::text::{clean_seq, count_occ, first_occ, has_prefix};
use crate::time_delay::{time_delay_from_ok, TimeDelay, TimeDelayError};

verus! {

/// The mathematical value of a dependency clause.
pub enum DependencyTypeView {
    After(crate::job_id::JobIdView),
    AfterTimeDelay(crate::job_id::JobIdView, u32),
    AfterAny(crate::job_id::JobIdView),
    AfterBurstBuffer(crate::job_id::JobIdView),
    AfterCorr(crate::job_id::JobIdView),
    AfterNotOk(crate::job_id::JobIdView),
    AfterOk(crate::job_id::JobIdView),
    Singleton,
}

/// Whether a clause value is well formed: operands are well formed and a
/// time delay is strictly positive.
pub open spec fn clause_wf(c: DependencyTypeView) -> bool {
    match c {
        DependencyTypeView::After(j) => job_id_wf(j),
        DependencyTypeView::AfterTimeDelay(j, t) => job_id_wf(j) && t >= 1,
        DependencyTypeView::AfterAny(j) => job_id_wf(j),
        DependencyTypeView::AfterBurstBuffer(j) => job_id_wf(j),
        DependencyTypeView::AfterCorr(j) => job_id_wf(j),
        DependencyTypeView::AfterNotOk(j) => job_id_wf(j),
        DependencyTypeView::AfterOk(j) => job_id_wf(j),
        DependencyTypeView::Singleton => true,
    }
}

/// The clause-kind prefixes of the grammar, as transparent sequences.
pub open spec fn lit_after() -> Seq<char> {
    seq!['a', 'f', 't', 'e', 'r', ':']
}

pub open spec fn lit_afterany() -> Seq<char> {
    seq!['a', 'f', 't', 'e', 'r', 'a', 'n', 'y', ':']
}

pub open spec fn lit_afterburstbuffer() -> Seq<char> {
    seq!['a', 'f', 't', 'e', 'r', 'b', 'u', 'r', 's', 't', 'b', 'u', 'f', 'f', 'e', 'r', ':']
}

pub open spec fn lit_aftercorr() -> Seq<char> {
    seq!['a', 'f', 't', 'e', 'r', 'c', 'o', 'r', 'r', ':']
}

pub open spec fn lit_afternotok() -> Seq<char> {
    seq!['a', 'f', 't', 'e', 'r', 'n', 'o', 't', 'o', 'k', ':']
}

pub open spec fn lit_afterok() -> Seq<char> {
    seq!['a', 'f', 't', 'e', 'r', 'o', 'k', ':']
}

pub open spec fn lit_singleton() -> Seq<char> {
    seq!['s', 'i', 'n', 'g', 'l', 'e', 't', 'o', 'n']
}

/// The rendered form of a clause.
pub open spec fn clause_text(c: DependencyTypeView) -> Seq<char> {
    match c {
        DependencyTypeView::After(j) => lit_after() + job_id_text(j),
        DependencyTypeView::AfterTimeDelay(j, t) => lit_after() + job_id_text(j) + seq!['+']
            + dec_str(t as nat),
        DependencyTypeView::AfterAny(j) => lit_afterany() + job_id_text(j),
        DependencyTypeView::AfterBurstBuffer(j) => lit_afterburstbuffer() + job_id_text(j),
        DependencyTypeView::AfterCorr(j) => lit_aftercorr() + job_id_text(j),
        DependencyTypeView::AfterNotOk(j) => lit_afternotok() + job_id_text(j),
        DependencyTypeView::AfterOk(j) => lit_afterok() + job_id_text(j),
        DependencyTypeView::Singleton => lit_singleton(),
    }
}

/// Whether the argument of an `after:` clause parses: a job id, or a job
/// id and a time delay split at a single `+`.
pub open spec fn after_arg_ok(s: Seq<char>) -> bool {
    if count_occ(s, '+') == 0 {
        job_id_from_ok(s)
    } else if count_occ(s, '+') == 1 {
        job_id_from_ok(s.take(first_occ(s, '+'))) && time_delay_from_ok(
            s.skip(first_occ(s, '+') + 1),
        )
    } else {
        false
    }
}

/// The clause that the argument of an `after:` clause yields on success.
pub open spec fn after_arg_view(s: Seq<char>) -> DependencyTypeView {
    if count_occ(s, '+') == 0 {
        DependencyTypeView::After(parsed_job_id(s))
    } else {
        DependencyTypeView::AfterTimeDelay(
            parsed_job_id(s.take(first_occ(s, '+'))),
            dec_val(clean_seq(s.skip(first_occ(s, '+') + 1))) as u32,
        )
    }
}

/// Which error the argument of an `after:` clause is owed when it is
/// rejected.
pub open spec fn after_err_matches(s: Seq<char>, e: DependencyTypeError) -> bool {
    if count_occ(s, '+') == 0 {
        e matches DependencyTypeError::InvalidJobId(JobIdError::ParseError(t)) && t@
            == clean_seq(s)
    } else if count_occ(s, '+') == 1 {
        if !job_id_from_ok(s.take(first_occ(s, '+'))) {
            e matches DependencyTypeError::InvalidJobId(JobIdError::ParseError(t)) && t@
                == clean_seq(s.take(first_occ(s, '+')))
        } else {
            e matches DependencyTypeError::InvalidTimeDelay(TimeDelayError::ParseIntError(t))
                && t@ == clean_seq(s.skip(first_occ(s, '+') + 1))
        }
    } else {
        e matches DependencyTypeError::InvalidJobId(JobIdError::ParseError(t)) && t@ == s
    }
}

/// Whether parsing a full clause token succeeds, after cleaning: the
/// prefixes are tried in a fixed order, `singleton` takes no operand.
pub open spec fn clause_from_ok(s0: Seq<char>) -> bool {
    let s = clean_seq(s0);
    if s.len() == 0 {
        false
    } else if has_prefix(s, lit_after()) {
        after_arg_ok(s.skip(6))
    } else if has_prefix(s, lit_afterany()) {
        job_id_from_ok(s.skip(9))
    } else if has_prefix(s, lit_afterburstbuffer()) {
        job_id_from_ok(s.skip(17))
    } else if has_prefix(s, lit_aftercorr()) {
        job_id_from_ok(s.skip(10))
    } else if has_prefix(s, lit_afternotok()) {
        job_id_from_ok(s.skip(11))
    } else if has_prefix(s, lit_afterok()) {
        job_id_from_ok(s.skip(8))
    } else if has_prefix(s, lit_singleton()) {
        s.len() == 9
    } else {
        false
    }
}

/// The clause that parsing a token yields when it succeeds.
pub open spec fn parsed_clause(s0: Seq<char>) -> DependencyTypeView {
    let s = clean_seq(s0);
    if has_prefix(s, lit_after()) {
        after_arg_view(s.skip(6))
    } else if has_prefix(s, lit_afterany()) {
        DependencyTypeView::AfterAny(parsed_job_id(s.skip(9)))
    } else if has_prefix(s, lit_afterburstbuffer()) {
        DependencyTypeView::AfterBurstBuffer(parsed_job_id(s.skip(17)))
    } else if has_prefix(s, lit_aftercorr()) {
        DependencyTypeView::AfterCorr(parsed_job_id(s.skip(10)))
    } else if has_prefix(s, lit_afternotok()) {
        DependencyTypeView::AfterNotOk(parsed_job_id(s.skip(11)))
    } else if has_prefix(s, lit_afterok()) {
        DependencyTypeView::AfterOk(parsed_job_id(s.skip(8)))
    } else {
        DependencyTypeView::Singleton
    }
}

/// Which error a rejected clause token is owed.
pub open spec fn clause_err_matches(s0: Seq<char>, e: DependencyTypeError) -> bool {
    let s = clean_seq(s0);
    if s.len() == 0 {
        e == DependencyTypeError::EmptyString
    } else if has_prefix(s, lit_after()) {
        after_err_matches(s.skip(6), e)
    } else if has_prefix(s, lit_afterany()) {
        e matches DependencyTypeError::InvalidJobId(JobIdError::ParseError(t)) && t@
            == clean_seq(s.skip(9))
    } else if has_prefix(s, lit_afterburstbuffer()) {
        e matches DependencyTypeError::InvalidJobId(JobIdError::ParseError(t)) && t@
            == clean_seq(s.skip(17))
    } else if has_prefix(s, lit_aftercorr()) {
        e matches DependencyTypeError::InvalidJobId(JobIdError::ParseError(t)) && t@
            == clean_seq(s.skip(10))
    } else if has_prefix(s, lit_afternotok()) {
        e matches DependencyTypeError::InvalidJobId(JobIdError::ParseError(t)) && t@
            == clean_seq(s.skip(11))
    } else if has_prefix(s, lit_afterok()) {
        e matches DependencyTypeError::InvalidJobId(JobIdError::ParseError(t)) && t@
            == clean_seq(s.skip(8))
    } else if has_prefix(s, lit_singleton()) {
        e matches DependencyTypeError::SingletonJobIdFound(t) && t@ == s.skip(9)
    } else {
        e matches DependencyTypeError::InvalidJobId(JobIdError::ParseError(t)) && t@ == s
    }
}

/// Job-text characters are neither separators, whitespace, nor quotes.
proof fn lemma_job_char_plain(c: char)
    requires
        crate::job_id::job_text_char(c),
    ensures
        c != '+',
        !crate::text::is_ws(c),
        c != '\'',
        c != '"',
{
}

/// Round-trip: rendering a well-formed clause and parsing the text back
/// yields the same clause. This also makes the rendering injective on
/// well-formed clauses.
#[verifier::rlimit(60)]
pub proof fn lemma_clause_round_trip(c: DependencyTypeView)
    requires
        clause_wf(c),
    ensures
        clause_from_ok(clause_text(c)),
        parsed_clause(clause_text(c)) == c,
{
    let t = clause_text(c);
    match c {
        DependencyTypeView::After(j) => {
            let jt = job_id_text(j);
            crate::job_id::lemma_job_text_chars(j);
            crate::job_id::lemma_job_id_round_trip(j);
            assert(t == lit_after() + jt);
            assert(t[0] == 'a');
            assert(t.last() == jt.last());
            lemma_job_char_plain(jt.last());
            text::lemma_clean_id(t);
            assert(t.subrange(0, 6) =~= lit_after());
            let arg = t.skip(6);
            assert(arg =~= jt);
            assert(forall|i: int| 0 <= i < jt.len() ==> jt[i] != '+') by {
                assert forall|i: int| 0 <= i < jt.len() implies jt[i] != '+' by {
                    lemma_job_char_plain(jt[i]);
                }
            }
            text::lemma_count_none(jt, '+');
        },
        DependencyTypeView::AfterTimeDelay(j, d) => {
            let jt = job_id_text(j);
            let ds = dec_str(d as nat);
            crate::job_id::lemma_job_text_chars(j);
            crate::job_id::lemma_job_id_round_trip(j);
            crate::num::lemma_dec_str_val(d as nat);
            assert(t == lit_after() + jt + seq!['+'] + ds);
            assert(t[0] == 'a');
            assert(t.last() == ds.last());
            assert(crate::num::is_digit(ds.last()));
            text::lemma_clean_id(t);
            assert(t.subrange(0, 6) =~= lit_after());
            let arg = t.skip(6);
            assert(arg =~= jt + seq!['+'] + ds);
            assert(forall|i: int| 0 <= i < jt.len() ==> jt[i] != '+') by {
                assert forall|i: int| 0 <= i < jt.len() implies jt[i] != '+' by {
                    lemma_job_char_plain(jt[i]);
                }
            }
            assert(forall|i: int| 0 <= i < ds.len() ==> ds[i] != '+');
            let m = jt.len() as int;
            assert(arg[m] == '+');
            assert(forall|i: int| 0 <= i < m ==> #[trigger] arg[i] == jt[i]);
            text::lemma_first_occ(arg, '+', m);
            assert(arg.skip(m + 1) =~= ds);
            text::lemma_count_none(ds, '+');
            assert(count_occ(arg, '+') == 1);
            assert(first_occ(arg, '+') == m);
            assert(arg.take(m) =~= jt);
            text::lemma_clean_id(ds);
            assert(time_delay_from_ok(ds));
            assert(dec_val(clean_seq(ds)) == d as nat);
            assert(after_arg_ok(arg));
            assert(after_arg_view(arg) == c);
        },
        DependencyTypeView::AfterAny(j) => {
            let jt = job_id_text(j);
            crate::job_id::lemma_job_text_chars(j);
            crate::job_id::lemma_job_id_round_trip(j);
            assert(t == lit_afterany() + jt);
            assert(t[0] == 'a');
            assert(t.last() == jt.last());
            lemma_job_char_plain(jt.last());
            text::lemma_clean_id(t);
            assert(t[5] == 'a');
            text::lemma_prefix_differs(t, lit_after(), 5);
            assert(t.subrange(0, 9) =~= lit_afterany());
            assert(t.skip(9) =~= jt);
        },
        DependencyTypeView::AfterBurstBuffer(j) => {
            let jt = job_id_text(j);
            crate::job_id::lemma_job_text_chars(j);
            crate::job_id::lemma_job_id_round_trip(j);
            assert(t == lit_afterburstbuffer() + jt);
            assert(t[0] == 'a');
            assert(t.last() == jt.last());
            lemma_job_char_plain(jt.last());
            text::lemma_clean_id(t);
            assert(t[5] == 'b');
            text::lemma_prefix_differs(t, lit_after(), 5);
            text::lemma_prefix_differs(t, lit_afterany(), 5);
            assert(t.subrange(0, 17) =~= lit_afterburstbuffer());
            assert(t.skip(17) =~= jt);
        },
        DependencyTypeView::AfterCorr(j) => {
            let jt = job_id_text(j);
            crate::job_id::lemma_job_text_chars(j);
            crate::job_id::lemma_job_id_round_trip(j);
            assert(t == lit_aftercorr() + jt);
            assert(t[0] == 'a');
            assert(t.last() == jt.last());
            lemma_job_char_plain(jt.last());
            text::lemma_clean_id(t);
            assert(t[5] == 'c');
            text::lemma_prefix_differs(t, lit_after(), 5);
            text::lemma_prefix_differs(t, lit_afterany(), 5);
            text::lemma_prefix_differs(t, lit_afterburstbuffer(), 5);
            assert(t.subrange(0, 10) =~= lit_aftercorr());
            assert(t.skip(10) =~= jt);
        },
        DependencyTypeView::AfterNotOk(j) => {
            let jt = job_id_text(j);
            crate::job_id::lemma_job_text_chars(j);
            crate::job_id::lemma_job_id_round_trip(j);
            assert(t == lit_afternotok() + jt);
            assert(t[0] == 'a');
            assert(t.last() == jt.last());
            lemma_job_char_plain(jt.last());
            text::lemma_clean_id(t);
            assert(t[5] == 'n');
            text::lemma_prefix_differs(t, lit_after(), 5);
            text::lemma_prefix_differs(t, lit_afterany(), 5);
            text::lemma_prefix_differs(t, lit_afterburstbuffer(), 5);
            text::lemma_prefix_differs(t, lit_aftercorr(), 5);
            assert(t.subrange(0, 11) =~= lit_afternotok());
            assert(t.skip(11) =~= jt);
        },
        DependencyTypeView::AfterOk(j) => {
            let jt = job_id_text(j);
            crate::job_id::lemma_job_text_chars(j);
            crate::job_id::lemma_job_id_round_trip(j);
            assert(t == lit_afterok() + jt);
            assert(t[0] == 'a');
            assert(t.last() == jt.last());
            lemma_job_char_plain(jt.last());
            text::lemma_clean_id(t);
            assert(t[5] == 'o');
            text::lemma_prefix_differs(t, lit_after(), 5);
            text::lemma_prefix_differs(t, lit_afterany(), 5);
            text::lemma_prefix_differs(t, lit_afterburstbuffer(), 5);
            text::lemma_prefix_differs(t, lit_aftercorr(), 5);
            text::lemma_prefix_differs(t, lit_afternotok(), 5);
            assert(t.subrange(0, 8) =~= lit_afterok());
            assert(t.skip(8) =~= jt);
        },
        DependencyTypeView::Singleton => {
            assert(t == lit_singleton());
            assert(t[0] == 's');
            assert(t.last() == 'n');
            text::lemma_clean_id(t);
            text::lemma_prefix_differs(t, lit_after(), 0);
            text::lemma_prefix_differs(t, lit_afterany(), 0);
            assert(!has_prefix(t, lit_afterburstbuffer()));
            assert(!has_prefix(t, lit_aftercorr()));
            assert(!has_prefix(t, lit_afternotok()));
            text::lemma_prefix_differs(t, lit_afterok(), 0);
            assert(t.subrange(0, 9) =~= lit_singleton());
        },
    }
}

/// A clause that parses is well formed.
pub proof fn lemma_parsed_clause_wf(s0: Seq<char>)
    requires
        clause_from_ok(s0),
    ensures
        clause_wf(parsed_clause(s0)),
{
    let s = clean_seq(s0);
    if has_prefix(s, lit_after()) {
        let arg = s.skip(6);
        if count_occ(arg, '+') == 0 {
            crate::job_id::lemma_parsed_job_id_wf(arg);
        } else {
            let i = first_occ(arg, '+');
            crate::job_id::lemma_parsed_job_id_wf(arg.take(i));
            assert(dec_val(clean_seq(arg.skip(i + 1))) >= 1);
        }
    } else if has_prefix(s, lit_afterany()) {
        crate::job_id::lemma_parsed_job_id_wf(s.skip(9));
    } else if has_prefix(s, lit_afterburstbuffer()) {
        crate::job_id::lemma_parsed_job_id_wf(s.skip(17));
    } else if has_prefix(s, lit_aftercorr()) {
        crate::job_id::lemma_parsed_job_id_wf(s.skip(10));
    } else if has_prefix(s, lit_afternotok()) {
        crate::job_id::lemma_parsed_job_id_wf(s.skip(11));
    } else if has_prefix(s, lit_afterok()) {
        crate::job_id::lemma_parsed_job_id_wf(s.skip(8));
    }
}

/// Two well-formed clauses with the same rendered text are the same
/// clause.
pub proof fn lemma_clause_text_injective(c1: DependencyTypeView, c2: DependencyTypeView)
    requires
        clause_wf(c1),
        clause_wf(c2),
        clause_text(c1) == clause_text(c2),
    ensures
        c1 == c2,
{
    lemma_clause_round_trip(c1);
    lemma_clause_round_trip(c2);
}

/// Errors raised when building or parsing a dependency clause.
#[derive(Debug, Clone, PartialEq, Eq)]
pub enum DependencyTypeError {
    /// The job id operand is invalid.
    InvalidJobId(JobIdError),
    /// The time delay operand is invalid.
    InvalidTimeDelay(TimeDelayError),
    /// The clause token is empty.
    EmptyString,
    /// `singleton` takes no job id; carries the unexpected remainder.
    SingletonJobIdFound(String),
}

impl From<JobIdError> for DependencyTypeError {
    /// Tags a job id error as a clause error.
    fn from(error: JobIdError) -> (r: DependencyTypeError) {
        DependencyTypeError::InvalidJobId(error)
    }
}

impl vstd::std_specs::convert::FromSpecImpl<JobIdError> for DependencyTypeError {
    open spec fn obeys_from_spec() -> bool {
        true
    }

    open spec fn from_spec(e: JobIdError) -> DependencyTypeError {
        DependencyTypeError::InvalidJobId(e)
    }
}

impl From<TimeDelayError> for DependencyTypeError {
    /// Tags a time delay error as a clause error.
    fn from(error: TimeDelayError) -> (r: DependencyTypeError) {
        DependencyTypeError::InvalidTimeDelay(error)
    }
}

impl vstd::std_specs::convert::FromSpecImpl<TimeDelayError> for DependencyTypeError {
    open spec fn obeys_from_spec() -> bool {
        true
    }

    open spec fn from_spec(e: TimeDelayError) -> DependencyTypeError {
        DependencyTypeError::InvalidTimeDelay(e)
    }
}

/// A dependency clause in a Slurm job script.
#[derive(Debug, Clone, PartialEq, Eq, Hash)]
pub enum DependencyType {
    /// This job can begin after the named job starts or is cancelled.
    After(JobId),
    /// Like `After`, with a delay in minutes from that event.
    AfterTimeDelay(JobId, TimeDelay),
    /// This job can begin after the named job terminates.
    AfterAny(JobId),
    /// This job can begin after the named job terminates and its burst
    /// buffer stage-out completes.
    AfterBurstBuffer(JobId),
    /// A task of this array job can begin after the corresponding task of
    /// the named job completes successfully.
    AfterCorr(JobId),
    /// This job can begin after the named job fails.
    AfterNotOk(JobId),
    /// This job can begin after the named job completes successfully.
    AfterOk(JobId),
    /// Only one job of this name and user may run at a time.
    Singleton,
}

impl View for DependencyType {
    type V = DependencyTypeView;

    open spec fn view(&self) -> DependencyTypeView {
        match self {
            DependencyType::After(j) => DependencyTypeView::After(j@),
            DependencyType::AfterTimeDelay(j, d) => DependencyTypeView::AfterTimeDelay(j@, d@),
            DependencyType::AfterAny(j) => DependencyTypeView::AfterAny(j@),
            DependencyType::AfterBurstBuffer(j) => DependencyTypeView::AfterBurstBuffer(j@),
            DependencyType::AfterCorr(j) => DependencyTypeView::AfterCorr(j@),
            DependencyType::AfterNotOk(j) => DependencyTypeView::AfterNotOk(j@),
            DependencyType::AfterOk(j) => DependencyTypeView::AfterOk(j@),
            DependencyType::Singleton => DependencyTypeView::Singleton,
        }
    }
}

impl DependencyType {
    /// Parses the argument of an `after` clause: `job`, or `job+delay`
    /// split at a single `+`.
    pub fn after(job_id: &str) -> (r: Result<DependencyType, DependencyTypeError>)
        ensures
            r is Ok <==> after_arg_ok(job_id@),
            r matches Ok(c) ==> c@ == after_arg_view(job_id@) && clause_wf(c@),
            r matches Err(e) ==> after_err_matches(job_id@, e),
    {
        let n: usize = job_id.unicode_len();
        match text::find_char(job_id, '+') {
            None => {
                proof {
                    text::lemma_count_none(job_id@, '+');
                }
                match JobId::from_str(job_id) {
                    Ok(j) => Ok(DependencyType::After(j)),
                    Err(e) => Err(DependencyTypeError::InvalidJobId(e)),
                }
            },
            Some(i) => {
                proof {
                    text::lemma_first_occ(job_id@, '+', i as int);
                }
                let rest = job_id.substring_char(i + 1, n);
                match text::find_char(rest, '+') {
                    Some(k) => {
                        proof {
                            text::lemma_count_none(rest@, '+');
                            assert(rest@[k as int] == '+');
                            assert(count_occ(rest@, '+') != 0);
                        }
                        Err(
                            DependencyTypeError::InvalidJobId(
                                JobIdError::ParseError(String::from_str(job_id)),
                            ),
                        )
                    },
                    None => {
                        proof {
                            text::lemma_count_none(rest@, '+');
                        }
                        let job = job_id.substring_char(0, i);
                        proof {
                            assert(job@ =~= job_id@.take(i as int));
                            assert(rest@ =~= job_id@.skip(i + 1));
                        }
                        DependencyType::after_time_delay(job, rest)
                    },
                }
            },
        }
    }

    /// Builds an `after` clause with an explicit time delay.
    pub fn after_time_delay(job_id: &str, time_delay: &str) -> (r: Result<
        DependencyType,
        DependencyTypeError,
    >)
        ensures
            r is Ok <==> job_id_from_ok(job_id@) && time_delay_from_ok(time_delay@),
            r matches Ok(c) ==> c@ == DependencyTypeView::AfterTimeDelay(
                parsed_job_id(job_id@),
                dec_val(clean_seq(time_delay@)) as u32,
            ) && clause_wf(c@),
            r matches Err(e) ==> if !job_id_from_ok(job_id@) {
                e matches DependencyTypeError::InvalidJobId(JobIdError::ParseError(t)) && t@
                    == clean_seq(job_id@)
            } else {
                e matches DependencyTypeError::InvalidTimeDelay(
                    TimeDelayError::ParseIntError(t),
                ) && t@ == clean_seq(time_delay@)
            },
    {
        let j = match JobId::from_str(job_id) {
            Ok(j) => j,
            Err(e) => {
                return Err(DependencyTypeError::InvalidJobId(e));
            },
        };
        let d = match TimeDelay::from_str(time_delay) {
            Ok(d) => d,
            Err(e) => {
                return Err(DependencyTypeError::InvalidTimeDelay(e));
            },
        };
        Ok(DependencyType::AfterTimeDelay(j, d))
    }

    /// Builds an `afterany` clause.
    pub fn after_any(job_id: &str) -> (r: Result<DependencyType, DependencyTypeError>)
        ensures
            r is Ok <==> job_id_from_ok(job_id@),
            r matches Ok(c) ==> c@ == DependencyTypeView::AfterAny(parsed_job_id(job_id@))
                && clause_wf(c@),
            r matches Err(e) ==> e matches DependencyTypeError::InvalidJobId(
                JobIdError::ParseError(t),
            ) && t@ == clean_seq(job_id@),
    {
        match JobId::from_str(job_id) {
            Ok(j) => Ok(DependencyType::AfterAny(j)),
            Err(e) => Err(DependencyTypeError::InvalidJobId(e)),
        }
    }

    /// Builds an `afterburstbuffer` clause.
    pub fn after_burst_buffer(job_id: &str) -> (r: Result<DependencyType, DependencyTypeError>)
        ensures
            r is Ok <==> job_id_from_ok(job_id@),
            r matches Ok(c) ==> c@ == DependencyTypeView::AfterBurstBuffer(
                parsed_job_id(job_id@),
            ) && clause_wf(c@),
            r matches Err(e) ==> e matches DependencyTypeError::InvalidJobId(
                JobIdError::ParseError(t),
            ) && t@ == clean_seq(job_id@),
    {
        match JobId::from_str(job_id) {
            Ok(j) => Ok(DependencyType::AfterBurstBuffer(j)),
            Err(e) => Err(DependencyTypeError::InvalidJobId(e)),
        }
    }

    /// Builds an `aftercorr` clause.
    pub fn after_corr(job_id: &str) -> (r: Result<DependencyType, DependencyTypeError>)
        ensures
            r is Ok <==> job_id_from_ok(job_id@),
            r matches Ok(c) ==> c@ == DependencyTypeView::AfterCorr(parsed_job_id(job_id@))
                && clause_wf(c@),
            r matches Err(e) ==> e matches DependencyTypeError::InvalidJobId(
                JobIdError::ParseError(t),
            ) && t@ == clean_seq(job_id@),
    {
        match JobId::from_str(job_id) {
            Ok(j) => Ok(DependencyType::AfterCorr(j)),
            Err(e) => Err(DependencyTypeError::InvalidJobId(e)),
        }
    }

    /// Builds an `afternotok` clause.
    pub fn after_not_ok(job_id: &str) -> (r: Result<DependencyType, DependencyTypeError>)
        ensures
            r is Ok <==> job_id_from_ok(job_id@),
            r matches Ok(c) ==> c@ == DependencyTypeView::AfterNotOk(parsed_job_id(job_id@))
                && clause_wf(c@),
            r matches Err(e) ==> e matches DependencyTypeError::InvalidJobId(
                JobIdError::ParseError(t),
            ) && t@ == clean_seq(job_id@),
    {
        match JobId::from_str(job_id) {
            Ok(j) => Ok(DependencyType::AfterNotOk(j)),
            Err(e) => Err(DependencyTypeError::InvalidJobId(e)),
        }
    }

    /// Builds an `afterok` clause.
    pub fn after_ok(job_id: &str) -> (r: Result<DependencyType, DependencyTypeError>)
        ensures
            r is Ok <==> job_id_from_ok(job_id@),
            r matches Ok(c) ==> c@ == DependencyTypeView::AfterOk(parsed_job_id(job_id@))
                && clause_wf(c@),
            r matches Err(e) ==> e matches DependencyTypeError::InvalidJobId(
                JobIdError::ParseError(t),
            ) && t@ == clean_seq(job_id@),
    {
        match JobId::from_str(job_id) {
            Ok(j) => Ok(DependencyType::AfterOk(j)),
            Err(e) => Err(DependencyTypeError::InvalidJobId(e)),
        }
    }

    /// Builds a `singleton` clause. The argument keeps the calling
    /// convention uniform and must be empty.
    pub fn singleton(job_id: &str) -> (r: Result<DependencyType, DependencyTypeError>)
        ensures
            r is Ok <==> job_id@.len() == 0,
            r matches Ok(c) ==> c@ == DependencyTypeView::Singleton,
            r matches Err(e) ==> e matches DependencyTypeError::SingletonJobIdFound(t) && t@
                == job_id@,
    {
        if job_id.is_empty() {
            Ok(DependencyType::Singleton)
        } else {
            Err(DependencyTypeError::SingletonJobIdFound(String::from_str(job_id)))
        }
    }

    /// Parses a full clause token: cleans it, rejects emptiness, then
    /// dispatches on the first matching kind prefix.
    pub fn from_str(value: &str) -> (r: Result<DependencyType, DependencyTypeError>)
        ensures
            r is Ok <==> clause_from_ok(value@),
            r matches Ok(c) ==> c@ == parsed_clause(value@) && clause_wf(c@),
            r matches Err(e) ==> clause_err_matches(value@, e),
    {
        proof {
            reveal_strlit("after:");
            reveal_strlit("afterany:");
            reveal_strlit("afterburstbuffer:");
            reveal_strlit("aftercorr:");
            reveal_strlit("afternotok:");
            reveal_strlit("afterok:");
            reveal_strlit("singleton");
            assert("after:"@ =~= lit_after());
            assert("afterany:"@ =~= lit_afterany());
            assert("afterburstbuffer:"@ =~= lit_afterburstbuffer());
            assert("aftercorr:"@ =~= lit_aftercorr());
            assert("afternotok:"@ =~= lit_afternotok());
            assert("afterok:"@ =~= lit_afterok());
            assert("singleton"@ =~= lit_singleton());
        }
        let s = text::clean(value);
        if s.is_empty() {
            return Err(DependencyTypeError::EmptyString);
        }
        if let Some(rest) = text::strip_prefix_of(s, "after:") {
            return DependencyType::after(rest);
        }
        if let Some(rest) = text::strip_prefix_of(s, "afterany:") {
            return DependencyType::after_any(rest);
        }
        if let Some(rest) = text::strip_prefix_of(s, "afterburstbuffer:") {
            return DependencyType::after_burst_buffer(rest);
        }
        if let Some(rest) = text::strip_prefix_of(s, "aftercorr:") {
            return DependencyType::after_corr(rest);
        }
        if let Some(rest) = text::strip_prefix_of(s, "afternotok:") {
            return DependencyType::after_not_ok(rest);
        }
        if let Some(rest) = text::strip_prefix_of(s, "afterok:") {
            return DependencyType::after_ok(rest);
        }
        if let Some(rest) = text::strip_prefix_of(s, "singleton") {
            return DependencyType::singleton(rest);
        }
        Err(DependencyTypeError::InvalidJobId(JobIdError::ParseError(String::from_str(s))))
    }

    /// Renders the clause in Slurm's syntax.
    pub fn render(&self) -> (r: String)
        ensures
            r@ == clause_text(self@),
    {
        proof {
            reveal_strlit("after:");
            reveal_strlit("afterany:");
            reveal_strlit("afterburstbuffer:");
            reveal_strlit("aftercorr:");
            reveal_strlit("afternotok:");
            reveal_strlit("afterok:");
            reveal_strlit("singleton");
            reveal_strlit("+");
            assert("after:"@ =~= lit_after());
            assert("afterany:"@ =~= lit_afterany());
            assert("afterburstbuffer:"@ =~= lit_afterburstbuffer());
            assert("aftercorr:"@ =~= lit_aftercorr());
            assert("afternotok:"@ =~= lit_afternotok());
            assert("afterok:"@ =~= lit_afterok());
            assert("singleton"@ =~= lit_singleton());
            assert("+"@ =~= seq!['+']);
        }
        match self {
            DependencyType::After(j) => {
                let mut s = String::from_str("after:");
                let jr = j.render();
                s.append(jr.as_str());
                s
            },
            DependencyType::AfterTimeDelay(j, d) => {
                let mut s = String::from_str("after:");
                let jr = j.render();
                s.append(jr.as_str());
                s.append("+");
                let dr = d.render();
                s.append(dr.as_str());
                proof {
                    assert((lit_after() + job_id_text(j@) + seq!['+']) + dec_str(d@ as nat)
                        =~= clause_text(self@));
                }
                s
            },
            DependencyType::AfterAny(j) => {
                let mut s = String::from_str("afterany:");
                let jr = j.render();
                s.append(jr.as_str());
                s
            },
            DependencyType::AfterBurstBuffer(j) => {
                let mut s = String::from_str("afterburstbuffer:");
                let jr = j.render();
                s.append(jr.as_str());
                s
            },
            DependencyType::AfterCorr(j) => {
                let mut s = String::from_str("aftercorr:");
                let jr = j.render();
                s.append(jr.as_str());
                s
            },
            DependencyType::AfterNotOk(j) => {
                let mut s = String::from_str("afternotok:");
                let jr = j.render();
                s.append(jr.as_str());
                s
            },
            DependencyType::AfterOk(j) => {
                let mut s = String::from_str("afterok:");
                let jr = j.render();
                s.append(jr.as_str());
                s
            },
            DependencyType::Singleton => String::from_str("singleton"),
        }
    }
}

} // verus!
