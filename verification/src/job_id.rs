//! A job id: a strictly positive number, or a shell variable reference to
//! be expanded later. The two forms are mutually exclusive.

use vstd::prelude::*;
use vstd::string::*;

use crate::num;
use crate::num::{all_digits, dec_str, dec_val};
use crate::text;
use crate::text::clean_seq;
use crate::variable::{var_captured, var_text, variable_from_ok, Variable};

verus! {

/// The mathematical value of a job id.
pub enum JobIdView {
    Number(u32),
    Variable(Seq<char>),
}

/// Whether a job id value is well formed: a positive number, or a valid
/// name.
pub open spec fn job_id_wf(j: JobIdView) -> bool {
    match j {
        JobIdView::Number(n) => n >= 1,
        JobIdView::Variable(name) => crate::name::valid_name(name),
    }
}

/// The rendered form of a job id: the number in decimal, or `${name}`.
pub open spec fn job_id_text(j: JobIdView) -> Seq<char> {
    match j {
        JobIdView::Number(n) => dec_str(n as nat),
        JobIdView::Variable(name) => var_text(name),
    }
}

/// Whether the cleaned text is a decimal number in `1..=u32::MAX`.
pub open spec fn job_id_num_ok(s: Seq<char>) -> bool {
    s.len() > 0 && all_digits(s) && 1 <= dec_val(s) <= u32::MAX
}

/// Whether parsing `s0` as a job id succeeds: the number form is tried
/// first, the variable form second.
pub open spec fn job_id_from_ok(s0: Seq<char>) -> bool {
    let s = clean_seq(s0);
    job_id_num_ok(s) || variable_from_ok(s)
}

/// The job id value that parsing `s0` yields when it succeeds.
pub open spec fn parsed_job_id(s0: Seq<char>) -> JobIdView {
    let s = clean_seq(s0);
    if job_id_num_ok(s) {
        JobIdView::Number(dec_val(s) as u32)
    } else {
        JobIdView::Variable(var_captured(clean_seq(s)))
    }
}

/// Whether `c` may appear in the rendered form of a job id: a digit, the
/// variable punctuation, or a word character.
pub open spec fn job_text_char(c: char) -> bool {
    crate::num::is_digit(c) || c == '$' || c == '{' || c == '}' || crate::name::is_word_char(c)
}

/// The rendered form of a well-formed job id is non-empty and made of
/// job-text characters only.
pub proof fn lemma_job_text_chars(j: JobIdView)
    requires
        job_id_wf(j),
    ensures
        job_id_text(j).len() > 0,
        forall|i: int| 0 <= i < job_id_text(j).len() ==> job_text_char(#[trigger] job_id_text(j)[i]),
{
    match j {
        JobIdView::Number(n) => {
            crate::num::lemma_dec_str_val(n as nat);
        },
        JobIdView::Variable(name) => {
            let t = job_id_text(j);
            assert(t == seq!['$', '{'] + name + seq!['}']);
            assert forall|i: int| 0 <= i < t.len() implies job_text_char(#[trigger] t[i]) by {
                if i == 0 {
                    assert(t[0] == '$');
                } else if i == 1 {
                    assert(t[1] == '{');
                } else if i < t.len() - 1 {
                    assert(t[i] == name[i - 2]);
                } else {
                    assert(t[i] == '}');
                }
            }
        },
    }
}

/// Parsing inverts rendering: the text of a well-formed job id parses back
/// to the same value.
pub proof fn lemma_job_id_round_trip(j: JobIdView)
    requires
        job_id_wf(j),
    ensures
        job_id_from_ok(job_id_text(j)),
        parsed_job_id(job_id_text(j)) == j,
{
    let t = job_id_text(j);
    lemma_job_text_chars(j);
    text::lemma_clean_id(t);
    match j {
        JobIdView::Number(n) => {
            crate::num::lemma_dec_str_val(n as nat);
            assert(job_id_num_ok(t));
        },
        JobIdView::Variable(name) => {
            assert(t == seq!['$', '{'] + name + seq!['}']);
            assert(t[0] == '$');
            assert(!crate::num::is_digit('$'));
            assert(!all_digits(t));
            assert(!job_id_num_ok(t));
            assert(t[1] == '{');
            assert(t.last() == '}');
            assert(t.len() == name.len() + 3 >= 4);
            assert(crate::variable::var_shape_braced(t));
            assert(crate::variable::var_inner_braced(t) =~= name);
            assert(crate::variable::variable_from_ok(t));
            assert(parsed_job_id(t) == JobIdView::Variable(name));
        },
    }
}

/// A job id that parses is well formed.
pub proof fn lemma_parsed_job_id_wf(s0: Seq<char>)
    requires
        job_id_from_ok(s0),
    ensures
        job_id_wf(parsed_job_id(s0)),
{
    let s = clean_seq(s0);
    if job_id_num_ok(s) {
        assert(dec_val(s) >= 1);
    }
}

/// Errors raised when parsing a job id.
#[derive(Debug, Clone, PartialEq, Eq)]
pub enum JobIdError {
    /// Neither a positive number nor a variable reference; carries the
    /// cleaned text.
    ParseError(String),
}

/// A job id in an `sbatch` dependency clause.
#[derive(Debug, Clone, PartialEq, Eq, Hash)]
pub enum JobId {
    /// A literal job id, e.g. `1234`.
    Number(u32),
    /// A deferred job id, e.g. `${step1}`.
    Variable(Variable),
}

impl View for JobId {
    type V = JobIdView;

    open spec fn view(&self) -> JobIdView {
        match self {
            JobId::Number(n) => JobIdView::Number(*n),
            JobId::Variable(v) => JobIdView::Variable(v@),
        }
    }
}

impl JobId {
    /// Parses a job id: a positive number, else a variable reference.
    pub fn from_str(value: &str) -> (r: Result<JobId, JobIdError>)
        ensures
            r is Ok <==> job_id_from_ok(value@),
            r matches Ok(j) ==> j@ == parsed_job_id(value@) && job_id_wf(j@),
            r matches Err(e) ==> e matches JobIdError::ParseError(t) && t@ == clean_seq(
                value@,
            ),
    {
        let s = text::clean(value);
        let parsed = num::parse_u32(s);
        match parsed {
            Some(v) => {
                if v > 0 {
                    return Ok(JobId::Number(v));
                }
            },
            None => {},
        }
        match Variable::from_str(s) {
            Ok(var) => Ok(JobId::Variable(var)),
            Err(_) => Err(JobIdError::ParseError(String::from_str(s))),
        }
    }

    /// Renders the job id: the number in decimal, or `${name}`.
    pub fn render(&self) -> (r: String)
        ensures
            r@ == job_id_text(self@),
    {
        match self {
            JobId::Number(n) => num::u32_text(*n),
            JobId::Variable(v) => v.render(),
        }
    }
}

impl From<Variable> for JobId {
    /// Wraps a variable reference as a job id.
    fn from(value: Variable) -> (r: JobId) {
        JobId::Variable(value)
    }
}

impl vstd::std_specs::convert::FromSpecImpl<Variable> for JobId {
    open spec fn obeys_from_spec() -> bool {
        true
    }

    open spec fn from_spec(v: Variable) -> JobId {
        JobId::Variable(v)
    }
}

} // verus!
