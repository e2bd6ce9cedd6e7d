//! A lightweight builder for dependency strings: clauses carry raw text
//! that is validated when pushed, and `build` renders the deduplicated,
//! sorted clause list joined by the chosen separator.

use vstd::prelude::*;
use vstd::string::*;

use crate::dependency_type::{lit_after, lit_afterany, lit_afterburstbuffer, lit_aftercorr,
    lit_afternotok, lit_afterok, lit_singleton};
use crate::order;
use crate::order::{dedup_sort_seq, join_seq, views_of};
use crate::text;
use crate::text::trim_seq;

verus! {

/// Whether a clause operand is acceptable: non-empty and free of leading
/// or trailing whitespace.
pub open spec fn seg_valid(s: Seq<char>) -> bool {
    trim_seq(s) == s && s.len() > 0
}

/// Which error a rejected operand is owed: emptiness is reported first.
pub open spec fn seg_err_matches(s: Seq<char>, e: DependencyTypeError) -> bool {
    match e {
        DependencyTypeError::EmptyDependencyType => trim_seq(s).len() == 0,
        DependencyTypeError::LeadingOrTrailingSpaces => trim_seq(s).len() > 0 && trim_seq(s)
            != s,
    }
}

/// A dependency clause holding raw operand text.
#[derive(Debug, Clone, PartialEq, Eq, Hash)]
pub enum DependencyType {
    /// Maps to `after:<job_id>`.
    After(String),
    /// Maps to `after:<job_id>+<time_delay>`.
    AfterTimeDelay(String, String),
    /// Maps to `afterany:<job_id>`.
    AfterAny(String),
    /// Maps to `afterburstbuffer:<job_id>`.
    AfterBurstBuffer(String),
    /// Maps to `aftercorr:<job_id>`.
    AfterCorr(String),
    /// Maps to `afternotok:<job_id>`.
    AfterNotOk(String),
    /// Maps to `afterok:<job_id>`.
    AfterOk(String),
    /// Maps to `singleton`.
    Singleton,
}

/// Errors raised when validating a clause's raw text.
#[derive(Debug, Clone, PartialEq, Eq)]
pub enum DependencyTypeError {
    /// An operand is empty, or whitespace only.
    EmptyDependencyType,
    /// An operand has leading or trailing whitespace.
    LeadingOrTrailingSpaces,
}

/// Whether every operand of the clause is acceptable.
pub open spec fn builder_valid(d: &DependencyType) -> bool {
    match d {
        DependencyType::After(j) => seg_valid(j@),
        DependencyType::AfterTimeDelay(j, t) => seg_valid(j@) && seg_valid(t@),
        DependencyType::AfterAny(j) => seg_valid(j@),
        DependencyType::AfterBurstBuffer(j) => seg_valid(j@),
        DependencyType::AfterCorr(j) => seg_valid(j@),
        DependencyType::AfterNotOk(j) => seg_valid(j@),
        DependencyType::AfterOk(j) => seg_valid(j@),
        DependencyType::Singleton => true,
    }
}

/// Which error a rejected clause is owed: operands are checked in order.
pub open spec fn builder_err_matches(d: &DependencyType, e: DependencyTypeError) -> bool {
    match d {
        DependencyType::After(j) => seg_err_matches(j@, e),
        DependencyType::AfterTimeDelay(j, t) => if !seg_valid(j@) {
            seg_err_matches(j@, e)
        } else {
            seg_err_matches(t@, e)
        },
        DependencyType::AfterAny(j) => seg_err_matches(j@, e),
        DependencyType::AfterBurstBuffer(j) => seg_err_matches(j@, e),
        DependencyType::AfterCorr(j) => seg_err_matches(j@, e),
        DependencyType::AfterNotOk(j) => seg_err_matches(j@, e),
        DependencyType::AfterOk(j) => seg_err_matches(j@, e),
        DependencyType::Singleton => false,
    }
}

/// The rendered form of a clause; operands are trimmed on output.
pub open spec fn builder_text(d: &DependencyType) -> Seq<char> {
    match d {
        DependencyType::After(j) => lit_after() + trim_seq(j@),
        DependencyType::AfterTimeDelay(j, t) => lit_after() + trim_seq(j@) + seq!['+']
            + trim_seq(t@),
        DependencyType::AfterAny(j) => lit_afterany() + trim_seq(j@),
        DependencyType::AfterBurstBuffer(j) => lit_afterburstbuffer() + trim_seq(j@),
        DependencyType::AfterCorr(j) => lit_aftercorr() + trim_seq(j@),
        DependencyType::AfterNotOk(j) => lit_afternotok() + trim_seq(j@),
        DependencyType::AfterOk(j) => lit_afterok() + trim_seq(j@),
        DependencyType::Singleton => lit_singleton(),
    }
}

/// Validates one operand: non-empty, no outer whitespace.
fn validate_str(s: &str) -> (r: Result<(), DependencyTypeError>)
    ensures
        r is Ok <==> seg_valid(s@),
        r matches Err(e) ==> seg_err_matches(s@, e),
{
    let t = text::trim(s);
    if t.is_empty() {
        Err(DependencyTypeError::EmptyDependencyType)
    } else if !text::str_eq(t, s) {
        Err(DependencyTypeError::LeadingOrTrailingSpaces)
    } else {
        Ok(())
    }
}

impl DependencyType {
    /// Validates every operand of the clause.
    pub fn validate(&self) -> (r: Result<(), DependencyTypeError>)
        ensures
            r is Ok <==> builder_valid(self),
            r matches Err(e) ==> builder_err_matches(self, e),
    {
        match self {
            DependencyType::After(j) => validate_str(j.as_str()),
            DependencyType::AfterTimeDelay(j, t) => {
                match validate_str(j.as_str()) {
                    Ok(_) => validate_str(t.as_str()),
                    Err(e) => Err(e),
                }
            },
            DependencyType::AfterAny(j) => validate_str(j.as_str()),
            DependencyType::AfterBurstBuffer(j) => validate_str(j.as_str()),
            DependencyType::AfterCorr(j) => validate_str(j.as_str()),
            DependencyType::AfterNotOk(j) => validate_str(j.as_str()),
            DependencyType::AfterOk(j) => validate_str(j.as_str()),
            DependencyType::Singleton => Ok(()),
        }
    }

    /// Renders the clause in Slurm's syntax, trimming each operand.
    pub fn render(&self) -> (r: String)
        ensures
            r@ == builder_text(self),
    {
        proof {
            reveal_strlit("after:");
            reveal_strlit("afterany:");
            reveal_strlit("afterburstbuffer:");
            reveal_strlit("aftercorr:");
            reveal_strlit("afternotok:");
            reveal_strlit("afterok:");
            reveal_strlit("singleton");
            reveal_strlit("+");
            assert("after:"@ =~= lit_after());
            assert("afterany:"@ =~= lit_afterany());
            assert("afterburstbuffer:"@ =~= lit_afterburstbuffer());
            assert("aftercorr:"@ =~= lit_aftercorr());
            assert("afternotok:"@ =~= lit_afternotok());
            assert("afterok:"@ =~= lit_afterok());
            assert("singleton"@ =~= lit_singleton());
            assert("+"@ =~= seq!['+']);
        }
        match self {
            DependencyType::After(j) => {
                let mut s = String::from_str("after:");
                s.append(text::trim(j.as_str()));
                s
            },
            DependencyType::AfterTimeDelay(j, t) => {
                let mut s = String::from_str("after:");
                s.append(text::trim(j.as_str()));
                s.append("+");
                s.append(text::trim(t.as_str()));
                proof {
                    assert((lit_after() + trim_seq(j@) + seq!['+']) + trim_seq(t@)
                        =~= builder_text(self));
                }
                s
            },
            DependencyType::AfterAny(j) => {
                let mut s = String::from_str("afterany:");
                s.append(text::trim(j.as_str()));
                s
            },
            DependencyType::AfterBurstBuffer(j) => {
                let mut s = String::from_str("afterburstbuffer:");
                s.append(text::trim(j.as_str()));
                s
            },
            DependencyType::AfterCorr(j) => {
                let mut s = String::from_str("aftercorr:");
                s.append(text::trim(j.as_str()));
                s
            },
            DependencyType::AfterNotOk(j) => {
                let mut s = String::from_str("afternotok:");
                s.append(text::trim(j.as_str()));
                s
            },
            DependencyType::AfterOk(j) => {
                let mut s = String::from_str("afterok:");
                s.append(text::trim(j.as_str()));
                s
            },
            DependencyType::Singleton => String::from_str("singleton"),
        }
    }
}

/// Errors raised when building a dependency string.
#[derive(Debug, Clone, PartialEq, Eq)]
pub enum DependencyError {
    /// No clause was provided.
    NoDependencies,
    /// A clause's raw text is invalid.
    DependencyTypeError(DependencyTypeError),
}

impl From<DependencyTypeError> for DependencyError {
    /// Tags a clause error as a builder error.
    fn from(error: DependencyTypeError) -> (r: DependencyError) {
        DependencyError::DependencyTypeError(error)
    }
}

impl vstd::std_specs::convert::FromSpecImpl<DependencyTypeError> for DependencyError {
    open spec fn obeys_from_spec() -> bool {
        true
    }

    open spec fn from_spec(e: DependencyTypeError) -> DependencyError {
        DependencyError::DependencyTypeError(e)
    }
}

/// A dependency list under one separator: all clauses must hold (`And`,
/// comma) or any may (`Or`, question mark).
#[derive(Debug, Clone, PartialEq, Eq, Hash)]
pub enum Dependency {
    And(Vec<DependencyType>),
    Or(Vec<DependencyType>),
}

/// The clauses of a dependency list.
pub open spec fn dep_clauses(d: &Dependency) -> Seq<DependencyType> {
    match d {
        Dependency::And(v) => v@,
        Dependency::Or(v) => v@,
    }
}

/// The separator a dependency list renders with.
pub open spec fn dep_sep_char(d: &Dependency) -> char {
    match d {
        Dependency::And(_) => ',',
        Dependency::Or(_) => '?',
    }
}

/// The rendered texts of a clause list.
pub open spec fn builder_texts(cs: Seq<DependencyType>) -> Seq<Seq<char>> {
    Seq::new(cs.len(), |i: int| builder_text(&cs[i]))
}

/// The built string: the distinct clause texts in lexicographic order,
/// joined with the separator.
pub open spec fn build_text(d: &Dependency) -> Seq<char> {
    join_seq(dedup_sort_seq(builder_texts(dep_clauses(d))), seq![dep_sep_char(d)])
}

impl Dependency {
    /// An empty `And` list.
    pub fn new_and() -> (r: Dependency)
        ensures
            dep_clauses(&r).len() == 0,
            dep_sep_char(&r) == ',',
    {
        Dependency::And(Vec::new())
    }

    /// An empty `Or` list.
    pub fn new_or() -> (r: Dependency)
        ensures
            dep_clauses(&r).len() == 0,
            dep_sep_char(&r) == '?',
    {
        Dependency::Or(Vec::new())
    }

    /// Validates and appends a clause.
    pub fn push(self, dependency: DependencyType) -> (r: Result<Dependency, DependencyError>)
        ensures
            r is Ok <==> builder_valid(&dependency),
            r matches Ok(d) ==> dep_clauses(&d) == dep_clauses(&self).push(dependency)
                && dep_sep_char(&d) == dep_sep_char(&self),
            r matches Err(e) ==> e matches DependencyError::DependencyTypeError(e2)
                && builder_err_matches(&dependency, e2),
    {
        match dependency.validate() {
            Ok(_) => {},
            Err(e) => {
                return Err(DependencyError::DependencyTypeError(e));
            },
        }
        match self {
            Dependency::And(mut v) => {
                v.push(dependency);
                Ok(Dependency::And(v))
            },
            Dependency::Or(mut v) => {
                v.push(dependency);
                Ok(Dependency::Or(v))
            },
        }
    }

    /// Appends an `after:<job_id>` clause.
    pub fn push_after(self, job_id: &str) -> (r: Result<Dependency, DependencyError>)
        ensures
            r is Ok <==> seg_valid(job_id@),
            r matches Ok(d) ==> ({
                &&& dep_clauses(&d).len() == dep_clauses(&self).len() + 1
                &&& dep_clauses(&d).last() matches DependencyType::After(j) && j@ == job_id@
                &&& dep_clauses(&d).take(dep_clauses(&self).len() as int) == dep_clauses(&self)
                &&& dep_sep_char(&d) == dep_sep_char(&self)
            }),
            r matches Err(e) ==> e matches DependencyError::DependencyTypeError(_),
    {
        let ghost prior = dep_clauses(&self);
        let r = self.push(DependencyType::After(String::from_str(job_id)));
        proof {
            if r is Ok {
                assert(dep_clauses(&r->Ok_0).take(prior.len() as int) =~= prior);
            }
        }
        r
    }

    /// Appends an `after:<job_id>+<time_delay>` clause.
    pub fn push_after_time_delay(self, job_id: &str, time_delay: &str) -> (r: Result<
        Dependency,
        DependencyError,
    >)
        ensures
            r is Ok <==> seg_valid(job_id@) && seg_valid(time_delay@),
            r matches Ok(d) ==> ({
                &&& dep_clauses(&d).len() == dep_clauses(&self).len() + 1
                &&& dep_clauses(&d).last() matches DependencyType::AfterTimeDelay(j, t) && j@ == job_id@ && t@ == time_delay@
                &&& dep_clauses(&d).take(dep_clauses(&self).len() as int) == dep_clauses(&self)
                &&& dep_sep_char(&d) == dep_sep_char(&self)
            }),
            r matches Err(e) ==> e matches DependencyError::DependencyTypeError(_),
    {
        let ghost prior = dep_clauses(&self);
        let r = self.push(
            DependencyType::AfterTimeDelay(
                String::from_str(job_id),
                String::from_str(time_delay),
            ),
        );
        proof {
            if r is Ok {
                assert(dep_clauses(&r->Ok_0).take(prior.len() as int) =~= prior);
            }
        }
        r
    }

    /// Appends an `afterany:<job_id>` clause.
    pub fn push_after_any(self, job_id: &str) -> (r: Result<Dependency, DependencyError>)
        ensures
            r is Ok <==> seg_valid(job_id@),
            r matches Ok(d) ==> ({
                &&& dep_clauses(&d).len() == dep_clauses(&self).len() + 1
                &&& dep_clauses(&d).last() matches DependencyType::AfterAny(j) && j@ == job_id@
                &&& dep_clauses(&d).take(dep_clauses(&self).len() as int) == dep_clauses(&self)
                &&& dep_sep_char(&d) == dep_sep_char(&self)
            }),
            r matches Err(e) ==> e matches DependencyError::DependencyTypeError(_),
    {
        let ghost prior = dep_clauses(&self);
        let r = self.push(DependencyType::AfterAny(String::from_str(job_id)));
        proof {
            if r is Ok {
                assert(dep_clauses(&r->Ok_0).take(prior.len() as int) =~= prior);
            }
        }
        r
    }

    /// Appends an `afterburstbuffer:<job_id>` clause.
    pub fn push_after_burst_buffer(self, job_id: &str) -> (r: Result<Dependency, DependencyError>)
        ensures
            r is Ok <==> seg_valid(job_id@),
            r matches Ok(d) ==> ({
                &&& dep_clauses(&d).len() == dep_clauses(&self).len() + 1
                &&& dep_clauses(&d).last() matches DependencyType::AfterBurstBuffer(j) && j@ == job_id@
                &&& dep_clauses(&d).take(dep_clauses(&self).len() as int) == dep_clauses(&self)
                &&& dep_sep_char(&d) == dep_sep_char(&self)
            }),
            r matches Err(e) ==> e matches DependencyError::DependencyTypeError(_),
    {
        let ghost prior = dep_clauses(&self);
        let r = self.push(DependencyType::AfterBurstBuffer(String::from_str(job_id)));
        proof {
            if r is Ok {
                assert(dep_clauses(&r->Ok_0).take(prior.len() as int) =~= prior);
            }
        }
        r
    }

    /// Appends an `aftercorr:<job_id>` clause.
    pub fn push_after_corr(self, job_id: &str) -> (r: Result<Dependency, DependencyError>)
        ensures
            r is Ok <==> seg_valid(job_id@),
            r matches Ok(d) ==> ({
                &&& dep_clauses(&d).len() == dep_clauses(&self).len() + 1
                &&& dep_clauses(&d).last() matches DependencyType::AfterCorr(j) && j@ == job_id@
                &&& dep_clauses(&d).take(dep_clauses(&self).len() as int) == dep_clauses(&self)
                &&& dep_sep_char(&d) == dep_sep_char(&self)
            }),
            r matches Err(e) ==> e matches DependencyError::DependencyTypeError(_),
    {
        let ghost prior = dep_clauses(&self);
        let r = self.push(DependencyType::AfterCorr(String::from_str(job_id)));
        proof {
            if r is Ok {
                assert(dep_clauses(&r->Ok_0).take(prior.len() as int) =~= prior);
            }
        }
        r
    }

    /// Appends an `afternotok:<job_id>` clause.
    pub fn push_after_not_ok(self, job_id: &str) -> (r: Result<Dependency, DependencyError>)
        ensures
            r is Ok <==> seg_valid(job_id@),
            r matches Ok(d) ==> ({
                &&& dep_clauses(&d).len() == dep_clauses(&self).len() + 1
                &&& dep_clauses(&d).last() matches DependencyType::AfterNotOk(j) && j@ == job_id@
                &&& dep_clauses(&d).take(dep_clauses(&self).len() as int) == dep_clauses(&self)
                &&& dep_sep_char(&d) == dep_sep_char(&self)
            }),
            r matches Err(e) ==> e matches DependencyError::DependencyTypeError(_),
    {
        let ghost prior = dep_clauses(&self);
        let r = self.push(DependencyType::AfterNotOk(String::from_str(job_id)));
        proof {
            if r is Ok {
                assert(dep_clauses(&r->Ok_0).take(prior.len() as int) =~= prior);
            }
        }
        r
    }

    /// Appends an `afterok:<job_id>` clause.
    pub fn push_after_ok(self, job_id: &str) -> (r: Result<Dependency, DependencyError>)
        ensures
            r is Ok <==> seg_valid(job_id@),
            r matches Ok(d) ==> ({
                &&& dep_clauses(&d).len() == dep_clauses(&self).len() + 1
                &&& dep_clauses(&d).last() matches DependencyType::AfterOk(j) && j@ == job_id@
                &&& dep_clauses(&d).take(dep_clauses(&self).len() as int) == dep_clauses(&self)
                &&& dep_sep_char(&d) == dep_sep_char(&self)
            }),
            r matches Err(e) ==> e matches DependencyError::DependencyTypeError(_),
    {
        let ghost prior = dep_clauses(&self);
        let r = self.push(DependencyType::AfterOk(String::from_str(job_id)));
        proof {
            if r is Ok {
                assert(dep_clauses(&r->Ok_0).take(prior.len() as int) =~= prior);
            }
        }
        r
    }

    /// Appends a `singleton` clause; it never fails.
    pub fn push_singleton(self) -> (r: Result<Dependency, DependencyError>)
        ensures
            r is Ok,
            r matches Ok(d) ==> dep_clauses(&d) == dep_clauses(&self).push(
                DependencyType::Singleton,
            ) && dep_sep_char(&d) == dep_sep_char(&self),
    {
        self.push(DependencyType::Singleton)
    }

    /// Builds the dependency string: validates every clause, renders the
    /// distinct clause texts in lexicographic order, and joins them with
    /// the separator.
    #[verifier::loop_isolation(false)]
    pub fn build(&self) -> (r: Result<String, DependencyError>)
        ensures
            r is Ok <==> dep_clauses(self).len() > 0 && (forall|i: int|
                0 <= i < dep_clauses(self).len() ==> builder_valid(&dep_clauses(self)[i])),
            r matches Ok(out) ==> out@ == build_text(self),
            r matches Err(e) ==> if dep_clauses(self).len() == 0 {
                e == DependencyError::NoDependencies
            } else {
                e matches DependencyError::DependencyTypeError(e2) && exists|i: int|
                    0 <= i < dep_clauses(self).len() && !builder_valid(
                        &#[trigger] dep_clauses(self)[i],
                    ) && builder_err_matches(&dep_clauses(self)[i], e2) && (forall|j: int|
                        0 <= j < i ==> builder_valid(&#[trigger] dep_clauses(self)[j]))
            },
    {
        let ghost cs = dep_clauses(self);
        let clauses: &Vec<DependencyType> = match self {
            Dependency::And(v) => v,
            Dependency::Or(v) => v,
        };
        if clauses.len() == 0 {
            return Err(DependencyError::NoDependencies);
        }
        let mut i: usize = 0;
        while i < clauses.len()
            invariant
                i <= clauses@.len(),
                clauses@ == cs,
                forall|j: int| 0 <= j < i ==> builder_valid(&#[trigger] cs[j]),
            decreases clauses@.len() - i,
        {
            match clauses[i].validate() {
                Ok(_) => {},
                Err(e) => {
                    proof {
                        assert(!builder_valid(&cs[i as int]));
                    }
                    return Err(DependencyError::DependencyTypeError(e));
                },
            }
            i = i + 1;
        }
        let ghost texts = builder_texts(cs);
        let mut sorted: Vec<String> = Vec::new();
        let mut k: usize = 0;
        proof {
            assert(texts.take(0) =~= Seq::<Seq<char>>::empty());
            assert(views_of(sorted@) =~= dedup_sort_seq(texts.take(0)));
        }
        while k < clauses.len()
            invariant
                k <= clauses@.len(),
                clauses@ == cs,
                texts == builder_texts(cs),
                views_of(sorted@) == dedup_sort_seq(texts.take(k as int)),
            decreases clauses@.len() - k,
        {
            let rendered = clauses[k].render();
            proof {
                assert(rendered@ == texts[k as int]);
            }
            order::insert_string_uniq(&mut sorted, rendered);
            proof {
                assert(texts.take(k + 1) =~= texts.take(k as int).push(texts[k as int]));
                assert(texts.take(k + 1).drop_last() =~= texts.take(k as int));
                assert(dedup_sort_seq(texts.take(k + 1)) == order::ins_uniq(
                    dedup_sort_seq(texts.take(k + 1).drop_last()),
                    texts.take(k + 1).last(),
                ));
            }
            k = k + 1;
        }
        proof {
            assert(texts.take(cs.len() as int) =~= texts);
            reveal_strlit(",");
            reveal_strlit("?");
            assert(","@ =~= seq![',']);
            assert("?"@ =~= seq!['?']);
        }
        let sep_str: &str = match self {
            Dependency::And(_) => ",",
            Dependency::Or(_) => "?",
        };
        Ok(order::join_strings(&sorted, sep_str))
    }
}

} // verus!
