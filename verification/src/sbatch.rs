//! The `sbatch` command builder: a set of options keyed by flag identity
//! (at most one option per flag, last write wins), an optional script, and
//! deterministic assembly of the final command line.

use vstd::prelude::*;
use vstd::string::*;

use crate::order;
use crate::order::{join_seq, sort_seq, views_of};
use crate::sbatch_option::{invalid_value_of, option_valid, tag, value_err_matches,
    SbatchOption, SbatchOptionError};
use crate::sbatch_option_list::{drop_variant, lemma_drop_variant_props, option_texts,
    unique_tags, SbatchOptionList};
use crate::text;
use crate::text::trim_seq;

verus! {

/// The mathematical value of a command under construction: the stored
/// options in insertion order, and the trimmed script, if any.
#[verifier::ext_equal]
pub struct SbatchView {
    pub options: Seq<SbatchOption>,
    pub script: Option<Seq<char>>,
}

/// The assembled command line: `sbatch`, the rendered options sorted
/// lexicographically, then the script, space-separated.
pub open spec fn sbatch_text(v: SbatchView) -> Seq<char> {
    if v.options.len() > 0 {
        match v.script {
            Some(s) => "sbatch "@ + join_seq(sort_seq(option_texts(v.options)), seq![' '])
                + seq![' '] + s,
            None => "sbatch "@ + join_seq(sort_seq(option_texts(v.options)), seq![' ']),
        }
    } else {
        match v.script {
            Some(s) => "sbatch "@ + s,
            None => Seq::empty(),
        }
    }
}

/// Errors raised when building an `sbatch` command.
#[derive(Debug, Clone, PartialEq, Eq)]
pub enum SbatchError {
    /// Neither options nor a script were provided.
    NoOptionsOrScript,
    /// The script is empty, or whitespace only.
    ScriptEmpty,
    /// An option's value is invalid.
    SbatchOptionError(SbatchOptionError),
    /// Running the command failed; raised by callers, never here.
    SbatchExecutionError(String),
}

impl From<SbatchOptionError> for SbatchError {
    /// Tags an option error as a command error.
    fn from(error: SbatchOptionError) -> (r: SbatchError) {
        SbatchError::SbatchOptionError(error)
    }
}

impl vstd::std_specs::convert::FromSpecImpl<SbatchOptionError> for SbatchError {
    open spec fn obeys_from_spec() -> bool {
        true
    }

    open spec fn from_spec(e: SbatchOptionError) -> SbatchError {
        SbatchError::SbatchOptionError(e)
    }
}

/// An `sbatch` command under construction.
#[derive(Debug, Clone)]
pub struct Sbatch {
    sbatch_options: SbatchOptionList,
    script: Option<String>,
}

impl View for Sbatch {
    type V = SbatchView;

    closed spec fn view(&self) -> SbatchView {
        SbatchView {
            options: self.sbatch_options@,
            script: match self.script {
                Some(s) => Some(s@),
                None => None,
            },
        }
    }
}

impl Default for Sbatch {
    /// An empty command.
    fn default() -> (r: Sbatch)
        ensures
            r@.options == Seq::<SbatchOption>::empty(),
            r@.script is None,
            r.wf(),
    {
        Sbatch::new()
    }
}

impl Sbatch {
    /// The invariant of every reachable value: the stored options set each
    /// flag at most once.
    pub open spec fn wf(&self) -> bool {
        unique_tags(self@.options)
    }

    /// An empty command.
    pub fn new() -> (r: Sbatch)
        ensures
            r@.options == Seq::<SbatchOption>::empty(),
            r@.script is None,
            r.wf(),
    {
        Sbatch { sbatch_options: SbatchOptionList::new(), script: None }
    }

    /// Validates an option and stores it. The set is keyed by flag
    /// identity: an option of the same flag already present is replaced,
    /// so at most one option per flag is ever kept.
    pub fn add_option(self, option: SbatchOption) -> (r: Result<Sbatch, SbatchError>)
        requires
            self.wf(),
        ensures
            r is Ok <==> option_valid(&option),
            r matches Ok(b) ==> b.wf() && b@.options == drop_variant(
                self@.options,
                tag(&option),
            ).push(option) && b@.script == self@.script,
            r matches Err(e) ==> (e matches SbatchError::SbatchOptionError(e2)
                && value_err_matches(invalid_value_of(&option), &e2)),
    {
        match option.validate() {
            Ok(_) => {},
            Err(e) => {
                return Err(SbatchError::SbatchOptionError(e));
            },
        }
        proof {
            lemma_drop_variant_props(self@.options, tag(&option));
        }
        let ghost dropped = drop_variant(self@.options, tag(&option));
        let mut b = self;
        b.sbatch_options.overwrite(option);
        proof {
            assert forall|i: int, j: int| 0 <= i < j < b@.options.len() implies tag(
                &#[trigger] b@.options[i],
            ) != tag(&#[trigger] b@.options[j]) by {
                assert(b@.options[i] == dropped.push(option)[i]);
                assert(b@.options[j] == dropped.push(option)[j]);
                if j < dropped.len() {
                    assert(dropped.push(option)[i] == dropped[i]);
                    assert(dropped.push(option)[j] == dropped[j]);
                } else {
                    assert(dropped.push(option)[i] == dropped[i]);
                    assert(dropped.push(option)[j] == option);
                }
            }
        }
        Ok(b)
    }

    /// Sets the script, trimmed; an empty or whitespace-only script is
    /// rejected.
    pub fn set_script(self, script: String) -> (r: Result<Sbatch, SbatchError>)
        ensures
            r is Ok <==> trim_seq(script@).len() > 0,
            r matches Ok(b) ==> b@.options == self@.options && b@.script == Some(
                trim_seq(script@),
            ) && b.wf() == self.wf(),
            r matches Err(e) ==> e == SbatchError::ScriptEmpty,
    {
        let trimmed = text::trim(script.as_str());
        if trimmed.is_empty() {
            return Err(SbatchError::ScriptEmpty);
        }
        let owned = String::from_str(trimmed);
        let mut b = self;
        b.script = Some(owned);
        Ok(b)
    }

    /// Assembles the command line: `sbatch`, the rendered options sorted
    /// lexicographically, then the script. At least one of the two must be
    /// present.
    pub fn build(&self) -> (r: Result<String, SbatchError>)
        ensures
            r is Ok <==> self@.options.len() > 0 || self@.script is Some,
            r matches Ok(out) ==> out@ == sbatch_text(self@),
            r matches Err(e) ==> e == SbatchError::NoOptionsOrScript,
    {
        proof {
            reveal_strlit(" ");
            assert(" "@ =~= seq![' ']);
        }
        let rendered = self.sbatch_options.get_options();
        proof {
            assert(views_of(rendered@) == sort_seq(option_texts(self@.options)));
            assert(rendered@.len() == sort_seq(option_texts(self@.options)).len());
            crate::order::lemma_sort_seq_len(option_texts(self@.options));
        }
        if rendered.len() > 0 {
            let joined = order::join_strings(&rendered, " ");
            let mut out = String::from_str("sbatch ");
            out.append(joined.as_str());
            match &self.script {
                Some(script) => {
                    out.append(" ");
                    out.append(script.as_str());
                    proof {
                        assert(self@.script == Some(script@));
                        assert((("sbatch "@ + join_seq(
                            sort_seq(option_texts(self@.options)),
                            seq![' '],
                        )) + seq![' ']) + script@ =~= sbatch_text(self@));
                    }
                    Ok(out)
                },
                None => Ok(out),
            }
        } else {
            match &self.script {
                Some(script) => {
                    let mut out = String::from_str("sbatch ");
                    out.append(script.as_str());
                    Ok(out)
                },
                None => Err(SbatchError::NoOptionsOrScript),
            }
        }
    }
}

} // verus!
