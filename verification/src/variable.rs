//! A shell variable reference. Parsed from `${name}` or `$name`, always
//! rendered as `${name}`.

use vstd::prelude::*;
use vstd::string::*;

use crate::name::{valid_name, Name, NameError};
use crate::text;
use crate::text::clean_seq;

verus! {

/// Whether the cleaned text has the braced shape `${...}` with a non-empty
/// body.
pub open spec fn var_shape_braced(s: Seq<char>) -> bool {
    s.len() >= 4 && s[0] == '$' && s[1] == '{' && s.last() == '}'
}

/// The body of a braced reference.
pub open spec fn var_inner_braced(s: Seq<char>) -> Seq<char> {
    s.subrange(2, s.len() - 1)
}

/// Whether the cleaned text has the plain shape `$...` with a non-empty
/// body.
pub open spec fn var_shape_plain(s: Seq<char>) -> bool {
    s.len() >= 2 && s[0] == '$'
}

/// The body of a plain reference.
pub open spec fn var_inner_plain(s: Seq<char>) -> Seq<char> {
    s.drop_first()
}

/// The name captured by either shape; the braced shape is tried first.
pub open spec fn var_captured(s: Seq<char>) -> Seq<char> {
    if var_shape_braced(s) {
        var_inner_braced(s)
    } else {
        var_inner_plain(s)
    }
}

/// Whether parsing `s0` as a variable reference succeeds: after cleaning,
/// one of the two shapes must match and the captured body must be a valid
/// name.
pub open spec fn variable_from_ok(s0: Seq<char>) -> bool {
    let s = clean_seq(s0);
    (var_shape_braced(s) || var_shape_plain(s)) && valid_name(var_captured(s))
}

/// The rendered form of a variable, `${name}`.
pub open spec fn var_text(name: Seq<char>) -> Seq<char> {
    seq!['$', '{'] + name + seq!['}']
}

/// Errors raised when validating or parsing a variable.
#[derive(Debug, Clone, PartialEq, Eq)]
pub enum VariableError {
    /// The captured or given name is not a valid name; carries that text.
    InvalidName(String),
    /// The text matches neither `${name}` nor `$name`; carries the input.
    ParseError(String),
}

/// A shell variable reference, wrapping a validated name.
#[derive(Debug, Clone, PartialEq, Eq, Hash)]
pub struct Variable {
    name: Name,
}

impl View for Variable {
    type V = Seq<char>;

    closed spec fn view(&self) -> Seq<char> {
        self.name@
    }
}

impl Variable {
    /// Validates `value` as a name and wraps it as a variable.
    pub fn new(value: &str) -> (r: Result<Variable, VariableError>)
        ensures
            r is Ok <==> valid_name(value@),
            r matches Ok(v) ==> v@ == value@,
            r matches Err(e) ==> e matches VariableError::InvalidName(t) && t@ == value@,
    {
        match Name::new(value) {
            Ok(name) => Ok(Variable { name }),
            Err(_) => Err(VariableError::InvalidName(String::from_str(value))),
        }
    }

    /// Parses `${name}` or `$name`, cleaning quotes and whitespace first.
    pub fn from_str(value: &str) -> (r: Result<Variable, VariableError>)
        ensures
            r is Ok <==> variable_from_ok(value@),
            r matches Ok(v) ==> v@ == var_captured(clean_seq(value@)),
            r matches Err(e) ==> match e {
                VariableError::ParseError(t) => t@ == value@ && !var_shape_braced(
                    clean_seq(value@),
                ) && !var_shape_plain(clean_seq(value@)),
                VariableError::InvalidName(t) => t@ == var_captured(clean_seq(value@))
                    && (var_shape_braced(clean_seq(value@)) || var_shape_plain(
                    clean_seq(value@),
                )) && !valid_name(var_captured(clean_seq(value@))),
            },
    {
        let s = text::clean(value);
        let n: usize = s.unicode_len();
        let ghost cs = clean_seq(value@);
        if n >= 4 && s.get_char(0) == '$' && s.get_char(1) == '{' && s.get_char(n - 1)
            == '}' {
            let inner = s.substring_char(2, n - 1);
            proof {
                assert(inner@ == var_inner_braced(cs));
            }
            match Variable::new(inner) {
                Ok(v) => Ok(v),
                Err(_) => Err(VariableError::InvalidName(String::from_str(inner))),
            }
        } else if n >= 2 && s.get_char(0) == '$' {
            let inner = s.substring_char(1, n);
            proof {
                assert(inner@ =~= var_inner_plain(cs));
            }
            match Variable::new(inner) {
                Ok(v) => Ok(v),
                Err(_) => Err(VariableError::InvalidName(String::from_str(inner))),
            }
        } else {
            Err(VariableError::ParseError(String::from_str(value)))
        }
    }

    /// Renders the variable as `${name}`.
    pub fn render(&self) -> (r: String)
        ensures
            r@ == var_text(self@),
    {
        proof {
            reveal_strlit("${");
            reveal_strlit("}");
        }
        let mut s = String::from_str("${");
        s.append(self.name.as_str());
        s.append("}");
        proof {
            assert("${"@ =~= seq!['$', '{']);
            assert("}"@ =~= seq!['}']);
            assert(("${"@ + self@) + "}"@ =~= var_text(self@));
        }
        s
    }
}

} // verus!
