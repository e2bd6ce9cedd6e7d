//! A validated bash identifier: non-empty, word characters only, no leading
//! digit, and not a reserved word of the shell.

use vstd::prelude::*;
use vstd::string::*;

use crate::num::is_digit;
use crate::text;

verus! {

/// Whether `c` may appear in a name: an ASCII letter, a digit, or `_`.
pub open spec fn is_word_char(c: char) -> bool {
    is_digit(c) || (65 <= (c as int) <= 90) || (97 <= (c as int) <= 122) || c == '_'
}

/// The reserved words of the shell: keywords and builtins that a variable
/// must not shadow.
pub open spec fn reserved_seqs() -> Seq<Seq<char>> {
    seq![
        "if"@, "then"@, "else"@, "elif"@, "fi"@, "case"@, "esac"@, "for"@, "select"@,
        "while"@, "until"@, "do"@, "done"@, "in"@, "function"@, "time"@, "coproc"@,
        "alias"@, "bg"@, "bind"@, "break"@, "builtin"@, "caller"@, "cd"@, "command"@,
        "compgen"@, "complete"@, "compopt"@, "continue"@, "declare"@, "dirs"@,
        "disown"@, "echo"@, "enable"@, "eval"@, "exec"@, "exit"@, "export"@, "false"@,
        "fc"@, "fg"@, "getopts"@, "hash"@, "help"@, "history"@, "jobs"@, "kill"@,
        "let"@, "local"@, "logout"@, "mapfile"@, "popd"@, "printf"@, "pushd"@, "pwd"@,
        "read"@, "readarray"@, "readonly"@, "return"@, "set"@, "shift"@, "shopt"@,
        "source"@, "suspend"@, "test"@, "times"@, "trap"@, "true"@, "type"@,
        "typeset"@, "ulimit"@, "umask"@, "unalias"@, "unset"@, "wait"@,
    ]
}

/// Whether `s` is a reserved word.
pub open spec fn is_reserved(s: Seq<char>) -> bool {
    reserved_seqs().contains(s)
}

/// Whether `s` is a valid name.
pub open spec fn valid_name(s: Seq<char>) -> bool {
    &&& s.len() > 0
    &&& forall|i: int| 0 <= i < s.len() ==> is_word_char(#[trigger] s[i])
    &&& !is_digit(s[0])
    &&& !is_reserved(s)
}

/// Which `NameError` is owed for a rejected input, by the order the checks
/// are made: emptiness, characters, leading digit, reservedness.
pub open spec fn name_err_matches(s: Seq<char>, e: NameError) -> bool {
    match e {
        NameError::EmptyName => s.len() == 0,
        NameError::InvalidCharacters(t) => t@ == s && s.len() > 0 && !(forall|i: int|
            0 <= i < s.len() ==> is_word_char(#[trigger] s[i])),
        NameError::StartsWithNumber(t) => t@ == s && s.len() > 0 && (forall|i: int|
            0 <= i < s.len() ==> is_word_char(#[trigger] s[i])) && is_digit(s[0]),
        NameError::ReservedName(t) => t@ == s && s.len() > 0 && (forall|i: int|
            0 <= i < s.len() ==> is_word_char(#[trigger] s[i])) && !is_digit(s[0])
            && is_reserved(s),
    }
}

/// Errors raised when validating a name.
#[derive(Debug, Clone, PartialEq, Eq)]
pub enum NameError {
    /// The name is empty.
    EmptyName,
    /// The name holds a character that is not a word character.
    InvalidCharacters(String),
    /// The name starts with a digit.
    StartsWithNumber(String),
    /// The name is a reserved word of the shell.
    ReservedName(String),
}

/// A validated name.
#[derive(Debug, Clone, PartialEq, Eq, Hash)]
pub struct Name {
    text: String,
}

impl View for Name {
    type V = Seq<char>;

    closed spec fn view(&self) -> Seq<char> {
        self.text@
    }
}

impl Name {
    /// Validates `value` and wraps it as a `Name`.
    pub fn new(value: &str) -> (r: Result<Name, NameError>)
        ensures
            r is Ok <==> valid_name(value@),
            r matches Ok(n) ==> n@ == value@,
            r matches Err(e) ==> name_err_matches(value@, e),
    {
        let n: usize = value.unicode_len();
        if n == 0 {
            return Err(NameError::EmptyName);
        }
        let mut i: usize = 0;
        while i < n
            invariant
                i <= n,
                n == value@.len(),
                forall|j: int| 0 <= j < i ==> is_word_char(#[trigger] value@[j]),
            decreases n - i,
        {
            if !word_char(value.get_char(i)) {
                return Err(NameError::InvalidCharacters(String::from_str(value)));
            }
            i = i + 1;
        }
        let c0 = value.get_char(0);
        let v0 = c0 as u32;
        if 48 <= v0 && v0 <= 57 {
            return Err(NameError::StartsWithNumber(String::from_str(value)));
        }
        if reserved_str(value) {
            return Err(NameError::ReservedName(String::from_str(value)));
        }
        Ok(Name { text: String::from_str(value) })
    }

    /// The text of the name.
    pub fn render(&self) -> (r: String)
        ensures
            r@ == self@,
    {
        self.text.clone()
    }

    /// The name as a string slice.
    pub fn as_str(&self) -> (r: &str)
        ensures
            r@ == self@,
    {
        self.text.as_str()
    }
}

/// Whether `c` is a word character.
pub fn word_char(c: char) -> (b: bool)
    ensures
        b == is_word_char(c),
{
    let v = c as u32;
    (48 <= v && v <= 57) || (65 <= v && v <= 90) || (97 <= v && v <= 122) || c == '_'
}

/// The reserved words, for exhaustive checks from callers and tests.
pub fn reserved_names() -> (v: Vec<&'static str>)
    ensures
        v@.len() == reserved_seqs().len(),
        forall|i: int| 0 <= i < v@.len() ==> v@[i]@ == reserved_seqs()[i],
{
    let mut v: Vec<&'static str> = Vec::new();
    v.push("if");
    v.push("then");
    v.push("else");
    v.push("elif");
    v.push("fi");
    v.push("case");
    v.push("esac");
    v.push("for");
    v.push("select");
    v.push("while");
    v.push("until");
    v.push("do");
    v.push("done");
    v.push("in");
    v.push("function");
    v.push("time");
    v.push("coproc");
    v.push("alias");
    v.push("bg");
    v.push("bind");
    v.push("break");
    v.push("builtin");
    v.push("caller");
    v.push("cd");
    v.push("command");
    v.push("compgen");
    v.push("complete");
    v.push("compopt");
    v.push("continue");
    v.push("declare");
    v.push("dirs");
    v.push("disown");
    v.push("echo");
    v.push("enable");
    v.push("eval");
    v.push("exec");
    v.push("exit");
    v.push("export");
    v.push("false");
    v.push("fc");
    v.push("fg");
    v.push("getopts");
    v.push("hash");
    v.push("help");
    v.push("history");
    v.push("jobs");
    v.push("kill");
    v.push("let");
    v.push("local");
    v.push("logout");
    v.push("mapfile");
    v.push("popd");
    v.push("printf");
    v.push("pushd");
    v.push("pwd");
    v.push("read");
    v.push("readarray");
    v.push("readonly");
    v.push("return");
    v.push("set");
    v.push("shift");
    v.push("shopt");
    v.push("source");
    v.push("suspend");
    v.push("test");
    v.push("times");
    v.push("trap");
    v.push("true");
    v.push("type");
    v.push("typeset");
    v.push("ulimit");
    v.push("umask");
    v.push("unalias");
    v.push("unset");
    v.push("wait");
    v
}

/// Whether `s` is a reserved word.
pub fn reserved_str(s: &str) -> (b: bool)
    ensures
        b == is_reserved(s@),
{
    let words = reserved_names();
    let mut i: usize = 0;
    while i < words.len()
        invariant
            i <= words@.len(),
            words@.len() == reserved_seqs().len(),
            forall|j: int| 0 <= j < words@.len() ==> words@[j]@ == reserved_seqs()[j],
            forall|j: int| 0 <= j < i ==> reserved_seqs()[j] != s@,
        decreases words@.len() - i,
    {
        if text::str_eq(s, words[i]) {
            proof {
                assert(reserved_seqs()[i as int] == s@);
            }
            return true;
        }
        i = i + 1;
    }
    proof {
        assert(forall|j: int| 0 <= j < reserved_seqs().len() ==> reserved_seqs()[j] != s@);
    }
    false
}

} // verus!
