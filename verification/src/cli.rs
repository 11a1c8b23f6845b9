//! Command-line decisions: which invocation is accepted, which project
//! names are allowed, and whether a confirmation line lets the run proceed.

use vstd::prelude::*;
use vstd::string::*;

verus! {

/// Greatest number of characters allowed in a project name.
pub const MAX_NAME_LEN: usize = 25;

/// Accepts an argument list exactly when it holds the invocation name and
/// one positional argument, and returns that argument as the project name.
pub fn parse_args(argv: &Vec<String>) -> (r: Option<String>)
    ensures
        match r {
            Some(name) => argv@.len() == 2 && name@ == argv@[1]@,
            None => argv@.len() != 2,
        },
{
    if argv.len() == 2 {
        Some(argv[1].clone())
    } else {
        None
    }
}

/// Accepts a project name exactly when it is no longer than `MAX_NAME_LEN`
/// characters.
pub fn check_name(name: &str) -> (ok: bool)
    ensures
        ok <==> name@.len() <= MAX_NAME_LEN,
{
    name.unicode_len() <= MAX_NAME_LEN
}

/// Why a run is refused before anything is created.
#[derive(Debug, PartialEq, Eq)]
pub enum PreflightError {
    /// The invocation did not carry exactly one positional argument.
    WrongArgCount,
    /// The project name has more than `MAX_NAME_LEN` characters.
    NameTooLong,
}

/// The whole gate a run must pass before any filesystem step: exactly one
/// positional argument, naming a project of at most `MAX_NAME_LEN`
/// characters. Each refusal says which condition failed.
pub fn preflight(argv: &Vec<String>) -> (r: Result<String, PreflightError>)
    ensures
        match r {
            Ok(name) => argv@.len() == 2 && name@ == argv@[1]@ && name@.len() <= MAX_NAME_LEN,
            Err(PreflightError::WrongArgCount) => argv@.len() != 2,
            Err(PreflightError::NameTooLong) => argv@.len() == 2 && argv@[1]@.len()
                > MAX_NAME_LEN,
        },
{
    match parse_args(argv) {
        None => Err(PreflightError::WrongArgCount),
        Some(name) => {
            if check_name(name.as_str()) {
                Ok(name)
            } else {
                Err(PreflightError::NameTooLong)
            }
        },
    }
}

/// A character that line trimming removes: the Unicode white-space set.
pub open spec fn is_space_char(c: char) -> bool {
    ||| c == ' '
    ||| c == '\t'
    ||| c == '\n'
    ||| c == '\u{0B}'
    ||| c == '\u{0C}'
    ||| c == '\r'
    ||| c == '\u{85}'
    ||| c == '\u{A0}'
    ||| c == '\u{1680}'
    ||| c == '\u{2000}'
    ||| c == '\u{2001}'
    ||| c == '\u{2002}'
    ||| c == '\u{2003}'
    ||| c == '\u{2004}'
    ||| c == '\u{2005}'
    ||| c == '\u{2006}'
    ||| c == '\u{2007}'
    ||| c == '\u{2008}'
    ||| c == '\u{2009}'
    ||| c == '\u{200A}'
    ||| c == '\u{2028}'
    ||| c == '\u{2029}'
    ||| c == '\u{202F}'
    ||| c == '\u{205F}'
    ||| c == '\u{3000}'
}

/// The line is blank: trimming it leaves nothing.
pub open spec fn all_space(s: Seq<char>) -> bool {
    forall|i: int| 0 <= i < s.len() ==> is_space_char(s[i])
}

/// The line contains an affirmative character, in either letter case.
pub open spec fn has_yes_char(s: Seq<char>) -> bool {
    exists|i: int| 0 <= i < s.len() && (s[i] == 'y' || s[i] == 'Y')
}

/// A confirmation line lets the run proceed when, trimmed and lowercased,
/// it is empty or contains `y`: that is, when it is all white space or
/// holds a `y` or `Y` anywhere.
pub open spec fn confirmation_accepts(s: Seq<char>) -> bool {
    all_space(s) || has_yes_char(s)
}

/// Decides whether a raw confirmation line (as read, before trimming)
/// lets the run proceed.
pub fn confirm_proceeds(line: &str) -> (p: bool)
    ensures
        p == confirmation_accepts(line@),
{
    let n = line.unicode_len();
    let mut i: usize = 0;
    let mut blank = true;
    let mut has_y = false;
    while i < n
        invariant
            n == line@.len(),
            i <= n,
            blank == (forall|j: int| 0 <= j < i ==> is_space_char(line@[j])),
            has_y == (exists|j: int| 0 <= j < i && (line@[j] == 'y' || line@[j] == 'Y')),
        decreases n - i,
    {
        let c = line.get_char(i);
        blank = blank && is_space(c);
        has_y = has_y || c == 'y' || c == 'Y';
        i = i + 1;
    }
    blank || has_y
}

/// Executable twin of `is_space_char`.
pub fn is_space(c: char) -> (b: bool)
    ensures
        b == is_space_char(c),
{
    c == ' ' || c == '\t' || c == '\n' || c == '\u{0B}' || c == '\u{0C}' || c == '\r'
        || c == '\u{85}' || c == '\u{A0}' || c == '\u{1680}' || c == '\u{2000}'
        || c == '\u{2001}' || c == '\u{2002}' || c == '\u{2003}' || c == '\u{2004}'
        || c == '\u{2005}' || c == '\u{2006}' || c == '\u{2007}' || c == '\u{2008}'
        || c == '\u{2009}' || c == '\u{200A}' || c == '\u{2028}' || c == '\u{2029}'
        || c == '\u{202F}' || c == '\u{205F}' || c == '\u{3000}'
}

} // verus!
