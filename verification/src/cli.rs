use vstd::prelude::*;

use crate::errors::ScaffoldError;

verus! {

/// A whitespace character for the purpose of project-name validation: the
/// Unicode White_Space set, the characters that `str::trim` removes.
pub open spec fn is_space(c: char) -> bool {
    ||| c == '\t'
    ||| c == '\n'
    ||| c == '\u{0B}'
    ||| c == '\u{0C}'
    ||| c == '\r'
    ||| c == ' '
    ||| c == '\u{85}'
    ||| c == '\u{A0}'
    ||| c == '\u{1680}'
    ||| c == '\u{2000}'
    ||| c == '\u{2001}'
    ||| c == '\u{2002}'
    ||| c == '\u{2003}'
    ||| c == '\u{2004}'
    ||| c == '\u{2005}'
    ||| c == '\u{2006}'
    ||| c == '\u{2007}'
    ||| c == '\u{2008}'
    ||| c == '\u{2009}'
    ||| c == '\u{200A}'
    ||| c == '\u{2028}'
    ||| c == '\u{2029}'
    ||| c == '\u{202F}'
    ||| c == '\u{205F}'
    ||| c == '\u{3000}'
}

/// Decides whether one character is whitespace in the sense of `is_space`.
pub fn check_space(c: char) -> (space: bool)
    ensures
        space == is_space(c),
{
    c == '\t' || c == '\n' || c == '\u{0B}' || c == '\u{0C}' || c == '\r' || c == ' '
        || c == '\u{85}' || c == '\u{A0}' || c == '\u{1680}' || c == '\u{2000}'
        || c == '\u{2001}' || c == '\u{2002}' || c == '\u{2003}' || c == '\u{2004}'
        || c == '\u{2005}' || c == '\u{2006}' || c == '\u{2007}' || c == '\u{2008}'
        || c == '\u{2009}' || c == '\u{200A}' || c == '\u{2028}' || c == '\u{2029}'
        || c == '\u{202F}' || c == '\u{205F}' || c == '\u{3000}'
}

/// A project name is blank when it is empty or holds whitespace only. A blank
/// name never reaches the clone step.
pub open spec fn is_blank(s: Seq<char>) -> bool {
    forall|i: int| 0 <= i < s.len() ==> is_space(s[i])
}

/// Decides whether a project name is blank.
pub fn check_blank(name: &str) -> (blank: bool)
    ensures
        blank == is_blank(name@),
{
    let n = name.unicode_len();
    let mut i: usize = 0;
    while i < n
        invariant
            n == name@.len(),
            i <= n,
            forall|j: int| 0 <= j < i ==> is_space(name@[j]),
        decreases n - i,
    {
        let c = name.get_char(i);
        if !check_space(c) {
            assert(!is_space(name@[i as int]));
            return false;
        }
        i += 1;
    }
    true
}

/// Decides the command line: only the `create` subcommand with a non-blank
/// project name proceeds; anything else is the bad-arguments error.
pub fn cli_project_name(create_given: bool, project_name: Option<String>) -> (r: Result<
    String,
    ScaffoldError,
>)
    ensures
        match r {
            Ok(name) => {
                &&& create_given
                &&& project_name matches Some(given) && name == given
                &&& !is_blank(name@)
            },
            Err(e) => {
                &&& e == ScaffoldError::BadArguments
                &&& (create_given ==> (project_name matches Some(given) ==> is_blank(given@)))
            },
        },
{
    if !create_given {
        return Err(ScaffoldError::BadArguments);
    }
    match project_name {
        Some(name) => {
            if check_blank(name.as_str()) {
                Err(ScaffoldError::BadArguments)
            } else {
                Ok(name)
            }
        },
        None => Err(ScaffoldError::BadArguments),
    }
}

} // verus!
