//! Error types: fatal load errors and the typed failures that native
//! script functions report back to the story author.

use vstd::prelude::*;
use vstd::string::StringExecFns;

use crate::text::dec_str;
use crate::text::usize_to_string;

verus! {

/// A fatal error raised while loading a story project.
#[derive(Debug)]
pub enum HHEError {
    /// The project folder could not be resolved; carries the path and the
    /// text of the underlying I/O failure.
    ProjectFolderDoesntExist(String, String),
}

impl HHEError {
    /// A human-readable description of the error.
    pub fn message(&self) -> (r: String)
        ensures
            (match self {
                HHEError::ProjectFolderDoesntExist(path, _) => r@ == "Couldn't find folder with path `"@
                    + path@ + "`"@,
            }),
    {
        match self {
            HHEError::ProjectFolderDoesntExist(path, _) => {
                let mut s = String::from_str("Couldn't find folder with path `");
                s.append(path.as_str());
                s.append("`");
                s
            },
        }
    }
}

/// The argument position as it is reported to the author: one-based, except
/// that the largest machine index is shown as it is to avoid overflow.
pub open spec fn shown_index(i: int) -> int {
    if i == usize::MAX {
        i
    } else {
        i + 1
    }
}

/// A typed failure raised at the boundary of a native script function.
/// Evaluation of the enclosing script expression stops; the host loop goes
/// on running.
#[derive(Debug)]
pub enum ScriptError {
    /// The function needed an argument at `index` that was not supplied.
    MissingArgument { func: String, index: usize },
    /// The argument at `index` had the wrong type; `expected` names the
    /// type that was required.
    WrongType { func: String, index: usize, expected: String },
    /// A numeric argument at `index` was outside the accepted range.
    OutOfRange { func: String, index: usize },
    /// A name (a color, a room) had no entry in the table it was looked
    /// up in.
    NamedLookup { func: String, name: String },
}

/// The error is a missing-argument failure of `func` at `index`.
pub open spec fn is_missing(e: ScriptError, func: Seq<char>, index: int) -> bool {
    e matches ScriptError::MissingArgument { func: f, index: i } && f@ == func && i == index
}

/// The error is a wrong-type failure of `func` at `index`, asking for
/// `expected`.
pub open spec fn is_wrong_type(e: ScriptError, func: Seq<char>, index: int, expected: Seq<char>) -> bool {
    e matches ScriptError::WrongType { func: f, index: i, expected: x } && f@ == func && i == index
        && x@ == expected
}

/// The error is an out-of-range failure of `func` at `index`.
pub open spec fn is_out_of_range(e: ScriptError, func: Seq<char>, index: int) -> bool {
    e matches ScriptError::OutOfRange { func: f, index: i } && f@ == func && i == index
}

/// The error is a failed lookup of `name` by `func`.
pub open spec fn is_named_lookup(e: ScriptError, func: Seq<char>, name: Seq<char>) -> bool {
    e matches ScriptError::NamedLookup { func: f, name: n } && f@ == func && n@ == name
}

impl ScriptError {
    /// A human-readable description of the failure, naming the native
    /// function and the argument position involved.
    pub fn message(&self) -> (r: String)
        ensures
            (match self {
                ScriptError::MissingArgument { func, index } => r@ == "\""@ + func@
                    + "\" requires an argument "@ + dec_str(shown_index(*index as int)),
                ScriptError::WrongType { func, index, expected } => r@ == "\""@ + func@
                    + "\" requires argument "@ + dec_str(shown_index(*index as int)) + " to be a "@
                    + expected@,
                ScriptError::OutOfRange { func, index } => r@ == "\""@ + func@ + "\" argument "@
                    + dec_str(shown_index(*index as int)) + " is out of range"@,
                ScriptError::NamedLookup { func, name } => r@ == "\""@ + func@
                    + "\" found nothing called: "@ + name@,
            }),
    {
        match self {
            ScriptError::MissingArgument { func, index } => {
                let mut s = String::from_str("\"");
                s.append(func.as_str());
                s.append("\" requires an argument ");
                let shown = shown_index_exec(*index);
                s.append(shown.as_str());
                s
            },
            ScriptError::WrongType { func, index, expected } => {
                let mut s = String::from_str("\"");
                s.append(func.as_str());
                s.append("\" requires argument ");
                let shown = shown_index_exec(*index);
                s.append(shown.as_str());
                s.append(" to be a ");
                s.append(expected.as_str());
                s
            },
            ScriptError::OutOfRange { func, index } => {
                let mut s = String::from_str("\"");
                s.append(func.as_str());
                s.append("\" argument ");
                let shown = shown_index_exec(*index);
                s.append(shown.as_str());
                s.append(" is out of range");
                s
            },
            ScriptError::NamedLookup { func, name } => {
                let mut s = String::from_str("\"");
                s.append(func.as_str());
                s.append("\" found nothing called: ");
                s.append(name.as_str());
                s
            },
        }
    }
}

/// The decimal text of the one-based argument position.
fn shown_index_exec(i: usize) -> (r: String)
    ensures
        r@ == dec_str(shown_index(i as int)),
{
    if i == usize::MAX {
        usize_to_string(i)
    } else {
        usize_to_string(i + 1)
    }
}

} // verus!
