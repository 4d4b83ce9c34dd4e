//! The boundary between the script interpreter and the engine.
//!
//! Script values reach native functions as `ScriptArg`, a closed sum of the
//! value kinds the engine inspects: booleans, integers, strings, symbols,
//! the engine's foreign color value, and an opaque case that carries any
//! other interpreter value (a lambda, a list, a float) through untouched.
//! The host converts between the interpreter's value type and `ScriptArg`
//! at each native call.

use vstd::prelude::*;

use crate::errors::is_missing;
use crate::errors::is_wrong_type;
use crate::errors::ScriptError;
use crate::lisp::color::Color;

verus! {

/// The script interpreter's value type, held opaquely: the engine stores
/// and returns such values (callbacks, option actions) but never looks
/// inside them.
#[verifier::external_type_specification]
#[verifier::external_body]
pub struct ExValue(rust_lisp::model::Value);

/// Relies on rust_lisp's `Value::clone`: the clone is the same value (its
/// reference-counted parts are shared, not copied).
pub assume_specification[ <rust_lisp::model::Value as Clone>::clone ](
    v: &rust_lisp::model::Value,
) -> (r: rust_lisp::model::Value)
    ensures
        r == *v,
;

/// Relies on the `Display` implementation of rust_lisp's `Value`, which
/// renders a script value as text.
#[verifier::external_body]
pub(crate) fn value_display(v: &rust_lisp::model::Value) -> (r: String) {
    format!("{}", v)
}

/// A script value as a native function sees it.
#[derive(Debug)]
pub enum ScriptArg {
    /// The interpreter's nil value; also what most commands return.
    Nil,
    /// A boolean.
    Bool(bool),
    /// An integer, widened to sixty-four bits.
    Int(i64),
    /// A string.
    Str(String),
    /// A symbol, by its name.
    Sym(String),
    /// The engine's foreign color value.
    Color(Color),
    /// Any other interpreter value, carried through opaquely, together
    /// with the interpreter's name for its kind, which the host attaches
    /// when it converts the value.
    Other(rust_lisp::model::Value, String),
}

/// The mathematical value of a script argument.
pub enum ArgV {
    Nil,
    Bool(bool),
    Int(int),
    Str(Seq<char>),
    Sym(Seq<char>),
    Color(Color),
    Other(rust_lisp::model::Value, Seq<char>),
}

impl View for ScriptArg {
    type V = ArgV;

    open spec fn view(&self) -> ArgV {
        match self {
            ScriptArg::Nil => ArgV::Nil,
            ScriptArg::Bool(b) => ArgV::Bool(*b),
            ScriptArg::Int(i) => ArgV::Int(*i as int),
            ScriptArg::Str(s) => ArgV::Str(s@),
            ScriptArg::Sym(s) => ArgV::Sym(s@),
            ScriptArg::Color(c) => ArgV::Color(*c),
            ScriptArg::Other(v, n) => ArgV::Other(*v, n@),
        }
    }
}

impl Clone for ScriptArg {
    /// The clone has the same mathematical value.
    fn clone(&self) -> (r: Self)
        ensures
            r@ == self@,
    {
        match self {
            ScriptArg::Nil => ScriptArg::Nil,
            ScriptArg::Bool(b) => ScriptArg::Bool(*b),
            ScriptArg::Int(i) => ScriptArg::Int(*i),
            ScriptArg::Str(s) => ScriptArg::Str(s.clone()),
            ScriptArg::Sym(s) => ScriptArg::Sym(s.clone()),
            ScriptArg::Color(c) => ScriptArg::Color(*c),
            ScriptArg::Other(v, n) => ScriptArg::Other(v.clone(), n.clone()),
        }
    }
}

/// The argument at `index`, or the missing-argument failure that names
/// `func` and the position.
pub fn require_arg(func: &str, args: &Vec<ScriptArg>, index: usize) -> (r: Result<
    ScriptArg,
    ScriptError,
>)
    ensures
        (match r {
            Ok(a) => index < args@.len() && a@ == args@[index as int]@,
            Err(e) => index >= args@.len() && is_missing(e, func@, index as int),
        }),
{
    if index < args.len() {
        Ok(args[index].clone())
    } else {
        Err(ScriptError::MissingArgument { func: func.to_owned(), index })
    }
}

/// The string at `index`, or the typed failure the interpreter's own
/// argument utilities would raise: missing argument, or wrong type asking
/// for a string.
pub fn require_str(func: &str, args: &Vec<ScriptArg>, index: usize) -> (r: Result<
    String,
    ScriptError,
>)
    ensures
        (match r {
            Ok(s) => index < args@.len() && args@[index as int]@ == ArgV::Str(s@),
            Err(e) => {
                ||| (index >= args@.len() && is_missing(e, func@, index as int))
                ||| (index < args@.len() && !(args@[index as int]@ is Str) && is_wrong_type(
                    e,
                    func@,
                    index as int,
                    "string"@,
                ))
            },
        }),
{
    if index >= args.len() {
        return Err(ScriptError::MissingArgument { func: func.to_owned(), index });
    }
    match &args[index] {
        ScriptArg::Str(s) => Ok(s.clone()),
        _ => Err(
            ScriptError::WrongType {
                func: func.to_owned(),
                index,
                expected: "string".to_owned(),
            },
        ),
    }
}

/// The integer at `index`, or the corresponding typed failure.
pub fn require_int(func: &str, args: &Vec<ScriptArg>, index: usize) -> (r: Result<
    i64,
    ScriptError,
>)
    ensures
        (match r {
            Ok(i) => index < args@.len() && args@[index as int]@ == ArgV::Int(i as int),
            Err(e) => {
                ||| (index >= args@.len() && is_missing(e, func@, index as int))
                ||| (index < args@.len() && !(args@[index as int]@ is Int) && is_wrong_type(
                    e,
                    func@,
                    index as int,
                    "int"@,
                ))
            },
        }),
{
    if index >= args.len() {
        return Err(ScriptError::MissingArgument { func: func.to_owned(), index });
    }
    match &args[index] {
        ScriptArg::Int(i) => Ok(*i),
        _ => Err(
            ScriptError::WrongType { func: func.to_owned(), index, expected: "int".to_owned() },
        ),
    }
}

/// The symbol name at `index`, or the corresponding typed failure.
pub fn require_sym(func: &str, args: &Vec<ScriptArg>, index: usize) -> (r: Result<
    String,
    ScriptError,
>)
    ensures
        (match r {
            Ok(s) => index < args@.len() && args@[index as int]@ == ArgV::Sym(s@),
            Err(e) => {
                ||| (index >= args@.len() && is_missing(e, func@, index as int))
                ||| (index < args@.len() && !(args@[index as int]@ is Sym) && is_wrong_type(
                    e,
                    func@,
                    index as int,
                    "symbol"@,
                ))
            },
        }),
{
    if index >= args.len() {
        return Err(ScriptError::MissingArgument { func: func.to_owned(), index });
    }
    match &args[index] {
        ScriptArg::Sym(s) => Ok(s.clone()),
        _ => Err(
            ScriptError::WrongType {
                func: func.to_owned(),
                index,
                expected: "symbol".to_owned(),
            },
        ),
    }
}

/// The color at `index`, or the corresponding typed failure.  A value of
/// any other kind, foreign values of other types included, fails loudly
/// here rather than being coerced.
pub fn require_color(func: &str, args: &Vec<ScriptArg>, index: usize) -> (r: Result<
    Color,
    ScriptError,
>)
    ensures
        (match r {
            Ok(c) => index < args@.len() && args@[index as int]@ == ArgV::Color(c),
            Err(e) => {
                ||| (index >= args@.len() && is_missing(e, func@, index as int))
                ||| (index < args@.len() && !(args@[index as int]@ is Color) && is_wrong_type(
                    e,
                    func@,
                    index as int,
                    "Color"@,
                ))
            },
        }),
{
    if index >= args.len() {
        return Err(ScriptError::MissingArgument { func: func.to_owned(), index });
    }
    match &args[index] {
        ScriptArg::Color(c) => Ok(*c),
        _ => Err(
            ScriptError::WrongType {
                func: func.to_owned(),
                index,
                expected: "Color".to_owned(),
            },
        ),
    }
}

} // verus!
