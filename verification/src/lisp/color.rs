//! The foreign color value and its construction and lookup commands.

use vstd::prelude::*;

use crate::errors::is_missing;
use crate::errors::is_named_lookup;
use crate::errors::is_out_of_range;
use crate::errors::is_wrong_type;
use crate::errors::ScriptError;
use crate::script::ArgV;
use crate::script::require_int;
use crate::script::require_sym;
use crate::script::ScriptArg;

verus! {

/// An RGB color: red, green and blue components, each `0 ..= 255`.
/// Scripts hold it as an opaque foreign value; they can pass it around
/// but not look inside it.
#[derive(Clone, Copy, Debug, PartialEq, Eq, Structural)]
pub struct Color(pub u8, pub u8, pub u8);

impl Default for Color {
    /// Black.
    fn default() -> (r: Self)
        ensures
            r == Color(0u8, 0u8, 0u8),
    {
        Color(0, 0, 0)
    }
}

/// The color a palette name stands for, if any.  The palette is fixed:
/// red, green, blue, black and white.
pub open spec fn palette(name: Seq<char>) -> Option<Color> {
    if name == "red"@ {
        Some(Color(255u8, 0u8, 0u8))
    } else if name == "green"@ {
        Some(Color(0u8, 255u8, 0u8))
    } else if name == "blue"@ {
        Some(Color(0u8, 0u8, 255u8))
    } else if name == "black"@ {
        Some(Color(0u8, 0u8, 0u8))
    } else if name == "white"@ {
        Some(Color(255u8, 255u8, 255u8))
    } else {
        None
    }
}

/// The failure `color-new` reports for this argument list: arguments are
/// demanded and type-checked left to right, then each component is
/// range-checked left to right.
pub open spec fn color_new_err(args: Seq<ArgV>, e: ScriptError) -> bool {
    if args.len() < 1 {
        is_missing(e, "color-new"@, 0)
    } else if !(args[0] is Int) {
        is_wrong_type(e, "color-new"@, 0, "int"@)
    } else if args.len() < 2 {
        is_missing(e, "color-new"@, 1)
    } else if !(args[1] is Int) {
        is_wrong_type(e, "color-new"@, 1, "int"@)
    } else if args.len() < 3 {
        is_missing(e, "color-new"@, 2)
    } else if !(args[2] is Int) {
        is_wrong_type(e, "color-new"@, 2, "int"@)
    } else if !(0 <= args[0]->Int_0 <= 255) {
        is_out_of_range(e, "color-new"@, 0)
    } else if !(0 <= args[1]->Int_0 <= 255) {
        is_out_of_range(e, "color-new"@, 1)
    } else {
        !(0 <= args[2]->Int_0 <= 255) && is_out_of_range(e, "color-new"@, 2)
    }
}

/// Builds a color from three integer components, each `0 ..= 255`; a
/// missing or non-integer argument, or a component out of range, is a
/// typed failure.
pub fn color_new(args: &Vec<ScriptArg>) -> (r: Result<ScriptArg, ScriptError>)
    ensures
        (match r {
            Ok(a) => {
                &&& args@.len() >= 3
                &&& args@[0]@ matches ArgV::Int(rv) && 0 <= rv <= 255
                &&& args@[1]@ matches ArgV::Int(gv) && 0 <= gv <= 255
                &&& args@[2]@ matches ArgV::Int(bv) && 0 <= bv <= 255
                &&& a@ == ArgV::Color(
                    Color(
                        args@[0]@->Int_0 as u8,
                        args@[1]@->Int_0 as u8,
                        args@[2]@->Int_0 as u8,
                    ),
                )
            },
            Err(e) => color_new_err(args@.map_values(|a: ScriptArg| a@), e),
        }),
{
    let rv = match require_int("color-new", args, 0) {
        Ok(v) => v,
        Err(e) => {
            return Err(e);
        },
    };
    let gv = match require_int("color-new", args, 1) {
        Ok(v) => v,
        Err(e) => {
            return Err(e);
        },
    };
    let bv = match require_int("color-new", args, 2) {
        Ok(v) => v,
        Err(e) => {
            return Err(e);
        },
    };
    if rv < 0 || rv > 255 {
        return Err(ScriptError::OutOfRange { func: "color-new".to_owned(), index: 0 });
    }
    if gv < 0 || gv > 255 {
        return Err(ScriptError::OutOfRange { func: "color-new".to_owned(), index: 1 });
    }
    if bv < 0 || bv > 255 {
        return Err(ScriptError::OutOfRange { func: "color-new".to_owned(), index: 2 });
    }
    Ok(ScriptArg::Color(Color(rv as u8, gv as u8, bv as u8)))
}

/// Looks a color up by symbol in the fixed palette; an unknown name is a
/// named-lookup failure carrying that name.
pub fn color(args: &Vec<ScriptArg>) -> (r: Result<ScriptArg, ScriptError>)
    ensures
        (match r {
            Ok(a) => {
                &&& args@.len() >= 1
                &&& args@[0]@ matches ArgV::Sym(n)
                &&& palette(n) matches Some(c) && a@ == ArgV::Color(c)
            },
            Err(e) => {
                ||| (args@.len() < 1 && is_missing(e, "color"@, 0))
                ||| (args@.len() >= 1 && !(args@[0]@ is Sym) && is_wrong_type(
                    e,
                    "color"@,
                    0,
                    "symbol"@,
                ))
                ||| (args@.len() >= 1 && (args@[0]@ matches ArgV::Sym(n) && (palette(n) is None
                    && is_named_lookup(e, "color"@, n))))
            },
        }),
{
    let name = match require_sym("color", args, 0) {
        Ok(v) => v,
        Err(e) => {
            return Err(e);
        },
    };
    let c = if crate::text::str_eq(name.as_str(), "red") {
        Color(255, 0, 0)
    } else if crate::text::str_eq(name.as_str(), "green") {
        Color(0, 255, 0)
    } else if crate::text::str_eq(name.as_str(), "blue") {
        Color(0, 0, 255)
    } else if crate::text::str_eq(name.as_str(), "black") {
        Color(0, 0, 0)
    } else if crate::text::str_eq(name.as_str(), "white") {
        Color(255, 255, 255)
    } else {
        return Err(ScriptError::NamedLookup { func: "color".to_owned(), name });
    };
    Ok(ScriptArg::Color(c))
}

} // verus!
