//! Title-bar commands: text, colors, text attributes, visibility.

use vstd::prelude::*;

use crate::environment::EnvData;
use crate::environment::same_except_title;
use crate::environment::TitleData;
use crate::errors::is_missing;
use crate::errors::is_wrong_type;
use crate::errors::ScriptError;
use crate::script::ArgV;
use crate::script::require_arg;
use crate::script::require_color;
use crate::script::require_str;
use crate::script::ScriptArg;

verus! {

/// Sets the title text.
pub fn set_name(data: &mut EnvData, args: &Vec<ScriptArg>) -> (r: Result<ScriptArg, ScriptError>)
    ensures
        (match r {
            Ok(a) => {
                &&& a@ is Nil
                &&& args@.len() >= 1
                &&& args@[0]@ matches ArgV::Str(s)
                &&& final(data).title.content@ == s
                &&& final(data).title == (TitleData {
                    content: final(data).title.content,
                    ..old(data).title
                })
                &&& same_except_title(*old(data), *final(data))
            },
            Err(e) => {
                &&& *final(data) == *old(data)
                &&& {
                    ||| (args@.len() < 1 && is_missing(e, "title/name/set"@, 0))
                    ||| (args@.len() >= 1 && !(args@[0]@ is Str) && is_wrong_type(
                        e,
                        "title/name/set"@,
                        0,
                        "string"@,
                    ))
                }
            },
        }),
{
    let name = match require_str("title/name/set", args, 0) {
        Ok(v) => v,
        Err(e) => {
            return Err(e);
        },
    };
    data.title.content = name;
    Ok(ScriptArg::Nil)
}

/// Sets the title's foreground color.
pub fn set_fg(data: &mut EnvData, args: &Vec<ScriptArg>) -> (r: Result<ScriptArg, ScriptError>)
    ensures
        (match r {
            Ok(a) => {
                &&& a@ is Nil
                &&& args@.len() >= 1
                &&& args@[0]@ matches ArgV::Color(c)
                &&& *final(data) == (EnvData {
                    title: (TitleData { fg: c, ..old(data).title }),
                    ..*old(data)
                })
            },
            Err(e) => {
                &&& *final(data) == *old(data)
                &&& {
                    ||| (args@.len() < 1 && is_missing(e, "title/fg/set"@, 0))
                    ||| (args@.len() >= 1 && !(args@[0]@ is Color) && is_wrong_type(
                        e,
                        "title/fg/set"@,
                        0,
                        "Color"@,
                    ))
                }
            },
        }),
{
    let c = match require_color("title/fg/set", args, 0) {
        Ok(v) => v,
        Err(e) => {
            return Err(e);
        },
    };
    data.title.fg = c;
    Ok(ScriptArg::Nil)
}

/// Sets the title's background color.
pub fn set_bg(data: &mut EnvData, args: &Vec<ScriptArg>) -> (r: Result<ScriptArg, ScriptError>)
    ensures
        (match r {
            Ok(a) => {
                &&& a@ is Nil
                &&& args@.len() >= 1
                &&& args@[0]@ matches ArgV::Color(c)
                &&& *final(data) == (EnvData {
                    title: (TitleData { bg: c, ..old(data).title }),
                    ..*old(data)
                })
            },
            Err(e) => {
                &&& *final(data) == *old(data)
                &&& {
                    ||| (args@.len() < 1 && is_missing(e, "title/bg/set"@, 0))
                    ||| (args@.len() >= 1 && !(args@[0]@ is Color) && is_wrong_type(
                        e,
                        "title/bg/set"@,
                        0,
                        "Color"@,
                    ))
                }
            },
        }),
{
    let c = match require_color("title/bg/set", args, 0) {
        Ok(v) => v,
        Err(e) => {
            return Err(e);
        },
    };
    data.title.bg = c;
    Ok(ScriptArg::Nil)
}

/// Turns the title bold.  Glyphs and state outside the title are
/// untouched.
pub fn bold(data: &mut EnvData, _args: &Vec<ScriptArg>) -> (r: Result<ScriptArg, ScriptError>)
    ensures
        r matches Ok(a) && a@ is Nil,
        *final(data) == (EnvData {
            title: (TitleData { bold: true, ..old(data).title }),
            ..*old(data)
        }),
{
    data.title.bold = true;
    Ok(ScriptArg::Nil)
}

/// Turns the title italic.
pub fn italic(data: &mut EnvData, _args: &Vec<ScriptArg>) -> (r: Result<ScriptArg, ScriptError>)
    ensures
        r matches Ok(a) && a@ is Nil,
        *final(data) == (EnvData {
            title: (TitleData { italic: true, ..old(data).title }),
            ..*old(data)
        }),
{
    data.title.italic = true;
    Ok(ScriptArg::Nil)
}

/// Strikes the title through.
pub fn crossed(data: &mut EnvData, _args: &Vec<ScriptArg>) -> (r: Result<ScriptArg, ScriptError>)
    ensures
        r matches Ok(a) && a@ is Nil,
        *final(data) == (EnvData {
            title: (TitleData { crossed: true, ..old(data).title }),
            ..*old(data)
        }),
{
    data.title.crossed = true;
    Ok(ScriptArg::Nil)
}

/// Underlines the title.
pub fn underline(data: &mut EnvData, _args: &Vec<ScriptArg>) -> (r: Result<ScriptArg, ScriptError>)
    ensures
        r matches Ok(a) && a@ is Nil,
        *final(data) == (EnvData {
            title: (TitleData { underline: true, ..old(data).title }),
            ..*old(data)
        }),
{
    data.title.underline = true;
    Ok(ScriptArg::Nil)
}

/// Clears all four title text attributes; text and colors stay.
pub fn reset(data: &mut EnvData, _args: &Vec<ScriptArg>) -> (r: Result<ScriptArg, ScriptError>)
    ensures
        r matches Ok(a) && a@ is Nil,
        *final(data) == (EnvData {
            title: (TitleData {
                bold: false,
                italic: false,
                crossed: false,
                underline: false,
                ..old(data).title
            }),
            ..*old(data)
        }),
{
    data.title.bold = false;
    data.title.italic = false;
    data.title.crossed = false;
    data.title.underline = false;
    Ok(ScriptArg::Nil)
}

/// Whether a boolean-like script value counts as true: a boolean is
/// itself, a positive integer is true, anything else is false.
pub open spec fn truthy(a: ArgV) -> bool {
    match a {
        ArgV::Bool(b) => b,
        ArgV::Int(i) => i > 0,
        _ => false,
    }
}

/// Shows or hides the title; accepts boolean-like values.
pub fn show(data: &mut EnvData, args: &Vec<ScriptArg>) -> (r: Result<ScriptArg, ScriptError>)
    ensures
        (match r {
            Ok(a) => {
                &&& a@ is Nil
                &&& args@.len() >= 1
                &&& *final(data) == (EnvData {
                    title: (TitleData { show: truthy(args@[0]@), ..old(data).title }),
                    ..*old(data)
                })
            },
            Err(e) => {
                &&& *final(data) == *old(data)
                &&& args@.len() < 1 && is_missing(e, "title/show"@, 0)
            },
        }),
{
    let v = match require_arg("title/show", args, 0) {
        Ok(v) => v,
        Err(e) => {
            return Err(e);
        },
    };
    let shown = match v {
        ScriptArg::Bool(b) => b,
        ScriptArg::Int(i) => i > 0,
        _ => false,
    };
    data.title.show = shown;
    Ok(ScriptArg::Nil)
}

} // verus!
