//! Display and content commands: reveal pacing, the emission style,
//! chrome colors, the visible buffer and the scroll offset.

use vstd::prelude::*;

use crate::environment::Content;
use crate::environment::DisplayData;
use crate::environment::EnvData;
use crate::environment::styled_seq;
use crate::errors::is_missing;
use crate::errors::is_wrong_type;
use crate::errors::ScriptError;
use crate::lisp::color::Color;
use crate::script::ArgV;
use crate::script::require_color;
use crate::script::require_int;
use crate::script::require_str;
use crate::script::ScriptArg;

verus! {

/// Sets the reveal delay in milliseconds per tick; zero pauses the
/// reveal.
pub fn set_delay(data: &mut EnvData, args: &Vec<ScriptArg>) -> (r: Result<ScriptArg, ScriptError>)
    ensures
        (match r {
            Ok(a) => {
                &&& a@ is Nil
                &&& args@.len() >= 1
                &&& args@[0]@ matches ArgV::Int(d)
                &&& final(data).display.delay == d
                &&& *final(data) == (EnvData {
                    display: (DisplayData { delay: final(data).display.delay, ..old(data).display }),
                    ..*old(data)
                })
            },
            Err(e) => {
                &&& *final(data) == *old(data)
                &&& {
                    ||| (args@.len() < 1 && is_missing(e, "delay/set"@, 0))
                    ||| (args@.len() >= 1 && !(args@[0]@ is Int) && is_wrong_type(
                        e,
                        "delay/set"@,
                        0,
                        "int"@,
                    ))
                }
            },
        }),
{
    let d = match require_int("delay/set", args, 0) {
        Ok(v) => v,
        Err(e) => {
            return Err(e);
        },
    };
    data.display.delay = d;
    Ok(ScriptArg::Nil)
}

/// Sets the emission foreground color new glyphs snapshot.
pub fn set_content_fg(data: &mut EnvData, args: &Vec<ScriptArg>) -> (r: Result<
    ScriptArg,
    ScriptError,
>)
    ensures
        (match r {
            Ok(a) => {
                &&& a@ is Nil
                &&& args@.len() >= 1
                &&& args@[0]@ matches ArgV::Color(c)
                &&& *final(data) == (EnvData {
                    display: (DisplayData { current_fg: c, ..old(data).display }),
                    ..*old(data)
                })
            },
            Err(e) => {
                &&& *final(data) == *old(data)
                &&& {
                    ||| (args@.len() < 1 && is_missing(e, "fg/set"@, 0))
                    ||| (args@.len() >= 1 && !(args@[0]@ is Color) && is_wrong_type(
                        e,
                        "fg/set"@,
                        0,
                        "Color"@,
                    ))
                }
            },
        }),
{
    let c = match require_color("fg/set", args, 0) {
        Ok(v) => v,
        Err(e) => {
            return Err(e);
        },
    };
    data.display.current_fg = c;
    Ok(ScriptArg::Nil)
}

/// Sets the emission background color new glyphs snapshot.
pub fn set_content_bg(data: &mut EnvData, args: &Vec<ScriptArg>) -> (r: Result<
    ScriptArg,
    ScriptError,
>)
    ensures
        (match r {
            Ok(a) => {
                &&& a@ is Nil
                &&& args@.len() >= 1
                &&& args@[0]@ matches ArgV::Color(c)
                &&& *final(data) == (EnvData {
                    display: (DisplayData { current_bg: c, ..old(data).display }),
                    ..*old(data)
                })
            },
            Err(e) => {
                &&& *final(data) == *old(data)
                &&& {
                    ||| (args@.len() < 1 && is_missing(e, "bg/set"@, 0))
                    ||| (args@.len() >= 1 && !(args@[0]@ is Color) && is_wrong_type(
                        e,
                        "bg/set"@,
                        0,
                        "Color"@,
                    ))
                }
            },
        }),
{
    let c = match require_color("bg/set", args, 0) {
        Ok(v) => v,
        Err(e) => {
            return Err(e);
        },
    };
    data.display.current_bg = c;
    Ok(ScriptArg::Nil)
}

/// Sets the renderer's chrome foreground color.
pub fn set_fg(data: &mut EnvData, args: &Vec<ScriptArg>) -> (r: Result<ScriptArg, ScriptError>)
    ensures
        (match r {
            Ok(a) => {
                &&& a@ is Nil
                &&& args@.len() >= 1
                &&& args@[0]@ matches ArgV::Color(c)
                &&& *final(data) == (EnvData {
                    display: (DisplayData { display_fg: c, ..old(data).display }),
                    ..*old(data)
                })
            },
            Err(e) => {
                &&& *final(data) == *old(data)
                &&& {
                    ||| (args@.len() < 1 && is_missing(e, "display/fg/set"@, 0))
                    ||| (args@.len() >= 1 && !(args@[0]@ is Color) && is_wrong_type(
                        e,
                        "display/fg/set"@,
                        0,
                        "Color"@,
                    ))
                }
            },
        }),
{
    let c = match require_color("display/fg/set", args, 0) {
        Ok(v) => v,
        Err(e) => {
            return Err(e);
        },
    };
    data.display.display_fg = c;
    Ok(ScriptArg::Nil)
}

/// Reads the renderer's chrome foreground color back.
pub fn get_fg(data: &EnvData, _args: &Vec<ScriptArg>) -> (r: Result<ScriptArg, ScriptError>)
    ensures
        r matches Ok(a) && a@ == ArgV::Color(data.display.display_fg),
{
    Ok(ScriptArg::Color(data.display.display_fg))
}

/// Sets the renderer's chrome background color.
pub fn set_bg(data: &mut EnvData, args: &Vec<ScriptArg>) -> (r: Result<ScriptArg, ScriptError>)
    ensures
        (match r {
            Ok(a) => {
                &&& a@ is Nil
                &&& args@.len() >= 1
                &&& args@[0]@ matches ArgV::Color(c)
                &&& *final(data) == (EnvData {
                    display: (DisplayData { display_bg: c, ..old(data).display }),
                    ..*old(data)
                })
            },
            Err(e) => {
                &&& *final(data) == *old(data)
                &&& {
                    ||| (args@.len() < 1 && is_missing(e, "display/bg/set"@, 0))
                    ||| (args@.len() >= 1 && !(args@[0]@ is Color) && is_wrong_type(
                        e,
                        "display/bg/set"@,
                        0,
                        "Color"@,
                    ))
                }
            },
        }),
{
    let c = match require_color("display/bg/set", args, 0) {
        Ok(v) => v,
        Err(e) => {
            return Err(e);
        },
    };
    data.display.display_bg = c;
    Ok(ScriptArg::Nil)
}

/// Reads the renderer's chrome background color back.
pub fn get_bg(data: &EnvData, _args: &Vec<ScriptArg>) -> (r: Result<ScriptArg, ScriptError>)
    ensures
        r matches Ok(a) && a@ == ArgV::Color(data.display.display_bg),
{
    Ok(ScriptArg::Color(data.display.display_bg))
}

/// Sets the renderer's accent color.
pub fn set_ac(data: &mut EnvData, args: &Vec<ScriptArg>) -> (r: Result<ScriptArg, ScriptError>)
    ensures
        (match r {
            Ok(a) => {
                &&& a@ is Nil
                &&& args@.len() >= 1
                &&& args@[0]@ matches ArgV::Color(c)
                &&& *final(data) == (EnvData {
                    display: (DisplayData { display_ac: c, ..old(data).display }),
                    ..*old(data)
                })
            },
            Err(e) => {
                &&& *final(data) == *old(data)
                &&& {
                    ||| (args@.len() < 1 && is_missing(e, "display/ac/set"@, 0))
                    ||| (args@.len() >= 1 && !(args@[0]@ is Color) && is_wrong_type(
                        e,
                        "display/ac/set"@,
                        0,
                        "Color"@,
                    ))
                }
            },
        }),
{
    let c = match require_color("display/ac/set", args, 0) {
        Ok(v) => v,
        Err(e) => {
            return Err(e);
        },
    };
    data.display.display_ac = c;
    Ok(ScriptArg::Nil)
}

/// Reads the renderer's accent color back.
pub fn get_ac(data: &EnvData, _args: &Vec<ScriptArg>) -> (r: Result<ScriptArg, ScriptError>)
    ensures
        r matches Ok(a) && a@ == ArgV::Color(data.display.display_ac),
{
    Ok(ScriptArg::Color(data.display.display_ac))
}

/// Turns the emission style bold.  Glyphs already in the buffer keep the
/// style they were emitted with.
pub fn bold(data: &mut EnvData, _args: &Vec<ScriptArg>) -> (r: Result<ScriptArg, ScriptError>)
    ensures
        r matches Ok(a) && a@ is Nil,
        *final(data) == (EnvData {
            display: (DisplayData { bold: true, ..old(data).display }),
            ..*old(data)
        }),
{
    data.display.bold = true;
    Ok(ScriptArg::Nil)
}

/// Turns the emission style italic.
pub fn italic(data: &mut EnvData, _args: &Vec<ScriptArg>) -> (r: Result<ScriptArg, ScriptError>)
    ensures
        r matches Ok(a) && a@ is Nil,
        *final(data) == (EnvData {
            display: (DisplayData { italic: true, ..old(data).display }),
            ..*old(data)
        }),
{
    data.display.italic = true;
    Ok(ScriptArg::Nil)
}

/// Strikes the emission style through.
pub fn crossed(data: &mut EnvData, _args: &Vec<ScriptArg>) -> (r: Result<ScriptArg, ScriptError>)
    ensures
        r matches Ok(a) && a@ is Nil,
        *final(data) == (EnvData {
            display: (DisplayData { crossed: true, ..old(data).display }),
            ..*old(data)
        }),
{
    data.display.crossed = true;
    Ok(ScriptArg::Nil)
}

/// Underlines the emission style.
pub fn underline(data: &mut EnvData, _args: &Vec<ScriptArg>) -> (r: Result<ScriptArg, ScriptError>)
    ensures
        r matches Ok(a) && a@ is Nil,
        *final(data) == (EnvData {
            display: (DisplayData { underline: true, ..old(data).display }),
            ..*old(data)
        }),
{
    data.display.underline = true;
    Ok(ScriptArg::Nil)
}

/// Resets the emission style: attributes off, emission colors back to
/// the defaults.  Emitted glyphs are untouched.
pub fn reset(data: &mut EnvData, _args: &Vec<ScriptArg>) -> (r: Result<ScriptArg, ScriptError>)
    ensures
        r matches Ok(a) && a@ is Nil,
        *final(data) == (EnvData {
            display: (DisplayData {
                bold: false,
                italic: false,
                crossed: false,
                underline: false,
                current_fg: Color(0u8, 0u8, 0u8),
                current_bg: Color(0u8, 0u8, 0u8),
                ..old(data).display
            }),
            ..*old(data)
        }),
{
    data.display.bold = false;
    data.display.italic = false;
    data.display.crossed = false;
    data.display.underline = false;
    data.display.current_fg = Color(0, 0, 0);
    data.display.current_bg = Color(0, 0, 0);
    Ok(ScriptArg::Nil)
}

/// Empties the visible buffer and puts the reveal cursor back to zero.
pub fn content_clear(data: &mut EnvData, _args: &Vec<ScriptArg>) -> (r: Result<
    ScriptArg,
    ScriptError,
>)
    ensures
        r matches Ok(a) && a@ is Nil,
        final(data).display.content@.len() == 0,
        final(data).display.displayed_index == 0,
        *final(data) == (EnvData {
            display: (DisplayData {
                content: final(data).display.content,
                displayed_index: 0,
                ..old(data).display
            }),
            ..*old(data)
        }),
{
    data.display.content.0.clear();
    data.display.displayed_index = 0;
    Ok(ScriptArg::Nil)
}

/// Reads the visible buffer back as one unstyled string.
pub fn content_get_raw(data: &EnvData, _args: &Vec<ScriptArg>) -> (r: Result<
    ScriptArg,
    ScriptError,
>)
    ensures
        r matches Ok(a) && a@ == ArgV::Str(
            data.display.content@.map_values(|c: crate::environment::ContentChar| c.ch),
        ),
{
    Ok(ScriptArg::Str(data.display.content.to_raw()))
}

/// Appends a whole string to the visible buffer at once, each character
/// styled with the current emission style.  The reveal cursor does not
/// move: scripted bulk output is not metered by the reveal delay.
pub fn content_append(data: &mut EnvData, args: &Vec<ScriptArg>) -> (r: Result<
    ScriptArg,
    ScriptError,
>)
    ensures
        (match r {
            Ok(a) => {
                &&& a@ is Nil
                &&& args@.len() >= 1
                &&& args@[0]@ matches ArgV::Str(s)
                &&& final(data).display.content@ == old(data).display.content@ + styled_seq(
                    old(data).display,
                    s,
                )
                &&& *final(data) == (EnvData {
                    display: (DisplayData {
                        content: final(data).display.content,
                        ..old(data).display
                    }),
                    ..*old(data)
                })
            },
            Err(e) => {
                &&& *final(data) == *old(data)
                &&& {
                    ||| (args@.len() < 1 && is_missing(e, "content/append"@, 0))
                    ||| (args@.len() >= 1 && !(args@[0]@ is Str) && is_wrong_type(
                        e,
                        "content/append"@,
                        0,
                        "string"@,
                    ))
                }
            },
        }),
{
    let s = match require_str("content/append", args, 0) {
        Ok(v) => v,
        Err(e) => {
            return Err(e);
        },
    };
    let chars = crate::text::str_chars(s.as_str());
    let ghost d0 = data.display;
    let mut i: usize = 0;
    while i < chars.len()
        invariant
            i <= chars@.len(),
            data.display.content@ == d0.content@ + styled_seq(d0, chars@.subrange(0, i as int)),
            data.display == (DisplayData { content: data.display.content, ..d0 }),
            *data == (EnvData { display: data.display, ..*old(data) }),
        decreases chars@.len() - i,
    {
        let g = data.display.to_content_char(chars[i]);
        data.display.content.0.push(g);
        i = i + 1;
        proof {
            assert(data.display.content@ =~= d0.content@ + styled_seq(
                d0,
                chars@.subrange(0, i as int),
            ));
        }
    }
    proof {
        assert(chars@.subrange(0, chars@.len() as int) =~= chars@);
    }
    Ok(ScriptArg::Nil)
}

/// Scrolls the viewport down one line.
pub fn content_scroll_down(data: &mut EnvData, _args: &Vec<ScriptArg>) -> (r: Result<
    ScriptArg,
    ScriptError,
>)
    ensures
        r matches Ok(a) && a@ is Nil,
        final(data).display.scroll == (if old(data).display.scroll < i32::MAX {
            old(data).display.scroll + 1
        } else {
            old(data).display.scroll as int
        }),
        *final(data) == (EnvData {
            display: (DisplayData { scroll: final(data).display.scroll, ..old(data).display }),
            ..*old(data)
        }),
{
    if data.display.scroll < i32::MAX {
        data.display.scroll = data.display.scroll + 1;
    }
    Ok(ScriptArg::Nil)
}

/// Scrolls the viewport up one line; the offset never goes negative.
pub fn content_scroll_up(data: &mut EnvData, _args: &Vec<ScriptArg>) -> (r: Result<
    ScriptArg,
    ScriptError,
>)
    ensures
        r matches Ok(a) && a@ is Nil,
        final(data).display.scroll == (if old(data).display.scroll >= 1 {
            old(data).display.scroll - 1
        } else {
            0
        }),
        *final(data) == (EnvData {
            display: (DisplayData { scroll: final(data).display.scroll, ..old(data).display }),
            ..*old(data)
        }),
{
    if data.display.scroll >= 1 {
        data.display.scroll = data.display.scroll - 1;
    } else {
        data.display.scroll = 0;
    }
    Ok(ScriptArg::Nil)
}

/// Sets the scroll offset outright; negative requests clamp to zero and
/// requests past the offset's range clamp to its largest value.
pub fn content_scroll_set(data: &mut EnvData, args: &Vec<ScriptArg>) -> (r: Result<
    ScriptArg,
    ScriptError,
>)
    ensures
        (match r {
            Ok(a) => {
                &&& a@ is Nil
                &&& args@.len() >= 1
                &&& args@[0]@ matches ArgV::Int(v)
                &&& final(data).display.scroll == (if v < 0 {
                    0
                } else if v > i32::MAX {
                    i32::MAX as int
                } else {
                    v
                })
                &&& *final(data) == (EnvData {
                    display: (DisplayData {
                        scroll: final(data).display.scroll,
                        ..old(data).display
                    }),
                    ..*old(data)
                })
            },
            Err(e) => {
                &&& *final(data) == *old(data)
                &&& {
                    ||| (args@.len() < 1 && is_missing(e, "content/scroll/set"@, 0))
                    ||| (args@.len() >= 1 && !(args@[0]@ is Int) && is_wrong_type(
                        e,
                        "content/scroll/set"@,
                        0,
                        "int"@,
                    ))
                }
            },
        }),
{
    let v = match require_int("content/scroll/set", args, 0) {
        Ok(v) => v,
        Err(e) => {
            return Err(e);
        },
    };
    let clamped: i32 = if v < 0 {
        0
    } else if v > i32::MAX as i64 {
        i32::MAX
    } else {
        v as i32
    };
    data.display.scroll = clamped;
    Ok(ScriptArg::Nil)
}

/// Reads the scroll offset back.
pub fn content_scroll_get(data: &EnvData, _args: &Vec<ScriptArg>) -> (r: Result<
    ScriptArg,
    ScriptError,
>)
    ensures
        r matches Ok(a) && a@ == ArgV::Int(data.display.scroll as int),
{
    Ok(ScriptArg::Int(data.display.scroll as i64))
}

} // verus!
