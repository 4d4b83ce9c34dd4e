//! Option commands: add a room-navigation option, add a callback option,
//! clear the list.

use vstd::prelude::*;

use crate::environment::Content;
use crate::environment::EnvData;
use crate::environment::OptionAction;
use crate::environment::OptionData;
use crate::environment::OptionDataSingle;
use crate::environment::same_except_options;
use crate::environment::styled_seq;
use crate::errors::is_missing;
use crate::errors::is_wrong_type;
use crate::errors::ScriptError;
use crate::script::ArgV;
use crate::script::require_arg;
use crate::script::require_str;
use crate::script::require_sym;
use crate::script::ScriptArg;

verus! {

/// Empties the option list and clears the selection.
pub fn option_reset(data: &mut EnvData, _args: &Vec<ScriptArg>) -> (r: Result<
    ScriptArg,
    ScriptError,
>)
    ensures
        r matches Ok(a) && a@ is Nil,
        final(data).options.options@.len() == 0,
        final(data).options.selected is None,
        same_except_options(*old(data), *final(data)),
{
    data.options.options = Vec::new();
    data.options.selected = None;
    Ok(ScriptArg::Nil)
}

/// Builds the styled label for a new option: the label's characters,
/// each snapshotting the current emission style.
fn styled_label(data: &EnvData, name: &String) -> (r: Content)
    ensures
        r@ == styled_seq(data.display, name@),
{
    let chars = crate::text::str_chars(name.as_str());
    let mut glyphs: Vec<crate::environment::ContentChar> = Vec::new();
    let mut i: usize = 0;
    while i < chars.len()
        invariant
            i <= chars@.len(),
            glyphs@ == styled_seq(data.display, chars@.subrange(0, i as int)),
        decreases chars@.len() - i,
    {
        glyphs.push(data.display.to_content_char(chars[i]));
        i = i + 1;
        proof {
            assert(glyphs@ =~= styled_seq(data.display, chars@.subrange(0, i as int)));
        }
    }
    proof {
        assert(chars@.subrange(0, chars@.len() as int) =~= chars@);
    }
    Content(glyphs)
}

/// Adds an option whose activation navigates to the named room.  The
/// label is styled with the current emission style; the target room is
/// given as a symbol.
pub fn option_goto(data: &mut EnvData, args: &Vec<ScriptArg>) -> (r: Result<ScriptArg, ScriptError>)
    ensures
        (match r {
            Ok(a) => {
                &&& a@ is Nil
                &&& args@.len() >= 2
                &&& args@[0]@ matches ArgV::Str(label)
                &&& args@[1]@ matches ArgV::Sym(target)
                &&& final(data).options.options@.len() == old(data).options.options@.len() + 1
                &&& final(data).options.options@.subrange(
                    0,
                    old(data).options.options@.len() as int,
                ) == old(data).options.options@
                &&& final(data).options.options@.last().name@ == styled_seq(
                    old(data).display,
                    label,
                )
                &&& final(data).options.options@.last().action matches OptionAction::Goto(room)
                    && room@ == target
                &&& final(data).options.selected == old(data).options.selected
                &&& same_except_options(*old(data), *final(data))
            },
            Err(e) => {
                &&& *final(data) == *old(data)
                &&& {
                    ||| (args@.len() < 1 && is_missing(e, "option/goto"@, 0))
                    ||| (args@.len() >= 1 && !(args@[0]@ is Str) && is_wrong_type(
                        e,
                        "option/goto"@,
                        0,
                        "string"@,
                    ))
                    ||| (args@.len() < 2 && args@[0]@ is Str && is_missing(e, "option/goto"@, 1))
                    ||| (args@.len() >= 2 && args@[0]@ is Str && !(args@[1]@ is Sym)
                        && is_wrong_type(e, "option/goto"@, 1, "symbol"@))
                }
            },
        }),
{
    let name = match require_str("option/goto", args, 0) {
        Ok(v) => v,
        Err(e) => {
            return Err(e);
        },
    };
    let target = match require_sym("option/goto", args, 1) {
        Ok(v) => v,
        Err(e) => {
            return Err(e);
        },
    };
    let label = styled_label(data, &name);
    let ghost before = data.options.options@;
    data.options.options.push(OptionDataSingle { name: label, action: OptionAction::Goto(target) });
    proof {
        assert(data.options.options@.subrange(0, before.len() as int) =~= before);
    }
    Ok(ScriptArg::Nil)
}

/// Adds an option whose activation hands the given script value back to
/// the interpreter to call.
pub fn option_action(data: &mut EnvData, args: &Vec<ScriptArg>) -> (r: Result<
    ScriptArg,
    ScriptError,
>)
    ensures
        (match r {
            Ok(a) => {
                &&& a@ is Nil
                &&& args@.len() >= 2
                &&& args@[0]@ matches ArgV::Str(label)
                &&& final(data).options.options@.len() == old(data).options.options@.len() + 1
                &&& final(data).options.options@.subrange(
                    0,
                    old(data).options.options@.len() as int,
                ) == old(data).options.options@
                &&& final(data).options.options@.last().name@ == styled_seq(
                    old(data).display,
                    label,
                )
                &&& final(data).options.options@.last().action matches OptionAction::Script(cb)
                    && cb@ == args@[1]@
                &&& final(data).options.selected == old(data).options.selected
                &&& same_except_options(*old(data), *final(data))
            },
            Err(e) => {
                &&& *final(data) == *old(data)
                &&& {
                    ||| (args@.len() < 1 && is_missing(e, "option/action"@, 0))
                    ||| (args@.len() >= 1 && !(args@[0]@ is Str) && is_wrong_type(
                        e,
                        "option/action"@,
                        0,
                        "string"@,
                    ))
                    ||| (args@.len() < 2 && args@[0]@ is Str && is_missing(e, "option/action"@, 1))
                }
            },
        }),
{
    let name = match require_str("option/action", args, 0) {
        Ok(v) => v,
        Err(e) => {
            return Err(e);
        },
    };
    let action = match require_arg("option/action", args, 1) {
        Ok(v) => v,
        Err(e) => {
            return Err(e);
        },
    };
    let label = styled_label(data, &name);
    let ghost before = data.options.options@;
    data.options.options.push(
        OptionDataSingle { name: label, action: OptionAction::Script(action) },
    );
    proof {
        assert(data.options.options@.subrange(0, before.len() as int) =~= before);
    }
    Ok(ScriptArg::Nil)
}

} // verus!
