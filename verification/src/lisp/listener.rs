//! Listener commands: register a keyboard-character callback under a
//! growing integer id, and unregister by id.

use vstd::prelude::*;

use crate::environment::EnvData;
use crate::environment::ListenerData;
use crate::environment::listeners_wf;
use crate::environment::same_except_listeners;
use crate::errors::is_missing;
use crate::errors::is_wrong_type;
use crate::errors::ScriptError;
use crate::script::ArgV;
use crate::script::require_arg;
use crate::script::require_int;
use crate::script::ScriptArg;

verus! {

/// Registers a callback for keyboard character events and returns its
/// id.  Ids only grow, so clearing one listener never makes another's id
/// ambiguous.
pub fn keyboard_char_listener(data: &mut EnvData, args: &Vec<ScriptArg>) -> (r: Result<
    ScriptArg,
    ScriptError,
>)
    requires
        listeners_wf(old(data).listeners),
    ensures
        listeners_wf(final(data).listeners),
        (match r {
            Ok(a) => {
                &&& args@.len() >= 1
                &&& a@ == ArgV::Int(old(data).listeners.next_id as int)
                &&& old(data).listeners.next_id < i64::MAX ==> {
                    &&& final(data).listeners.keyboard_char@.len() == old(
                        data,
                    ).listeners.keyboard_char@.len() + 1
                    &&& final(data).listeners.keyboard_char@.subrange(
                        0,
                        old(data).listeners.keyboard_char@.len() as int,
                    ) == old(data).listeners.keyboard_char@
                    &&& final(data).listeners.keyboard_char@.last().0 == old(
                        data,
                    ).listeners.next_id
                    &&& final(data).listeners.keyboard_char@.last().1@ == args@[0]@
                    &&& final(data).listeners.next_id == old(data).listeners.next_id + 1
                    &&& same_except_listeners(*old(data), *final(data))
                }
                // the id space is exhausted: nothing can be registered
                &&& old(data).listeners.next_id == i64::MAX ==> *final(data) == *old(data)
            },
            Err(e) => {
                &&& *final(data) == *old(data)
                &&& args@.len() < 1 && is_missing(e, "listener/keyboard/char"@, 0)
            },
        }),
{
    let cb = match require_arg("listener/keyboard/char", args, 0) {
        Ok(v) => v,
        Err(e) => {
            return Err(e);
        },
    };
    let id = data.listeners.next_id;
    if id < i64::MAX {
        let ghost before = data.listeners.keyboard_char@;
        data.listeners.keyboard_char.push((id, cb));
        data.listeners.next_id = id + 1;
        proof {
            assert(data.listeners.keyboard_char@.subrange(0, before.len() as int) =~= before);
        }
    }
    Ok(ScriptArg::Int(id))
}

/// Unregisters the listener with the given id; an unknown id changes
/// nothing.
pub fn listener_clear(data: &mut EnvData, args: &Vec<ScriptArg>) -> (r: Result<
    ScriptArg,
    ScriptError,
>)
    requires
        listeners_wf(old(data).listeners),
    ensures
        listeners_wf(final(data).listeners),
        (match r {
            Ok(a) => {
                &&& a@ is Nil
                &&& args@.len() >= 1
                &&& args@[0]@ matches ArgV::Int(id)
                &&& same_except_listeners(*old(data), *final(data))
                &&& final(data).listeners.next_id == old(data).listeners.next_id
                // no listener with that id remains
                &&& forall|i: int|
                    0 <= i < final(data).listeners.keyboard_char@.len()
                        ==> #[trigger] final(data).listeners.keyboard_char@[i].0 != id
                // each surviving listener was registered before, and each
                // other listener survives
                &&& ((exists|j: int|
                    0 <= j < old(data).listeners.keyboard_char@.len() && old(
                        data,
                    ).listeners.keyboard_char@[j].0 == id) ==> exists|j: int|
                    0 <= j < old(data).listeners.keyboard_char@.len() && old(
                        data,
                    ).listeners.keyboard_char@[j].0 == id && final(data).listeners.keyboard_char@
                        == old(data).listeners.keyboard_char@.remove(j))
                &&& ((forall|j: int|
                    0 <= j < old(data).listeners.keyboard_char@.len() ==> #[trigger] old(
                        data,
                    ).listeners.keyboard_char@[j].0 != id) ==> *final(data) == *old(data))
            },
            Err(e) => {
                &&& *final(data) == *old(data)
                &&& {
                    ||| (args@.len() < 1 && is_missing(e, "listener/clear"@, 0))
                    ||| (args@.len() >= 1 && !(args@[0]@ is Int) && is_wrong_type(
                        e,
                        "listener/clear"@,
                        0,
                        "int"@,
                    ))
                }
            },
        }),
{
    let id = match require_int("listener/clear", args, 0) {
        Ok(v) => v,
        Err(e) => {
            return Err(e);
        },
    };
    let mut i: usize = 0;
    while i < data.listeners.keyboard_char.len()
        invariant
            listeners_wf(old(data).listeners),
            args@.len() >= 1,
            args@[0]@ == ArgV::Int(id as int),
            i <= data.listeners.keyboard_char@.len(),
            forall|j: int| 0 <= j < i ==> #[trigger] data.listeners.keyboard_char@[j].0 != id,
            *data == *old(data),
        decreases data.listeners.keyboard_char@.len() - i,
    {
        if data.listeners.keyboard_char[i].0 == id {
            let ghost before = data.listeners.keyboard_char@;
            data.listeners.keyboard_char.remove(i);
            proof {
                assert(before == old(data).listeners.keyboard_char@);
                let after = data.listeners.keyboard_char@;
                assert(after =~= before.remove(i as int));
                assert forall|a: int, b: int|
                    0 <= a < b < after.len() implies after[a].0 != after[b].0 by {
                    let a2: int = if a < i { a } else { a + 1 };
                    let b2: int = if b < i { b } else { b + 1 };
                    assert(after[a] == old(data).listeners.keyboard_char@[a2]);
                    assert(after[b] == old(data).listeners.keyboard_char@[b2]);
                    assert(old(data).listeners.keyboard_char@[a2].0 != old(
                        data,
                    ).listeners.keyboard_char@[b2].0);
                }
                assert forall|k: int| 0 <= k < after.len() implies after[k].0
                    < data.listeners.next_id by {
                    let k2: int = if k < i { k } else { k + 1 };
                    assert(after[k] == old(data).listeners.keyboard_char@[k2]);
                    assert(old(data).listeners.keyboard_char@[k2].0
                        < old(data).listeners.next_id);
                }
                assert forall|k: int| 0 <= k < after.len() implies #[trigger] after[k].0
                    != id by {
                    let k2: int = if k < i { k } else { k + 1 };
                    assert(after[k] == old(data).listeners.keyboard_char@[k2]);
                    if k2 != i {
                        let lo: int = if k2 < i { k2 } else { i as int };
                        let hi: int = if k2 < i { i as int } else { k2 };
                        assert(old(data).listeners.keyboard_char@[lo].0 != old(
                            data,
                        ).listeners.keyboard_char@[hi].0);
                    }
                }
                assert(0 <= i < old(data).listeners.keyboard_char@.len() && old(
                    data,
                ).listeners.keyboard_char@[i as int].0 == id
                    && data.listeners.keyboard_char@ == old(
                    data,
                ).listeners.keyboard_char@.remove(i as int));
            }
            return Ok(ScriptArg::Nil);
        }
        i = i + 1;
    }
    Ok(ScriptArg::Nil)
}

} // verus!
