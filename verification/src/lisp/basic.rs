//! Engine commands outside a namespace: running the post-script, the
//! debug log, quitting, room navigation, string formatting and escapes,
//! the monotonic-time intrinsic, and value stringification.

use vstd::prelude::*;
use vstd::string::StringExecFns;

use crate::environment::EnvData;
use crate::environment::env_wf;
use crate::environment::now_millis;
use crate::environment::same_except_debug;
use crate::environment::same_except_room;
use crate::errors::is_missing;
use crate::errors::is_named_lookup;
use crate::errors::is_wrong_type;
use crate::errors::ScriptError;
use crate::script::ArgV;
use crate::script::require_arg;
use crate::script::require_str;
use crate::script::require_sym;
use crate::script::ScriptArg;
use crate::script::value_display;
use crate::text::int_str;
use crate::text::str_eq;

verus! {

/// Hands the current room's post-script back for the host to evaluate.
/// A current-room name the project does not hold is a lookup failure.
pub fn run_post(data: &EnvData) -> (r: Result<String, ScriptError>)
    requires
        env_wf(*data),
    ensures
        data.project.has_room(data.current_room@) ==> (r matches Ok(s) && s@ == data.project
            .spec_room(data.current_room@).post@),
        !data.project.has_room(data.current_room@) ==> (r matches Err(e) && is_named_lookup(
            e,
            "post"@,
            data.current_room@,
        )),
{
    match data.project.room_index(&data.current_room) {
        Some(i) => {
            proof {
                data.project.lemma_spec_room(i as int);
            }
            Ok(data.project.rooms[i].1.post.clone())
        },
        None => Err(
            ScriptError::NamedLookup { func: "post".to_owned(), name: data.current_room.clone() },
        ),
    }
}

/// Appends a string to the debug log, for the host to show.
pub fn debug(data: &mut EnvData, args: &Vec<ScriptArg>) -> (r: Result<ScriptArg, ScriptError>)
    ensures
        (match r {
            Ok(a) => {
                &&& a@ is Nil
                &&& args@.len() >= 1
                &&& args@[0]@ matches ArgV::Str(s)
                &&& final(data).debug@.len() == old(data).debug@.len() + 1
                &&& final(data).debug@.subrange(0, old(data).debug@.len() as int) == old(
                    data,
                ).debug@
                &&& final(data).debug@.last()@ == s
                &&& same_except_debug(*old(data), *final(data))
            },
            Err(e) => {
                &&& *final(data) == *old(data)
                &&& {
                    ||| (args@.len() < 1 && is_missing(e, "debug"@, 0))
                    ||| (args@.len() >= 1 && !(args@[0]@ is Str) && is_wrong_type(
                        e,
                        "debug"@,
                        0,
                        "string"@,
                    ))
                }
            },
        }),
{
    let s = match require_str("debug", args, 0) {
        Ok(v) => v,
        Err(e) => {
            return Err(e);
        },
    };
    let ghost before = data.debug@;
    data.debug.push(s);
    proof {
        assert(data.debug@.subrange(0, before.len() as int) =~= before);
    }
    Ok(ScriptArg::Nil)
}

/// Raises the quit flag; the host loop ends after the current frame.
pub fn exit(data: &mut EnvData, _args: &Vec<ScriptArg>) -> (r: Result<ScriptArg, ScriptError>)
    ensures
        r matches Ok(a) && a@ is Nil,
        *final(data) == (EnvData { quit: true, ..*old(data) }),
{
    data.quit = true;
    Ok(ScriptArg::Nil)
}

/// Moves the current-room pointer; the next frame resets and runs the
/// new room's pre-script.
pub fn room_set(data: &mut EnvData, args: &Vec<ScriptArg>) -> (r: Result<ScriptArg, ScriptError>)
    ensures
        (match r {
            Ok(a) => {
                &&& a@ is Nil
                &&& args@.len() >= 1
                &&& args@[0]@ matches ArgV::Str(s)
                &&& final(data).current_room@ == s
                &&& same_except_room(*old(data), *final(data))
            },
            Err(e) => {
                &&& *final(data) == *old(data)
                &&& {
                    ||| (args@.len() < 1 && is_missing(e, "room/set"@, 0))
                    ||| (args@.len() >= 1 && !(args@[0]@ is Str) && is_wrong_type(
                        e,
                        "room/set"@,
                        0,
                        "string"@,
                    ))
                }
            },
        }),
{
    let s = match require_str("room/set", args, 0) {
        Ok(v) => v,
        Err(e) => {
            return Err(e);
        },
    };
    data.current_room = s;
    Ok(ScriptArg::Nil)
}

/// Reads the current-room name back.
pub fn room_get(data: &EnvData, _args: &Vec<ScriptArg>) -> (r: Result<ScriptArg, ScriptError>)
    ensures
        r matches Ok(a) && a@ == ArgV::Str(data.current_room@),
{
    Ok(ScriptArg::Str(data.current_room.clone()))
}

/// The engine's intrinsics, looked up by symbol: `time` is the current
/// time in milliseconds; an unknown symbol is nil.
pub fn intrinsic(args: &Vec<ScriptArg>) -> (r: Result<ScriptArg, ScriptError>)
    ensures
        (match r {
            Ok(a) => {
                &&& args@.len() >= 1
                &&& args@[0]@ matches ArgV::Sym(n)
                &&& (n == "time"@ ==> a@ is Int)
                &&& (n != "time"@ ==> a@ is Nil)
            },
            Err(e) => {
                ||| (args@.len() < 1 && is_missing(e, "intrinsic"@, 0))
                ||| (args@.len() >= 1 && !(args@[0]@ is Sym) && is_wrong_type(
                    e,
                    "intrinsic"@,
                    0,
                    "symbol"@,
                ))
            },
        }),
{
    let name = match require_sym("intrinsic", args, 0) {
        Ok(v) => v,
        Err(e) => {
            return Err(e);
        },
    };
    if str_eq(name.as_str(), "time") {
        Ok(ScriptArg::Int(now_millis()))
    } else {
        Ok(ScriptArg::Nil)
    }
}

/// What a one-character escape name stands for: `n`, `t`, `r` and `0`
/// name the line feed, tab, carriage return and nul characters; any
/// other text stands for itself.
pub open spec fn escape_of(s: Seq<char>) -> Seq<char> {
    if s == seq!['n'] {
        seq!['\n']
    } else if s == seq!['t'] {
        seq!['\t']
    } else if s == seq!['r'] {
        seq!['\r']
    } else if s == seq!['0'] {
        seq!['\0']
    } else {
        s
    }
}

/// Resolves an escape name to the character it stands for.
pub fn escape(args: &Vec<ScriptArg>) -> (r: Result<ScriptArg, ScriptError>)
    ensures
        (match r {
            Ok(a) => {
                &&& args@.len() >= 1
                &&& args@[0]@ matches ArgV::Str(s)
                &&& a@ == ArgV::Str(escape_of(s))
            },
            Err(e) => {
                ||| (args@.len() < 1 && is_missing(e, "string/escape"@, 0))
                ||| (args@.len() >= 1 && !(args@[0]@ is Str) && is_wrong_type(
                    e,
                    "string/escape"@,
                    0,
                    "string"@,
                ))
            },
        }),
{
    let s = match require_str("string/escape", args, 0) {
        Ok(v) => v,
        Err(e) => {
            return Err(e);
        },
    };
    proof {
        reveal_strlit("n");
        reveal_strlit("t");
        reveal_strlit("r");
        reveal_strlit("0");
        reveal_strlit("\n");
        reveal_strlit("\t");
        reveal_strlit("\r");
        reveal_strlit("\0");
        assert("n"@ =~= seq!['n']);
        assert("t"@ =~= seq!['t']);
        assert("r"@ =~= seq!['r']);
        assert("0"@ =~= seq!['0']);
    }
    let out = if str_eq(s.as_str(), "n") {
        proof {
            assert(s@ =~= seq!['n']);
            assert("\n"@ =~= seq!['\n']);
        }
        String::from_str("\n")
    } else if str_eq(s.as_str(), "t") {
        proof {
            assert(s@ =~= seq!['t']);
            assert("\t"@ =~= seq!['\t']);
        }
        String::from_str("\t")
    } else if str_eq(s.as_str(), "r") {
        proof {
            assert(s@ =~= seq!['r']);
            assert("\r"@ =~= seq!['\r']);
        }
        String::from_str("\r")
    } else if str_eq(s.as_str(), "0") {
        proof {
            assert(s@ =~= seq!['0']);
            assert("\0"@ =~= seq!['\0']);
        }
        String::from_str("\0")
    } else {
        proof {
            assert(s@ != seq!['n'] && s@ != seq!['t'] && s@ != seq!['r'] && s@ != seq!['0']);
        }
        s
    };
    Ok(ScriptArg::Str(out))
}

/// What the stringification helper returns for each script value: the
/// text of booleans, integers and strings; for other values the
/// interpreter's name for their kind, as carried on the value.
pub open spec fn stringified(a: ArgV) -> Seq<char> {
    match a {
        ArgV::Nil => "nil"@,
        ArgV::Bool(b) => if b {
            "true"@
        } else {
            "false"@
        },
        ArgV::Int(i) => int_str(i),
        ArgV::Str(s) => s,
        ArgV::Sym(_) => "symbol"@,
        ArgV::Color(_) => "foreign value"@,
        ArgV::Other(_, n) => n,
    }
}

/// Renders a script value as plain text.
pub fn to_string(args: &Vec<ScriptArg>) -> (r: Result<ScriptArg, ScriptError>)
    ensures
        (match r {
            Ok(a) => args@.len() >= 1 && a@ == ArgV::Str(stringified(args@[0]@)),
            Err(e) => args@.len() < 1 && is_missing(e, "to-string"@, 0),
        }),
{
    let v = match require_arg("to-string", args, 0) {
        Ok(v) => v,
        Err(e) => {
            return Err(e);
        },
    };
    let out: String = match v {
        ScriptArg::Nil => String::from_str("nil"),
        ScriptArg::Bool(b) => if b {
            String::from_str("true")
        } else {
            String::from_str("false")
        },
        ScriptArg::Int(i) => crate::text::i64_to_string(i),
        ScriptArg::Str(s) => s,
        ScriptArg::Sym(_) => String::from_str("symbol"),
        ScriptArg::Color(_) => String::from_str("foreign value"),
        ScriptArg::Other(_, n) => n,
    };
    Ok(ScriptArg::Str(out))
}

/// The outcome of running the substitution language over a format
/// string: the finished text, or the position of the argument that was
/// missing or had to be a string.
pub enum FmtRes {
    Done(Seq<char>),
    Missing(int),
    NotString(int),
}

/// A finished formatting run.
pub open spec fn fr_done(s: Seq<char>) -> FmtRes {
    FmtRes::Done(s)
}

/// A run that demanded a missing argument at this position.
pub open spec fn fr_missing(i: int) -> FmtRes {
    FmtRes::Missing(i)
}

/// A run whose `%s` target at this position was not a string.
pub open spec fn fr_not_string(i: int) -> FmtRes {
    FmtRes::NotString(i)
}

/// One argument as the formatter sees it: whether it is a string, its
/// raw characters if so, and its display text.
pub open spec fn repr_of(a: ArgV, rp: (bool, Seq<char>, Seq<char>)) -> bool {
    match a {
        ArgV::Str(s) => rp.0 && rp.1 == s && rp.2 == seq!['"'] + s + seq!['"'],
        ArgV::Bool(b) => !rp.0 && rp.1 == Seq::<char>::empty() && rp.2 == (if b {
            seq!['T']
        } else {
            seq!['F']
        }),
        ArgV::Int(i) => !rp.0 && rp.1 == Seq::<char>::empty() && rp.2 == int_str(i),
        ArgV::Sym(s) => !rp.0 && rp.1 == Seq::<char>::empty() && rp.2 == s,
        ArgV::Color(_) => !rp.0 && rp.1 == Seq::<char>::empty() && rp.2 == "<foreign_value>"@,
        ArgV::Nil => !rp.0 && rp.1 == Seq::<char>::empty() && rp.2 == "NIL"@,
        ArgV::Other(_, _) => !rp.0 && rp.1 == Seq::<char>::empty(),
    }
}

/// Every argument matches its representation; the display text of an
/// opaque value is whatever the interpreter rendered.
pub open spec fn reprs_match(args: Seq<ArgV>, reprs: Seq<(bool, Seq<char>, Seq<char>)>) -> bool {
    &&& reprs.len() == args.len()
    &&& forall|i: int| 0 <= i < args.len() ==> repr_of(args[i], #[trigger] reprs[i])
}

/// Runs the substitution language over the format string `f` from
/// position `i`: `%s` consumes the next argument, which must be a
/// string, and substitutes its raw text; `%%` consumes the next argument
/// and substitutes its display text; `%` before any other character
/// drops both; a trailing `%` stands for itself; every other character
/// is copied.  The first argument is the format string itself, so
/// consumption starts at position one.
pub open spec fn fmt_from(
    f: Seq<char>,
    i: int,
    reprs: Seq<(bool, Seq<char>, Seq<char>)>,
    iter: int,
    acc: Seq<char>,
) -> FmtRes
    decreases f.len() - i,
{
    if i < 0 || i >= f.len() {
        fr_done(acc)
    } else if f[i] == '%' {
        if i + 1 >= f.len() {
            fr_done(acc.push('%'))
        } else if f[i + 1] == '%' {
            if reprs.len() <= iter + 1 {
                fr_missing(iter + 1)
            } else {
                fmt_from(f, i + 2, reprs, iter + 1, acc + reprs[iter + 1].2)
            }
        } else if f[i + 1] == 's' {
            if reprs.len() <= iter + 1 {
                fr_missing(iter + 1)
            } else if !reprs[iter + 1].0 {
                fr_not_string(iter + 1)
            } else {
                fmt_from(f, i + 2, reprs, iter + 1, acc + reprs[iter + 1].1)
            }
        } else {
            fmt_from(f, i + 2, reprs, iter, acc)
        }
    } else {
        fmt_from(f, i + 1, reprs, iter, acc.push(f[i]))
    }
}

/// The argument's formatter representation.
fn arg_repr(a: &ScriptArg) -> (r: (bool, String, String))
    ensures
        repr_of(a@, (r.0, r.1@, r.2@)),
{
    match a {
        ScriptArg::Str(s) => {
            let mut q = String::from_str("\"");
            q.append(s.as_str());
            q.append("\"");
            proof {
                reveal_strlit("\"");
                assert("\""@ =~= seq!['"']);
            }
            (true, s.clone(), q)
        },
        ScriptArg::Bool(b) => {
            let t = if *b {
                String::from_str("T")
            } else {
                String::from_str("F")
            };
            proof {
                reveal_strlit("T");
                reveal_strlit("F");
                assert("T"@ =~= seq!['T']);
                assert("F"@ =~= seq!['F']);
            }
            (false, String::new(), t)
        },
        ScriptArg::Int(i) => (false, String::new(), crate::text::i64_to_string(*i)),
        ScriptArg::Sym(s) => (false, String::new(), s.clone()),
        ScriptArg::Color(_) => (false, String::new(), String::from_str("<foreign_value>")),
        ScriptArg::Nil => (false, String::new(), String::from_str("NIL")),
        ScriptArg::Other(v, _) => (false, String::new(), value_display(v)),
    }
}

/// How the formatting result relates to the format string and the
/// argument representations: a success carries exactly the finished
/// text; a failure names the position that was missing or not a string.
pub open spec fn format_res(
    f: Seq<char>,
    reprs: Seq<(bool, Seq<char>, Seq<char>)>,
    r: Result<ScriptArg, ScriptError>,
) -> bool {
    match r {
        Ok(a) => a@ matches ArgV::Str(out) && fmt_from(f, 0, reprs, 0, Seq::empty()) == fr_done(
            out,
        ),
        Err(e) => exists|k: int|
            #![auto]
            (fmt_from(f, 0, reprs, 0, Seq::empty()) == fr_missing(k) && is_missing(
                e,
                "string/format"@,
                k,
            )) || (fmt_from(f, 0, reprs, 0, Seq::empty()) == fr_not_string(k) && is_wrong_type(
                e,
                "string/format"@,
                k,
                "string"@,
            )),
    }
}

/// The whole contract of the formatting command over an argument list.
pub open spec fn format_post(args: Seq<ScriptArg>, r: Result<ScriptArg, ScriptError>) -> bool {
    if args.len() < 1 {
        r matches Err(e) && is_missing(e, "string/format"@, 0)
    } else if !(args[0]@ is Str) {
        r matches Err(e) && is_wrong_type(e, "string/format"@, 0, "string"@)
    } else {
        exists|reprs: Seq<(bool, Seq<char>, Seq<char>)>|
            #![auto]
            reprs_match(args.map_values(|x: ScriptArg| x@), reprs) && format_res(
                args[0]@->Str_0,
                reprs,
                r,
            )
    }
}

/// Formats a string with the `%s` / `%%` substitution language.  The
/// first argument is the format string; each specifier consumes the
/// following argument in turn.  Too few arguments, or a non-string where
/// `%s` demands one, is a typed failure naming the position.
pub fn format(args: &Vec<ScriptArg>) -> (r: Result<ScriptArg, ScriptError>)
    ensures
        format_post(args@, r),
{
    let fmt = match require_str("string/format", args, 0) {
        Ok(v) => v,
        Err(e) => {
            return Err(e);
        },
    };
    let mut reprs: Vec<(bool, String, String)> = Vec::new();
    let mut k: usize = 0;
    while k < args.len()
        invariant
            k <= args@.len(),
            reprs@.len() == k,
            forall|j: int|
                0 <= j < k ==> repr_of(
                    args@[j]@,
                    (#[trigger] reprs@[j].0, reprs@[j].1@, reprs@[j].2@),
                ),
        decreases args@.len() - k,
    {
        reprs.push(arg_repr(&args[k]));
        k = k + 1;
    }
    let ghost rviews = reprs@.map_values(|t: (bool, String, String)| (t.0, t.1@, t.2@));
    let ghost argviews = args@.map_values(|x: ScriptArg| x@);
    proof {
        assert(reprs_match(argviews, rviews));
    }

    let f = crate::text::str_chars(fmt.as_str());
    let mut out = String::new();
    let mut i: usize = 0;
    let mut iter: usize = 0;
    while i < f.len()
        invariant
            rviews == reprs@.map_values(|t: (bool, String, String)| (t.0, t.1@, t.2@)),
            argviews == args@.map_values(|x: ScriptArg| x@),
            reprs_match(argviews, rviews),
            args@.len() >= 1,
            args@[0]@ == ArgV::Str(fmt@),
            f@ == fmt@,
            i <= f@.len(),
            iter < rviews.len(),
            fmt_from(fmt@, 0, rviews, 0, Seq::empty()) == fmt_from(
                fmt@,
                i as int,
                rviews,
                iter as int,
                out@,
            ),
        decreases f@.len() - i,
    {
        let c = f[i];
        if c == '%' {
            if i + 1 >= f.len() {
                out.push('%');
                i = i + 1;
            } else {
                let sp = f[i + 1];
                if sp == '%' {
                    if reprs.len() <= iter + 1 {
                        let err = ScriptError::MissingArgument {
                            func: "string/format".to_owned(),
                            index: iter + 1,
                        };
                        proof {
                            assert(fmt_from(fmt@, i as int, rviews, iter as int, out@)
                                == fr_missing(iter + 1));
                            assert(format_res(
                                args@[0]@->Str_0,
                                rviews,
                                Err::<ScriptArg, ScriptError>(err),
                            ));
                            assert(reprs_match(args@.map_values(|x: ScriptArg| x@), rviews));
                        }
                        return Err(err);
                    }
                    let ghost prev_out = out@;
                    out.append(reprs[iter + 1].2.as_str());
                    proof {
                        assert(rviews[iter + 1] == (
                            reprs@[iter + 1].0,
                            reprs@[iter + 1].1@,
                            reprs@[iter + 1].2@,
                        ));
                        assert(out@ == prev_out + rviews[iter + 1].2);
                    }
                    iter = iter + 1;
                    i = i + 2;
                } else if sp == 's' {
                    if reprs.len() <= iter + 1 {
                        let err = ScriptError::MissingArgument {
                            func: "string/format".to_owned(),
                            index: iter + 1,
                        };
                        proof {
                            assert(fmt_from(fmt@, i as int, rviews, iter as int, out@)
                                == fr_missing(iter + 1));
                            assert(format_res(
                                args@[0]@->Str_0,
                                rviews,
                                Err::<ScriptArg, ScriptError>(err),
                            ));
                            assert(reprs_match(args@.map_values(|x: ScriptArg| x@), rviews));
                        }
                        return Err(err);
                    }
                    if !reprs[iter + 1].0 {
                        let err = ScriptError::WrongType {
                            func: "string/format".to_owned(),
                            index: iter + 1,
                            expected: "string".to_owned(),
                        };
                        proof {
                            assert(rviews[iter + 1] == (
                                reprs@[iter + 1].0,
                                reprs@[iter + 1].1@,
                                reprs@[iter + 1].2@,
                            ));
                            assert(fmt_from(fmt@, i as int, rviews, iter as int, out@)
                                == fr_not_string(iter + 1));
                            assert(format_res(
                                args@[0]@->Str_0,
                                rviews,
                                Err::<ScriptArg, ScriptError>(err),
                            ));
                            assert(reprs_match(args@.map_values(|x: ScriptArg| x@), rviews));
                        }
                        return Err(err);
                    }
                    let ghost prev_out = out@;
                    out.append(reprs[iter + 1].1.as_str());
                    proof {
                        assert(rviews[iter + 1] == (
                            reprs@[iter + 1].0,
                            reprs@[iter + 1].1@,
                            reprs@[iter + 1].2@,
                        ));
                        assert(out@ == prev_out + rviews[iter + 1].1);
                    }
                    iter = iter + 1;
                    i = i + 2;
                } else {
                    i = i + 2;
                }
            }
        } else {
            out.push(c);
            i = i + 1;
        }
    }
    let res = ScriptArg::Str(out);
    proof {
        assert(fmt_from(fmt@, i as int, rviews, iter as int, res->Str_0@) == fr_done(
            res->Str_0@,
        ));
        assert(format_res(args@[0]@->Str_0, rviews, Ok::<ScriptArg, ScriptError>(res)));
        assert(reprs_match(args@.map_values(|x: ScriptArg| x@), rviews));
    }
    Ok(res)
}

} // verus!
