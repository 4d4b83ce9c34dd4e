//! The random-integer command.

use vstd::prelude::*;

use crate::errors::is_missing;
use crate::errors::is_out_of_range;
use crate::errors::is_wrong_type;
use crate::errors::ScriptError;
use crate::script::ArgV;
use crate::script::require_int;
use crate::script::ScriptArg;

verus! {

/// Relies on rand's `RngExt::random_range` over the half-open range
/// `lo .. hi`: the result is uniformly drawn from it, so it lies at or
/// above `lo` and below `hi`.  The range must not be empty, or the call
/// panics.  Nothing more can be said of a random draw.
#[verifier::external_body]
fn rand_range(lo: i64, hi: i64) -> (r: i64)
    requires
        lo < hi,
    ensures
        lo <= r < hi,
{
    <rand::rngs::ThreadRng as rand::RngExt>::random_range(&mut rand::rng(), lo..hi)
}

/// Draws a random integer at or above the first argument and below the
/// second.  An empty range is an out-of-range failure rather than a
/// draw.
pub fn random_int(args: &Vec<ScriptArg>) -> (r: Result<ScriptArg, ScriptError>)
    ensures
        (match r {
            Ok(a) => {
                &&& args@.len() >= 2
                &&& args@[0]@ matches ArgV::Int(lo)
                &&& args@[1]@ matches ArgV::Int(hi)
                &&& lo < hi
                &&& a@ matches ArgV::Int(v) && lo <= v < hi
            },
            Err(e) => {
                ||| (args@.len() < 1 && is_missing(e, "random/int"@, 0))
                ||| (args@.len() >= 1 && !(args@[0]@ is Int) && is_wrong_type(
                    e,
                    "random/int"@,
                    0,
                    "int"@,
                ))
                ||| (args@.len() < 2 && args@[0]@ is Int && is_missing(e, "random/int"@, 1))
                ||| (args@.len() >= 2 && args@[0]@ is Int && !(args@[1]@ is Int) && is_wrong_type(
                    e,
                    "random/int"@,
                    1,
                    "int"@,
                ))
                ||| (args@.len() >= 2 && (args@[0]@ matches ArgV::Int(lo) && (
                args@[1]@ matches ArgV::Int(hi) && lo >= hi)) && is_out_of_range(
                    e,
                    "random/int"@,
                    1,
                ))
            },
        }),
{
    let lo = match require_int("random/int", args, 0) {
        Ok(v) => v,
        Err(e) => {
            return Err(e);
        },
    };
    let hi = match require_int("random/int", args, 1) {
        Ok(v) => v,
        Err(e) => {
            return Err(e);
        },
    };
    if lo >= hi {
        return Err(ScriptError::OutOfRange { func: "random/int".to_owned(), index: 1 });
    }
    Ok(ScriptArg::Int(rand_range(lo, hi)))
}

} // verus!
