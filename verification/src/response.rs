//! The reference time service's response shapes and how they are filled.
//!
//! `GET /time` answers with the server's own time; `GET /time?ts=<T1>`
//! additionally reports the difference between the server clock and the
//! client timestamp, in milliseconds and rounded to whole seconds.  The
//! handlers here take the clock reading as an argument; the route glue reads
//! the clock and serializes the result.

use vstd::prelude::*;

use crate::rounding::div_trunc;
use crate::rounding::round_to_nearest;
use crate::rounding::round_to_nearest_spec;
use crate::rounding::trunc_div;

verus! {

/// Whether a response reports success.
#[derive(Clone, Copy, PartialEq, Eq, Structural, Debug)]
pub enum Status {
    Success,
    Error,
}

/// The payload of a plain time request: the server's clock in milliseconds
/// and in whole seconds since the Unix epoch.
#[derive(Clone, Copy, PartialEq, Eq, Structural, Debug)]
pub struct ResultDefault {
    pub unix_ms: u64,
    pub unix: u64,
}

/// The payload of a time request that carried a client timestamp: the
/// server's clock, and its difference to that timestamp in milliseconds and
/// in whole seconds.  The differences stay optional so that one shape also
/// covers a response without them.
#[derive(Clone, Copy, PartialEq, Eq, Debug)]
pub struct ResultWithDifference {
    pub diff_ms: Option<i128>,
    pub diff_s: Option<i128>,
    pub unix_ms: u64,
    pub unix: u64,
}

/// The response to a plain time request.
#[derive(Clone, Copy, PartialEq, Eq, Structural, Debug)]
pub struct Response {
    pub status: Status,
    pub result: ResultDefault,
}

/// The response to a time request that carried a client timestamp.
#[derive(Clone, Copy, PartialEq, Eq, Debug)]
pub struct ResponseWithDifference {
    pub status: Status,
    pub result: ResultWithDifference,
}

/// The difference the server reports in whole seconds: the millisecond
/// difference rounded to the nearest multiple of 1000, then divided by 1000.
pub open spec fn diff_seconds_spec(diff_ms: int) -> int {
    trunc_div(round_to_nearest_spec(diff_ms, 1000), 1000)
}

/// Answers a plain time request from one clock reading.
pub fn time(unix_ms: u64, unix: u64) -> (r: Response)
    ensures
        r == (Response { status: Status::Success, result: ResultDefault { unix_ms, unix } }),
{
    Response { status: Status::Success, result: ResultDefault { unix_ms, unix } }
}

/// Answers a time request that carried the client timestamp `ts`, from one
/// clock reading: the difference is the server's milliseconds minus `ts`,
/// reported exactly and rounded to whole seconds.
pub fn time_query(unix_ms: u64, unix: u64, ts: u64) -> (r: ResponseWithDifference)
    ensures
        r.status == Status::Success,
        r.result.unix_ms == unix_ms,
        r.result.unix == unix,
        r.result.diff_ms == Some((unix_ms - ts) as i128),
        r.result.diff_s == Some(diff_seconds_spec(unix_ms - ts) as i128),
{
    let diff_ms: i128 = unix_ms as i128 - ts as i128;
    let rounded = round_to_nearest(diff_ms, 1000);
    let diff_s = div_trunc(rounded, 1000);
    ResponseWithDifference {
        status: Status::Success,
        result: ResultWithDifference {
            diff_ms: Some(diff_ms),
            diff_s: Some(diff_s),
            unix_ms,
            unix,
        },
    }
}

} // verus!
