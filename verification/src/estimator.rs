//! The clock offset estimator: a pure function from the timestamps of one
//! request/response exchange to a signed offset estimate, under a selectable
//! latency-compensation policy.
//!
//! Sign convention: a positive offset means the reference clock's value is
//! larger than the local one, which is reported as the local clock being
//! behind; a negative offset means the local clock is ahead.

use vstd::prelude::*;

use crate::errors::TimeError;
use crate::rounding::div_trunc;
use crate::rounding::trunc_div;
use crate::rounding::trunc_rem;

verus! {

/// The options that shape one estimate.
#[derive(Clone, Copy, PartialEq, Eq, Structural, Debug)]
pub struct Config {
    /// Only report the raw remote timestamp; never compute a difference.
    pub bare: bool,
    /// Report in seconds instead of milliseconds.
    pub seconds: bool,
    /// Discard the exchange when the local round trip took longer than this
    /// many milliseconds (inclusive bound: exactly this long still passes).
    pub timeout_ms: u64,
    /// Subtract the estimated one-way network delay from a server-reported
    /// difference.
    pub compensate_latency: bool,
}

/// What the remote authority reported during the exchange.
#[derive(Clone, Copy, PartialEq, Eq, Debug)]
pub enum RemoteReading {
    /// Distinct remote receive (T2) and transmit (T3) times, both in
    /// milliseconds since the Unix epoch, as an NTP exchange yields them.
    Bracketed { t2_ms: u64, t3_ms: u64 },
    /// The remote clock's single reading, in seconds and milliseconds, with
    /// the difference to the local send time when the server computed one.
    Reported { unix: u64, unix_ms: u64, diff_ms: Option<i128>, diff_s: Option<i128> },
}

/// The timestamps of one round trip: the local send time T1, the local
/// receive time T4, and what the remote side reported in between.
#[derive(Clone, Copy, PartialEq, Eq, Debug)]
pub struct Exchange {
    /// Local send time, milliseconds since the Unix epoch.
    pub t1_ms: u64,
    /// Local receive time, milliseconds since the Unix epoch.
    pub t4_ms: u64,
    pub remote: RemoteReading,
}

/// The estimator's result for a non-bare exchange.
#[derive(Clone, Copy, PartialEq, Eq, Debug)]
pub struct OffsetEstimate {
    /// Remote clock minus local clock, in milliseconds.
    pub offset_ms: i128,
    /// The local round trip with the remote processing time subtracted where
    /// it is known, in milliseconds.
    pub round_trip_ms: i128,
}

/// The estimator's outcome: either the raw remote timestamp (bare mode) or
/// an offset estimate.
#[derive(Clone, Copy, PartialEq, Eq, Debug)]
pub enum EstimateOutcome {
    /// The raw remote timestamp, in seconds or milliseconds per the
    /// configuration.
    Bare { value: u64 },
    Offset { estimate: OffsetEstimate },
}

/// Which way the local clock deviates.
#[derive(Clone, Copy, PartialEq, Eq, Structural, Debug)]
pub enum Direction {
    /// The local clock is ahead of the reference (negative offset).
    Ahead,
    /// The local clock is behind the reference (positive offset).
    Behind,
    /// The offset is exactly zero.
    InSync,
}

/// The canonical symmetric-delay offset: `((T2 - T1) + (T3 - T4)) / 2`,
/// truncating.  It assumes equal outbound and return delays, so averaging
/// the two one-way skews cancels the unknown propagation delay.
pub open spec fn spec_offset(t1: int, t2: int, t3: int, t4: int) -> int {
    trunc_div((t2 - t1) + (t3 - t4), 2)
}

/// The round-trip delay with remote processing time removed:
/// `(T4 - T1) - (T3 - T2)`.
pub open spec fn spec_round_trip(t1: int, t2: int, t3: int, t4: int) -> int {
    (t4 - t1) - (t3 - t2)
}

/// Offset and round-trip delay of a four-timestamp exchange, by the
/// canonical formulas.
pub fn offset_and_delay(t1_ms: u64, t2_ms: u64, t3_ms: u64, t4_ms: u64) -> (r: (i128, i128))
    ensures
        r.0 == spec_offset(t1_ms as int, t2_ms as int, t3_ms as int, t4_ms as int),
        r.1 == spec_round_trip(t1_ms as int, t2_ms as int, t3_ms as int, t4_ms as int),
{
    let skew_sum = (t2_ms as i128 - t1_ms as i128) + (t3_ms as i128 - t4_ms as i128);
    let offset = div_trunc(skew_sum, 2);
    let round_trip = (t4_ms as i128 - t1_ms as i128) - (t3_ms as i128 - t2_ms as i128);
    (offset, round_trip)
}

/// The two-timestamp estimate for a server that reports only its own clock
/// `S`: the assumed one-way delay `(T4 - T1) / 2` is subtracted from the
/// naive skew `S - T1`.
pub open spec fn spec_offset_two(t1: int, t4: int, server_now: int) -> int {
    server_now - t1 - trunc_div(t4 - t1, 2)
}

/// Offset of a two-timestamp exchange, where the server reported a single
/// clock reading and only the local send and receive times are known.
pub fn offset_two_timestamp(t1_ms: u64, t4_ms: u64, server_now_ms: u64) -> (offset: i128)
    requires
        t1_ms <= t4_ms,
    ensures
        offset == spec_offset_two(t1_ms as int, t4_ms as int, server_now_ms as int),
{
    let one_way = ((t4_ms - t1_ms) / 2) as i128;
    server_now_ms as i128 - t1_ms as i128 - one_way
}

impl Exchange {
    /// The local round trip is non-negative (a violation is a measurement
    /// anomaly the caller rejects first), and a server-reported difference
    /// leaves room to subtract the one-way delay without leaving `i128`.
    pub open spec fn wf(self) -> bool {
        &&& self.t1_ms <= self.t4_ms
        &&& match self.remote {
            RemoteReading::Reported { diff_ms, .. } => diff_ms matches Some(d) ==> i128::MIN <= d
                - (self.t4_ms - self.t1_ms) / 2,
            _ => true,
        }
    }
}

/// The raw remote timestamp that bare mode reports: the remote receive time
/// for a bracketed exchange, the reported clock otherwise; seconds or
/// milliseconds per the configuration.
pub open spec fn bare_value_spec(remote: RemoteReading, seconds: bool) -> u64 {
    match remote {
        RemoteReading::Bracketed { t2_ms, .. } => if seconds {
            t2_ms / 1000
        } else {
            t2_ms
        },
        RemoteReading::Reported { unix, unix_ms, .. } => if seconds {
            unix
        } else {
            unix_ms
        },
    }
}

/// What `estimate_offset` returns, case by case.
///
/// An exchange slower than the timeout is discarded as `RequestTooSlow`
/// before anything else.  Bare mode then reports the raw remote timestamp
/// and never touches a difference.  A bracketed exchange uses the canonical
/// four-timestamp formulas.  A reported exchange trusts the server's
/// difference — aborting as `ProtocolViolation` when the server omitted it —
/// and subtracts half the measured round trip only under
/// `compensate_latency`.
pub open spec fn estimate_spec(record: Exchange, config: Config) -> Result<
    EstimateOutcome,
    TimeError,
> {
    let elapsed = record.t4_ms - record.t1_ms;
    if elapsed > config.timeout_ms {
        Err(TimeError::RequestTooSlow { elapsed_ms: elapsed as u64 })
    } else if config.bare {
        Ok(EstimateOutcome::Bare { value: bare_value_spec(record.remote, config.seconds) })
    } else {
        match record.remote {
            RemoteReading::Bracketed { t2_ms, t3_ms } => Ok(
                EstimateOutcome::Offset {
                    estimate: OffsetEstimate {
                        offset_ms: spec_offset(
                            record.t1_ms as int,
                            t2_ms as int,
                            t3_ms as int,
                            record.t4_ms as int,
                        ) as i128,
                        round_trip_ms: spec_round_trip(
                            record.t1_ms as int,
                            t2_ms as int,
                            t3_ms as int,
                            record.t4_ms as int,
                        ) as i128,
                    },
                },
            ),
            RemoteReading::Reported { diff_ms: None, .. } => Err(TimeError::ProtocolViolation),
            RemoteReading::Reported { diff_ms: Some(d), .. } => Ok(
                EstimateOutcome::Offset {
                    estimate: OffsetEstimate {
                        offset_ms: if config.compensate_latency {
                            (d - elapsed / 2) as i128
                        } else {
                            d
                        },
                        round_trip_ms: elapsed as i128,
                    },
                },
            ),
        }
    }
}

/// Converts one exchange into an offset estimate, exactly as
/// `estimate_spec` describes.
pub fn estimate_offset(record: Exchange, config: Config) -> (r: Result<
    EstimateOutcome,
    TimeError,
>)
    requires
        record.wf(),
    ensures
        r == estimate_spec(record, config),
{
    let elapsed = record.t4_ms - record.t1_ms;
    if elapsed > config.timeout_ms {
        return Err(TimeError::RequestTooSlow { elapsed_ms: elapsed });
    }
    if config.bare {
        let value = match record.remote {
            RemoteReading::Bracketed { t2_ms, .. } => if config.seconds {
                t2_ms / 1000
            } else {
                t2_ms
            },
            RemoteReading::Reported { unix, unix_ms, .. } => if config.seconds {
                unix
            } else {
                unix_ms
            },
        };
        return Ok(EstimateOutcome::Bare { value });
    }
    match record.remote {
        RemoteReading::Bracketed { t2_ms, t3_ms } => {
            let (offset_ms, round_trip_ms) = offset_and_delay(
                record.t1_ms,
                t2_ms,
                t3_ms,
                record.t4_ms,
            );
            Ok(EstimateOutcome::Offset { estimate: OffsetEstimate { offset_ms, round_trip_ms } })
        },
        RemoteReading::Reported { diff_ms: None, .. } => Err(TimeError::ProtocolViolation),
        RemoteReading::Reported { diff_ms: Some(d), .. } => {
            let offset_ms = if config.compensate_latency {
                d - (elapsed / 2) as i128
            } else {
                d
            };
            Ok(
                EstimateOutcome::Offset {
                    estimate: OffsetEstimate { offset_ms, round_trip_ms: elapsed as i128 },
                },
            )
        },
    }
}

/// The direction that an offset is reported as.
pub open spec fn direction_spec(offset_ms: int) -> Direction {
    if offset_ms > 0 {
        Direction::Behind
    } else if offset_ms < 0 {
        Direction::Ahead
    } else {
        Direction::InSync
    }
}

/// A positive offset always reads as the local clock being behind, a
/// negative one as ahead.
pub fn direction_of(offset_ms: i128) -> (d: Direction)
    ensures
        d == direction_spec(offset_ms as int),
{
    if offset_ms > 0 {
        Direction::Behind
    } else if offset_ms < 0 {
        Direction::Ahead
    } else {
        Direction::InSync
    }
}

/// An offset in milliseconds as whole seconds plus a leftover of
/// milliseconds, both truncating toward zero, so that nothing is lost:
/// `to_seconds_parts` and `from_seconds_parts` invert each other.
pub fn to_seconds_parts(offset_ms: i128) -> (p: (i128, i128))
    ensures
        p.0 == trunc_div(offset_ms as int, 1000),
        p.1 == trunc_rem(offset_ms as int, 1000),
{
    let q = div_trunc(offset_ms, 1000);
    proof {
        lemma_seconds_round_trip(offset_ms as int);
    }
    (q, offset_ms - q * 1000)
}

/// Rebuilds an offset in milliseconds from whole seconds and leftover
/// milliseconds.
pub fn from_seconds_parts(whole_s: i128, rem_ms: i128) -> (ms: i128)
    requires
        i128::MIN <= whole_s * 1000,
        whole_s * 1000 <= i128::MAX,
        i128::MIN <= whole_s * 1000 + rem_ms <= i128::MAX,
    ensures
        ms == whole_s * 1000 + rem_ms,
{
    whole_s * 1000 + rem_ms
}

/// Converting an offset to its seconds representation and back is exact:
/// the whole seconds times 1000 plus the leftover milliseconds reproduce the
/// offset, and the leftover stays strictly below one second in magnitude.
pub proof fn lemma_seconds_round_trip(offset_ms: int)
    ensures
        trunc_div(offset_ms, 1000) * 1000 + trunc_rem(offset_ms, 1000) == offset_ms,
        -1000 < trunc_rem(offset_ms, 1000) < 1000,
        offset_ms >= 0 ==> trunc_rem(offset_ms, 1000) >= 0,
        offset_ms < 0 ==> trunc_rem(offset_ms, 1000) <= 0,
{
    let m = vstd::math::abs(offset_ms) as int;
    vstd::arithmetic::div_mod::lemma_fundamental_div_mod(m, 1000);
    vstd::arithmetic::div_mod::lemma_mod_division_less_than_divisor(m, 1000);
    vstd::arithmetic::div_mod::lemma_div_pos_is_pos(m, 1000);
    if offset_ms >= 0 {
        assert(trunc_div(offset_ms, 1000) * 1000 == (m / 1000) * 1000);
    } else {
        assert(trunc_div(offset_ms, 1000) == -(m / 1000));
        assert((-(m / 1000)) * 1000 == -((m / 1000) * 1000)) by (nonlinear_arith);
    }
}

/// The symmetric-delay estimate does not depend on the propagation delay:
/// when the remote receives `d` after the local send and transmits `d`
/// before the local receive, the estimated offset is the same for every `d`.
pub proof fn lemma_delay_cancels(t1: int, t4: int, d1: int, d2: int)
    ensures
        spec_offset(t1, t1 + d1, t4 - d1, t4) == spec_offset(t1, t1 + d2, t4 - d2, t4),
{
    assert(((t1 + d1) - t1) + ((t4 - d1) - t4) == 0);
    assert(((t1 + d2) - t1) + ((t4 - d2) - t4) == 0);
}

/// When all four timestamps coincide, the estimated offset and the
/// round-trip delay are both exactly zero.
pub proof fn lemma_identical_timestamps(t: int)
    ensures
        spec_offset(t, t, t, t) == 0,
        spec_round_trip(t, t, t, t) == 0,
{
}

/// The sign property: a positive offset is always directed "behind", a
/// negative one always "ahead", and only zero is in sync.
pub proof fn lemma_sign_property(offset_ms: int)
    ensures
        direction_spec(offset_ms) == Direction::Behind <==> offset_ms > 0,
        direction_spec(offset_ms) == Direction::Ahead <==> offset_ms < 0,
        direction_spec(offset_ms) == Direction::InSync <==> offset_ms == 0,
{
}

/// The timeout bound is inclusive: an exchange is discarded as too slow
/// exactly when the local round trip strictly exceeds the timeout.
pub proof fn lemma_timeout_boundary(record: Exchange, config: Config)
    requires
        record.wf(),
    ensures
        estimate_spec(record, config) == Err::<EstimateOutcome, TimeError>(
            TimeError::RequestTooSlow { elapsed_ms: (record.t4_ms - record.t1_ms) as u64 },
        ) <==> record.t4_ms - record.t1_ms > config.timeout_ms,
{
}

} // verus!
