//! Rendering an offset estimate as the human-readable verdict.
//!
//! In millisecond mode the verdict reads like `400ms behind`; in seconds
//! mode the magnitude is divided by 1000 and rendered with up to two decimal
//! places, as in `1.24s ahead`.  An offset whose rendered magnitude is
//! exactly zero is reported as `clock is in sync`.

use vstd::prelude::*;

use crate::digits::centi_chars;
use crate::digits::centi_string;
use crate::digits::dec_chars;
use crate::digits::dec_string;
use crate::rounding::magnitude_i128;

verus! {

/// The closing word: `behind` when the offset is positive, `ahead`
/// otherwise.
pub open spec fn direction_chars(offset_ms: int) -> Seq<char> {
    if offset_ms > 0 {
        "behind"@
    } else {
        "ahead"@
    }
}

/// The offset magnitude in rounded hundredths of a second: `(|ms| + 5) / 10`,
/// which rounds half up.
pub open spec fn rounded_centi(offset_ms: int) -> nat {
    (vstd::math::abs(offset_ms) + 5) / 10
}

/// The complete verdict for an offset.  In seconds mode the magnitude is
/// rendered in hundredths of a second; in millisecond mode it stays a whole
/// number.  A magnitude that renders as zero reads `clock is in sync`.
pub open spec fn verdict_chars(offset_ms: int, seconds: bool) -> Seq<char> {
    if seconds {
        let c = rounded_centi(offset_ms);
        if c == 0 {
            "clock is in sync"@
        } else {
            centi_chars(c) + "s "@ + direction_chars(offset_ms)
        }
    } else {
        if offset_ms == 0 {
            "clock is in sync"@
        } else {
            dec_chars(vstd::math::abs(offset_ms)) + "ms "@ + direction_chars(offset_ms)
        }
    }
}

/// Builds the verdict that `verdict_chars` describes.
pub fn verdict_string(offset_ms: i128, seconds: bool) -> (s: String)
    ensures
        s@ == verdict_chars(offset_ms as int, seconds),
{
    let magnitude = magnitude_i128(offset_ms);
    if seconds {
        let c = (magnitude + 5) / 10;
        if c == 0 {
            String::from_str("clock is in sync")
        } else {
            let mut s = centi_string(c);
            s.append("s ");
            if offset_ms > 0 {
                s.append("behind");
            } else {
                s.append("ahead");
            }
            s
        }
    } else {
        if offset_ms == 0 {
            String::from_str("clock is in sync")
        } else {
            let mut s = dec_string(magnitude);
            s.append("ms ");
            if offset_ms > 0 {
                s.append("behind");
            } else {
                s.append("ahead");
            }
            s
        }
    }
}

/// The raw remote timestamp as bare mode prints it: just the decimal number.
pub fn bare_string(value: u64) -> (s: String)
    ensures
        s@ == dec_chars(value as nat),
{
    dec_string(value as u128)
}

/// A zero offset always reads exactly `clock is in sync`, in both unit
/// modes.
pub proof fn lemma_zero_offset_in_sync(seconds: bool)
    ensures
        verdict_chars(0, seconds) == "clock is in sync"@,
{
}

} // verus!
