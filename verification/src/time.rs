//! Instants as whole seconds and nanoseconds since the Unix epoch, and the
//! "how long ago" phrases built from the time between two of them.
use vstd::prelude::*;

use crate::text::{append_chars, decimal, decimal_chars, owned};

verus! {

/// Nanoseconds in one second.
pub const NANOS_PER_SEC: u128 = 1_000_000_000;

/// A point in time: `secs` whole seconds and `subsec_nanos` nanoseconds after
/// the Unix epoch.
#[derive(Clone, Copy, Debug, PartialEq, Eq, Structural)]
pub struct Timestamp {
    pub secs: u64,
    pub subsec_nanos: u32,
}

impl Timestamp {
    /// The instant `secs` whole seconds after the epoch.
    pub fn from_secs(secs: u64) -> (t: Timestamp)
        ensures
            t.secs == secs,
            t.subsec_nanos == 0,
    {
        Timestamp { secs, subsec_nanos: 0 }
    }
}

/// `SystemTime::now`, as whole seconds and nanoseconds since the epoch
/// (an instant before the epoch reads as the epoch). What the clock says is
/// not known in advance; the standard library documents only that the
/// nanoseconds part of a duration stays below one second.
#[verifier::external_body]
pub fn current_time() -> (now: Timestamp)
    ensures
        now.subsec_nanos < NANOS_PER_SEC,
{
    let since = std::time::SystemTime::now().duration_since(std::time::UNIX_EPOCH).unwrap_or_default();
    Timestamp { secs: since.as_secs(), subsec_nanos: since.subsec_nanos() }
}

/// The instant in nanoseconds since the epoch.
pub open spec fn instant_nanos(t: Timestamp) -> int {
    t.secs * NANOS_PER_SEC + t.subsec_nanos
}

/// The whole seconds from `earlier` to `later`; zero when `later` is not after
/// `earlier` (`SystemTime::duration_since` falling back to zero, then `as_secs`).
pub open spec fn whole_secs_between(earlier: Timestamp, later: Timestamp) -> nat {
    if instant_nanos(later) >= instant_nanos(earlier) {
        ((instant_nanos(later) - instant_nanos(earlier)) / (NANOS_PER_SEC as int)) as nat
    } else {
        0
    }
}

/// The whole seconds from `earlier` to `later`, or zero.
pub fn whole_secs_between_exec(earlier: Timestamp, later: Timestamp) -> (secs: u128)
    ensures
        secs == whole_secs_between(earlier, later),
{
    let a: u128 = (earlier.secs as u128) * NANOS_PER_SEC + (earlier.subsec_nanos as u128);
    let b: u128 = (later.secs as u128) * NANOS_PER_SEC + (later.subsec_nanos as u128);
    if b >= a {
        (b - a) / NANOS_PER_SEC
    } else {
        0
    }
}

/// Seconds in a minute, an hour, a day and a week.
pub const MINUTE_SECS: u128 = 60;
pub const HOUR_SECS: u128 = 3_600;
pub const DAY_SECS: u128 = 86_400;
pub const WEEK_SECS: u128 = 604_800;

/// How long ago something happened, `age` seconds back, phrased after `verb`:
/// "just now" under a minute, then whole minutes, hours and days, and
/// "earlier" from a week on.
pub open spec fn age_phrase(verb: Seq<char>, age: nat) -> Seq<char> {
    if age < MINUTE_SECS {
        verb + " just now"@
    } else if age < HOUR_SECS {
        verb + " "@ + decimal(age / (MINUTE_SECS as nat)) + " mins ago"@
    } else if age < DAY_SECS {
        verb + " "@ + decimal(age / (HOUR_SECS as nat)) + " hrs ago"@
    } else if age < WEEK_SECS {
        verb + " "@ + decimal(age / (DAY_SECS as nat)) + " days ago"@
    } else {
        verb + " earlier"@
    }
}

/// The phrase `verb` followed by how long ago `age` seconds is.
pub fn age_label(verb: &str, age: u128) -> (label: String)
    ensures
        label@ == age_phrase(verb@, age as nat),
{
    let mut label = owned(verb);
    if age < MINUTE_SECS {
        label.append(" just now");
    } else if age < HOUR_SECS {
        label.append(" ");
        append_chars(&mut label, &decimal_chars(age / MINUTE_SECS));
        label.append(" mins ago");
    } else if age < DAY_SECS {
        label.append(" ");
        append_chars(&mut label, &decimal_chars(age / HOUR_SECS));
        label.append(" hrs ago");
    } else if age < WEEK_SECS {
        label.append(" ");
        append_chars(&mut label, &decimal_chars(age / DAY_SECS));
        label.append(" days ago");
    } else {
        label.append(" earlier");
    }
    label
}

} // verus!
