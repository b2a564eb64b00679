//! Timestamps of the state file (RFC 3339 text) and the durations of the
//! update policy: age checks and human-readable renderings.

use vstd::prelude::*;
use crate::text::{decimal, u64_to_decimal, concat2, owned, trim, trim_spec, str_eq, chars_of};
use crate::backup::{numeral_value, all_digits};

verus! {

/// An instant: whole seconds since the Unix epoch and the nanoseconds past them.
#[derive(Clone, Copy, Debug)]
pub struct Instant {
    pub secs: i64,
    pub nanos: u32,
}

/// A non-negative span of time in whole seconds, as the update policy's
/// durations (`7d`, `24h`, `60m`) denote them.
#[derive(Clone, Copy, Debug)]
pub struct SdbDuration {
    pub secs: u64,
}

/// The instant in nanoseconds since the Unix epoch.
pub open spec fn instant_nanos(t: Instant) -> int {
    t.secs * 1_000_000_000 + t.nanos
}

/// The instant that an RFC 3339 timestamp denotes, if it parses.
pub uninterp spec fn rfc3339_instant(ts: Seq<char>) -> Option<Instant>;

/// Calls `chrono::DateTime::parse_from_rfc3339` and reports the parsed
/// instant as seconds and nanoseconds since the epoch (its UTC timestamp).
/// What the parser accepts is named by [`rfc3339_instant`], not restated.
#[verifier::external_body]
fn parse_rfc3339(ts: &str) -> (r: Option<Instant>)
    ensures
        r == rfc3339_instant(ts@),
{
    match chrono::DateTime::parse_from_rfc3339(ts) {
        Ok(dt) => Some(Instant { secs: dt.timestamp(), nanos: dt.timestamp_subsec_nanos() }),
        Err(_) => None,
    }
}

/// Reads the system clock with `chrono::Utc::now`. Nothing is stated of the
/// instant it gives.
#[verifier::external_body]
pub(crate) fn now_utc() -> (r: Instant) {
    let now = chrono::Utc::now();
    Instant { secs: now.timestamp(), nanos: now.timestamp_subsec_nanos() }
}

/// The current time in RFC 3339 form (`chrono::Utc::now().to_rfc3339()`).
/// What is stated is that the text is one that
/// `chrono::DateTime::parse_from_rfc3339` reads back; which instant it
/// names depends on the clock and is not stated.
#[verifier::external_body]
pub fn current_timestamp() -> (r: String)
    ensures
        rfc3339_instant(r@) is Some,
{
    chrono::Utc::now().to_rfc3339()
}

/// Whether `now` is more than `d` past the instant `t`.
pub open spec fn older_than(t: Instant, d: SdbDuration, now: Instant) -> bool {
    instant_nanos(now) - instant_nanos(t) > d.secs * 1_000_000_000
}

/// Whether the timestamp `ts` is older than `d` at `now`; a timestamp that
/// does not parse counts as older.
pub open spec fn timestamp_older_than(ts: Seq<char>, d: SdbDuration, now: Instant) -> bool {
    match rfc3339_instant(ts) {
        Some(t) => older_than(t, d, now),
        None => true,
    }
}

fn nanos_of(t: Instant) -> (r: i128)
    ensures
        r == instant_nanos(t),
{
    (t.secs as i128) * 1_000_000_000 + (t.nanos as i128)
}

/// Whether the RFC 3339 timestamp is older than `d` at the instant `now`.
pub fn is_timestamp_older_than_at(timestamp: &str, d: &SdbDuration, now: Instant) -> (r: bool)
    ensures
        r == timestamp_older_than(timestamp@, *d, now),
{
    match parse_rfc3339(timestamp) {
        Some(t) => {
            let diff = nanos_of(now) - nanos_of(t);
            diff > (d.secs as i128) * 1_000_000_000
        },
        None => true,
    }
}

/// Whether the RFC 3339 timestamp is older than `d` now (per the system clock).
pub fn is_timestamp_older_than(timestamp: &str, d: &SdbDuration) -> (r: bool)
    ensures
        exists|now: Instant| r == timestamp_older_than(timestamp@, *d, now),
{
    let now = now_utc();
    is_timestamp_older_than_at(timestamp, d, now)
}

/// A duration rendered as its whole days, hours or minutes, largest unit first.
pub open spec fn duration_text(d: SdbDuration) -> Seq<char> {
    if d.secs / 86400 > 0 {
        decimal((d.secs / 86400) as nat) + " days"@
    } else if d.secs / 3600 > 0 {
        decimal((d.secs / 3600) as nat) + " hours"@
    } else if d.secs / 60 > 0 {
        decimal((d.secs / 60) as nat) + " minutes"@
    } else {
        "0 minutes"@
    }
}

/// Renders a duration in whole days, hours or minutes.
pub fn format_duration(d: &SdbDuration) -> (r: String)
    ensures
        r@ == duration_text(*d),
{
    if d.secs / 86400 > 0 {
        let n = u64_to_decimal(d.secs / 86400);
        concat2(n.as_str(), " days")
    } else if d.secs / 3600 > 0 {
        let n = u64_to_decimal(d.secs / 3600);
        concat2(n.as_str(), " hours")
    } else if d.secs / 60 > 0 {
        let n = u64_to_decimal(d.secs / 60);
        concat2(n.as_str(), " minutes")
    } else {
        owned("0 minutes")
    }
}

/// The whole seconds elapsed from `t` to `now` (negative when `t` is later).
pub open spec fn elapsed_secs(t: Instant, now: Instant) -> int {
    (instant_nanos(now) - instant_nanos(t)) / 1_000_000_000
}

/// How long ago `t` was at `now`, in words.
pub open spec fn ago_text(t: Instant, now: Instant) -> Seq<char> {
    let s = elapsed_secs(t, now);
    if s / 86400 > 0 {
        decimal((s / 86400) as nat) + " days ago"@
    } else if s / 3600 > 0 {
        decimal((s / 3600) as nat) + " hours ago"@
    } else if s / 60 > 0 {
        decimal((s / 60) as nat) + " minutes ago"@
    } else {
        "just now"@
    }
}

/// How long ago the timestamp `ts` was at `now`, if it parses.
pub open spec fn time_since_text(ts: Seq<char>, now: Instant) -> Option<Seq<char>> {
    match rfc3339_instant(ts) {
        Some(t) => Some(ago_text(t, now)),
        None => None,
    }
}

/// How long ago the timestamp was at the instant `now`.
pub fn time_since_at(timestamp: &str, now: Instant) -> (r: Option<String>)
    ensures
        match r {
            Some(s) => time_since_text(timestamp@, now) == Some(s@),
            None => time_since_text(timestamp@, now) is None,
        },
{
    match parse_rfc3339(timestamp) {
        Some(t) => {
            let diff = nanos_of(now) - nanos_of(t);
            if diff < 60_000_000_000 {
                proof {
                    assert(elapsed_secs(t, now) < 60);
                }
                return Some(owned("just now"));
            }
            let secs: i128 = diff / 1_000_000_000;
            assert(secs == elapsed_secs(t, now));
            assert(diff <= 0x1_0000_0000_0000_0000 * 1_000_000_000 + 8_000_000_000);
            assert(secs <= 0x1_0000_0000_0000_0000 + 8) by (nonlinear_arith)
                requires
                    secs == diff / 1_000_000_000,
                    diff <= 0x1_0000_0000_0000_0000 * 1_000_000_000 + 8_000_000_000,
            ;
            if secs / 86400 > 0 {
                let n = u64_to_decimal((secs / 86400) as u64);
                Some(concat2(n.as_str(), " days ago"))
            } else if secs / 3600 > 0 {
                let n = u64_to_decimal((secs / 3600) as u64);
                Some(concat2(n.as_str(), " hours ago"))
            } else {
                let n = u64_to_decimal((secs / 60) as u64);
                Some(concat2(n.as_str(), " minutes ago"))
            }
        },
        None => None,
    }
}

/// How long ago the timestamp was, per the system clock.
pub fn time_since(timestamp: &str) -> (r: Option<String>)
    ensures
        exists|now: Instant|
            match r {
                Some(s) => time_since_text(timestamp@, now) == Some(s@),
                None => time_since_text(timestamp@, now) is None,
            },
{
    let now = now_utc();
    time_since_at(timestamp, now)
}

/// The seconds in one unit of an update-policy duration: `d`/`days`,
/// `h`/`hours`, `m`/`minutes`.
pub open spec fn unit_seconds(u: Seq<char>) -> Option<nat> {
    if u == "d"@ || u == "days"@ {
        Some(86400)
    } else if u == "h"@ || u == "hours"@ {
        Some(3600)
    } else if u == "m"@ || u == "minutes"@ {
        Some(60)
    } else {
        None
    }
}

/// The duration an update policy such as `7d`, `24h`, `60m` or `7 days`
/// denotes: a number, then a unit (blanks around either are ignored); none
/// for anything else or for a duration too long to hold.
pub open spec fn policy_duration(text: Seq<char>) -> Option<nat> {
    let t = trim_spec(text);
    let k = digit_run(t, 0);
    let num = t.subrange(0, k);
    let unit = trim_spec(t.subrange(k, t.len() as int));
    if num.len() > 0 {
        match unit_seconds(unit) {
            Some(m) => if numeral_value(num) * m <= u64::MAX {
                Some(numeral_value(num) * m)
            } else {
                None
            },
            None => None,
        }
    } else {
        None
    }
}

/// The end of the run of digits starting at `i`.
pub open spec fn digit_run(t: Seq<char>, i: int) -> int
    decreases t.len() - i,
{
    if 0 <= i < t.len() && '0' <= t[i] <= '9' {
        digit_run(t, i + 1)
    } else {
        i
    }
}

proof fn lemma_digit_run(t: Seq<char>, i: int)
    requires
        0 <= i <= t.len(),
    ensures
        i <= digit_run(t, i) <= t.len(),
        forall|k: int| i <= k < digit_run(t, i) ==> '0' <= #[trigger] t[k] <= '9',
        digit_run(t, i) < t.len() ==> !('0' <= t[digit_run(t, i)] <= '9'),
    decreases t.len() - i,
{
    if i < t.len() && '0' <= t[i] <= '9' {
        lemma_digit_run(t, i + 1);
    }
}

/// Reads an update-policy duration (see [`policy_duration`]).
pub fn parse_update_policy(text: &str) -> (r: Option<SdbDuration>)
    ensures
        match r {
            Some(d) => policy_duration(text@) == Some(d.secs as nat),
            None => policy_duration(text@) is None,
        },
{
    let t = trim(text);
    let cs = chars_of(t.as_str());
    let n = cs.len();
    let mut k: usize = 0;
    let mut value: u64 = 0;
    let mut overflow = false;
    proof {
        lemma_digit_run(cs@, 0);
        assert(cs@.subrange(0, 0) =~= Seq::<char>::empty());
    }
    while k < n && '0' <= cs[k] && cs[k] <= '9'
        invariant
            cs@ == trim_spec(text@),
            n == cs@.len(),
            k <= n,
            digit_run(cs@, k as int) == digit_run(cs@, 0),
            !overflow ==> value == numeral_value(cs@.subrange(0, k as int)),
            overflow ==> numeral_value(cs@.subrange(0, k as int)) > u64::MAX,
        decreases n - k,
    {
        let d = (cs[k] as u32 - '0' as u32) as u64;
        proof {
            assert(cs@.subrange(0, k + 1).drop_last() =~= cs@.subrange(0, k as int));
        }
        if !overflow {
            if value > (u64::MAX - d) / 10 {
                overflow = true;
            } else {
                value = value * 10 + d;
            }
        } else {
            proof {
                assert(numeral_value(cs@.subrange(0, k + 1)) >= numeral_value(cs@.subrange(0, k as int)) * 10)
                    by (nonlinear_arith)
                    requires
                        numeral_value(cs@.subrange(0, k + 1)) == numeral_value(cs@.subrange(0, k as int)) * 10
                            + ((cs@[k as int] as u32) - ('0' as u32)) as nat,
                ;
            }
        }
        k = k + 1;
    }
    proof {
        lemma_digit_run(cs@, 0);
    }
    if k == 0 {
        return None;
    }
    let unit_text = trim(t.as_str().substring_char(k, n));
    let u = unit_text.as_str();
    proof {
        reveal_strlit("d");
        reveal_strlit("days");
        reveal_strlit("h");
        reveal_strlit("hours");
        reveal_strlit("m");
        reveal_strlit("minutes");
    }
    let mult: u64 = if str_eq(u, "d") || str_eq(u, "days") {
        86400
    } else if str_eq(u, "h") || str_eq(u, "hours") {
        3600
    } else if str_eq(u, "m") || str_eq(u, "minutes") {
        60
    } else {
        return None;
    };
    if overflow {
        proof {
            assert(numeral_value(cs@.subrange(0, k as int)) * (mult as nat) >= numeral_value(
                cs@.subrange(0, k as int),
            )) by (nonlinear_arith)
                requires
                    mult >= 1,
            ;
        }
        return None;
    }
    if value > u64::MAX / mult {
        proof {
            assert((value as nat) * (mult as nat) > u64::MAX) by (nonlinear_arith)
                requires
                    value > u64::MAX / mult,
                    mult > 0,
            ;
        }
        return None;
    }
    proof {
        assert((value as nat) * (mult as nat) <= u64::MAX) by (nonlinear_arith)
            requires
                value <= u64::MAX / mult,
                mult > 0,
        ;
    }
    Some(SdbDuration { secs: value * mult })
}

} // verus!
