//! When scheduled work runs: rolling windows, back-off deferrals, the
//! randomised delay between daytime verification passes and the next
//! nightly recheck in the configured time zone.

use chrono::{Datelike, TimeZone};
use rand::Rng;
use vstd::prelude::*;

use crate::reconcile::ReconcileMode;
use crate::state::ApiFailureSnapshot;
use crate::text::{decimal, push_decimal, push_str, string_of};
use crate::time::representable_time;

verus! {

/// Whether the window of `window_hours` ending at `now` starts at an instant
/// the library can hold.
pub open spec fn window_start_fits(now: i64, window_hours: u64) -> bool {
    &&& representable_time(now)
    &&& now - window_hours * 3600 >= -8_000_000_000_000
}

/// The start of the rolling window of `window_hours` hours that ends at `now`.
pub fn rolling_window_start(now: i64, window_hours: u64) -> (r: i64)
    requires
        window_start_fits(now, window_hours),
    ensures
        r == now - window_hours * 3600,
{
    assert(window_hours * 3600 <= 16_000_000_000_000);
    let seconds: i64 = (window_hours * 3600) as i64;
    now - seconds
}

/// How long scheduled work must still wait at `now` for a back-off to end:
/// nothing when there is none or it has passed.
pub fn scheduler_backoff_delay(now: i64, backoff_until: Option<i64>) -> (r: Option<u64>)
    requires
        representable_time(now),
        backoff_until matches Some(t) ==> representable_time(t),
    ensures
        r == match backoff_until {
            Some(until) => if until <= now {
                None
            } else {
                Some((until - now) as u64)
            },
            None => None,
        },
{
    match backoff_until {
        Some(until) => if until <= now {
            None
        } else {
            Some((until - now) as u64)
        },
        None => None,
    }
}

/// A number drawn uniformly from `lo..=hi` by the thread's random generator.
#[verifier::external_body]
fn random_between(lo: u64, hi: u64) -> (r: u64)
    requires
        lo <= hi,
    ensures
        lo <= r <= hi,
{
    rand::thread_rng().gen_range(lo..=hi)
}

/// The delay, in seconds, before the next daytime verification pass: drawn
/// at random between the two bounds, both included.
pub fn next_current_day_delay(min_delay_seconds: u64, max_delay_seconds: u64) -> (r: u64)
    requires
        min_delay_seconds <= max_delay_seconds,
    ensures
        min_delay_seconds <= r <= max_delay_seconds,
{
    random_between(min_delay_seconds, max_delay_seconds)
}


/// The local calendar day (counted from the first day of the common era,
/// as `chrono` counts it) at UTC instant `utc` in the IANA time zone
/// `name`; `None` when `name` is not a zone the time-zone database knows.
pub uninterp spec fn tz_local_day(name: Seq<char>, utc: i64) -> Option<i64>;

/// The calendar day, in time zone `name`, of the UTC instant `utc`.
/// Trusted: `chrono_tz::Tz::from_str` (a lookup in the compiled-in zone
/// table, `None` for an unknown name) then `chrono`'s conversion of the
/// instant to that zone and `NaiveDate::num_days_from_ce`; the day itself is
/// named by `tz_local_day`, not stated.
#[verifier::external_body]
fn local_day_number(name: &str, utc: i64) -> (r: Option<i64>)
    requires
        representable_time(utc),
    ensures
        r == tz_local_day(name@, utc),
        r matches Some(d) ==> i32::MIN <= d <= i32::MAX,
{
    let tz = match name.parse::<chrono_tz::Tz>() {
        Ok(tz) => tz,
        Err(_) => return None,
    };
    match chrono::DateTime::from_timestamp(utc, 0) {
        Some(at) => Some(at.with_timezone(&tz).date_naive().num_days_from_ce() as i64),
        None => None,
    }
}

/// The hour and minute that an `%H:%M` time of day names, or the parser's
/// complaint.
pub uninterp spec fn hm_clock(text: Seq<char>) -> Result<(u32, u32), Seq<char>>;

/// Reads a time of day written `%H:%M`. Trusted: `chrono`'s
/// `NaiveTime::parse_from_str(text, "%H:%M")`, then the parsed time's
/// `hour()` and `minute()` (documented as `0..=23` and `0..=59`), and its
/// error as the error's text; which hour and minute a text gives, and the
/// error text, are named by `hm_clock`, not stated.
#[verifier::external_body]
fn parse_hm_clock(text: &str) -> (r: Result<(u32, u32), String>)
    ensures
        match (r, hm_clock(text@)) {
            (Ok(a), Ok(b)) => a == b,
            (Err(e), Err(f)) => e@ == f,
            _ => false,
        },
        r matches Ok((h, m)) ==> h < 24 && m < 60,
{
    match chrono::NaiveTime::parse_from_str(text, "%H:%M") {
        Ok(t) => Ok((chrono::Timelike::hour(&t), chrono::Timelike::minute(&t))),
        Err(e) => Err(e.to_string()),
    }
}

/// The minutes after midnight of an hour and minute.
pub open spec fn clock_minutes(clock: (u32, u32)) -> int {
    clock.0 * 60 + clock.1
}

/// The UTC instant of `minutes` after the start of local day `day` in time
/// zone `name`, when that local time exists exactly once there; `None`
/// otherwise (a gap or an overlap of a clock change, or an unknown zone).
pub uninterp spec fn tz_local_instant(name: Seq<char>, day: i64, minutes: i64) -> Option<i64>;

/// Resolves a local time to a UTC instant. Trusted: `chrono_tz::Tz` from
/// the name, `NaiveDate::from_num_days_from_ce_opt`, the minutes added
/// with `checked_add_signed`, then `TimeZone::from_local_datetime` and
/// `LocalResult::single`; the instant is named by `tz_local_instant`, not
/// stated.
#[verifier::external_body]
fn resolve_local_minutes(name: &str, day: i64, minutes: i64) -> (r: Option<i64>)
    ensures
        r == tz_local_instant(name@, day, minutes),
{
    let tz = name.parse::<chrono_tz::Tz>().ok()?;
    let date = chrono::NaiveDate::from_num_days_from_ce_opt(i32::try_from(day).ok()?)?;
    let local = date.and_time(chrono::NaiveTime::MIN).checked_add_signed(chrono::TimeDelta::try_minutes(minutes)?)?;
    tz.from_local_datetime(&local).single().map(|t| t.timestamp())
}

/// The seconds from `now` to `target`, nothing when it has passed.
pub open spec fn seconds_until(now: i64, target: i64) -> int {
    if target > now {
        target - now
    } else {
        0
    }
}

/// The delay from `now` to the next nightly recheck at `start_time` plus
/// `offset_minutes`, local time in `timezone`: today's when it is still
/// ahead, else tomorrow's.
pub open spec fn nightly_delay(now: i64, timezone: Seq<char>, start_time: Seq<char>, offset_minutes: u64) -> Result<int, Seq<char>> {
    match tz_local_day(timezone, now) {
        None => Err("failed to parse timezone"@),
        Some(day) => match hm_clock(start_time) {
            Err(e) => Err(e),
            Ok(clock) => {
                let minutes = clock_minutes(clock) + offset_minutes;
                match tz_local_instant(timezone, day, minutes as i64) {
                    None => Err("Unable to resolve nightly local time"@),
                    Some(t) => if t > now {
                        Ok(t - now)
                    } else {
                        match tz_local_instant(timezone, (day + 1) as i64, minutes as i64) {
                            None => Err("Unable to resolve next nightly local time"@),
                            Some(t2) => Ok(seconds_until(now, t2)),
                        }
                    },
                }
            },
        },
    }
}

/// The nightly recheck is the first one still ahead: when tonight's local
/// start instant `t` is after `now` the delay is exactly `t - now`, and only
/// when it has passed is the next night's instant used. Every delay given
/// is the time (never negative) to the start on the current local day or
/// the next one.
pub proof fn nightly_delay_takes_the_first_start_ahead(
    now: i64,
    timezone: Seq<char>,
    start_time: Seq<char>,
    offset_minutes: u64,
)
    ensures
        forall|day: i64, clock: (u32, u32)|
            tz_local_day(timezone, now) == Some(day) && hm_clock(start_time) == Ok::<(u32, u32), Seq<char>>(clock)
                ==> (#[trigger] tz_local_instant(timezone, day, (clock_minutes(clock) + offset_minutes) as i64) matches Some(t)
                ==> (t > now ==> nightly_delay(now, timezone, start_time, offset_minutes) == Ok::<int, Seq<char>>(t - now))),
        forall|d: int|
            #[trigger] nightly_delay(now, timezone, start_time, offset_minutes) == Ok::<int, Seq<char>>(d) ==> {
                &&& tz_local_day(timezone, now) matches Some(day)
                &&& hm_clock(start_time) matches Ok(clock)
                &&& d >= 0
                &&& exists|t: i64|
                    #[trigger] seconds_until(now, t) == d && (tz_local_instant(
                        timezone,
                        day,
                        (clock_minutes(clock) + offset_minutes) as i64,
                    ) == Some(t) || tz_local_instant(
                        timezone,
                        (day + 1) as i64,
                        (clock_minutes(clock) + offset_minutes) as i64,
                    ) == Some(t))
            },
{
    match tz_local_day(timezone, now) {
        None => {},
        Some(day) => match hm_clock(start_time) {
            Err(_) => {},
            Ok(clock) => {
                let minutes = clock_minutes(clock) + offset_minutes;
                match tz_local_instant(timezone, day, minutes as i64) {
                    None => {},
                    Some(t) => {
                        if t > now {
                            assert(seconds_until(now, t) == t - now);
                        } else {
                            match tz_local_instant(timezone, (day + 1) as i64, minutes as i64) {
                                None => {},
                                Some(t2) => {
                                    assert(seconds_until(now, t2) >= 0);
                                },
                            }
                        }
                    },
                }
            },
        },
    }
}

fn seconds_between(now: i64, target: i64) -> (r: u64)
    ensures
        r == seconds_until(now, target),
{
    if target > now {
        ((target as i128) - (now as i128)) as u64
    } else {
        0
    }
}

/// The delay, in seconds, from `now` to the nightly recheck at
/// `start_time` (`%H:%M`, local time in `timezone`) plus `offset_minutes`.
pub fn nightly_delay_with_offset(now: i64, timezone: &str, start_time: &str, offset_minutes: u64) -> (r: Result<
    u64,
    String,
>)
    requires
        representable_time(now),
        offset_minutes <= 1_000_000_000,
    ensures
        match (r, nightly_delay(now, timezone@, start_time@, offset_minutes)) {
            (Ok(a), Ok(b)) => a == b,
            (Err(e), Err(f)) => e@ == f,
            _ => false,
        },
{
    let day = match local_day_number(timezone, now) {
        Some(d) => d,
        None => return Err(String::from_str("failed to parse timezone")),
    };
    let start: u32 = match parse_hm_clock(start_time) {
        Ok((hour, minute)) => hour * 60 + minute,
        Err(e) => return Err(e),
    };
    let minutes: i64 = start as i64 + offset_minutes as i64;
    match resolve_local_minutes(timezone, day, minutes) {
        None => Err(String::from_str("Unable to resolve nightly local time")),
        Some(t) => if t > now {
            Ok(seconds_between(now, t))
        } else {
            match resolve_local_minutes(timezone, day + 1, minutes) {
                None => Err(String::from_str("Unable to resolve next nightly local time")),
                Some(t2) => Ok(seconds_between(now, t2)),
            }
        },
    }
}

/// The delay, in seconds, from `now` to the next nightly recheck: at
/// `start_time` local time in `timezone`, plus a random offset of up to
/// `randomized_window_minutes` (none when that is zero).
pub fn next_nightly_delay_at(now: i64, timezone: &str, start_time: &str, randomized_window_minutes: u64) -> (r:
    Result<u64, String>)
    requires
        representable_time(now),
        randomized_window_minutes <= 1_000_000_000,
    ensures
        exists|offset: u64| #![trigger nightly_delay(now, timezone@, start_time@, offset)]
            offset <= randomized_window_minutes && match (r, nightly_delay(now, timezone@, start_time@, offset)) {
                (Ok(a), Ok(b)) => a == b,
                (Err(e), Err(f)) => e@ == f,
                _ => false,
            },
{
    let offset = if randomized_window_minutes == 0 {
        0
    } else {
        random_between(0, randomized_window_minutes)
    };
    nightly_delay_with_offset(now, timezone, start_time, offset)
}


/// The notice a scheduled pass in `mode` leaves when a back-off defers it
/// by `seconds`.
pub open spec fn deferral_notice_text(mode: ReconcileMode, seconds: u64) -> Seq<char> {
    let lead = match mode {
        ReconcileMode::Full => "full watched-set recheck deferred by backoff for "@,
        ReconcileMode::CurrentDay => "Last 24 hours verification deferred by backoff for "@,
    };
    lead + decimal(seconds as nat) + "s"@
}

/// The notice a scheduled pass in `mode` leaves when a back-off defers it.
pub fn deferral_notice(mode: ReconcileMode, seconds: u64) -> (r: String)
    ensures
        r@ == deferral_notice_text(mode, seconds),
{
    let mut out: Vec<char> = Vec::new();
    match mode {
        ReconcileMode::Full => push_str(&mut out, "full watched-set recheck deferred by backoff for "),
        ReconcileMode::CurrentDay => push_str(&mut out, "Last 24 hours verification deferred by backoff for "),
    }
    push_decimal(&mut out, seconds);
    push_str(&mut out, "s");
    string_of(&out)
}

/// The root cause a failed metadata recheck is counted under: its class,
/// API code and HTTP status, joined with `|`.
pub open spec fn recheck_failure_key(f: ApiFailureSnapshot) -> Seq<char> {
    let code = match f.api_code {
        Some(c) => c@,
        None => Seq::empty(),
    };
    let status = match f.http_status {
        Some(s) => decimal(s as nat),
        None => Seq::empty(),
    };
    f.class@ + "|"@ + code + "|"@ + status
}

/// The periodic recheck of the watched-page list: how many times in a row
/// it failed for the same root cause.
#[derive(Clone, Debug, Default, PartialEq, Eq)]
pub struct MetadataRecheck {
    pub last_failure_key: Option<String>,
    pub repeated_failure_count: usize,
}

impl MetadataRecheck {
    /// A recheck succeeded: the count starts over; the result says whether
    /// it recovered from failures (and a notice is due).
    pub fn succeeded(&mut self) -> (recovered: bool)
        ensures
            recovered == (old(self).repeated_failure_count > 0),
            final(self).last_failure_key is None,
            final(self).repeated_failure_count == 0,
    {
        let recovered = self.repeated_failure_count > 0;
        self.last_failure_key = None;
        self.repeated_failure_count = 0;
        recovered
    }

    /// A recheck failed with `failure`: a repeat of the last root cause is
    /// counted on, another starts the count at one. The result says whether
    /// the failure is worth a warning: the first of a run, and every sixth.
    pub fn failed(&mut self, failure: &ApiFailureSnapshot) -> (warn: bool)
        requires
            old(self).repeated_failure_count < usize::MAX,
        ensures
            (final(self).last_failure_key matches Some(k) && k@ == recheck_failure_key(*failure)),
            final(self).repeated_failure_count == if old(self).last_failure_key matches Some(k) && k@
                == recheck_failure_key(*failure) {
                old(self).repeated_failure_count + 1
            } else {
                1
            },
            warn == (final(self).repeated_failure_count == 1 || final(self).repeated_failure_count % 6 == 0),
    {
        let mut key: Vec<char> = Vec::new();
        push_str(&mut key, failure.class.as_str());
        push_str(&mut key, "|");
        match &failure.api_code {
            Some(c) => push_str(&mut key, c.as_str()),
            None => {},
        }
        push_str(&mut key, "|");
        match failure.http_status {
            Some(st) => push_decimal(&mut key, st as u64),
            None => {},
        }
        let key = string_of(&key);
        let same = match &self.last_failure_key {
            Some(k) => crate::text::str_eq(k.as_str(), key.as_str()),
            None => false,
        };
        if same {
            self.repeated_failure_count = self.repeated_failure_count + 1;
        } else {
            self.last_failure_key = Some(key);
            self.repeated_failure_count = 1;
        }
        self.repeated_failure_count == 1 || self.repeated_failure_count % 6 == 0
    }
}

} // verus!
