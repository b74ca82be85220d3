//! Send-slot computation over UTC unix timestamps.
//!
//! A moment is modelled as seconds since the unix epoch. Day number,
//! second of day and weekday are all plain integer arithmetic on that
//! value; the epoch day (1970-01-01) was a Thursday, and weekdays are
//! numbered from Monday = 0 to Sunday = 6.
//!
//! Two slot rules live here, and each caller documents which one it uses:
//! - [`next_weekday_slot`]: the *next occurrence* rule. If the reference
//!   moment falls on the target weekday strictly before the target hour,
//!   the slot is that same day at the target hour; otherwise it is the
//!   next later day with the target weekday, at the target hour. A
//!   reference exactly at the target hour is not "before" it and rolls a
//!   whole week forward.
//! - [`CampaignTiming`]: the *week-ahead* rule. The slot is the first
//!   target weekday at or after the same moment one week later,
//!   regardless of where in the week the reference falls.

use vstd::arithmetic::div_mod::{
    lemma_add_mod_noop, lemma_add_mod_noop_right, lemma_div_is_ordered,
    lemma_fundamental_div_mod, lemma_fundamental_div_mod_converse_div,
    lemma_fundamental_div_mod_converse_mod, lemma_mod_division_less_than_divisor,
    lemma_small_mod, lemma_sub_mod_noop,
};
use vstd::prelude::*;

use crate::errors::IssueError;

verus! {

/// Weekday number of Monday in the encoding used throughout this module.
pub const MONDAY: u8 = 0;

/// Hour of day, UTC, at which an issue goes out.
pub const SEND_HOUR: u8 = 17;

/// Largest magnitude of a timestamp this module accepts. Chrono's
/// calendar covers about ±262,000 years around the epoch, so every
/// timestamp the wrappers below hand out is well inside ±9·10^12
/// seconds; keeping computations inside that window also keeps every
/// intermediate product far from the `i64` bounds.
pub const MAX_MOMENT: i64 = 9_000_000_000_000;

/// Day number (days since the epoch) of a moment.
pub open spec fn day_of(ts: int) -> int {
    ts / 86400
}

/// Seconds elapsed since midnight of a moment's day.
pub open spec fn second_of_day(ts: int) -> int {
    ts % 86400
}

/// Weekday of a day number, Monday = 0 (the epoch day was a Thursday).
pub open spec fn weekday_of_day(d: int) -> int {
    (d + 3) % 7
}

/// Weekday of a moment, Monday = 0.
pub open spec fn weekday_of(ts: int) -> int {
    weekday_of_day(day_of(ts))
}

/// Hour of day of a moment.
pub open spec fn hour_of(ts: int) -> int {
    second_of_day(ts) / 3600
}

/// A moment is a send slot when it lies on the target weekday exactly at
/// the target hour, zero minutes, zero seconds.
pub open spec fn is_slot(ts: int, wd: int, hour: int) -> bool {
    weekday_of(ts) == wd && second_of_day(ts) == hour * 3600
}

/// The moment `hour` o'clock on day `d` decomposes as expected.
proof fn lemma_day_slot(d: int, h: int)
    requires
        0 <= h < 24,
    ensures
        day_of(d * 86400 + h * 3600) == d,
        second_of_day(d * 86400 + h * 3600) == h * 3600,
{
    lemma_fundamental_div_mod_converse_div(d * 86400 + h * 3600, 86400, d, h * 3600);
    lemma_fundamental_div_mod_converse_mod(d * 86400 + h * 3600, 86400, d, h * 3600);
}

/// A slot moment is exactly its day's midnight plus the slot hour.
proof fn lemma_slot_decompose(x: int, wd: int, h: int)
    requires
        is_slot(x, wd, h),
    ensures
        x == day_of(x) * 86400 + h * 3600,
{
    lemma_fundamental_div_mod(x, 86400);
}

/// Counting `off` days forward from `d0`, where `off` is the distance
/// from `d0`'s weekday to `target` (measured cyclically), lands on the
/// first day at or after `d0` whose weekday is `target`.
proof fn lemma_weekday_distance(d0: int, target: int)
    requires
        0 <= target < 7,
    ensures
        ({
            let off = (target - weekday_of_day(d0)) % 7;
            &&& 0 <= off < 7
            &&& weekday_of_day(d0 + off) == target
            &&& forall|d: int| d0 <= d < d0 + off ==> weekday_of_day(d) != target
        }),
{
    let wd0 = weekday_of_day(d0);
    let off = (target - wd0) % 7;
    lemma_mod_division_less_than_divisor(target - wd0, 7);
    assert(weekday_of_day(d0 + off) == target) by {
        lemma_add_mod_noop(d0 + 3, off, 7);
        // (d0 + 3 + off) % 7 == (wd0 % 7 + off % 7) % 7 == (wd0 + off) % 7
        lemma_mod_division_less_than_divisor(d0 + 3, 7);
        lemma_small_mod(wd0 as nat, 7);
        lemma_small_mod(off as nat, 7);
        lemma_add_mod_noop_right(wd0, target - wd0, 7);
        lemma_small_mod(target as nat, 7);
    }
    assert forall|d: int| d0 <= d < d0 + off implies weekday_of_day(d) != target by {
        if weekday_of_day(d) == target {
            let k = d - d0;
            assert(weekday_of_day(d0 + k) == weekday_of_day(d0 + off));
            lemma_add_mod_noop(d0 + 3, k, 7);
            lemma_add_mod_noop(d0 + 3, off, 7);
            lemma_sub_mod_noop(d0 + 3 + off, d0 + 3 + k, 7);
            // so (off - k) % 7 == 0, yet 0 < off - k < 7
            lemma_small_mod((off - k) as nat, 7);
        }
    }
}

/// The first slot on or after day `d0` is `off` days past `d0`, where
/// `off` is the cyclic weekday distance; every slot on a day at or after
/// `d0` comes no earlier.
proof fn lemma_least_slot_from_day(d0: int, wd: int, h: int)
    requires
        0 <= wd < 7,
        0 <= h < 24,
    ensures
        ({
            let off = (wd - weekday_of_day(d0)) % 7;
            let r = (d0 + off) * 86400 + h * 3600;
            &&& 0 <= off < 7
            &&& is_slot(r, wd, h)
            &&& day_of(r) == d0 + off
            &&& forall|x: int|
                is_slot(x, wd, h) && day_of(x) >= d0 ==> x >= r
        }),
{
    let off = (wd - weekday_of_day(d0)) % 7;
    let r = (d0 + off) * 86400 + h * 3600;
    lemma_weekday_distance(d0, wd);
    lemma_day_slot(d0 + off, h);
    assert forall|x: int| is_slot(x, wd, h) && day_of(x) >= d0 implies x >= r by {
        lemma_slot_decompose(x, wd, h);
        let dx = day_of(x);
        assert(weekday_of_day(dx) == wd);
        assert(dx >= d0 + off);
    }
}

/// The slot chosen by the next-occurrence rule for reference moment `ts`:
/// the same day at the target hour when `ts` lies on the target weekday
/// strictly before that hour, else the target hour of the next later day
/// with the target weekday.
pub open spec fn next_slot_after(ts: int, wd: int, h: int) -> int {
    let day = day_of(ts);
    if weekday_of_day(day) == wd && second_of_day(ts) < h * 3600 {
        day * 86400 + h * 3600
    } else {
        let off = (wd - weekday_of_day(day + 1)) % 7;
        (day + 1 + off) * 86400 + h * 3600
    }
}

/// The next-occurrence rule yields the unique earliest slot strictly
/// after the reference moment: the slot is on the target weekday at
/// exactly the target hour, lies strictly after the reference, and no
/// earlier moment after the reference is a slot. In particular a
/// reference exactly at the target hour rolls a whole week forward.
pub proof fn lemma_next_slot_is_least(ts: int, wd: int, h: int)
    requires
        0 <= wd < 7,
        0 <= h < 24,
    ensures
        is_slot(next_slot_after(ts, wd, h), wd, h),
        next_slot_after(ts, wd, h) > ts,
        forall|x: int| ts < x < next_slot_after(ts, wd, h) ==> !is_slot(x, wd, h),
{
    let day = day_of(ts);
    let sod = second_of_day(ts);
    lemma_fundamental_div_mod(ts, 86400);
    lemma_mod_division_less_than_divisor(ts, 86400);
    let r = next_slot_after(ts, wd, h);
    if weekday_of_day(day) == wd && sod < h * 3600 {
        lemma_day_slot(day, h);
        assert forall|x: int| ts < x < r implies !is_slot(x, wd, h) by {
            if is_slot(x, wd, h) {
                lemma_slot_decompose(x, wd, h);
                lemma_div_is_ordered(ts, x, 86400);
            }
        }
    } else {
        let off = (wd - weekday_of_day(day + 1)) % 7;
        lemma_least_slot_from_day(day + 1, wd, h);
        assert forall|x: int| ts < x < r implies !is_slot(x, wd, h) by {
            if is_slot(x, wd, h) {
                lemma_slot_decompose(x, wd, h);
                lemma_div_is_ordered(ts, x, 86400);
                let dx = day_of(x);
                if dx == day {
                    // a slot on the reference day either sits at or before
                    // the reference (hour already passed) or contradicts
                    // the branch condition
                    assert(weekday_of_day(day) == wd);
                    assert(sod >= h * 3600);
                    assert(x <= ts);
                } else {
                    assert(dx >= day + 1);
                    assert(x >= r);
                }
            }
        }
    }
}

/// Day number of a moment, computed.
fn day_number(ts: i64) -> (d: i64)
    requires
        -MAX_MOMENT <= ts <= MAX_MOMENT,
    ensures
        d == day_of(ts as int),
        -105_000_000 <= d <= 105_000_000,
{
    proof {
        lemma_div_is_ordered(-MAX_MOMENT as int, ts as int, 86400);
        lemma_div_is_ordered(ts as int, MAX_MOMENT as int, 86400);
    }
    ts.checked_div_euclid(86400).unwrap()
}

/// Weekday of a day number, computed.
fn weekday_number(d: i64) -> (wd: i64)
    requires
        -200_000_000 <= d <= 200_000_000,
    ensures
        wd == weekday_of_day(d as int),
        0 <= wd < 7,
    {
    proof {
        lemma_mod_division_less_than_divisor(d as int + 3, 7);
    }
    (d + 3).checked_rem_euclid(7).unwrap()
}

/// Computes the next-occurrence slot (see [`next_slot_after`]) for the
/// given reference moment, target weekday and target hour.
pub fn next_weekday_slot(ts: i64, target_weekday: u8, target_hour: u8) -> (r: i64)
    requires
        target_weekday < 7,
        target_hour < 24,
        -MAX_MOMENT <= ts <= MAX_MOMENT,
    ensures
        r == next_slot_after(ts as int, target_weekday as int, target_hour as int),
        is_slot(r as int, target_weekday as int, target_hour as int),
        r > ts,
        forall|x: int|
            ts < x < r ==> !is_slot(x, target_weekday as int, target_hour as int),
{
    proof {
        lemma_next_slot_is_least(ts as int, target_weekday as int, target_hour as int);
    }
    let day = day_number(ts);
    let sod = ts.checked_rem_euclid(86400).unwrap();
    let wd = weekday_number(day);
    let target_sec: i64 = (target_hour as i64) * 3600;
    if wd == target_weekday as i64 && sod < target_sec {
        day * 86400 + target_sec
    } else {
        let wd_next = weekday_number(day + 1);
        let offset = ((target_weekday as i64) - wd_next).checked_rem_euclid(7).unwrap();
        proof {
            lemma_mod_division_less_than_divisor(target_weekday as int - wd_next as int, 7);
        }
        (day + 1 + offset) * 86400 + target_sec
    }
}

/// Largest magnitude of a timestamp the RFC 3339 formatter is counted on
/// to accept: about ±126,000 years, far inside chrono's documented
/// ±262,000-year calendar.
pub const FORMAT_RANGE: i64 = 4_000_000_000_000;

/// The timestamp that chrono's RFC 3339 parser assigns to a string, if
/// it parses at all; a function of the characters alone.
pub uninterp spec fn parse_utc_timestamp(s: Seq<char>) -> Option<int>;

/// Relies on chrono's RFC 3339 parsing (`str::parse::<DateTime<Utc>>`)
/// and `DateTime::timestamp`: the outcome depends on the characters of
/// the input alone, and the documented calendar limit of about ±262,000
/// years keeps every timestamp chrono produces inside [`MAX_MOMENT`].
#[verifier::external_body]
pub fn parse_timestamp(s: &str) -> (r: Option<i64>)
    ensures
        match r {
            Some(ts) => parse_utc_timestamp(s@) == Some(ts as int) && -MAX_MOMENT <= ts
                <= MAX_MOMENT,
            None => parse_utc_timestamp(s@) is None,
        },
{
    match s.parse::<chrono::DateTime<chrono::Utc>>() {
        Ok(dt) => Some(dt.timestamp()),
        Err(_) => None,
    }
}

/// The RFC 3339 rendering chrono gives a UTC timestamp; a function of
/// the timestamp alone.
pub uninterp spec fn rfc3339_utc(ts: int) -> Seq<char>;

/// Relies on chrono's `DateTime::from_timestamp` and `to_rfc3339`:
/// `from_timestamp` is documented to return `Some` for every moment in
/// the calendar range, and [`FORMAT_RANGE`] lies far inside it; the
/// rendering depends on the timestamp alone.
#[verifier::external_body]
pub fn format_rfc3339_utc(ts: i64) -> (r: Option<String>)
    ensures
        r matches Some(s) ==> s@ == rfc3339_utc(ts as int),
        -FORMAT_RANGE <= ts <= FORMAT_RANGE ==> r is Some,
{
    match chrono::DateTime::from_timestamp(ts, 0) {
        Some(dt) => Some(dt.to_rfc3339()),
        None => None,
    }
}

/// Relies on chrono's `Utc::now`: the clock may return any moment in the
/// documented calendar range; nothing more is assumed of it.
#[verifier::external_body]
fn now_timestamp() -> (r: i64)
    ensures
        -MAX_MOMENT <= r <= MAX_MOMENT,
{
    chrono::Utc::now().timestamp()
}

/// A computed send moment: a UTC timestamp on the target weekday at
/// exactly the target hour.
#[derive(Clone, Copy, PartialEq, Eq, Structural)]
pub struct ScheduleTime {
    pub seconds: i64,
}

/// Calculate the next Monday at 17:00 UTC from a reference time string,
/// by the next-occurrence rule: a reference on Monday strictly before
/// 17:00 yields the same day at 17:00, any other reference (a Monday at
/// or after 17:00 included) yields the following Monday at 17:00. A
/// string that chrono cannot parse is a `ParseError`.
pub fn get_next_monday_from(reference_time: &str) -> (r: Result<ScheduleTime, IssueError>)
    ensures
        match parse_utc_timestamp(reference_time@) {
            Some(ts) => r matches Ok(st) && st.seconds == next_slot_after(
                ts,
                MONDAY as int,
                SEND_HOUR as int,
            ),
            None => r matches Err(e) && e is ParseError,
        },
{
    match parse_timestamp(reference_time) {
        Some(ts) => Ok(ScheduleTime { seconds: next_weekday_slot(ts, MONDAY, SEND_HOUR) }),
        None => Err(IssueError::ParseError),
    }
}

/// The slot chosen by the week-ahead rule for reference moment `ts`: the
/// first day with the target weekday at or after `ts`'s day plus seven,
/// at the target hour.
pub open spec fn week_ahead_slot(ts: int, wd: int, h: int) -> int {
    let d0 = day_of(ts) + 7;
    let off = (wd - weekday_of_day(d0)) % 7;
    (d0 + off) * 86400 + h * 3600
}

/// The week-ahead rule yields the earliest slot lying at least seven
/// days (in whole day numbers) after the reference moment's day.
pub proof fn lemma_week_ahead_slot_is_least(ts: int, wd: int, h: int)
    requires
        0 <= wd < 7,
        0 <= h < 24,
    ensures
        is_slot(week_ahead_slot(ts, wd, h), wd, h),
        day_of(week_ahead_slot(ts, wd, h)) >= day_of(ts) + 7,
        forall|x: int|
            is_slot(x, wd, h) && day_of(x) >= day_of(ts) + 7 ==> x >= week_ahead_slot(ts, wd, h),
{
    lemma_least_slot_from_day(day_of(ts) + 7, wd, h);
}

/// Computes the week-ahead slot (see [`week_ahead_slot`]) for the given
/// reference moment, target weekday and target hour.
pub fn weekday_slot_week_ahead(ts: i64, target_weekday: u8, target_hour: u8) -> (r: i64)
    requires
        target_weekday < 7,
        target_hour < 24,
        -MAX_MOMENT <= ts <= MAX_MOMENT,
    ensures
        r == week_ahead_slot(ts as int, target_weekday as int, target_hour as int),
        is_slot(r as int, target_weekday as int, target_hour as int),
        day_of(r as int) >= day_of(ts as int) + 7,
{
    proof {
        lemma_week_ahead_slot_is_least(ts as int, target_weekday as int, target_hour as int);
    }
    let day = day_number(ts);
    let wd0 = weekday_number(day + 7);
    let offset = ((target_weekday as i64) - wd0).checked_rem_euclid(7).unwrap();
    proof {
        lemma_mod_division_less_than_divisor(target_weekday as int - wd0 as int, 7);
    }
    (day + 7 + offset) * 86400 + (target_hour as i64) * 3600
}

/// Largest reference-moment magnitude `CampaignTiming` computes from;
/// clamping the clock reading to this window keeps both of its fields
/// inside [`FORMAT_RANGE`].
pub const TIMING_RANGE: i64 = 3_000_000_000_000;

/// Timing of one campaign under the week-ahead rule: the send slot, and
/// the start of the day one week before the reference moment (the window
/// from which content was gathered).
pub struct CampaignTiming {
    pub schedule_for: i64,
    pub reference_moment: i64,
}

impl CampaignTiming {
    /// Both moments are inside the formatter's guaranteed range.
    pub open spec fn wf(&self) -> bool {
        &&& -FORMAT_RANGE <= self.schedule_for <= FORMAT_RANGE
        &&& -FORMAT_RANGE <= self.reference_moment <= FORMAT_RANGE
    }

    /// Computes the timing for the given reference moment: the send slot
    /// is the week-ahead Monday 17:00 slot, and the reference moment is
    /// midnight of the day one week earlier.
    pub fn from_moment(now: i64) -> (r: Self)
        requires
            -TIMING_RANGE <= now <= TIMING_RANGE,
        ensures
            r.schedule_for == week_ahead_slot(now as int, MONDAY as int, SEND_HOUR as int),
            r.reference_moment == (day_of(now as int) - 7) * 86400,
            is_slot(r.schedule_for as int, MONDAY as int, SEND_HOUR as int),
            day_of(r.schedule_for as int) >= day_of(r.reference_moment as int) + 14,
            second_of_day(r.reference_moment as int) == 0,
            r.wf(),
    {
        let schedule_for = weekday_slot_week_ahead(now, MONDAY, SEND_HOUR);
        let day = day_number(now);
        let reference_moment = (day - 7) * 86400;
        proof {
            lemma_day_slot(day as int - 7, 0);
        }
        CampaignTiming { schedule_for, reference_moment }
    }

    /// Creates campaign timing from the current UTC time: the next
    /// Monday 17:00 UTC slot under the week-ahead rule, and the start of
    /// the day one week ago. A clock reading outside the supported
    /// calendar window (about ±95,000 years) is clamped to its edge
    /// before the slot is computed.
    pub fn new() -> (r: Self)
        ensures
            is_slot(r.schedule_for as int, MONDAY as int, SEND_HOUR as int),
            day_of(r.schedule_for as int) >= day_of(r.reference_moment as int) + 14,
            second_of_day(r.reference_moment as int) == 0,
            r.wf(),
    {
        let now = now_timestamp();
        let clamped = if now < -TIMING_RANGE {
            -TIMING_RANGE
        } else if now > TIMING_RANGE {
            TIMING_RANGE
        } else {
            now
        };
        Self::from_moment(clamped)
    }

    /// The send slot, formatted for the email service (RFC 3339).
    pub fn schedule_time_formatted(&self) -> (r: String)
        requires
            self.wf(),
        ensures
            r@ == rfc3339_utc(self.schedule_for as int),
    {
        format_rfc3339_utc(self.schedule_for).unwrap()
    }

    /// The reference moment, formatted for diagnostics (RFC 3339).
    pub fn reference_moment_formatted(&self) -> (r: String)
        requires
            self.wf(),
        ensures
            r@ == rfc3339_utc(self.reference_moment as int),
    {
        format_rfc3339_utc(self.reference_moment).unwrap()
    }
}

} // verus!
