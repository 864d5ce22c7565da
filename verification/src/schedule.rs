//! The restart scheduler's time logic.
//!
//! Configured daily clock-times are given as `HH:MM` strings; the scheduler
//! parses them to minutes-of-day, and from the current local second-of-day
//! computes the next fire instant: the earliest configured time strictly
//! after now today, else the earliest configured time tomorrow.  The local
//! clock is modelled as a uniform 86400-second day.

use vstd::prelude::*;

use crate::strutil::{
    all_digits, digit_val, digit_value, is_digit, trim_blank, trimmed_blank,
};

verus! {

/// Seconds in one day of the modelled local clock.
pub const SECONDS_PER_DAY: u32 = 86400;

/// Minutes in one day.
pub const MINUTES_PER_DAY: u32 = 1440;

/// The value of a one- or two-digit field.
pub open spec fn field_val(s: Seq<char>) -> int {
    if s.len() == 1 {
        digit_val(s[0])
    } else {
        10 * digit_val(s[0]) + digit_val(s[1])
    }
}

/// Whether an hour field and a minute field form a valid clock time.
pub open spec fn valid_fields(h: Seq<char>, m: Seq<char>) -> bool {
    &&& 1 <= h.len() <= 2
    &&& 1 <= m.len() <= 2
    &&& all_digits(h)
    &&& all_digits(m)
    &&& field_val(h) <= 23
    &&& field_val(m) <= 59
}

/// Parses a clock-time string to its minute-of-day: surrounding blanks are
/// ignored; the rest must be a one- or two-digit hour (at most 23), a
/// colon, and a one- or two-digit minute (at most 59), with nothing after.
pub open spec fn spec_hhmm_minutes(s: Seq<char>) -> Option<u32> {
    let t = trimmed_blank(s);
    if 2 <= t.len() && t[1] == ':' {
        let h = t.subrange(0, 1);
        let m = t.subrange(2, t.len() as int);
        if valid_fields(h, m) {
            Some((field_val(h) * 60 + field_val(m)) as u32)
        } else {
            None
        }
    } else if 3 <= t.len() && t[2] == ':' {
        let h = t.subrange(0, 2);
        let m = t.subrange(3, t.len() as int);
        if valid_fields(h, m) {
            Some((field_val(h) * 60 + field_val(m)) as u32)
        } else {
            None
        }
    } else {
        None
    }
}

/// Parses one field of one or two digits.
fn parse_field(t: &str, from: usize, to: usize) -> (r: Option<u32>)
    requires
        from <= to <= t@.len(),
    ensures
        ({
            let f = t@.subrange(from as int, to as int);
            &&& r is Some <==> (1 <= f.len() <= 2 && all_digits(f))
            &&& r is Some ==> r->0 == field_val(f)
        }),
{
    let ghost f = t@.subrange(from as int, to as int);
    if to - from == 1 {
        let c = t.get_char(from);
        assert(c == f[0]);
        if is_digit(c) {
            Some(digit_value(c))
        } else {
            None
        }
    } else if to - from == 2 {
        let c0 = t.get_char(from);
        let c1 = t.get_char(from + 1);
        assert(c0 == f[0] && c1 == f[1]);
        if is_digit(c0) && is_digit(c1) {
            Some(10 * digit_value(c0) + digit_value(c1))
        } else {
            assert(!all_digits(f));
            None
        }
    } else {
        None
    }
}

/// Parses one configured `HH:MM` time to its minute-of-day.
pub fn parse_time_hhmm(s: &str) -> (r: Option<u32>)
    ensures
        r == spec_hhmm_minutes(s@),
        r is Some ==> r->0 < MINUTES_PER_DAY,
{
    let t = trim_blank(s);
    let len = t.unicode_len();
    if 2 <= len && t.get_char(1) == ':' {
        let h = parse_field(t, 0, 1);
        let m = parse_field(t, 2, len);
        match (h, m) {
            (Some(hv), Some(mv)) => {
                if hv <= 23 && mv <= 59 {
                    Some(hv * 60 + mv)
                } else {
                    None
                }
            },
            _ => None,
        }
    } else if 3 <= len && t.get_char(2) == ':' {
        let h = parse_field(t, 0, 2);
        let m = parse_field(t, 3, len);
        match (h, m) {
            (Some(hv), Some(mv)) => {
                if hv <= 23 && mv <= 59 {
                    Some(hv * 60 + mv)
                } else {
                    None
                }
            },
            _ => None,
        }
    } else {
        None
    }
}

/// The minutes-of-day of the parseable entries, in configuration order.
pub open spec fn spec_parse_times(ss: Seq<String>) -> Seq<u32>
    decreases ss.len(),
{
    if ss.len() == 0 {
        Seq::empty()
    } else {
        let rest = spec_parse_times(ss.drop_last());
        match spec_hhmm_minutes(ss.last()@) {
            Some(m) => rest.push(m),
            None => rest,
        }
    }
}

/// Parses the configured restart times, dropping entries that are not
/// valid `HH:MM` clock times.
pub fn parse_times_hhmm(v: &Vec<String>) -> (r: Vec<u32>)
    ensures
        r@ == spec_parse_times(v@),
        forall|i: int| 0 <= i < r@.len() ==> r@[i] < MINUTES_PER_DAY,
{
    let mut out: Vec<u32> = Vec::new();
    let n = v.len();
    proof {
        assert(v@.take(0) =~= Seq::<String>::empty());
    }
    let mut i: usize = 0;
    while i < n
        invariant
            i <= n,
            n == v@.len(),
            out@ == spec_parse_times(v@.take(i as int)),
            forall|j: int| 0 <= j < out@.len() ==> out@[j] < MINUTES_PER_DAY,
        decreases n - i,
    {
        proof {
            assert(v@.take(i + 1).drop_last() =~= v@.take(i as int));
            assert(v@.take(i + 1).last() == v@[i as int]);
        }
        match parse_time_hhmm(v[i].as_str()) {
            Some(m) => out.push(m),
            None => {},
        }
        i += 1;
    }
    proof {
        assert(v@.take(n as int) =~= v@);
    }
    out
}

/// The scheduler's next fire instant relative to "now".
#[derive(Clone, Copy, Debug, PartialEq, Eq, Structural)]
pub struct NextFire {
    /// 0 when the fire time is later today, 1 when it is tomorrow.
    pub day_offset: u8,
    /// The configured minute-of-day that fires.
    pub minute_of_day: u32,
    /// Whole seconds from now until the fire instant; always at least 1.
    pub delay_secs: u32,
}

/// The next-fire relation: what the scheduler's computation must return
/// for a current second-of-day and a configured time set.  There is a next
/// fire exactly when some time is configured, and it is strictly in the
/// future: the earliest configured time strictly after now today when one
/// remains, else the earliest configured time on the following day.
pub open spec fn next_fire_spec(now_sec: u32, times: Seq<u32>, r: Option<NextFire>) -> bool {
    &&& (r is Some <==> times.len() > 0)
    &&& (r is Some ==> {
        let f = r->0;
        &&& times.contains(f.minute_of_day)
        &&& f.delay_secs >= 1
        &&& (f.day_offset == 0 || f.day_offset == 1)
        &&& f.day_offset == 0 ==> {
            &&& f.minute_of_day * 60 > now_sec
            &&& forall|i: int|
                0 <= i < times.len() && times[i] * 60 > now_sec ==> times[i] >= f.minute_of_day
            &&& f.delay_secs == f.minute_of_day * 60 - now_sec
        }
        &&& f.day_offset == 1 ==> {
            &&& forall|i: int| 0 <= i < times.len() ==> times[i] * 60 <= now_sec
            &&& forall|i: int| 0 <= i < times.len() ==> times[i] >= f.minute_of_day
            &&& f.delay_secs == SECONDS_PER_DAY - now_sec + f.minute_of_day * 60
        }
    })
}

/// Computes when the scheduler fires next, for a given current time.
pub fn next_fire_from(now_sec: u32, times: &Vec<u32>) -> (r: Option<NextFire>)
    requires
        now_sec < SECONDS_PER_DAY,
        forall|i: int| 0 <= i < times@.len() ==> times@[i] < MINUTES_PER_DAY,
    ensures
        next_fire_spec(now_sec, times@, r),
{
    let n = times.len();
    if n == 0 {
        return None;
    }
    // The earliest time overall, and the earliest strictly after now.
    let mut min_all: u32 = times[0];
    let mut min_after: Option<u32> = None;
    let mut i: usize = 0;
    while i < n
        invariant
            i <= n,
            n == times@.len(),
            n > 0,
            now_sec < SECONDS_PER_DAY,
            forall|k: int| 0 <= k < times@.len() ==> times@[k] < MINUTES_PER_DAY,
            i > 0 ==> times@.contains(min_all),
            i == 0 ==> min_all == times@[0],
            forall|k: int| 0 <= k < i ==> times@[k] >= min_all,
            min_after is Some ==> times@.contains(min_after->0) && min_after->0 * 60 > now_sec,
            forall|k: int|
                0 <= k < i && times@[k] * 60 > now_sec ==> min_after is Some && times@[k]
                    >= min_after->0,
        decreases n - i,
    {
        let t = times[i];
        if i == 0 || t < min_all {
            min_all = t;
            assert(times@.contains(min_all)) by {
                assert(times@[i as int] == min_all);
            }
        }
        if t * 60 > now_sec {
            match min_after {
                None => {
                    min_after = Some(t);
                    assert(times@.contains(t)) by {
                        assert(times@[i as int] == t);
                    }
                },
                Some(cur) => {
                    if t < cur {
                        min_after = Some(t);
                        assert(times@.contains(t)) by {
                            assert(times@[i as int] == t);
                        }
                    }
                },
            }
        }
        i += 1;
    }
    match min_after {
        Some(m) => Some(
            NextFire { day_offset: 0, minute_of_day: m, delay_secs: m * 60 - now_sec },
        ),
        None => Some(
            NextFire {
                day_offset: 1,
                minute_of_day: min_all,
                delay_secs: SECONDS_PER_DAY - now_sec + min_all * 60,
            },
        ),
    }
}

/// Reads the local clock and computes the next fire instant from it; the
/// returned second-of-day is the reading the result is relative to.
pub fn next_fire_now(times: &Vec<u32>) -> (r: (u32, Option<NextFire>))
    requires
        forall|i: int| 0 <= i < times@.len() ==> times@[i] < MINUTES_PER_DAY,
    ensures
        r.0 < SECONDS_PER_DAY,
        next_fire_spec(r.0, times@, r.1),
{
    let now = crate::clock::local_seconds_of_day();
    let fire = next_fire_from(now, times);
    (now, fire)
}

} // verus!
