//! Days of the week and times of day, and what chrono computes on them.

use vstd::prelude::*;
use crate::duration::digit_char;
use chrono::NaiveTime;

verus! {

/// A day of the week.
#[derive(Clone, Copy, Debug, PartialEq, Eq, Structural)]
pub enum Weekday {
    Mon,
    Tue,
    Wed,
    Thu,
    Fri,
    Sat,
    Sun,
}

/// The number of nanoseconds in a second.
pub const NANOS_PER_SEC: u32 = 1_000_000_000;

/// The number of seconds in a day.
pub const SECS_PER_DAY: u32 = 86_400;

/// A time of day, as seconds since midnight and nanoseconds into that second.
#[derive(Clone, Copy, Debug, PartialEq, Eq, Structural)]
pub struct TimeOfDay {
    secs: u32,
    nano: u32,
}

impl TimeOfDay {
    /// Seconds and nanoseconds both lie within their range.
    #[verifier::type_invariant]
    pub closed spec fn wf(&self) -> bool {
        self.secs < SECS_PER_DAY && self.nano < NANOS_PER_SEC
    }

    pub closed spec fn spec_secs(&self) -> nat {
        self.secs as nat
    }

    pub closed spec fn spec_nano(&self) -> nat {
        self.nano as nat
    }

    /// The time as nanoseconds since midnight, the scale on which times compare.
    pub open spec fn nanos(&self) -> int {
        self.spec_secs() * NANOS_PER_SEC + self.spec_nano()
    }

    /// The time `secs` seconds and `nano` nanoseconds after midnight.
    pub fn new(secs: u32, nano: u32) -> (r: Option<TimeOfDay>)
        ensures
            r is Some <==> secs < SECS_PER_DAY && nano < NANOS_PER_SEC,
            r matches Some(t) ==> t.spec_secs() == secs && t.spec_nano() == nano,
    {
        if secs < SECS_PER_DAY && nano < NANOS_PER_SEC {
            Some(TimeOfDay { secs, nano })
        } else {
            None
        }
    }

    /// The time `h:m:s` on the dot.
    pub fn from_hms(h: u32, m: u32, s: u32) -> (r: Option<TimeOfDay>)
        ensures
            r is Some <==> h < 24 && m < 60 && s < 60,
            r matches Some(t) ==> t.spec_secs() == h * 3600 + m * 60 + s
                && t.spec_nano() == 0,
    {
        if h < 24 && m < 60 && s < 60 {
            Some(TimeOfDay { secs: h * 3600 + m * 60 + s, nano: 0 })
        } else {
            None
        }
    }

    pub fn secs(&self) -> (r: u32)
        ensures
            r == self.spec_secs(),
            r < SECS_PER_DAY,
    {
        proof {
            use_type_invariant(self);
        }
        self.secs
    }

    pub fn nano(&self) -> (r: u32)
        ensures
            r == self.spec_nano(),
            r < NANOS_PER_SEC,
    {
        proof {
            use_type_invariant(self);
        }
        self.nano
    }

    /// Whether `self` is no later than `other`.
    pub fn le(&self, other: &TimeOfDay) -> (r: bool)
        ensures
            r == (self.nanos() <= other.nanos()),
    {
        proof {
            use_type_invariant(self);
            use_type_invariant(other);
        }
        self.secs < other.secs || (self.secs == other.secs && self.nano <= other.nano)
    }
}

/// Two decimal digits of `n`, with a leading zero below ten.
pub open spec fn two_digits(n: nat) -> Seq<char> {
    seq![digit_char(n / 10), digit_char(n % 10)]
}

/// `hh:mm:ss am` or `hh:mm:ss pm` on a twelve-hour clock, for `secs` seconds
/// after midnight; midnight and noon are hour 12.
pub open spec fn twelve_hour_text(secs: nat) -> Seq<char> {
    let h = secs / 3600;
    let h12: nat = if h % 12 == 0 {
        12
    } else {
        h % 12
    };
    two_digits(h12) + seq![':'] + two_digits((secs % 3600) / 60) + seq![':'] + two_digits(secs % 60)
        + seq![' '] + if h >= 12 {
        seq!['p', 'm']
    } else {
        seq!['a', 'm']
    }
}

/// Whole seconds elapsed from `from` to `to`, rounded down.
pub open spec fn whole_seconds_between(from: TimeOfDay, to: TimeOfDay) -> int {
    (to.nanos() - from.nanos()) / (NANOS_PER_SEC as int)
}

/// What chrono's `NaiveTime::parse_from_str` with format `"%H:%M"` gives for a
/// text, as seconds after midnight.
pub uninterp spec fn hm_parsed(s: Seq<char>) -> Option<u32>;

/// Relies on chrono's `NaiveTime::signed_duration_since` and
/// `TimeDelta::num_seconds`: the exact difference of two times within a day,
/// which `num_seconds` truncates toward zero (down, as it is not negative).
#[verifier::external_body]
pub(crate) fn seconds_between(from: &TimeOfDay, to: &TimeOfDay) -> (r: i64)
    requires
        from.nanos() <= to.nanos(),
    ensures
        r == whole_seconds_between(*from, *to),
{
    let a = NaiveTime::from_num_seconds_from_midnight_opt(from.secs, from.nano).unwrap();
    let b = NaiveTime::from_num_seconds_from_midnight_opt(to.secs, to.nano).unwrap();
    b.signed_duration_since(a).num_seconds()
}

/// Relies on chrono's `NaiveTime::format` with `"%I:%M:%S %P"`: hour on a
/// twelve-hour clock, minute and second, each as two digits, then `am`/`pm`.
#[verifier::external_body]
pub(crate) fn format_clock(t: &TimeOfDay) -> (r: String)
    ensures
        r@ == twelve_hour_text(t.spec_secs()),
{
    let n = NaiveTime::from_num_seconds_from_midnight_opt(t.secs, t.nano).unwrap();
    n.format("%I:%M:%S %P").to_string()
}

/// Relies on chrono's `NaiveTime::parse_from_str` with `"%H:%M"`: an hour in
/// `0..24` and a minute in `0..60`, with no seconds, so a whole minute of the day.
#[verifier::external_body]
pub(crate) fn parse_hm(s: &str) -> (r: Option<u32>)
    ensures
        r == hm_parsed(s@),
        r matches Some(v) ==> v < SECS_PER_DAY && v % 60 == 0,
{
    match NaiveTime::parse_from_str(s, "%H:%M") {
        Ok(t) => Some(chrono::Timelike::num_seconds_from_midnight(&t)),
        Err(_) => None,
    }
}

} // verus!
