//! Class windows, where a time stands against one, and the timetable that
//! holds them.

use vstd::prelude::*;
use crate::clock::{TimeOfDay, Weekday, hm_parsed, parse_hm};

verus! {

/// One record of a schedule definition, as read from a table: the days
/// already split into weekdays, the times still as `HH:MM` text.
pub struct CSVTime {
    pub days: Vec<Weekday>,
    pub name: String,
    pub begin: String,
    pub end: String,
}

impl CSVTime {
    pub fn new(days: Vec<Weekday>, name: String, begin: String, end: String) -> (r: CSVTime)
        ensures
            r.days@ == days@,
            r.name@ == name@,
            r.begin@ == begin@,
            r.end@ == end@,
    {
        CSVTime { days, name, begin, end }
    }
}

/// Why a record does not make a class window.
#[derive(Clone, Copy, Debug, PartialEq, Eq, Structural)]
pub enum ScheduleError {
    /// A time is not `HH:MM` with an hour below 24 and a minute below 60.
    BadTime,
    /// The class has no name.
    EmptyName,
    /// The class is on no day of the week.
    NoDays,
    /// The class ends before it begins.
    EndBeforeBegin,
}

/// The first rule that a window with these parts breaks, if any.
pub open spec fn window_error(name: Seq<char>, days: Seq<Weekday>, begin: TimeOfDay, end: TimeOfDay) -> Option<
    ScheduleError,
> {
    if name.len() == 0 {
        Some(ScheduleError::EmptyName)
    } else if days.len() == 0 {
        Some(ScheduleError::NoDays)
    } else if end.nanos() < begin.nanos() {
        Some(ScheduleError::EndBeforeBegin)
    } else {
        None
    }
}

/// A class that recurs on some days of the week, from `begin` to `end` on each.
pub struct ClassTime {
    class: String,
    days: Vec<Weekday>,
    begin: TimeOfDay,
    end: TimeOfDay,
}

/// Where a time of day stands against a class window.
#[derive(Clone, Copy, Debug, PartialEq, Eq, Structural)]
pub enum RelPos {
    Before,
    In,
    After,
}

/// The time is before the window begins.
pub open spec fn is_before(begin: TimeOfDay, end: TimeOfDay, t: TimeOfDay) -> bool {
    t.nanos() < begin.nanos()
}

/// The time is within the window, both ends included.
pub open spec fn is_in(begin: TimeOfDay, end: TimeOfDay, t: TimeOfDay) -> bool {
    begin.nanos() <= t.nanos() && t.nanos() <= end.nanos()
}

/// The time is after the window ends.
pub open spec fn is_after(begin: TimeOfDay, end: TimeOfDay, t: TimeOfDay) -> bool {
    end.nanos() < t.nanos()
}

/// The position of `t` against the window from `begin` to `end`.
pub open spec fn rel_pos(begin: TimeOfDay, end: TimeOfDay, t: TimeOfDay) -> RelPos {
    if is_in(begin, end, t) {
        RelPos::In
    } else if t.nanos() < begin.nanos() {
        RelPos::Before
    } else {
        RelPos::After
    }
}

/// For a window that does not end before it begins, exactly one of before,
/// in and after holds of any time, and the position names that one.
pub proof fn lemma_position_partition(begin: TimeOfDay, end: TimeOfDay, t: TimeOfDay)
    requires
        begin.nanos() <= end.nanos(),
    ensures
        is_before(begin, end, t) || is_in(begin, end, t) || is_after(begin, end, t),
        !(is_before(begin, end, t) && is_in(begin, end, t)),
        !(is_before(begin, end, t) && is_after(begin, end, t)),
        !(is_in(begin, end, t) && is_after(begin, end, t)),
        rel_pos(begin, end, t) == RelPos::Before <==> is_before(begin, end, t),
        rel_pos(begin, end, t) == RelPos::In <==> is_in(begin, end, t),
        rel_pos(begin, end, t) == RelPos::After <==> is_after(begin, end, t),
{
}

/// A window holds both of its ends.
pub proof fn lemma_in_at_both_ends(begin: TimeOfDay, end: TimeOfDay)
    requires
        begin.nanos() <= end.nanos(),
    ensures
        is_in(begin, end, begin),
        is_in(begin, end, end),
{
}

impl ClassTime {
    /// A name, at least one day, and an end no earlier than the begin.
    #[verifier::type_invariant]
    pub open spec fn valid(&self) -> bool {
        window_error(self.spec_class(), self.spec_days(), self.spec_begin(), self.spec_end()) is None
    }

    pub closed spec fn spec_class(&self) -> Seq<char> {
        self.class@
    }

    pub closed spec fn spec_days(&self) -> Seq<Weekday> {
        self.days@
    }

    pub closed spec fn spec_begin(&self) -> TimeOfDay {
        self.begin
    }

    pub closed spec fn spec_end(&self) -> TimeOfDay {
        self.end
    }

    /// A class window from its parts, or the first rule that they break.
    pub fn new(class: String, days: Vec<Weekday>, begin: TimeOfDay, end: TimeOfDay) -> (r: Result<
        ClassTime,
        ScheduleError,
    >)
        ensures
            r is Ok <==> window_error(class@, days@, begin, end) is None,
            r matches Err(e) ==> window_error(class@, days@, begin, end) == Some(e),
            r matches Ok(c) ==> c.spec_class() == class@ && c.spec_days() == days@
                && c.spec_begin() == begin && c.spec_end() == end,
    {
        if class.as_str().is_empty() {
            Err(ScheduleError::EmptyName)
        } else if days.len() == 0 {
            Err(ScheduleError::NoDays)
        } else if !begin.le(&end) {
            Err(ScheduleError::EndBeforeBegin)
        } else {
            Ok(ClassTime { class, days, begin, end })
        }
    }

    /// The class window of a schedule record, its times read as `HH:MM`.
    pub fn from_csv(value: CSVTime) -> (r: Result<ClassTime, ScheduleError>)
        ensures
            hm_parsed(value.begin@) is None || hm_parsed(value.end@) is None ==> r
                == Err::<ClassTime, ScheduleError>(ScheduleError::BadTime),
            hm_parsed(value.begin@) matches Some(b) ==> hm_parsed(value.end@) matches Some(e) ==> {
                &&& r matches Ok(c) ==> c.spec_class() == value.name@ && c.spec_days() == value.days@
                    && c.spec_begin().spec_secs() == b && c.spec_begin().spec_nano() == 0
                    && c.spec_end().spec_secs() == e && c.spec_end().spec_nano() == 0
                &&& r matches Err(err) ==> err != ScheduleError::BadTime
                &&& (r is Ok <==> value.name@.len() > 0 && value.days@.len() > 0 && b <= e)
                &&& (value.name@.len() == 0 ==> r == Err::<ClassTime, ScheduleError>(ScheduleError::EmptyName))
                &&& (value.name@.len() > 0 && value.days@.len() == 0 ==> r == Err::<ClassTime, ScheduleError>(ScheduleError::NoDays))
                &&& (value.name@.len() > 0 && value.days@.len() > 0 && e < b ==> r == Err::<ClassTime, ScheduleError>(ScheduleError::EndBeforeBegin))
            },
    {
        let b = parse_hm(value.begin.as_str());
        let e = parse_hm(value.end.as_str());
        match (b, e) {
            (Some(b), Some(e)) => {
                let begin = TimeOfDay::new(b, 0).unwrap();
                let end = TimeOfDay::new(e, 0).unwrap();
                ClassTime::new(value.name, value.days, begin, end)
            },
            _ => Err(ScheduleError::BadTime),
        }
    }

    /// The name of the class.
    pub fn class(&self) -> (r: &String)
        ensures
            r@ == self.spec_class(),
    {
        &self.class
    }

    /// The time at which the class begins.
    pub fn begin(&self) -> (r: &TimeOfDay)
        ensures
            *r == self.spec_begin(),
    {
        &self.begin
    }

    /// The time at which the class ends.
    pub fn end(&self) -> (r: &TimeOfDay)
        ensures
            *r == self.spec_end(),
    {
        &self.end
    }

    /// Whether the class is held on `day`.
    pub fn is_on(&self, day: Weekday) -> (r: bool)
        ensures
            r == self.spec_days().contains(day),
    {
        let mut i: usize = 0;
        while i < self.days.len()
            invariant
                i <= self.days@.len(),
                forall|j: int| 0 <= j < i ==> self.days@[j] != day,
            decreases self.days@.len() - i,
        {
            if self.days[i] == day {
                return true;
            }
            i = i + 1;
        }
        false
    }

    /// Where `now` stands against this window.
    pub fn position(&self, now: &TimeOfDay) -> (r: RelPos)
        ensures
            r == rel_pos(self.spec_begin(), self.spec_end(), *now),
    {
        if self.begin.le(now) && now.le(&self.end) {
            RelPos::In
        } else if !self.begin.le(now) {
            RelPos::Before
        } else {
            RelPos::After
        }
    }
}

/// The class windows of a week, in the order of their definition.
pub struct Timetable {
    classes: Vec<ClassTime>,
}

impl View for Timetable {
    type V = Seq<ClassTime>;

    closed spec fn view(&self) -> Seq<ClassTime> {
        self.classes@
    }
}

impl Timetable {
    /// An empty timetable.
    pub fn new() -> (r: Timetable)
        ensures
            r@ == Seq::<ClassTime>::empty(),
    {
        Timetable { classes: Vec::new() }
    }

    /// The number of class windows.
    pub fn len(&self) -> (r: usize)
        ensures
            r == self@.len(),
    {
        self.classes.len()
    }

    /// The class window at `i`.
    pub fn get(&self, i: usize) -> (r: &ClassTime)
        requires
            i < self@.len(),
        ensures
            *r == self@[i as int],
    {
        &self.classes[i]
    }
}

/// Puts `csv` in place of all the class windows of `timetable`.
pub fn set_csv(timetable: &mut Timetable, csv: Vec<ClassTime>)
    ensures
        final(timetable)@ == csv@,
{
    timetable.classes = csv;
}

} // verus!
