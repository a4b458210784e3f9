//! The status of one poll against the timetable, and the redraw throttle
//! that tells a display whether the kind of status has changed.

use vstd::prelude::*;
use crate::clock::{TimeOfDay, Weekday, format_clock, seconds_between, twelve_hour_text, whole_seconds_between};
use crate::duration::{duration_text, format_duration};
use crate::schedule::{ClassTime, RelPos, Timetable, rel_pos};

verus! {

/// The kind of status shown.
#[derive(Clone, Copy, Debug, PartialEq, Eq, Structural)]
pub enum DrawType {
    /// In a class.
    In,
    /// Waiting for the next class of the day.
    Before,
    /// No class is left today.
    Out,
}

/// The kind of status shown last, or that nothing has been shown yet.
#[derive(Clone, Copy, Debug, PartialEq, Eq, Structural)]
pub enum LastDrawn {
    Time,
    Before,
    Out,
    Nothing,
}

/// What is shown last once a status of kind `d` has been shown.
pub open spec fn shown(d: DrawType) -> LastDrawn {
    match d {
        DrawType::In => LastDrawn::Time,
        DrawType::Before => LastDrawn::Before,
        DrawType::Out => LastDrawn::Out,
    }
}

/// The throttle's next state and redraw flag when a status of kind `d`
/// follows `last`.
pub open spec fn redraw_step(last: LastDrawn, d: DrawType) -> (LastDrawn, bool) {
    (shown(d), last != shown(d))
}

/// The redraw flag of a poll is set exactly when its kind of status differs
/// from that of the poll before it, and on the first poll of all.
pub proof fn lemma_redraw_on_change(start: LastDrawn, first: DrawType, second: DrawType)
    ensures
        redraw_step(LastDrawn::Nothing, first).1,
        redraw_step(redraw_step(start, first).0, second).1 <==> first != second,
{
}

impl LastDrawn {
    /// Records that a status of kind `d` is shown; returns whether its kind
    /// differs from the one shown before.
    pub fn observe(&mut self, d: DrawType) -> (r: bool)
        ensures
            (*final(self), r) == redraw_step(*old(self), d),
    {
        let next = match d {
            DrawType::In => LastDrawn::Time,
            DrawType::Before => LastDrawn::Before,
            DrawType::Out => LastDrawn::Out,
        };
        let changed = *self != next;
        *self = next;
        changed
    }
}

/// The class is held on `today` and `now` stands at `p` against it.
pub open spec fn hits(c: ClassTime, today: Weekday, now: TimeOfDay, p: RelPos) -> bool {
    c.spec_days().contains(today) && rel_pos(c.spec_begin(), c.spec_end(), now) == p
}

/// `i` is the first class of `s`, in definition order, that `hits` at `p`.
pub open spec fn is_first(s: Seq<ClassTime>, i: int, today: Weekday, now: TimeOfDay, p: RelPos) -> bool {
    &&& 0 <= i < s.len()
    &&& hits(s[i], today, now, p)
    &&& forall|j: int| 0 <= j < i ==> !hits(#[trigger] s[j], today, now, p)
}

/// Some class of `s` hits at `p`.
pub open spec fn any_hits(s: Seq<ClassTime>, today: Weekday, now: TimeOfDay, p: RelPos) -> bool {
    exists|i: int| 0 <= i < s.len() && hits(#[trigger] s[i], today, now, p)
}

/// The kind of status at `now` on `today`: in a class if one of today's
/// classes holds `now`, else before one if one of them is still to come,
/// else out.
pub open spec fn category(s: Seq<ClassTime>, today: Weekday, now: TimeOfDay) -> DrawType {
    if any_hits(s, today, now, RelPos::In) {
        DrawType::In
    } else if any_hits(s, today, now, RelPos::Before) {
        DrawType::Before
    } else {
        DrawType::Out
    }
}

/// The position that picks the class of a status of kind `d`.
pub open spec fn position_of(d: DrawType) -> RelPos {
    match d {
        DrawType::In => RelPos::In,
        DrawType::Before => RelPos::Before,
        DrawType::Out => RelPos::After,
    }
}

/// What one poll hands to the display.
pub struct Draw {
    pub draw_type: DrawType,
    /// The kind of status differs from the one shown before.
    pub redraw_all: bool,
    /// The name of the class; empty when out of classes.
    pub class: String,
    /// The time until the class ends; empty when out of classes.
    pub time_left: String,
    /// The time of the poll on a twelve-hour clock.
    pub current_time: String,
}

/// The state that the engine keeps between polls.
pub struct StatusEngine {
    pub drawn: LastDrawn,
}

impl StatusEngine {
    /// An engine that has shown nothing yet.
    pub fn new() -> (r: StatusEngine)
        ensures
            r.drawn == LastDrawn::Nothing,
    {
        StatusEngine { drawn: LastDrawn::Nothing }
    }
}

/// The status at `now` on `today` against `timetable`, and whether the
/// display must be redrawn in full. The class is the first of today's
/// classes, in definition order, that holds `now`, else the first that is
/// still to come; in both cases the time left is measured to its end.
pub fn get_time_left(engine: &mut StatusEngine, timetable: &Timetable, now: &TimeOfDay, today: Weekday) -> (r: Draw)
    ensures
        r.draw_type == category(timetable@, today, *now),
        r.draw_type != DrawType::Out ==> exists|i: int|
            {
                &&& is_first(timetable@, i, today, *now, position_of(r.draw_type))
                &&& r.class@ == timetable@[i].spec_class()
                &&& r.time_left@ == duration_text(whole_seconds_between(*now, timetable@[i].spec_end()) as nat)
            },
        r.draw_type == DrawType::Out ==> r.class@ == Seq::<char>::empty() && r.time_left@ == Seq::<char>::empty(),
        r.current_time@ == twelve_hour_text(now.spec_secs()),
        (final(engine).drawn, r.redraw_all) == redraw_step(old(engine).drawn, r.draw_type),
{
    let ghost s = timetable@;
    let mut first_in: Option<usize> = None;
    let mut first_before: Option<usize> = None;
    let mut i: usize = 0;
    while i < timetable.len()
        invariant_except_break
            first_in is None,
        invariant
            s == timetable@,
            i <= s.len(),
            first_in matches Some(k) ==> is_first(s, k as int, today, *now, RelPos::In),
            first_in is None ==> forall|j: int| 0 <= j < i ==> !hits(#[trigger] s[j], today, *now, RelPos::In),
            first_before matches Some(k) ==> k < i && is_first(s, k as int, today, *now, RelPos::Before),
            first_before is None ==> forall|j: int|
                0 <= j < i ==> !hits(#[trigger] s[j], today, *now, RelPos::Before),
        ensures
            first_in is None ==> i == s.len(),
        decreases s.len() - i,
    {
        let c = timetable.get(i);
        if c.is_on(today) {
            let p = c.position(now);
            if p == RelPos::In {
                first_in = Some(i);
                break;
            } else if p == RelPos::Before && first_before.is_none() {
                first_before = Some(i);
            }
        }
        i = i + 1;
    }
    proof {
        if let Some(k) = first_in {
            assert(hits(s[k as int], today, *now, RelPos::In));
        } else {
            if let Some(k) = first_before {
                assert(hits(s[k as int], today, *now, RelPos::Before));
            }
        }
    }
    let current_time = format_clock(now);
    let pick = if first_in.is_some() {
        first_in
    } else {
        first_before
    };
    let (draw_type, class, time_left) = match pick {
        Some(k) => {
            let c = timetable.get(k);
            proof {
                use_type_invariant(c);
            }
            let d = seconds_between(now, c.end());
            let time_left = format_duration(d);
            let draw_type = if first_in.is_some() {
                DrawType::In
            } else {
                DrawType::Before
            };
            (draw_type, c.class().clone(), time_left)
        },
        None => (DrawType::Out, String::new(), String::new()),
    };
    let redraw_all = engine.drawn.observe(draw_type);
    Draw { draw_type, redraw_all, class, time_left, current_time }
}

} // verus!
