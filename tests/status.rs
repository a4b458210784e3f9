use class_status::{
    get_time_left, set_csv, CSVTime, ClassTime, Draw, DrawType, LastDrawn, ScheduleError,
    StatusEngine, TimeOfDay, Timetable, Weekday,
};

fn record(days: Vec<Weekday>, name: &str, begin: &str, end: &str) -> CSVTime {
    CSVTime::new(days, name.to_string(), begin.to_string(), end.to_string())
}

fn weekdays() -> Vec<Weekday> {
    vec![Weekday::Mon, Weekday::Tue, Weekday::Wed, Weekday::Thu, Weekday::Fri]
}

fn class(days: Vec<Weekday>, name: &str, begin: &str, end: &str) -> ClassTime {
    ClassTime::from_csv(record(days, name, begin, end)).unwrap()
}

fn at(h: u32, m: u32, s: u32) -> TimeOfDay {
    TimeOfDay::from_hms(h, m, s).unwrap()
}

fn algorithms() -> Timetable {
    let mut t = Timetable::new();
    set_csv(&mut t, vec![class(weekdays(), "Algorithms", "09:00", "09:50")]);
    t
}

fn poll(t: &Timetable, now: TimeOfDay, day: Weekday) -> Draw {
    let mut engine = StatusEngine::new();
    get_time_left(&mut engine, t, &now, day)
}

#[test]
fn in_class_mid_window() {
    let d = poll(&algorithms(), at(9, 30, 0), Weekday::Wed);
    assert_eq!(d.draw_type, DrawType::In);
    assert_eq!(d.class, "Algorithms");
    assert_eq!(d.time_left, "20m:0s");
    assert!(d.redraw_all);
}

#[test]
fn before_class_counts_to_its_end() {
    let d = poll(&algorithms(), at(8, 45, 0), Weekday::Wed);
    assert_eq!(d.draw_type, DrawType::Before);
    assert_eq!(d.class, "Algorithms");
    assert_eq!(d.time_left, "1hr:5m:0s");
}

#[test]
fn out_of_classes_after_last() {
    let d = poll(&algorithms(), at(16, 0, 0), Weekday::Wed);
    assert_eq!(d.draw_type, DrawType::Out);
    assert_eq!(d.class, "");
    assert_eq!(d.time_left, "");
}

#[test]
fn in_class_at_begin() {
    let d = poll(&algorithms(), at(9, 0, 0), Weekday::Wed);
    assert_eq!(d.draw_type, DrawType::In);
    assert_eq!(d.time_left, "50m:0s");
}

#[test]
fn in_class_at_end() {
    let d = poll(&algorithms(), at(9, 50, 0), Weekday::Wed);
    assert_eq!(d.draw_type, DrawType::In);
    assert_eq!(d.time_left, "0s");
}

#[test]
fn out_on_a_day_without_classes() {
    let d = poll(&algorithms(), at(9, 30, 0), Weekday::Sat);
    assert_eq!(d.draw_type, DrawType::Out);
    assert_eq!(d.class, "");
    assert_eq!(d.time_left, "");
}

#[test]
fn out_with_empty_timetable() {
    let d = poll(&Timetable::new(), at(9, 30, 0), Weekday::Mon);
    assert_eq!(d.draw_type, DrawType::Out);
}

#[test]
fn fraction_of_a_second_rounds_down() {
    let now = TimeOfDay::new(9 * 3600 + 30 * 60, 500_000_000).unwrap();
    let d = poll(&algorithms(), now, Weekday::Wed);
    assert_eq!(d.draw_type, DrawType::In);
    assert_eq!(d.time_left, "19m:59s");
}

#[test]
fn just_after_end_is_out() {
    let now = TimeOfDay::new(9 * 3600 + 50 * 60, 1).unwrap();
    let d = poll(&algorithms(), now, Weekday::Wed);
    assert_eq!(d.draw_type, DrawType::Out);
}

#[test]
fn current_time_on_twelve_hour_clock() {
    assert_eq!(poll(&algorithms(), at(13, 5, 9), Weekday::Sun).current_time, "01:05:09 pm");
    assert_eq!(poll(&algorithms(), at(0, 0, 0), Weekday::Sun).current_time, "12:00:00 am");
    assert_eq!(poll(&algorithms(), at(12, 0, 0), Weekday::Sun).current_time, "12:00:00 pm");
    assert_eq!(poll(&algorithms(), at(9, 30, 0), Weekday::Wed).current_time, "09:30:00 am");
    assert_eq!(poll(&algorithms(), at(23, 59, 59), Weekday::Wed).current_time, "11:59:59 pm");
}

#[test]
fn first_before_in_definition_order() {
    let mut t = Timetable::new();
    set_csv(
        &mut t,
        vec![
            class(weekdays(), "Late", "14:00", "15:00"),
            class(weekdays(), "Early", "10:00", "11:00"),
        ],
    );
    let d = poll(&t, at(8, 0, 0), Weekday::Mon);
    assert_eq!(d.draw_type, DrawType::Before);
    assert_eq!(d.class, "Late");
    assert_eq!(d.time_left, "7hr:0s");
}

#[test]
fn first_in_wins_when_windows_overlap() {
    let mut t = Timetable::new();
    set_csv(
        &mut t,
        vec![
            class(weekdays(), "Past", "07:00", "08:00"),
            class(weekdays(), "Long", "09:00", "12:00"),
            class(weekdays(), "Short", "09:30", "10:00"),
        ],
    );
    let d = poll(&t, at(9, 45, 0), Weekday::Tue);
    assert_eq!(d.draw_type, DrawType::In);
    assert_eq!(d.class, "Long");
    assert_eq!(d.time_left, "2hr:15m:0s");
}

#[test]
fn classes_on_other_days_are_skipped() {
    let mut t = Timetable::new();
    set_csv(
        &mut t,
        vec![
            class(vec![Weekday::Mon], "Monday", "09:00", "10:00"),
            class(vec![Weekday::Tue, Weekday::Thu], "Lab", "13:00", "15:00"),
        ],
    );
    let d = poll(&t, at(9, 30, 0), Weekday::Thu);
    assert_eq!(d.draw_type, DrawType::Before);
    assert_eq!(d.class, "Lab");
    assert_eq!(d.time_left, "5hr:30m:0s");
}

#[test]
fn redraw_only_on_change_of_kind() {
    let t = algorithms();
    let mut engine = StatusEngine::new();
    let d1 = get_time_left(&mut engine, &t, &at(8, 0, 0), Weekday::Mon);
    assert!(d1.redraw_all);
    assert_eq!(engine.drawn, LastDrawn::Before);
    let d2 = get_time_left(&mut engine, &t, &at(8, 0, 1), Weekday::Mon);
    assert!(!d2.redraw_all);
    assert_eq!(d2.draw_type, DrawType::Before);
    let d3 = get_time_left(&mut engine, &t, &at(9, 0, 0), Weekday::Mon);
    assert!(d3.redraw_all);
    assert_eq!(d3.draw_type, DrawType::In);
    let d4 = get_time_left(&mut engine, &t, &at(9, 0, 1), Weekday::Mon);
    assert!(!d4.redraw_all);
    assert_eq!(d4.time_left, "49m:59s");
    let d5 = get_time_left(&mut engine, &t, &at(10, 0, 0), Weekday::Mon);
    assert!(d5.redraw_all);
    assert_eq!(d5.draw_type, DrawType::Out);
    let d6 = get_time_left(&mut engine, &t, &at(11, 0, 0), Weekday::Mon);
    assert!(!d6.redraw_all);
    assert_eq!(d6.draw_type, DrawType::Out);
    assert_eq!(engine.drawn, LastDrawn::Out);
}

#[test]
fn replacing_the_timetable_discards_the_old() {
    let mut t = algorithms();
    assert_eq!(t.len(), 1);
    set_csv(&mut t, vec![]);
    assert_eq!(t.len(), 0);
    assert_eq!(poll(&t, at(9, 30, 0), Weekday::Wed).draw_type, DrawType::Out);
}

#[test]
fn record_with_bad_time_is_rejected() {
    let bad = |b: &str, e: &str| ClassTime::from_csv(record(weekdays(), "X", b, e)).err();
    assert_eq!(bad("9:7x", "10:00"), Some(ScheduleError::BadTime));
    assert_eq!(bad("25:00", "10:00"), Some(ScheduleError::BadTime));
    assert_eq!(bad("09:00", "10:60"), Some(ScheduleError::BadTime));
    assert_eq!(bad("09:00", ""), Some(ScheduleError::BadTime));
}

#[test]
fn record_rules() {
    let r = ClassTime::from_csv(record(weekdays(), "", "09:00", "10:00"));
    assert_eq!(r.err(), Some(ScheduleError::EmptyName));
    let r = ClassTime::from_csv(record(vec![], "X", "09:00", "10:00"));
    assert_eq!(r.err(), Some(ScheduleError::NoDays));
    let r = ClassTime::from_csv(record(weekdays(), "X", "10:00", "09:00"));
    assert_eq!(r.err(), Some(ScheduleError::EndBeforeBegin));
}

#[test]
fn record_times_are_parsed() {
    let c = class(vec![Weekday::Fri], "Lab", "13:05", "23:59");
    assert_eq!(c.class(), "Lab");
    assert_eq!(c.begin().secs(), 13 * 3600 + 5 * 60);
    assert_eq!(c.end().secs(), 23 * 3600 + 59 * 60);
    assert_eq!(c.begin().nano(), 0);
    assert!(c.is_on(Weekday::Fri));
    assert!(!c.is_on(Weekday::Sat));
}

#[test]
fn new_window_from_parts() {
    let c = ClassTime::new("Maths".to_string(), vec![Weekday::Sun], at(8, 0, 0), at(8, 0, 0));
    assert!(c.is_ok());
    let c = ClassTime::new("Maths".to_string(), vec![Weekday::Sun], at(8, 0, 1), at(8, 0, 0));
    assert_eq!(c.err(), Some(ScheduleError::EndBeforeBegin));
}
