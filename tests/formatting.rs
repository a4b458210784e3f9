use class_status::{
    decimal_text, format_duration, ClassTime, PrintableTime, RelPos, TimeOfDay, Weekday,
};

#[test]
fn zero_duration() {
    assert_eq!(format_duration(0), "0s");
}

#[test]
fn durations_leave_out_zero_parts() {
    assert_eq!(format_duration(59), "59s");
    assert_eq!(format_duration(60), "1m:0s");
    assert_eq!(format_duration(3600), "1hr:0s");
    assert_eq!(format_duration(3661), "1hr:1m:1s");
    assert_eq!(format_duration(3900), "1hr:5m:0s");
    assert_eq!(format_duration(1200), "20m:0s");
}

#[test]
fn largest_duration_in_range() {
    assert_eq!(format_duration(99 * 3600 - 1), "98hr:59m:59s");
}

#[test]
fn parts_add_back_to_total() {
    for d in [0i64, 1, 59, 60, 61, 3599, 3600, 3601, 86399, 99 * 3600 - 1] {
        let p = PrintableTime::from_duration(d);
        assert_eq!(p.hours * 3600 + p.minutes * 60 + p.seconds, d);
        assert!(p.minutes < 60 && p.seconds < 60);
        let text = p.to_string();
        let mut total = 0i64;
        let mut pending = 0i64;
        for c in text.chars() {
            match c {
                '0'..='9' => pending = pending * 10 + (c as i64 - '0' as i64),
                'h' => {
                    total += pending * 3600;
                    pending = 0
                }
                'm' => {
                    total += pending * 60;
                    pending = 0
                }
                's' => {
                    total += pending;
                    pending = 0
                }
                _ => {}
            }
        }
        assert_eq!(total, d);
    }
}

#[test]
fn decimal_digits() {
    assert_eq!(decimal_text(0), "0");
    assert_eq!(decimal_text(7), "7");
    assert_eq!(decimal_text(10), "10");
    assert_eq!(decimal_text(1234567890), "1234567890");
    assert_eq!(decimal_text(u64::MAX), u64::MAX.to_string());
}

fn window(b: TimeOfDay, e: TimeOfDay) -> ClassTime {
    ClassTime::new("W".to_string(), vec![Weekday::Mon], b, e).unwrap()
}

#[test]
fn positions_partition_the_day() {
    let b = TimeOfDay::from_hms(9, 0, 0).unwrap();
    let e = TimeOfDay::from_hms(9, 50, 0).unwrap();
    let w = window(b, e);
    assert_eq!(w.position(&TimeOfDay::from_hms(8, 59, 59).unwrap()), RelPos::Before);
    assert_eq!(w.position(&b), RelPos::In);
    assert_eq!(w.position(&e), RelPos::In);
    assert_eq!(w.position(&TimeOfDay::new(9 * 3600 + 50 * 60, 1).unwrap()), RelPos::After);
    assert_eq!(w.position(&TimeOfDay::new(9 * 3600 - 1, 999_999_999).unwrap()), RelPos::Before);
}

#[test]
fn point_window_holds_its_instant() {
    let t = TimeOfDay::from_hms(12, 0, 0).unwrap();
    assert_eq!(window(t, t).position(&t), RelPos::In);
}

#[test]
fn times_out_of_range_are_refused() {
    assert!(TimeOfDay::from_hms(24, 0, 0).is_none());
    assert!(TimeOfDay::from_hms(23, 60, 0).is_none());
    assert!(TimeOfDay::from_hms(23, 59, 60).is_none());
    assert!(TimeOfDay::new(86_400, 0).is_none());
    assert!(TimeOfDay::new(0, 1_000_000_000).is_none());
    assert!(TimeOfDay::new(86_399, 999_999_999).is_some());
}

#[test]
fn time_order() {
    let a = TimeOfDay::new(100, 5).unwrap();
    let b = TimeOfDay::new(100, 6).unwrap();
    assert!(a.le(&b));
    assert!(!b.le(&a));
    assert!(a.le(&a));
}
