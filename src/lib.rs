//! Status of a person against a weekly class timetable: in a class, waiting
//! for the next one, or done for the day, with a redraw throttle for the
//! display that shows it.

pub mod clock;
pub mod days;
pub mod duration;
pub mod engine;
pub mod schedule;

pub use clock::{TimeOfDay, Weekday};
pub use days::space_separated;
pub use duration::{PrintableTime, decimal_text, format_duration};
pub use engine::{Draw, DrawType, LastDrawn, StatusEngine, get_time_left};
pub use schedule::{CSVTime, ClassTime, RelPos, ScheduleError, Timetable, set_csv};
