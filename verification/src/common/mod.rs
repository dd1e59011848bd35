//! Rooms, teachers, courses and lesson slots, and the decoders of the compact
//! codes that stand for them in timetable cells.

pub mod course;
pub mod hour;
pub mod room;

pub use course::{Course, CourseKind, CourseView};
pub use hour::{Hour, HourView, Teacher};
pub use room::Room;
