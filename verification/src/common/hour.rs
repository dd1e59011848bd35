//! Lesson slots and the three cell grammars of the weekly timetable.

use crate::common::course::{lower_secondary, Course, CourseView};
use crate::common::room::Room;
use crate::diagnostic::{no_notes, none, note, notes_view, one, Diagnostic, DiagnosticView};
use crate::text::{chars_of, has, joined, split_words, string_of, trimmed};
use crate::text::{contains, trim, views, words};
use vstd::prelude::*;

verus! {

/// A teacher, known by name.
#[derive(Debug, PartialEq, Eq)]
pub struct Teacher {
    pub name: String,
}

impl View for Teacher {
    type V = Seq<char>;

    open spec fn view(&self) -> Seq<char> {
        self.name@
    }
}

impl Teacher {
    /// The teacher without a name.
    pub fn new() -> (r: Self)
        ensures
            r@ == Seq::<char>::empty(),
    {
        Self { name: String::new() }
    }
}

impl Default for Teacher {
    fn default() -> (r: Self)
        ensures
            r@ == Seq::<char>::empty(),
    {
        Self::new()
    }
}

impl Clone for Teacher {
    fn clone(&self) -> (r: Self)
        ensures
            r@ == self@,
    {
        Self { name: self.name.clone() }
    }
}

/// One lesson slot of a weekly timetable.
#[derive(Debug, PartialEq, Eq)]
pub struct Hour {
    /// Where the lesson takes place.
    pub room: Room,
    /// Who teaches it.
    pub teacher: Teacher,
    /// Whether it is the tutor's lesson.
    pub is_tutor: bool,
    /// What is taught.
    pub course: Course,
}

/// The mathematical value of an [`Hour`].
pub struct HourView {
    pub room: Room,
    pub teacher: Seq<char>,
    pub is_tutor: bool,
    pub course: CourseView,
}

impl View for Hour {
    type V = HourView;

    open spec fn view(&self) -> HourView {
        HourView {
            room: self.room,
            teacher: self.teacher@,
            is_tutor: self.is_tutor,
            course: self.course@,
        }
    }
}

/// Whether a cell names one of the activities that have no course grammar.
pub open spec fn names_activity(cell: Seq<char>) -> bool {
    contains(cell, "LZ"@) || contains(cell, "BS"@) || contains(cell, "VBS"@) || contains(
        cell,
        "UEMI"@,
    ) || contains(cell, "SPI"@) || contains(cell, "AG"@)
}

/// The name of a lower-secondary lesson in a teacher's or room's cell: the
/// second word, a space, the first word.
pub open spec fn swapped_words(w: Seq<Seq<char>>) -> Seq<char> {
    w[1] + " "@ + w[0]
}

impl HourView {
    /// The empty slot.
    pub open spec fn empty() -> HourView {
        HourView {
            room: Room::Unknown,
            teacher: Seq::empty(),
            is_tutor: false,
            course: CourseView::Absent,
        }
    }

    /// The slot after a cell of a teacher's timetable has been written to
    /// it. The teacher is the table's, and the slot is no tutor's lesson. A
    /// blank cell changes nothing else. A cell that names an activity is a
    /// lower-secondary course of that name. A cell of three words is a
    /// class, a subject and a room: of the lower secondary where the cell
    /// begins with a digit 1 to 8, of the upper secondary otherwise. Any
    /// other cell changes nothing else.
    pub open spec fn with_teacher_cell(self, cell: Seq<char>, teacher: Seq<char>) -> HourView {
        let c = trim(cell);
        let h = HourView { teacher: teacher, is_tutor: false, ..self };
        if c.len() == 0 {
            h
        } else if names_activity(c) {
            HourView { course: CourseView::Sec1 { name: c }, ..h }
        } else {
            let w = words(c);
            if w.len() != 3 {
                h
            } else {
                HourView {
                    course: if lower_secondary(c) {
                        CourseView::Sec1 { name: swapped_words(w) }
                    } else {
                        CourseView::of_planinfo_teacher(w[0], w[1])
                    },
                    room: Room::of_code(trim(w[2])),
                    ..h
                }
            }
        }
    }

    /// The slot after a cell of a room's timetable has been written to it.
    /// The slot is no tutor's lesson. A cell that names an activity is a
    /// lower-secondary course of that name. Otherwise the room is what the
    /// whole cell denotes as a room code, and a cell of three words is a
    /// class and a subject: of the lower secondary where the cell begins
    /// with a digit 1 to 8, of the upper secondary otherwise.
    pub open spec fn with_room_cell(self, cell: Seq<char>) -> HourView {
        let c = trim(cell);
        let h = HourView { is_tutor: false, ..self };
        if names_activity(c) {
            HourView { course: CourseView::Sec1 { name: c }, ..h }
        } else {
            let w = words(c);
            let r = HourView { room: Room::of_code(c), ..h };
            if w.len() != 3 {
                r
            } else {
                HourView {
                    course: if lower_secondary(c) {
                        CourseView::Sec1 { name: swapped_words(w) }
                    } else {
                        CourseView::of_planinfo_room(w[0], w[1])
                    },
                    ..r
                }
            }
        }
    }

    /// The slot after a cell of a student's timetable has been written to
    /// it. A cell of four words is a class, a subject, a teacher and a room;
    /// the lesson is the tutor's where the table's course text holds the
    /// teacher's name. Any other cell changes nothing.
    pub open spec fn with_student_cell(self, cell: Seq<char>, courses: Seq<char>) -> HourView {
        let w = words(trim(cell));
        if w.len() != 4 {
            self
        } else {
            HourView {
                room: Room::of_code(w[3]),
                teacher: w[2],
                is_tutor: contains(trim(courses), w[2]),
                course: CourseView::of_planinfo_students(w[0], w[1]),
            }
        }
    }
}

/// What there is to say of a cell of a teacher's timetable: that it names an
/// activity, that it has not three words, or what there is to say of its
/// room code.
pub open spec fn teacher_cell_notes(cell: Seq<char>) -> Seq<DiagnosticView> {
    let c = trim(cell);
    if c.len() == 0 {
        no_notes()
    } else if names_activity(c) {
        note(2, "hour.activity"@, c)
    } else if words(c).len() != 3 {
        note(1, "hour.words"@, c)
    } else {
        Room::notes(trim(words(c)[2]))
    }
}

/// What there is to say of a cell of a room's timetable: that it names an
/// activity; else what there is to say of the cell as a room code, and that
/// it has not three words.
pub open spec fn room_cell_notes(cell: Seq<char>) -> Seq<DiagnosticView> {
    let c = trim(cell);
    if names_activity(c) {
        note(1, "hour.activity"@, c)
    } else if words(c).len() != 3 {
        Room::notes(c) + note(1, "hour.words"@, c)
    } else {
        Room::notes(c)
    }
}

/// What there is to say of a cell of a student's timetable: that it has not
/// four words, or what there is to say of its room code.
pub open spec fn student_cell_notes(cell: Seq<char>) -> Seq<DiagnosticView> {
    let c = trim(cell);
    if words(c).len() != 4 {
        note(1, "hour.words"@, c)
    } else {
        Room::notes(words(c)[3])
    }
}

fn is_activity(cell: &Vec<char>) -> (b: bool)
    ensures
        b == names_activity(cell@),
{
    let lz = chars_of("LZ");
    let bs = chars_of("BS");
    let vbs = chars_of("VBS");
    let uemi = chars_of("UEMI");
    let spi = chars_of("SPI");
    let ag = chars_of("AG");
    has(cell, &lz) || has(cell, &bs) || has(cell, &vbs) || has(cell, &uemi) || has(cell, &spi)
        || has(cell, &ag)
}

fn swap_words(w: &Vec<Vec<char>>) -> (r: Vec<char>)
    requires
        w.len() >= 2,
    ensures
        r@ == swapped_words(views(w@)),
{
    let space = chars_of(" ");
    let head = joined(&w[1], &space);
    assert(views(w@)[0] == w@[0]@);
    assert(views(w@)[1] == w@[1]@);
    joined(&head, &w[0])
}

impl Hour {
    /// The empty slot.
    pub fn new() -> (r: Self)
        ensures
            r@ == HourView::empty(),
    {
        Self { room: Room::Unknown, teacher: Teacher::new(), is_tutor: false, course: Course::new() }
    }

    /// Writes a cell of the timetable of `teacher` to this slot. `verbose`
    /// is the caller's diagnostic level; it has no influence on the result.
    pub fn parse_planinfo_teacher(&mut self, input: &str, teacher: &str, verbose: u8)
        ensures
            final(self)@ == old(self)@.with_teacher_cell(input@, teacher@),
    {
        let cell = chars_of(input);
        let c = trimmed(&cell);
        let who = chars_of(teacher);
        self.teacher.name = string_of(&who);
        self.is_tutor = false;
        if c.len() == 0 {
            return;
        }
        if is_activity(&c) {
            self.course = Course::Sec1 { name: string_of(&c) };
            return;
        }
        let w = split_words(&c);
        assert(views(w@).len() == w@.len());
        if w.len() != 3 {
            return;
        }
        assert(views(w@)[0] == w@[0]@);
        assert(views(w@)[1] == w@[1]@);
        assert(views(w@)[2] == w@[2]@);
        if '1' <= c[0] && c[0] <= '8' {
            let name = swap_words(&w);
            self.course = Course::Sec1 { name: string_of(&name) };
        } else {
            self.course = Course::from_planinfo_teacher_chars(&w[0], &w[1]);
        }
        let code = trimmed(&w[2]);
        self.room = Room::from_chars(&code);
    }

    /// Writes a cell of a room's timetable to this slot. `room` is the
    /// table's name and `verbose` the caller's diagnostic level; neither has
    /// an influence on the result.
    pub fn parse_planinfo_room(&mut self, input: &str, room: &str, verbose: u8)
        ensures
            final(self)@ == old(self)@.with_room_cell(input@),
    {
        let cell = chars_of(input);
        let c = trimmed(&cell);
        self.is_tutor = false;
        if is_activity(&c) {
            self.course = Course::Sec1 { name: string_of(&c) };
            return;
        }
        self.room = Room::from_chars(&c);
        let w = split_words(&c);
        assert(views(w@).len() == w@.len());
        if w.len() != 3 {
            return;
        }
        assert(views(w@)[0] == w@[0]@);
        assert(views(w@)[1] == w@[1]@);
        if c.len() > 0 && '1' <= c[0] && c[0] <= '8' {
            let name = swap_words(&w);
            self.course = Course::Sec1 { name: string_of(&name) };
        } else {
            self.course = Course::from_planinfo_room_chars(&w[0], &w[1]);
        }
    }

    /// Writes a cell of a student's timetable to this slot. `course_string`
    /// is the course text of the table's header; `verbose` is the caller's
    /// diagnostic level and has no influence on the result.
    pub fn parse_planinfo_student(&mut self, input: &str, course_string: &str, verbose: u8)
        ensures
            final(self)@ == old(self)@.with_student_cell(input@, course_string@),
    {
        let cell = chars_of(input);
        let c = trimmed(&cell);
        let all = chars_of(course_string);
        let courses = trimmed(&all);
        let w = split_words(&c);
        assert(views(w@).len() == w@.len());
        if w.len() != 4 {
            return;
        }
        assert(views(w@)[0] == w@[0]@);
        assert(views(w@)[1] == w@[1]@);
        assert(views(w@)[2] == w@[2]@);
        assert(views(w@)[3] == w@[3]@);
        self.room = Room::from_chars(&w[3]);
        self.teacher.name = string_of(&w[2]);
        self.is_tutor = has(&courses, &w[2]);
        self.course = Course::from_planinfo_students_chars(&w[0], &w[1]);
    }
}

impl Hour {
    /// Says what there is to say of a cell of a teacher's timetable.
    pub fn diagnose_teacher_cell(cell: &Vec<char>) -> (r: Vec<Diagnostic>)
        ensures
            notes_view(r@) == teacher_cell_notes(cell@),
    {
        let c = trimmed(cell);
        if c.len() == 0 {
            return none();
        }
        if is_activity(&c) {
            return one(2, "hour.activity", &c);
        }
        let w = split_words(&c);
        assert(views(w@).len() == w@.len());
        if w.len() != 3 {
            return one(1, "hour.words", &c);
        }
        assert(views(w@)[2] == w@[2]@);
        Room::diagnose_chars(&trimmed(&w[2]))
    }

    /// Says what there is to say of a cell of a room's timetable.
    pub fn diagnose_room_cell(cell: &Vec<char>) -> (r: Vec<Diagnostic>)
        ensures
            notes_view(r@) == room_cell_notes(cell@),
    {
        let c = trimmed(cell);
        if is_activity(&c) {
            return one(1, "hour.activity", &c);
        }
        let mut notes = Room::diagnose_chars(&c);
        let w = split_words(&c);
        assert(views(w@).len() == w@.len());
        if w.len() != 3 {
            crate::diagnostic::gather(&mut notes, one(1, "hour.words", &c));
        }
        notes
    }

    /// Says what there is to say of a cell of a student's timetable.
    pub fn diagnose_student_cell(cell: &Vec<char>) -> (r: Vec<Diagnostic>)
        ensures
            notes_view(r@) == student_cell_notes(cell@),
    {
        let c = trimmed(cell);
        let w = split_words(&c);
        assert(views(w@).len() == w@.len());
        if w.len() != 4 {
            return one(1, "hour.words", &c);
        }
        assert(views(w@)[3] == w@[3]@);
        Room::diagnose_chars(&w[3])
    }
}

impl Default for Hour {
    fn default() -> (r: Self)
        ensures
            r@ == HourView::empty(),
    {
        Self::new()
    }
}

impl Clone for Hour {
    fn clone(&self) -> (r: Self)
        ensures
            r@ == self@,
    {
        Self {
            room: self.room,
            teacher: self.teacher.clone(),
            is_tutor: self.is_tutor,
            course: self.course.clone(),
        }
    }
}

} // verus!
