//! The substitution plan: its day records, and the decoding of the portal's
//! documents into them.

pub mod fetch;
pub mod laws;
pub mod notes;
pub mod parse;
pub mod payload;

use crate::common::{Course, CourseView, Room, Teacher};
use crate::date::{Date, DateTime};
use crate::diagnostic::{no_notes, none, note, notes_view, one, Diagnostic, DiagnosticView};
use crate::text::{chars_of, contains, has, lower, lowercase};
use vstd::prelude::*;
use vstd::string::StringExecFns;

verus! {

/// Access to the portal of the substitution plan.
#[derive(Debug, PartialEq, Eq)]
pub struct Config {
    /// The user to sign in as.
    pub user_id: String,
    /// The user's password.
    pub password: String,
    /// The cookie that authenticates requests.
    pub cookie: String,
    /// The diagnostic level.
    pub verbose: u8,
    /// The address of the portal's data endpoint.
    pub url: String,
}

/// The mathematical value of a [`Config`].
pub struct ConfigView {
    pub user_id: Seq<char>,
    pub password: Seq<char>,
    pub cookie: Seq<char>,
    pub verbose: u8,
    pub url: Seq<char>,
}

impl View for Config {
    type V = ConfigView;

    open spec fn view(&self) -> ConfigView {
        ConfigView {
            user_id: self.user_id@,
            password: self.password@,
            cookie: self.cookie@,
            verbose: self.verbose,
            url: self.url@,
        }
    }
}

impl ConfigView {
    /// Access without credentials to the portal's public endpoint.
    pub open spec fn initial() -> ConfigView {
        ConfigView {
            user_id: Seq::empty(),
            password: Seq::empty(),
            cookie: Seq::empty(),
            verbose: 0,
            url: "https://www.dsbmobile.de/JsonHandlerWeb.ashx/GetData"@,
        }
    }
}

impl Config {
    /// Access without credentials to the portal's public endpoint.
    pub fn new() -> (c: Self)
        ensures
            c@ == ConfigView::initial(),
    {
        Self {
            user_id: String::new(),
            password: String::new(),
            cookie: String::new(),
            verbose: 0,
            url: String::from_str("https://www.dsbmobile.de/JsonHandlerWeb.ashx/GetData"),
        }
    }
}

impl Clone for Config {
    fn clone(&self) -> (c: Self)
        ensures
            c@ == self@,
    {
        Self {
            user_id: self.user_id.clone(),
            password: self.password.clone(),
            cookie: self.cookie.clone(),
            verbose: self.verbose,
            url: self.url.clone(),
        }
    }
}

/// The week of the two-week rotation.
#[derive(Debug, Clone, Copy, PartialEq, Eq, Structural)]
pub enum Week {
    A,
    B,
    NoWeek(char),
}

impl Week {
    /// The week that a letter names.
    pub open spec fn of_letter(c: char) -> Week {
        if c == 'A' {
            Week::A
        } else if c == 'B' {
            Week::B
        } else {
            Week::NoWeek(c)
        }
    }

    /// Reads the week from its letter.
    pub fn parse(input: char) -> (w: Self)
        ensures
            w == Week::of_letter(input),
    {
        if input == 'A' {
            Week::A
        } else if input == 'B' {
            Week::B
        } else {
            Week::NoWeek(input)
        }
    }
}

/// A school class, known by name.
#[derive(Debug, PartialEq, Eq)]
pub struct Class {
    pub name: String,
}

impl View for Class {
    type V = Seq<char>;

    open spec fn view(&self) -> Seq<char> {
        self.name@
    }
}

/// A range of lesson periods, both ends included.
#[derive(Debug, Clone, Copy, PartialEq, Eq, Structural)]
pub struct Duration {
    pub from: i16,
    pub to: i16,
}

impl Duration {
    /// The range from period 0 to period 0.
    pub fn new() -> (d: Self)
        ensures
            d == (Duration { from: 0, to: 0 }),
    {
        Self { from: 0, to: 0 }
    }
}

/// A stretch of time on one day, with the text that names it.
#[derive(Debug, PartialEq, Eq)]
pub struct Hour {
    pub string: String,
    pub start: DateTime,
    /// The length in seconds.
    pub duration: i64,
}

/// What a substitution does to a lesson.
#[derive(Debug, PartialEq, Eq)]
pub enum EntryKind {
    Unknow(String),
    Substitution,
    Dropped,
    Special,
    Changed,
    Room,
}

/// The mathematical value of an [`EntryKind`].
pub enum EntryKindView {
    Unknow(Seq<char>),
    Substitution,
    Dropped,
    Special,
    Changed,
    Room,
}

impl View for EntryKind {
    type V = EntryKindView;

    open spec fn view(&self) -> EntryKindView {
        match self {
            EntryKind::Unknow(text) => EntryKindView::Unknow(text@),
            EntryKind::Substitution => EntryKindView::Substitution,
            EntryKind::Dropped => EntryKindView::Dropped,
            EntryKind::Special => EntryKindView::Special,
            EntryKind::Changed => EntryKindView::Changed,
            EntryKind::Room => EntryKindView::Room,
        }
    }
}

impl EntryKindView {
    /// The kind that a cell text names, given the text in lower case. The
    /// lower-case form is searched for the keywords in this order: `vertr`
    /// for a substitution, `entf\u{e4}llt` for a dropped lesson, `sondereins`
    /// for a special assignment, `ge\u{e4}ndert` for a change, `betreuung` for
    /// a special assignment, `raum` for a change of room. A text with none
    /// of them is kept as an unknown kind.
    pub open spec fn of_folded(text: Seq<char>, t: Seq<char>) -> EntryKindView {
        if contains(t, "vertr"@) {
            EntryKindView::Substitution
        } else if contains(t, "entf\u{e4}llt"@) {
            EntryKindView::Dropped
        } else if contains(t, "sondereins"@) {
            EntryKindView::Special
        } else if contains(t, "ge\u{e4}ndert"@) {
            EntryKindView::Changed
        } else if contains(t, "betreuung"@) {
            EntryKindView::Special
        } else if contains(t, "raum"@) {
            EntryKindView::Room
        } else {
            EntryKindView::Unknow(text)
        }
    }

    /// The kind that a cell text names: the text is searched for the
    /// keywords without regard to case. See [`EntryKindView::of_folded`].
    pub open spec fn of_text(text: Seq<char>) -> EntryKindView {
        EntryKindView::of_folded(text, lowercase(text))
    }
}

impl EntryKindView {
    /// What there is to say of a kind text: that it names no kind.
    pub open spec fn notes(text: Seq<char>) -> Seq<DiagnosticView> {
        if EntryKindView::of_text(text) is Unknow {
            note(0, "entry.kind"@, text)
        } else {
            no_notes()
        }
    }
}

impl EntryKind {
    /// Says what there is to say of a kind text.
    pub fn diagnose(input: &str) -> (r: Vec<Diagnostic>)
        ensures
            notes_view(r@) == EntryKindView::notes(input@),
    {
        match EntryKind::parse_from_str(input) {
            EntryKind::Unknow(_) => one(0, "entry.kind", &chars_of(input)),
            _ => none(),
        }
    }

    /// The unknown kind without a text.
    pub fn new() -> (k: Self)
        ensures
            k@ == EntryKindView::Unknow(Seq::empty()),
    {
        EntryKind::Unknow(String::new())
    }

    /// Reads the kind from a cell text.
    pub fn parse_from_str(input: &str) -> (k: Self)
        ensures
            k@ == EntryKindView::of_text(input@),
    {
        let t = lower(&chars_of(input));
        EntryKind::from_folded(input, &t)
    }

    /// Reads the kind from a cell text and its lower-case form.
    pub fn from_folded(input: &str, t: &Vec<char>) -> (k: Self)
        ensures
            k@ == EntryKindView::of_folded(input@, t@),
    {
        if has(t, &chars_of("vertr")) {
            EntryKind::Substitution
        } else if has(t, &chars_of("entf\u{e4}llt")) {
            EntryKind::Dropped
        } else if has(t, &chars_of("sondereins")) {
            EntryKind::Special
        } else if has(t, &chars_of("ge\u{e4}ndert")) {
            EntryKind::Changed
        } else if has(t, &chars_of("betreuung")) {
            EntryKind::Special
        } else if has(t, &chars_of("raum")) {
            EntryKind::Room
        } else {
            EntryKind::Unknow(String::from_str(input))
        }
    }
}

/// One substitution: what happens to the lessons of a class.
#[derive(Debug, PartialEq, Eq)]
pub struct Entry {
    /// The class concerned.
    pub name: String,
    /// The course that takes place.
    pub course: Course,
    /// The course that was planned.
    pub old_course: Course,
    /// The periods concerned.
    pub time: Duration,
    /// Who teaches.
    pub new_teacher: Teacher,
    /// Who was to teach.
    pub old_teacher: Teacher,
    /// The remark on the substitution.
    pub message: String,
    /// What the substitution does.
    pub kind: EntryKind,
    /// Where the lesson takes place.
    pub room: Room,
}

/// The mathematical value of an [`Entry`].
pub struct EntryView {
    pub name: Seq<char>,
    pub course: CourseView,
    pub old_course: CourseView,
    pub time: Duration,
    pub new_teacher: Seq<char>,
    pub old_teacher: Seq<char>,
    pub message: Seq<char>,
    pub kind: EntryKindView,
    pub room: Room,
}

impl View for Entry {
    type V = EntryView;

    open spec fn view(&self) -> EntryView {
        EntryView {
            name: self.name@,
            course: self.course@,
            old_course: self.old_course@,
            time: self.time,
            new_teacher: self.new_teacher@,
            old_teacher: self.old_teacher@,
            message: self.message@,
            kind: self.kind@,
            room: self.room,
        }
    }
}

impl EntryView {
    /// The entry of the class `name` of which nothing else is known.
    pub open spec fn named(name: Seq<char>) -> EntryView {
        EntryView {
            name,
            course: CourseView::Absent,
            old_course: CourseView::Absent,
            time: Duration { from: 0, to: 0 },
            new_teacher: Seq::empty(),
            old_teacher: Seq::empty(),
            message: Seq::empty(),
            kind: EntryKindView::Unknow(Seq::empty()),
            room: Room::Unknown,
        }
    }
}

impl Entry {
    /// The entry of which nothing is known.
    pub fn new() -> (e: Self)
        ensures
            e@ == EntryView::named(Seq::empty()),
    {
        Self {
            name: String::new(),
            course: Course::new(),
            old_course: Course::new(),
            time: Duration::new(),
            new_teacher: Teacher::new(),
            old_teacher: Teacher::new(),
            message: String::new(),
            kind: EntryKind::new(),
            room: Room::Unknown,
        }
    }

    /// The entry of the class `name` of which nothing else is known.
    pub fn new_from_str(name: &str) -> (e: Self)
        ensures
            e@ == EntryView::named(name@),
    {
        let mut entry = Self::new();
        entry.name = String::from_str(name);
        entry
    }
}

/// The substitution plan of one day.
#[allow(non_snake_case)]
#[derive(Debug, PartialEq, Eq)]
pub struct DSB {
    /// The name of the school.
    pub school: String,
    /// The school year.
    pub year: String,
    /// The day from which the timetable is valid.
    pub valid_from: Date,
    /// When the plan was last changed.
    pub updated_at: DateTime,
    /// The day of the plan.
    pub date: Date,
    /// The week of the rotation.
    pub week: Week,
    /// Lessons that are free for everyone.
    pub FreeLessons: Option<String>,
    /// The teachers who are absent.
    pub missing_teachers: Vec<Teacher>,
    /// The rooms that cannot be used.
    pub blocked_rooms: Vec<Room>,
    /// The classes that the plan concerns.
    pub affected_classes: Vec<Class>,
    /// The substitutions, in the order of the plan.
    pub entries: Vec<Entry>,
}

/// The mathematical value of a [`DSB`].
pub struct DSBView {
    pub school: Seq<char>,
    pub year: Seq<char>,
    pub valid_from: Date,
    pub updated_at: DateTime,
    pub date: Date,
    pub week: Week,
    pub free_lessons: Option<Seq<char>>,
    pub missing_teachers: Seq<Seq<char>>,
    pub blocked_rooms: Seq<Room>,
    pub affected_classes: Seq<Seq<char>>,
    pub entries: Seq<EntryView>,
}

/// The names of a sequence of teachers.
pub open spec fn teacher_names(v: Seq<Teacher>) -> Seq<Seq<char>> {
    Seq::new(v.len(), |i: int| v[i]@)
}

/// The names of a sequence of classes.
pub open spec fn class_names(v: Seq<Class>) -> Seq<Seq<char>> {
    Seq::new(v.len(), |i: int| v[i]@)
}

/// The values of a sequence of entries.
pub open spec fn entry_views(v: Seq<Entry>) -> Seq<EntryView> {
    Seq::new(v.len(), |i: int| v[i]@)
}

/// The values of a sequence of day records.
pub open spec fn day_views(v: Seq<DSB>) -> Seq<DSBView> {
    Seq::new(v.len(), |i: int| v[i]@)
}

impl View for DSB {
    type V = DSBView;

    open spec fn view(&self) -> DSBView {
        DSBView {
            school: self.school@,
            year: self.year@,
            valid_from: self.valid_from,
            updated_at: self.updated_at,
            date: self.date,
            week: self.week,
            free_lessons: match self.FreeLessons {
                Some(s) => Some(s@),
                None => None,
            },
            missing_teachers: teacher_names(self.missing_teachers@),
            blocked_rooms: self.blocked_rooms@,
            affected_classes: class_names(self.affected_classes@),
            entries: entry_views(self.entries@),
        }
    }
}

impl DSBView {
    /// The day record of which nothing is known: all dates are 1 January
    /// 1970, the week is A, and there are no names and no entries.
    pub open spec fn empty() -> DSBView {
        DSBView {
            school: Seq::empty(),
            year: Seq::empty(),
            valid_from: Date::epoch(),
            updated_at: DateTime::epoch(),
            date: Date::epoch(),
            week: Week::A,
            free_lessons: None,
            missing_teachers: Seq::empty(),
            blocked_rooms: Seq::empty(),
            affected_classes: Seq::empty(),
            entries: Seq::empty(),
        }
    }
}

impl DSB {
    /// The day record of which nothing is known.
    pub fn new() -> (d: Self)
        ensures
            d@ == DSBView::empty(),
    {
        let d = Self {
            school: String::new(),
            year: String::new(),
            valid_from: Date::new(1970, 1, 1),
            updated_at: DateTime::new(Date::new(1970, 1, 1), 0, 0, 0),
            date: Date::new(1970, 1, 1),
            week: Week::A,
            FreeLessons: None,
            missing_teachers: Vec::new(),
            blocked_rooms: Vec::new(),
            affected_classes: Vec::new(),
            entries: Vec::new(),
        };
        assert(d@.missing_teachers =~= Seq::empty());
        assert(d@.affected_classes =~= Seq::empty());
        assert(d@.entries =~= Seq::empty());
        assert(d@.blocked_rooms =~= Seq::empty());
        d
    }
}

/// The escaped form of a string: see [`crate::text::escaped`].
pub fn escape_default(s: &str) -> (r: String)
    ensures
        r@ == crate::text::escaped(s@),
{
    crate::text::escape_default(s)
}

} // verus!
