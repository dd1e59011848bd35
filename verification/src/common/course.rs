//! Courses and course kinds, and the four cell grammars that denote them.

use crate::text::{
    contains, find_from, is_digit, last_digit_value, matches_at,
    parse_i16_or_zero, split, split_from, starts_with, lowercase, to_ascii_uppercase,
    trim, trim_matches, views, Strip,
};
use crate::diagnostic::{no_notes, none, note, notes_view, one, Diagnostic, DiagnosticView};
use crate::text::{lemma_find_skip, lemma_matches_char, lemma_parse_digit, lemma_strip_fixed};
use crate::text::{
    begins_with, chars_of, has, joined, last_digit, lower, pieces, string_of, subrange,
    to_i16_or_zero, trimmed, trimmed_matches, upper,
};
use vstd::prelude::*;

verus! {

/// The level of an upper-secondary course, with its track number.
#[derive(Debug, Clone, Copy, PartialEq, Eq, Structural)]
pub enum CourseKind {
    Absent,
    GK { number: i16 },
    LK { number: i16 },
}

impl CourseKind {
    /// The kind that a code of the substitution plan denotes: after trimming,
    /// three or four characters, of which the first two are `GK` or `LK` and
    /// the rest is the track number, read as 0 where it is no number.
    pub open spec fn of_dsb(code: Seq<char>) -> CourseKind {
        let k = trim(code);
        if k.len() != 3 && k.len() != 4 {
            CourseKind::Absent
        } else {
            let number = parse_i16_or_zero(k.subrange(2, k.len() as int));
            if starts_with(k, "GK"@) {
                CourseKind::GK { number }
            } else if starts_with(k, "LK"@) {
                CourseKind::LK { number }
            } else {
                CourseKind::Absent
            }
        }
    }

    /// The kind that a trimmed course name of the weekly timetable denotes,
    /// given the name in lower case: absent for an empty name; otherwise the
    /// track is the digit value of the name's last character, and the level
    /// is advanced where the lower-case form holds `lk`, basic where it does
    /// not.
    pub open spec fn of_folded(c: Seq<char>, folded: Seq<char>) -> CourseKind {
        if c.len() == 0 {
            CourseKind::Absent
        } else {
            let number = last_digit_value(c);
            if contains(folded, "lk"@) {
                CourseKind::LK { number }
            } else {
                CourseKind::GK { number }
            }
        }
    }

    /// The kind that a course name of the weekly timetable denotes: absent for
    /// a blank name; otherwise the track is the digit value of the last
    /// character, and the level is advanced where the name holds `lk` in
    /// any case, basic where it does not.
    pub open spec fn of_planinfo(name: Seq<char>) -> CourseKind {
        CourseKind::of_folded(trim(name), lowercase(trim(name)))
    }

    /// What there is to say of a kind code of the substitution plan: that,
    /// trimmed and not empty, it has not three or four characters, or that it
    /// begins with neither `GK` nor `LK`.
    pub open spec fn dsb_notes(code: Seq<char>) -> Seq<DiagnosticView> {
        let k = trim(code);
        if k.len() == 0 {
            no_notes()
        } else if k.len() != 3 && k.len() != 4 {
            note(1, "kind.length"@, k)
        } else if !starts_with(k, "GK"@) && !starts_with(k, "LK"@) {
            note(1, "kind.level"@, k)
        } else {
            no_notes()
        }
    }

    /// Says what there is to say of a kind code of the substitution plan.
    pub fn diagnose_dsb(code: &Vec<char>) -> (r: Vec<Diagnostic>)
        ensures
            notes_view(r@) == CourseKind::dsb_notes(code@),
    {
        let k = trimmed(code);
        if k.len() == 0 {
            none()
        } else if k.len() != 3 && k.len() != 4 {
            one(1, "kind.length", &k)
        } else if !begins_with(&k, &chars_of("GK")) && !begins_with(&k, &chars_of("LK")) {
            one(1, "kind.level", &k)
        } else {
            none()
        }
    }

    /// The absent kind.
    pub fn new() -> (r: Self)
        ensures
            r == CourseKind::Absent,
    {
        CourseKind::Absent
    }

    /// Decodes a kind code of the substitution plan. `verbose` is the
    /// caller's diagnostic level; it has no influence on the result.
    pub fn from_dsb_str(kind: &str, verbose: u8) -> (r: Self)
        ensures
            r == CourseKind::of_dsb(kind@),
    {
        let code = chars_of(kind);
        CourseKind::from_dsb_chars(&code)
    }

    /// Decodes a kind code of the substitution plan given as characters.
    pub fn from_dsb_chars(code: &Vec<char>) -> (r: Self)
        ensures
            r == CourseKind::of_dsb(code@),
    {
        let k = trimmed(code);
        if k.len() != 3 && k.len() != 4 {
            return CourseKind::Absent;
        }
        let digits = subrange(&k, 2, k.len());
        let number = to_i16_or_zero(&digits);
        let gk = chars_of("GK");
        let lk = chars_of("LK");
        if begins_with(&k, &gk) {
            CourseKind::GK { number }
        } else if begins_with(&k, &lk) {
            CourseKind::LK { number }
        } else {
            CourseKind::Absent
        }
    }

    /// Decodes the kind from a course name of the weekly timetable.
    pub fn from_planinfo_teacher_str(course: &str) -> (r: Self)
        ensures
            r == CourseKind::of_planinfo(course@),
    {
        let name = chars_of(course);
        CourseKind::from_planinfo_chars(&name)
    }

    /// Decodes the kind from a course name given as characters.
    pub fn from_planinfo_chars(name: &Vec<char>) -> (r: Self)
        ensures
            r == CourseKind::of_planinfo(name@),
    {
        let c = trimmed(name);
        let folded = lower(&c);
        CourseKind::from_folded(&c, &folded)
    }

    /// Decodes the kind from a trimmed course name and its lower-case form.
    pub fn from_folded(c: &Vec<char>, folded: &Vec<char>) -> (r: Self)
        ensures
            r == CourseKind::of_folded(c@, folded@),
    {
        if c.len() == 0 {
            return CourseKind::Absent;
        }
        let number = last_digit(c);
        if has(folded, &chars_of("lk")) {
            CourseKind::LK { number }
        } else {
            CourseKind::GK { number }
        }
    }
}

impl Default for CourseKind {
    fn default() -> (r: Self)
        ensures
            r == CourseKind::Absent,
    {
        CourseKind::Absent
    }
}

/// A course: lower secondary by name, upper secondary by track, subject and
/// kind, an examination of the upper secondary, or none.
#[derive(Debug, PartialEq, Eq)]
pub enum Course {
    Absent,
    Sec1 { name: String },
    Sec2 { track: i16, name: String, kind: CourseKind },
    Sec2Exam { track: i16, name: String, kind: CourseKind },
}

/// The mathematical value of a [`Course`].
pub enum CourseView {
    Absent,
    Sec1 { name: Seq<char> },
    Sec2 { track: i16, name: Seq<char>, kind: CourseKind },
    Sec2Exam { track: i16, name: Seq<char>, kind: CourseKind },
}

impl View for Course {
    type V = CourseView;

    open spec fn view(&self) -> CourseView {
        match self {
            Course::Absent => CourseView::Absent,
            Course::Sec1 { name } => CourseView::Sec1 { name: name@ },
            Course::Sec2 { track, name, kind } => CourseView::Sec2 {
                track: *track,
                name: name@,
                kind: *kind,
            },
            Course::Sec2Exam { track, name, kind } => CourseView::Sec2Exam {
                track: *track,
                name: name@,
                kind: *kind,
            },
        }
    }
}

/// Whether a class token begins with one of the digits 1 to 8, which marks
/// the lower secondary.
pub open spec fn lower_secondary(class: Seq<char>) -> bool {
    class.len() > 0 && '1' <= class[0] && class[0] <= '8'
}

/// Whether a class token names an examination, given the token in lower
/// case: it holds `klausur`.
pub open spec fn is_exam(folded: Seq<char>) -> bool {
    contains(folded, "klausur"@)
}

/// Whether a class token names an examination: it holds `klausur` in any
/// case.
pub open spec fn names_exam(class: Seq<char>) -> bool {
    is_exam(lowercase(class))
}

/// The first piece of `s` when cut at hyphens.
pub open spec fn before_hyphen(s: Seq<char>) -> Seq<char> {
    split(s, "-"@)[0]
}

impl CourseView {
    /// The course that a class token and a course text of the substitution
    /// plan denote, given the class token in lower case.
    ///
    /// An empty course text denotes none. An examination class denotes an
    /// examination with empty name, track 0 and basic level 0, whatever the
    /// course text holds. A lower-secondary class denotes the course text,
    /// as it stands, by name. Otherwise the text must consist of two pieces
    /// around one hyphen: the subject, taken in upper case, and the kind
    /// code; any other number of pieces denotes none.
    pub open spec fn of_folded(folded: Seq<char>, class: Seq<char>, c: Seq<char>) -> CourseView {
        if c.len() == 0 {
            CourseView::Absent
        } else if is_exam(folded) {
            CourseView::Sec2Exam {
                track: 0,
                name: Seq::empty(),
                kind: CourseKind::GK { number: 0 },
            }
        } else if lower_secondary(class) {
            CourseView::Sec1 { name: c }
        } else {
            let parts = split(c, "-"@);
            if parts.len() != 2 {
                CourseView::Absent
            } else {
                CourseView::Sec2 {
                    track: 0,
                    name: to_ascii_uppercase(parts[0]),
                    kind: CourseKind::of_dsb(parts[1]),
                }
            }
        }
    }

    /// The course that a class token and a course text of the substitution
    /// plan denote: see [`CourseView::of_folded`]. A class names an
    /// examination where it holds `klausur` in any case.
    pub open spec fn of_dsb(class: Seq<char>, course: Seq<char>) -> CourseView {
        CourseView::of_folded(lowercase(class), class, course)
    }

    /// What there is to say of a class token and a course text of the
    /// substitution plan, given the class token in lower case: that the
    /// class names an examination, whose course is not read, that an
    /// upper-secondary text does not consist of two pieces, or what there is
    /// to say of its kind code.
    pub open spec fn notes_folded(folded: Seq<char>, class: Seq<char>, c: Seq<char>) -> Seq<
        DiagnosticView,
    > {
        if c.len() == 0 {
            no_notes()
        } else if is_exam(folded) {
            note(1, "course.exam"@, c)
        } else if lower_secondary(class) {
            no_notes()
        } else {
            let parts = split(c, "-"@);
            if parts.len() != 2 {
                note(1, "course.pieces"@, c)
            } else {
                CourseKind::dsb_notes(parts[1])
            }
        }
    }

    /// What there is to say of a class token and a course text of the
    /// substitution plan: see [`CourseView::notes_folded`].
    pub open spec fn dsb_notes(class: Seq<char>, course: Seq<char>) -> Seq<DiagnosticView> {
        CourseView::notes_folded(lowercase(class), class, course)
    }

    /// The subject name in a cell of a teacher's or a room's timetable: the
    /// part of the subject text before its first hyphen, a space, and the
    /// part of the class text before its first hyphen.
    pub open spec fn planinfo_name(course: Seq<char>, namein: Seq<char>) -> Seq<char> {
        before_hyphen(trim(namein)) + " "@ + before_hyphen(trim(course))
    }

    /// The course in a cell of a teacher's timetable: the track is the digit
    /// value of the last character of the class text.
    pub open spec fn of_planinfo_teacher(course: Seq<char>, namein: Seq<char>) -> CourseView {
        CourseView::Sec2 {
            track: last_digit_value(trim(course)),
            name: CourseView::planinfo_name(course, namein),
            kind: CourseKind::of_planinfo(namein),
        }
    }

    /// The course in a cell of a room's timetable: as in a teacher's, with
    /// track 0.
    pub open spec fn of_planinfo_room(course: Seq<char>, namein: Seq<char>) -> CourseView {
        CourseView::Sec2 {
            track: 0,
            name: CourseView::planinfo_name(course, namein),
            kind: CourseKind::of_planinfo(namein),
        }
    }

    /// The course in a cell of a student's timetable: the class text loses
    /// its enclosing parentheses, the track is the digit value of what is
    /// left, and the name is the subject text before its first hyphen.
    pub open spec fn of_planinfo_students(course: Seq<char>, namein: Seq<char>) -> CourseView {
        CourseView::Sec2 {
            track: last_digit_value(trim_matches(trim_matches(trim(course), '('), ')')),
            name: before_hyphen(trim(namein)),
            kind: CourseKind::of_planinfo(namein),
        }
    }
}

/// The first piece of `v` when cut at hyphens.
pub fn first_piece(v: &Vec<char>) -> (r: Vec<char>)
    ensures
        r@ == before_hyphen(v@),
{
    let hyphen = chars_of("-");
    let parts = pieces(v, &hyphen);
    assert(views(parts@)[0] == parts@[0]@);
    subrange(&parts[0], 0, parts[0].len())
}

impl Course {
    /// No course.
    pub fn new() -> (r: Self)
        ensures
            r@ == CourseView::Absent,
    {
        Course::Absent
    }

    /// Decodes a course of the substitution plan from the class token and
    /// the course text of one row. `verbose` is the caller's diagnostic
    /// level; it has no influence on the result.
    pub fn from_dsb_str(class: &str, course: &str, verbose: u8) -> (r: Self)
        ensures
            r@ == CourseView::of_dsb(class@, course@),
    {
        let class_chars = chars_of(class);
        let course_chars = chars_of(course);
        Course::from_dsb_chars(&class_chars, &course_chars)
    }

    /// Decodes a course of the substitution plan given as characters.
    pub fn from_dsb_chars(class: &Vec<char>, course: &Vec<char>) -> (r: Self)
        ensures
            r@ == CourseView::of_dsb(class@, course@),
    {
        let folded = lower(class);
        Course::from_dsb_folded(&folded, class, course)
    }

    /// Decodes a course of the substitution plan from the class token in
    /// lower case, the class token and the course text.
    pub fn from_dsb_folded(folded: &Vec<char>, class: &Vec<char>, c: &Vec<char>) -> (r: Self)
        ensures
            r@ == CourseView::of_folded(folded@, class@, c@),
    {
        if c.len() == 0 {
            return Course::Absent;
        }
        let exam = chars_of("klausur");
        if has(folded, &exam) {
            return Course::Sec2Exam {
                track: 0,
                name: String::new(),
                kind: CourseKind::GK { number: 0 },
            };
        }
        if class.len() > 0 && '1' <= class[0] && class[0] <= '8' {
            return Course::Sec1 { name: string_of(c) };
        }
        let hyphen = chars_of("-");
        let parts = pieces(c, &hyphen);
        if parts.len() != 2 {
            assert(views(parts@).len() == parts@.len());
            return Course::Absent;
        }
        assert(views(parts@)[0] == parts@[0]@);
        assert(views(parts@)[1] == parts@[1]@);
        let name = upper(&parts[0]);
        let kind = CourseKind::from_dsb_chars(&parts[1]);
        Course::Sec2 { track: 0, name: string_of(&name), kind }
    }

    /// Says what there is to say of a class token and a course text of the
    /// substitution plan.
    pub fn diagnose_dsb(class: &str, course: &str) -> (r: Vec<Diagnostic>)
        ensures
            notes_view(r@) == CourseView::dsb_notes(class@, course@),
    {
        Course::diagnose_dsb_chars(&chars_of(class), &chars_of(course))
    }

    /// As [`Course::diagnose_dsb`], on characters.
    pub fn diagnose_dsb_chars(class: &Vec<char>, course: &Vec<char>) -> (r: Vec<Diagnostic>)
        ensures
            notes_view(r@) == CourseView::dsb_notes(class@, course@),
    {
        let folded = lower(class);
        Course::diagnose_dsb_folded(&folded, class, course)
    }

    /// Says what there is to say of a class token and a course text, given
    /// the class token in lower case.
    pub fn diagnose_dsb_folded(folded: &Vec<char>, class: &Vec<char>, c: &Vec<char>) -> (r: Vec<
        Diagnostic,
    >)
        ensures
            notes_view(r@) == CourseView::notes_folded(folded@, class@, c@),
    {
        if c.len() == 0 {
            return none();
        }
        if has(folded, &chars_of("klausur")) {
            return one(1, "course.exam", c);
        }
        if class.len() > 0 && '1' <= class[0] && class[0] <= '8' {
            return none();
        }
        let parts = pieces(c, &chars_of("-"));
        assert(views(parts@).len() == parts@.len());
        if parts.len() != 2 {
            return one(1, "course.pieces", c);
        }
        assert(views(parts@)[1] == parts@[1]@);
        CourseKind::diagnose_dsb(&parts[1])
    }

    fn planinfo_name(course: &Vec<char>, namein: &Vec<char>) -> (r: Vec<char>)
        ensures
            r@ == CourseView::planinfo_name(course@, namein@),
    {
        let c = trimmed(course);
        let n = trimmed(namein);
        let subject = first_piece(&n);
        let class = first_piece(&c);
        let space = chars_of(" ");
        let head = joined(&subject, &space);
        joined(&head, &class)
    }

    /// Decodes the course in a cell of a teacher's timetable from the class
    /// text and the subject text.
    pub fn from_planinfo_teacher_str(course: &str, namein: &str) -> (r: Self)
        ensures
            r@ == CourseView::of_planinfo_teacher(course@, namein@),
    {
        let c = chars_of(course);
        let n = chars_of(namein);
        Course::from_planinfo_teacher_chars(&c, &n)
    }

    /// As [`Course::from_planinfo_teacher_str`], on characters.
    pub fn from_planinfo_teacher_chars(course: &Vec<char>, namein: &Vec<char>) -> (r: Self)
        ensures
            r@ == CourseView::of_planinfo_teacher(course@, namein@),
    {
        let c = trimmed(course);
        let kind = CourseKind::from_planinfo_chars(namein);
        let track = last_digit(&c);
        let name = Course::planinfo_name(course, namein);
        Course::Sec2 { track, name: string_of(&name), kind }
    }

    /// Decodes the course in a cell of a room's timetable from the class
    /// text and the subject text.
    pub fn from_planinfo_room_str(course: &str, namein: &str) -> (r: Self)
        ensures
            r@ == CourseView::of_planinfo_room(course@, namein@),
    {
        let c = chars_of(course);
        let n = chars_of(namein);
        Course::from_planinfo_room_chars(&c, &n)
    }

    /// As [`Course::from_planinfo_room_str`], on characters.
    pub fn from_planinfo_room_chars(course: &Vec<char>, namein: &Vec<char>) -> (r: Self)
        ensures
            r@ == CourseView::of_planinfo_room(course@, namein@),
    {
        let kind = CourseKind::from_planinfo_chars(namein);
        let name = Course::planinfo_name(course, namein);
        Course::Sec2 { track: 0, name: string_of(&name), kind }
    }

    /// Decodes the course in a cell of a student's timetable from the class
    /// text and the subject text.
    pub fn from_planinfo_students_str(course: &str, namein: &str) -> (r: Self)
        ensures
            r@ == CourseView::of_planinfo_students(course@, namein@),
    {
        let c = chars_of(course);
        let n = chars_of(namein);
        Course::from_planinfo_students_chars(&c, &n)
    }

    /// As [`Course::from_planinfo_students_str`], on characters.
    pub fn from_planinfo_students_chars(course: &Vec<char>, namein: &Vec<char>) -> (r: Self)
        ensures
            r@ == CourseView::of_planinfo_students(course@, namein@),
    {
        let c = trimmed(course);
        let n = trimmed(namein);
        let kind = CourseKind::from_planinfo_chars(namein);
        let open = trimmed_matches(&c, '(');
        let inner = trimmed_matches(&open, ')');
        let track = last_digit(&inner);
        let name = first_piece(&n);
        Course::Sec2 { track, name: string_of(&name), kind }
    }
}

impl Default for Course {
    fn default() -> (r: Self)
        ensures
            r@ == CourseView::Absent,
    {
        Course::Absent
    }
}

impl Clone for Course {
    fn clone(&self) -> (r: Self)
        ensures
            r@ == self@,
    {
        match self {
            Course::Absent => Course::Absent,
            Course::Sec1 { name } => Course::Sec1 { name: name.clone() },
            Course::Sec2 { track, name, kind } => Course::Sec2 {
                track: *track,
                name: name.clone(),
                kind: *kind,
            },
            Course::Sec2Exam { track, name, kind } => Course::Sec2Exam {
                track: *track,
                name: name.clone(),
                kind: *kind,
            },
        }
    }
}

/// In a class of the lower secondary that is no examination, a course text
/// that is not empty denotes the lower-secondary course named by the text
/// as it stands, whatever the text holds.
pub proof fn lemma_lower_secondary_course(class: Seq<char>, course: Seq<char>)
    requires
        lower_secondary(class),
        !names_exam(class),
        course.len() > 0,
    ensures
        CourseView::of_dsb(class, course) == (CourseView::Sec1 { name: course }),
{
}

/// In a class whose token begins with `9` and is no examination, a course
/// text made of a subject, a hyphen, `GK` and one digit denotes the basic
/// course of that subject in upper case, with track 0 and the digit as its
/// number. The subject holds no hyphen.
pub proof fn lemma_upper_secondary_course(class: Seq<char>, subject: Seq<char>, digit: char)
    requires
        class.len() > 0,
        class[0] == '9',
        !names_exam(class),
        is_digit(digit),
        forall|i: int| 0 <= i < subject.len() ==> subject[i] != '-',
    ensures
        CourseView::of_dsb(class, subject + "-GK"@ + seq![digit]) == (CourseView::Sec2 {
            track: 0,
            name: to_ascii_uppercase(subject),
            kind: CourseKind::GK { number: (digit as int - 48) as i16 },
        }),
{
    reveal_strlit("-GK");
    reveal_strlit("-");
    reveal_strlit("GK");
    reveal_strlit("LK");
    let course = subject + "-GK"@ + seq![digit];
    let n = subject.len() as int;
    let hyphen = "-"@;
    assert(hyphen =~= seq!['-']);
    assert(course.len() == n + 4);
    assert(course[n] == '-' && course[n + 1] == 'G' && course[n + 2] == 'K' && course[n + 3]
        == digit);
    // the only hyphen is the one after the subject
    assert forall|k: int| 0 <= k < n implies !matches_at(course, hyphen, k) by {
        lemma_matches_char(course, '-', k);
        assert(course[k] == subject[k]);
    }
    lemma_find_skip(course, hyphen, 0, n);
    lemma_matches_char(course, '-', n);
    assert(find_from(course, hyphen, n) == n);
    assert forall|k: int| n + 1 <= k < n + 4 implies !matches_at(course, hyphen, k) by {
        lemma_matches_char(course, '-', k);
    }
    lemma_find_skip(course, hyphen, n + 1, n + 4);
    assert(find_from(course, hyphen, n + 4) == -1);
    let rest = course.subrange(n + 1, n + 4);
    assert(split_from(course, hyphen, n + 1) =~= seq![rest]);
    assert(split_from(course, hyphen, 0) =~= seq![course.subrange(0, n)] + split_from(
        course,
        hyphen,
        n + 1,
    ));
    let parts = split(course, hyphen);
    assert(parts =~= seq![course.subrange(0, n), rest]);
    assert(parts[0] =~= subject);
    assert(rest =~= seq!['G', 'K', digit]);
    // the kind code
    lemma_strip_fixed(rest, Strip::Whitespace);
    assert(trim(rest) == rest);
    assert(rest.subrange(2, 3) =~= seq![digit]);
    lemma_parse_digit(digit);
    assert(rest.subrange(0, 2) =~= "GK"@);
    assert(starts_with(rest, "GK"@));
    assert(CourseKind::of_dsb(rest) == CourseKind::GK { number: (digit as int - 48) as i16 });
}

} // verus!
