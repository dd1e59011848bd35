//! Reading the day records out of the document tree of a substitution plan.
//!
//! The spec functions of this module say, for each part of the tree, what the
//! part contributes to a day record. A part that the document must have and
//! has not is an error that carries the dotted path of the part.

use crate::common::{Course, CourseView, Room, Teacher};
use crate::date::{date_of_text, minute_of_text, parse_date, parse_minute, Date, DateTime};
use crate::dom::{at2, at3, at4, child_at, has_mark, is_element, text_of, DomNode, DomView};
use crate::dsb::{
    class_names, day_views, entry_views, teacher_names, Class, Config, DSBView, Duration, Entry,
    EntryKind, EntryKindView, EntryView, Week, DSB,
};
use crate::error::{agrees, PlanError, PlanErrorView, Result};
use crate::text::{
    chars_of, char_code_digit_value, has, joined, lower, pieces, replaced,
    same, split_words, string_of, to_i16_or_zero, trimmed, trimmed_matches,
};
use crate::text::{
    code_digit_value, contains, lowercase, parse_i16_or_zero, replace, split,
    trim, trim_matches, views, words,
};
use vstd::prelude::*;

verus! {

/// The contents of a text node; the empty text for any other node.
pub open spec fn text_or_empty(n: DomView) -> Seq<char> {
    match text_of(n) {
        Some(t) => t,
        None => Seq::empty(),
    }
}

/// A cell text without the blanks and hyphens that surround it.
pub open spec fn unmarked(t: Seq<char>) -> Seq<char> {
    trim_matches(trim(t), '-')
}

/// The last of the pieces of `s` between single spaces.
pub open spec fn last_word(s: Seq<char>) -> Seq<char> {
    split(s, " "@).last()
}

/// The day from which the timetable is valid, read from the last word of a
/// header text; 1 January 1870 where that is no date.
pub open spec fn valid_from_of(t: Seq<char>) -> Date {
    Date::or_unread(date_of_text(last_word(trim(t))))
}

/// The time of the last change, read from the last two words of a header
/// text; the epoch where there are no two words or they are no time.
pub open spec fn updated_at_of(t: Seq<char>) -> DateTime {
    let p = split(trim(t), " "@);
    if p.len() < 2 {
        DateTime::epoch()
    } else {
        DateTime::or_epoch(minute_of_text(p[p.len() - 2] + " "@ + p[p.len() - 1]))
    }
}

/// The day record that the header table of a day begins: the school, the
/// school year, the day from which the timetable is valid and the time of the
/// last change, which stand in the children 0, 4, 6 and 8 of the node at
/// `1.0.5.1` below the table. A child that is no text leaves its field as in
/// the empty record.
pub open spec fn header_of(table: DomView) -> core::result::Result<DSBView, Seq<char>> {
    match at4(table, 1, 0, 5, 1) {
        None => Err("mon_head.1.0.5.1"@),
        Some(n) => if n.children.len() < 9 {
            Err("mon_head.1.0.5.1.8"@)
        } else {
            Ok(
                DSBView {
                    school: text_or_empty(n.children[0]),
                    year: match text_of(n.children[4]) {
                        Some(t) => last_word(t),
                        None => Seq::empty(),
                    },
                    valid_from: match text_of(n.children[6]) {
                        Some(t) => valid_from_of(t),
                        None => Date::epoch(),
                    },
                    updated_at: match text_of(n.children[8]) {
                        Some(t) => updated_at_of(t),
                        None => DateTime::epoch(),
                    },
                    ..DSBView::empty()
                },
            )
        },
    }
}

/// The day record after a title whose first word was read as the day
/// `date`: the record takes the day, and the week that the title's last
/// character names. An empty title and a title without a day are errors.
pub open spec fn dated(d: DSBView, info: Seq<char>, date: Option<Date>) -> core::result::Result<
    DSBView,
    Seq<char>,
> {
    if info.len() == 0 {
        Err("mon_title"@)
    } else {
        match date {
            None => Err("mon_title.date"@),
            Some(date) => Ok(
                DSBView { week: Week::of_letter(info.last()), date, ..d },
            ),
        }
    }
}

/// The day record after the title of a day has been read: the day is the
/// first word of the title, read as a date, and the week is named by the
/// title's last character. A title without a word, or whose first word is no
/// date, is an error.
pub open spec fn titled(d: DSBView, info: Seq<char>) -> core::result::Result<DSBView, Seq<char>> {
    let w = words(info);
    if info.len() == 0 || w.len() == 0 {
        Err("mon_title"@)
    } else {
        dated(d, info, date_of_text(w[0]))
    }
}

/// The names of the absent teachers in the text of an info row: of each piece
/// between comma and space, the first word.
pub open spec fn teachers_in(content: Seq<char>) -> Seq<Seq<char>> {
    let p = split(content, ", "@);
    Seq::new(p.len(), |i: int| split(trim(p[i]), " "@)[0])
}

/// The names of the classes in the text of an info row: the pieces between
/// comma and space, trimmed.
pub open spec fn classes_in(content: Seq<char>) -> Seq<Seq<char>> {
    let p = split(content, ", "@);
    Seq::new(p.len(), |i: int| trim(p[i]))
}

/// How reading a block has failed: the dotted path of the part that is
/// missing, and the day record as it stands at that point.
pub struct Halted {
    pub path: Seq<char>,
    pub day: DSBView,
}

/// How reading an entry grid has failed: the dotted path of the part that
/// is missing, and the entries as they stand at that point.
pub struct Stopped {
    pub path: Seq<char>,
    pub entries: Seq<EntryView>,
}

/// What the label of an info row announces.
#[derive(Debug, Clone, Copy, PartialEq, Eq, Structural)]
pub enum InfoLabel {
    /// The teachers who are absent.
    Teachers,
    /// The classes concerned.
    Classes,
    /// Something that the plan does not know.
    Other,
}

/// What a label announces, given the trimmed label in lower case:
/// `abwesende lehrer` the absent teachers, `betroffene klassen` the classes
/// concerned.
pub open spec fn label_of(folded: Seq<char>) -> InfoLabel {
    if folded == "abwesende lehrer"@ {
        InfoLabel::Teachers
    } else if folded == "betroffene klassen"@ {
        InfoLabel::Classes
    } else {
        InfoLabel::Other
    }
}

/// What the label cell of an info row announces: its text is trimmed and
/// read without regard to case.
pub open spec fn row_label(cell: DomView) -> InfoLabel {
    label_of(lowercase(trim(text_or_empty(cell))))
}

/// The day record after one row of the info table. A row of two cells whose
/// label is `abwesende lehrer` or `betroffene klassen`, in any case, adds the
/// names in its second cell to the absent teachers or to the classes
/// concerned. A row with another label, or with another number of cells,
/// adds nothing. A row of two cells of which one is empty is an error, and
/// leaves the record as it is.
pub open spec fn info_row(d: DSBView, row: DomView) -> core::result::Result<DSBView, Halted> {
    if row.children.len() != 2 {
        Ok(d)
    } else if at2(row, 0, 0) is None {
        Err(Halted { path: "info.row.0.0"@, day: d })
    } else if at2(row, 1, 0) is None {
        Err(Halted { path: "info.row.1.0"@, day: d })
    } else {
        let content = trim(text_or_empty(at2(row, 1, 0).unwrap()));
        match row_label(at2(row, 0, 0).unwrap()) {
            InfoLabel::Teachers => Ok(
                DSBView { missing_teachers: d.missing_teachers + teachers_in(content), ..d },
            ),
            InfoLabel::Classes => Ok(
                DSBView { affected_classes: d.affected_classes + classes_in(content), ..d },
            ),
            InfoLabel::Other => Ok(d),
        }
    }
}

/// Whether an info row has a label that the plan does not know, which is
/// worth a diagnostic.
pub open spec fn info_row_unknown(row: DomView) -> bool {
    row.children.len() == 2 && at2(row, 0, 0) is Some && row_label(at2(row, 0, 0).unwrap())
        == InfoLabel::Other
}

/// The day record after the first `n` rows of an info table.
pub open spec fn info_rows(d: DSBView, rows: Seq<DomView>, n: int) -> core::result::Result<
    DSBView,
    Halted,
>
    decreases n,
{
    if n <= 0 {
        Ok(d)
    } else {
        match info_rows(d, rows, n - 1) {
            Ok(s) => info_row(s, rows[n - 1]),
            Err(e) => Err(e),
        }
    }
}

/// The day record after the info table of a day: its rows are the children
/// of the table's child 1. Where a row fails, the rows before it have been
/// read.
pub open spec fn informed(d: DSBView, table: DomView) -> core::result::Result<DSBView, Halted> {
    match child_at(table, 1) {
        None => Err(Halted { path: "info.1"@, day: d }),
        Some(body) => info_rows(d, body.children, body.children.len() as int),
    }
}

/// Says what a label announces, given the trimmed label in lower case.
pub fn read_label(folded: &Vec<char>) -> (l: InfoLabel)
    ensures
        l == label_of(folded@),
{
    if same(folded, &chars_of("abwesende lehrer")) {
        InfoLabel::Teachers
    } else if same(folded, &chars_of("betroffene klassen")) {
        InfoLabel::Classes
    } else {
        InfoLabel::Other
    }
}

fn read_row_label(cell: &DomNode) -> (l: InfoLabel)
    ensures
        l == row_label(cell@),
{
    read_label(&lower(&trimmed(&text_or_nothing(cell))))
}

fn text_or_nothing(n: &DomNode) -> (r: Vec<char>)
    ensures
        r@ == text_or_empty(n@),
{
    match n.text() {
        Some(t) => t,
        None => Vec::new(),
    }
}

pub(crate) fn unmark(t: &Vec<char>) -> (r: Vec<char>)
    ensures
        r@ == unmarked(t@),
{
    let a = trimmed(t);
    trimmed_matches(&a, '-')
}

pub(crate) fn final_word(t: &Vec<char>) -> (r: Vec<char>)
    ensures
        r@ == last_word(t@),
{
    let space = chars_of(" ");
    let mut p = pieces(t, &space);
    assert(views(p@).last() == p@.last()@);
    let last = p.pop();
    last.unwrap()
}

fn read_valid_from(t: &Vec<char>) -> (r: Date)
    ensures
        r == valid_from_of(t@),
{
    let w = final_word(&trimmed(t));
    let s = string_of(&w);
    Date::read_or_unread(parse_date(s.as_str()))
}

fn read_updated_at(t: &Vec<char>) -> (r: DateTime)
    ensures
        r == updated_at_of(t@),
{
    let space = chars_of(" ");
    let p = pieces(&trimmed(t), &space);
    assert(views(p@).len() == p@.len());
    if p.len() < 2 {
        return DateTime::new(Date::new(1970, 1, 1), 0, 0, 0);
    }
    assert(views(p@)[p.len() - 2] == p@[p.len() - 2]@);
    assert(views(p@)[p.len() - 1] == p@[p.len() - 1]@);
    let head = joined(&p[p.len() - 2], &space);
    let both = joined(&head, &p[p.len() - 1]);
    let s = string_of(&both);
    DateTime::read_or_epoch(parse_minute(s.as_str()))
}

/// Pushing a teacher appends the name.
proof fn lemma_teacher_push(v: Seq<Teacher>, t: Teacher)
    ensures
        teacher_names(v.push(t)) == teacher_names(v).push(t@),
{
    assert(teacher_names(v.push(t)) =~= teacher_names(v).push(t@));
}

/// Pushing a class appends the name.
proof fn lemma_class_push(v: Seq<Class>, c: Class)
    ensures
        class_names(v.push(c)) == class_names(v).push(c@),
{
    assert(class_names(v.push(c)) =~= class_names(v).push(c@));
}

impl DSB {
    /// Begins a day record from the header table of a day.
    pub fn new_mon_head(handle: &DomNode) -> (r: Result<Self>)
        ensures
            agrees(r, header_of(handle@)),
    {
        let n = match handle.child4(1, 0, 5, 1) {
            Some(n) => n,
            None => {
                return Err(PlanError::missing("mon_head.1.0.5.1"));
            },
        };
        if n.count() < 9 {
            return Err(PlanError::missing("mon_head.1.0.5.1.8"));
        }
        let mut dsb = DSB::new();
        dsb.school = string_of(&text_or_nothing(n.nth(0)));
        match n.nth(4).text() {
            Some(t) => {
                dsb.year = string_of(&final_word(&t));
            },
            None => {},
        }
        match n.nth(6).text() {
            Some(t) => {
                dsb.valid_from = read_valid_from(&t);
            },
            None => {},
        }
        match n.nth(8).text() {
            Some(t) => {
                dsb.updated_at = read_updated_at(&t);
            },
            None => {},
        }
        Ok(dsb)
    }

    /// Reads the day and the week of the rotation from the title of a day.
    /// Where the title cannot be read the record is left as it was.
    pub fn parse_mon_title(&mut self, info: &str) -> (r: Result<()>)
        ensures
            match r {
                Ok(_) => titled(old(self)@, info@) == Ok::<DSBView, Seq<char>>(final(self)@),
                Err(e) => titled(old(self)@, info@) matches Err(p) && e@
                    == PlanErrorView::FieldNotExists(p) && final(self)@ == old(self)@,
            },
    {
        let text = chars_of(info);
        let w = split_words(&text);
        assert(views(w@).len() == w@.len());
        if text.len() == 0 || w.len() == 0 {
            return Err(PlanError::missing("mon_title"));
        }
        assert(views(w@)[0] == w@[0]@);
        let first = string_of(&w[0]);
        self.set_title(info, parse_date(first.as_str()))
    }

    /// Takes the day `date`, read from the first word of a title, and the
    /// week that the title's last character names. Where the title is empty
    /// or there is no day, the record is left as it was.
    pub fn set_title(&mut self, info: &str, date: Option<Date>) -> (r: Result<()>)
        ensures
            match r {
                Ok(_) => dated(old(self)@, info@, date) == Ok::<DSBView, Seq<char>>(final(self)@),
                Err(e) => dated(old(self)@, info@, date) matches Err(p) && e@
                    == PlanErrorView::FieldNotExists(p) && final(self)@ == old(self)@,
            },
    {
        let text = chars_of(info);
        if text.len() == 0 {
            return Err(PlanError::missing("mon_title"));
        }
        match date {
            None => Err(PlanError::missing("mon_title.date")),
            Some(date) => {
                self.week = Week::parse(text[text.len() - 1]);
                self.date = date;
                Ok(())
            },
        }
    }

    /// Says whether a row of the info table has a label that the plan does
    /// not know.
    pub fn info_row_is_unknown(row: &DomNode) -> (b: bool)
        ensures
            b == info_row_unknown(row@),
    {
        if row.count() != 2 {
            return false;
        }
        match row.child2(0, 0) {
            Some(key) => match read_row_label(key) {
                InfoLabel::Other => true,
                _ => false,
            },
            None => false,
        }
    }

    fn add_teachers(&mut self, content: &Vec<char>)
        ensures
            final(self)@ == (DSBView {
                missing_teachers: old(self)@.missing_teachers + teachers_in(content@),
                ..old(self)@
            }),
    {
        let comma = chars_of(", ");
        let space = chars_of(" ");
        let p = pieces(content, &comma);
        assert(views(p@).len() == p@.len());
        let mut i: usize = 0;
        assert(self@.missing_teachers =~= old(self)@.missing_teachers + teachers_in(
            content@,
        ).subrange(0, 0));
        while i < p.len()
            invariant
                i <= p.len(),
                views(p@) == split(content@, ", "@),
                space@ == " "@,
                self@ == (DSBView {
                    missing_teachers: old(self)@.missing_teachers + teachers_in(
                        content@,
                    ).subrange(0, i as int),
                    ..old(self)@
                }),
            decreases p.len() - i,
        {
            assert(views(p@)[i as int] == p@[i as int]@);
            let names = pieces(&trimmed(&p[i]), &space);
            assert(views(names@)[0] == names@[0]@);
            let teacher = Teacher { name: string_of(&names[0]) };
            proof {
                lemma_teacher_push(self.missing_teachers@, teacher);
                assert(teacher@ == teachers_in(content@)[i as int]);
                assert(teachers_in(content@).subrange(0, i + 1) =~= teachers_in(
                    content@,
                ).subrange(0, i as int).push(teacher@));
            }
            self.missing_teachers.push(teacher);
            assert(self@.missing_teachers =~= old(self)@.missing_teachers + teachers_in(
                content@,
            ).subrange(0, i + 1));
            i += 1;
        }
        assert(teachers_in(content@).subrange(0, p.len() as int) =~= teachers_in(content@));
    }

    fn add_classes(&mut self, content: &Vec<char>)
        ensures
            final(self)@ == (DSBView {
                affected_classes: old(self)@.affected_classes + classes_in(content@),
                ..old(self)@
            }),
    {
        let comma = chars_of(", ");
        let p = pieces(content, &comma);
        assert(views(p@).len() == p@.len());
        let mut i: usize = 0;
        assert(self@.affected_classes =~= old(self)@.affected_classes + classes_in(
            content@,
        ).subrange(0, 0));
        while i < p.len()
            invariant
                i <= p.len(),
                views(p@) == split(content@, ", "@),
                self@ == (DSBView {
                    affected_classes: old(self)@.affected_classes + classes_in(content@).subrange(
                        0,
                        i as int,
                    ),
                    ..old(self)@
                }),
            decreases p.len() - i,
        {
            assert(views(p@)[i as int] == p@[i as int]@);
            let class = Class { name: string_of(&trimmed(&p[i])) };
            proof {
                lemma_class_push(self.affected_classes@, class);
                assert(class@ == classes_in(content@)[i as int]);
                assert(classes_in(content@).subrange(0, i + 1) =~= classes_in(content@).subrange(
                    0,
                    i as int,
                ).push(class@));
            }
            self.affected_classes.push(class);
            assert(self@.affected_classes =~= old(self)@.affected_classes + classes_in(
                content@,
            ).subrange(0, i + 1));
            i += 1;
        }
        assert(classes_in(content@).subrange(0, p.len() as int) =~= classes_in(content@));
    }

    fn parse_info_row(&mut self, row: &DomNode) -> (r: Result<()>)
        ensures
            match r {
                Ok(_) => info_row(old(self)@, row@) == Ok::<DSBView, Halted>(final(self)@),
                Err(e) => info_row(old(self)@, row@) matches Err(h) && e@
                    == PlanErrorView::FieldNotExists(h.path) && h.day == final(self)@,
            },
    {
        if row.count() != 2 {
            return Ok(());
        }
        let key = match row.child2(0, 0) {
            Some(n) => n,
            None => {
                return Err(PlanError::missing("info.row.0.0"));
            },
        };
        let value = match row.child2(1, 0) {
            Some(n) => n,
            None => {
                return Err(PlanError::missing("info.row.1.0"));
            },
        };
        let content = trimmed(&text_or_nothing(value));
        match read_row_label(key) {
            InfoLabel::Teachers => {
                self.add_teachers(&content);
            },
            InfoLabel::Classes => {
                self.add_classes(&content);
            },
            InfoLabel::Other => {},
        }
        Ok(())
    }

    /// Reads the absent teachers and the classes concerned from the info
    /// table of a day.
    pub fn parse_info_table(&mut self, node: &DomNode) -> (r: Result<()>)
        ensures
            match r {
                Ok(_) => informed(old(self)@, node@) == Ok::<DSBView, Halted>(final(self)@),
                Err(e) => informed(old(self)@, node@) matches Err(h) && e@
                    == PlanErrorView::FieldNotExists(h.path) && h.day == final(self)@,
            },
    {
        let body = match node.child(1) {
            Some(b) => b,
            None => {
                return Err(PlanError::missing("info.1"));
            },
        };
        let mut i: usize = 0;
        while i < body.count()
            invariant
                i <= body@.children.len(),
                child_at(node@, 1) == Some(body@),
                info_rows(old(self)@, body@.children, i as int) == Ok::<DSBView, Halted>(self@),
            decreases body@.children.len() - i,
        {
            let ghost before = self@;
            match self.parse_info_row(body.nth(i)) {
                Ok(_) => {},
                Err(e) => {
                    proof {
                        assert(info_rows(old(self)@, body@.children, i + 1) == info_row(
                            before,
                            body@.children[i as int],
                        ));
                        lemma_info_rows_fail(
                            old(self)@,
                            body@.children,
                            i + 1,
                            body@.children.len() as int,
                        );
                    }
                    return Err(e);
                },
            }
            i += 1;
        }
        Ok(())
    }
}

/// Once a row has failed, the rows after it are not read.
pub proof fn lemma_info_rows_fail(d: DSBView, rows: Seq<DomView>, n: int, m: int)
    requires
        n <= m,
        info_rows(d, rows, n) is Err,
    ensures
        info_rows(d, rows, m) == info_rows(d, rows, n),
    decreases m - n,
{
    if n < m {
        lemma_info_rows_fail(d, rows, n, m - 1);
    }
}

/// The periods that a cell text names. A text with a hyphen is cut at
/// ` - `: the first piece is the first period and the second the last, each
/// read as 0 where it is no number or is missing. A text without a hyphen
/// names one period by the digit value of its first character; the empty
/// text names period 0.
pub open spec fn period_of(text: Seq<char>) -> Duration {
    if contains(text, "-"@) {
        let p = split(text, " - "@);
        Duration {
            from: parse_i16_or_zero(p[0]),
            to: if p.len() >= 2 {
                parse_i16_or_zero(p[1])
            } else {
                0
            },
        }
    } else if text.len() == 0 {
        Duration { from: 0, to: 0 }
    } else {
        Duration { from: code_digit_value(text[0]), to: code_digit_value(text[0]) }
    }
}

/// The room that a cell text names: none for a text that is blank once the
/// blanks and hyphens around it are taken away.
pub open spec fn room_of(text: Seq<char>) -> Room {
    if unmarked(text).len() == 0 {
        Room::Unknown
    } else {
        Room::of_code(unmarked(text))
    }
}

/// The entry that a row of eight cells begins for the class `name`. The
/// cells 1 to 7 hold the periods, the substitute, the course, the course
/// that was planned, the remark, the kind and the room, at the paths
/// `1.0.0`, `2.0.0`, `3.0`, `4.0`, `5.0`, `6.0` and `7.0.0` below the row. A
/// node that is no text leaves its field as in the empty entry.
pub open spec fn entry_of(name: Seq<char>, row: DomView) -> core::result::Result<
    EntryView,
    Seq<char>,
> {
    if at3(row, 1, 0, 0) is None {
        Err("row.1.0.0"@)
    } else if at3(row, 2, 0, 0) is None {
        Err("row.2.0.0"@)
    } else if at2(row, 3, 0) is None {
        Err("row.3.0"@)
    } else if at2(row, 4, 0) is None {
        Err("row.4.0"@)
    } else if at2(row, 5, 0) is None {
        Err("row.5.0"@)
    } else if at2(row, 6, 0) is None {
        Err("row.6.0"@)
    } else if at3(row, 7, 0, 0) is None {
        Err("row.7.0.0"@)
    } else {
        let e = EntryView::named(name);
        Ok(
            EntryView {
                name,
                time: match text_of(at3(row, 1, 0, 0).unwrap()) {
                    Some(t) => period_of(t),
                    None => e.time,
                },
                new_teacher: match text_of(at3(row, 2, 0, 0).unwrap()) {
                    Some(t) => unmarked(t),
                    None => e.new_teacher,
                },
                course: match text_of(at2(row, 3, 0).unwrap()) {
                    Some(t) => CourseView::of_dsb(name, unmarked(t)),
                    None => e.course,
                },
                old_course: match text_of(at2(row, 4, 0).unwrap()) {
                    Some(t) => CourseView::of_dsb(name, unmarked(t)),
                    None => e.old_course,
                },
                message: match text_of(at2(row, 5, 0).unwrap()) {
                    Some(t) => unmarked(t),
                    None => e.message,
                },
                kind: match text_of(at2(row, 6, 0).unwrap()) {
                    Some(t) => EntryKindView::of_text(unmarked(t)),
                    None => e.kind,
                },
                room: match text_of(at3(row, 7, 0, 0).unwrap()) {
                    Some(t) => room_of(t),
                    None => e.room,
                },
                old_teacher: e.old_teacher,
            },
        )
    }
}

/// Whether a row of the entry grid is the grid's heading: its first cell is
/// a text that holds `Klasse`.
pub open spec fn is_heading(row: DomView) -> bool {
    match at2(row, 0, 0) {
        Some(cell) => text_of(cell) is Some && contains(text_of(cell).unwrap(), "Klasse"@),
        None => false,
    }
}

/// Whether a row of the entry grid begins a new entry: its first cell is a
/// text other than a single space, and the row is not the heading.
pub open spec fn begins_entry(row: DomView) -> bool {
    match at2(row, 0, 0) {
        Some(cell) => text_of(cell) is Some && text_of(cell).unwrap() != " "@ && !is_heading(row),
        None => false,
    }
}

/// Whether a row of the entry grid continues the entry before it: it has
/// eight cells, of which the first is there, and it is neither the heading
/// nor the beginning of an entry.
pub open spec fn continues_entry(row: DomView) -> bool {
    row.children.len() == 8 && at2(row, 0, 0) is Some && !is_heading(row) && !begins_entry(row)
}

/// The entries with the remark `more` appended to the remark of the last.
pub open spec fn with_remark(es: Seq<EntryView>, more: Seq<char>) -> Seq<EntryView> {
    es.update(es.len() - 1, EntryView { message: es.last().message + more, ..es.last() })
}

/// The entries after one row of the grid. Only a row of eight cells counts.
/// The heading adds nothing. A row that begins an entry adds that entry. A
/// row that continues appends its remark to that of the last entry, if there
/// is an entry and the remark is a text. A row that fails leaves the
/// entries as they are.
pub open spec fn grid_row(es: Seq<EntryView>, row: DomView) -> core::result::Result<
    Seq<EntryView>,
    Stopped,
> {
    if row.children.len() != 8 {
        Ok(es)
    } else if at2(row, 0, 0) is None {
        Err(Stopped { path: "row.0.0"@, entries: es })
    } else if is_heading(row) {
        Ok(es)
    } else if begins_entry(row) {
        match entry_of(text_of(at2(row, 0, 0).unwrap()).unwrap(), row) {
            Ok(e) => Ok(es.push(e)),
            Err(p) => Err(Stopped { path: p, entries: es }),
        }
    } else if es.len() == 0 {
        Ok(es)
    } else {
        match at2(row, 5, 0) {
            None => Err(Stopped { path: "row.5.0"@, entries: es }),
            Some(m) => match text_of(m) {
                Some(t) => Ok(with_remark(es, unmarked(t))),
                None => Ok(es),
            },
        }
    }
}

/// The entries after the first `n` rows of the grid.
pub open spec fn grid_rows(es: Seq<EntryView>, rows: Seq<DomView>, n: int) -> core::result::Result<
    Seq<EntryView>,
    Stopped,
>
    decreases n,
{
    if n <= 0 {
        Ok(es)
    } else {
        match grid_rows(es, rows, n - 1) {
            Ok(s) => grid_row(s, rows[n - 1]),
            Err(e) => Err(e),
        }
    }
}

/// The day record after the block that follows the header table of a day. The
/// title is the node at `1.0`, read if it is a text; the info table is child
/// 3; the rows of the entry grid are the children of the node at `5.1.1`.
/// Where a part fails, the parts before it have been read.
pub open spec fn centered(d: DSBView, center: DomView) -> core::result::Result<DSBView, Halted> {
    if at2(center, 1, 0) is None {
        Err(Halted { path: "center.1.0"@, day: d })
    } else {
        let t = match text_of(at2(center, 1, 0).unwrap()) {
            Some(info) => titled(d, info),
            None => Ok(d),
        };
        match t {
            Err(p) => Err(Halted { path: p, day: d }),
            Ok(d1) => match child_at(center, 3) {
                None => Err(Halted { path: "center.3"@, day: d1 }),
                Some(info) => match informed(d1, info) {
                    Err(h) => Err(h),
                    Ok(d2) => match at3(center, 5, 1, 1) {
                        None => Err(Halted { path: "center.5.1.1"@, day: d2 }),
                        Some(grid) => match grid_rows(
                            d2.entries,
                            grid.children,
                            grid.children.len() as int,
                        ) {
                            Err(s) => Err(
                                Halted { path: s.path, day: DSBView { entries: s.entries, ..d2 } },
                            ),
                            Ok(es) => Ok(DSBView { entries: es, ..d2 }),
                        },
                    },
                },
            },
        }
    }
}

/// What has been read of a document: the day records that are complete, and
/// the record that a header table has begun and no block has completed yet.
pub struct Scan {
    pub days: Seq<DSBView>,
    pub pending: Option<DSBView>,
}

/// The value of a record that may have been begun.
pub open spec fn begun(p: Option<DSB>) -> Option<DSBView> {
    match p {
        Some(d) => Some(d@),
        None => None,
    }
}

/// What has been read after one child of the document's body. A table
/// marked `mon_head` begins a record, in place of one begun before. A
/// `center` element completes the record that has been begun, if there is
/// one. Anything else is passed over.
pub open spec fn body_item(s: Scan, w: DomView) -> core::result::Result<Scan, Seq<char>> {
    if is_element(w, "table"@) {
        if has_mark(w, "class"@, "mon_head"@) {
            match header_of(w) {
                Ok(h) => Ok(Scan { pending: Some(h), ..s }),
                Err(p) => Err(p),
            }
        } else {
            Ok(s)
        }
    } else if is_element(w, "center"@) && s.pending is Some {
        match centered(s.pending.unwrap(), w) {
            Ok(d) => Ok(Scan { days: s.days.push(d), pending: None }),
            Err(h) => Err(h.path),
        }
    } else {
        Ok(s)
    }
}

/// What has been read after the first `n` children of a body.
pub open spec fn body_items(s: Scan, items: Seq<DomView>, n: int) -> core::result::Result<
    Scan,
    Seq<char>,
>
    decreases n,
{
    if n <= 0 {
        Ok(s)
    } else {
        match body_items(s, items, n - 1) {
            Ok(t) => body_item(t, items[n - 1]),
            Err(e) => Err(e),
        }
    }
}

/// The complete day records after one child of the root element: a `body`
/// element adds the records that its children complete.
pub open spec fn root_item(days: Seq<DSBView>, v: DomView) -> core::result::Result<
    Seq<DSBView>,
    Seq<char>,
> {
    if is_element(v, "body"@) {
        match body_items(Scan { days, pending: None }, v.children, v.children.len() as int) {
            Ok(s) => Ok(s.days),
            Err(p) => Err(p),
        }
    } else {
        Ok(days)
    }
}

/// The complete day records after the first `n` children of the root
/// element.
pub open spec fn root_items(days: Seq<DSBView>, items: Seq<DomView>, n: int) -> core::result::Result<
    Seq<DSBView>,
    Seq<char>,
>
    decreases n,
{
    if n <= 0 {
        Ok(days)
    } else {
        match root_items(days, items, n - 1) {
            Ok(t) => root_item(t, items[n - 1]),
            Err(e) => Err(e),
        }
    }
}

/// The day records of a document: those that the bodies below the
/// document's first child complete, in document order.
pub open spec fn days_of(doc: DomView) -> core::result::Result<Seq<DSBView>, Seq<char>> {
    match child_at(doc, 0) {
        None => Err("document.0"@),
        Some(root) => root_items(Seq::empty(), root.children, root.children.len() as int),
    }
}

/// The text of a document as it is handed to the HTML parser: with a space
/// in place of each entity of the non-breaking space.
pub open spec fn normalized(html: Seq<char>) -> Seq<char> {
    replace(html, "&nbsp;"@, " "@)
}

/// Once a row has failed, the rows after it are not read.
pub proof fn lemma_grid_rows_fail(es: Seq<EntryView>, rows: Seq<DomView>, n: int, m: int)
    requires
        n <= m,
        grid_rows(es, rows, n) is Err,
    ensures
        grid_rows(es, rows, m) == grid_rows(es, rows, n),
    decreases m - n,
{
    if n < m {
        lemma_grid_rows_fail(es, rows, n, m - 1);
    }
}

/// Once a child of the body has failed, those after it are not read.
pub proof fn lemma_body_items_fail(s: Scan, items: Seq<DomView>, n: int, m: int)
    requires
        n <= m,
        body_items(s, items, n) is Err,
    ensures
        body_items(s, items, m) == body_items(s, items, n),
    decreases m - n,
{
    if n < m {
        lemma_body_items_fail(s, items, n, m - 1);
    }
}

/// Once a child of the root element has failed, those after it are not read.
pub proof fn lemma_root_items_fail(days: Seq<DSBView>, items: Seq<DomView>, n: int, m: int)
    requires
        n <= m,
        root_items(days, items, n) is Err,
    ensures
        root_items(days, items, m) == root_items(days, items, n),
    decreases m - n,
{
    if n < m {
        lemma_root_items_fail(days, items, n, m - 1);
    }
}

/// Pushing an entry appends its value.
pub proof fn lemma_entry_push(v: Seq<Entry>, e: Entry)
    ensures
        entry_views(v.push(e)) == entry_views(v).push(e@),
{
    assert(entry_views(v.push(e)) =~= entry_views(v).push(e@));
}

/// Pushing a day record appends its value.
pub proof fn lemma_day_push(v: Seq<DSB>, d: DSB)
    ensures
        day_views(v.push(d)) == day_views(v).push(d@),
{
    assert(day_views(v.push(d)) =~= day_views(v).push(d@));
}

/// Reads the periods from a cell text.
pub fn read_period(text: &Vec<char>) -> (d: Duration)
    ensures
        d == period_of(text@),
{
    if has(text, &chars_of("-")) {
        let p = pieces(text, &chars_of(" - "));
        assert(views(p@).len() == p@.len());
        assert(views(p@)[0] == p@[0]@);
        let from = to_i16_or_zero(&p[0]);
        let to = if p.len() >= 2 {
            assert(views(p@)[1] == p@[1]@);
            to_i16_or_zero(&p[1])
        } else {
            0
        };
        Duration { from, to }
    } else if text.len() == 0 {
        Duration { from: 0, to: 0 }
    } else {
        let t = char_code_digit_value(text[0]);
        Duration { from: t, to: t }
    }
}

fn read_room(text: &Vec<char>) -> (r: Room)
    ensures
        r == room_of(text@),
{
    let code = unmark(text);
    if code.len() == 0 {
        Room::Unknown
    } else {
        Room::from_chars(&code)
    }
}

fn read_entry(name: &Vec<char>, row: &DomNode) -> (r: Result<Entry>)
    ensures
        agrees(r, entry_of(name@, row@)),
{
    let hour = match row.child3(1, 0, 0) {
        Some(n) => n,
        None => {
            return Err(PlanError::missing("row.1.0.0"));
        },
    };
    let substitute = match row.child3(2, 0, 0) {
        Some(n) => n,
        None => {
            return Err(PlanError::missing("row.2.0.0"));
        },
    };
    let course = match row.child2(3, 0) {
        Some(n) => n,
        None => {
            return Err(PlanError::missing("row.3.0"));
        },
    };
    let old_course = match row.child2(4, 0) {
        Some(n) => n,
        None => {
            return Err(PlanError::missing("row.4.0"));
        },
    };
    let message = match row.child2(5, 0) {
        Some(n) => n,
        None => {
            return Err(PlanError::missing("row.5.0"));
        },
    };
    let kind = match row.child2(6, 0) {
        Some(n) => n,
        None => {
            return Err(PlanError::missing("row.6.0"));
        },
    };
    let room = match row.child3(7, 0, 0) {
        Some(n) => n,
        None => {
            return Err(PlanError::missing("row.7.0.0"));
        },
    };
    let mut entry = Entry::new();
    entry.name = string_of(name);
    match hour.text() {
        Some(t) => {
            entry.time = read_period(&t);
        },
        None => {},
    }
    match substitute.text() {
        Some(t) => {
            entry.new_teacher = Teacher { name: string_of(&unmark(&t)) };
        },
        None => {},
    }
    match course.text() {
        Some(t) => {
            entry.course = Course::from_dsb_chars(name, &unmark(&t));
        },
        None => {},
    }
    match old_course.text() {
        Some(t) => {
            entry.old_course = Course::from_dsb_chars(name, &unmark(&t));
        },
        None => {},
    }
    match message.text() {
        Some(t) => {
            entry.message = string_of(&unmark(&t));
        },
        None => {},
    }
    match kind.text() {
        Some(t) => {
            let text = string_of(&unmark(&t));
            entry.kind = EntryKind::parse_from_str(text.as_str());
        },
        None => {},
    }
    match room.text() {
        Some(t) => {
            entry.room = read_room(&t);
        },
        None => {},
    }
    Ok(entry)
}

fn add_remark(entries: &mut Vec<Entry>, more: &Vec<char>)
    requires
        old(entries).len() > 0,
    ensures
        entry_views(final(entries)@) == with_remark(entry_views(old(entries)@), more@),
{
    let last = entries.pop();
    let mut entry = last.unwrap();
    let whole = joined(&chars_of(entry.message.as_str()), more);
    entry.message = string_of(&whole);
    entries.push(entry);
    assert(entry_views(entries@) =~= with_remark(entry_views(old(entries)@), more@));
}

fn parse_row(entries: &mut Vec<Entry>, row: &DomNode) -> (r: Result<()>)
    ensures
        match r {
            Ok(_) => grid_row(entry_views(old(entries)@), row@) == Ok::<Seq<EntryView>, Stopped>(
                entry_views(final(entries)@),
            ),
            Err(e) => grid_row(entry_views(old(entries)@), row@) matches Err(s) && e@
                == PlanErrorView::FieldNotExists(s.path) && s.entries == entry_views(
                final(entries)@,
            ),
        },
{
    if row.count() != 8 {
        return Ok(());
    }
    let class = match row.child2(0, 0) {
        Some(n) => n,
        None => {
            return Err(PlanError::missing("row.0.0"));
        },
    };
    let label = class.text();
    match label {
        Some(name) => {
            if has(&name, &chars_of("Klasse")) {
                return Ok(());
            }
            if !same(&name, &chars_of(" ")) {
                match read_entry(&name, row) {
                    Ok(entry) => {
                        proof {
                            lemma_entry_push(entries@, entry);
                        }
                        entries.push(entry);
                        return Ok(());
                    },
                    Err(e) => {
                        return Err(e);
                    },
                }
            }
        },
        None => {},
    }
    if entries.len() == 0 {
        assert(entry_views(entries@).len() == 0);
        return Ok(());
    }
    assert(entry_views(entries@).len() != 0);
    let message = match row.child2(5, 0) {
        Some(n) => n,
        None => {
            return Err(PlanError::missing("row.5.0"));
        },
    };
    match message.text() {
        Some(t) => {
            add_remark(entries, &unmark(&t));
        },
        None => {},
    }
    Ok(())
}

fn parse_rows(entries: &mut Vec<Entry>, grid: &DomNode) -> (r: Result<()>)
    ensures
        match r {
            Ok(_) => grid_rows(
                entry_views(old(entries)@),
                grid@.children,
                grid@.children.len() as int,
            ) == Ok::<Seq<EntryView>, Stopped>(entry_views(final(entries)@)),
            Err(e) => grid_rows(
                entry_views(old(entries)@),
                grid@.children,
                grid@.children.len() as int,
            ) matches Err(s) && e@ == PlanErrorView::FieldNotExists(s.path) && s.entries
                == entry_views(final(entries)@),
        },
{
    let mut i: usize = 0;
    while i < grid.count()
        invariant
            i <= grid@.children.len(),
            grid_rows(entry_views(old(entries)@), grid@.children, i as int) == Ok::<
                Seq<EntryView>,
                Stopped,
            >(entry_views(entries@)),
        decreases grid@.children.len() - i,
    {
        let ghost before = entry_views(entries@);
        match parse_row(entries, grid.nth(i)) {
            Ok(_) => {},
            Err(e) => {
                proof {
                    assert(grid_rows(entry_views(old(entries)@), grid@.children, i + 1)
                        == grid_row(before, grid@.children[i as int]));
                    lemma_grid_rows_fail(
                        entry_views(old(entries)@),
                        grid@.children,
                        i + 1,
                        grid@.children.len() as int,
                    );
                }
                return Err(e);
            },
        }
        i += 1;
    }
    Ok(())
}

impl Config {
    /// Completes a day record from the block that follows the header table
    /// of the day.
    pub fn parse_center(&self, node: &DomNode, dsb: &mut DSB) -> (r: Result<()>)
        ensures
            match r {
                Ok(_) => centered(old(dsb)@, node@) == Ok::<DSBView, Halted>(final(dsb)@),
                Err(e) => centered(old(dsb)@, node@) matches Err(h) && e@
                    == PlanErrorView::FieldNotExists(h.path) && h.day == final(dsb)@,
            },
    {
        let title = match node.child2(1, 0) {
            Some(n) => n,
            None => {
                return Err(PlanError::missing("center.1.0"));
            },
        };
        match title.text() {
            Some(info) => {
                let text = string_of(&info);
                match dsb.parse_mon_title(text.as_str()) {
                    Ok(_) => {},
                    Err(e) => {
                        return Err(e);
                    },
                }
            },
            None => {},
        }
        let info = match node.child(3) {
            Some(n) => n,
            None => {
                return Err(PlanError::missing("center.3"));
            },
        };
        match dsb.parse_info_table(info) {
            Ok(_) => {},
            Err(e) => {
                return Err(e);
            },
        }
        let grid = match node.child3(5, 1, 1) {
            Some(n) => n,
            None => {
                return Err(PlanError::missing("center.5.1.1"));
            },
        };
        parse_rows(&mut dsb.entries, grid)
    }

    fn parse_body(&self, body: &DomNode, days: &mut Vec<DSB>) -> (r: Result<()>)
        ensures
            match r {
                Ok(_) => match body_items(
                    Scan { days: day_views(old(days)@), pending: None },
                    body@.children,
                    body@.children.len() as int,
                ) {
                    Ok(s) => s.days == day_views(final(days)@),
                    Err(_) => false,
                },
                Err(e) => body_items(
                    Scan { days: day_views(old(days)@), pending: None },
                    body@.children,
                    body@.children.len() as int,
                ) matches Err(p) && e@ == PlanErrorView::FieldNotExists(p),
            },
    {
        let ghost start = Scan { days: day_views(old(days)@), pending: None };
        let mut pending: Option<DSB> = None;
        let mut i: usize = 0;
        while i < body.count()
            invariant
                i <= body@.children.len(),
                start == (Scan { days: day_views(old(days)@), pending: None }),
                body_items(start, body@.children, i as int) == Ok::<Scan, Seq<char>>(
                    Scan { days: day_views(days@), pending: begun(pending) },
                ),
            decreases body@.children.len() - i,
        {
            let w = body.nth(i);
            let ghost before = Scan { days: day_views(days@), pending: begun(pending) };
            assert(body_items(start, body@.children, i + 1) == body_item(before, w@));
            if w.is_named("table") {
                if w.is_marked("class", "mon_head") {
                    match DSB::new_mon_head(w) {
                        Ok(d) => {
                            pending = Some(d);
                        },
                        Err(e) => {
                            proof {
                                lemma_body_items_fail(
                                    start,
                                    body@.children,
                                    i + 1,
                                    body@.children.len() as int,
                                );
                            }
                            return Err(e);
                        },
                    }
                }
            } else if w.is_named("center") {
                match pending {
                    Some(mut d) => {
                        match self.parse_center(w, &mut d) {
                            Ok(_) => {
                                proof {
                                    lemma_day_push(days@, d);
                                }
                                days.push(d);
                                pending = None;
                            },
                            Err(e) => {
                                proof {
                                    lemma_body_items_fail(
                                        start,
                                        body@.children,
                                        i + 1,
                                        body@.children.len() as int,
                                    );
                                }
                                return Err(e);
                            },
                        }
                    },
                    None => {
                        pending = None;
                    },
                }
            }
            i += 1;
        }
        Ok(())
    }

    /// Reads the day records out of a document tree.
    pub fn parse_dom(&self, handle: &DomNode) -> (r: Result<Vec<DSB>>)
        ensures
            match r {
                Ok(days) => days_of(handle@) == Ok::<Seq<DSBView>, Seq<char>>(day_views(days@)),
                Err(e) => days_of(handle@) matches Err(p) && e@ == PlanErrorView::FieldNotExists(p),
            },
    {
        let root = match handle.child(0) {
            Some(n) => n,
            None => {
                return Err(PlanError::missing("document.0"));
            },
        };
        let mut days: Vec<DSB> = Vec::new();
        assert(day_views(days@) =~= Seq::<DSBView>::empty());
        let mut i: usize = 0;
        while i < root.count()
            invariant
                i <= root@.children.len(),
                child_at(handle@, 0) == Some(root@),
                root_items(Seq::empty(), root@.children, i as int) == Ok::<
                    Seq<DSBView>,
                    Seq<char>,
                >(day_views(days@)),
            decreases root@.children.len() - i,
        {
            let v = root.nth(i);
            let ghost before = day_views(days@);
            assert(root_items(Seq::empty(), root@.children, i + 1) == root_item(before, v@));
            if v.is_named("body") {
                match self.parse_body(v, &mut days) {
                    Ok(_) => {},
                    Err(e) => {
                        proof {
                            lemma_root_items_fail(
                                Seq::empty(),
                                root@.children,
                                i + 1,
                                root@.children.len() as int,
                            );
                        }
                        return Err(e);
                    },
                }
            }
            i += 1;
        }
        Ok(days)
    }

    /// Reads the day records out of the text of a document. The text goes
    /// to the HTML parser with a space in place of each entity of the
    /// non-breaking space; the records are those of the tree that the parser
    /// builds.
    pub fn parse(&self, html: &str) -> (r: Result<Vec<DSB>>)
        ensures
            match crate::dom::html_tree(normalized(html@)) {
                Some(doc) => match r {
                    Ok(days) => days_of(doc) == Ok::<Seq<DSBView>, Seq<char>>(day_views(days@)),
                    Err(e) => days_of(doc) matches Err(p) && e@ == PlanErrorView::FieldNotExists(p),
                },
                None => r matches Err(e) && e@ == PlanErrorView::FieldNotExists("document"@),
            },
    {
        let text = replaced(&chars_of(html), &chars_of("&nbsp;"), &chars_of(" "));
        let clean = string_of(&text);
        match crate::dom::parse_html(clean.as_str()) {
            Some(doc) => self.parse_dom(&doc),
            None => Err(PlanError::missing("document")),
        }
    }
}

} // verus!
