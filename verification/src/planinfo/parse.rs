//! Reading a lesson grid out of the document tree of a timetable page.
//!
//! A page holds one table. Its header says whose timetable it is and for
//! which week of the rotation the cells that follow are; its body holds the
//! cells. The spec functions of this module say what each part of the tree
//! does to the tables read so far and to the reader's position.

use crate::common::HourView;
use crate::dom::{
    attr_views, attrs_of, child_at, has_mark, html_tree, is_element, parse_html, text_of,
    Attribute, DomNode, DomView,
};
use crate::dsb::parse::{final_word, last_word, normalized};
use crate::error::{PlanError, PlanErrorView, Result};
use crate::planinfo::{table_views, PlanInfo, PlanView, Table, TableView};
use crate::text::{
    begins_with, chars_of, escape, finishes_with, has, pieces, replaced, same, string_of,
    trimmed, trimmed_matches, trimmed_start_pattern,
};
use crate::text::{
    contains, ends_with, escaped, split, starts_with, trim, trim_matches, trim_start_pattern,
    views,
};
use vstd::prelude::*;
use vstd::string::StringExecFns;

verus! {

/// Whose timetable a page holds.
#[derive(Debug, Clone, Copy, PartialEq, Eq, Structural)]
pub enum Kind {
    Teacher,
    Room,
    Student,
    Class,
}

/// Where the reader of a page stands: what it knows from the header cells
/// that it has read.
#[derive(Debug, PartialEq, Eq)]
pub struct Walk {
    /// Whose timetable the page holds, once a header cell has said so.
    pub kind: Option<Kind>,
    /// Whether the cells that follow are of week A.
    pub week_a: bool,
    /// Whether no header cell of the table has been read yet.
    pub first_run: bool,
    /// The name of the table's subject.
    pub entry_name: Vec<char>,
    /// The course text of a student's table.
    pub course_string: Vec<char>,
}

/// The mathematical value of a [`Walk`].
pub struct WalkView {
    pub kind: Option<Kind>,
    pub week_a: bool,
    pub first_run: bool,
    pub entry_name: Seq<char>,
    pub course_string: Seq<char>,
}

impl View for Walk {
    type V = WalkView;

    open spec fn view(&self) -> WalkView {
        WalkView {
            kind: self.kind,
            week_a: self.week_a,
            first_run: self.first_run,
            entry_name: self.entry_name@,
            course_string: self.course_string@,
        }
    }
}

impl WalkView {
    /// The position before a page: nothing is known, and cells are of week A.
    pub open spec fn initial() -> WalkView {
        WalkView {
            kind: None,
            week_a: true,
            first_run: true,
            entry_name: Seq::empty(),
            course_string: Seq::empty(),
        }
    }

    /// The position at the beginning of a table: all but the kind is as
    /// before a page.
    pub open spec fn at_table(self) -> WalkView {
        WalkView { kind: self.kind, ..WalkView::initial() }
    }
}

/// How reading a page has failed: the dotted path or label of what could not
/// be read, and the tables as they stand at that point.
pub struct Failed {
    pub path: Seq<char>,
    pub plan: PlanView,
}

/// The tables read so far and the reader's position.
pub struct State {
    pub plan: PlanView,
    pub walk: WalkView,
}

/// The state that a set of tables and a position stand for.
pub open spec fn state(plan: PlanInfo, walk: Walk) -> State {
    State { plan: plan@, walk: walk@ }
}

/// Whether the outcome `r` of a step, which leaves the state `after`,
/// agrees with what a spec function gives for the step: the same state, or
/// the same failure with the tables as the step leaves them.
pub open spec fn stepped(
    r: core::result::Result<(), PlanError>,
    after: State,
    s: core::result::Result<State, Failed>,
) -> bool {
    match r {
        Ok(_) => s == Ok::<State, Failed>(after),
        Err(e) => s matches Err(f) && e@ == PlanErrorView::FieldNotExists(f.path) && f.plan
            == after.plan,
    }
}

/// The tables with a new table of the given name, if the table's header
/// has not been read before.
pub open spec fn begun(tables: Seq<TableView>, first_run: bool, name: Seq<char>) -> Seq<TableView> {
    if first_run {
        tables.push(TableView::named(name))
    } else {
        tables
    }
}

/// The course text between the parentheses of a header label.
pub open spec fn course_text(c: Seq<char>) -> Seq<char> {
    trim_matches(trim_matches(trim(c), '('), ')')
}

/// The state after a text of a header cell has been read.
///
/// A text that begins with `A` or `B` says for which week the cells that
/// follow are. Then the text is taken for the first of these that it is: a
/// label with `Lehrer/in` or with `Raum` names a teacher or a room by its
/// last word and begins that table; a label with `Sch\u{fc}ler/in` begins
/// the table of the student named before; a label that ends with
/// `-Woche-Stundenplan von` stands on a page without a timetable, which is
/// the error `PlanInfo empty`; a text in parentheses is the course text; a
/// label with `Klasse` announces a class. Any other text is the error
/// `PlanInfo header kind`.
pub open spec fn label_read(s: State, raw: Seq<char>) -> core::result::Result<State, Failed> {
    let c = trim(raw);
    let week_a = if starts_with(c, "A"@) {
        true
    } else if starts_with(c, "B"@) {
        false
    } else {
        s.walk.week_a
    };
    let w = WalkView { week_a, ..s.walk };
    if contains(c, "Lehrer/in"@) {
        Ok(
            State {
                plan: PlanView {
                    teachers: begun(s.plan.teachers, w.first_run, last_word(c)),
                    ..s.plan
                },
                walk: WalkView { kind: Some(Kind::Teacher), entry_name: last_word(c), ..w },
            },
        )
    } else if contains(c, "Raum"@) {
        Ok(
            State {
                plan: PlanView { rooms: begun(s.plan.rooms, w.first_run, last_word(c)), ..s.plan },
                walk: WalkView { kind: Some(Kind::Room), entry_name: last_word(c), ..w },
            },
        )
    } else if contains(c, "Sch\u{fc}ler/in"@) {
        Ok(
            State {
                plan: PlanView {
                    students: begun(s.plan.students, w.first_run, w.entry_name),
                    ..s.plan
                },
                walk: WalkView { kind: Some(Kind::Student), ..w },
            },
        )
    } else if ends_with(c, "-Woche-Stundenplan von"@) {
        Err(Failed { path: "PlanInfo empty"@, plan: s.plan })
    } else if starts_with(c, "("@) && ends_with(c, ")"@) {
        Ok(State { plan: s.plan, walk: WalkView { course_string: course_text(c), ..w } })
    } else if contains(c, "Klasse"@) {
        Ok(State { plan: s.plan, walk: WalkView { kind: Some(Kind::Class), ..w } })
    } else {
        Err(Failed { path: "PlanInfo header kind"@, plan: s.plan })
    }
}

/// The name of a student in the title of a marker element: the title
/// without the label before the name, up to the first parenthesis.
pub open spec fn student_name(title: Seq<char>) -> Seq<char> {
    split(trim_start_pattern(title, "Sch\u{fc}ler/in "@), "("@)[0]
}

/// The position after one attribute of a marker element: on a student's
/// page a `title` gives the student's name.
pub open spec fn title_read(w: WalkView, a: (Seq<char>, Seq<char>)) -> WalkView {
    if a.0 == "title"@ && w.kind == Some(Kind::Student) {
        WalkView { entry_name: student_name(a.1), ..w }
    } else {
        w
    }
}

/// The position after the attributes of a marker element from index `i` on.
pub open spec fn titles_read(w: WalkView, attrs: Seq<(Seq<char>, Seq<char>)>, i: int) -> WalkView
    decreases attrs.len() - i,
{
    if i < 0 || i >= attrs.len() {
        w
    } else {
        titles_read(title_read(w, attrs[i]), attrs, i + 1)
    }
}

/// The position after one child of a `span` in a header cell.
pub open spec fn span_item(w: WalkView, v: DomView) -> WalkView {
    match attrs_of(v) {
        Some(attrs) => titles_read(w, attrs, 0),
        None => w,
    }
}

/// The position after the children of a `span` from index `i` on.
pub open spec fn span_items(w: WalkView, items: Seq<DomView>, i: int) -> WalkView
    decreases items.len() - i,
{
    if i < 0 || i >= items.len() {
        w
    } else {
        span_items(span_item(w, items[i]), items, i + 1)
    }
}

/// The state after one child of a header cell: a text is read as a label, a
/// `span` for its markers.
pub open spec fn title_item(s: State, v: DomView) -> core::result::Result<State, Failed> {
    match text_of(v) {
        Some(t) => label_read(s, t),
        None => if is_element(v, "span"@) {
            Ok(State { plan: s.plan, walk: span_items(s.walk, v.children, 0) })
        } else {
            Ok(s)
        },
    }
}

/// The state after the children of a header cell from index `i` on.
pub open spec fn title_items(s: State, items: Seq<DomView>, i: int) -> core::result::Result<State, Failed>
    decreases items.len() - i,
{
    if i < 0 || i >= items.len() {
        Ok(s)
    } else {
        match title_item(s, items[i]) {
            Ok(t) => title_items(t, items, i + 1),
            Err(p) => Err(p),
        }
    }
}

/// The state after one cell of a header row: only a cell marked `titel`
/// counts, and after it the table's header has been read.
pub open spec fn header_cell(s: State, cell: DomView) -> core::result::Result<State, Failed> {
    if has_mark(cell, "class"@, "titel"@) {
        match title_items(s, cell.children, 0) {
            Ok(t) => Ok(State { plan: t.plan, walk: WalkView { first_run: false, ..t.walk } }),
            Err(p) => Err(p),
        }
    } else {
        Ok(s)
    }
}

/// The state after the cells of a header row from index `i` on.
pub open spec fn header_cells(s: State, items: Seq<DomView>, i: int) -> core::result::Result<State, Failed>
    decreases items.len() - i,
{
    if i < 0 || i >= items.len() {
        Ok(s)
    } else {
        match header_cell(s, items[i]) {
            Ok(t) => header_cells(t, items, i + 1),
            Err(p) => Err(p),
        }
    }
}

/// The state after the rows of a table's head from index `i` on.
pub open spec fn head_rows(s: State, items: Seq<DomView>, i: int) -> core::result::Result<State, Failed>
    decreases items.len() - i,
{
    if i < 0 || i >= items.len() {
        Ok(s)
    } else if is_element(items[i], "tr"@) {
        match header_cells(s, items[i].children, 0) {
            Ok(t) => head_rows(t, items, i + 1),
            Err(p) => Err(p),
        }
    } else {
        head_rows(s, items, i + 1)
    }
}

/// The slot of day `x` and period `y` after a cell has been written to it,
/// by the grammar of the page's kind.
pub open spec fn slot_written(h: HourView, w: WalkView, cell: Seq<char>) -> HourView {
    match w.kind {
        Some(Kind::Teacher) => h.with_teacher_cell(cell, w.entry_name),
        Some(Kind::Room) => h.with_room_cell(cell),
        Some(Kind::Student) => h.with_student_cell(cell, w.course_string),
        _ => h,
    }
}

/// A grid with the slot of day `x` and period `y` replaced.
pub open spec fn with_slot(g: Seq<Seq<HourView>>, x: int, y: int, h: HourView) -> Seq<
    Seq<HourView>,
> {
    g.update(x, g[x].update(y, h))
}

/// A table after a cell has been written to the slot of day `x` and period
/// `y` in the grid of the reader's week. A student's table takes the
/// student's name.
pub open spec fn table_written(t: TableView, w: WalkView, x: int, y: int, cell: Seq<char>) -> TableView {
    let name = if w.kind == Some(Kind::Student) {
        w.entry_name
    } else {
        t.name
    };
    if w.week_a {
        TableView {
            name,
            table_a: with_slot(t.table_a, x, y, slot_written(t.table_a[x][y], w, cell)),
            table_b: t.table_b,
        }
    } else {
        TableView {
            name,
            table_a: t.table_a,
            table_b: with_slot(t.table_b, x, y, slot_written(t.table_b[x][y], w, cell)),
        }
    }
}

/// The tables after a cell has been written to the last of them, if there
/// is one.
pub open spec fn last_written(tables: Seq<TableView>, w: WalkView, x: int, y: int, cell: Seq<char>) -> Seq<
    TableView,
> {
    if tables.len() == 0 {
        tables
    } else {
        tables.update(tables.len() - 1, table_written(tables.last(), w, x, y, cell))
    }
}

/// The tables after the text of the body cell of day `x` and period `y` has
/// been read. The trimmed text is written to the last table of the page's
/// kind. A cell outside the five days and twelve periods, a cell of a class
/// page and a cell of a page whose kind is not known change nothing.
pub open spec fn filled(plan: PlanView, w: WalkView, x: int, y: int, raw: Seq<char>) -> PlanView {
    let c = trim(raw);
    if x < 0 || x >= 5 || y < 0 || y >= 12 {
        plan
    } else {
        match w.kind {
            Some(Kind::Teacher) => PlanView {
                teachers: last_written(plan.teachers, w, x, y, c),
                ..plan
            },
            Some(Kind::Room) => PlanView { rooms: last_written(plan.rooms, w, x, y, c), ..plan },
            Some(Kind::Student) => PlanView {
                students: last_written(plan.students, w, x, y, c),
                ..plan
            },
            _ => plan,
        }
    }
}

/// The tables after the children of a body cell from index `i` on: each
/// text is read into the slot of day `x` and period `y`.
pub open spec fn cell_items(plan: PlanView, w: WalkView, x: int, y: int, items: Seq<DomView>, i: int) -> PlanView
    decreases items.len() - i,
{
    if i < 0 || i >= items.len() {
        plan
    } else {
        match text_of(items[i]) {
            Some(t) => cell_items(filled(plan, w, x, y, t), w, x, y, items, i + 1),
            None => cell_items(plan, w, x, y, items, i + 1),
        }
    }
}

/// The tables after the children of a body row from index `i` on: the
/// row is day `x`, and its `td` elements are the periods in order, of which
/// `y` have been read.
pub open spec fn row_items(plan: PlanView, w: WalkView, x: int, y: int, items: Seq<DomView>, i: int) -> PlanView
    decreases items.len() - i,
{
    if i < 0 || i >= items.len() {
        plan
    } else if is_element(items[i], "td"@) {
        row_items(cell_items(plan, w, x, y, items[i].children, 0), w, x, y + 1, items, i + 1)
    } else {
        row_items(plan, w, x, y, items, i + 1)
    }
}

/// The tables after the children of a table's body from index `i` on: the
/// `tr` elements are the days in order, of which `x` have been read.
pub open spec fn body_rows(plan: PlanView, w: WalkView, x: int, items: Seq<DomView>, i: int) -> PlanView
    decreases items.len() - i,
{
    if i < 0 || i >= items.len() {
        plan
    } else if is_element(items[i], "tr"@) {
        body_rows(row_items(plan, w, x, 0, items[i].children, 0), w, x + 1, items, i + 1)
    } else {
        body_rows(plan, w, x, items, i + 1)
    }
}

/// The state after the children of a table from index `i` on: a `thead` is
/// read for its header rows, a `tbody` for its cells.
pub open spec fn table_items(s: State, items: Seq<DomView>, i: int) -> core::result::Result<State, Failed>
    decreases items.len() - i,
{
    if i < 0 || i >= items.len() {
        Ok(s)
    } else if is_element(items[i], "thead"@) {
        match head_rows(s, items[i].children, 0) {
            Ok(t) => table_items(t, items, i + 1),
            Err(p) => Err(p),
        }
    } else if is_element(items[i], "tbody"@) {
        table_items(
            State { plan: body_rows(s.plan, s.walk, 0, items[i].children, 0), walk: s.walk },
            items,
            i + 1,
        )
    } else {
        table_items(s, items, i + 1)
    }
}

/// The state after the children of the page's plan from index `i` on: each
/// `table` is read from the position at the beginning of a table.
pub open spec fn div_items(s: State, items: Seq<DomView>, i: int) -> core::result::Result<State, Failed>
    decreases items.len() - i,
{
    if i < 0 || i >= items.len() {
        Ok(s)
    } else if is_element(items[i], "table"@) {
        match table_items(
            State { plan: s.plan, walk: s.walk.at_table() },
            items[i].children,
            0,
        ) {
            Ok(t) => div_items(t, items, i + 1),
            Err(p) => Err(p),
        }
    } else {
        div_items(s, items, i + 1)
    }
}

/// What a page yields.
pub struct Page {
    /// The tables read so far, the page's included.
    pub plan: PlanView,
    /// The table of the page.
    pub table: TableView,
    /// What the table is of: `teachers`, `room`, `students`, or `none`.
    pub tag: Seq<char>,
}

/// The last of the tables under the given tag; the empty table under the
/// tag `none` where there is no table.
pub open spec fn last_table(plan: PlanView, tables: Seq<TableView>, tag: Seq<char>) -> Page {
    if tables.len() > 0 {
        Page { plan, table: tables.last(), tag }
    } else {
        Page { plan, table: TableView::named(Seq::empty()), tag: "none"@ }
    }
}

/// What a page yields once its plan has been read: the last table of the
/// page's kind. A class page, and a page whose kind is not known, yield the
/// empty table under the tag `none`.
pub open spec fn yielded(s: State) -> Page {
    match s.walk.kind {
        Some(Kind::Teacher) => last_table(s.plan, s.plan.teachers, "teachers"@),
        Some(Kind::Room) => last_table(s.plan, s.plan.rooms, "room"@),
        Some(Kind::Student) => last_table(s.plan, s.plan.students, "students"@),
        _ => Page { plan: s.plan, table: TableView::named(Seq::empty()), tag: "none"@ },
    }
}

/// What the plan element of a page yields, given the tables read before.
pub open spec fn div_read(plan: PlanView, div: DomView) -> core::result::Result<Page, Failed> {
    match div_items(State { plan, walk: WalkView::initial() }, div.children, 0) {
        Ok(s) => Ok(yielded(s)),
        Err(p) => Err(p),
    }
}

/// Whether the first readable `title` among `items` from index `i` on says
/// that the page shows a timetable: its text, escaped, holds `Anzeige`. A
/// title is readable if its first child is a text.
pub open spec fn title_ok(items: Seq<DomView>, i: int) -> bool
    decreases items.len() - i,
{
    if i < 0 || i >= items.len() {
        false
    } else if is_element(items[i], "title"@) && child_at(items[i], 0) is Some && text_of(
        child_at(items[i], 0).unwrap(),
    ) is Some {
        contains(escaped(text_of(child_at(items[i], 0).unwrap()).unwrap()), "Anzeige"@)
    } else {
        title_ok(items, i + 1)
    }
}

/// Whether a node is the plan element of a page: a `div` marked `plan`.
pub open spec fn is_plan(v: DomView) -> bool {
    is_element(v, "div"@) && has_mark(v, "class"@, "plan"@)
}

/// The first plan element among `items` from index `i` on.
pub open spec fn first_plan(items: Seq<DomView>, i: int) -> Option<DomView>
    decreases items.len() - i,
{
    if i < 0 || i >= items.len() {
        None
    } else if is_plan(items[i]) {
        Some(items[i])
    } else {
        first_plan(items, i + 1)
    }
}

/// What a page yields, given the tables read before. The root element is
/// the document's child 1; its child 0 is the head, whose title must say
/// that the page shows a timetable; its child 2 is the body, whose first
/// plan element is read.
pub open spec fn page_read(plan: PlanView, doc: DomView) -> core::result::Result<Page, Failed> {
    match child_at(doc, 1) {
        None => Err(Failed { path: "planinfo html"@, plan }),
        Some(root) => if root.children.len() < 2 {
            Err(Failed { path: "planinfo html head|body"@, plan })
        } else if !title_ok(root.children[0].children, 0) {
            Err(Failed { path: "planinfo auth"@, plan })
        } else {
            match child_at(root, 2) {
                None => Err(Failed { path: "planinfo html body"@, plan }),
                Some(body) => match first_plan(body.children, 0) {
                    None => Err(Failed { path: "not found for parse_dom (planinfo)"@, plan }),
                    Some(div) => div_read(plan, div),
                },
            }
        },
    }
}

/// The text of a page as it is handed to the HTML parser: with a space in
/// place of each entity of the non-breaking space, and trimmed.
pub open spec fn page_text(html: Seq<char>) -> Seq<char> {
    trim(normalized(html))
}

/// Whether the outcome `r` of reading a page, which leaves the tables
/// `after`, agrees with what a spec function gives for the page: the same
/// table and tag, or the same failure, and in either case the same tables.
pub open spec fn page_agrees(
    r: core::result::Result<(Table, String), PlanError>,
    after: PlanView,
    s: core::result::Result<Page, Failed>,
) -> bool {
    match r {
        Ok((table, tag)) => s == Ok::<Page, Failed>(
            Page { plan: after, table: table@, tag: tag@ },
        ),
        Err(e) => s matches Err(f) && e@ == PlanErrorView::FieldNotExists(f.path) && f.plan
            == after,
    }
}

/// Pushing a table appends its value.
pub proof fn lemma_table_push(v: Seq<Table>, t: Table)
    ensures
        table_views(v.push(t)) == table_views(v).push(t@),
{
    assert(table_views(v.push(t)) =~= table_views(v).push(t@));
}

fn begin(tables: &mut Vec<Table>, first_run: bool, name: &Vec<char>)
    ensures
        table_views(final(tables)@) == begun(table_views(old(tables)@), first_run, name@),
{
    if first_run {
        let table = Table::named(name);
        proof {
            lemma_table_push(tables@, table);
        }
        tables.push(table);
    }
}

fn read_student_name(title: &Vec<char>) -> (r: Vec<char>)
    ensures
        r@ == student_name(title@),
{
    let rest = trimmed_start_pattern(title, &chars_of("Sch\u{fc}ler/in "));
    let mut p = pieces(&rest, &chars_of("("));
    assert(views(p@)[0] == p@[0]@);
    p.truncate(1);
    assert(p@.len() == 1);
    let first = p.pop();
    first.unwrap()
}

fn write_slot(table: &mut Table, walk: &Walk, x: usize, y: usize, cell: &Vec<char>)
    requires
        x < 5,
        y < 12,
    ensures
        final(table)@ == table_written(old(table)@, walk@, x as int, y as int, cell@),
{
    let text = string_of(cell);
    let name = string_of(&walk.entry_name);
    let courses = string_of(&walk.course_string);
    match walk.kind {
        Some(Kind::Teacher) => {
            if walk.week_a {
                table.table_a[x][y].parse_planinfo_teacher(text.as_str(), name.as_str(), 0);
            } else {
                table.table_b[x][y].parse_planinfo_teacher(text.as_str(), name.as_str(), 0);
            }
        },
        Some(Kind::Room) => {
            if walk.week_a {
                table.table_a[x][y].parse_planinfo_room(text.as_str(), name.as_str(), 0);
            } else {
                table.table_b[x][y].parse_planinfo_room(text.as_str(), name.as_str(), 0);
            }
        },
        Some(Kind::Student) => {
            table.name = name;
            if walk.week_a {
                table.table_a[x][y].parse_planinfo_student(text.as_str(), courses.as_str(), 0);
            } else {
                table.table_b[x][y].parse_planinfo_student(text.as_str(), courses.as_str(), 0);
            }
        },
        _ => {},
    }
    proof {
        let t = old(table)@;
        let want = table_written(t, walk@, x as int, y as int, cell@);
        assert(table@.table_a =~~= want.table_a);
        assert(table@.table_b =~~= want.table_b);
    }
}

fn write_last(tables: &mut Vec<Table>, walk: &Walk, x: usize, y: usize, cell: &Vec<char>)
    requires
        x < 5,
        y < 12,
    ensures
        table_views(final(tables)@) == last_written(
            table_views(old(tables)@),
            walk@,
            x as int,
            y as int,
            cell@,
        ),
{
    if tables.len() == 0 {
        assert(table_views(tables@).len() == 0);
        return;
    }
    let last = tables.len() - 1;
    write_slot(&mut tables[last], walk, x, y, cell);
    assert(table_views(tables@) =~= last_written(
        table_views(old(tables)@),
        walk@,
        x as int,
        y as int,
        cell@,
    ));
}

impl PlanInfo {
    fn read_label(&mut self, walk: &mut Walk, raw: &Vec<char>) -> (r: Result<()>)
        ensures
            stepped(r, state(*final(self), *final(walk)), label_read(state(*old(self), *old(walk)), raw@)),
    {
        let c = trimmed(raw);
        if begins_with(&c, &chars_of("A")) {
            walk.week_a = true;
        } else if begins_with(&c, &chars_of("B")) {
            walk.week_a = false;
        }
        if has(&c, &chars_of("Lehrer/in")) {
            let name = final_word(&c);
            begin(&mut self.teachers, walk.first_run, &name);
            walk.entry_name = name;
            walk.kind = Some(Kind::Teacher);
            Ok(())
        } else if has(&c, &chars_of("Raum")) {
            let name = final_word(&c);
            begin(&mut self.rooms, walk.first_run, &name);
            walk.entry_name = name;
            walk.kind = Some(Kind::Room);
            Ok(())
        } else if has(&c, &chars_of("Sch\u{fc}ler/in")) {
            begin(&mut self.students, walk.first_run, &walk.entry_name);
            walk.kind = Some(Kind::Student);
            Ok(())
        } else if finishes_with(&c, &chars_of("-Woche-Stundenplan von")) {
            Err(PlanError::missing("PlanInfo empty"))
        } else if begins_with(&c, &chars_of("(")) && finishes_with(&c, &chars_of(")")) {
            let inner = trimmed(&c);
            let open = trimmed_matches(&inner, '(');
            walk.course_string = trimmed_matches(&open, ')');
            Ok(())
        } else if has(&c, &chars_of("Klasse")) {
            walk.kind = Some(Kind::Class);
            Ok(())
        } else {
            Err(PlanError::missing("PlanInfo header kind"))
        }
    }

    fn fill(&mut self, walk: &Walk, x: usize, y: usize, raw: &Vec<char>)
        ensures
            final(self)@ == filled(old(self)@, walk@, x as int, y as int, raw@),
    {
        let c = trimmed(raw);
        if x >= 5 || y >= 12 {
            return;
        }
        match walk.kind {
            Some(Kind::Teacher) => {
                write_last(&mut self.teachers, walk, x, y, &c);
            },
            Some(Kind::Room) => {
                write_last(&mut self.rooms, walk, x, y, &c);
            },
            Some(Kind::Student) => {
                write_last(&mut self.students, walk, x, y, &c);
            },
            _ => {},
        }
    }
}

fn read_titles(walk: &mut Walk, attrs: &Vec<Attribute>)
    ensures
        final(walk)@ == titles_read(old(walk)@, attr_views(attrs@), 0),
{
    let mut i: usize = 0;
    while i < attrs.len()
        invariant
            i <= attrs.len(),
            titles_read(walk@, attr_views(attrs@), i as int) == titles_read(
                old(walk)@,
                attr_views(attrs@),
                0,
            ),
        decreases attrs.len() - i,
    {
        let name = chars_of(attrs[i].name.as_str());
        if same(&name, &chars_of("title")) {
            match walk.kind {
                Some(Kind::Student) => {
                    walk.entry_name = read_student_name(&chars_of(attrs[i].value.as_str()));
                },
                _ => {},
            }
        }
        i += 1;
    }
}

fn read_span(walk: &mut Walk, span: &DomNode)
    ensures
        final(walk)@ == span_items(old(walk)@, span@.children, 0),
{
    let mut i: usize = 0;
    while i < span.count()
        invariant
            i <= span@.children.len(),
            span_items(walk@, span@.children, i as int) == span_items(
                old(walk)@,
                span@.children,
                0,
            ),
        decreases span@.children.len() - i,
    {
        match span.nth(i).attrs() {
            Some(attrs) => {
                read_titles(walk, attrs);
            },
            None => {},
        }
        i += 1;
    }
}

impl PlanInfo {
    fn read_title_item(&mut self, walk: &mut Walk, v: &DomNode) -> (r: Result<()>)
        ensures
            stepped(r, state(*final(self), *final(walk)), title_item(state(*old(self), *old(walk)), v@)),
    {
        match v.text() {
            Some(t) => self.read_label(walk, &t),
            None => {
                if v.is_named("span") {
                    read_span(walk, v);
                }
                Ok(())
            },
        }
    }

    fn read_header_cell(&mut self, walk: &mut Walk, cell: &DomNode) -> (r: Result<()>)
        ensures
            stepped(r, state(*final(self), *final(walk)), header_cell(state(*old(self), *old(walk)), cell@)),
    {
        if !cell.is_marked("class", "titel") {
            return Ok(());
        }
        let mut i: usize = 0;
        while i < cell.count()
            invariant
                i <= cell@.children.len(),
                has_mark(cell@, "class"@, "titel"@),
                title_items(state(*self, *walk), cell@.children, i as int) == title_items(
                    state(*old(self), *old(walk)),
                    cell@.children,
                    0,
                ),
            decreases cell@.children.len() - i,
        {
            match self.read_title_item(walk, cell.nth(i)) {
                Ok(_) => {},
                Err(e) => {
                    return Err(e);
                },
            }
            i += 1;
        }
        walk.first_run = false;
        Ok(())
    }

    fn read_header_row(&mut self, walk: &mut Walk, row: &DomNode) -> (r: Result<()>)
        ensures
            stepped(
                r,
                state(*final(self), *final(walk)),
                header_cells(state(*old(self), *old(walk)), row@.children, 0),
            ),
    {
        let mut i: usize = 0;
        while i < row.count()
            invariant
                i <= row@.children.len(),
                header_cells(state(*self, *walk), row@.children, i as int) == header_cells(
                    state(*old(self), *old(walk)),
                    row@.children,
                    0,
                ),
            decreases row@.children.len() - i,
        {
            match self.read_header_cell(walk, row.nth(i)) {
                Ok(_) => {},
                Err(e) => {
                    return Err(e);
                },
            }
            i += 1;
        }
        Ok(())
    }

    pub(crate) fn read_head(&mut self, walk: &mut Walk, head: &DomNode) -> (r: Result<()>)
        ensures
            stepped(
                r,
                state(*final(self), *final(walk)),
                head_rows(state(*old(self), *old(walk)), head@.children, 0),
            ),
    {
        let mut i: usize = 0;
        while i < head.count()
            invariant
                i <= head@.children.len(),
                head_rows(state(*self, *walk), head@.children, i as int) == head_rows(
                    state(*old(self), *old(walk)),
                    head@.children,
                    0,
                ),
            decreases head@.children.len() - i,
        {
            if head.nth(i).is_named("tr") {
                match self.read_header_row(walk, head.nth(i)) {
                    Ok(_) => {},
                    Err(e) => {
                        return Err(e);
                    },
                }
            }
            i += 1;
        }
        Ok(())
    }

    fn read_cell(&mut self, walk: &Walk, x: usize, y: usize, cell: &DomNode)
        ensures
            final(self)@ == cell_items(old(self)@, walk@, x as int, y as int, cell@.children, 0),
    {
        let mut i: usize = 0;
        while i < cell.count()
            invariant
                i <= cell@.children.len(),
                cell_items(self@, walk@, x as int, y as int, cell@.children, i as int)
                    == cell_items(old(self)@, walk@, x as int, y as int, cell@.children, 0),
            decreases cell@.children.len() - i,
        {
            match cell.nth(i).text() {
                Some(t) => {
                    self.fill(walk, x, y, &t);
                },
                None => {},
            }
            i += 1;
        }
    }

    fn read_row(&mut self, walk: &Walk, x: usize, row: &DomNode)
        ensures
            final(self)@ == row_items(old(self)@, walk@, x as int, 0, row@.children, 0),
    {
        let mut y: usize = 0;
        let mut i: usize = 0;
        while i < row.count()
            invariant
                i <= row@.children.len(),
                y <= i,
                row_items(self@, walk@, x as int, y as int, row@.children, i as int) == row_items(
                    old(self)@,
                    walk@,
                    x as int,
                    0,
                    row@.children,
                    0,
                ),
            decreases row@.children.len() - i,
        {
            if row.nth(i).is_named("td") {
                self.read_cell(walk, x, y, row.nth(i));
                y += 1;
            }
            i += 1;
        }
    }

    fn read_body(&mut self, walk: &Walk, body: &DomNode)
        ensures
            final(self)@ == body_rows(old(self)@, walk@, 0, body@.children, 0),
    {
        let mut x: usize = 0;
        let mut i: usize = 0;
        while i < body.count()
            invariant
                i <= body@.children.len(),
                x <= i,
                body_rows(self@, walk@, x as int, body@.children, i as int) == body_rows(
                    old(self)@,
                    walk@,
                    0,
                    body@.children,
                    0,
                ),
            decreases body@.children.len() - i,
        {
            if body.nth(i).is_named("tr") {
                self.read_row(walk, x, body.nth(i));
                x += 1;
            }
            i += 1;
        }
    }

    fn read_table(&mut self, walk: &mut Walk, table: &DomNode) -> (r: Result<()>)
        ensures
            stepped(
                r,
                state(*final(self), *final(walk)),
                table_items(state(*old(self), *old(walk)), table@.children, 0),
            ),
    {
        let mut i: usize = 0;
        while i < table.count()
            invariant
                i <= table@.children.len(),
                table_items(state(*self, *walk), table@.children, i as int) == table_items(
                    state(*old(self), *old(walk)),
                    table@.children,
                    0,
                ),
            decreases table@.children.len() - i,
        {
            if table.nth(i).is_named("thead") {
                match self.read_head(walk, table.nth(i)) {
                    Ok(_) => {},
                    Err(e) => {
                        return Err(e);
                    },
                }
            } else if table.nth(i).is_named("tbody") {
                self.read_body(walk, table.nth(i));
            }
            i += 1;
        }
        Ok(())
    }

    fn last_of(tables: &Vec<Table>, tag: &str) -> (r: (Table, String))
        ensures
            r.0@ == last_table(
                PlanView { teachers: Seq::empty(), rooms: Seq::empty(), students: Seq::empty() },
                table_views(tables@),
                tag@,
            ).table,
            r.1@ == last_table(
                PlanView { teachers: Seq::empty(), rooms: Seq::empty(), students: Seq::empty() },
                table_views(tables@),
                tag@,
            ).tag,
    {
        if tables.len() > 0 {
            (tables[tables.len() - 1].clone(), String::from_str(tag))
        } else {
            (Table::new(), String::from_str("none"))
        }
    }

    /// Reads the plan element of a page. The tables that the page begins
    /// are added to those read before; the page's own table is returned
    /// with its tag. `verbose` is the caller's diagnostic level; it has no
    /// influence on the result.
    pub fn parse_dom_div(&mut self, node: &DomNode, verbose: u8) -> (r: Result<(Table, String)>)
        ensures
            page_agrees(r, final(self)@, div_read(old(self)@, node@)),
    {
        let mut walk = Walk {
            kind: None,
            week_a: true,
            first_run: true,
            entry_name: Vec::new(),
            course_string: Vec::new(),
        };
        let ghost start = state(*self, walk);
        let mut i: usize = 0;
        while i < node.count()
            invariant
                i <= node@.children.len(),
                start == (State { plan: old(self)@, walk: WalkView::initial() }),
                div_items(state(*self, walk), node@.children, i as int) == div_items(
                    start,
                    node@.children,
                    0,
                ),
            decreases node@.children.len() - i,
        {
            if node.nth(i).is_named("table") {
                walk.week_a = true;
                walk.first_run = true;
                walk.entry_name = Vec::new();
                walk.course_string = Vec::new();
                match self.read_table(&mut walk, node.nth(i)) {
                    Ok(_) => {},
                    Err(e) => {
                        return Err(e);
                    },
                }
            }
            i += 1;
        }
        let page = match walk.kind {
            Some(Kind::Teacher) => PlanInfo::last_of(&self.teachers, "teachers"),
            Some(Kind::Room) => PlanInfo::last_of(&self.rooms, "room"),
            Some(Kind::Student) => PlanInfo::last_of(&self.students, "students"),
            _ => (Table::new(), String::from_str("none")),
        };
        Ok(page)
    }

    /// Says whether the head of a page has the title of a page that shows a
    /// timetable.
    pub fn check_title(&self, handle: &DomNode) -> (b: bool)
        ensures
            b == title_ok(handle@.children, 0),
    {
        let mut i: usize = 0;
        while i < handle.count()
            invariant
                i <= handle@.children.len(),
                title_ok(handle@.children, i as int) == title_ok(handle@.children, 0),
            decreases handle@.children.len() - i,
        {
            let v = handle.nth(i);
            if v.is_named("title") {
                match v.child(0) {
                    Some(t) => match t.text() {
                        Some(contents) => {
                            return has(&escape(&contents), &chars_of("Anzeige"));
                        },
                        None => {},
                    },
                    None => {},
                }
            }
            i += 1;
        }
        false
    }

    /// Reads a page from its document tree. `verbose` is the caller's
    /// diagnostic level; it has no influence on the result.
    pub fn parse_dom(&mut self, handle: &DomNode, verbose: u8) -> (r: Result<(Table, String)>)
        ensures
            page_agrees(r, final(self)@, page_read(old(self)@, handle@)),
    {
        let root = match handle.child(1) {
            Some(n) => n,
            None => {
                return Err(PlanError::missing("planinfo html"));
            },
        };
        if root.count() < 2 {
            return Err(PlanError::missing("planinfo html head|body"));
        }
        if !self.check_title(root.nth(0)) {
            return Err(PlanError::missing("planinfo auth"));
        }
        let body = match root.child(2) {
            Some(n) => n,
            None => {
                return Err(PlanError::missing("planinfo html body"));
            },
        };
        let mut i: usize = 0;
        while i < body.count()
            invariant
                i <= body@.children.len(),
                *self == *old(self),
                child_at(handle@, 1) == Some(root@),
                root@.children.len() >= 2,
                title_ok(root@.children[0].children, 0),
                child_at(root@, 2) == Some(body@),
                first_plan(body@.children, i as int) == first_plan(body@.children, 0),
            decreases body@.children.len() - i,
        {
            let v = body.nth(i);
            if v.is_named("div") && v.is_marked("class", "plan") {
                return self.parse_dom_div(v, verbose);
            }
            i += 1;
        }
        Err(PlanError::missing("not found for parse_dom (planinfo)"))
    }

    /// Reads a page from its text. The text goes to the HTML parser with a
    /// space in place of each entity of the non-breaking space, and trimmed;
    /// the page is read from the tree that the parser builds. `verbose` is
    /// the caller's diagnostic level; it has no influence on the result.
    pub fn parse_str(&mut self, html: &str, verbose: u8) -> (r: Result<(Table, String)>)
        ensures
            match html_tree(page_text(html@)) {
                Some(doc) => page_agrees(r, final(self)@, page_read(old(self)@, doc)),
                None => r matches Err(e) && e@ == PlanErrorView::FieldNotExists("document"@)
                    && final(self)@ == old(self)@,
            },
    {
        let text = replaced(&chars_of(html), &chars_of("&nbsp;"), &chars_of(" "));
        let clean = string_of(&trimmed(&text));
        match parse_html(clean.as_str()) {
            Some(doc) => self.parse_dom(&doc, verbose),
            None => Err(PlanError::missing("document")),
        }
    }
}

} // verus!
