//! What there is to say of a timetable page: the diagnostics of the cells
//! that its tables hold, in document order.
//!
//! The header of each table is read as the parser reads it, to know whose
//! timetable the cells are of. A header that cannot be read ends the page
//! with a diagnostic of its own.

use crate::common::hour::{room_cell_notes, student_cell_notes, teacher_cell_notes};
use crate::common::Hour;
use crate::diagnostic::{
    gather, no_notes, none, note, notes_view, one, Diagnostic, DiagnosticView,
};
use crate::dom::{child_at, html_tree, is_element, parse_html, text_of, DomNode, DomView};
use crate::error::PlanError;
use crate::planinfo::parse::{
    first_plan, head_rows, page_text, state, Kind, State, Walk, WalkView,
};
use crate::planinfo::{PlanInfo, PlanView};
use crate::text::{chars_of, replaced, string_of, trimmed};
use crate::text::trim;
use vstd::prelude::*;

verus! {

/// What there is to say of the text of the body cell of day `x` and period
/// `y`: that it lies outside the five days and twelve periods; else that it
/// stands on a class page, which is not read; else what there is to say of
/// the trimmed text as a cell of the page's kind.
pub open spec fn cell_note(w: WalkView, x: int, y: int, raw: Seq<char>) -> Seq<DiagnosticView> {
    let c = trim(raw);
    if x < 0 || x >= 5 || y < 0 || y >= 12 {
        note(0, "planinfo.grid"@, c)
    } else {
        match w.kind {
            Some(Kind::Teacher) => teacher_cell_notes(c),
            Some(Kind::Room) => room_cell_notes(c),
            Some(Kind::Student) => student_cell_notes(c),
            Some(Kind::Class) => note(1, "planinfo.class"@, c),
            None => no_notes(),
        }
    }
}

/// What there is to say of the children of a body cell from index `i` on.
pub open spec fn cell_notes(w: WalkView, x: int, y: int, items: Seq<DomView>, i: int) -> Seq<
    DiagnosticView,
>
    decreases items.len() - i,
{
    if i < 0 || i >= items.len() {
        no_notes()
    } else {
        match text_of(items[i]) {
            Some(t) => cell_note(w, x, y, t) + cell_notes(w, x, y, items, i + 1),
            None => cell_notes(w, x, y, items, i + 1),
        }
    }
}

/// What there is to say of the children of a body row from index `i` on:
/// the row is day `x`, and of its `td` elements `y` have been read.
pub open spec fn row_notes(w: WalkView, x: int, y: int, items: Seq<DomView>, i: int) -> Seq<
    DiagnosticView,
>
    decreases items.len() - i,
{
    if i < 0 || i >= items.len() {
        no_notes()
    } else if is_element(items[i], "td"@) {
        cell_notes(w, x, y, items[i].children, 0) + row_notes(w, x, y + 1, items, i + 1)
    } else {
        row_notes(w, x, y, items, i + 1)
    }
}

/// What there is to say of the children of a table's body from index `i`
/// on, of whose `tr` elements `x` have been read.
pub open spec fn rows_notes(w: WalkView, x: int, items: Seq<DomView>, i: int) -> Seq<
    DiagnosticView,
>
    decreases items.len() - i,
{
    if i < 0 || i >= items.len() {
        no_notes()
    } else if is_element(items[i], "tr"@) {
        row_notes(w, x, 0, items[i].children, 0) + rows_notes(w, x + 1, items, i + 1)
    } else {
        rows_notes(w, x, items, i + 1)
    }
}

/// What has been said of a page so far, where the reader stands, and
/// whether a header has failed.
pub struct Noted {
    pub state: State,
    pub notes: Seq<DiagnosticView>,
    pub failed: bool,
}

/// What has been said after the children of a table from index `i` on: a
/// `thead` moves the reader, and ends the page with the diagnostic
/// `planinfo.header` where it cannot be read; a `tbody` adds what there is to
/// say of its cells.
pub open spec fn table_noted(n: Noted, items: Seq<DomView>, i: int) -> Noted
    decreases items.len() - i,
{
    if i < 0 || i >= items.len() || n.failed {
        n
    } else if is_element(items[i], "thead"@) {
        match head_rows(n.state, items[i].children, 0) {
            Ok(t) => table_noted(Noted { state: t, ..n }, items, i + 1),
            Err(f) => Noted {
                notes: n.notes + note(0, "planinfo.header"@, f.path),
                failed: true,
                ..n
            },
        }
    } else if is_element(items[i], "tbody"@) {
        table_noted(
            Noted { notes: n.notes + rows_notes(n.state.walk, 0, items[i].children, 0), ..n },
            items,
            i + 1,
        )
    } else {
        table_noted(n, items, i + 1)
    }
}

/// What has been said after the children of the page's plan from index `i`
/// on: each `table` is read from the position at the beginning of a table.
pub open spec fn div_noted(n: Noted, items: Seq<DomView>, i: int) -> Noted
    decreases items.len() - i,
{
    if i < 0 || i >= items.len() || n.failed {
        n
    } else if is_element(items[i], "table"@) {
        div_noted(
            table_noted(
                Noted { state: State { plan: n.state.plan, walk: n.state.walk.at_table() }, ..n },
                items[i].children,
                0,
            ),
            items,
            i + 1,
        )
    } else {
        div_noted(n, items, i + 1)
    }
}

/// Nothing said, before a page.
pub open spec fn unsaid() -> Noted {
    Noted {
        state: State {
            plan: PlanView { teachers: Seq::empty(), rooms: Seq::empty(), students: Seq::empty() },
            walk: WalkView::initial(),
        },
        notes: no_notes(),
        failed: false,
    }
}

/// What there is to say of the plan element of a page.
pub open spec fn div_notes(div: DomView) -> Seq<DiagnosticView> {
    div_noted(unsaid(), div.children, 0).notes
}

/// What there is to say of a page: of the first plan element in the child 2
/// of the document's child 1, if there is one.
pub open spec fn page_notes(doc: DomView) -> Seq<DiagnosticView> {
    match child_at(doc, 1) {
        None => no_notes(),
        Some(root) => match child_at(root, 2) {
            None => no_notes(),
            Some(body) => match first_plan(body.children, 0) {
                None => no_notes(),
                Some(div) => div_notes(div),
            },
        },
    }
}

/// Whether what has been gathered, with a failure or without, is what the
/// spec function `r` says.
pub open spec fn gathered(
    plan: PlanInfo,
    walk: Walk,
    notes: Vec<Diagnostic>,
    failed: bool,
    r: Noted,
) -> bool {
    &&& r.failed == failed
    &&& r.notes == notes_view(notes@)
    &&& !failed ==> r.state == state(plan, walk)
}

/// Says what there is to say of the text of a body cell.
pub fn diagnose_cell(walk: &Walk, x: usize, y: usize, raw: &Vec<char>) -> (r: Vec<Diagnostic>)
    ensures
        notes_view(r@) == cell_note(walk@, x as int, y as int, raw@),
{
    let c = trimmed(raw);
    if x >= 5 || y >= 12 {
        return one(0, "planinfo.grid", &c);
    }
    match walk.kind {
        Some(Kind::Teacher) => Hour::diagnose_teacher_cell(&c),
        Some(Kind::Room) => Hour::diagnose_room_cell(&c),
        Some(Kind::Student) => Hour::diagnose_student_cell(&c),
        Some(Kind::Class) => one(1, "planinfo.class", &c),
        None => none(),
    }
}

fn diagnose_cells(walk: &Walk, x: usize, y: usize, cell: &DomNode) -> (r: Vec<Diagnostic>)
    ensures
        notes_view(r@) == cell_notes(walk@, x as int, y as int, cell@.children, 0),
{
    let mut notes = none();
    let mut i: usize = 0;
    assert(notes_view(notes@) + cell_notes(walk@, x as int, y as int, cell@.children, 0)
        =~= cell_notes(walk@, x as int, y as int, cell@.children, 0));
    while i < cell.count()
        invariant
            i <= cell@.children.len(),
            notes_view(notes@) + cell_notes(walk@, x as int, y as int, cell@.children, i as int)
                == cell_notes(walk@, x as int, y as int, cell@.children, 0),
        decreases cell@.children.len() - i,
    {
        match cell.nth(i).text() {
            Some(t) => {
                let ghost before = notes_view(notes@);
                let more = diagnose_cell(walk, x, y, &t);
                assert((before + notes_view(more@)) + cell_notes(
                    walk@,
                    x as int,
                    y as int,
                    cell@.children,
                    i + 1,
                ) =~= before + cell_notes(walk@, x as int, y as int, cell@.children, i as int));
                gather(&mut notes, more);
            },
            None => {},
        }
        i += 1;
    }
    assert(notes_view(notes@) + cell_notes(walk@, x as int, y as int, cell@.children, i as int)
        =~= notes_view(notes@));
    notes
}

fn diagnose_row(walk: &Walk, x: usize, row: &DomNode) -> (r: Vec<Diagnostic>)
    ensures
        notes_view(r@) == row_notes(walk@, x as int, 0, row@.children, 0),
{
    let mut notes = none();
    let mut y: usize = 0;
    let mut i: usize = 0;
    assert(notes_view(notes@) + row_notes(walk@, x as int, 0, row@.children, 0) =~= row_notes(
        walk@,
        x as int,
        0,
        row@.children,
        0,
    ));
    while i < row.count()
        invariant
            i <= row@.children.len(),
            y <= i,
            notes_view(notes@) + row_notes(walk@, x as int, y as int, row@.children, i as int)
                == row_notes(walk@, x as int, 0, row@.children, 0),
        decreases row@.children.len() - i,
    {
        if row.nth(i).is_named("td") {
            let ghost before = notes_view(notes@);
            let more = diagnose_cells(walk, x, y, row.nth(i));
            assert((before + notes_view(more@)) + row_notes(
                walk@,
                x as int,
                y + 1,
                row@.children,
                i + 1,
            ) =~= before + row_notes(walk@, x as int, y as int, row@.children, i as int));
            gather(&mut notes, more);
            y += 1;
        }
        i += 1;
    }
    assert(notes_view(notes@) + row_notes(walk@, x as int, y as int, row@.children, i as int)
        =~= notes_view(notes@));
    notes
}

fn diagnose_rows(walk: &Walk, body: &DomNode) -> (r: Vec<Diagnostic>)
    ensures
        notes_view(r@) == rows_notes(walk@, 0, body@.children, 0),
{
    let mut notes = none();
    let mut x: usize = 0;
    let mut i: usize = 0;
    assert(notes_view(notes@) + rows_notes(walk@, 0, body@.children, 0) =~= rows_notes(
        walk@,
        0,
        body@.children,
        0,
    ));
    while i < body.count()
        invariant
            i <= body@.children.len(),
            x <= i,
            notes_view(notes@) + rows_notes(walk@, x as int, body@.children, i as int)
                == rows_notes(walk@, 0, body@.children, 0),
        decreases body@.children.len() - i,
    {
        if body.nth(i).is_named("tr") {
            let ghost before = notes_view(notes@);
            let more = diagnose_row(walk, x, body.nth(i));
            assert((before + notes_view(more@)) + rows_notes(
                walk@,
                x + 1,
                body@.children,
                i + 1,
            ) =~= before + rows_notes(walk@, x as int, body@.children, i as int));
            gather(&mut notes, more);
            x += 1;
        }
        i += 1;
    }
    assert(notes_view(notes@) + rows_notes(walk@, x as int, body@.children, i as int)
        =~= notes_view(notes@));
    notes
}

fn path_of(e: &PlanError) -> (r: Vec<char>)
    ensures
        e@ matches crate::error::PlanErrorView::FieldNotExists(p) ==> r@ == p,
{
    match e {
        PlanError::FieldNotExists(p) => chars_of(p.as_str()),
        _ => Vec::new(),
    }
}

impl PlanInfo {
    fn note_table(
        &mut self,
        walk: &mut Walk,
        notes: &mut Vec<Diagnostic>,
        table: &DomNode,
    ) -> (failed: bool)
        ensures
            gathered(
                *final(self),
                *final(walk),
                *final(notes),
                failed,
                table_noted(
                    Noted {
                        state: state(*old(self), *old(walk)),
                        notes: notes_view(old(notes)@),
                        failed: false,
                    },
                    table@.children,
                    0,
                ),
            ),
    {
        let ghost start = Noted {
            state: state(*old(self), *old(walk)),
            notes: notes_view(old(notes)@),
            failed: false,
        };
        let mut i: usize = 0;
        while i < table.count()
            invariant
                i <= table@.children.len(),
                start == (Noted {
                    state: state(*old(self), *old(walk)),
                    notes: notes_view(old(notes)@),
                    failed: false,
                }),
                table_noted(
                    Noted { state: state(*self, *walk), notes: notes_view(notes@), failed: false },
                    table@.children,
                    i as int,
                ) == table_noted(start, table@.children, 0),
            decreases table@.children.len() - i,
        {
            let v = table.nth(i);
            if v.is_named("thead") {
                match self.read_head(walk, v) {
                    Ok(_) => {},
                    Err(e) => {
                        gather(notes, one(0, "planinfo.header", &path_of(&e)));
                        return true;
                    },
                }
            } else if v.is_named("tbody") {
                gather(notes, diagnose_rows(walk, v));
            }
            i += 1;
        }
        false
    }

    /// Says what there is to say of the plan element of a page.
    pub fn diagnose_dom_div(node: &DomNode) -> (r: Vec<Diagnostic>)
        ensures
            notes_view(r@) == div_notes(node@),
    {
        let mut scratch = PlanInfo::new();
        let mut walk = Walk {
            kind: None,
            week_a: true,
            first_run: true,
            entry_name: Vec::new(),
            course_string: Vec::new(),
        };
        let mut notes = none();
        let mut i: usize = 0;
        while i < node.count()
            invariant
                i <= node@.children.len(),
                div_noted(
                    Noted {
                        state: state(scratch, walk),
                        notes: notes_view(notes@),
                        failed: false,
                    },
                    node@.children,
                    i as int,
                ) == div_noted(unsaid(), node@.children, 0),
            decreases node@.children.len() - i,
        {
            if node.nth(i).is_named("table") {
                walk.week_a = true;
                walk.first_run = true;
                walk.entry_name = Vec::new();
                walk.course_string = Vec::new();
                let ghost before = Noted {
                    state: state(scratch, walk),
                    notes: notes_view(notes@),
                    failed: false,
                };
                if scratch.note_table(&mut walk, &mut notes, node.nth(i)) {
                    proof {
                        let after = table_noted(before, node@.children[i as int].children, 0);
                        assert(div_noted(after, node@.children, i + 1) == after);
                    }
                    return notes;
                }
            }
            i += 1;
        }
        notes
    }

    /// Says what there is to say of a page, given its document tree.
    pub fn diagnose_dom(handle: &DomNode) -> (r: Vec<Diagnostic>)
        ensures
            notes_view(r@) == page_notes(handle@),
    {
        let body = match handle.child2(1, 2) {
            Some(b) => b,
            None => {
                return none();
            },
        };
        let mut i: usize = 0;
        while i < body.count()
            invariant
                i <= body@.children.len(),
                crate::dom::at2(handle@, 1, 2) == Some(body@),
                first_plan(body@.children, i as int) == first_plan(body@.children, 0),
            decreases body@.children.len() - i,
        {
            let v = body.nth(i);
            if v.is_named("div") && v.is_marked("class", "plan") {
                return PlanInfo::diagnose_dom_div(v);
            }
            i += 1;
        }
        none()
    }

    /// Says what there is to say of a page, given its text: of the tree
    /// that the HTML parser builds from the text as the parser of pages
    /// hands it over.
    pub fn diagnose_str(html: &str) -> (r: Vec<Diagnostic>)
        ensures
            notes_view(r@) == match html_tree(page_text(html@)) {
                Some(doc) => page_notes(doc),
                None => no_notes(),
            },
    {
        let text = replaced(&chars_of(html), &chars_of("&nbsp;"), &chars_of(" "));
        let clean = string_of(&trimmed(&text));
        match parse_html(clean.as_str()) {
            Some(doc) => PlanInfo::diagnose_dom(&doc),
            None => none(),
        }
    }
}

} // verus!
