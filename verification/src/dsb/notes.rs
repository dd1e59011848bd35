//! What there is to say of a substitution plan: the diagnostics of the
//! fragments that its document holds, in document order.
//!
//! The diagnostics are those of the rows that begin an entry, for their
//! course, kind and room cells, and of the rows of the info table whose label
//! the plan does not know. They are gathered from every block that follows a
//! header table, whether or not the block can be read as a whole.

use crate::common::{Course, CourseView, Room};
use crate::diagnostic::{
    gather, no_notes, none, note, notes_view, one, Diagnostic, DiagnosticView,
};
use crate::dom::{at2, at3, child_at, html_tree, is_element, parse_html, text_of, DomNode, DomView};
use crate::dsb::laws::{is_block, is_header};
use crate::dsb::parse::{
    begins_entry, info_row_unknown, normalized, text_or_empty, unmark, unmarked,
};
use crate::dsb::{Config, EntryKind, EntryKindView};
use crate::text::{chars_of, has, replaced, same, string_of, trimmed};
use crate::text::trim;
use vstd::prelude::*;

verus! {

/// The text of the node at a path, if there is such a node and it is a text.
pub open spec fn cell_text(n: Option<DomView>) -> Option<Seq<char>> {
    match n {
        Some(c) => text_of(c),
        None => None,
    }
}

/// What there is to say of a course cell of the class `name`.
pub open spec fn course_cell_notes(name: Seq<char>, t: Option<Seq<char>>) -> Seq<DiagnosticView> {
    match t {
        Some(t) => CourseView::dsb_notes(name, unmarked(t)),
        None => no_notes(),
    }
}

/// What there is to say of a kind cell.
pub open spec fn kind_cell_notes(t: Option<Seq<char>>) -> Seq<DiagnosticView> {
    match t {
        Some(t) => EntryKindView::notes(unmarked(t)),
        None => no_notes(),
    }
}

/// What there is to say of a room cell: nothing where it is blank.
pub open spec fn room_cell_notes(t: Option<Seq<char>>) -> Seq<DiagnosticView> {
    match t {
        Some(t) => if unmarked(t).len() == 0 {
            no_notes()
        } else {
            Room::notes(unmarked(t))
        },
        None => no_notes(),
    }
}

/// What there is to say of a row of the entry grid: of a row of eight cells
/// that begins an entry, the diagnostics of its course, of the course that
/// was planned, of its kind and of its room, in this order.
pub open spec fn row_notes(row: DomView) -> Seq<DiagnosticView> {
    if row.children.len() != 8 || !begins_entry(row) {
        no_notes()
    } else {
        let name = text_of(at2(row, 0, 0).unwrap()).unwrap();
        course_cell_notes(name, cell_text(at2(row, 3, 0))) + course_cell_notes(
            name,
            cell_text(at2(row, 4, 0)),
        ) + kind_cell_notes(cell_text(at2(row, 6, 0))) + room_cell_notes(
            cell_text(at3(row, 7, 0, 0)),
        )
    }
}

/// What there is to say of the rows of an entry grid from index `i` on.
pub open spec fn grid_notes(rows: Seq<DomView>, i: int) -> Seq<DiagnosticView>
    decreases rows.len() - i,
{
    if i < 0 || i >= rows.len() {
        no_notes()
    } else {
        row_notes(rows[i]) + grid_notes(rows, i + 1)
    }
}

/// What there is to say of a row of the info table: that its label is not
/// known.
pub open spec fn info_row_notes(row: DomView) -> Seq<DiagnosticView> {
    if info_row_unknown(row) {
        note(0, "td.info"@, trim(text_or_empty(at2(row, 0, 0).unwrap())))
    } else {
        no_notes()
    }
}

/// What there is to say of the rows of an info table from index `i` on.
pub open spec fn info_notes(rows: Seq<DomView>, i: int) -> Seq<DiagnosticView>
    decreases rows.len() - i,
{
    if i < 0 || i >= rows.len() {
        no_notes()
    } else {
        info_row_notes(rows[i]) + info_notes(rows, i + 1)
    }
}

/// What there is to say of the info table of a block.
pub open spec fn table_notes(center: DomView) -> Seq<DiagnosticView> {
    match at2(center, 3, 1) {
        Some(body) => info_notes(body.children, 0),
        None => no_notes(),
    }
}

/// What there is to say of a block: of its info table, then of its entry
/// grid.
pub open spec fn center_notes(center: DomView) -> Seq<DiagnosticView> {
    table_notes(center) + match at3(center, 5, 1, 1) {
        Some(grid) => grid_notes(grid.children, 0),
        None => no_notes(),
    }
}

/// What there is to say of the children of a body from index `i` on, where
/// `pending` says whether a header table waits for its block.
pub open spec fn body_notes(items: Seq<DomView>, i: int, pending: bool) -> Seq<DiagnosticView>
    decreases items.len() - i,
{
    if i < 0 || i >= items.len() {
        no_notes()
    } else if is_element(items[i], "table"@) {
        body_notes(items, i + 1, pending || is_header(items[i]))
    } else if is_block(items[i]) && pending {
        center_notes(items[i]) + body_notes(items, i + 1, false)
    } else {
        body_notes(items, i + 1, pending)
    }
}

/// What there is to say of the children of the root element from index `i`
/// on.
pub open spec fn root_notes(items: Seq<DomView>, i: int) -> Seq<DiagnosticView>
    decreases items.len() - i,
{
    if i < 0 || i >= items.len() {
        no_notes()
    } else if is_element(items[i], "body"@) {
        body_notes(items[i].children, 0, false) + root_notes(items, i + 1)
    } else {
        root_notes(items, i + 1)
    }
}

/// What there is to say of a document.
pub open spec fn doc_notes(doc: DomView) -> Seq<DiagnosticView> {
    match child_at(doc, 0) {
        Some(root) => root_notes(root.children, 0),
        None => no_notes(),
    }
}

fn read_cell_text(n: Option<&DomNode>) -> (r: Option<Vec<char>>)
    ensures
        match r {
            Some(t) => cell_text(
                match n {
                    Some(c) => Some(c@),
                    None => None,
                },
            ) == Some(t@),
            None => cell_text(
                match n {
                    Some(c) => Some(c@),
                    None => None,
                },
            ) is None,
        },
{
    match n {
        Some(c) => c.text(),
        None => None,
    }
}

fn course_cell(name: &Vec<char>, t: Option<Vec<char>>) -> (r: Vec<Diagnostic>)
    ensures
        notes_view(r@) == course_cell_notes(
            name@,
            match t {
                Some(t) => Some(t@),
                None => None,
            },
        ),
{
    match t {
        Some(t) => Course::diagnose_dsb_chars(name, &unmark(&t)),
        None => none(),
    }
}

fn kind_cell(t: Option<Vec<char>>) -> (r: Vec<Diagnostic>)
    ensures
        notes_view(r@) == kind_cell_notes(
            match t {
                Some(t) => Some(t@),
                None => None,
            },
        ),
{
    match t {
        Some(t) => {
            let text = string_of(&unmark(&t));
            EntryKind::diagnose(text.as_str())
        },
        None => none(),
    }
}

fn room_cell(t: Option<Vec<char>>) -> (r: Vec<Diagnostic>)
    ensures
        notes_view(r@) == room_cell_notes(
            match t {
                Some(t) => Some(t@),
                None => None,
            },
        ),
{
    match t {
        Some(t) => {
            let code = unmark(&t);
            if code.len() == 0 {
                none()
            } else {
                Room::diagnose_chars(&code)
            }
        },
        None => none(),
    }
}

/// Says what class a row of the entry grid begins an entry for, if it has
/// eight cells and begins one.
pub fn entry_name(row: &DomNode) -> (r: Option<Vec<char>>)
    ensures
        match r {
            Some(name) => row@.children.len() == 8 && begins_entry(row@) && text_of(
                at2(row@, 0, 0).unwrap(),
            ) == Some(name@),
            None => row@.children.len() != 8 || !begins_entry(row@),
        },
{
    if row.count() != 8 {
        return None;
    }
    match row.child2(0, 0) {
        Some(cell) => match cell.text() {
            Some(name) => {
                if has(&name, &chars_of("Klasse")) || same(&name, &chars_of(" ")) {
                    None
                } else {
                    Some(name)
                }
            },
            None => None,
        },
        None => None,
    }
}

/// Says what there is to say of a row of the entry grid.
pub fn diagnose_row(row: &DomNode) -> (r: Vec<Diagnostic>)
    ensures
        notes_view(r@) == row_notes(row@),
{
    let name = match entry_name(row) {
        Some(n) => n,
        None => {
            return none();
        },
    };
    let mut notes = course_cell(&name, read_cell_text(row.child2(3, 0)));
    gather(&mut notes, course_cell(&name, read_cell_text(row.child2(4, 0))));
    gather(&mut notes, kind_cell(read_cell_text(row.child2(6, 0))));
    gather(&mut notes, room_cell(read_cell_text(row.child3(7, 0, 0))));
    notes
}

fn diagnose_grid(grid: &DomNode) -> (r: Vec<Diagnostic>)
    ensures
        notes_view(r@) == grid_notes(grid@.children, 0),
{
    let mut notes = none();
    let mut i: usize = 0;
    assert(notes_view(notes@) + grid_notes(grid@.children, 0) =~= grid_notes(grid@.children, 0));
    while i < grid.count()
        invariant
            i <= grid@.children.len(),
            notes_view(notes@) + grid_notes(grid@.children, i as int) == grid_notes(
                grid@.children,
                0,
            ),
        decreases grid@.children.len() - i,
    {
        let ghost before = notes_view(notes@);
        let more = diagnose_row(grid.nth(i));
        assert((before + notes_view(more@)) + grid_notes(grid@.children, i + 1) =~= before
            + grid_notes(grid@.children, i as int));
        gather(&mut notes, more);
        i += 1;
    }
    assert(notes_view(notes@) + grid_notes(grid@.children, i as int) =~= notes_view(notes@));
    notes
}

fn diagnose_info_row(row: &DomNode) -> (r: Vec<Diagnostic>)
    ensures
        notes_view(r@) == info_row_notes(row@),
{
    if !crate::dsb::DSB::info_row_is_unknown(row) {
        return none();
    }
    match row.child2(0, 0) {
        Some(key) => {
            let label = match key.text() {
                Some(t) => trimmed(&t),
                None => trimmed(&Vec::new()),
            };
            one(0, "td.info", &label)
        },
        None => none(),
    }
}

fn diagnose_info(center: &DomNode) -> (r: Vec<Diagnostic>)
    ensures
        notes_view(r@) == table_notes(center@),
{
    let body = match center.child2(3, 1) {
        Some(b) => b,
        None => {
            return none();
        },
    };
    let mut notes = none();
    let mut i: usize = 0;
    assert(notes_view(notes@) + info_notes(body@.children, 0) =~= info_notes(body@.children, 0));
    while i < body.count()
        invariant
            i <= body@.children.len(),
            at2(center@, 3, 1) == Some(body@),
            notes_view(notes@) + info_notes(body@.children, i as int) == info_notes(
                body@.children,
                0,
            ),
        decreases body@.children.len() - i,
    {
        let ghost before = notes_view(notes@);
        let more = diagnose_info_row(body.nth(i));
        assert((before + notes_view(more@)) + info_notes(body@.children, i + 1) =~= before
            + info_notes(body@.children, i as int));
        gather(&mut notes, more);
        i += 1;
    }
    assert(notes_view(notes@) + info_notes(body@.children, i as int) =~= notes_view(notes@));
    notes
}

/// Says what there is to say of a block.
pub fn diagnose_center(center: &DomNode) -> (r: Vec<Diagnostic>)
    ensures
        notes_view(r@) == center_notes(center@),
{
    let mut notes = diagnose_info(center);
    match center.child3(5, 1, 1) {
        Some(grid) => {
            gather(&mut notes, diagnose_grid(grid));
        },
        None => {
            assert(notes_view(notes@) + no_notes() =~= notes_view(notes@));
        },
    }
    notes
}

fn diagnose_body(body: &DomNode) -> (r: Vec<Diagnostic>)
    ensures
        notes_view(r@) == body_notes(body@.children, 0, false),
{
    let mut notes = none();
    let mut pending = false;
    let mut i: usize = 0;
    assert(notes_view(notes@) + body_notes(body@.children, 0, false) =~= body_notes(
        body@.children,
        0,
        false,
    ));
    while i < body.count()
        invariant
            i <= body@.children.len(),
            notes_view(notes@) + body_notes(body@.children, i as int, pending) == body_notes(
                body@.children,
                0,
                false,
            ),
        decreases body@.children.len() - i,
    {
        let w = body.nth(i);
        if w.is_named("table") {
            if w.is_marked("class", "mon_head") {
                pending = true;
            }
        } else if w.is_named("center") && pending {
            let ghost before = notes_view(notes@);
            let more = diagnose_center(w);
            assert((before + notes_view(more@)) + body_notes(body@.children, i + 1, false)
                =~= before + body_notes(body@.children, i as int, pending));
            gather(&mut notes, more);
            pending = false;
        }
        i += 1;
    }
    assert(notes_view(notes@) + body_notes(body@.children, i as int, pending) =~= notes_view(
        notes@,
    ));
    notes
}

impl Config {
    /// Says what there is to say of a document tree.
    pub fn diagnose_dom(&self, handle: &DomNode) -> (r: Vec<Diagnostic>)
        ensures
            notes_view(r@) == doc_notes(handle@),
    {
        let root = match handle.child(0) {
            Some(n) => n,
            None => {
                return none();
            },
        };
        let mut notes = none();
        let mut i: usize = 0;
        assert(notes_view(notes@) + root_notes(root@.children, 0) =~= root_notes(
            root@.children,
            0,
        ));
        while i < root.count()
            invariant
                i <= root@.children.len(),
                child_at(handle@, 0) == Some(root@),
                notes_view(notes@) + root_notes(root@.children, i as int) == root_notes(
                    root@.children,
                    0,
                ),
            decreases root@.children.len() - i,
        {
            let v = root.nth(i);
            if v.is_named("body") {
                let ghost before = notes_view(notes@);
                let more = diagnose_body(v);
                assert((before + notes_view(more@)) + root_notes(root@.children, i + 1) =~= before
                    + root_notes(root@.children, i as int));
                gather(&mut notes, more);
            }
            i += 1;
        }
        assert(notes_view(notes@) + root_notes(root@.children, i as int) =~= notes_view(notes@));
        notes
    }

    /// Says what there is to say of the text of a document: of the tree
    /// that the HTML parser builds from the text with a space in place of
    /// each entity of the non-breaking space.
    pub fn diagnose(&self, html: &str) -> (r: Vec<Diagnostic>)
        ensures
            notes_view(r@) == match html_tree(normalized(html@)) {
                Some(doc) => doc_notes(doc),
                None => no_notes(),
            },
    {
        let text = replaced(&chars_of(html), &chars_of("&nbsp;"), &chars_of(" "));
        let clean = string_of(&text);
        match parse_html(clean.as_str()) {
            Some(doc) => self.diagnose_dom(&doc),
            None => none(),
        }
    }
}

} // verus!
