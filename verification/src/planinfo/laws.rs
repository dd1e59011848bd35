//! What holds of every timetable page, proved from the definitions of the
//! parser.

use crate::dom::{child_at, has_mark, is_element, text_of, DomView};
use crate::planinfo::parse::{
    div_items, div_read, first_plan, head_rows, header_cell, header_cells, label_read,
    page_read, table_items, title_item, title_items, title_ok, Failed, Page, State, WalkView,
};
use crate::planinfo::PlanView;
use crate::text::{contains, ends_with, starts_with, trim};
use vstd::prelude::*;

verus! {

/// Whether a header text is the label of a page without a timetable: it
/// ends with `-Woche-Stundenplan von` and names no teacher, room or student.
pub open spec fn is_empty_label(raw: Seq<char>) -> bool {
    &&& ends_with(trim(raw), "-Woche-Stundenplan von"@)
    &&& !contains(trim(raw), "Lehrer/in"@)
    &&& !contains(trim(raw), "Raum"@)
    &&& !contains(trim(raw), "Sch\u{fc}ler/in"@)
}

/// The label of a page without a timetable is the error `PlanInfo empty`,
/// whatever has been read before, and leaves the tables as they are.
pub proof fn lemma_empty_label(s: State, raw: Seq<char>)
    requires
        is_empty_label(raw),
    ensures
        label_read(s, raw) == Err::<State, Failed>(
            Failed { path: "PlanInfo empty"@, plan: s.plan },
        ),
{
}

/// Whether a header text is no label at all: it names no teacher, room,
/// student or class, is not the label of a page without a timetable, and is
/// no text in parentheses.
pub open spec fn is_no_label(raw: Seq<char>) -> bool {
    &&& !contains(trim(raw), "Lehrer/in"@)
    &&& !contains(trim(raw), "Raum"@)
    &&& !contains(trim(raw), "Sch\u{fc}ler/in"@)
    &&& !ends_with(trim(raw), "-Woche-Stundenplan von"@)
    &&& !(starts_with(trim(raw), "("@) && ends_with(trim(raw), ")"@))
    &&& !contains(trim(raw), "Klasse"@)
}

/// A header text that is no label is the error `PlanInfo header kind`,
/// whatever has been read before, and leaves the tables as they are.
pub proof fn lemma_no_label(s: State, raw: Seq<char>)
    requires
        is_no_label(raw),
    ensures
        label_read(s, raw) == Err::<State, Failed>(
            Failed { path: "PlanInfo header kind"@, plan: s.plan },
        ),
{
}

/// A header text that cannot be read leaves the tables as they are, and
/// fails in one of two ways.
pub proof fn lemma_label_failure(s: State, raw: Seq<char>)
    ensures
        label_read(s, raw) matches Err(f) ==> f.plan == s.plan && (f.path == "PlanInfo empty"@
            || f.path == "PlanInfo header kind"@),
{
}

/// Reading a header cell passes over the children that are neither a text
/// nor a `span`.
pub proof fn lemma_title_skip(s: State, items: Seq<DomView>, i: int, k: int)
    requires
        0 <= i <= k <= items.len(),
        forall|j: int|
            i <= j < k ==> text_of(#[trigger] items[j]) is None && !is_element(
                items[j],
                "span"@,
            ),
    ensures
        title_items(s, items, i) == title_items(s, items, k),
    decreases k - i,
{
    if i < k {
        assert(title_item(s, items[i]) == Ok::<State, Failed>(s));
        lemma_title_skip(s, items, i + 1, k);
    }
}

/// Reading a header row passes over the cells that are not marked `titel`.
pub proof fn lemma_cells_skip(s: State, items: Seq<DomView>, i: int, k: int)
    requires
        0 <= i <= k <= items.len(),
        forall|j: int| i <= j < k ==> !has_mark(#[trigger] items[j], "class"@, "titel"@),
    ensures
        header_cells(s, items, i) == header_cells(s, items, k),
    decreases k - i,
{
    if i < k {
        assert(header_cell(s, items[i]) == Ok::<State, Failed>(s));
        lemma_cells_skip(s, items, i + 1, k);
    }
}

/// Reading a table's head passes over the children that are no `tr`.
pub proof fn lemma_rows_skip(s: State, items: Seq<DomView>, i: int, k: int)
    requires
        0 <= i <= k <= items.len(),
        forall|j: int| i <= j < k ==> !is_element(#[trigger] items[j], "tr"@),
    ensures
        head_rows(s, items, i) == head_rows(s, items, k),
    decreases k - i,
{
    if i < k {
        lemma_rows_skip(s, items, i + 1, k);
    }
}

/// Reading a table passes over the children that are neither its head nor
/// its body.
pub proof fn lemma_table_skip(s: State, items: Seq<DomView>, i: int, k: int)
    requires
        0 <= i <= k <= items.len(),
        forall|j: int|
            i <= j < k ==> !is_element(#[trigger] items[j], "thead"@) && !is_element(
                items[j],
                "tbody"@,
            ),
    ensures
        table_items(s, items, i) == table_items(s, items, k),
    decreases k - i,
{
    if i < k {
        lemma_table_skip(s, items, i + 1, k);
    }
}

/// Reading the plan passes over the children that are no `table`.
pub proof fn lemma_div_skip(s: State, items: Seq<DomView>, i: int, k: int)
    requires
        0 <= i <= k <= items.len(),
        forall|j: int| i <= j < k ==> !is_element(#[trigger] items[j], "table"@),
    ensures
        div_items(s, items, i) == div_items(s, items, k),
    decreases k - i,
{
    if i < k {
        lemma_div_skip(s, items, i + 1, k);
    }
}

/// Where the first header text of a page stands: the indices of the first
/// table in the plan, of the head before which the table has neither head
/// nor body, of the head's first row, of the row's first cell marked `titel`
/// and of the text in that cell.
pub struct LabelPlace {
    pub table: int,
    pub head: int,
    pub row: int,
    pub cell: int,
    pub text: int,
}

/// Whether the first header text that is read of the plan element of a
/// page is `label`, at the place `at`. Before the table, the head, the row
/// and the cell there may be any other nodes, and before the text any nodes
/// but texts and `span` elements; after them there may be anything.
pub open spec fn first_label_is(div: DomView, at: LabelPlace, label: Seq<char>) -> bool {
    &&& 0 <= at.table < div.children.len()
    &&& is_element(div.children[at.table], "table"@)
    &&& forall|j: int| 0 <= j < at.table ==> !is_element(#[trigger] div.children[j], "table"@)
    &&& {
        let table = div.children[at.table];
        &&& 0 <= at.head < table.children.len()
        &&& is_element(table.children[at.head], "thead"@)
        &&& forall|j: int|
            0 <= j < at.head ==> !is_element(#[trigger] table.children[j], "thead"@)
                && !is_element(table.children[j], "tbody"@)
        &&& {
            let head = table.children[at.head];
            &&& 0 <= at.row < head.children.len()
            &&& is_element(head.children[at.row], "tr"@)
            &&& forall|j: int| 0 <= j < at.row ==> !is_element(#[trigger] head.children[j], "tr"@)
            &&& {
                let row = head.children[at.row];
                &&& 0 <= at.cell < row.children.len()
                &&& has_mark(row.children[at.cell], "class"@, "titel"@)
                &&& forall|j: int|
                    0 <= j < at.cell ==> !has_mark(
                        #[trigger] row.children[j],
                        "class"@,
                        "titel"@,
                    )
                &&& {
                    let cell = row.children[at.cell];
                    &&& 0 <= at.text < cell.children.len()
                    &&& text_of(cell.children[at.text]) == Some(label)
                    &&& forall|j: int|
                        0 <= j < at.text ==> text_of(#[trigger] cell.children[j]) is None
                            && !is_element(cell.children[j], "span"@)
                }
            }
        }
    }
}

/// The state in which the first table of a page is read.
pub open spec fn at_first_table(plan: PlanView) -> State {
    State { plan, walk: WalkView::initial().at_table() }
}

/// A plan element whose first header text cannot be read fails as that
/// text fails, yields no table, and leaves the tables read before as they
/// were.
pub proof fn lemma_first_label_fails(plan: PlanView, div: DomView, at: LabelPlace, label: Seq<char>)
    requires
        first_label_is(div, at, label),
        label_read(at_first_table(plan), label) is Err,
    ensures
        div_read(plan, div) == Err::<Page, Failed>(
            Failed { path: label_read(at_first_table(plan), label)->Err_0.path, plan },
        ),
{
    let s = at_first_table(plan);
    lemma_label_failure(s, label);
    let f = label_read(s, label)->Err_0;
    let table = div.children[at.table];
    let head = table.children[at.head];
    let row = head.children[at.row];
    let cell = row.children[at.cell];
    lemma_title_skip(s, cell.children, 0, at.text);
    assert(title_item(s, cell.children[at.text]) == Err::<State, Failed>(f));
    assert(title_items(s, cell.children, at.text) == Err::<State, Failed>(f));
    assert(header_cell(s, cell) == Err::<State, Failed>(f));
    lemma_cells_skip(s, row.children, 0, at.cell);
    assert(header_cells(s, row.children, at.cell) == Err::<State, Failed>(f));
    lemma_rows_skip(s, head.children, 0, at.row);
    assert(head_rows(s, head.children, at.row) == Err::<State, Failed>(f));
    lemma_table_skip(s, table.children, 0, at.head);
    assert(table_items(s, table.children, at.head) == Err::<State, Failed>(f));
    let start = State { plan, walk: WalkView::initial() };
    lemma_div_skip(start, div.children, 0, at.table);
    assert(div_items(start, div.children, at.table) == Err::<State, Failed>(f));
}

/// A plan element whose first header text is the label of a page without
/// a timetable yields the error `PlanInfo empty` and no table, and leaves
/// the tables read before as they were.
pub proof fn lemma_empty_plan(plan: PlanView, div: DomView, at: LabelPlace, label: Seq<char>)
    requires
        first_label_is(div, at, label),
        is_empty_label(label),
    ensures
        div_read(plan, div) == Err::<Page, Failed>(Failed { path: "PlanInfo empty"@, plan }),
{
    lemma_empty_label(at_first_table(plan), label);
    lemma_first_label_fails(plan, div, at, label);
}

/// A plan element whose first header text is no label yields the error
/// `PlanInfo header kind` and no table, and leaves the tables read before as
/// they were.
pub proof fn lemma_unknown_plan(plan: PlanView, div: DomView, at: LabelPlace, label: Seq<char>)
    requires
        first_label_is(div, at, label),
        is_no_label(label),
    ensures
        div_read(plan, div) == Err::<Page, Failed>(
            Failed { path: "PlanInfo header kind"@, plan },
        ),
{
    lemma_no_label(at_first_table(plan), label);
    lemma_first_label_fails(plan, div, at, label);
}

/// A page that shows a timetable view whose first header text is the
/// label of a page without a timetable yields the error `PlanInfo empty` and
/// no table, and leaves the tables read before as they were.
pub proof fn lemma_empty_page(
    plan: PlanView,
    doc: DomView,
    div: DomView,
    at: LabelPlace,
    label: Seq<char>,
)
    requires
        child_at(doc, 1) matches Some(root) && root.children.len() >= 3 && title_ok(
            root.children[0].children,
            0,
        ) && first_plan(root.children[2].children, 0) == Some(div),
        first_label_is(div, at, label),
        is_empty_label(label),
    ensures
        page_read(plan, doc) == Err::<Page, Failed>(Failed { path: "PlanInfo empty"@, plan }),
{
    lemma_empty_plan(plan, div, at, label);
}

} // verus!
