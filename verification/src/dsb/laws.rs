//! What holds of every substitution plan, proved from the definitions of
//! the parser.

use crate::common::{CourseView, Room};
use crate::dom::{at2, at3, child_at, has_mark, is_element, text_of, DomView};
use crate::dsb::parse::{
    begins_entry, body_item, body_items, centered, days_of, entry_of, grid_row, grid_rows,
    header_of, info_rows, informed, is_heading, period_of, room_of, root_item,
    root_items, titled, unmarked, with_remark, Scan, Stopped,
};
use crate::dsb::{DSBView, EntryKindView, EntryView};
use crate::text::{contains, matches_at};
use vstd::prelude::*;

verus! {

/// A row of eight cells whose first cell is the blank text never adds an
/// entry: it leaves the entries as they are but for the last, to whose
/// remark it appends its own, where that is a text. Before the first entry
/// it changes nothing; it fails only where its remark cell is missing.
pub proof fn lemma_continuation_row(es: Seq<EntryView>, row: DomView)
    requires
        row.children.len() == 8,
        at2(row, 0, 0) matches Some(cell) && text_of(cell) == Some(" "@),
    ensures
        match grid_row(es, row) {
            Ok(after) => {
                &&& after.len() == es.len()
                &&& forall|i: int| 0 <= i < es.len() - 1 ==> after[i] == es[i]
                &&& es.len() > 0 ==> after.last() == (EntryView {
                    message: after.last().message,
                    ..es.last()
                })
                &&& es.len() > 0 ==> match text_of(at2(row, 5, 0).unwrap()) {
                    Some(t) => after.last().message == es.last().message + unmarked(t),
                    None => after.last().message == es.last().message,
                }
            },
            Err(_) => es.len() > 0 && at2(row, 5, 0) is None,
        },
{
    reveal_strlit(" ");
    reveal_strlit("Klasse");
    assert(!contains(" "@, "Klasse"@)) by {
        assert forall|i: int| !matches_at(" "@, "Klasse"@, i) by {}
    }
    assert(!is_heading(row));
    assert(!begins_entry(row));
}

/// Whether a child of the body is the header table of a day.
pub open spec fn is_header(w: DomView) -> bool {
    is_element(w, "table"@) && has_mark(w, "class"@, "mon_head"@)
}

/// Whether a child of the body is a block that completes a day.
pub open spec fn is_block(w: DomView) -> bool {
    is_element(w, "center"@)
}

/// Whether no block follows a header table among the first `n` of `items`.
pub open spec fn no_block_follows(items: Seq<DomView>, n: int) -> bool {
    forall|i: int, j: int|
        0 <= i < j < n && is_header(#[trigger] items[i]) ==> !is_block(#[trigger] items[j])
}

/// Where no block follows a header table, reading a body completes no day
/// record, and a record is begun only where a header table stands.
pub proof fn lemma_body_without_block(days: Seq<DSBView>, items: Seq<DomView>, n: int)
    requires
        0 <= n <= items.len(),
        no_block_follows(items, n),
    ensures
        match body_items(Scan { days, pending: None }, items, n) {
            Ok(t) => t.days == days && (t.pending is Some ==> exists|i: int|
                0 <= i < n && is_header(#[trigger] items[i])),
            Err(_) => true,
        },
    decreases n,
{
    reveal_strlit("table");
    reveal_strlit("center");
    if n > 0 {
        assert(no_block_follows(items, n - 1));
        lemma_body_without_block(days, items, n - 1);
        let start = Scan { days, pending: None };
        match body_items(start, items, n - 1) {
            Ok(t) => {
                let w = items[n - 1];
                if is_element(w, "table"@) {
                    if has_mark(w, "class"@, "mon_head"@) {
                        assert(is_header(items[n - 1]));
                    }
                } else if is_element(w, "center"@) && t.pending is Some {
                    let i = choose|i: int| 0 <= i < n - 1 && is_header(#[trigger] items[i]);
                    assert(is_header(items[i]) && is_block(items[n - 1]));
                    assert(false);
                }
            },
            Err(_) => {},
        }
    }
}

/// Whether no block follows a header table in any body among the first `n`
/// of `items`.
pub open spec fn no_day_completed(items: Seq<DomView>, n: int) -> bool {
    forall|k: int|
        0 <= k < n && is_element(#[trigger] items[k], "body"@) ==> no_block_follows(
            items[k].children,
            items[k].children.len() as int,
        )
}

/// Where no block follows a header table, the children of the root element
/// complete no day record.
pub proof fn lemma_root_without_block(items: Seq<DomView>, n: int)
    requires
        0 <= n <= items.len(),
        no_day_completed(items, n),
    ensures
        root_items(Seq::empty(), items, n) matches Ok(days) ==> days.len() == 0,
    decreases n,
{
    if n > 0 {
        assert(no_day_completed(items, n - 1));
        lemma_root_without_block(items, n - 1);
        match root_items(Seq::empty(), items, n - 1) {
            Ok(days) => {
                let v = items[n - 1];
                if is_element(v, "body"@) {
                    lemma_body_without_block(days, v.children, v.children.len() as int);
                }
            },
            Err(_) => {},
        }
    }
}

/// A document in which a header table is not followed by a block yields no
/// day record: a header alone completes none.
pub proof fn lemma_header_alone_yields_nothing(doc: DomView)
    requires
        child_at(doc, 0) matches Some(root) && no_day_completed(
            root.children,
            root.children.len() as int,
        ),
    ensures
        days_of(doc) matches Ok(days) ==> days.len() == 0,
{
    let root = child_at(doc, 0).unwrap();
    lemma_root_without_block(root.children, root.children.len() as int);
}

/// Whether every header table among the first `n` of `items` can be read.
pub open spec fn headers_readable(items: Seq<DomView>, n: int) -> bool {
    forall|i: int| 0 <= i < n && is_header(#[trigger] items[i]) ==> header_of(items[i]) is Ok
}

/// Where no block follows a header table and every header table can be
/// read, reading a body succeeds and completes no day record.
pub proof fn lemma_body_of_headers(days: Seq<DSBView>, items: Seq<DomView>, n: int)
    requires
        0 <= n <= items.len(),
        no_block_follows(items, n),
        headers_readable(items, n),
    ensures
        body_items(Scan { days, pending: None }, items, n) matches Ok(t) && t.days == days,
    decreases n,
{
    if n > 0 {
        assert(no_block_follows(items, n - 1));
        assert(headers_readable(items, n - 1));
        lemma_body_of_headers(days, items, n - 1);
        lemma_body_without_block(days, items, n - 1);
        lemma_body_without_block(days, items, n);
        let t = body_items(Scan { days, pending: None }, items, n - 1)->Ok_0;
        let w = items[n - 1];
        if is_header(w) {
            assert(header_of(items[n - 1]) is Ok);
        } else if is_element(w, "center"@) && t.pending is Some {
            let i = choose|i: int| 0 <= i < n - 1 && is_header(#[trigger] items[i]);
            assert(is_header(items[i]) && is_block(items[n - 1]));
        }
    }
}

/// Whether, in every body among the first `n` of `items`, no block follows
/// a header table and every header table can be read.
pub open spec fn only_headers(items: Seq<DomView>, n: int) -> bool {
    forall|k: int|
        0 <= k < n && is_element(#[trigger] items[k], "body"@) ==> no_block_follows(
            items[k].children,
            items[k].children.len() as int,
        ) && headers_readable(items[k].children, items[k].children.len() as int)
}

/// Where no block follows a header table and every header table can be
/// read, the children of the root element are read and complete no day
/// record.
pub proof fn lemma_root_of_headers(items: Seq<DomView>, n: int)
    requires
        0 <= n <= items.len(),
        only_headers(items, n),
    ensures
        root_items(Seq::empty(), items, n) == Ok::<Seq<DSBView>, Seq<char>>(Seq::empty()),
    decreases n,
{
    if n > 0 {
        assert(only_headers(items, n - 1));
        lemma_root_of_headers(items, n - 1);
        let v = items[n - 1];
        if is_element(v, "body"@) {
            lemma_body_of_headers(Seq::empty(), v.children, v.children.len() as int);
        }
    }
}

/// A document whose header tables can be read and are not followed by a
/// block is read, and yields no day record.
pub proof fn lemma_headers_alone_are_read(doc: DomView)
    requires
        child_at(doc, 0) matches Some(root) && only_headers(
            root.children,
            root.children.len() as int,
        ),
    ensures
        days_of(doc) == Ok::<Seq<DSBView>, Seq<char>>(Seq::empty()),
{
    let root = child_at(doc, 0).unwrap();
    lemma_root_of_headers(root.children, root.children.len() as int);
}

/// Whether the node at a path is the text `t`.
pub open spec fn holds_text(n: Option<DomView>, t: Seq<char>) -> bool {
    n matches Some(c) && text_of(c) == Some(t)
}

/// The texts of the eight cells of a row of the entry grid.
pub struct RowTexts {
    pub class: Seq<char>,
    pub period: Seq<char>,
    pub teacher: Seq<char>,
    pub course: Seq<char>,
    pub planned: Seq<char>,
    pub remark: Seq<char>,
    pub kind: Seq<char>,
    pub room: Seq<char>,
}

/// Whether a row of eight cells holds the given texts, and its first cell
/// names a class.
pub open spec fn is_data_row(row: DomView, t: RowTexts) -> bool {
    &&& row.children.len() == 8
    &&& t.class != " "@
    &&& !contains(t.class, "Klasse"@)
    &&& holds_text(at2(row, 0, 0), t.class)
    &&& holds_text(at3(row, 1, 0, 0), t.period)
    &&& holds_text(at3(row, 2, 0, 0), t.teacher)
    &&& holds_text(at2(row, 3, 0), t.course)
    &&& holds_text(at2(row, 4, 0), t.planned)
    &&& holds_text(at2(row, 5, 0), t.remark)
    &&& holds_text(at2(row, 6, 0), t.kind)
    &&& holds_text(at3(row, 7, 0, 0), t.room)
}

/// The entry that the texts of a row denote.
pub open spec fn entry_from(t: RowTexts) -> EntryView {
    EntryView {
        name: t.class,
        course: CourseView::of_dsb(t.class, unmarked(t.course)),
        old_course: CourseView::of_dsb(t.class, unmarked(t.planned)),
        time: period_of(t.period),
        new_teacher: unmarked(t.teacher),
        old_teacher: Seq::empty(),
        message: unmarked(t.remark),
        kind: EntryKindView::of_text(unmarked(t.kind)),
        room: room_of(t.room),
    }
}

/// A row of eight cells that names a class adds exactly the entry that its
/// texts denote. Where a text has no blanks or hyphens around it, the
/// teacher and the remark are the texts as they stand, and the room is what
/// the room text denotes as a code.
pub proof fn lemma_data_row(es: Seq<EntryView>, row: DomView, t: RowTexts)
    requires
        is_data_row(row, t),
    ensures
        grid_row(es, row) == Ok::<Seq<EntryView>, Stopped>(es.push(entry_from(t))),
        unmarked(t.teacher) == t.teacher ==> entry_from(t).new_teacher == t.teacher,
        unmarked(t.remark) == t.remark ==> entry_from(t).message == t.remark,
        unmarked(t.room) == t.room && t.room.len() > 0 ==> entry_from(t).room == Room::of_code(
            t.room,
        ),
{
    assert(!is_heading(row));
    assert(begins_entry(row));
    assert(entry_of(t.class, row) == Ok::<EntryView, Seq<char>>(entry_from(t)));
}

/// Reading an info table leaves the entries of a day as they are.
pub proof fn lemma_info_keeps_entries(d: DSBView, rows: Seq<DomView>, n: int)
    ensures
        info_rows(d, rows, n) matches Ok(after) ==> after.entries == d.entries && after.school
            == d.school && after.date == d.date && after.week == d.week,
    decreases n,
{
    if n > 0 {
        lemma_info_keeps_entries(d, rows, n - 1);
    }
}

/// Whether a row of the entry grid continues an entry: it has eight cells,
/// of which the first is the blank text, and a remark cell.
pub open spec fn is_continuation(row: DomView) -> bool {
    row.children.len() == 8 && holds_text(at2(row, 0, 0), " "@) && at2(row, 5, 0) is Some
}

/// Whether a row of the entry grid adds nothing: it has not eight cells,
/// or it is the grid's heading.
pub open spec fn is_inert(row: DomView) -> bool {
    row.children.len() != 8 || is_heading(row)
}

/// The remark that a row adds to the entry before it: that of a row that
/// continues an entry, where it is a text; nothing of any other row.
pub open spec fn remark_of(row: DomView) -> Seq<char> {
    if is_continuation(row) {
        match text_of(at2(row, 5, 0).unwrap()) {
            Some(t) => unmarked(t),
            None => Seq::empty(),
        }
    } else {
        Seq::empty()
    }
}

/// The remarks of the rows from index `from` up to index `n`, in order.
pub open spec fn remarks(rows: Seq<DomView>, from: int, n: int) -> Seq<char>
    decreases n - from,
{
    if n <= from {
        Seq::empty()
    } else {
        remarks(rows, from, n - 1) + remark_of(rows[n - 1])
    }
}

/// Whether every row from index `from` up to index `n` adds nothing or
/// continues an entry.
pub open spec fn all_follow(rows: Seq<DomView>, from: int, n: int) -> bool {
    forall|j: int| from <= j < n ==> is_inert(#[trigger] rows[j]) || is_continuation(rows[j])
}

/// Whether every row before index `n` adds nothing.
pub open spec fn all_inert(rows: Seq<DomView>, n: int) -> bool {
    forall|j: int| 0 <= j < n ==> is_inert(#[trigger] rows[j])
}

/// The entries with the remark `more` appended to the remark of the last.
proof fn lemma_with_remark(es: Seq<EntryView>, a: Seq<char>, b: Seq<char>)
    requires
        es.len() > 0,
    ensures
        with_remark(es, Seq::empty()) == es,
        with_remark(with_remark(es, a), b) == with_remark(es, a + b),
{
    assert(es.last().message + Seq::<char>::empty() =~= es.last().message);
    assert(with_remark(es, Seq::empty()) =~= es);
    assert((es.last().message + a) + b =~= es.last().message + (a + b));
    assert(with_remark(with_remark(es, a), b) =~= with_remark(es, a + b));
}

/// Rows that add nothing leave the entries as they are.
pub proof fn lemma_inert_rows(es: Seq<EntryView>, rows: Seq<DomView>, n: int)
    requires
        0 <= n <= rows.len(),
        all_inert(rows, n),
    ensures
        grid_rows(es, rows, n) == Ok::<Seq<EntryView>, Stopped>(es),
    decreases n,
{
    if n > 0 {
        lemma_inert_rows(es, rows, n - 1);
        assert(is_inert(rows[n - 1]));
    }
}

/// Rows that follow an entry and continue it or add nothing never add an
/// entry: they leave all entries as they are but the last, to whose remark
/// they append their own remarks in order.
pub proof fn lemma_rows_after_entry(
    init: Seq<EntryView>,
    es: Seq<EntryView>,
    rows: Seq<DomView>,
    m: int,
    n: int,
)
    requires
        0 <= m <= n <= rows.len(),
        grid_rows(init, rows, m) == Ok::<Seq<EntryView>, Stopped>(es),
        es.len() > 0,
        all_follow(rows, m, n),
    ensures
        grid_rows(init, rows, n) == Ok::<Seq<EntryView>, Stopped>(
            with_remark(es, remarks(rows, m, n)),
        ),
        with_remark(es, remarks(rows, m, n)).len() == es.len(),
    decreases n - m,
{
    reveal_strlit(" ");
    reveal_strlit("Klasse");
    assert(!contains(" "@, "Klasse"@)) by {
        assert forall|i: int| !matches_at(" "@, "Klasse"@, i) by {}
    }
    if n == m {
        lemma_with_remark(es, Seq::empty(), Seq::empty());
    } else {
        assert(all_follow(rows, m, n - 1));
        lemma_rows_after_entry(init, es, rows, m, n - 1);
        let before = with_remark(es, remarks(rows, m, n - 1));
        let row = rows[n - 1];
        assert(is_inert(row) || is_continuation(row));
        lemma_with_remark(es, remarks(rows, m, n - 1), remark_of(row));
        lemma_with_remark(before, Seq::empty(), Seq::empty());
        if is_continuation(row) {
            assert(!is_heading(row));
            assert(!begins_entry(row));
            assert(grid_row(before, row) == Ok::<Seq<EntryView>, Stopped>(
                with_remark(before, remark_of(row)),
            ));
        } else {
            assert(grid_row(before, row) == Ok::<Seq<EntryView>, Stopped>(before));
            assert(remark_of(row) == Seq::<char>::empty());
            assert(remarks(rows, m, n - 1) + Seq::<char>::empty() =~= remarks(rows, m, n - 1));
        }
    }
}

/// Whether an entry grid holds one data row, at index `r`, with rows before
/// it that add nothing and rows after it that continue it or add nothing.
pub open spec fn is_entry_grid(rows: Seq<DomView>, r: int, t: RowTexts) -> bool {
    &&& 0 <= r < rows.len()
    &&& all_inert(rows, r)
    &&& is_data_row(rows[r], t)
    &&& all_follow(rows, r + 1, rows.len() as int)
}

/// The entry that a data row and the rows that continue it denote: that of
/// the data row, with their remarks appended to its own in order.
pub open spec fn entry_with(rows: Seq<DomView>, r: int, t: RowTexts) -> EntryView {
    EntryView {
        message: entry_from(t).message + remarks(rows, r + 1, rows.len() as int),
        ..entry_from(t)
    }
}

/// A grid of one data row and rows that continue it adds exactly one entry:
/// that of the data row, whose remark is followed by the remarks of the rows
/// that continue it, in order; every other field is the data row's.
pub proof fn lemma_entry_grid(es: Seq<EntryView>, rows: Seq<DomView>, r: int, t: RowTexts)
    requires
        is_entry_grid(rows, r, t),
    ensures
        grid_rows(es, rows, rows.len() as int) == Ok::<Seq<EntryView>, Stopped>(
            es.push(entry_with(rows, r, t)),
        ),
{
    lemma_inert_rows(es, rows, r);
    lemma_data_row(es, rows[r], t);
    let one = es.push(entry_from(t));
    assert(grid_rows(es, rows, r + 1) == Ok::<Seq<EntryView>, Stopped>(one));
    lemma_rows_after_entry(es, one, rows, r + 1, rows.len() as int);
    assert(with_remark(one, remarks(rows, r + 1, rows.len() as int)) =~= es.push(
        entry_with(rows, r, t),
    ));
}

/// Whether a block holds the title `title`, an info table, and the entry
/// grid `grid`.
pub open spec fn is_block_of(center: DomView, title: Seq<char>, grid: DomView) -> bool {
    &&& is_block(center)
    &&& holds_text(at2(center, 1, 0), title)
    &&& child_at(center, 3) is Some
    &&& at3(center, 5, 1, 1) == Some(grid)
}

/// A block whose grid holds one data row and rows that continue it
/// completes a day with exactly the entry that these rows denote, where the
/// title and the info table can be read.
pub proof fn lemma_block(
    h: DSBView,
    center: DomView,
    title: Seq<char>,
    grid: DomView,
    r: int,
    t: RowTexts,
)
    requires
        is_block_of(center, title, grid),
        is_entry_grid(grid.children, r, t),
        h.entries.len() == 0,
        titled(h, title) is Ok,
        informed(titled(h, title)->Ok_0, child_at(center, 3).unwrap()) is Ok,
    ensures
        centered(h, center) matches Ok(day) && day.entries == seq![
            entry_with(grid.children, r, t),
        ] && day.school == h.school && day.date == titled(h, title)->Ok_0.date && day.week
            == titled(h, title)->Ok_0.week,
{
    let d1 = titled(h, title)->Ok_0;
    let info = child_at(center, 3).unwrap();
    let d2 = informed(d1, info)->Ok_0;
    let body = child_at(info, 1).unwrap();
    lemma_info_keeps_entries(d1, body.children, body.children.len() as int);
    lemma_entry_grid(d2.entries, grid.children, r, t);
    assert(d2.entries.push(entry_with(grid.children, r, t)) =~= seq![
        entry_with(grid.children, r, t),
    ]);
}

/// Whether a child of the body is neither a table nor a block.
pub open spec fn is_aside(w: DomView) -> bool {
    !is_element(w, "table"@) && !is_element(w, "center"@)
}

/// Reading a body passes over the children that are neither tables nor
/// blocks.
pub proof fn lemma_body_skip(s: Scan, items: Seq<DomView>, m: int, n: int)
    requires
        0 <= m <= n <= items.len(),
        forall|j: int| m <= j < n ==> is_aside(#[trigger] items[j]),
    ensures
        body_items(s, items, n) == body_items(s, items, m),
    decreases n - m,
{
    if m < n {
        lemma_body_skip(s, items, m, n - 1);
        assert(is_aside(items[n - 1]));
    }
}

/// Reading the root element passes over the children that are no `body`.
pub proof fn lemma_root_skip(days: Seq<DSBView>, items: Seq<DomView>, m: int, n: int)
    requires
        0 <= m <= n <= items.len(),
        forall|j: int| m <= j < n ==> !is_element(#[trigger] items[j], "body"@),
    ensures
        root_items(days, items, n) == root_items(days, items, m),
    decreases n - m,
{
    if m < n {
        lemma_root_skip(days, items, m, n - 1);
    }
}

/// Where the header table and the block of a document's one day stand: the
/// index of the body below the root element, and the indices of the header
/// table and of the block in the body.
pub struct DayPlace {
    pub body: int,
    pub table: int,
    pub block: int,
}

/// Whether a document holds one day: the root element, which is the
/// document's first child, has one body; the body holds the header table
/// `table` and after it the block `center`; and beside them there are only
/// nodes that are no body, below the root element, and neither tables nor
/// blocks, in the body.
pub open spec fn is_one_day(doc: DomView, at: DayPlace, table: DomView, center: DomView) -> bool {
    &&& child_at(doc, 0) matches Some(root) && {
        &&& 0 <= at.body < root.children.len()
        &&& is_element(root.children[at.body], "body"@)
        &&& forall|j: int|
            0 <= j < root.children.len() && j != at.body ==> !is_element(
                #[trigger] root.children[j],
                "body"@,
            )
        &&& {
            let items = root.children[at.body].children;
            &&& 0 <= at.table < at.block < items.len()
            &&& items[at.table] == table
            &&& items[at.block] == center
            &&& forall|j: int|
                0 <= j < items.len() && j != at.table && j != at.block ==> is_aside(
                    #[trigger] items[j],
                )
        }
    }
    &&& is_header(table)
    &&& is_block(center)
}

/// A document of one header table and one block whose grid holds one data
/// row, and rows that continue it, yields one day record, whose one entry
/// holds what the cells of these rows hold: the fields of the entry are those
/// that the texts of the data row denote, and its remark is followed by the
/// remarks of the rows that continue it.
pub proof fn lemma_one_day(
    doc: DomView,
    at: DayPlace,
    table: DomView,
    center: DomView,
    title: Seq<char>,
    grid: DomView,
    r: int,
    t: RowTexts,
)
    requires
        is_one_day(doc, at, table, center),
        is_block_of(center, title, grid),
        is_entry_grid(grid.children, r, t),
        header_of(table) is Ok,
        titled(header_of(table)->Ok_0, title) is Ok,
        informed(titled(header_of(table)->Ok_0, title)->Ok_0, child_at(center, 3).unwrap()) is Ok,
    ensures
        days_of(doc) matches Ok(days) && days.len() == 1 && days[0].entries == seq![
            entry_with(grid.children, r, t),
        ] && days[0].school == header_of(table)->Ok_0.school,
{
    reveal_strlit("table");
    reveal_strlit("center");
    assert("center"@.len() == 6 && "table"@.len() == 5);
    let h = header_of(table)->Ok_0;
    lemma_block(h, center, title, grid, r, t);
    let day = centered(h, center)->Ok_0;
    let root = child_at(doc, 0).unwrap();
    let body = root.children[at.body];
    let items = body.children;
    let n = items.len() as int;
    let start = Scan { days: Seq::empty(), pending: None };
    let begun = Scan { days: Seq::empty(), pending: Some(h) };
    let one = Scan { days: Seq::<DSBView>::empty().push(day), pending: None };
    lemma_body_skip(start, items, 0, at.table);
    assert(body_items(start, items, at.table) == Ok::<Scan, Seq<char>>(start));
    assert(body_item(start, table) == Ok::<Scan, Seq<char>>(begun));
    assert(body_items(start, items, at.table + 1) == Ok::<Scan, Seq<char>>(begun));
    lemma_body_skip(start, items, at.table + 1, at.block);
    assert(!is_element(center, "table"@));
    assert(body_item(begun, center) == Ok::<Scan, Seq<char>>(one));
    assert(body_items(start, items, at.block + 1) == Ok::<Scan, Seq<char>>(one));
    lemma_body_skip(start, items, at.block + 1, n);
    assert(root_item(Seq::empty(), body) == Ok::<Seq<DSBView>, Seq<char>>(one.days));
    let kids = root.children;
    lemma_root_skip(Seq::empty(), kids, 0, at.body);
    assert(root_items(Seq::empty(), kids, at.body + 1) == Ok::<Seq<DSBView>, Seq<char>>(
        one.days,
    ));
    lemma_root_skip(Seq::empty(), kids, at.body + 1, kids.len() as int);
}

} // verus!
