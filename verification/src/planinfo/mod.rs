//! The weekly timetable: its lesson grids, and the decoding of the portal's
//! pages into them.

pub mod laws;
pub mod notes;
pub mod parse;
pub mod poll;

use crate::common::{Hour, HourView};
use vstd::prelude::*;
use vstd::string::StringExecFns;

verus! {

/// Access to the portal of the weekly timetable, and the pages to fetch.
#[derive(Debug, PartialEq, Eq)]
pub struct Config {
    /// The address of the portal's page endpoint.
    pub base_url: String,
    /// The school's identifier at the portal.
    pub school_id: String,
    /// The cookies that authenticate requests.
    pub cookies: String,
    /// The pause between two requests, in seconds.
    pub delay_hits: u64,
    /// How many pages may miss in one cycle.
    pub max_misses: usize,
    /// The index before the first page to fetch.
    pub start: usize,
    /// The index of the last page to fetch.
    pub end: usize,
    /// The diagnostic level.
    pub verbose: u8,
}

/// The mathematical value of a [`Config`].
pub struct ConfigView {
    pub base_url: Seq<char>,
    pub school_id: Seq<char>,
    pub cookies: Seq<char>,
    pub delay_hits: u64,
    pub max_misses: usize,
    pub start: usize,
    pub end: usize,
    pub verbose: u8,
}

impl View for Config {
    type V = ConfigView;

    open spec fn view(&self) -> ConfigView {
        ConfigView {
            base_url: self.base_url@,
            school_id: self.school_id@,
            cookies: self.cookies@,
            delay_hits: self.delay_hits,
            max_misses: self.max_misses,
            start: self.start,
            end: self.end,
            verbose: self.verbose,
        }
    }
}

impl ConfigView {
    /// Access without credentials to the portal's public endpoint, with 20
    /// seconds between requests and at most 5 misses.
    pub open spec fn initial() -> ConfigView {
        ConfigView {
            base_url: "https://selbstlernportal.de/html/planinfo/planinfo_start.php"@,
            school_id: Seq::empty(),
            cookies: Seq::empty(),
            delay_hits: 20,
            max_misses: 5,
            start: 0,
            end: 0,
            verbose: 0,
        }
    }
}

impl Config {
    /// Access without credentials to the portal's public endpoint.
    pub fn new() -> (c: Self)
        ensures
            c@ == ConfigView::initial(),
    {
        Self {
            base_url: String::from_str(
                "https://selbstlernportal.de/html/planinfo/planinfo_start.php",
            ),
            school_id: String::new(),
            cookies: String::new(),
            delay_hits: 20,
            max_misses: 5,
            start: 0,
            end: 0,
            verbose: 0,
        }
    }
}

impl Clone for Config {
    fn clone(&self) -> (c: Self)
        ensures
            c@ == self@,
    {
        Self {
            base_url: self.base_url.clone(),
            school_id: self.school_id.clone(),
            cookies: self.cookies.clone(),
            delay_hits: self.delay_hits,
            max_misses: self.max_misses,
            start: self.start,
            end: self.end,
            verbose: self.verbose,
        }
    }
}

/// The lesson grid of one teacher, room or student: for each of the two
/// weeks of the rotation, five days of twelve periods.
#[derive(Debug, PartialEq, Eq)]
pub struct Table {
    pub name: String,
    pub table_a: [[Hour; 12]; 5],
    pub table_b: [[Hour; 12]; 5],
}

/// The mathematical value of a [`Table`]: each grid is a sequence of five
/// days, each a sequence of twelve slots.
pub struct TableView {
    pub name: Seq<char>,
    pub table_a: Seq<Seq<HourView>>,
    pub table_b: Seq<Seq<HourView>>,
}

/// The slots of a grid.
pub open spec fn grid_view(a: [[Hour; 12]; 5]) -> Seq<Seq<HourView>> {
    Seq::new(5, |x: int| Seq::new(12, |y: int| a@[x]@[y]@))
}

/// The grid of empty slots.
pub open spec fn empty_grid() -> Seq<Seq<HourView>> {
    Seq::new(5, |x: int| Seq::new(12, |y: int| HourView::empty()))
}

impl View for Table {
    type V = TableView;

    open spec fn view(&self) -> TableView {
        TableView {
            name: self.name@,
            table_a: grid_view(self.table_a),
            table_b: grid_view(self.table_b),
        }
    }
}

impl TableView {
    /// The table of the given name with empty grids.
    pub open spec fn named(name: Seq<char>) -> TableView {
        TableView { name, table_a: empty_grid(), table_b: empty_grid() }
    }
}

fn empty_day() -> (r: [Hour; 12])
    ensures
        forall|y: int| 0 <= y < 12 ==> r@[y]@ == HourView::empty(),
{
    [
        Hour::new(),
        Hour::new(),
        Hour::new(),
        Hour::new(),
        Hour::new(),
        Hour::new(),
        Hour::new(),
        Hour::new(),
        Hour::new(),
        Hour::new(),
        Hour::new(),
        Hour::new(),
    ]
}

/// The grid of empty slots.
#[allow(non_snake_case)]
pub fn createTable() -> (r: [[Hour; 12]; 5])
    ensures
        grid_view(r) == empty_grid(),
{
    let r = [empty_day(), empty_day(), empty_day(), empty_day(), empty_day()];
    assert(grid_view(r) =~~= empty_grid());
    r
}

fn copy_grid(a: &[[Hour; 12]; 5]) -> (r: [[Hour; 12]; 5])
    ensures
        grid_view(r) == grid_view(*a),
{
    let mut r = createTable();
    let mut x: usize = 0;
    while x < 5
        invariant
            x <= 5,
            forall|i: int, j: int| 0 <= i < x && 0 <= j < 12 ==> r@[i]@[j]@ == a@[i]@[j]@,
        decreases 5 - x,
    {
        let mut y: usize = 0;
        while y < 12
            invariant
                x < 5,
                y <= 12,
                forall|i: int, j: int| 0 <= i < x && 0 <= j < 12 ==> r@[i]@[j]@ == a@[i]@[j]@,
                forall|j: int| 0 <= j < y ==> r@[x as int]@[j]@ == a@[x as int]@[j]@,
            decreases 12 - y,
        {
            r[x][y] = a[x][y].clone();
            y += 1;
        }
        x += 1;
    }
    assert(grid_view(r) =~~= grid_view(*a));
    r
}

impl Table {
    /// The table without a name, with empty grids.
    pub fn new() -> (t: Self)
        ensures
            t@ == TableView::named(Seq::empty()),
    {
        Self { name: String::new(), table_a: createTable(), table_b: createTable() }
    }

    /// The table of the given name with empty grids.
    pub fn named(name: &Vec<char>) -> (t: Self)
        ensures
            t@ == TableView::named(name@),
    {
        Self { name: crate::text::string_of(name), table_a: createTable(), table_b: createTable() }
    }
}

impl Default for Table {
    fn default() -> (t: Self)
        ensures
            t@ == TableView::named(Seq::empty()),
    {
        Self::new()
    }
}

impl Clone for Table {
    fn clone(&self) -> (t: Self)
        ensures
            t@ == self@,
    {
        Self {
            name: self.name.clone(),
            table_a: copy_grid(&self.table_a),
            table_b: copy_grid(&self.table_b),
        }
    }
}

/// The tables read so far, by what they are of.
#[derive(Debug, PartialEq, Eq)]
pub struct PlanInfo {
    /// The tables of teachers.
    pub teachers: Vec<Table>,
    /// The tables of rooms.
    pub rooms: Vec<Table>,
    /// The tables of students.
    pub students: Vec<Table>,
}

/// The mathematical value of a [`PlanInfo`].
pub struct PlanView {
    pub teachers: Seq<TableView>,
    pub rooms: Seq<TableView>,
    pub students: Seq<TableView>,
}

/// The values of a sequence of tables.
pub open spec fn table_views(v: Seq<Table>) -> Seq<TableView> {
    Seq::new(v.len(), |i: int| v[i]@)
}

impl View for PlanInfo {
    type V = PlanView;

    open spec fn view(&self) -> PlanView {
        PlanView {
            teachers: table_views(self.teachers@),
            rooms: table_views(self.rooms@),
            students: table_views(self.students@),
        }
    }
}

impl PlanInfo {
    /// No tables.
    pub fn new() -> (p: Self)
        ensures
            p@ == (PlanView { teachers: Seq::empty(), rooms: Seq::empty(), students: Seq::empty() }),
    {
        let p = Self { teachers: Vec::new(), rooms: Vec::new(), students: Vec::new() };
        assert(p@.teachers =~= Seq::empty());
        assert(p@.rooms =~= Seq::empty());
        assert(p@.students =~= Seq::empty());
        p
    }
}

/// The escaped form of a string: see [`crate::text::escaped`].
pub fn escape_default(s: &str) -> (r: String)
    ensures
        r@ == crate::text::escaped(s@),
{
    crate::text::escape_default(s)
}

} // verus!
