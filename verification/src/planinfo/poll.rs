//! One cycle of fetching timetable pages: which page to ask for next, and
//! when the cycle is over.
//!
//! A cycle asks for the pages after the start index in order. A page that
//! the portal refuses or that cannot be read is a miss. The cycle is over
//! when the allowed misses are used up or the end index has been asked for.
//! The caller fetches each page and reports what became of it.

use crate::planinfo::{Config, ConfigView};
use crate::text::{chars_of, decimal, extend, push_decimal, string_of};
use vstd::prelude::*;

verus! {

/// The seconds between two cycles.
pub const CYCLE_PAUSE: u64 = 86400;

/// Where a cycle stands.
#[derive(Debug, Clone, Copy, PartialEq, Eq, Structural)]
pub struct Cycle {
    /// How many more pages may miss.
    pub misses_left: usize,
    /// The index of the page asked for last.
    pub dbidx: usize,
}

impl Cycle {
    /// Whether the cycle is over.
    pub open spec fn over(self) -> bool {
        self.misses_left == 0 || self.dbidx == usize::MAX
    }

    /// The cycle once the next page has been asked for.
    pub open spec fn asked(self) -> Cycle {
        Cycle { misses_left: self.misses_left, dbidx: (self.dbidx + 1) as usize }
    }

    /// The cycle once the page asked for has been dealt with: a miss uses up
    /// one of the misses left, and the page at the end index ends the cycle.
    pub open spec fn done(self, hit: bool, end: usize) -> Cycle {
        if self.dbidx == end {
            Cycle { misses_left: 0, dbidx: self.dbidx }
        } else if hit || self.misses_left == 0 {
            self
        } else {
            Cycle { misses_left: (self.misses_left - 1) as usize, dbidx: self.dbidx }
        }
    }
}

/// Whether a page counts as read: the portal answered with a status from
/// 200 to 299 and the page could be read.
pub open spec fn is_hit(status: u16, read: bool) -> bool {
    200 <= status && status <= 299 && read
}

impl ConfigView {
    /// The cycle before its first page.
    pub open spec fn first_cycle(self) -> Cycle {
        Cycle { misses_left: self.max_misses, dbidx: self.start }
    }

    /// The address of the page with the given index.
    pub open spec fn page_url(self, dbidx: usize) -> Seq<char> {
        self.base_url + "?ug="@ + self.school_id + "&dbidx="@ + decimal(dbidx as nat)
    }
}

impl Config {
    /// Begins a cycle.
    pub fn begin_cycle(&self) -> (c: Cycle)
        ensures
            c == self@.first_cycle(),
    {
        Cycle { misses_left: self.max_misses, dbidx: self.start }
    }

    /// The address of the page with the given index.
    pub fn page_url(&self, dbidx: usize) -> (s: String)
        ensures
            s@ == self@.page_url(dbidx),
    {
        let mut v = chars_of(self.base_url.as_str());
        extend(&mut v, &chars_of("?ug="));
        extend(&mut v, &chars_of(self.school_id.as_str()));
        extend(&mut v, &chars_of("&dbidx="));
        push_decimal(&mut v, dbidx);
        string_of(&v)
    }

    /// Moves the cycle to its next page and gives the page's address, or
    /// nothing where the cycle is over.
    pub fn next_page(&self, cycle: &mut Cycle) -> (r: Option<String>)
        ensures
            match r {
                Some(url) => !old(cycle).over() && *final(cycle) == old(cycle).asked() && url@
                    == self@.page_url(final(cycle).dbidx),
                None => old(cycle).over() && *final(cycle) == *old(cycle),
            },
    {
        if cycle.misses_left == 0 || cycle.dbidx == usize::MAX {
            return None;
        }
        cycle.dbidx = cycle.dbidx + 1;
        Some(self.page_url(cycle.dbidx))
    }

    /// Says whether a page counts as read.
    pub fn page_is_hit(status: u16, read: bool) -> (b: bool)
        ensures
            b == is_hit(status, read),
    {
        200 <= status && status <= 299 && read
    }

    /// Records what became of the page asked for.
    pub fn page_done(&self, cycle: &mut Cycle, hit: bool)
        ensures
            *final(cycle) == old(cycle).done(hit, self.end),
    {
        if !hit && cycle.misses_left > 0 {
            cycle.misses_left = cycle.misses_left - 1;
        }
        if cycle.dbidx == self.end {
            cycle.misses_left = 0;
        }
    }
}

/// A cycle comes to an end: dealing with a page never adds to the misses
/// left, a miss before the end uses one up, and the page at the end index
/// ends the cycle.
pub proof fn lemma_cycle_bounded(c: Cycle, hit: bool, end: usize)
    ensures
        c.done(hit, end).misses_left <= c.misses_left,
        c.done(hit, end).dbidx == c.dbidx,
        !hit && c.misses_left > 0 ==> c.done(hit, end).misses_left < c.misses_left,
        c.dbidx == end ==> c.done(hit, end).over(),
{
}

} // verus!
