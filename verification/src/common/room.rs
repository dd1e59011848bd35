//! Room codes: a building letter followed by a three-character number.

use crate::diagnostic::{no_notes, none, note, notes_view, one, Diagnostic, DiagnosticView};
use crate::text::{char_ascii_lower, chars_of, subrange, to_i16_or_zero};
use crate::text::{ascii_lower, parse_i16_or_zero};
use vstd::prelude::*;

verus! {

/// A room: one of five buildings with a room number, or unknown.
#[derive(Debug, Clone, Copy, PartialEq, Eq, Structural)]
pub enum Room {
    Unknown,
    A { room: i16 },
    B { room: i16 },
    C { room: i16 },
    D { room: i16 },
    E { room: i16 },
}

impl Room {
    /// The room that a code denotes. A code has exactly four characters: the
    /// first, in either case, names the building; the other three are the
    /// room number in decimal, read as 0 where they are no number. Any other
    /// text denotes no room.
    pub open spec fn of_code(code: Seq<char>) -> Room {
        if code.len() != 4 {
            Room::Unknown
        } else {
            let room = parse_i16_or_zero(code.subrange(1, 4));
            let letter = ascii_lower(code[0]);
            if letter == 'a' {
                Room::A { room }
            } else if letter == 'b' {
                Room::B { room }
            } else if letter == 'c' {
                Room::C { room }
            } else if letter == 'd' {
                Room::D { room }
            } else if letter == 'e' {
                Room::E { room }
            } else {
                Room::Unknown
            }
        }
    }

    /// Whether a code is well formed: four characters, the first a building
    /// letter. Codes that are not well formed denote no room and are worth a
    /// diagnostic to whoever reads them.
    pub open spec fn well_formed(code: Seq<char>) -> bool {
        code.len() == 4 && {
            let letter = ascii_lower(code[0]);
            letter == 'a' || letter == 'b' || letter == 'c' || letter == 'd' || letter == 'e'
        }
    }

    /// What there is to say of a code: that it has not four characters, or
    /// that its first character names no building.
    pub open spec fn notes(code: Seq<char>) -> Seq<DiagnosticView> {
        if code.len() != 4 {
            note(1, "room.length"@, code)
        } else if !Room::well_formed(code) {
            note(1, "room.building"@, code)
        } else {
            no_notes()
        }
    }

    /// The unknown room.
    pub fn new() -> (r: Self)
        ensures
            r == Room::Unknown,
    {
        Room::Unknown
    }

    /// Decodes a room code. `verbose` is the caller's diagnostic level; it has
    /// no influence on the result.
    pub fn from_dsb_str(input: &str, verbose: u8) -> (r: Self)
        ensures
            r == Room::of_code(input@),
            Room::well_formed(input@) <==> r != Room::Unknown,
    {
        let code = chars_of(input);
        Room::from_chars(&code)
    }

    /// Decodes a room code given as characters.
    pub fn from_chars(code: &Vec<char>) -> (r: Self)
        ensures
            r == Room::of_code(code@),
            Room::well_formed(code@) <==> r != Room::Unknown,
    {
        if code.len() != 4 {
            return Room::Unknown;
        }
        let digits = subrange(code, 1, 4);
        let room = to_i16_or_zero(&digits);
        let letter = char_ascii_lower(code[0]);
        if letter == 'a' {
            Room::A { room }
        } else if letter == 'b' {
            Room::B { room }
        } else if letter == 'c' {
            Room::C { room }
        } else if letter == 'd' {
            Room::D { room }
        } else if letter == 'e' {
            Room::E { room }
        } else {
            Room::Unknown
        }
    }

    /// Says what there is to say of a code.
    pub fn diagnose(input: &str) -> (r: Vec<Diagnostic>)
        ensures
            notes_view(r@) == Room::notes(input@),
    {
        Room::diagnose_chars(&chars_of(input))
    }

    /// Says what there is to say of a code given as characters.
    pub fn diagnose_chars(code: &Vec<char>) -> (r: Vec<Diagnostic>)
        ensures
            notes_view(r@) == Room::notes(code@),
    {
        if code.len() != 4 {
            return one(1, "room.length", code);
        }
        match Room::from_chars(code) {
            Room::Unknown => one(1, "room.building", code),
            _ => none(),
        }
    }

    /// Says whether a code is well formed.
    pub fn is_well_formed(input: &str) -> (b: bool)
        ensures
            b == Room::well_formed(input@),
    {
        let code = chars_of(input);
        match Room::from_chars(&code) {
            Room::Unknown => false,
            _ => true,
        }
    }
}

impl Default for Room {
    fn default() -> (r: Self)
        ensures
            r == Room::Unknown,
    {
        Room::Unknown
    }
}

/// Decoding is total, and the building letter counts in either case: two
/// four-character codes that differ only in the case of their first letter
/// denote the same room.
pub proof fn lemma_room_case_insensitive(a: Seq<char>, b: Seq<char>)
    requires
        a.len() == 4,
        b.len() == 4,
        ascii_lower(a[0]) == ascii_lower(b[0]),
        a.subrange(1, 4) == b.subrange(1, 4),
    ensures
        Room::of_code(a) == Room::of_code(b),
{
}

/// A four-character code whose first character is a building letter denotes
/// a room in that building, whatever follows the letter.
pub proof fn lemma_room_building(code: Seq<char>)
    requires
        code.len() == 4,
    ensures
        (code[0] == 'a' || code[0] == 'A') ==> Room::of_code(code) is A,
        (code[0] == 'b' || code[0] == 'B') ==> Room::of_code(code) is B,
        (code[0] == 'c' || code[0] == 'C') ==> Room::of_code(code) is C,
        (code[0] == 'd' || code[0] == 'D') ==> Room::of_code(code) is D,
        (code[0] == 'e' || code[0] == 'E') ==> Room::of_code(code) is E,
{
}

/// There is something to say of a code exactly where it denotes no room.
pub proof fn lemma_room_notes(code: Seq<char>)
    ensures
        Room::notes(code).len() == 0 <==> Room::of_code(code) != Room::Unknown,
        Room::notes(code).len() <= 1,
{
}

} // verus!
