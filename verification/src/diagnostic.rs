//! Diagnostics: what a decoder has to say of a fragment that it could not
//! read as intended. A diagnostic is no error: the decoder goes on.

use crate::text::{chars_of, extend, string_of};
use vstd::prelude::*;
use vstd::string::StringExecFns;

verus! {

/// One diagnostic.
#[derive(Debug, PartialEq, Eq)]
pub struct Diagnostic {
    /// The least diagnostic level at which it is reported; 0 is always.
    pub level: u8,
    /// What is the matter, as a dotted label.
    pub label: String,
    /// The fragment concerned.
    pub text: String,
}

/// The mathematical value of a [`Diagnostic`].
pub struct DiagnosticView {
    pub level: u8,
    pub label: Seq<char>,
    pub text: Seq<char>,
}

impl View for Diagnostic {
    type V = DiagnosticView;

    open spec fn view(&self) -> DiagnosticView {
        DiagnosticView { level: self.level, label: self.label@, text: self.text@ }
    }
}

/// The values of a sequence of diagnostics.
pub open spec fn notes_view(v: Seq<Diagnostic>) -> Seq<DiagnosticView> {
    Seq::new(v.len(), |i: int| v[i]@)
}

/// The one diagnostic with the given level, label and text.
pub open spec fn note(level: u8, label: Seq<char>, text: Seq<char>) -> Seq<DiagnosticView> {
    seq![DiagnosticView { level, label, text }]
}

/// No diagnostic.
pub open spec fn no_notes() -> Seq<DiagnosticView> {
    Seq::empty()
}

impl DiagnosticView {
    /// The diagnostic as a line of text: the label, a colon and the
    /// fragment.
    pub open spec fn message(self) -> Seq<char> {
        self.label + ": "@ + self.text
    }
}

impl Diagnostic {
    /// Whether the diagnostic is reported at the given diagnostic level.
    pub fn shown(&self, verbose: u8) -> (b: bool)
        ensures
            b == (self.level <= verbose),
    {
        self.level <= verbose
    }

    /// The diagnostic as a line of text.
    pub fn message(&self) -> (s: String)
        ensures
            s@ == self@.message(),
    {
        let mut v = chars_of(self.label.as_str());
        extend(&mut v, &chars_of(": "));
        extend(&mut v, &chars_of(self.text.as_str()));
        string_of(&v)
    }
}

/// No diagnostics.
pub fn none() -> (r: Vec<Diagnostic>)
    ensures
        notes_view(r@) == no_notes(),
{
    let r: Vec<Diagnostic> = Vec::new();
    assert(notes_view(r@) =~= no_notes());
    r
}

/// The one diagnostic with the given level, label and text.
pub fn one(level: u8, label: &str, text: &Vec<char>) -> (r: Vec<Diagnostic>)
    ensures
        notes_view(r@) == note(level, label@, text@),
{
    let mut r: Vec<Diagnostic> = Vec::new();
    r.push(Diagnostic { level, label: String::from_str(label), text: string_of(text) });
    assert(notes_view(r@) =~= note(level, label@, text@));
    r
}

/// Appends the diagnostics `more` to `notes`.
pub fn gather(notes: &mut Vec<Diagnostic>, more: Vec<Diagnostic>)
    ensures
        notes_view(final(notes)@) == notes_view(old(notes)@) + notes_view(more@),
{
    let mut more = more;
    let ghost all = more@;
    proof {
        assert(notes_view(notes@) + notes_view(more@) =~= notes_view(old(notes)@) + notes_view(all));
    }
    notes.append(&mut more);
    assert(notes_view(notes@) =~= notes_view(old(notes)@) + notes_view(all));
}

} // verus!
