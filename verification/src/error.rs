//! The failures that decoding a fetched document can end in.

use vstd::prelude::*;
use vstd::string::StringExecFns;

verus! {

/// Why a document could not be decoded.
#[derive(Debug, PartialEq, Eq)]
pub enum PlanError {
    /// An expected part of the document is absent or of the wrong type. The
    /// text is the dotted path of the part that was expected.
    FieldNotExists(String),
    /// A text is no JSON document.
    Json,
    /// A text is no base64 encoding.
    Base64,
    /// Bytes could not be compressed or decompressed.
    Io,
}

/// The mathematical value of an [`PlanError`].
pub enum PlanErrorView {
    FieldNotExists(Seq<char>),
    Json,
    Base64,
    Io,
}

impl View for PlanError {
    type V = PlanErrorView;

    open spec fn view(&self) -> PlanErrorView {
        match self {
            PlanError::FieldNotExists(path) => PlanErrorView::FieldNotExists(path@),
            PlanError::Json => PlanErrorView::Json,
            PlanError::Base64 => PlanErrorView::Base64,
            PlanError::Io => PlanErrorView::Io,
        }
    }
}

impl PlanError {
    /// The failure to find the part with the given dotted path.
    pub fn new_field_not_exists(path: String) -> (e: Self)
        ensures
            e@ == PlanErrorView::FieldNotExists(path@),
    {
        PlanError::FieldNotExists(path)
    }

    /// The failure to find the part with the given dotted path.
    pub fn missing(path: &str) -> (e: Self)
        ensures
            e@ == PlanErrorView::FieldNotExists(path@),
    {
        PlanError::FieldNotExists(String::from_str(path))
    }

    /// A description of the failure for a reader.
    pub fn message(&self) -> (s: String)
        ensures
            s@ == self@.message(),
    {
        match self {
            PlanError::FieldNotExists(path) => String::from_str("field does not exist: ").concat(
                path.as_str(),
            ),
            PlanError::Json => String::from_str("invalid JSON"),
            PlanError::Base64 => String::from_str("invalid base64"),
            PlanError::Io => String::from_str("compression failed"),
        }
    }
}

impl PlanErrorView {
    /// The description of the failure.
    pub open spec fn message(self) -> Seq<char> {
        match self {
            PlanErrorView::FieldNotExists(path) => "field does not exist: "@ + path,
            PlanErrorView::Json => "invalid JSON"@,
            PlanErrorView::Base64 => "invalid base64"@,
            PlanErrorView::Io => "compression failed"@,
        }
    }
}

/// Whether a result of the library agrees with the outcome that a spec
/// function gives: the same value, or a missing part with the same path.
pub open spec fn agrees<T: View>(
    r: core::result::Result<T, PlanError>,
    s: core::result::Result<T::V, Seq<char>>,
) -> bool {
    match r {
        Ok(v) => s == Ok::<T::V, Seq<char>>(v@),
        Err(e) => s matches Err(p) && e@ == PlanErrorView::FieldNotExists(p),
    }
}

/// The result of decoding.
pub type Result<T> = core::result::Result<T, PlanError>;

} // verus!
