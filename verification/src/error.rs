//! The error taxonomy: one flat enum, one variant per failure kind.
use vstd::prelude::*;

verus! {

/// Makes `std::io::ErrorKind` known to the verifier so that an [`AmeError`]
/// can carry the classification of a failed read.
#[verifier::external_type_specification]
#[verifier::external_body]
pub struct ExErrorKind(std::io::ErrorKind);

/// Relies on the `Clone` implementation of `std::io::ErrorKind`, which is
/// `Copy`: a clone is the same value.
pub assume_specification[ <std::io::ErrorKind as Clone>::clone ](k: &std::io::ErrorKind) -> (r: std::io::ErrorKind)
    ensures
        r == *k,
;

/// A reading or parsing error.
///
/// Every error is per-line: the scanner keeps accepting pulls after one,
/// though after a structural failure (`TooShortLine`, `StrIndex`) the
/// following lines may no longer be aligned with the format, and what they
/// yield is best-effort.
#[derive(Debug, Clone, PartialEq, Eq)]
#[non_exhaustive]
pub enum AmeError {
    /// An underlying read or decode failure, carrying its classification
    /// (`InvalidData` for a decode failure).
    Io(std::io::ErrorKind),
    /// A column expected to hold an integer did not parse; carries the text
    /// that failed.
    ParseInt(Vec<u8>),
    /// A column expected to hold a float did not parse; carries the text
    /// that failed.
    ParseFloat(Vec<u8>),
    /// A data line is shorter than a required column range.
    TooShortLine,
    /// A column range does not fall on character boundaries of the line.
    StrIndex,
}

/// The mathematical image of an [`AmeError`]: texts become sequences.
pub enum ErrView {
    Io(std::io::ErrorKind),
    ParseInt(Seq<u8>),
    ParseFloat(Seq<u8>),
    TooShortLine,
    StrIndex,
}

impl View for AmeError {
    type V = ErrView;

    open spec fn view(&self) -> ErrView {
        match self {
            AmeError::Io(k) => ErrView::Io(*k),
            AmeError::ParseInt(t) => ErrView::ParseInt(t@),
            AmeError::ParseFloat(t) => ErrView::ParseFloat(t@),
            AmeError::TooShortLine => ErrView::TooShortLine,
            AmeError::StrIndex => ErrView::StrIndex,
        }
    }
}

impl AmeError {
    /// A short description of the error kind.
    pub fn message(&self) -> (r: &'static str)
        ensures
            r@ == match self@ {
                ErrView::Io(_) => "read error"@,
                ErrView::ParseInt(_) => "int parsing error"@,
                ErrView::ParseFloat(_) => "float parsing error"@,
                ErrView::TooShortLine => "line too short"@,
                ErrView::StrIndex => "string indexing error"@,
            },
    {
        match self {
            AmeError::Io(_) => "read error",
            AmeError::ParseInt(_) => "int parsing error",
            AmeError::ParseFloat(_) => "float parsing error",
            AmeError::TooShortLine => "line too short",
            AmeError::StrIndex => "string indexing error",
        }
    }
}

} // verus!
