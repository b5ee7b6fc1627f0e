//! The failures that reading, decoding and checking a declaration file can end in.
use vstd::prelude::*;

verus! {

/// Why a declaration file could not be read, decoded, checked or loaded.
#[derive(Debug, Clone, PartialEq, Eq)]
pub enum ExtensionError {
    /// The file could not be read; `source` describes the I/O failure.
    FileReadError { path: String, source: String },
    /// The file's text is not a well-formed declaration; `source` describes the decode failure.
    ParseError { path: String, source: String },
    /// A symbol breaks a naming rule.
    ValidationError { message: String },
    /// The file's extension selects no decoder.
    UnsupportedFormat { format: String },
    /// Reserved for conversions that check the consistency of a symbol's fields.
    TypeConversionError { message: String },
    /// One file declares the same name twice.
    DuplicateSymbol { symbol: String },
    /// Reserved for selecting files by pattern.
    InvalidPattern { pattern: String },
}

/// What an [`ExtensionError`] says, with its texts as character sequences.
pub enum ErrorView {
    FileReadError { path: Seq<char>, source: Seq<char> },
    ParseError { path: Seq<char>, source: Seq<char> },
    ValidationError { message: Seq<char> },
    UnsupportedFormat { format: Seq<char> },
    TypeConversionError { message: Seq<char> },
    DuplicateSymbol { symbol: Seq<char> },
    InvalidPattern { pattern: Seq<char> },
}

impl View for ExtensionError {
    type V = ErrorView;

    open spec fn view(&self) -> ErrorView {
        match self {
            ExtensionError::FileReadError { path, source } => ErrorView::FileReadError {
                path: path@,
                source: source@,
            },
            ExtensionError::ParseError { path, source } => ErrorView::ParseError {
                path: path@,
                source: source@,
            },
            ExtensionError::ValidationError { message } => ErrorView::ValidationError {
                message: message@,
            },
            ExtensionError::UnsupportedFormat { format } => ErrorView::UnsupportedFormat {
                format: format@,
            },
            ExtensionError::TypeConversionError { message } => ErrorView::TypeConversionError {
                message: message@,
            },
            ExtensionError::DuplicateSymbol { symbol } => ErrorView::DuplicateSymbol {
                symbol: symbol@,
            },
            ExtensionError::InvalidPattern { pattern } => ErrorView::InvalidPattern {
                pattern: pattern@,
            },
        }
    }
}

/// The outcome of a check, with a failure seen through its view.
pub open spec fn outcome_view(r: Result<(), ExtensionError>) -> Result<(), ErrorView> {
    match r {
        Ok(()) => Ok(()),
        Err(e) => Err(e@),
    }
}

} // verus!
