//! The errors of the library, and their mathematical view.

use vstd::prelude::*;

verus! {

/// What can go wrong while reading input or talking to a paste backend.
#[derive(Debug)]
pub enum PasteError {
    /// The input file or stream could not be read.
    IoError { path: String, reason: String },
    /// A numeric option was not a number, or was out of range.
    InvalidParameter { name: String, value: String },
    /// A root URL, or a URL composed from it, did not parse.
    InvalidUrl { url: String },
    /// The backend answered an upload with a status other than 2xx.
    UploadFailed { status: u16, status_text: String },
    /// The backend answered a fetch with a status other than 2xx.
    FetchFailed { status: u16, status_text: String },
    /// The body of an upload answer did not have the expected shape.
    ResponseParseFailed { raw_body: String },
}

/// The view of a [`PasteError`]: the same variants, over character sequences.
pub enum ErrorView {
    IoError { path: Seq<char>, reason: Seq<char> },
    InvalidParameter { name: Seq<char>, value: Seq<char> },
    InvalidUrl { url: Seq<char> },
    UploadFailed { status: u16, status_text: Seq<char> },
    FetchFailed { status: u16, status_text: Seq<char> },
    ResponseParseFailed { raw_body: Seq<char> },
}

impl View for PasteError {
    type V = ErrorView;

    open spec fn view(&self) -> ErrorView {
        match self {
            PasteError::IoError { path, reason } => ErrorView::IoError { path: path@, reason: reason@ },
            PasteError::InvalidParameter { name, value } => ErrorView::InvalidParameter {
                name: name@,
                value: value@,
            },
            PasteError::InvalidUrl { url } => ErrorView::InvalidUrl { url: url@ },
            PasteError::UploadFailed { status, status_text } => ErrorView::UploadFailed {
                status: *status,
                status_text: status_text@,
            },
            PasteError::FetchFailed { status, status_text } => ErrorView::FetchFailed {
                status: *status,
                status_text: status_text@,
            },
            PasteError::ResponseParseFailed { raw_body } => ErrorView::ResponseParseFailed {
                raw_body: raw_body@,
            },
        }
    }
}

/// The view of a result whose success value has a view of its own.
pub open spec fn result_view<T: View>(r: Result<T, PasteError>) -> Result<T::V, ErrorView> {
    match r {
        Ok(v) => Ok(v@),
        Err(e) => Err(e@),
    }
}

} // verus!
