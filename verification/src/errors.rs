//! The failures that reach a caller.

use vstd::prelude::*;

verus! {

/// Why a request was not carried out.
pub enum AppError {
    /// The request itself is not acceptable; the text says why.
    BadRequest(String),
    /// Something on the server's side went wrong.
    InternalServerError(String),
    /// A transaction or query failed; nothing was applied.
    StorageFailure(String),
}

/// What an error says, with its text as characters.
pub enum AppErrorView {
    BadRequest(Seq<char>),
    InternalServerError(Seq<char>),
    StorageFailure(Seq<char>),
}

impl View for AppError {
    type V = AppErrorView;

    open spec fn view(&self) -> AppErrorView {
        match *self {
            AppError::BadRequest(text) => AppErrorView::BadRequest(text@),
            AppError::InternalServerError(text) => AppErrorView::InternalServerError(text@),
            AppError::StorageFailure(text) => AppErrorView::StorageFailure(text@),
        }
    }
}

} // verus!
