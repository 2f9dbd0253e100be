//! The error type shared by the converter's components.

use vstd::prelude::*;

verus! {

/// An error raised while preparing or running a conversion batch.
///
/// `FFmpegError` carries the encoder's diagnostic text (a failed encode, or
/// the encoder binary missing); `IoError` carries the text of a file-system
/// failure; `PathError` reports a path that could not be handled as text.
pub enum AppError {
    FFmpegError(String),
    IoError(String),
    PathError(String),
}

impl AppError {
    /// The diagnostic text carried by the error, whichever variant it is.
    pub open spec fn spec_text(&self) -> Seq<char> {
        match self {
            AppError::FFmpegError(s) => s@,
            AppError::IoError(s) => s@,
            AppError::PathError(s) => s@,
        }
    }

    /// Returns the diagnostic text carried by the error.
    pub fn text(&self) -> (r: &String)
        ensures
            r@ == self.spec_text(),
    {
        match self {
            AppError::FFmpegError(s) => s,
            AppError::IoError(s) => s,
            AppError::PathError(s) => s,
        }
    }
}

} // verus!
