//! Errors returned by the tray icon library.

use vstd::prelude::*;

verus! {

/// Errors returned by tray icon operations.
#[derive(Clone, Debug, PartialEq, Eq)]
pub enum Error {
    /// A native OS call failed; carries the OS error message.
    OsError(String),
    /// PNG encoding failed while converting an icon for the platform.
    PngEncodingError(String),
    /// The operation must run on the main thread (macOS only).
    NotMainThread,
}

impl Error {
    /// A human-readable description of the error.
    pub fn message(&self) -> (r: String)
        ensures
            self matches Error::OsError(m) ==> r@ == m@,
            self matches Error::PngEncodingError(m) ==> r@ == m@,
            self is NotMainThread ==> r@ == "not on the main thread"@,
    {
        match self {
            Error::OsError(m) => m.clone(),
            Error::PngEncodingError(m) => m.clone(),
            Error::NotMainThread => "not on the main thread".to_owned(),
        }
    }
}

/// An error produced when constructing an icon from a pixel buffer whose
/// length disagrees with the claimed dimensions.
#[derive(Clone, Debug, PartialEq, Eq)]
pub enum BadIcon {
    /// The buffer length is not `width * height * 4`.
    InvalidBuffer { width: u32, height: u32, len: usize },
}

} // verus!
