//! What can go wrong at a window-manager backend.

use vstd::prelude::*;

verus! {

/// A failure of a backend operation, with the diagnostic text where the
/// desktop environment gave one.
#[derive(Clone, Debug, PartialEq, Eq)]
pub enum BackendError {
    /// The backend's control tool cannot be reached at all.
    Unavailable(String),
    /// A query for windows or for the active window failed, or its answer
    /// could not be read.
    QueryFailure(String),
    /// A request to focus, move or resize a window was not carried out.
    Activation(String),
    /// No focused window can be determined.
    NoActiveWindow,
}

/// The kinds of failure, without their texts.
#[derive(Clone, Copy, Debug, PartialEq, Eq, Structural)]
pub enum ErrorKind {
    Unavailable,
    QueryFailure,
    Activation,
    NoActiveWindow,
}

/// A failure, to specifications.
pub struct ErrorModel {
    pub kind: ErrorKind,
    pub text: Seq<char>,
}

impl View for BackendError {
    type V = ErrorModel;

    open spec fn view(&self) -> ErrorModel {
        ErrorModel { kind: self.kind_of(), text: self.text() }
    }
}

impl BackendError {
    /// The kind of this failure.
    pub open spec fn kind_of(&self) -> ErrorKind {
        match self {
            BackendError::Unavailable(_) => ErrorKind::Unavailable,
            BackendError::QueryFailure(_) => ErrorKind::QueryFailure,
            BackendError::Activation(_) => ErrorKind::Activation,
            BackendError::NoActiveWindow => ErrorKind::NoActiveWindow,
        }
    }

    /// The diagnostic text of this failure.
    pub open spec fn text(&self) -> Seq<char> {
        match self {
            BackendError::Unavailable(m) => m@,
            BackendError::QueryFailure(m) => m@,
            BackendError::Activation(m) => m@,
            BackendError::NoActiveWindow => no_active_window_text(),
        }
    }

    /// The kind of this failure.
    pub fn kind(&self) -> (k: ErrorKind)
        ensures
            k == self.kind_of(),
    {
        match self {
            BackendError::Unavailable(_) => ErrorKind::Unavailable,
            BackendError::QueryFailure(_) => ErrorKind::QueryFailure,
            BackendError::Activation(_) => ErrorKind::Activation,
            BackendError::NoActiveWindow => ErrorKind::NoActiveWindow,
        }
    }

    /// The diagnostic text of this failure.
    pub fn message(&self) -> (m: String)
        ensures
            m@ == self.text(),
    {
        match self {
            BackendError::Unavailable(m) => m.clone(),
            BackendError::QueryFailure(m) => m.clone(),
            BackendError::Activation(m) => m.clone(),
            BackendError::NoActiveWindow => "No active window found".to_owned(),
        }
    }
}

/// The text that stands for "no focused window".
pub open spec fn no_active_window_text() -> Seq<char> {
    "No active window found"@
}

} // verus!
