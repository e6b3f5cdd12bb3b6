//! What a handler answers a request with.

use vstd::prelude::*;
use crate::error::Status;

verus! {

/// An HTML body, or the status that reports why there is none.
pub type HtmlResponse = Result<String, Status>;

/// Whether a flash message reports a success or a failure.
#[derive(Clone, Copy, Debug, PartialEq, Eq, Structural)]
pub enum FlashKind {
    Success,
    Error,
}

/// A redirect that carries a message for the page it leads to. The message
/// is shown once.
#[derive(Debug)]
pub struct Flash {
    pub kind: FlashKind,
    pub location: String,
    pub message: String,
}

/// A redirect with its message as a value of mathematics.
pub struct FlashView {
    pub kind: FlashKind,
    pub location: Seq<char>,
    pub message: Seq<char>,
}

impl View for Flash {
    type V = FlashView;

    open spec fn view(&self) -> FlashView {
        FlashView { kind: self.kind, location: self.location@, message: self.message@ }
    }
}

impl Flash {
    /// A redirect to `location` that reports a success.
    pub fn success(location: String, message: &str) -> (flash: Flash)
        ensures
            flash@ == (FlashView {
                kind: FlashKind::Success,
                location: location@,
                message: message@,
            }),
    {
        Flash { kind: FlashKind::Success, location, message: String::from_str(message) }
    }

    /// A redirect to `location` that reports a failure.
    pub fn error(location: String, message: &str) -> (flash: Flash)
        ensures
            flash@ == (FlashView {
                kind: FlashKind::Error,
                location: location@,
                message: message@,
            }),
    {
        Flash { kind: FlashKind::Error, location, message: String::from_str(message) }
    }
}

} // verus!
