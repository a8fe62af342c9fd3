//! The errors of the SDK.
use std::fmt::Display;

use vstd::prelude::*;

verus! {

/// What went wrong, in the broad.
#[derive(Debug, Clone, Copy, PartialEq, Eq, Structural)]
pub enum ErrorKind {
    /// The SDK lost track of its own background work.
    Internal,
    /// The session ended or misbehaved.
    Protocol,
}

/// An error of the SDK: its kind and the text that explains it.
#[derive(Debug)]
pub struct SdkError {
    pub kind: ErrorKind,
    pub message: String,
}

/// An [`SdkError`] with its text as a sequence of characters.
#[verifier::ext_equal]
pub struct ErrorView {
    pub kind: ErrorKind,
    pub message: Seq<char>,
}

impl View for SdkError {
    type V = ErrorView;

    open spec fn view(&self) -> ErrorView {
        ErrorView { kind: self.kind, message: self.message@ }
    }
}

impl SdkError {
    /// An error of kind [`ErrorKind::Internal`].
    pub fn internal(message: String) -> (error: SdkError)
        ensures
            error@ == (ErrorView { kind: ErrorKind::Internal, message: message@ }),
            error.kind == ErrorKind::Internal,
            error.message@ == message@,
    {
        SdkError { kind: ErrorKind::Internal, message }
    }

    /// An error of kind [`ErrorKind::Protocol`].
    pub fn protocol(message: String) -> (error: SdkError)
        ensures
            error@ == (ErrorView { kind: ErrorKind::Protocol, message: message@ }),
            error.kind == ErrorKind::Protocol,
            error.message@ == message@,
    {
        SdkError { kind: ErrorKind::Protocol, message }
    }

    /// The text of the error.
    pub fn to_string(&self) -> (text: String)
        ensures
            text@ == self@.message,
            text@ == self.message@,
    {
        self.message.clone()
    }
}

/// `text` is what `value` can display as. That it is can only be learned from
/// displaying the value.
pub open spec fn displays<D: Display>(value: D, text: Seq<char>) -> bool {
    exists|string: String| #[trigger]
        vstd::string::to_string_from_display_ensures::<D>(&value, string) && string@ == text
}

} // verus!
