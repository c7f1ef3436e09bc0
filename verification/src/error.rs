//! The error type shared by every fallible operation of the library.

use vstd::prelude::*;

verus! {

/// An error carrying a human-readable message.
#[derive(Debug, PartialEq, Eq)]
pub struct AppError {
    pub message: String,
}

impl View for AppError {
    type V = Seq<char>;

    open spec fn view(&self) -> Seq<char> {
        self.message@
    }
}

impl DeepView for AppError {
    type V = Seq<char>;

    open spec fn deep_view(&self) -> Seq<char> {
        self@
    }
}

impl AppError {
    /// Builds an error from a message.
    pub fn new(message: String) -> (e: AppError)
        ensures
            e@ == message@,
    {
        AppError { message }
    }

    /// The message, as displayed to a user.
    pub fn to_string(&self) -> (s: String)
        ensures
            s@ == self@,
    {
        self.message.clone()
    }
}

impl Clone for AppError {
    fn clone(&self) -> (e: AppError)
        ensures
            e@ == self@,
    {
        AppError { message: self.message.clone() }
    }
}

impl From<String> for AppError {
    fn from(message: String) -> (e: AppError) {
        AppError { message }
    }
}

impl vstd::std_specs::convert::FromSpecImpl<String> for AppError {
    open spec fn obeys_from_spec() -> bool {
        true
    }

    open spec fn from_spec(message: String) -> AppError {
        AppError { message }
    }
}

/// Turns any displayable error into an [`AppError`] whose message is the
/// error's own text.
pub fn to_app_error<E: std::error::Error>(err: E) -> (e: AppError)
    ensures
        vstd::string::to_string_from_display_ensures::<E>(&err, e.message),
{
    AppError { message: err.to_string() }
}

} // verus!
