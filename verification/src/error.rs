//! How a refusal is said.
use vstd::prelude::*;

verus! {

/// Why a token, or a key set, was refused.
#[derive(Debug)]
pub struct AuthenticateError {
    /// What a reader of the log is told.
    pub message: String,
}

impl View for AuthenticateError {
    type V = Seq<char>;

    open spec fn view(&self) -> Seq<char> {
        self.message@
    }
}

impl AuthenticateError {
    /// A refusal with the given message.
    pub fn new(message: String) -> (error: Self)
        ensures
            error@ == message@,
            error.message == message,
    {
        AuthenticateError { message }
    }

    /// A refusal with a fixed message.
    pub(crate) fn fixed(message: &str) -> (error: Self)
        ensures
            error@ == message@,
    {
        AuthenticateError { message: message.to_string() }
    }
}

/// A result as its views: what came of it, or the message of the refusal.
pub open spec fn outcome<T: View>(result: Result<T, AuthenticateError>) -> Result<T::V, Seq<char>> {
    match result {
        Ok(value) => Ok(value@),
        Err(error) => Err(error@),
    }
}

/// The message of a refusal, and nothing where there was none.
pub open spec fn refusal<T>(result: Result<T, AuthenticateError>) -> Option<Seq<char>> {
    match result {
        Ok(_) => None,
        Err(error) => Some(error@),
    }
}

} // verus!
