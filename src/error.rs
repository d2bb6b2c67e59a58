use vstd::prelude::*;

verus! {

/// The ways an operation of the service can fail.
#[derive(Debug, Clone)]
pub enum Error {
    /// No guide has the identity that was asked for.
    GuideNotFound,
    /// The request body was malformed or too large.
    InvalidInput(String),
    /// Something failed on the server side (the chat upstream, most often).
    InternalServerError(String),
}

/// The HTTP status that an error is reported with.
pub open spec fn status_of(e: Error) -> u16 {
    match e {
        Error::GuideNotFound => 404,
        Error::InvalidInput(_) => 400,
        Error::InternalServerError(_) => 500,
    }
}

/// The human-readable text of an error.
pub open spec fn message_of(e: Error) -> Seq<char> {
    match e {
        Error::GuideNotFound => "Guide not found"@,
        Error::InvalidInput(s) => "Invalid input: "@ + s@,
        Error::InternalServerError(s) => "Internal server error: "@ + s@,
    }
}

/// The generic internal error, which reveals nothing of its cause.
pub fn internal_error() -> (r: Error)
    ensures
        r matches Error::InternalServerError(s) && s@ == "Internal server error"@,
{
    Error::InternalServerError(String::from_str("Internal server error"))
}

impl Error {
    /// The HTTP status code for this error.
    pub fn status_code(&self) -> (r: u16)
        ensures
            r == status_of(*self),
    {
        match self {
            Error::GuideNotFound => 404,
            Error::InvalidInput(_) => 400,
            Error::InternalServerError(_) => 500,
        }
    }

    /// The text reported to the client in the error body.
    pub fn message(&self) -> (r: String)
        ensures
            r@ == message_of(*self),
    {
        match self {
            Error::GuideNotFound => String::from_str("Guide not found"),
            Error::InvalidInput(s) => String::from_str("Invalid input: ").concat(s.as_str()),
            Error::InternalServerError(s) => String::from_str("Internal server error: ").concat(
                s.as_str(),
            ),
        }
    }
}

} // verus!
