use vstd::prelude::*;

verus! {

/// Every way a request can be refused.
#[derive(Debug, Clone, Copy, PartialEq, Eq, Structural)]
pub enum Error {
    DuplicateBadge,
    DuplicateToken,
    DuplicateScan,
    Internal,
    InvalidRequest,
    InvalidToken,
    MissingCredentials,
    SelfScan,
    Unauthorized,
    UnknownBadge,
    UnknownUser,
    WrongCredentials,
    /// The database accepted a new scan but handed back no row for it.
    UnknownScan,
}

/// The outcome of a request.
pub type Result<T> = core::result::Result<T, Error>;

/// The HTTP status that answers an error.
pub open spec fn status_of(e: Error) -> u16 {
    match e {
        Error::DuplicateBadge => 422,
        Error::DuplicateToken => 422,
        Error::DuplicateScan => 422,
        Error::InvalidRequest => 422,
        Error::InvalidToken => 401,
        Error::MissingCredentials => 422,
        Error::SelfScan => 422,
        Error::Unauthorized => 401,
        Error::UnknownBadge => 404,
        Error::UnknownUser => 404,
        Error::WrongCredentials => 422,
        Error::Internal => 500,
        Error::UnknownScan => 500,
    }
}

/// The `detail` message sent with an error.
pub open spec fn detail_of(e: Error) -> Seq<char> {
    match e {
        Error::DuplicateBadge => "duplicate badge"@,
        Error::DuplicateToken => "duplicate token"@,
        Error::DuplicateScan => "duplicate scan"@,
        Error::InvalidRequest => "invalid request"@,
        Error::InvalidToken => "invalid token"@,
        Error::MissingCredentials => "no credentials found"@,
        Error::SelfScan => "self scan"@,
        Error::Unauthorized => "not authorized"@,
        Error::UnknownBadge => "unknown badge"@,
        Error::UnknownUser => "unknown user"@,
        Error::WrongCredentials => "wrong credentials"@,
        Error::Internal => "internal error"@,
        Error::UnknownScan => "internal error"@,
    }
}

impl Error {
    /// The HTTP status code of the response that reports this error.
    pub fn status(&self) -> (code: u16)
        ensures
            code == status_of(*self),
    {
        match self {
            Error::DuplicateBadge => 422,
            Error::DuplicateToken => 422,
            Error::DuplicateScan => 422,
            Error::InvalidRequest => 422,
            Error::InvalidToken => 401,
            Error::MissingCredentials => 422,
            Error::SelfScan => 422,
            Error::Unauthorized => 401,
            Error::UnknownBadge => 404,
            Error::UnknownUser => 404,
            Error::WrongCredentials => 422,
            Error::Internal => 500,
            Error::UnknownScan => 500,
        }
    }

    /// The message placed under `detail` in the response body.
    pub fn detail(&self) -> (message: &'static str)
        ensures
            message@ == detail_of(*self),
    {
        match self {
            Error::DuplicateBadge => "duplicate badge",
            Error::DuplicateToken => "duplicate token",
            Error::DuplicateScan => "duplicate scan",
            Error::InvalidRequest => "invalid request",
            Error::InvalidToken => "invalid token",
            Error::MissingCredentials => "no credentials found",
            Error::SelfScan => "self scan",
            Error::Unauthorized => "not authorized",
            Error::UnknownBadge => "unknown badge",
            Error::UnknownUser => "unknown user",
            Error::WrongCredentials => "wrong credentials",
            Error::Internal => "internal error",
            Error::UnknownScan => "internal error",
        }
    }
}

/// Errors that blame the request are answered with a 4xx status, and only
/// the errors that blame the server with 500.
pub proof fn law_status_blames_the_right_side(e: Error)
    ensures
        status_of(e) == 500 <==> (e == Error::Internal || e == Error::UnknownScan),
        status_of(e) != 500 ==> 400 <= status_of(e) < 500,
{
}

} // verus!
