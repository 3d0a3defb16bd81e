//! The API's error type and how each error is answered over HTTP.
use vstd::prelude::*;

verus! {

/// An error that an API call answers with.
#[derive(Debug, Clone, PartialEq, Eq)]
pub enum E {
    /// The request is malformed; the text says why.
    Bad(String),
    /// No user is signed in.
    Unauthorized,
    /// The signed-in user may not do this.
    Forbidden,
    /// The requested record does not exist.
    NotFound,
    /// The request clashes with the stored state; the text says how.
    Conflict(String),
    /// Too many requests.
    Rate,
    /// Something failed on the server; the text is for the log only.
    Internal(String),
}

/// The result of an API call.
pub type R<T> = Result<T, E>;

/// The HTTP status code that answers `e`.
pub open spec fn status_of(e: E) -> u16 {
    match e {
        E::Bad(_) => 400,
        E::Unauthorized => 401,
        E::Forbidden => 403,
        E::NotFound => 404,
        E::Conflict(_) => 409,
        E::Rate => 429,
        E::Internal(_) => 500,
    }
}

/// The message shown to the client for `e`.
pub open spec fn message_of(e: E) -> Seq<char> {
    match e {
        E::Bad(v) => v@,
        E::Conflict(v) => v@,
        E::Unauthorized => "Bejelentkezés szükséges."@,
        E::Forbidden => "Nincs jogosultságod ehhez a művelethez."@,
        E::NotFound => "A kért erőforrás nem található."@,
        E::Rate => "Túl sok kérés. Próbáld később."@,
        E::Internal(_) => "Váratlan szerverhiba történt."@,
    }
}

/// The machine-readable code of `e` in the error body.
pub open spec fn code_of(e: E) -> Seq<char> {
    match e {
        E::Bad(_) => "bad_request"@,
        E::Unauthorized => "unauthorized"@,
        E::Forbidden => "forbidden"@,
        E::NotFound => "not_found"@,
        E::Conflict(_) => "conflict"@,
        E::Rate => "rate_limited"@,
        E::Internal(_) => "internal_error"@,
    }
}

/// The text that describes `e` in logs.
pub open spec fn text_of(e: E) -> Seq<char> {
    match e {
        E::Bad(v) => v@,
        E::Conflict(v) => v@,
        E::Internal(v) => v@,
        E::Unauthorized => "unauthorized"@,
        E::Forbidden => "forbidden"@,
        E::NotFound => "not found"@,
        E::Rate => "rate limit"@,
    }
}

/// Whether `e` is a malformed-request error with the message `msg`.
pub open spec fn is_bad(e: E, msg: Seq<char>) -> bool {
    e matches E::Bad(m) && m@ == msg
}

/// Whether `e` is a conflict error with the message `msg`.
pub open spec fn is_conflict(e: E, msg: Seq<char>) -> bool {
    e matches E::Conflict(m) && m@ == msg
}

/// Whether `e` is an internal error with the text `msg`.
pub open spec fn is_internal(e: E, msg: Seq<char>) -> bool {
    e matches E::Internal(m) && m@ == msg
}

/// The text of a failed database call.
pub open spec fn database_msg() -> Seq<char> {
    "Adatbázis hiba"@
}

/// The error that answers a failed database call.
pub fn database_error() -> (r: E)
    ensures
        is_internal(r, database_msg()),
{
    E::Internal("Adatbázis hiba".to_owned())
}

impl E {
    /// The HTTP status code that answers this error.
    pub fn status(&self) -> (r: u16)
        ensures
            r == status_of(*self),
    {
        match self {
            E::Bad(_) => 400,
            E::Unauthorized => 401,
            E::Forbidden => 403,
            E::NotFound => 404,
            E::Conflict(_) => 409,
            E::Rate => 429,
            E::Internal(_) => 500,
        }
    }

    /// The machine-readable code of this error in the error body.
    pub fn code(&self) -> (r: String)
        ensures
            r@ == code_of(*self),
    {
        match self {
            E::Bad(_) => "bad_request".to_owned(),
            E::Unauthorized => "unauthorized".to_owned(),
            E::Forbidden => "forbidden".to_owned(),
            E::NotFound => "not_found".to_owned(),
            E::Conflict(_) => "conflict".to_owned(),
            E::Rate => "rate_limited".to_owned(),
            E::Internal(_) => "internal_error".to_owned(),
        }
    }

    /// The message shown to the client. The text of an internal error is
    /// never shown: the client gets a generic message instead.
    pub fn message(&self) -> (r: String)
        ensures
            r@ == message_of(*self),
    {
        match self {
            E::Bad(v) => v.clone(),
            E::Conflict(v) => v.clone(),
            E::Unauthorized => "Bejelentkezés szükséges.".to_owned(),
            E::Forbidden => "Nincs jogosultságod ehhez a művelethez.".to_owned(),
            E::NotFound => "A kért erőforrás nem található.".to_owned(),
            E::Rate => "Túl sok kérés. Próbáld később.".to_owned(),
            E::Internal(_) => "Váratlan szerverhiba történt.".to_owned(),
        }
    }

    /// The text that describes this error in logs.
    pub fn text(&self) -> (r: String)
        ensures
            r@ == text_of(*self),
    {
        match self {
            E::Bad(v) => v.clone(),
            E::Conflict(v) => v.clone(),
            E::Internal(v) => v.clone(),
            E::Unauthorized => "unauthorized".to_owned(),
            E::Forbidden => "forbidden".to_owned(),
            E::NotFound => "not found".to_owned(),
            E::Rate => "rate limit".to_owned(),
        }
    }
}

} // verus!
