use vstd::prelude::*;

verus! {

/// `500 Internal Server Error`.
pub const INTERNAL_SERVER_ERROR: u16 = 500;

/// `404 Not Found`.
pub const NOT_FOUND: u16 = 404;

/// Every failure a request handler can surface. The set is closed: each kind
/// has exactly one status, and a new kind cannot be added without one.
pub enum Error {
    /// An internal failure of no other kind.
    UnexpectedError(anyhow::Error),
    /// Any failure of the database layer.
    DbError(sqlx::Error),
    /// A lookup by identifier found no record.
    NotFoundError,
}

pub type Result<T> = core::result::Result<T, Error>;

impl Error {
    /// The HTTP status that a failure of this kind is answered with.
    pub open spec fn status_spec(&self) -> u16 {
        match self {
            Error::UnexpectedError(_) => INTERNAL_SERVER_ERROR,
            Error::DbError(_) => INTERNAL_SERVER_ERROR,
            Error::NotFoundError => NOT_FOUND,
        }
    }

    /// The HTTP status of this failure.
    pub fn status_code(&self) -> (r: u16)
        ensures
            r == self.status_spec(),
    {
        match self {
            Error::UnexpectedError(_) => INTERNAL_SERVER_ERROR,
            Error::DbError(_) => INTERNAL_SERVER_ERROR,
            Error::NotFoundError => NOT_FOUND,
        }
    }

    /// The response body of this failure: always empty, so that no internal
    /// detail reaches the client.
    pub fn body(&self) -> (r: Vec<u8>)
        ensures
            r@.len() == 0,
    {
        match self {
            Error::UnexpectedError(_) => Vec::new(),
            Error::DbError(_) => Vec::new(),
            Error::NotFoundError => Vec::new(),
        }
    }

    /// The name of this failure's kind, as it is logged.
    pub fn kind_name(&self) -> (r: &'static str)
        ensures
            r@ == self.kind_spec(),
    {
        match self {
            Error::UnexpectedError(_) => "Unexpected Error",
            Error::DbError(_) => "Database Error",
            Error::NotFoundError => "Cat Not Found",
        }
    }

    /// The name of a kind.
    pub open spec fn kind_spec(&self) -> Seq<char> {
        match self {
            Error::UnexpectedError(_) => "Unexpected Error"@,
            Error::DbError(_) => "Database Error"@,
            Error::NotFoundError => "Cat Not Found"@,
        }
    }
}

} // verus!
