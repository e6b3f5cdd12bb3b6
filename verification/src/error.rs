//! Failures of the user service and the HTTP statuses they are reported with.

use vstd::prelude::*;

verus! {

/// What can go wrong while serving a request for a user.
#[derive(Clone, Copy, Debug, PartialEq, Eq, Structural)]
pub enum UserError {
    /// An identifier or a form field could not be read.
    ParseError,
    /// A form field was read but breaks a rule of the form.
    ValidationError,
    /// No row matches.
    NotFoundError,
    /// No database connection could be acquired.
    ConnectionError,
    /// A statement failed in the database.
    StorageError,
    /// The password digest could not be derived.
    HashingError,
    /// The operation exists in the route table but does nothing yet.
    NotImplemented,
}

/// The HTTP statuses that the service answers a failed request with.
#[derive(Clone, Copy, Debug, PartialEq, Eq, Structural)]
pub enum Status {
    NotFound,
    InternalServerError,
    NotImplemented,
}

impl Status {
    /// The numeric code of the status line.
    pub open spec fn spec_code(self) -> int {
        match self {
            Status::NotFound => 404,
            Status::InternalServerError => 500,
            Status::NotImplemented => 501,
        }
    }

    /// The numeric code of the status line.
    pub fn code(&self) -> (code: u16)
        ensures
            code == self.spec_code(),
    {
        match self {
            Status::NotFound => 404,
            Status::InternalServerError => 500,
            Status::NotImplemented => 501,
        }
    }
}

impl UserError {
    /// The status that reports this failure: a missing row, an unreadable
    /// identifier or a broken form rule is the client's, `404`; a failed
    /// connection, statement or digest is the server's, `500`; an operation
    /// that is not there yet is `501`.
    pub open spec fn spec_status(self) -> Status {
        match self {
            UserError::ParseError => Status::NotFound,
            UserError::ValidationError => Status::NotFound,
            UserError::NotFoundError => Status::NotFound,
            UserError::ConnectionError => Status::InternalServerError,
            UserError::StorageError => Status::InternalServerError,
            UserError::HashingError => Status::InternalServerError,
            UserError::NotImplemented => Status::NotImplemented,
        }
    }

    /// The status that reports this failure.
    pub fn status(&self) -> (status: Status)
        ensures
            status == self.spec_status(),
    {
        match self {
            UserError::ParseError => Status::NotFound,
            UserError::ValidationError => Status::NotFound,
            UserError::NotFoundError => Status::NotFound,
            UserError::ConnectionError => Status::InternalServerError,
            UserError::StorageError => Status::InternalServerError,
            UserError::HashingError => Status::InternalServerError,
            UserError::NotImplemented => Status::NotImplemented,
        }
    }
}

} // verus!
