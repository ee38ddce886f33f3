//! The classes of failure and the statuses that stand for them.

use vstd::prelude::*;

verus! {

/// The class that a rejected request falls under.
#[derive(Clone, Copy, Debug, PartialEq, Eq, Structural)]
pub enum ErrorKind {
    /// Malformed input: an empty required field, a malformed identifier.
    Validation,
    /// A credential that is missing, malformed, wrongly signed or expired, or a
    /// wrong password.
    Authentication,
    /// An authenticated caller who is not entitled to the operation.
    Authorization,
    /// A resource that does not exist.
    NotFound,
    /// A failure of storage or of a primitive.
    Internal,
}

impl ErrorKind {
    /// The status that stands for the class.
    pub open spec fn code(self) -> u16 {
        match self {
            ErrorKind::Validation => 400,
            ErrorKind::Authentication => 401,
            ErrorKind::Authorization => 403,
            ErrorKind::NotFound => 404,
            ErrorKind::Internal => 500,
        }
    }

    /// The status that stands for the class.
    pub fn status(self) -> (status: u16)
        ensures
            status == self.code(),
    {
        match self {
            ErrorKind::Validation => 400,
            ErrorKind::Authentication => 401,
            ErrorKind::Authorization => 403,
            ErrorKind::NotFound => 404,
            ErrorKind::Internal => 500,
        }
    }
}

/// A failed call to the persistence layer. It carries no detail: none reaches
/// the client.
#[derive(Clone, Copy, Debug, PartialEq, Eq, Structural)]
pub struct StoreError;

} // verus!
