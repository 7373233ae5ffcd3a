//! Failures of reading and writing user accounts.

use vstd::prelude::*;
use vstd::std_specs::convert::FromSpecImpl;

verus! {

/// Why an operation on a user account did not succeed.
#[derive(Clone, Copy, Debug, PartialEq, Eq, Structural)]
pub enum UserError {
    UserNotFound,
    UserAlreadyExists,
    DatabaseError,
}

/// What the database reported of a failed statement, as far as it decides
/// the answer.
#[derive(Debug)]
pub enum DatabaseFailure {
    /// The statement should have returned a row and returned none.
    RowNotFound,
    /// The database refused the statement; `constraint` names the violated
    /// constraint where there is one.
    Database { constraint: Option<String> },
    /// Any other failure.
    Other,
}

/// True for the constraints that keep e-mail addresses and user names unique.
pub open spec fn is_uniqueness_constraint(name: Seq<char>) -> bool {
    name == "user_email"@ || name == "user_username"@
}

/// The failure of a user operation that a database failure amounts to.
pub open spec fn user_error_of(failure: DatabaseFailure) -> UserError {
    match failure {
        DatabaseFailure::RowNotFound => UserError::UserNotFound,
        DatabaseFailure::Database { constraint: Some(name) } => if is_uniqueness_constraint(name@) {
            UserError::UserAlreadyExists
        } else {
            UserError::DatabaseError
        },
        DatabaseFailure::Database { constraint: None } => UserError::DatabaseError,
        DatabaseFailure::Other => UserError::DatabaseError,
    }
}

impl UserError {
    /// The HTTP status that goes with the failure.
    pub open spec fn spec_status(self) -> u16 {
        match self {
            UserError::UserNotFound => 404,
            UserError::UserAlreadyExists => 409,
            UserError::DatabaseError => 500,
        }
    }

    /// The stable machine-readable code of the failure.
    pub open spec fn spec_code(self) -> Seq<char> {
        match self {
            UserError::UserNotFound => "user_not_found"@,
            UserError::UserAlreadyExists => "user_already_exists"@,
            UserError::DatabaseError => "database_error"@,
        }
    }

    /// The human-readable message of the failure.
    pub open spec fn spec_message(self) -> Seq<char> {
        match self {
            UserError::UserNotFound => "User not found"@,
            UserError::UserAlreadyExists => "User already exists"@,
            UserError::DatabaseError => "Database error"@,
        }
    }

    /// The HTTP status and the machine-readable code of the failure.
    pub fn get_codes(&self) -> (r: (u16, &'static str))
        ensures
            r.0 == self.spec_status(),
            r.1@ == self.spec_code(),
    {
        match self {
            UserError::UserNotFound => (404, "user_not_found"),
            UserError::UserAlreadyExists => (409, "user_already_exists"),
            UserError::DatabaseError => (500, "database_error"),
        }
    }

    /// The human-readable message of the failure.
    pub fn message(&self) -> (r: &'static str)
        ensures
            r@ == self.spec_message(),
    {
        match self {
            UserError::UserNotFound => "User not found",
            UserError::UserAlreadyExists => "User already exists",
            UserError::DatabaseError => "Database error",
        }
    }
}

impl From<DatabaseFailure> for UserError {
    fn from(failure: DatabaseFailure) -> (error: UserError)
    {
        match failure {
            DatabaseFailure::RowNotFound => UserError::UserNotFound,
            DatabaseFailure::Database { constraint } => match constraint {
                Some(name) => {
                    if name == "user_email".to_owned() || name == "user_username".to_owned() {
                        UserError::UserAlreadyExists
                    } else {
                        UserError::DatabaseError
                    }
                },
                None => UserError::DatabaseError,
            },
            DatabaseFailure::Other => UserError::DatabaseError,
        }
    }
}

impl FromSpecImpl<DatabaseFailure> for UserError {
    open spec fn obeys_from_spec() -> bool {
        true
    }

    open spec fn from_spec(failure: DatabaseFailure) -> UserError {
        user_error_of(failure)
    }
}

} // verus!
