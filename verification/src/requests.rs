//! The request bodies and the rules their fields must meet.
//!
//! One rule per field: an item's name has at least one character, and a
//! login's username is an email address as the `validator` crate judges it.

use vstd::prelude::*;

use crate::validators::{email_shaped, validate_email, validate_length, Validation};

verus! {

/// The body of a request that creates or renames an item.
#[derive(Debug, PartialEq, Eq)]
pub struct ItemRequest {
    pub name: String,
}

/// The body of a login request.
#[derive(Debug, PartialEq, Eq)]
pub struct LoginRequest {
    pub username: String,
}

impl ItemRequest {
    /// The name is not empty.
    pub open spec fn valid(&self) -> bool {
        self.name@.len() >= 1
    }

    /// The report on a request whose name is empty.
    pub open spec fn violation() -> Map<Seq<char>, Seq<Seq<char>>> {
        map!["name"@ => seq!["name is too short"@]]
    }

    /// Checks the request against its rules and reports every violation.
    pub fn validate(&self) -> (checked: Result<(), Validation>)
        ensures
            match checked {
                Ok(_) => self.valid(),
                Err(report) => !self.valid() && report@ == Self::violation(),
            },
    {
        let mut report = Validation::new();
        if !validate_length(self.name.as_str(), 1) {
            report.add("name", "name is too short");
        }
        if report.is_empty() {
            Ok(())
        } else {
            assert(report@ =~= Self::violation());
            Err(report)
        }
    }
}

impl LoginRequest {
    /// The username is an email address.
    pub open spec fn valid(&self) -> bool {
        email_shaped(self.username@)
    }

    /// The report on a request whose username is no email address.
    pub open spec fn violation() -> Map<Seq<char>, Seq<Seq<char>>> {
        map!["username"@ => seq!["username must be a valid email"@]]
    }

    /// The report that follows from the email rule's answer on the username.
    pub fn report(is_email: bool) -> (checked: Result<(), Validation>)
        ensures
            match checked {
                Ok(_) => is_email,
                Err(report) => !is_email && report@ == Self::violation(),
            },
    {
        let mut report = Validation::new();
        if !is_email {
            report.add("username", "username must be a valid email");
        }
        if report.is_empty() {
            Ok(())
        } else {
            assert(report@ =~= Self::violation());
            Err(report)
        }
    }

    /// Checks the request against its rules and reports every violation.
    pub fn validate(&self) -> (checked: Result<(), Validation>)
        ensures
            match checked {
                Ok(_) => self.valid(),
                Err(report) => !self.valid() && report@ == Self::violation(),
            },
            !self.username@.contains('@') ==> checked is Err,
    {
        Self::report(validate_email(self.username.as_str()))
    }
}

} // verus!
