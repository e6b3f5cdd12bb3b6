//! Whether a user may use the service yet.

use vstd::prelude::*;

verus! {

/// The state of an account. A new account starts out inactive.
#[derive(Clone, Copy, Debug, PartialEq, Eq, Structural)]
pub enum UserStatus {
    Inactive,
    Active,
}

impl UserStatus {
    /// The name of the state as a page shows it.
    pub open spec fn spec_name(self) -> Seq<char> {
        match self {
            UserStatus::Inactive => "Inactive"@,
            UserStatus::Active => "Active"@,
        }
    }

    /// The number that the `status` column holds for the state.
    pub open spec fn spec_code(self) -> int {
        match self {
            UserStatus::Inactive => 0,
            UserStatus::Active => 1,
        }
    }

    /// The name of the state as a page shows it.
    pub fn to_string(&self) -> (name: String)
        ensures
            name@ == self.spec_name(),
    {
        match self {
            UserStatus::Inactive => String::from_str("Inactive"),
            UserStatus::Active => String::from_str("Active"),
        }
    }

    /// The number that the `status` column holds for the state.
    pub fn code(&self) -> (code: i32)
        ensures
            code == self.spec_code(),
    {
        match self {
            UserStatus::Inactive => 0,
            UserStatus::Active => 1,
        }
    }

    /// The state that the `status` column holds as `code`, if it is one.
    pub fn from_code(code: i32) -> (status: Option<UserStatus>)
        ensures
            status == (if code == 0 {
                Some(UserStatus::Inactive)
            } else if code == 1 {
                Some(UserStatus::Active)
            } else {
                None
            }),
            status matches Some(s) ==> s.spec_code() == code,
    {
        if code == 0 {
            Some(UserStatus::Inactive)
        } else if code == 1 {
            Some(UserStatus::Active)
        } else {
            None
        }
    }
}

} // verus!
