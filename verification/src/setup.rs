//! Birthdate given in the initial profile setup.
use vstd::prelude::*;

use chrono::NaiveDate;

verus! {

#[verifier::external_type_specification]
#[verifier::external_body]
pub struct ExNaiveDate(chrono::NaiveDate);

/// Birthdate given in the initial setup.
#[derive(Debug, Clone, Copy, Default, PartialEq, Eq)]
pub struct SetProfileSetup {
    pub birthdate: NaiveDate,
}

/// Profile setup values as stored in the database.
#[derive(Debug, Clone, Copy, Default, PartialEq, Eq)]
pub struct ProfileSetup {
    birthdate: Option<NaiveDate>,
}

impl ProfileSetup {
    pub closed spec fn spec_birthdate(self) -> Option<NaiveDate> {
        self.birthdate
    }

    pub fn new(birthdate: Option<NaiveDate>) -> (r: Self)
        ensures
            r.spec_birthdate() == birthdate,
    {
        Self { birthdate }
    }

    pub fn birthdate(&self) -> (r: Option<NaiveDate>)
        ensures
            r == self.spec_birthdate(),
    {
        self.birthdate
    }
}

} // verus!
