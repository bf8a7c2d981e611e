//! Time stamps of account events.
use vstd::prelude::*;

use crate::backend::UnixTime;

verus! {

/// Time when the account was created.
#[derive(Debug, Clone, Copy, Default, PartialEq, Eq, Structural)]
pub struct AccountCreatedTime(pub UnixTime);

impl AccountCreatedTime {
    pub fn current_time() -> (r: Self) {
        Self(UnixTime::current_time())
    }

    pub fn as_ref(&self) -> (r: &i64)
        ensures
            *r == self.0.ut,
    {
        &self.0.ut
    }
}

impl TryFrom<i64> for AccountCreatedTime {
    type Error = String;

    fn try_from(value: i64) -> (r: Result<Self, Self::Error>)
        ensures
            r matches Ok(t) && t.0.ut == value,
    {
        Ok(Self(UnixTime::new(value)))
    }
}

impl vstd::std_specs::convert::TryFromSpecImpl<i64> for AccountCreatedTime {
    open spec fn obeys_try_from_spec() -> bool {
        false
    }

    open spec fn try_from_spec(v: i64) -> Result<Self, String> {
        arbitrary()
    }
}

/// Time when the account's initial setup was completed.
#[derive(Debug, Clone, Copy, Default, PartialEq, Eq, Structural)]
pub struct InitialSetupCompletedTime(pub UnixTime);

impl InitialSetupCompletedTime {
    pub fn current_time() -> (r: Self) {
        Self(UnixTime::current_time())
    }

    pub fn as_ref(&self) -> (r: &i64)
        ensures
            *r == self.0.ut,
    {
        &self.0.ut
    }
}

impl TryFrom<i64> for InitialSetupCompletedTime {
    type Error = String;

    fn try_from(value: i64) -> (r: Result<Self, Self::Error>)
        ensures
            r matches Ok(t) && t.0.ut == value,
    {
        Ok(Self(UnixTime::new(value)))
    }
}

impl vstd::std_specs::convert::TryFromSpecImpl<i64> for InitialSetupCompletedTime {
    open spec fn obeys_try_from_spec() -> bool {
        false
    }

    open spec fn try_from_spec(v: i64) -> Result<Self, String> {
        arbitrary()
    }
}

} // verus!
