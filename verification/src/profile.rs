//! Profile identifiers, profile links and last seen times.
use vstd::prelude::*;

use crate::backend::{is_uuid_v4, UuidBase64Url};
use crate::common::AccountId;
use crate::media::ProfileContentVersion;

verus! {

/// Version UUID for a public profile.
#[derive(Debug, Clone, Copy, PartialEq, Eq, Structural)]
pub struct ProfileVersion {
    pub v: UuidBase64Url,
}

impl ProfileVersion {
    pub open spec fn uuid(&self) -> UuidBase64Url {
        self.v
    }

    /// A new random version: a random version 4 UUID.
    pub fn new_random() -> (r: Self)
        ensures
            is_uuid_v4(r.uuid().bytes_view()),
    {
        Self { v: UuidBase64Url::new_random_id() }
    }

    pub fn new_base_64_url(version: UuidBase64Url) -> (r: Self)
        ensures
            r.uuid() == version,
    {
        Self { v: version }
    }

    pub fn as_ref(&self) -> (r: &UuidBase64Url)
        ensures
            *r == self.uuid(),
    {
        &self.v
    }
}

/// Account's most recent disconnect time: a Unix timestamp, or -1 if the
/// profile is currently online.
#[derive(Debug, Clone, Copy, PartialEq, Eq, Structural)]
pub struct LastSeenTime(pub i64);

impl LastSeenTime {
    pub fn new(raw: i64) -> (r: Self)
        ensures
            r.0 == raw,
    {
        Self(raw)
    }

    pub fn raw(&self) -> (r: i64)
        ensures
            r == self.0,
    {
        self.0
    }

    /// The last seen time as a Unix time, or `None` when the account is
    /// currently online.
    pub fn last_seen_unix_time(&self) -> (r: Option<LastSeenUnixTime>)
        ensures
            self.0 == -1 ==> r is None,
            self.0 != -1 ==> r == Some(LastSeenUnixTime { ut: crate::backend::UnixTime { ut: self.0 } }),
    {
        if self.0 != -1 {
            Some(LastSeenUnixTime { ut: crate::backend::UnixTime::new(self.raw()) })
        } else {
            None
        }
    }

    pub fn from_unix_time(value: LastSeenUnixTime) -> (r: Self)
        ensures
            r.0 == value.ut.ut,
    {
        Self(value.ut.ut)
    }
}

/// Account's most recent disconnect time as a Unix time.
#[derive(Debug, Clone, Copy, Default, PartialEq, Eq, Structural)]
pub struct LastSeenUnixTime {
    pub ut: crate::backend::UnixTime,
}

impl LastSeenUnixTime {
    pub fn current_time() -> (r: Self) {
        Self { ut: crate::backend::UnixTime::current_time() }
    }

    pub fn as_ref(&self) -> (r: &i64)
        ensures
            *r == self.ut.ut,
    {
        self.ut.as_i64()
    }
}


/// Profile age value which is in inclusive range `[18, 99]`.
#[derive(Debug, Clone, Copy, PartialEq, Eq, Structural)]
pub struct ProfileAge {
    value: u8,
}

impl ProfileAge {
    pub const MIN_AGE: u8 = 18;
    pub const MAX_AGE: u8 = 99;

    /// Every age lies in `[18, 99]`.
    #[verifier::type_invariant]
    spec fn in_range(self) -> bool {
        18 <= self.value <= 99
    }

    /// The age in years.
    pub closed spec fn spec_value(self) -> u8 {
        self.value
    }

    /// The age lies in `[18, 99]`.
    pub open spec fn wf(self) -> bool {
        18 <= self.spec_value() <= 99
    }

    /// `age` clamped to `[18, 99]`.
    pub fn new_clamped(age: u8) -> (r: Self)
        ensures
            r.spec_value() == (if age < 18 { 18 } else if age > 99 { 99 } else { age }),
            r.wf(),
    {
        let value = if age < Self::MIN_AGE {
            Self::MIN_AGE
        } else if age > Self::MAX_AGE {
            Self::MAX_AGE
        } else {
            age
        };
        Self { value }
    }

    pub fn value(&self) -> (r: u8)
        ensures
            r == self.spec_value(),
            18 <= r <= 99,
    {
        proof {
            use_type_invariant(self);
        }
        self.value
    }

    pub fn to_i64(self) -> (r: i64)
        ensures
            r == self.spec_value(),
            18 <= r <= 99,
    {
        proof {
            use_type_invariant(&self);
        }
        self.value as i64
    }
}

impl Default for ProfileAge {
    fn default() -> (r: Self)
        ensures
            r.spec_value() == 18,
    {
        Self { value: Self::MIN_AGE }
    }
}

impl TryFrom<i64> for ProfileAge {
    type Error = String;

    fn try_from(value: i64) -> (r: Result<Self, Self::Error>)
        ensures
            match r {
                Ok(age) => 18 <= value <= 99 && age.spec_value() == value,
                Err(e) => !(18 <= value <= 99) && e@ == "Profile age must be in range [18, 99]"@,
            },
    {
        if value < Self::MIN_AGE as i64 || value > Self::MAX_AGE as i64 {
            Err(crate::text::text("Profile age must be in range [18, 99]"))
        } else {
            Ok(Self { value: value as u8 })
        }
    }
}

impl vstd::std_specs::convert::TryFromSpecImpl<i64> for ProfileAge {
    open spec fn obeys_try_from_spec() -> bool {
        false
    }

    open spec fn try_from_spec(v: i64) -> Result<Self, String> {
        arbitrary()
    }
}

/// Link to a profile: account, profile version, content version and the
/// optional last seen time.
#[derive(Debug, Clone, Copy, PartialEq, Eq, Structural)]
pub struct ProfileLink {
    pub a: AccountId,
    pub p: ProfileVersion,
    pub c: ProfileContentVersion,
    pub l: Option<LastSeenTime>,
}

impl ProfileLink {
    pub fn new(
        id: AccountId,
        version: ProfileVersion,
        content_version: ProfileContentVersion,
        last_seen_time: Option<LastSeenTime>,
    ) -> (r: Self)
        ensures
            r == (Self { a: id, p: version, c: content_version, l: last_seen_time }),
    {
        Self { a: id, p: version, c: content_version, l: last_seen_time }
    }

    pub fn account_id(&self) -> (r: AccountId)
        ensures
            r == self.a,
    {
        self.a
    }

    pub fn profile_version(&self) -> (r: ProfileVersion)
        ensures
            r == self.p,
    {
        self.p
    }

    pub fn profile_content_version(&self) -> (r: ProfileContentVersion)
        ensures
            r == self.c,
    {
        self.c
    }

    pub fn last_seen_time(&self) -> (r: Option<LastSeenTime>)
        ensures
            r == self.l,
    {
        self.l
    }
}

/// Online status change of an account.
#[derive(Debug, Clone, Copy, PartialEq, Eq, Structural)]
pub struct OnlineStatusUpdate {
    pub a: AccountId,
    pub l: Option<LastSeenTime>,
}

} // verus!
