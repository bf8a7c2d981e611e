//! Profile statistics, profile text moderation and profile verification
//! flags.
use vstd::prelude::*;

use crate::backend::UnixTime;
use crate::profile::ProfileAge;
use crate::text::text;

verus! {

/// Which profiles statistics are counted from.
#[derive(Debug, Clone, Copy, Default, PartialEq, Eq, Structural)]
pub enum StatisticsProfileVisibility {
    #[default]
    Public,
    Private,
    All,
}

impl StatisticsProfileVisibility {
    /// Whether these are the statistics made by default: those of public
    /// profiles.
    pub fn is_default_statistics(&self) -> (r: bool)
        ensures
            r == (*self == Self::Public),
    {
        *self == Self::Public
    }
}

/// Parameters of a profile statistics request.
#[derive(Debug, Clone, Copy, PartialEq, Eq, Structural)]
pub struct GetProfileStatisticsParams {
    pub profile_visibility: StatisticsProfileVisibility,
    pub generate_new_statistics: bool,
}

/// Gender of the counted profiles.
#[derive(Debug, Clone, Copy, PartialEq, Eq, Structural)]
pub enum StatisticsGender {
    Man,
    Woman,
    NonBinary,
}

/// Profile counts of one gender per age, starting from `start_age`.
#[derive(Debug, Clone)]
pub struct ProfileAgesPage {
    pub gender: StatisticsGender,
    pub start_age: i64,
    pub profile_counts: Vec<i64>,
}

impl ProfileAgesPage {
    /// Zero counts for every profile age, from 18 to 99.
    pub fn empty(gender: StatisticsGender) -> (r: Self)
        ensures
            r.gender == gender,
            r.start_age == 18,
            r.profile_counts@ == Seq::new(82, |i: int| 0i64),
    {
        let available_age_value_count = ProfileAge::MAX_AGE - ProfileAge::MIN_AGE + 1;
        let counts = vec![0i64; available_age_value_count as usize];
        assert(counts@ =~= Seq::new(82, |i: int| 0i64));
        Self { gender, start_age: ProfileAge::MIN_AGE as i64, profile_counts: counts }
    }

    /// Counts one more profile of `age`; ages past the counts are ignored.
    pub fn increment_age(&mut self, age: u8)
        requires
            age >= 18,
            (age - 18) < old(self).profile_counts@.len() ==> old(self).profile_counts@[age - 18] < i64::MAX,
        ensures
            final(self).gender == old(self).gender,
            final(self).start_age == old(self).start_age,
            final(self).profile_counts@ == if (age - 18) < old(self).profile_counts@.len() {
                old(self).profile_counts@.update(age - 18, (old(self).profile_counts@[age - 18] + 1) as i64)
            } else {
                old(self).profile_counts@
            },
    {
        let i = (age - ProfileAge::MIN_AGE) as usize;
        if i < self.profile_counts.len() {
            let c = self.profile_counts[i];
            self.profile_counts.set(i, c + 1);
        }
    }
}

/// Public profile counts per gender.
#[derive(Debug, Clone, Copy, Default, PartialEq, Eq, Structural)]
pub struct PublicProfileCounts {
    pub man: i64,
    pub woman: i64,
    pub non_binary: i64,
}

/// Profile statistics.
#[derive(Debug, Clone)]
pub struct GetProfileStatisticsResult {
    pub generation_time: UnixTime,
    pub profile_ages: Vec<ProfileAgesPage>,
    pub account_count: i64,
    pub public_profile_counts: PublicProfileCounts,
}

/// Moderation state of a profile text.
#[derive(Debug, Clone, Copy, Default, PartialEq, Eq, Structural)]
pub enum ProfileTextModerationState {
    #[default]
    Empty,
    WaitingBotOrHumanModeration,
    WaitingHumanModeration,
    AcceptedByBot,
    AcceptedByHuman,
    RejectedByBot,
    RejectedByHuman,
}

impl ProfileTextModerationState {
    /// Number of the state, from Empty 0 to RejectedByHuman 6.
    pub open spec fn spec_to_i64(self) -> i64 {
        match self {
            Self::Empty => 0,
            Self::WaitingBotOrHumanModeration => 1,
            Self::WaitingHumanModeration => 2,
            Self::AcceptedByBot => 3,
            Self::AcceptedByHuman => 4,
            Self::RejectedByBot => 5,
            Self::RejectedByHuman => 6,
        }
    }

    /// Each variant has the number that the documentation gives it.
    pub proof fn lemma_documented_numbers(self)
        ensures
            self is Empty ==> self.spec_to_i64() == 0,
            self is WaitingBotOrHumanModeration ==> self.spec_to_i64() == 1,
            self is WaitingHumanModeration ==> self.spec_to_i64() == 2,
            self is AcceptedByBot ==> self.spec_to_i64() == 3,
            self is AcceptedByHuman ==> self.spec_to_i64() == 4,
            self is RejectedByBot ==> self.spec_to_i64() == 5,
            self is RejectedByHuman ==> self.spec_to_i64() == 6,
    {
    }

    pub fn to_i64(self) -> (r: i64)
        ensures
            r == self.spec_to_i64(),
    {
        match self {
            Self::Empty => 0,
            Self::WaitingBotOrHumanModeration => 1,
            Self::WaitingHumanModeration => 2,
            Self::AcceptedByBot => 3,
            Self::AcceptedByHuman => 4,
            Self::RejectedByBot => 5,
            Self::RejectedByHuman => 6,
        }
    }

    /// The state numbered `v`, or an error when `v` is not in `[0, 6]`.
    pub fn try_from_i64(v: i64) -> (r: Result<Self, crate::EnumParsingError>)
        ensures
            match r {
                Ok(s) => s.spec_to_i64() == v,
                Err(e) => !(0 <= v <= 6) && e == crate::EnumParsingError::ParsingError(v),
            },
    {
        if v == 0 {
            Ok(Self::Empty)
        } else if v == 1 {
            Ok(Self::WaitingBotOrHumanModeration)
        } else if v == 2 {
            Ok(Self::WaitingHumanModeration)
        } else if v == 3 {
            Ok(Self::AcceptedByBot)
        } else if v == 4 {
            Ok(Self::AcceptedByHuman)
        } else if v == 5 {
            Ok(Self::RejectedByBot)
        } else if v == 6 {
            Ok(Self::RejectedByHuman)
        } else {
            Err(crate::EnumParsingError::ParsingError(v))
        }
    }

    /// Whether the text may be shown: no text, or a text that a bot or a
    /// human accepted.
    pub fn is_accepted(&self) -> (r: bool)
        ensures
            r == (*self == Self::Empty || *self == Self::AcceptedByBot || *self == Self::AcceptedByHuman),
    {
        match self {
            Self::Empty | Self::AcceptedByBot | Self::AcceptedByHuman => true,
            Self::WaitingBotOrHumanModeration | Self::WaitingHumanModeration | Self::RejectedByBot
            | Self::RejectedByHuman => false,
        }
    }
}

/// Category of a profile text rejection.
#[derive(Debug, Clone, Copy, PartialEq, Eq, Structural)]
pub struct ProfileTextModerationRejectedReasonCategory {
    pub value: i64,
}

impl ProfileTextModerationRejectedReasonCategory {
    pub fn new(value: i64) -> (r: Self)
        ensures
            r.value == value,
    {
        Self { value }
    }

    pub fn as_i64(&self) -> (r: &i64)
        ensures
            *r == self.value,
    {
        &self.value
    }
}

/// Details of a profile text rejection.
#[derive(Debug, Clone)]
pub struct ProfileTextModerationRejectedReasonDetails {
    value: String,
}

impl View for ProfileTextModerationRejectedReasonDetails {
    type V = Seq<char>;

    closed spec fn view(&self) -> Seq<char> {
        self.value@
    }
}

impl ProfileTextModerationRejectedReasonDetails {
    pub fn new(value: String) -> (r: Self)
        ensures
            r@ == value@,
    {
        Self { value }
    }

    pub fn into_string(self) -> (r: String)
        ensures
            r@ == self@,
    {
        self.value
    }

    pub fn as_str(&self) -> (r: &str)
        ensures
            r@ == self@,
    {
        self.value.as_str()
    }
}

/// Moderation state of a profile text with the rejection reason.
#[derive(Debug, Clone)]
pub struct ProfileTextModerationInfo {
    pub state: ProfileTextModerationState,
    pub rejected_reason_category: Option<ProfileTextModerationRejectedReasonCategory>,
    pub rejected_reason_details: Option<ProfileTextModerationRejectedReasonDetails>,
}

/// Profile verification flags: PROFILE_AGE_RANGE_VERIFIED 0x8 and
/// PROFILE_NAME_VERIFIED 0x10.
#[derive(Debug, Clone, Copy, Default, PartialEq, Eq, Structural)]
pub struct ProfileVerificationStatusFlags {
    bits: i16,
}

impl ProfileVerificationStatusFlags {
    pub const PROFILE_AGE_RANGE_VERIFIED: i16 = 0x8;
    pub const PROFILE_NAME_VERIFIED: i16 = 0x10;

    pub closed spec fn spec_bits(self) -> i16 {
        self.bits
    }

    pub fn bits(self) -> (r: i16)
        ensures
            r == self.spec_bits(),
    {
        self.bits
    }

    /// The flags of the values that are verified.
    pub fn from_profile_verification_values(
        profile_age_range_verified: Option<bool>,
        profile_name_verified: Option<bool>,
    ) -> (r: Self)
        ensures
            r.spec_bits() == (if profile_age_range_verified == Some(true) { 0x8i16 } else { 0i16 }) | (
            if profile_name_verified == Some(true) { 0x10i16 } else { 0i16 }),
    {
        let a: i16 = if profile_age_range_verified == Some(true) { Self::PROFILE_AGE_RANGE_VERIFIED } else { 0 };
        let n: i16 = if profile_name_verified == Some(true) { Self::PROFILE_NAME_VERIFIED } else { 0 };
        Self { bits: a | n }
    }
}

/// Media verification flags: PROFILE_CONTENT_FACE_VERIFIED_ANY 0x1,
/// PROFILE_CONTENT_FACE_VERIFIED_ALL 0x2 and SECURITY_CONTENT_VERIFIED 0x4.
#[derive(Debug, Clone, Copy, Default, PartialEq, Eq, Structural)]
pub struct MediaVerificationStatusFlags {
    pub bits: i16,
}

/// Verification flags of a search filter: the media and the profile flags.
#[derive(Debug, Clone, Copy, Default, PartialEq, Eq, Structural)]
pub struct VerificationStatusFilterFlags {
    bits: i16,
}

impl VerificationStatusFilterFlags {
    pub closed spec fn spec_bits(self) -> i16 {
        self.bits
    }

    pub fn bits(self) -> (r: i16)
        ensures
            r == self.spec_bits(),
    {
        self.bits
    }

    /// The filter of `value`; an error when it has an unknown flag.
    pub fn try_from_i16(value: i16) -> (r: Result<Self, String>)
        ensures
            match r {
                Ok(f) => f.spec_bits() == value && value & !0x1fi16 == 0,
                Err(e) => value & !0x1fi16 != 0 && e@ == "Unknown bitflag"@,
            },
    {
        if value & !0x1fi16 != 0 {
            Err(text("Unknown bitflag"))
        } else {
            Ok(Self { bits: value })
        }
    }
}

/// All verification flags of a profile.
#[derive(Debug, Clone, Copy, Default, PartialEq, Eq, Structural)]
pub struct AllVerificationStatusFlags {
    flags: i16,
}

impl AllVerificationStatusFlags {
    pub closed spec fn spec_flags(self) -> i16 {
        self.flags
    }

    pub fn new(profile: ProfileVerificationStatusFlags, media: MediaVerificationStatusFlags) -> (r: Self)
        ensures
            r.spec_flags() == profile.spec_bits() | media.bits,
    {
        Self { flags: profile.bits() | media.bits }
    }

    /// Whether every flag of `required_mask` is set.
    pub fn has_required_mask(self, required_mask: VerificationStatusFilterFlags) -> (r: bool)
        ensures
            r == (self.spec_flags() & required_mask.spec_bits() == required_mask.spec_bits()),
    {
        (self.flags & required_mask.bits()) == required_mask.bits()
    }
}

impl ProfileTextModerationState {
    /// Different values have different numbers, so reading a value's
    /// number back gives the value.
    pub proof fn lemma_number_injective(a: Self, b: Self)
        ensures
            a.spec_to_i64() == b.spec_to_i64() <==> a == b,
    {
    }
}

} // verus!
