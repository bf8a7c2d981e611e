//! Report types, report identifiers and report processing states.
use vstd::prelude::*;

use crate::common::AccountId;
use crate::custom_reports::CustomReportId;
use crate::text::{int_to_decimal, text, text_with_number};

verus! {

/// Report row ID in the database.
#[derive(Debug, Clone, Copy, PartialEq, Eq, Structural)]
pub struct ReportIdDb(pub i64);

impl ReportIdDb {
    pub fn as_ref(&self) -> (r: &i64)
        ensures
            *r == self.0,
    {
        &self.0
    }
}

/// Report ID in the API.
#[derive(Debug, Clone, Copy, PartialEq, Eq, Structural)]
pub struct ReportId {
    id: i64,
}

impl ReportId {
    pub closed spec fn spec_id(self) -> i64 {
        self.id
    }

    pub fn new(id: i64) -> (r: Self)
        ensures
            r.spec_id() == id,
    {
        Self { id }
    }

    pub fn from_db_id(value: ReportIdDb) -> (r: Self)
        ensures
            r.spec_id() == value.0,
    {
        Self { id: value.0 }
    }
}

/// Report type number of a custom report: a value from 64 to 127.
#[derive(Debug, Clone, Copy, PartialEq, Eq, Structural)]
pub struct CustomReportTypeValue(i8);

impl CustomReportTypeValue {
    #[verifier::type_invariant]
    spec fn in_range(self) -> bool {
        64 <= self.0 <= 127
    }

    pub closed spec fn spec_value(self) -> i8 {
        self.0
    }

    /// The value is a custom report type number; every value made by this
    /// module is.
    pub open spec fn wf(self) -> bool {
        64 <= self.spec_value() <= 127
    }

    /// The custom report type number `value`, or an error when it is not
    /// in `[64, 127]`.
    pub fn new(value: u8) -> (r: Result<Self, String>)
        ensures
            match r {
                Ok(v) => v.spec_value() == value && v.wf(),
                Err(e) => !(64 <= value <= 127) && e@ == "Invalid custom report type number value "@
                    + int_to_decimal(value as int) + ", min: 64, max: 127"@,
            },
    {
        if value < 64 || value > 127 {
            let mut s = text_with_number("Invalid custom report type number value ", value as i64);
            s.append(", min: 64, max: 127");
            Err(s)
        } else {
            Ok(Self(value as i8))
        }
    }

    pub fn to_report_type(&self) -> (r: ReportType)
        ensures
            r.n == self.spec_value(),
    {
        ReportType { n: self.0 }
    }

    pub fn to_report_type_internal(&self) -> (r: ReportTypeInternal)
        ensures
            r == ReportTypeInternal::CustomReport(*self),
    {
        ReportTypeInternal::CustomReport(*self)
    }

    /// The custom report ID whose value is the type number itself. As every
    /// type number is above the largest ID, this is always the too large ID
    /// error.
    pub fn to_custom_report_id(&self) -> (r: Result<CustomReportId, String>)
        ensures
            r matches Err(e) && e@ == CustomReportId::spec_too_large_error(self.spec_value() as int),
    {
        proof {
            use_type_invariant(self);
        }
        CustomReportId::new(self.0 as u8)
    }
}

/// Report type as stored in the database.
#[derive(Debug, Clone, Copy, PartialEq, Eq, Structural)]
pub enum ReportTypeInternal {
    ProfileName,
    ProfileText,
    ProfileContent,
    ChatMessage,
    /// Values from 64 to 127
    CustomReport(CustomReportTypeValue),
}

impl ReportTypeInternal {
    /// Number of the type: ProfileName 0, ProfileText 1, ProfileContent 2,
    /// ChatMessage 3, a custom report its value.
    pub open spec fn spec_number(self) -> i8 {
        match self {
            Self::ProfileName => 0,
            Self::ProfileText => 1,
            Self::ProfileContent => 2,
            Self::ChatMessage => 3,
            Self::CustomReport(value) => value.spec_value(),
        }
    }

    /// The built in types have the documented numbers 0 to 3, and a custom
    /// report type is its own value.
    pub proof fn lemma_documented_numbers(self)
        ensures
            self is ProfileName ==> self.spec_number() == 0,
            self is ProfileText ==> self.spec_number() == 1,
            self is ProfileContent ==> self.spec_number() == 2,
            self is ChatMessage ==> self.spec_number() == 3,
            self matches Self::CustomReport(v) ==> self.spec_number() == v.spec_value(),
    {
    }

    /// A custom report type number, where the type is a custom report.
    pub open spec fn wf(self) -> bool {
        self matches Self::CustomReport(v) ==> v.wf()
    }

    pub fn db_value(&self) -> (r: i16)
        ensures
            r == self.spec_number(),
            self.wf(),
    {
        if let Self::CustomReport(v) = self {
            proof {
                use_type_invariant(v);
            }
        }
        self.to_i8() as i16
    }

    pub fn to_i8(self) -> (r: i8)
        ensures
            r == self.spec_number(),
    {
        match self {
            Self::ProfileName => 0,
            Self::ProfileText => 1,
            Self::ProfileContent => 2,
            Self::ChatMessage => 3,
            Self::CustomReport(value) => value.0,
        }
    }

    /// The report type of database value `value`. Values outside the `i8`
    /// range and numbers that name no report type are refused.
    pub fn try_from_i16(value: i16) -> (r: Result<Self, String>)
        ensures
            match r {
                Ok(t) => t.spec_number() == value && t.wf(),
                Err(e) => !(0 <= value <= 3 || 64 <= value <= 127) && e@ == if -128 <= value <= 127 {
                    "Unknown report type number value "@ + int_to_decimal(value as int)
                } else {
                    "out of range integral type conversion attempted"@
                },
            },
    {
        if value < -128 || value > 127 {
            return Err(text("out of range integral type conversion attempted"));
        }
        let value = value as i8;
        if value == 0 {
            Ok(Self::ProfileName)
        } else if value == 1 {
            Ok(Self::ProfileText)
        } else if value == 2 {
            Ok(Self::ProfileContent)
        } else if value == 3 {
            Ok(Self::ChatMessage)
        } else if 64 <= value {
            Ok(Self::CustomReport(CustomReportTypeValue(value)))
        } else {
            Err(text_with_number("Unknown report type number value ", value as i64))
        }
    }
}

/// Every report type is read back from its database value.
pub proof fn lemma_report_type_db_value_roundtrip(t: ReportTypeInternal)
    requires
        t.wf(),
    ensures
        0 <= t.spec_number() <= 3 || 64 <= t.spec_number() <= 127,
        forall|u: ReportTypeInternal| u.wf() && u.spec_number() == t.spec_number() ==> u == t,
{
}

impl TryFrom<i16> for ReportTypeInternal {
    type Error = String;

    fn try_from(value: i16) -> (r: Result<Self, Self::Error>)
        ensures
            match r {
                Ok(t) => t.spec_number() == value,
                Err(_) => !(0 <= value <= 3 || 64 <= value <= 127),
            },
    {
        Self::try_from_i16(value)
    }
}

impl vstd::std_specs::convert::TryFromSpecImpl<i16> for ReportTypeInternal {
    open spec fn obeys_try_from_spec() -> bool {
        false
    }

    open spec fn try_from_spec(v: i16) -> Result<Self, String> {
        arbitrary()
    }
}

/// Report type number: ProfileName 0, ProfileText 1, ProfileContent 2,
/// ChatMessage 3 and custom reports from 64 to 127.
#[derive(Debug, Clone, Copy, PartialEq, Eq, Structural)]
pub struct ReportType {
    /// This is i8 so that the max value is 127, which SQLite stores in a
    /// single byte.
    pub n: i8,
}

impl ReportType {
    pub const FIRST_CUSTOM_REPORT_TYPE_NUMBER: i8 = 64;
    pub const LAST_CUSTOM_REPORT_TYPE_NUMBER: i8 = 127;
    /// Max count for reports related to some account with specific type.
    pub const MAX_COUNT: usize = 100;

    pub fn from_internal(value: ReportTypeInternal) -> (r: Self)
        ensures
            r.n == value.spec_number(),
    {
        Self { n: value.to_i8() }
    }
}

/// State of report processing.
#[derive(Debug, Clone, Copy, Default, PartialEq, Eq, Structural)]
pub enum ReportProcessingState {
    #[default]
    Waiting,
    AcceptedByAdminBot,
    AcceptedByAdmin,
    RejectedByAdminBot,
    RejectedByAdmin,
}

impl ReportProcessingState {
    /// Number of the state: Waiting 0, AcceptedByAdminBot 1,
    /// AcceptedByAdmin 2, RejectedByAdminBot 3, RejectedByAdmin 4.
    pub open spec fn spec_to_i16(self) -> i16 {
        match self {
            Self::Waiting => 0,
            Self::AcceptedByAdminBot => 1,
            Self::AcceptedByAdmin => 2,
            Self::RejectedByAdminBot => 3,
            Self::RejectedByAdmin => 4,
        }
    }

    /// Each variant has the number that the documentation gives it.
    pub proof fn lemma_documented_numbers(self)
        ensures
            self is Waiting ==> self.spec_to_i16() == 0,
            self is AcceptedByAdminBot ==> self.spec_to_i16() == 1,
            self is AcceptedByAdmin ==> self.spec_to_i16() == 2,
            self is RejectedByAdminBot ==> self.spec_to_i16() == 3,
            self is RejectedByAdmin ==> self.spec_to_i16() == 4,
    {
    }

    pub fn to_i16(self) -> (r: i16)
        ensures
            r == self.spec_to_i16(),
    {
        match self {
            Self::Waiting => 0,
            Self::AcceptedByAdminBot => 1,
            Self::AcceptedByAdmin => 2,
            Self::RejectedByAdminBot => 3,
            Self::RejectedByAdmin => 4,
        }
    }

    pub fn try_from_i16(v: i16) -> (r: Result<Self, crate::EnumParsingError>)
        ensures
            match r {
                Ok(s) => s.spec_to_i16() == v,
                Err(e) => !(0 <= v <= 4) && e == crate::EnumParsingError::ParsingError(v as i64),
            },
    {
        if v == 0 {
            Ok(Self::Waiting)
        } else if v == 1 {
            Ok(Self::AcceptedByAdminBot)
        } else if v == 2 {
            Ok(Self::AcceptedByAdmin)
        } else if v == 3 {
            Ok(Self::RejectedByAdminBot)
        } else if v == 4 {
            Ok(Self::RejectedByAdmin)
        } else {
            Err(crate::EnumParsingError::ParsingError(v as i64))
        }
    }

    /// Every state but Waiting.
    pub fn processed_states() -> (r: [Self; 4])
        ensures
            r@ == seq![Self::AcceptedByAdminBot, Self::AcceptedByAdmin, Self::RejectedByAdminBot, Self::RejectedByAdmin],
    {
        let r = [Self::AcceptedByAdminBot, Self::AcceptedByAdmin, Self::RejectedByAdminBot, Self::RejectedByAdmin];
        assert(r@ =~= seq![Self::AcceptedByAdminBot, Self::AcceptedByAdmin, Self::RejectedByAdminBot, Self::RejectedByAdmin]);
        r
    }

    pub fn rejected_states() -> (r: [Self; 2])
        ensures
            r@ == seq![Self::RejectedByAdminBot, Self::RejectedByAdmin],
    {
        let r = [Self::RejectedByAdminBot, Self::RejectedByAdmin];
        assert(r@ =~= seq![Self::RejectedByAdminBot, Self::RejectedByAdmin]);
        r
    }

    pub fn accepted_states() -> (r: [Self; 2])
        ensures
            r@ == seq![Self::AcceptedByAdminBot, Self::AcceptedByAdmin],
    {
        let r = [Self::AcceptedByAdminBot, Self::AcceptedByAdmin];
        assert(r@ =~= seq![Self::AcceptedByAdminBot, Self::AcceptedByAdmin]);
        r
    }
}

/// Result of updating a report.
#[derive(Debug, Clone, Copy, Default, PartialEq, Eq, Structural)]
pub struct UpdateReportResult {
    error: bool,
    error_outdated_report_content: bool,
    error_too_many_reports: bool,
}

impl UpdateReportResult {
    /// The error flags: any error, outdated report content, too many reports.
    pub closed spec fn flags(self) -> (bool, bool, bool) {
        (self.error, self.error_outdated_report_content, self.error_too_many_reports)
    }

    pub fn success() -> (r: Self)
        ensures
            r.flags() == (false, false, false),
    {
        Self { error: false, error_outdated_report_content: false, error_too_many_reports: false }
    }

    pub fn outdated_report_content() -> (r: Self)
        ensures
            r.flags() == (true, true, false),
    {
        Self { error: true, error_outdated_report_content: true, error_too_many_reports: false }
    }

    pub fn too_many_reports() -> (r: Self)
        ensures
            r.flags() == (true, false, true),
    {
        Self { error: true, error_outdated_report_content: false, error_too_many_reports: true }
    }

    pub fn is_success(&self) -> (r: bool)
        ensures
            r == (self.flags() == (false, false, false)),
    {
        !self.error && !self.error_outdated_report_content && !self.error_too_many_reports
    }
}

/// Report query of one target.
#[derive(Debug, Clone, Copy, PartialEq, Eq, Structural)]
pub struct ReportQueryParams {
    /// Report target
    pub target: AccountId,
}

impl ReportProcessingState {
    /// Different values have different numbers, so reading a value's
    /// number back gives the value.
    pub proof fn lemma_number_injective(a: Self, b: Self)
        ensures
            a.spec_to_i16() == b.spec_to_i16() <==> a == b,
    {
    }
}

} // verus!
