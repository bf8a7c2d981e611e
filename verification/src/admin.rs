//! Admin side values: report chat info, news translation updates,
//! account verification requests and statistics save times.
use vstd::prelude::*;

use crate::backend::{NonEmptyString, UnixTime};
use crate::chat::ChatMessageReport;
use crate::common::{AccountId, AccountIdDb, AccountIdInternal};
use crate::report::{ReportId, ReportIdDb, ReportProcessingState, ReportType, ReportTypeInternal};
use crate::media::ContentId;
use crate::profile::ProfileAge;
use crate::sync_version::NewsSyncVersion;
use crate::text::text;
use crate::EnumParsingError;

verus! {

/// Like or match state between a report's creator and its target.
#[derive(Debug, Clone, Copy, Default, PartialEq, Eq, Structural)]
pub enum ReportChatInfoInteractionState {
    /// No like and no match between the accounts.
    #[default]
    NoInteraction,
    CreatorLiked,
    TargetLiked,
    Match,
}

/// Chat related info of a report.
#[derive(Debug, Clone, Copy, Default, PartialEq, Eq, Structural)]
pub struct ReportChatInfo {
    pub state: ReportChatInfoInteractionState,
    pub creator_blocked_target: bool,
    pub target_blocked_creator: bool,
    pub creator_sent_messages_count: i64,
    pub target_sent_messages_count: i64,
}

/// Which reports of an account a report iterator goes through.
#[derive(Debug, Clone, Copy, PartialEq, Eq, Structural)]
pub enum ReportIteratorMode {
    Received,
    Sent,
}

/// Profile age and name of a report's creator or target.
#[derive(Debug, Clone)]
pub struct ReportAccountInfo {
    pub age: ProfileAge,
    pub name: Option<NonEmptyString>,
}

/// Count of unread news.
#[derive(Debug, Clone, Copy, Default, PartialEq, Eq, Structural)]
pub struct UnreadNewsCount {
    pub c: i64,
}

impl UnreadNewsCount {
    pub fn new(count: i64) -> (r: Self)
        ensures
            r.c == count,
    {
        Self { c: count }
    }

    pub fn as_ref(&self) -> (r: &i64)
        ensures
            *r == self.c,
    {
        &self.c
    }
}

/// Unread news count with the news sync version.
#[derive(Debug, Clone, Copy, Default, PartialEq, Eq, Structural)]
pub struct UnreadNewsCountResult {
    pub v: NewsSyncVersion,
    pub c: UnreadNewsCount,
    pub h: bool,
}

/// Version of a news translation.
#[derive(Debug, Clone, Copy, Default, PartialEq, Eq, Structural)]
pub struct NewsTranslationVersion {
    pub version: i64,
}

/// New title and body of a news translation.
#[derive(Debug, Clone)]
pub struct UpdateNewsTranslation {
    pub title: String,
    pub body: String,
    pub current_version: NewsTranslationVersion,
}

/// Result of updating a news translation.
#[derive(Debug, Clone, Copy, Default, PartialEq, Eq, Structural)]
pub struct UpdateNewsTranslationResult {
    pub error_already_changed: bool,
}

impl UpdateNewsTranslationResult {
    pub fn success() -> (r: Self)
        ensures
            !r.error_already_changed,
    {
        Self { error_already_changed: false }
    }

    pub fn error_already_changed() -> (r: Self)
        ensures
            r.error_already_changed,
    {
        Self { error_already_changed: true }
    }
}

/// Account verification method.
#[derive(Debug, Clone, Copy, PartialEq, Eq, Structural)]
pub enum VerificationMethod {
    Debug,
    Eudi,
}

impl VerificationMethod {
    /// Number of the method: Debug 0, Eudi 1.
    pub fn try_from_i16(v: i16) -> (r: Result<Self, EnumParsingError>)
        ensures
            v == 0 ==> r == Ok::<Self, EnumParsingError>(Self::Debug),
            v == 1 ==> r == Ok::<Self, EnumParsingError>(Self::Eudi),
            (v != 0 && v != 1) ==> r == Err::<Self, EnumParsingError>(EnumParsingError::ParsingError(v as i64)),
    {
        if v == 0 {
            Ok(Self::Debug)
        } else if v == 1 {
            Ok(Self::Eudi)
        } else {
            Err(EnumParsingError::ParsingError(v as i64))
        }
    }
}

/// Age verification method.
#[derive(Debug, Clone, Copy, PartialEq, Eq, Structural)]
pub enum AgeVerificationMethod {
    Debug,
    Eudi,
}

impl AgeVerificationMethod {
    /// Number of the method: Debug 0, Eudi 1.
    pub fn try_from_i16(v: i16) -> (r: Result<Self, EnumParsingError>)
        ensures
            v == 0 ==> r == Ok::<Self, EnumParsingError>(Self::Debug),
            v == 1 ==> r == Ok::<Self, EnumParsingError>(Self::Eudi),
            (v != 0 && v != 1) ==> r == Err::<Self, EnumParsingError>(EnumParsingError::ParsingError(v as i64)),
    {
        if v == 0 {
            Ok(Self::Debug)
        } else if v == 1 {
            Ok(Self::Eudi)
        } else {
            Err(EnumParsingError::ParsingError(v as i64))
        }
    }
}

/// Mask of the defined account verification error flags: from
/// VERIFICATION_METHOD_NOT_CONFIGURED 0x1 to SECURITY_CONTENT_MISMATCH
/// 0x800.
pub const ACCOUNT_VERIFICATION_ERROR_FLAGS_ALL: i16 = 0xfff;

/// Account verification error flags as a number; only defined flags are
/// set.
#[derive(Debug, Clone, Copy, Default, PartialEq, Eq, Structural)]
pub struct AccountVerificationErrorFlagsValue {
    pub v: i16,
}

impl AccountVerificationErrorFlagsValue {
    /// The flags `v`, or an error when an unknown flag is set.
    pub fn try_from_i16(v: i16) -> (r: Result<Self, String>)
        ensures
            match r {
                Ok(x) => x.v == v && v & !ACCOUNT_VERIFICATION_ERROR_FLAGS_ALL == 0,
                Err(e) => v & !ACCOUNT_VERIFICATION_ERROR_FLAGS_ALL != 0 && e@ == "Unknown bitflag"@,
            },
    {
        match deserialize_account_verification_error_flags_i16(v) {
            Ok(v) => Ok(Self { v }),
            Err(e) => Err(e),
        }
    }

    pub fn as_ref(&self) -> (r: &i16)
        ensures
            *r == self.v,
    {
        &self.v
    }
}

/// Account verification error flags read from client data: unknown flags
/// are refused.
pub fn deserialize_account_verification_error_flags_i16(v: i16) -> (r: Result<i16, String>)
    ensures
        match r {
            Ok(x) => x == v && v & !ACCOUNT_VERIFICATION_ERROR_FLAGS_ALL == 0,
            Err(e) => v & !ACCOUNT_VERIFICATION_ERROR_FLAGS_ALL != 0 && e@ == "Unknown bitflag"@,
        },
{
    if v & !ACCOUNT_VERIFICATION_ERROR_FLAGS_ALL != 0 {
        Err(text("Unknown bitflag"))
    } else {
        Ok(v)
    }
}

/// What an account verification checks.
#[derive(Debug, Clone, Copy, Default, PartialEq, Eq, Structural)]
pub struct AccountVerificationScope {
    pub security_content: bool,
    pub profile_age_range: bool,
    pub profile_name: bool,
}

/// A queued account verification request.
#[derive(Debug, Clone)]
pub struct AccountVerificationQueueItem {
    pub verification_method: VerificationMethod,
    pub verification_data: String,
    pub verification_scope: AccountVerificationScope,
}

/// Admin edit of the security content verification.
#[derive(Debug, Clone, Copy, PartialEq, Eq, Structural)]
pub struct EditVerificationSecurityContent {
    pub security_content: ContentId,
    pub verified_value: Option<bool>,
}

/// Admin edit of the profile age range verification.
#[derive(Debug, Clone, Copy, PartialEq, Eq, Structural)]
pub struct EditVerificationProfileAgeRange {
    pub current_profile_age: ProfileAge,
    pub verified_value: Option<bool>,
}

/// Admin edit of the profile name verification.
#[derive(Debug, Clone)]
pub struct EditVerificationProfileName {
    pub current_profile_name: Option<NonEmptyString>,
    pub verified_value: Option<bool>,
}

/// Admin edits of verification values.
#[derive(Debug, Clone)]
pub struct EditVerificationValues {
    pub security_content: Option<EditVerificationSecurityContent>,
    pub profile_age_range: Option<EditVerificationProfileAgeRange>,
    pub profile_name: Option<EditVerificationProfileName>,
}

/// Versions of the server software.
#[derive(Debug, Clone)]
pub struct CurrentVersions {
    pub versions: String,
}

/// ID of a statistics save time.
#[derive(Debug, Clone, Copy, Default, PartialEq, Eq, Structural)]
pub struct StatisticsSaveTimeId {
    pub id: i64,
}

impl StatisticsSaveTimeId {
    pub fn as_ref(&self) -> (r: &i64)
        ensures
            *r == self.id,
    {
        &self.id
    }
}

/// ID of a save time.
#[derive(Debug, Clone, Copy, Default, PartialEq, Eq, Structural)]
pub struct SaveTimeId {
    pub id: i64,
}

impl SaveTimeId {
    pub fn new(id: i64) -> (r: Self)
        ensures
            r.id == id,
    {
        Self { id }
    }

    pub fn as_i64(&self) -> (r: &i64)
        ensures
            *r == self.id,
    {
        &self.id
    }
}

/// A report row with its details.
#[derive(Debug, Clone, Copy)]
pub struct ReportInternal {
    pub info: ReportDetailedInfoInternal,
    pub id: ReportIdDb,
    pub creator_db_id: AccountIdDb,
    pub target_db_id: AccountIdDb,
}

impl ReportInternal {
    /// Processing state of the report: waiting.
    pub fn state(&self) -> (r: ReportProcessingState)
        ensures
            r == ReportProcessingState::Waiting,
    {
        ReportProcessingState::Waiting
    }
}

/// Details of a report as stored in the database.
#[derive(Debug, Clone, Copy)]
pub struct ReportDetailedInfoInternal {
    pub creator: AccountId,
    pub target: AccountId,
    pub processing_state: ReportProcessingState,
    pub report_type: ReportTypeInternal,
    pub creation_time: UnixTime,
}

/// Details of a report in the API.
#[derive(Debug, Clone, Copy)]
pub struct ReportDetailedInfo {
    pub id: ReportId,
    pub creator: AccountId,
    pub target: AccountId,
    pub processing_state: ReportProcessingState,
    pub report_type: ReportType,
}

/// Content of a report.
#[derive(Debug, Clone)]
pub struct ReportContent {
    pub profile_name: Option<NonEmptyString>,
    pub profile_text: Option<String>,
    pub profile_content: Option<ContentId>,
    pub chat_message: Option<ChatMessageReport>,
}

/// A report with its content and the info of both accounts.
#[derive(Debug, Clone)]
pub struct ReportDetailed {
    pub info: ReportDetailedInfo,
    pub content: ReportContent,
    pub creator_info: ReportAccountInfo,
    pub target_info: ReportAccountInfo,
    pub chat_info: Option<ReportChatInfo>,
}

/// A report with its row ID.
#[derive(Debug, Clone)]
pub struct ReportDetailedWithId {
    pub id: ReportIdDb,
    pub report: ReportDetailed,
}

/// List of reports.
#[derive(Debug, Clone)]
pub struct GetReportList {
    pub values: Vec<ReportDetailed>,
}

/// A report for processing.
#[derive(Debug, Clone)]
pub struct ProcessReport {
    pub creator: AccountId,
    pub target: AccountId,
    pub report_type: ReportType,
    pub content: ReportContent,
}

/// Page request of the report iterator.
#[derive(Debug, Clone, Copy)]
pub struct ReportIteratorQuery {
    pub start_position: UnixTime,
    pub page: i64,
    pub aid: AccountId,
    pub mode: ReportIteratorMode,
}

/// Page request of the report iterator with both account IDs.
#[derive(Debug, Clone, Copy)]
pub struct ReportIteratorQueryInternal {
    pub start_position: UnixTime,
    pub page: i64,
    pub aid: AccountIdInternal,
    pub mode: ReportIteratorMode,
}

/// Moderation request row ID.
#[derive(Debug, Clone, Copy, PartialEq, Eq, Structural)]
pub struct ModerationRequestIdDb(pub i64);

/// Moderation request ID.
#[derive(Debug, Clone, Copy, PartialEq, Eq, Structural)]
pub struct ModerationRequestId {
    pub request_row_id: ModerationRequestIdDb,
}

/// A moderation request with its moderator.
#[derive(Debug, Clone, Copy, PartialEq, Eq, Structural)]
pub struct ModerationId {
    pub request_id: ModerationRequestId,
    /// Moderator AccountId
    pub account_id: AccountIdInternal,
}

/// Moderator's decision on a moderation request.
#[derive(Debug, Clone, Copy, PartialEq, Eq, Structural)]
pub struct HandleModerationRequest {
    pub accept: bool,
}

/// Moderation queues.
#[derive(Debug, Clone, Copy, PartialEq, Eq, Structural)]
pub enum ModerationQueueType {
    MediaModeration,
    InitialMediaModeration,
}

/// Moderation queue parameter.
#[derive(Debug, Clone, Copy, PartialEq, Eq, Structural)]
pub struct ModerationQueueTypeParam {
    pub queue: ModerationQueueType,
}

/// Profile name allowlist entry.
#[derive(Debug, Clone, Copy, PartialEq, Eq, Structural)]
pub struct ProfileNameAllowlist {
    pub name_moderator_account_id: Option<AccountIdDb>,
}

} // verus!
