//! Account identifiers, login tokens and the internal server events.
use vstd::prelude::*;

use crate::admin_notification::AdminBotNotificationTypes;
use crate::backend::{is_uuid_v4, ScheduledMaintenanceStatus, UuidBase64Url};
use crate::outside::{base64_url_safe_no_pad_decode, base64_url_safe_no_pad_encode};
use crate::media::ContentProcessingStateInternal;
use crate::profile::{OnlineStatusUpdate, ProfileLink};
use crate::account::{AccountStateContainer, ProfileVisibility};
use crate::sync_version::AccountSyncVersion;
use crate::time::InitialSetupCompletedTime;
use crate::EnumParsingError;

verus! {

/// Public account ID. It is never reused for another account.
#[derive(Debug, Clone, Copy, PartialEq, Eq, Structural)]
pub struct AccountId {
    pub aid: UuidBase64Url,
}

impl AccountId {
    pub fn new_base_64_url(account_id: UuidBase64Url) -> (r: Self)
        ensures
            r.aid == account_id,
    {
        Self { aid: account_id }
    }

    pub fn for_debugging_only_zero() -> (r: Self)
        ensures
            r.aid.bytes_view() == Seq::new(16, |i: int| 0u8),
    {
        Self { aid: UuidBase64Url::for_debugging_only_zero() }
    }

    pub fn as_ref(&self) -> (r: &UuidBase64Url)
        ensures
            *r == self.aid,
    {
        &self.aid
    }

    /// A new random account ID: a random version 4 UUID.
    pub fn new_random() -> (r: Self)
        ensures
            is_uuid_v4(r.aid.bytes_view()),
    {
        Self { aid: UuidBase64Url::new_random_id() }
    }

    /// The text of the account ID: its UUID as URL safe Base64 text
    /// without padding.
    pub fn to_string(&self) -> (r: String)
        ensures
            r@ == base64_url_safe_no_pad_encode(self.aid.bytes_view()),
    {
        self.aid.to_text()
    }

    /// The account ID whose UUID is written in `aid` as URL safe Base64
    /// text without padding.
    pub fn try_from_text(aid: String) -> (r: Result<Self, String>)
        ensures
            match r {
                Ok(a) => base64_url_safe_no_pad_decode(aid@) == Some(a.aid.bytes_view()),
                Err(_) => match base64_url_safe_no_pad_decode(aid@) {
                    Some(b) => b.len() != 16,
                    None => true,
                },
            },
            forall|u: UuidBase64Url| #[trigger] base64_url_safe_no_pad_encode(u.bytes_view()) == aid@
                ==> r == Ok::<Self, String>(Self { aid: u }),
    {
        match UuidBase64Url::from_text(aid.as_str()) {
            Ok(u) => Ok(Self { aid: u }),
            Err(e) => Err(e),
        }
    }
}

/// Account row ID in the database. It is never reused for another account.
#[derive(Debug, Clone, Copy, PartialEq, Eq, Structural)]
pub struct AccountIdDb(pub i64);

impl AccountIdDb {
    pub fn as_ref(&self) -> (r: &i64)
        ensures
            *r == self.0,
    {
        &self.0
    }
}

/// Both IDs of an account: the database row ID and the public ID.
#[derive(Debug, Clone, Copy, PartialEq, Eq, Structural)]
pub struct AccountIdInternal {
    pub id: AccountIdDb,
    pub uuid: AccountId,
}

impl AccountIdInternal {
    pub fn new(id: AccountIdDb, uuid: AccountId) -> (r: Self)
        ensures
            r.id == id,
            r.uuid == uuid,
    {
        Self { id, uuid }
    }

    pub fn as_db_id(&self) -> (r: &AccountIdDb)
        ensures
            *r == self.id,
    {
        &self.id
    }

    pub fn into_db_id(self) -> (r: AccountIdDb)
        ensures
            r == self.id,
    {
        self.id
    }

    pub fn row_id(&self) -> (r: i64)
        ensures
            r == self.id.0,
    {
        self.id.0
    }

    pub fn as_id(&self) -> (r: AccountId)
        ensures
            r == self.uuid,
    {
        self.uuid
    }
}

impl From<AccountIdInternal> for AccountIdDb {
    fn from(value: AccountIdInternal) -> (r: Self)
        ensures
            r == value.id,
    {
        *value.as_db_id()
    }
}

impl vstd::std_specs::convert::FromSpecImpl<AccountIdInternal> for AccountIdDb {
    open spec fn obeys_from_spec() -> bool {
        true
    }

    open spec fn from_spec(v: AccountIdInternal) -> Self {
        v.id
    }
}

impl From<AccountIdInternal> for AccountId {
    fn from(value: AccountIdInternal) -> (r: Self)
        ensures
            r == value.uuid,
    {
        value.as_id()
    }
}

impl vstd::std_specs::convert::FromSpecImpl<AccountIdInternal> for AccountId {
    open spec fn obeys_from_spec() -> bool {
        true
    }

    open spec fn from_spec(v: AccountIdInternal) -> Self {
        v.uuid
    }
}

/// Kind of a bot account.
#[derive(Debug, Clone, Copy, PartialEq, Eq, Structural)]
pub enum BotAccountType {
    Admin,
    User,
}

impl BotAccountType {
    /// Number of the type in the database: Admin 0, User 1.
    pub open spec fn spec_to_i16(self) -> i16 {
        match self {
            Self::Admin => 0,
            Self::User => 1,
        }
    }

    /// Each variant has the number that the documentation gives it.
    pub proof fn lemma_documented_numbers(self)
        ensures
            self is Admin ==> self.spec_to_i16() == 0,
            self is User ==> self.spec_to_i16() == 1,
    {
    }

    pub fn to_i16(self) -> (r: i16)
        ensures
            r == self.spec_to_i16(),
    {
        match self {
            Self::Admin => 0,
            Self::User => 1,
        }
    }

    pub fn try_from_i16(v: i16) -> (r: Result<Self, EnumParsingError>)
        ensures
            v == 0 ==> r == Ok::<Self, EnumParsingError>(Self::Admin),
            v == 1 ==> r == Ok::<Self, EnumParsingError>(Self::User),
            (v != 0 && v != 1) ==> r == Err::<Self, EnumParsingError>(EnumParsingError::ParsingError(v as i64)),
    {
        if v == 0 {
            Ok(Self::Admin)
        } else if v == 1 {
            Ok(Self::User)
        } else {
            Err(EnumParsingError::ParsingError(v as i64))
        }
    }
}

/// All values of the shared state table row of an account.
#[derive(Debug, Clone, Copy, Default, PartialEq, Eq, Structural)]
pub struct SharedStateRaw {
    pub account_state_initial_setup_completed: bool,
    pub account_state_banned: bool,
    pub account_state_pending_deletion: bool,
    pub profile_visibility_state_number: ProfileVisibility,
    pub sync_version: AccountSyncVersion,
    pub unlimited_likes: bool,
    pub bot_account_type_number: Option<BotAccountType>,
    pub initial_setup_completed_unix_time: InitialSetupCompletedTime,
}

/// Shared state values that are not about the account state.
#[derive(Debug, Clone, Copy, Default, PartialEq, Eq, Structural)]
pub struct OtherSharedState {
    pub unlimited_likes: bool,
    bot_account_type_number: Option<BotAccountType>,
    pub initial_setup_completed_unix_time: InitialSetupCompletedTime,
}

impl OtherSharedState {
    pub closed spec fn spec_bot_account_type(self) -> Option<BotAccountType> {
        self.bot_account_type_number
    }

    /// The value with the bot account type replaced by `bot_type`.
    pub closed spec fn spec_with_bot_account_type(self, bot_type: Option<BotAccountType>) -> Self {
        Self { bot_account_type_number: bot_type, ..self }
    }

    pub fn set_bot_account_type_number(&mut self, bot_type: BotAccountType)
        ensures
            *final(self) == old(self).spec_with_bot_account_type(Some(bot_type)),
            final(self).spec_bot_account_type() == Some(bot_type),
    {
        self.bot_account_type_number = Some(bot_type);
    }

    pub fn bot_account_type_number(&self) -> (r: Option<BotAccountType>)
        ensures
            r == self.spec_bot_account_type(),
    {
        self.bot_account_type_number
    }

    pub fn is_bot(&self) -> (r: bool)
        ensures
            r == self.spec_bot_account_type() is Some,
    {
        self.bot_account_type_number.is_some()
    }
}

/// Server code version and the server's semver version.
#[derive(Debug, Clone)]
pub struct ServerVersion {
    /// Server code version.
    pub server_code_version: String,
    /// Semver version of the server.
    pub server_version: String,
}

/// Maintenance info that another server shows.
#[derive(Debug, Clone)]
pub struct ManualServerMaintenanceInfoForAnotherServer {
    pub text: Option<crate::client_features::StringResource>,
}

/// Events that may cause a push notification.
#[derive(Debug, Clone, Copy, PartialEq, Eq, Structural)]
pub enum NotificationEvent {
    NewMessageReceived,
    ReceivedLikesChanged,
    MediaContentModerationCompleted,
    NewsChanged,
    ProfileStringModerationCompleted,
    AutomaticProfileSearchCompleted,
    AdminNotification,
}

/// Account state related values stored in the shared state table.
#[derive(Debug, Clone, Copy, PartialEq, Eq, Structural)]
pub struct AccountStateRelatedSharedState {
    pub profile_visibility_state_number: ProfileVisibility,
    pub account_state_initial_setup_completed: bool,
    pub account_state_banned: bool,
    pub account_state_pending_deletion: bool,
    pub sync_version: AccountSyncVersion,
    pub email_verified: bool,
    pub age_verified: bool,
}

impl AccountStateRelatedSharedState {
    pub fn profile_visibility(&self) -> (r: ProfileVisibility)
        ensures
            r == self.profile_visibility_state_number,
    {
        self.profile_visibility_state_number
    }

    pub fn state_container(&self) -> (r: AccountStateContainer)
        ensures
            r == (AccountStateContainer {
                initial_setup_completed: self.account_state_initial_setup_completed,
                banned: self.account_state_banned,
                pending_deletion: self.account_state_pending_deletion,
            }),
    {
        AccountStateContainer {
            initial_setup_completed: self.account_state_initial_setup_completed,
            banned: self.account_state_banned,
            pending_deletion: self.account_state_pending_deletion,
        }
    }
}

/// Content processing state change of one content processing slot.
#[derive(Debug, Clone, Copy, PartialEq, Eq, Structural)]
pub struct ContentProcessingStateChanged {
    /// Server process specific content processing ID.
    pub id: i64,
    pub new_state: ContentProcessingStateInternal,
}

/// Status of a reset profile paging response.
#[derive(Debug, Clone, Copy, PartialEq, Eq, Structural)]
pub enum ResponseResetProfilePagingStatus {
    Success,
    RateLimited,
    InternalServerError,
}

impl ResponseResetProfilePagingStatus {
    /// Number of the status: Success 0, RateLimited 1, InternalServerError 2.
    pub open spec fn spec_to_u8(self) -> u8 {
        match self {
            Self::Success => 0,
            Self::RateLimited => 1,
            Self::InternalServerError => 2,
        }
    }

    /// Each variant has the number that the documentation gives it, and each such
    /// number is read back as its variant.
    pub proof fn lemma_documented_numbers(self)
        ensures
            self is Success ==> self.spec_to_u8() == 0,
            self is RateLimited ==> self.spec_to_u8() == 1,
            self is InternalServerError ==> self.spec_to_u8() == 2,
            Self::spec_from_u8(0) == Some(Self::Success),
            Self::spec_from_u8(1) == Some(Self::RateLimited),
            Self::spec_from_u8(2) == Some(Self::InternalServerError),
    {
    }

    pub open spec fn spec_from_u8(v: u8) -> Option<Self> {
        if v == 0 {
            Some(Self::Success)
        } else if v == 1 {
            Some(Self::RateLimited)
        } else if v == 2 {
            Some(Self::InternalServerError)
        } else {
            None
        }
    }

    pub fn to_u8(self) -> (r: u8)
        ensures
            r == self.spec_to_u8(),
    {
        match self {
            Self::Success => 0,
            Self::RateLimited => 1,
            Self::InternalServerError => 2,
        }
    }

    pub fn try_from_u8(v: u8) -> (r: Result<Self, EnumParsingError>)
        ensures
            match Self::spec_from_u8(v) {
                Some(t) => r == Ok::<Self, EnumParsingError>(t),
                None => r == Err::<Self, EnumParsingError>(EnumParsingError::ParsingError(v as i64)),
            },
    {
        if v == 0 {
            Ok(Self::Success)
        } else if v == 1 {
            Ok(Self::RateLimited)
        } else if v == 2 {
            Ok(Self::InternalServerError)
        } else {
            Err(EnumParsingError::ParsingError(v as i64))
        }
    }
}

/// Status of a next profile page response.
#[derive(Debug, Clone, Copy, PartialEq, Eq, Structural)]
pub enum ResponseNextProfilePageStatus {
    Success,
    InvalidIteratorSessionId,
    RateLimited,
    InternalServerError,
}

impl ResponseNextProfilePageStatus {
    /// Number of the status: Success 0, InvalidIteratorSessionId 1,
    /// RateLimited 2, InternalServerError 3.
    pub open spec fn spec_to_u8(self) -> u8 {
        match self {
            Self::Success => 0,
            Self::InvalidIteratorSessionId => 1,
            Self::RateLimited => 2,
            Self::InternalServerError => 3,
        }
    }

    /// Each variant has the number that the documentation gives it, and each such
    /// number is read back as its variant.
    pub proof fn lemma_documented_numbers(self)
        ensures
            self is Success ==> self.spec_to_u8() == 0,
            self is InvalidIteratorSessionId ==> self.spec_to_u8() == 1,
            self is RateLimited ==> self.spec_to_u8() == 2,
            self is InternalServerError ==> self.spec_to_u8() == 3,
            Self::spec_from_u8(0) == Some(Self::Success),
            Self::spec_from_u8(1) == Some(Self::InvalidIteratorSessionId),
            Self::spec_from_u8(2) == Some(Self::RateLimited),
            Self::spec_from_u8(3) == Some(Self::InternalServerError),
    {
    }

    pub open spec fn spec_from_u8(v: u8) -> Option<Self> {
        if v == 0 {
            Some(Self::Success)
        } else if v == 1 {
            Some(Self::InvalidIteratorSessionId)
        } else if v == 2 {
            Some(Self::RateLimited)
        } else if v == 3 {
            Some(Self::InternalServerError)
        } else {
            None
        }
    }

    pub fn to_u8(self) -> (r: u8)
        ensures
            r == self.spec_to_u8(),
    {
        match self {
            Self::Success => 0,
            Self::InvalidIteratorSessionId => 1,
            Self::RateLimited => 2,
            Self::InternalServerError => 3,
        }
    }

    pub fn try_from_u8(v: u8) -> (r: Result<Self, EnumParsingError>)
        ensures
            match Self::spec_from_u8(v) {
                Some(t) => r == Ok::<Self, EnumParsingError>(t),
                None => r == Err::<Self, EnumParsingError>(EnumParsingError::ParsingError(v as i64)),
            },
    {
        if v == 0 {
            Ok(Self::Success)
        } else if v == 1 {
            Ok(Self::InvalidIteratorSessionId)
        } else if v == 2 {
            Ok(Self::RateLimited)
        } else if v == 3 {
            Ok(Self::InternalServerError)
        } else {
            Err(EnumParsingError::ParsingError(v as i64))
        }
    }
}

/// Internal data type for events.
///
/// If data is not included in the event it might be too large to send
/// over WebSocket as it might block more important events for some time
/// depending on network connection speed.
#[derive(Debug, Clone)]
#[allow(inconsistent_fields)]
pub enum EventToClientInternal {
    /// Account state, profile visibility or permissions changed.
    AccountStateChanged,
    ContentProcessingStateChanged(ContentProcessingStateChanged),
    NewMessageReceived,
    PendingChatNotificationsChanged,
    PendingAppNotificationsChanged,
    WebSocketConnectionAttemptsRemaining { remaining: u8 },
    AppUpdateAvailable,
    ReceivedLikesChanged,
    ClientConfigChanged,
    ProfileChanged,
    ResponseResetProfilePaging {
        request_id: u8,
        status: ResponseResetProfilePagingStatus,
        iterator_session_id: Option<i64>,
    },
    ResponseNextProfilePage {
        request_id: u8,
        status: ResponseNextProfilePageStatus,
        profiles: Vec<ProfileLink>,
    },
    ResponseAutomaticProfileSearchResetProfilePaging {
        request_id: u8,
        status: ResponseResetProfilePagingStatus,
        iterator_session_id: Option<i64>,
    },
    ResponseAutomaticProfileSearchNextProfilePage {
        request_id: u8,
        status: ResponseNextProfilePageStatus,
        profiles: Vec<ProfileLink>,
    },
    NewsChanged,
    MediaContentChanged,
    AccountVerificationQueuePositionChanged { queue_position: Option<u8> },
    DailyLikesLeftChanged,
    ScheduledMaintenanceStatus(ScheduledMaintenanceStatus),
    AdminBotNotification(AdminBotNotificationTypes),
    RequestAdminBotConfigWarnings { request_id: u8 },
    PushNotificationInfoChanged,
    TypingStart(AccountId),
    TypingStop(AccountId),
    OnlineStatusUpdated(OnlineStatusUpdate),
    MessageDeliveryInfoChanged,
    LatestSeenMessageChanged,
}

/// Mathematical form of [EventToClientInternal]: profile lists are sequences.
#[allow(inconsistent_fields)]
pub ghost enum EventToClientView {
    AccountStateChanged,
    ContentProcessingStateChanged(ContentProcessingStateChanged),
    NewMessageReceived,
    PendingChatNotificationsChanged,
    PendingAppNotificationsChanged,
    WebSocketConnectionAttemptsRemaining { remaining: u8 },
    AppUpdateAvailable,
    ReceivedLikesChanged,
    ClientConfigChanged,
    ProfileChanged,
    ResponseResetProfilePaging {
        request_id: u8,
        status: ResponseResetProfilePagingStatus,
        iterator_session_id: Option<i64>,
    },
    ResponseNextProfilePage {
        request_id: u8,
        status: ResponseNextProfilePageStatus,
        profiles: Seq<ProfileLink>,
    },
    ResponseAutomaticProfileSearchResetProfilePaging {
        request_id: u8,
        status: ResponseResetProfilePagingStatus,
        iterator_session_id: Option<i64>,
    },
    ResponseAutomaticProfileSearchNextProfilePage {
        request_id: u8,
        status: ResponseNextProfilePageStatus,
        profiles: Seq<ProfileLink>,
    },
    NewsChanged,
    MediaContentChanged,
    AccountVerificationQueuePositionChanged { queue_position: Option<u8> },
    DailyLikesLeftChanged,
    ScheduledMaintenanceStatus(ScheduledMaintenanceStatus),
    AdminBotNotification(AdminBotNotificationTypes),
    RequestAdminBotConfigWarnings { request_id: u8 },
    PushNotificationInfoChanged,
    TypingStart(AccountId),
    TypingStop(AccountId),
    OnlineStatusUpdated(OnlineStatusUpdate),
    MessageDeliveryInfoChanged,
    LatestSeenMessageChanged,
}

impl View for EventToClientInternal {
    type V = EventToClientView;

    open spec fn view(&self) -> EventToClientView {
        match self {
            Self::AccountStateChanged => EventToClientView::AccountStateChanged,
            Self::ContentProcessingStateChanged(v) => EventToClientView::ContentProcessingStateChanged(*v),
            Self::NewMessageReceived => EventToClientView::NewMessageReceived,
            Self::PendingChatNotificationsChanged => EventToClientView::PendingChatNotificationsChanged,
            Self::PendingAppNotificationsChanged => EventToClientView::PendingAppNotificationsChanged,
            Self::WebSocketConnectionAttemptsRemaining { remaining } =>
                EventToClientView::WebSocketConnectionAttemptsRemaining { remaining: *remaining },
            Self::AppUpdateAvailable => EventToClientView::AppUpdateAvailable,
            Self::ReceivedLikesChanged => EventToClientView::ReceivedLikesChanged,
            Self::ClientConfigChanged => EventToClientView::ClientConfigChanged,
            Self::ProfileChanged => EventToClientView::ProfileChanged,
            Self::ResponseResetProfilePaging { request_id, status, iterator_session_id } =>
                EventToClientView::ResponseResetProfilePaging {
                    request_id: *request_id,
                    status: *status,
                    iterator_session_id: *iterator_session_id,
                },
            Self::ResponseNextProfilePage { request_id, status, profiles } =>
                EventToClientView::ResponseNextProfilePage {
                    request_id: *request_id,
                    status: *status,
                    profiles: profiles@,
                },
            Self::ResponseAutomaticProfileSearchResetProfilePaging { request_id, status, iterator_session_id } =>
                EventToClientView::ResponseAutomaticProfileSearchResetProfilePaging {
                    request_id: *request_id,
                    status: *status,
                    iterator_session_id: *iterator_session_id,
                },
            Self::ResponseAutomaticProfileSearchNextProfilePage { request_id, status, profiles } =>
                EventToClientView::ResponseAutomaticProfileSearchNextProfilePage {
                    request_id: *request_id,
                    status: *status,
                    profiles: profiles@,
                },
            Self::NewsChanged => EventToClientView::NewsChanged,
            Self::MediaContentChanged => EventToClientView::MediaContentChanged,
            Self::AccountVerificationQueuePositionChanged { queue_position } =>
                EventToClientView::AccountVerificationQueuePositionChanged { queue_position: *queue_position },
            Self::DailyLikesLeftChanged => EventToClientView::DailyLikesLeftChanged,
            Self::ScheduledMaintenanceStatus(v) => EventToClientView::ScheduledMaintenanceStatus(*v),
            Self::AdminBotNotification(v) => EventToClientView::AdminBotNotification(*v),
            Self::RequestAdminBotConfigWarnings { request_id } =>
                EventToClientView::RequestAdminBotConfigWarnings { request_id: *request_id },
            Self::PushNotificationInfoChanged => EventToClientView::PushNotificationInfoChanged,
            Self::TypingStart(v) => EventToClientView::TypingStart(*v),
            Self::TypingStop(v) => EventToClientView::TypingStop(*v),
            Self::OnlineStatusUpdated(v) => EventToClientView::OnlineStatusUpdated(*v),
            Self::MessageDeliveryInfoChanged => EventToClientView::MessageDeliveryInfoChanged,
            Self::LatestSeenMessageChanged => EventToClientView::LatestSeenMessageChanged,
        }
    }
}

impl BotAccountType {
    /// Different values have different numbers, so reading a value's
    /// number back gives the value.
    pub proof fn lemma_number_injective(a: Self, b: Self)
        ensures
            a.spec_to_i16() == b.spec_to_i16() <==> a == b,
    {
    }
}

impl ResponseResetProfilePagingStatus {
    /// Different values have different numbers, so reading a value's
    /// number back gives the value.
    pub proof fn lemma_number_injective(a: Self, b: Self)
        ensures
            a.spec_to_u8() == b.spec_to_u8() <==> a == b,
    {
    }
}

impl ResponseNextProfilePageStatus {
    /// Different values have different numbers, so reading a value's
    /// number back gives the value.
    pub proof fn lemma_number_injective(a: Self, b: Self)
        ensures
            a.spec_to_u8() == b.spec_to_u8() <==> a == b,
    {
    }
}

} // verus!
