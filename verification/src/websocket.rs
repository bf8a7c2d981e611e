//! Binary WebSocket messages that the server sends to clients.
//!
//! A message is one message type byte followed by the payload of that
//! message type:
//!
//! - `PendingAppNotificationsChanged` (0): payload is empty.
//! - `ClientConfigChanged` (1): payload is empty.
//! - `NewsCountChanged` (2): payload is empty.
//! - `ScheduledMaintenanceStatus` (3): admin bot offline (u8, 0 or 1),
//!   maintenance start as optional minimal i64 and, if the start exists,
//!   maintenance end as optional minimal i64.
//! - `AdminBotNotification` (4): `AdminBotNotificationTypes` bitflags as u8.
//! - `PushNotificationInfoChanged` (5): payload is empty.
//! - `RequestAdminBotConfigWarnings` (6): request id byte.
//! - `WebSocketConnectionAttemptsRemaining` (7): remaining daily websocket
//!   connection attempts as u8.
//! - `AppUpdateAvailable` (8): payload is currently empty. Clients accept
//!   both empty and non-empty payloads.
//! - `AccountStateChanged` (30): payload is empty.
//! - `AccountVerificationQueuePositionChanged` (31): optional queue
//!   position as 1 byte (empty payload means `None`).
//! - `ProfileChanged` (60): payload is empty.
//! - `ResponseResetProfilePaging` (61) and
//!   `ResponseAutomaticProfileSearchResetProfilePaging` (63): request id
//!   byte, status byte and, if the status is 0 (success), the iterator
//!   session id as minimal i64.
//! - `ResponseNextProfilePage` (62) and
//!   `ResponseAutomaticProfileSearchNextProfilePage` (64): request id byte,
//!   status byte and, if the status is 0 (success), profile entries until
//!   the payload ends: account id, profile version and profile content
//!   version as 16-byte big-endian UUIDs, then a null last seen time
//!   (0 byte) or the last seen time as minimal i64.
//! - `ContentProcessingStateChanged` (90): content processing id as
//!   minimal i64, state byte (0 Empty, 1 InQueue, 2 Processing,
//!   3 Completed, 4 Failed, 5 NsfwDetected) and state specific data:
//!   InQueue has the queue number as minimal i64, Completed the content ID
//!   as 16-byte big-endian UUID and face detection as a byte (0 or 1).
//! - `MediaContentChanged` (91): payload is empty.
//! - `NewMessageReceived` (120), `PendingChatNotificationsChanged` (121),
//!   `ReceivedLikesChanged` (122), `DailyLikesLeftChanged` (123):
//!   payload is empty.
//! - `TypingStart` (124), `TypingStop` (125): exactly 16 bytes account
//!   UUID in big-endian byte order.
//! - `OnlineStatusUpdated` (126): 16 bytes account UUID, then a null last
//!   seen time (0 byte) or the last seen time as minimal i64.
//! - `MessageDeliveryInfoChanged` (127), `LatestSeenMessageChanged` (128):
//!   payload is empty.
use vstd::prelude::*;

use crate::backend::{ScheduledMaintenanceStatus, UuidBase64Url};
use crate::common::{
    AccountId, ContentProcessingStateChanged, EventToClientInternal, EventToClientView,
    ResponseNextProfilePageStatus, ResponseResetProfilePagingStatus,
};
use crate::media::ContentProcessingStateInternal;
use crate::minimal_i64::{add_minimal_i64, spec_encode};
use crate::profile::{OnlineStatusUpdate, ProfileLink};
use crate::EnumParsingError;

verus! {

/// First byte of websocket binary protocol messages sent from server to client.
///
/// Reserved message type ranges: common 0..=29, account 30..=59,
/// profile 60..=89, media 90..=119, chat 120..=149.
#[derive(Debug, Clone, Copy, PartialEq, Eq, Structural)]
pub enum ServerMessageType {
    PendingAppNotificationsChanged,
    ClientConfigChanged,
    NewsCountChanged,
    ScheduledMaintenanceStatus,
    AdminBotNotification,
    PushNotificationInfoChanged,
    RequestAdminBotConfigWarnings,
    WebSocketConnectionAttemptsRemaining,
    AppUpdateAvailable,
    AccountStateChanged,
    AccountVerificationQueuePositionChanged,
    ProfileChanged,
    ResponseResetProfilePaging,
    ResponseNextProfilePage,
    ResponseAutomaticProfileSearchResetProfilePaging,
    ResponseAutomaticProfileSearchNextProfilePage,
    ContentProcessingStateChanged,
    MediaContentChanged,
    NewMessageReceived,
    PendingChatNotificationsChanged,
    ReceivedLikesChanged,
    DailyLikesLeftChanged,
    TypingStart,
    TypingStop,
    OnlineStatusUpdated,
    MessageDeliveryInfoChanged,
    LatestSeenMessageChanged,
}

impl ServerMessageType {
    /// The variant's name, as its debug text writes it.
    pub open spec fn spec_variant_name(self) -> Seq<char> {
        match self {
            Self::PendingAppNotificationsChanged => "PendingAppNotificationsChanged"@,
            Self::ClientConfigChanged => "ClientConfigChanged"@,
            Self::NewsCountChanged => "NewsCountChanged"@,
            Self::ScheduledMaintenanceStatus => "ScheduledMaintenanceStatus"@,
            Self::AdminBotNotification => "AdminBotNotification"@,
            Self::PushNotificationInfoChanged => "PushNotificationInfoChanged"@,
            Self::RequestAdminBotConfigWarnings => "RequestAdminBotConfigWarnings"@,
            Self::WebSocketConnectionAttemptsRemaining => "WebSocketConnectionAttemptsRemaining"@,
            Self::AppUpdateAvailable => "AppUpdateAvailable"@,
            Self::AccountStateChanged => "AccountStateChanged"@,
            Self::AccountVerificationQueuePositionChanged => "AccountVerificationQueuePositionChanged"@,
            Self::ProfileChanged => "ProfileChanged"@,
            Self::ResponseResetProfilePaging => "ResponseResetProfilePaging"@,
            Self::ResponseNextProfilePage => "ResponseNextProfilePage"@,
            Self::ResponseAutomaticProfileSearchResetProfilePaging => "ResponseAutomaticProfileSearchResetProfilePaging"@,
            Self::ResponseAutomaticProfileSearchNextProfilePage => "ResponseAutomaticProfileSearchNextProfilePage"@,
            Self::ContentProcessingStateChanged => "ContentProcessingStateChanged"@,
            Self::MediaContentChanged => "MediaContentChanged"@,
            Self::NewMessageReceived => "NewMessageReceived"@,
            Self::PendingChatNotificationsChanged => "PendingChatNotificationsChanged"@,
            Self::ReceivedLikesChanged => "ReceivedLikesChanged"@,
            Self::DailyLikesLeftChanged => "DailyLikesLeftChanged"@,
            Self::TypingStart => "TypingStart"@,
            Self::TypingStop => "TypingStop"@,
            Self::OnlineStatusUpdated => "OnlineStatusUpdated"@,
            Self::MessageDeliveryInfoChanged => "MessageDeliveryInfoChanged"@,
            Self::LatestSeenMessageChanged => "LatestSeenMessageChanged"@,
        }
    }

    /// The variant's name, as its debug text writes it.
    pub fn variant_name(&self) -> (r: &'static str)
        ensures
            r@ == self.spec_variant_name(),
    {
        match self {
            Self::PendingAppNotificationsChanged => "PendingAppNotificationsChanged",
            Self::ClientConfigChanged => "ClientConfigChanged",
            Self::NewsCountChanged => "NewsCountChanged",
            Self::ScheduledMaintenanceStatus => "ScheduledMaintenanceStatus",
            Self::AdminBotNotification => "AdminBotNotification",
            Self::PushNotificationInfoChanged => "PushNotificationInfoChanged",
            Self::RequestAdminBotConfigWarnings => "RequestAdminBotConfigWarnings",
            Self::WebSocketConnectionAttemptsRemaining => "WebSocketConnectionAttemptsRemaining",
            Self::AppUpdateAvailable => "AppUpdateAvailable",
            Self::AccountStateChanged => "AccountStateChanged",
            Self::AccountVerificationQueuePositionChanged => "AccountVerificationQueuePositionChanged",
            Self::ProfileChanged => "ProfileChanged",
            Self::ResponseResetProfilePaging => "ResponseResetProfilePaging",
            Self::ResponseNextProfilePage => "ResponseNextProfilePage",
            Self::ResponseAutomaticProfileSearchResetProfilePaging => "ResponseAutomaticProfileSearchResetProfilePaging",
            Self::ResponseAutomaticProfileSearchNextProfilePage => "ResponseAutomaticProfileSearchNextProfilePage",
            Self::ContentProcessingStateChanged => "ContentProcessingStateChanged",
            Self::MediaContentChanged => "MediaContentChanged",
            Self::NewMessageReceived => "NewMessageReceived",
            Self::PendingChatNotificationsChanged => "PendingChatNotificationsChanged",
            Self::ReceivedLikesChanged => "ReceivedLikesChanged",
            Self::DailyLikesLeftChanged => "DailyLikesLeftChanged",
            Self::TypingStart => "TypingStart",
            Self::TypingStop => "TypingStop",
            Self::OnlineStatusUpdated => "OnlineStatusUpdated",
            Self::MessageDeliveryInfoChanged => "MessageDeliveryInfoChanged",
            Self::LatestSeenMessageChanged => "LatestSeenMessageChanged",
        }
    }

    /// The message type byte.
    pub open spec fn spec_to_u8(self) -> u8 {
        match self {
            Self::PendingAppNotificationsChanged => 0,
            Self::ClientConfigChanged => 1,
            Self::NewsCountChanged => 2,
            Self::ScheduledMaintenanceStatus => 3,
            Self::AdminBotNotification => 4,
            Self::PushNotificationInfoChanged => 5,
            Self::RequestAdminBotConfigWarnings => 6,
            Self::WebSocketConnectionAttemptsRemaining => 7,
            Self::AppUpdateAvailable => 8,
            Self::AccountStateChanged => 30,
            Self::AccountVerificationQueuePositionChanged => 31,
            Self::ProfileChanged => 60,
            Self::ResponseResetProfilePaging => 61,
            Self::ResponseNextProfilePage => 62,
            Self::ResponseAutomaticProfileSearchResetProfilePaging => 63,
            Self::ResponseAutomaticProfileSearchNextProfilePage => 64,
            Self::ContentProcessingStateChanged => 90,
            Self::MediaContentChanged => 91,
            Self::NewMessageReceived => 120,
            Self::PendingChatNotificationsChanged => 121,
            Self::ReceivedLikesChanged => 122,
            Self::DailyLikesLeftChanged => 123,
            Self::TypingStart => 124,
            Self::TypingStop => 125,
            Self::OnlineStatusUpdated => 126,
            Self::MessageDeliveryInfoChanged => 127,
            Self::LatestSeenMessageChanged => 128,
        }
    }

    pub open spec fn spec_from_u8(v: u8) -> Option<Self> {
        if v == 0 {
            Some(Self::PendingAppNotificationsChanged)
        } else if v == 1 {
            Some(Self::ClientConfigChanged)
        } else if v == 2 {
            Some(Self::NewsCountChanged)
        } else if v == 3 {
            Some(Self::ScheduledMaintenanceStatus)
        } else if v == 4 {
            Some(Self::AdminBotNotification)
        } else if v == 5 {
            Some(Self::PushNotificationInfoChanged)
        } else if v == 6 {
            Some(Self::RequestAdminBotConfigWarnings)
        } else if v == 7 {
            Some(Self::WebSocketConnectionAttemptsRemaining)
        } else if v == 8 {
            Some(Self::AppUpdateAvailable)
        } else if v == 30 {
            Some(Self::AccountStateChanged)
        } else if v == 31 {
            Some(Self::AccountVerificationQueuePositionChanged)
        } else if v == 60 {
            Some(Self::ProfileChanged)
        } else if v == 61 {
            Some(Self::ResponseResetProfilePaging)
        } else if v == 62 {
            Some(Self::ResponseNextProfilePage)
        } else if v == 63 {
            Some(Self::ResponseAutomaticProfileSearchResetProfilePaging)
        } else if v == 64 {
            Some(Self::ResponseAutomaticProfileSearchNextProfilePage)
        } else if v == 90 {
            Some(Self::ContentProcessingStateChanged)
        } else if v == 91 {
            Some(Self::MediaContentChanged)
        } else if v == 120 {
            Some(Self::NewMessageReceived)
        } else if v == 121 {
            Some(Self::PendingChatNotificationsChanged)
        } else if v == 122 {
            Some(Self::ReceivedLikesChanged)
        } else if v == 123 {
            Some(Self::DailyLikesLeftChanged)
        } else if v == 124 {
            Some(Self::TypingStart)
        } else if v == 125 {
            Some(Self::TypingStop)
        } else if v == 126 {
            Some(Self::OnlineStatusUpdated)
        } else if v == 127 {
            Some(Self::MessageDeliveryInfoChanged)
        } else if v == 128 {
            Some(Self::LatestSeenMessageChanged)
        } else {
            None
        }
    }

    pub fn to_u8(self) -> (r: u8)
        ensures
            r == self.spec_to_u8(),
    {
        match self {
            Self::PendingAppNotificationsChanged => 0,
            Self::ClientConfigChanged => 1,
            Self::NewsCountChanged => 2,
            Self::ScheduledMaintenanceStatus => 3,
            Self::AdminBotNotification => 4,
            Self::PushNotificationInfoChanged => 5,
            Self::RequestAdminBotConfigWarnings => 6,
            Self::WebSocketConnectionAttemptsRemaining => 7,
            Self::AppUpdateAvailable => 8,
            Self::AccountStateChanged => 30,
            Self::AccountVerificationQueuePositionChanged => 31,
            Self::ProfileChanged => 60,
            Self::ResponseResetProfilePaging => 61,
            Self::ResponseNextProfilePage => 62,
            Self::ResponseAutomaticProfileSearchResetProfilePaging => 63,
            Self::ResponseAutomaticProfileSearchNextProfilePage => 64,
            Self::ContentProcessingStateChanged => 90,
            Self::MediaContentChanged => 91,
            Self::NewMessageReceived => 120,
            Self::PendingChatNotificationsChanged => 121,
            Self::ReceivedLikesChanged => 122,
            Self::DailyLikesLeftChanged => 123,
            Self::TypingStart => 124,
            Self::TypingStop => 125,
            Self::OnlineStatusUpdated => 126,
            Self::MessageDeliveryInfoChanged => 127,
            Self::LatestSeenMessageChanged => 128,
        }
    }

    pub fn try_from_u8(v: u8) -> (r: Result<Self, EnumParsingError>)
        ensures
            match Self::spec_from_u8(v) {
                Some(t) => r == Ok::<Self, EnumParsingError>(t),
                None => r == Err::<Self, EnumParsingError>(EnumParsingError::ParsingError(v as i64)),
            },
    {
        if v == 0 {
            Ok(Self::PendingAppNotificationsChanged)
        } else if v == 1 {
            Ok(Self::ClientConfigChanged)
        } else if v == 2 {
            Ok(Self::NewsCountChanged)
        } else if v == 3 {
            Ok(Self::ScheduledMaintenanceStatus)
        } else if v == 4 {
            Ok(Self::AdminBotNotification)
        } else if v == 5 {
            Ok(Self::PushNotificationInfoChanged)
        } else if v == 6 {
            Ok(Self::RequestAdminBotConfigWarnings)
        } else if v == 7 {
            Ok(Self::WebSocketConnectionAttemptsRemaining)
        } else if v == 8 {
            Ok(Self::AppUpdateAvailable)
        } else if v == 30 {
            Ok(Self::AccountStateChanged)
        } else if v == 31 {
            Ok(Self::AccountVerificationQueuePositionChanged)
        } else if v == 60 {
            Ok(Self::ProfileChanged)
        } else if v == 61 {
            Ok(Self::ResponseResetProfilePaging)
        } else if v == 62 {
            Ok(Self::ResponseNextProfilePage)
        } else if v == 63 {
            Ok(Self::ResponseAutomaticProfileSearchResetProfilePaging)
        } else if v == 64 {
            Ok(Self::ResponseAutomaticProfileSearchNextProfilePage)
        } else if v == 90 {
            Ok(Self::ContentProcessingStateChanged)
        } else if v == 91 {
            Ok(Self::MediaContentChanged)
        } else if v == 120 {
            Ok(Self::NewMessageReceived)
        } else if v == 121 {
            Ok(Self::PendingChatNotificationsChanged)
        } else if v == 122 {
            Ok(Self::ReceivedLikesChanged)
        } else if v == 123 {
            Ok(Self::DailyLikesLeftChanged)
        } else if v == 124 {
            Ok(Self::TypingStart)
        } else if v == 125 {
            Ok(Self::TypingStop)
        } else if v == 126 {
            Ok(Self::OnlineStatusUpdated)
        } else if v == 127 {
            Ok(Self::MessageDeliveryInfoChanged)
        } else if v == 128 {
            Ok(Self::LatestSeenMessageChanged)
        } else {
            Err(EnumParsingError::ParsingError(v as i64))
        }
    }

    /// Each message type byte names one message type.
    pub proof fn lemma_from_to_u8(t: Self)
        ensures
            Self::spec_from_u8(t.spec_to_u8()) == Some(t),
    {
    }
}

/// Message type that carries `event`.
pub open spec fn spec_message_type(event: EventToClientView) -> ServerMessageType {
    match event {
        EventToClientView::AccountStateChanged => ServerMessageType::AccountStateChanged,
        EventToClientView::ContentProcessingStateChanged(_) => ServerMessageType::ContentProcessingStateChanged,
        EventToClientView::NewMessageReceived => ServerMessageType::NewMessageReceived,
        EventToClientView::PendingChatNotificationsChanged => ServerMessageType::PendingChatNotificationsChanged,
        EventToClientView::PendingAppNotificationsChanged => ServerMessageType::PendingAppNotificationsChanged,
        EventToClientView::ReceivedLikesChanged => ServerMessageType::ReceivedLikesChanged,
        EventToClientView::ClientConfigChanged => ServerMessageType::ClientConfigChanged,
        EventToClientView::ProfileChanged => ServerMessageType::ProfileChanged,
        EventToClientView::ResponseResetProfilePaging { .. } => ServerMessageType::ResponseResetProfilePaging,
        EventToClientView::ResponseNextProfilePage { .. } => ServerMessageType::ResponseNextProfilePage,
        EventToClientView::ResponseAutomaticProfileSearchResetProfilePaging { .. } => ServerMessageType::ResponseAutomaticProfileSearchResetProfilePaging,
        EventToClientView::ResponseAutomaticProfileSearchNextProfilePage { .. } => ServerMessageType::ResponseAutomaticProfileSearchNextProfilePage,
        EventToClientView::NewsChanged => ServerMessageType::NewsCountChanged,
        EventToClientView::MediaContentChanged => ServerMessageType::MediaContentChanged,
        EventToClientView::AccountVerificationQueuePositionChanged { .. } => ServerMessageType::AccountVerificationQueuePositionChanged,
        EventToClientView::DailyLikesLeftChanged => ServerMessageType::DailyLikesLeftChanged,
        EventToClientView::ScheduledMaintenanceStatus(_) => ServerMessageType::ScheduledMaintenanceStatus,
        EventToClientView::AdminBotNotification(_) => ServerMessageType::AdminBotNotification,
        EventToClientView::RequestAdminBotConfigWarnings { .. } => ServerMessageType::RequestAdminBotConfigWarnings,
        EventToClientView::WebSocketConnectionAttemptsRemaining { .. } => ServerMessageType::WebSocketConnectionAttemptsRemaining,
        EventToClientView::AppUpdateAvailable => ServerMessageType::AppUpdateAvailable,
        EventToClientView::PushNotificationInfoChanged => ServerMessageType::PushNotificationInfoChanged,
        EventToClientView::TypingStart(_) => ServerMessageType::TypingStart,
        EventToClientView::TypingStop(_) => ServerMessageType::TypingStop,
        EventToClientView::OnlineStatusUpdated(_) => ServerMessageType::OnlineStatusUpdated,
        EventToClientView::MessageDeliveryInfoChanged => ServerMessageType::MessageDeliveryInfoChanged,
        EventToClientView::LatestSeenMessageChanged => ServerMessageType::LatestSeenMessageChanged,
    }
}

/// The 16 bytes of a UUID.
pub open spec fn uuid_bytes(u: UuidBase64Url) -> Seq<u8> {
    u.bytes_view()
}

/// Null last seen time (0 byte) or the last seen time as minimal i64.
pub open spec fn last_seen_bytes(l: Option<crate::profile::LastSeenTime>) -> Seq<u8> {
    match l {
        Some(t) => spec_encode(t.0),
        None => seq![0u8],
    }
}

/// Bytes of one profile entry.
pub open spec fn profile_link_bytes(p: ProfileLink) -> Seq<u8> {
    uuid_bytes(p.a.aid) + uuid_bytes(p.p.v) + uuid_bytes(p.c.v) + last_seen_bytes(p.l)
}

/// Bytes of a list of profile entries, in list order.
pub open spec fn profile_links_bytes(ps: Seq<ProfileLink>) -> Seq<u8>
    decreases ps.len(),
{
    if ps.len() == 0 {
        Seq::empty()
    } else {
        profile_link_bytes(ps[0]) + profile_links_bytes(ps.drop_first())
    }
}

/// Appending an entry to a list appends its bytes.
pub proof fn lemma_profile_links_bytes_push(ps: Seq<ProfileLink>, p: ProfileLink)
    ensures
        profile_links_bytes(ps.push(p)) == profile_links_bytes(ps) + profile_link_bytes(p),
    decreases ps.len(),
{
    if ps.len() == 0 {
        assert(ps.push(p).drop_first() =~= Seq::<ProfileLink>::empty());
        assert(profile_links_bytes(ps.push(p).drop_first()) == Seq::<u8>::empty());
        assert(profile_links_bytes(ps.push(p)) =~= profile_link_bytes(p));
    } else {
        lemma_profile_links_bytes_push(ps.drop_first(), p);
        assert(ps.push(p).drop_first() =~= ps.drop_first().push(p));
        assert(profile_links_bytes(ps.push(p)) =~= profile_links_bytes(ps) + profile_link_bytes(p));
    }
}

/// Payload of a reset profile paging response.
pub open spec fn reset_profile_paging_bytes(
    request_id: u8,
    status: ResponseResetProfilePagingStatus,
    iterator_session_id: Option<i64>,
) -> Seq<u8> {
    seq![request_id, status.spec_to_u8()] + if status == ResponseResetProfilePagingStatus::Success {
        match iterator_session_id {
            Some(id) => spec_encode(id),
            None => Seq::empty(),
        }
    } else {
        Seq::empty()
    }
}

/// Payload of a next profile page response.
pub open spec fn next_profile_page_bytes(
    request_id: u8,
    status: ResponseNextProfilePageStatus,
    profiles: Seq<ProfileLink>,
) -> Seq<u8> {
    seq![request_id, status.spec_to_u8()] + if status == ResponseNextProfilePageStatus::Success {
        profile_links_bytes(profiles)
    } else {
        Seq::empty()
    }
}

/// Payload of a scheduled maintenance status.
pub open spec fn scheduled_maintenance_status_bytes(v: ScheduledMaintenanceStatus) -> Seq<u8> {
    seq![if v.admin_bot_offline { 1u8 } else { 0u8 }] + match v.start {
        Some(start) => spec_encode(start.ut) + match v.end {
            Some(end) => spec_encode(end.ut),
            None => Seq::empty(),
        },
        None => Seq::empty(),
    }
}

/// Payload of a content processing state change.
pub open spec fn content_processing_state_changed_bytes(v: ContentProcessingStateChanged) -> Seq<u8> {
    spec_encode(v.id) + seq![v.new_state.spec_state_type().spec_to_u8()] + match v.new_state {
        ContentProcessingStateInternal::InQueue { wait_queue_position } => spec_encode(wait_queue_position),
        ContentProcessingStateInternal::Completed { content_id, face_detected } =>
            uuid_bytes(content_id.cid) + seq![if face_detected { 1u8 } else { 0u8 }],
        _ => Seq::empty(),
    }
}

/// Payload of an online status update.
pub open spec fn online_status_updated_bytes(v: OnlineStatusUpdate) -> Seq<u8> {
    uuid_bytes(v.a.aid) + last_seen_bytes(v.l)
}

/// Payload of `event`.
pub open spec fn spec_payload(event: EventToClientView) -> Seq<u8> {
    match event {
        EventToClientView::ContentProcessingStateChanged(v) => content_processing_state_changed_bytes(v),
        EventToClientView::AccountVerificationQueuePositionChanged { queue_position } => match queue_position {
            Some(q) => seq![q],
            None => Seq::empty(),
        },
        EventToClientView::ScheduledMaintenanceStatus(v) => scheduled_maintenance_status_bytes(v),
        EventToClientView::AdminBotNotification(v) => seq![v.bits],
        EventToClientView::RequestAdminBotConfigWarnings { request_id } => seq![request_id],
        EventToClientView::WebSocketConnectionAttemptsRemaining { remaining } => seq![remaining],
        EventToClientView::TypingStart(a) => uuid_bytes(a.aid),
        EventToClientView::TypingStop(a) => uuid_bytes(a.aid),
        EventToClientView::OnlineStatusUpdated(v) => online_status_updated_bytes(v),
        EventToClientView::ResponseResetProfilePaging { request_id, status, iterator_session_id } =>
            reset_profile_paging_bytes(request_id, status, iterator_session_id),
        EventToClientView::ResponseNextProfilePage { request_id, status, profiles } =>
            next_profile_page_bytes(request_id, status, profiles),
        EventToClientView::ResponseAutomaticProfileSearchResetProfilePaging { request_id, status, iterator_session_id } =>
            reset_profile_paging_bytes(request_id, status, iterator_session_id),
        EventToClientView::ResponseAutomaticProfileSearchNextProfilePage { request_id, status, profiles } =>
            next_profile_page_bytes(request_id, status, profiles),
        _ => Seq::empty(),
    }
}

/// The whole message for `event`: the message type byte and the payload.
pub open spec fn spec_create_server_binary_message(event: EventToClientView) -> Seq<u8> {
    seq![spec_message_type(event).spec_to_u8()] + spec_payload(event)
}

/// The first byte of every message is the documented message type number
/// of its event: 0 to 8 for common events, 30 and 31 for account events,
/// 60 to 64 for profile events, 90 and 91 for media events and 120 to 128
/// for chat events. The rest of the message is the event's payload.
pub proof fn lemma_message_type_byte(event: EventToClientInternal)
    ensures
        ({
            let m = spec_create_server_binary_message(event@);
            &&& m.len() >= 1
            &&& m.subrange(1, m.len() as int) == spec_payload(event@)
        }),
        event matches EventToClientInternal::TypingStart(a) ==> spec_payload(event@) == uuid_bytes(a.aid),
        event matches EventToClientInternal::TypingStop(a) ==> spec_payload(event@) == uuid_bytes(a.aid),
        ({
            let m = spec_create_server_binary_message(event@);
            &&& event is AccountStateChanged ==> m[0] == 30
            &&& event is ContentProcessingStateChanged ==> m[0] == 90
            &&& event is NewMessageReceived ==> m[0] == 120
            &&& event is PendingChatNotificationsChanged ==> m[0] == 121
            &&& event is PendingAppNotificationsChanged ==> m[0] == 0
            &&& event is WebSocketConnectionAttemptsRemaining ==> m[0] == 7
            &&& event is AppUpdateAvailable ==> m[0] == 8
            &&& event is ReceivedLikesChanged ==> m[0] == 122
            &&& event is ClientConfigChanged ==> m[0] == 1
            &&& event is ProfileChanged ==> m[0] == 60
            &&& event is ResponseResetProfilePaging ==> m[0] == 61
            &&& event is ResponseNextProfilePage ==> m[0] == 62
            &&& event is ResponseAutomaticProfileSearchResetProfilePaging ==> m[0] == 63
            &&& event is ResponseAutomaticProfileSearchNextProfilePage ==> m[0] == 64
            &&& event is NewsChanged ==> m[0] == 2
            &&& event is MediaContentChanged ==> m[0] == 91
            &&& event is AccountVerificationQueuePositionChanged ==> m[0] == 31
            &&& event is DailyLikesLeftChanged ==> m[0] == 123
            &&& event is ScheduledMaintenanceStatus ==> m[0] == 3
            &&& event is AdminBotNotification ==> m[0] == 4
            &&& event is RequestAdminBotConfigWarnings ==> m[0] == 6
            &&& event is PushNotificationInfoChanged ==> m[0] == 5
            &&& event is TypingStart ==> m[0] == 124
            &&& event is TypingStop ==> m[0] == 125
            &&& event is OnlineStatusUpdated ==> m[0] == 126
            &&& event is MessageDeliveryInfoChanged ==> m[0] == 127
            &&& event is LatestSeenMessageChanged ==> m[0] == 128
        }),
{
    let m = spec_create_server_binary_message(event@);
    assert(m.subrange(1, m.len() as int) =~= spec_payload(event@));
}

/// A type byte is read as the message type that the documentation gives
/// that number; no other byte names a message type.
pub proof fn lemma_message_type_numbers()
    ensures
        ServerMessageType::spec_from_u8(30) == Some(ServerMessageType::AccountStateChanged),
        ServerMessageType::spec_from_u8(90) == Some(ServerMessageType::ContentProcessingStateChanged),
        ServerMessageType::spec_from_u8(120) == Some(ServerMessageType::NewMessageReceived),
        ServerMessageType::spec_from_u8(121) == Some(ServerMessageType::PendingChatNotificationsChanged),
        ServerMessageType::spec_from_u8(0) == Some(ServerMessageType::PendingAppNotificationsChanged),
        ServerMessageType::spec_from_u8(7) == Some(ServerMessageType::WebSocketConnectionAttemptsRemaining),
        ServerMessageType::spec_from_u8(8) == Some(ServerMessageType::AppUpdateAvailable),
        ServerMessageType::spec_from_u8(122) == Some(ServerMessageType::ReceivedLikesChanged),
        ServerMessageType::spec_from_u8(1) == Some(ServerMessageType::ClientConfigChanged),
        ServerMessageType::spec_from_u8(60) == Some(ServerMessageType::ProfileChanged),
        ServerMessageType::spec_from_u8(61) == Some(ServerMessageType::ResponseResetProfilePaging),
        ServerMessageType::spec_from_u8(62) == Some(ServerMessageType::ResponseNextProfilePage),
        ServerMessageType::spec_from_u8(63) == Some(ServerMessageType::ResponseAutomaticProfileSearchResetProfilePaging),
        ServerMessageType::spec_from_u8(64) == Some(ServerMessageType::ResponseAutomaticProfileSearchNextProfilePage),
        ServerMessageType::spec_from_u8(2) == Some(ServerMessageType::NewsCountChanged),
        ServerMessageType::spec_from_u8(91) == Some(ServerMessageType::MediaContentChanged),
        ServerMessageType::spec_from_u8(31) == Some(ServerMessageType::AccountVerificationQueuePositionChanged),
        ServerMessageType::spec_from_u8(123) == Some(ServerMessageType::DailyLikesLeftChanged),
        ServerMessageType::spec_from_u8(3) == Some(ServerMessageType::ScheduledMaintenanceStatus),
        ServerMessageType::spec_from_u8(4) == Some(ServerMessageType::AdminBotNotification),
        ServerMessageType::spec_from_u8(6) == Some(ServerMessageType::RequestAdminBotConfigWarnings),
        ServerMessageType::spec_from_u8(5) == Some(ServerMessageType::PushNotificationInfoChanged),
        ServerMessageType::spec_from_u8(124) == Some(ServerMessageType::TypingStart),
        ServerMessageType::spec_from_u8(125) == Some(ServerMessageType::TypingStop),
        ServerMessageType::spec_from_u8(126) == Some(ServerMessageType::OnlineStatusUpdated),
        ServerMessageType::spec_from_u8(127) == Some(ServerMessageType::MessageDeliveryInfoChanged),
        ServerMessageType::spec_from_u8(128) == Some(ServerMessageType::LatestSeenMessageChanged),
        forall|v: u8| ServerMessageType::spec_from_u8(v) is Some ==> (v <= 8 || v == 30 || v == 31 || (60 <= v
            <= 64) || v == 90 || v == 91 || (120 <= v <= 128)),
{
}

fn message_type_of(event: &EventToClientInternal) -> (r: ServerMessageType)
    ensures
        r == spec_message_type(event@),
{
    match event {
        EventToClientInternal::AccountStateChanged => ServerMessageType::AccountStateChanged,
        EventToClientInternal::ContentProcessingStateChanged(_) => ServerMessageType::ContentProcessingStateChanged,
        EventToClientInternal::NewMessageReceived => ServerMessageType::NewMessageReceived,
        EventToClientInternal::PendingChatNotificationsChanged => ServerMessageType::PendingChatNotificationsChanged,
        EventToClientInternal::PendingAppNotificationsChanged => ServerMessageType::PendingAppNotificationsChanged,
        EventToClientInternal::ReceivedLikesChanged => ServerMessageType::ReceivedLikesChanged,
        EventToClientInternal::ClientConfigChanged => ServerMessageType::ClientConfigChanged,
        EventToClientInternal::ProfileChanged => ServerMessageType::ProfileChanged,
        EventToClientInternal::ResponseResetProfilePaging { .. } => ServerMessageType::ResponseResetProfilePaging,
        EventToClientInternal::ResponseNextProfilePage { .. } => ServerMessageType::ResponseNextProfilePage,
        EventToClientInternal::ResponseAutomaticProfileSearchResetProfilePaging { .. } => ServerMessageType::ResponseAutomaticProfileSearchResetProfilePaging,
        EventToClientInternal::ResponseAutomaticProfileSearchNextProfilePage { .. } => ServerMessageType::ResponseAutomaticProfileSearchNextProfilePage,
        EventToClientInternal::NewsChanged => ServerMessageType::NewsCountChanged,
        EventToClientInternal::MediaContentChanged => ServerMessageType::MediaContentChanged,
        EventToClientInternal::AccountVerificationQueuePositionChanged { .. } => ServerMessageType::AccountVerificationQueuePositionChanged,
        EventToClientInternal::DailyLikesLeftChanged => ServerMessageType::DailyLikesLeftChanged,
        EventToClientInternal::ScheduledMaintenanceStatus(_) => ServerMessageType::ScheduledMaintenanceStatus,
        EventToClientInternal::AdminBotNotification(_) => ServerMessageType::AdminBotNotification,
        EventToClientInternal::RequestAdminBotConfigWarnings { .. } => ServerMessageType::RequestAdminBotConfigWarnings,
        EventToClientInternal::WebSocketConnectionAttemptsRemaining { .. } => ServerMessageType::WebSocketConnectionAttemptsRemaining,
        EventToClientInternal::AppUpdateAvailable => ServerMessageType::AppUpdateAvailable,
        EventToClientInternal::PushNotificationInfoChanged => ServerMessageType::PushNotificationInfoChanged,
        EventToClientInternal::TypingStart(_) => ServerMessageType::TypingStart,
        EventToClientInternal::TypingStop(_) => ServerMessageType::TypingStop,
        EventToClientInternal::OnlineStatusUpdated(_) => ServerMessageType::OnlineStatusUpdated,
        EventToClientInternal::MessageDeliveryInfoChanged => ServerMessageType::MessageDeliveryInfoChanged,
        EventToClientInternal::LatestSeenMessageChanged => ServerMessageType::LatestSeenMessageChanged,
    }
}

/// Encodes `event` as a binary WebSocket message.
pub fn create_server_binary_message(event: &EventToClientInternal) -> (message: Vec<u8>)
    ensures
        message@ == spec_create_server_binary_message(event@),
{
    let message_type = message_type_of(event);
    let mut message: Vec<u8> = Vec::new();
    message.push(message_type.to_u8());
    let ghost start = message@;
    match event {
        EventToClientInternal::ContentProcessingStateChanged(value) => {
            append_content_processing_state_changed_payload(&mut message, value);
        },
        EventToClientInternal::AccountVerificationQueuePositionChanged { queue_position } => {
            if let Some(queue_position) = queue_position {
                message.push(*queue_position);
            }
        },
        EventToClientInternal::ScheduledMaintenanceStatus(value) => {
            append_scheduled_maintenance_status_payload(&mut message, value);
        },
        EventToClientInternal::AdminBotNotification(value) => {
            message.push(value.bits());
        },
        EventToClientInternal::RequestAdminBotConfigWarnings { request_id } => {
            message.push(*request_id);
        },
        EventToClientInternal::WebSocketConnectionAttemptsRemaining { remaining } => {
            message.push(*remaining);
        },
        EventToClientInternal::TypingStart(value) => {
            append_account_id_payload(&mut message, *value);
        },
        EventToClientInternal::TypingStop(value) => {
            append_account_id_payload(&mut message, *value);
        },
        EventToClientInternal::OnlineStatusUpdated(value) => {
            append_online_status_updated_payload(&mut message, value);
        },
        EventToClientInternal::ResponseResetProfilePaging { request_id, status, iterator_session_id } => {
            append_response_reset_profile_paging_payload(&mut message, *request_id, *status, *iterator_session_id);
        },
        EventToClientInternal::ResponseNextProfilePage { request_id, status, profiles } => {
            append_response_next_profile_page_payload(&mut message, *request_id, *status, profiles);
        },
        EventToClientInternal::ResponseAutomaticProfileSearchResetProfilePaging {
            request_id,
            status,
            iterator_session_id,
        } => {
            append_response_reset_profile_paging_payload(&mut message, *request_id, *status, *iterator_session_id);
        },
        EventToClientInternal::ResponseAutomaticProfileSearchNextProfilePage { request_id, status, profiles } => {
            append_response_next_profile_page_payload(&mut message, *request_id, *status, profiles);
        },
        _ => {},
    }
    assert(message@ =~= spec_create_server_binary_message(event@));
    message
}

fn append_uuid(buffer: &mut Vec<u8>, uuid: &UuidBase64Url)
    ensures
        final(buffer)@ == old(buffer)@ + uuid_bytes(*uuid),
{
    let bytes = uuid.as_bytes();
    let ghost start = buffer@;
    let mut i: usize = 0;
    while i < 16
        invariant
            i <= 16,
            bytes@ == uuid_bytes(*uuid),
            bytes@.len() == 16,
            buffer@ == start + bytes@.take(i as int),
        decreases 16 - i,
    {
        buffer.push(bytes[i]);
        assert(bytes@.take(i + 1) =~= bytes@.take(i as int).push(bytes@[i as int]));
        i = i + 1;
    }
    assert(bytes@.take(16) =~= bytes@);
}

fn append_account_id_payload(buffer: &mut Vec<u8>, account_id: AccountId)
    ensures
        final(buffer)@ == old(buffer)@ + uuid_bytes(account_id.aid),
{
    append_uuid(buffer, account_id.as_ref());
}

fn append_last_seen_time(buffer: &mut Vec<u8>, last_seen: Option<crate::profile::LastSeenTime>)
    ensures
        final(buffer)@ == old(buffer)@ + last_seen_bytes(last_seen),
{
    match last_seen {
        Some(last_seen) => {
            add_minimal_i64(buffer, last_seen.raw());
        },
        None => {
            buffer.push(0);
        },
    }
}

fn append_response_reset_profile_paging_payload(
    buffer: &mut Vec<u8>,
    request_id: u8,
    status: ResponseResetProfilePagingStatus,
    iterator_session_id: Option<i64>,
)
    ensures
        final(buffer)@ == old(buffer)@ + reset_profile_paging_bytes(request_id, status, iterator_session_id),
{
    let ghost start = buffer@;
    buffer.push(request_id);
    buffer.push(status.to_u8());
    if !matches!(status, ResponseResetProfilePagingStatus::Success) {
        assert(buffer@ =~= start + reset_profile_paging_bytes(request_id, status, iterator_session_id));
        return;
    }
    if let Some(iterator_session_id) = iterator_session_id {
        add_minimal_i64(buffer, iterator_session_id);
    }
    assert(buffer@ =~= start + reset_profile_paging_bytes(request_id, status, iterator_session_id));
}

fn append_response_next_profile_page_payload(
    buffer: &mut Vec<u8>,
    request_id: u8,
    status: ResponseNextProfilePageStatus,
    profiles: &Vec<ProfileLink>,
)
    ensures
        final(buffer)@ == old(buffer)@ + next_profile_page_bytes(request_id, status, profiles@),
{
    let ghost start = buffer@;
    buffer.push(request_id);
    buffer.push(status.to_u8());
    if !matches!(status, ResponseNextProfilePageStatus::Success) {
        assert(buffer@ =~= start + next_profile_page_bytes(request_id, status, profiles@));
        return;
    }
    let ghost header = buffer@;
    let mut i: usize = 0;
    while i < profiles.len()
        invariant
            i <= profiles@.len(),
            buffer@ == header + profile_links_bytes(profiles@.take(i as int)),
        decreases profiles@.len() - i,
    {
        let profile = &profiles[i];
        let account_id = profile.account_id();
        let profile_version = profile.profile_version();
        let profile_content_version = profile.profile_content_version();
        let ghost before = buffer@;
        append_uuid(buffer, &account_id.aid);
        append_uuid(buffer, profile_version.as_ref());
        append_uuid(buffer, profile_content_version.as_ref());
        append_last_seen_time(buffer, profile.last_seen_time());
        proof {
            lemma_profile_links_bytes_push(profiles@.take(i as int), profiles@[i as int]);
            assert(profiles@.take(i + 1) =~= profiles@.take(i as int).push(profiles@[i as int]));
            assert(buffer@ =~= before + profile_link_bytes(profiles@[i as int]));
        }
        i = i + 1;
    }
    assert(profiles@.take(profiles@.len() as int) =~= profiles@);
    assert(buffer@ =~= start + next_profile_page_bytes(request_id, status, profiles@));
}

fn append_scheduled_maintenance_status_payload(buffer: &mut Vec<u8>, value: &ScheduledMaintenanceStatus)
    ensures
        final(buffer)@ == old(buffer)@ + scheduled_maintenance_status_bytes(*value),
{
    let ghost start = buffer@;
    buffer.push(if value.admin_bot_offline() { 1 } else { 0 });
    if let Some(start_time) = value.start() {
        add_minimal_i64(buffer, start_time.ut);
        if let Some(end_time) = value.end() {
            add_minimal_i64(buffer, end_time.ut);
        }
    }
    assert(buffer@ =~= start + scheduled_maintenance_status_bytes(*value));
}

fn append_content_processing_state_changed_payload(buffer: &mut Vec<u8>, value: &ContentProcessingStateChanged)
    ensures
        final(buffer)@ == old(buffer)@ + content_processing_state_changed_bytes(*value),
{
    let ghost start = buffer@;
    add_minimal_i64(buffer, value.id);
    let state_type = value.new_state.state_type();
    buffer.push(state_type.to_u8());
    match value.new_state {
        ContentProcessingStateInternal::InQueue { wait_queue_position } => {
            add_minimal_i64(buffer, wait_queue_position);
        },
        ContentProcessingStateInternal::Completed { content_id, face_detected } => {
            append_uuid(buffer, &content_id.cid);
            buffer.push(if face_detected { 1 } else { 0 });
        },
        _ => {},
    }
    assert(buffer@ =~= start + content_processing_state_changed_bytes(*value));
}

fn append_online_status_updated_payload(buffer: &mut Vec<u8>, value: &OnlineStatusUpdate)
    ensures
        final(buffer)@ == old(buffer)@ + online_status_updated_bytes(*value),
{
    let ghost start = buffer@;
    append_account_id_payload(buffer, value.a);
    append_last_seen_time(buffer, value.l);
    assert(buffer@ =~= start + online_status_updated_bytes(*value));
}

} // verus!
