//! Push notification flags, tokens and the notifications sent to devices.
use vstd::prelude::*;

use crate::common::NotificationEvent;
use crate::interaction::ConversationId;
use crate::outside::{base64_standard_encode, encode_standard, random_128_bits};
use crate::sync_version::PushNotificationInfoSyncVersion;
use crate::text::{i64_to_string, int_to_decimal, text};

verus! {

/// Push notification flags as stored in the database.
#[derive(Debug, Clone, Copy, Default, PartialEq, Eq, Structural)]
pub struct PushNotificationFlagsDb(i64);

impl PushNotificationFlagsDb {
    pub closed spec fn spec_value(self) -> i64 {
        self.0
    }

    pub fn new(value: i64) -> (r: Self)
        ensures
            r.spec_value() == value,
    {
        Self(value)
    }

    pub fn as_i64(&self) -> (r: &i64)
        ensures
            *r == self.spec_value(),
    {
        &self.0
    }

    pub fn from_flags(value: PushNotificationFlags) -> (r: Self)
        ensures
            r.spec_value() == value.spec_bits(),
    {
        Self(value.bits())
    }
}

/// Push notification types as bitflags: NEW_MESSAGE 0x1,
/// RECEIVED_LIKES_CHANGED 0x2, MEDIA_CONTENT_MODERATION_COMPLETED 0x4,
/// NEWS_CHANGED 0x8, PROFILE_STRING_MODERATION_COMPLETED 0x10,
/// AUTOMATIC_PROFILE_SEARCH_COMPLETED 0x20, ADMIN_NOTIFICATION 0x40.
#[derive(Debug, Clone, Copy, Default, PartialEq, Eq, Structural)]
pub struct PushNotificationFlags {
    bits: i64,
}

impl PushNotificationFlags {
    pub const NEW_MESSAGE: i64 = 0x1;
    pub const RECEIVED_LIKES_CHANGED: i64 = 0x2;
    pub const MEDIA_CONTENT_MODERATION_COMPLETED: i64 = 0x4;
    pub const NEWS_CHANGED: i64 = 0x8;
    pub const PROFILE_STRING_MODERATION_COMPLETED: i64 = 0x10;
    pub const AUTOMATIC_PROFILE_SEARCH_COMPLETED: i64 = 0x20;
    pub const ADMIN_NOTIFICATION: i64 = 0x40;

    pub closed spec fn spec_bits(self) -> i64 {
        self.bits
    }

    /// The flag of a notification event.
    pub open spec fn spec_event_flag(event: NotificationEvent) -> i64 {
        match event {
            NotificationEvent::NewMessageReceived => 0x1,
            NotificationEvent::ReceivedLikesChanged => 0x2,
            NotificationEvent::MediaContentModerationCompleted => 0x4,
            NotificationEvent::NewsChanged => 0x8,
            NotificationEvent::ProfileStringModerationCompleted => 0x10,
            NotificationEvent::AutomaticProfileSearchCompleted => 0x20,
            NotificationEvent::AdminNotification => 0x40,
        }
    }

    /// Keeps the defined flags of `bits`.
    pub fn from_bits_truncate(bits: i64) -> (r: Self)
        ensures
            r.spec_bits() == bits & 0x7f,
    {
        Self { bits: bits & 0x7f }
    }

    pub fn bits(self) -> (r: i64)
        ensures
            r == self.spec_bits(),
    {
        self.bits
    }

    /// The flags stored in the database, defined flags only.
    pub fn from_db(value: PushNotificationFlagsDb) -> (r: Self)
        ensures
            r.spec_bits() == value.spec_value() & 0x7f,
    {
        Self::from_bits_truncate(value.0)
    }

    /// The flag of a notification event.
    pub fn from_event(value: NotificationEvent) -> (r: Self)
        ensures
            r.spec_bits() == Self::spec_event_flag(value),
    {
        let bits = match value {
            NotificationEvent::NewMessageReceived => Self::NEW_MESSAGE,
            NotificationEvent::ReceivedLikesChanged => Self::RECEIVED_LIKES_CHANGED,
            NotificationEvent::MediaContentModerationCompleted => Self::MEDIA_CONTENT_MODERATION_COMPLETED,
            NotificationEvent::NewsChanged => Self::NEWS_CHANGED,
            NotificationEvent::ProfileStringModerationCompleted => Self::PROFILE_STRING_MODERATION_COMPLETED,
            NotificationEvent::AutomaticProfileSearchCompleted => Self::AUTOMATIC_PROFILE_SEARCH_COMPLETED,
            NotificationEvent::AdminNotification => Self::ADMIN_NOTIFICATION,
        };
        Self { bits }
    }
}

/// Each notification event has its documented flag: new message 0x1,
/// received likes 0x2, media content moderation 0x4, news 0x8, profile
/// string moderation 0x10, automatic profile search 0x20, admin
/// notification 0x40.
pub proof fn lemma_event_flag_values(event: NotificationEvent)
    ensures
        event == NotificationEvent::NewMessageReceived ==> PushNotificationFlags::spec_event_flag(event) == 0x1,
        event == NotificationEvent::ReceivedLikesChanged ==> PushNotificationFlags::spec_event_flag(event) == 0x2,
        event == NotificationEvent::MediaContentModerationCompleted ==> PushNotificationFlags::spec_event_flag(event)
            == 0x4,
        event == NotificationEvent::NewsChanged ==> PushNotificationFlags::spec_event_flag(event) == 0x8,
        event == NotificationEvent::ProfileStringModerationCompleted ==> PushNotificationFlags::spec_event_flag(event)
            == 0x10,
        event == NotificationEvent::AutomaticProfileSearchCompleted ==> PushNotificationFlags::spec_event_flag(event)
            == 0x20,
        event == NotificationEvent::AdminNotification ==> PushNotificationFlags::spec_event_flag(event) == 0x40,
{
}

/// Each notification event has its own flag.
pub proof fn lemma_event_flags_distinct(a: NotificationEvent, b: NotificationEvent)
    ensures
        PushNotificationFlags::spec_event_flag(a) == PushNotificationFlags::spec_event_flag(b) <==> a == b,
        PushNotificationFlags::spec_event_flag(a) & 0x7f == PushNotificationFlags::spec_event_flag(a),
{
    let f = PushNotificationFlags::spec_event_flag(a);
    assert(f == 1 || f == 2 || f == 4 || f == 8 || f == 16 || f == 32 || f == 64);
    assert((f == 1 || f == 2 || f == 4 || f == 8 || f == 16 || f == 32 || f == 64) ==> f & 0x7f == f) by (bit_vector);
}

/// Firebase Cloud Messaging device token.
#[derive(Debug, Clone)]
pub struct PushNotificationDeviceToken {
    token: String,
}

impl View for PushNotificationDeviceToken {
    type V = Seq<char>;

    closed spec fn view(&self) -> Seq<char> {
        self.token@
    }
}

impl PushNotificationDeviceToken {
    pub fn into_string(self) -> (r: String)
        ensures
            r@ == self@,
    {
        self.token
    }

    pub fn new(token: String) -> (r: Self)
        ensures
            r@ == token@,
    {
        Self { token }
    }

    pub fn as_str(&self) -> (r: &str)
        ensures
            r@ == self@,
    {
        self.token.as_str()
    }
}

/// 128 bit random value which is Base64 encoded.
#[derive(Debug, Clone, PartialEq, Eq, Hash)]
pub struct PushNotificationEncryptionKey {
    key: String,
}

impl View for PushNotificationEncryptionKey {
    type V = Seq<char>;

    closed spec fn view(&self) -> Seq<char> {
        self.key@
    }
}

impl PushNotificationEncryptionKey {
    /// A new random key: 16 random bytes in standard Base64, 24 characters.
    pub fn generate_new() -> (r: Self)
        ensures
            r@.len() == 24,
            exists|b: Seq<u8>| b.len() == 16 && r@ == base64_standard_encode(b),
    {
        let bytes = random_128_bits();
        Self { key: encode_standard(bytes.as_slice()) }
    }

    pub fn new(key: String) -> (r: Self)
        ensures
            r@ == key@,
    {
        Self { key }
    }

    pub fn into_string(self) -> (r: String)
        ensures
            r@ == self@,
    {
        self.key
    }

    pub fn as_str(&self) -> (r: &str)
        ensures
            r@ == self@,
    {
        self.key.as_str()
    }
}

/// Push notification state of an account in the database.
#[derive(Debug, Clone)]
pub struct PushNotificationDbState {
    pub pending_flags: PushNotificationFlagsDb,
    pub sent_flags: PushNotificationFlagsDb,
    pub encryption_key: Option<PushNotificationEncryptionKey>,
    pub device_token: Option<PushNotificationDeviceToken>,
}

/// Notification ID for an event. It prevents showing the same
/// notification again. The ID is an `i8` number which wraps.
#[derive(Debug, Clone, Copy, Default, PartialEq, Eq, Structural)]
pub struct NotificationId {
    pub id: i8,
}

impl NotificationId {
    /// The next ID; 127 is followed by -128.
    pub fn wrapping_increment(self) -> (r: Self)
        ensures
            r.id == if self.id == 127 { -128 } else { self.id + 1 },
    {
        if self.id == 127 {
            Self { id: -128 }
        } else {
            Self { id: self.id + 1 }
        }
    }

    pub fn into_i16(self) -> (r: i16)
        ensures
            r == self.id,
    {
        self.id as i16
    }

    /// The ID `value`, or an error when it is outside the `i8` range.
    pub fn try_from_i16(value: i16) -> (r: Result<Self, String>)
        ensures
            match r {
                Ok(n) => n.id == value,
                Err(e) => !(-128 <= value <= 127) && e@ == "out of range integral type conversion attempted"@,
            },
    {
        if value < -128 || value > 127 {
            Err(text("out of range integral type conversion attempted"))
        } else {
            Ok(Self { id: value as i8 })
        }
    }
}

/// Notification ID which the client has handled.
#[derive(Debug, Clone, Copy, Default, PartialEq, Eq, Structural)]
pub struct NotificationIdViewed {
    pub id: i8,
}

impl NotificationIdViewed {
    pub fn into_i16(self) -> (r: i16)
        ensures
            r == self.id,
    {
        self.id as i16
    }

    /// The ID `value`, or an error when it is outside the `i8` range.
    pub fn try_from_i16(value: i16) -> (r: Result<Self, String>)
        ensures
            match r {
                Ok(n) => n.id == value,
                Err(e) => !(-128 <= value <= 127) && e@ == "out of range integral type conversion attempted"@,
            },
    {
        if value < -128 || value > 127 {
            Err(text("out of range integral type conversion attempted"))
        } else {
            Ok(Self { id: value as i8 })
        }
    }
}

/// Latest notification ID and the latest one that the client handled.
#[derive(Debug, Clone, Copy, Default, PartialEq, Eq, Structural)]
pub struct NotificationStatus {
    pub id: NotificationId,
    pub viewed: NotificationIdViewed,
}

impl NotificationStatus {
    /// Whether the client has handled the latest notification.
    pub fn notification_viewed(&self) -> (r: bool)
        ensures
            r == (self.id.id == self.viewed.id),
    {
        self.id.id == self.viewed.id
    }
}

/// Base64 encoded VAPID public key.
#[derive(Debug, Clone)]
pub struct VapidPublicKey {
    key: String,
}

impl View for VapidPublicKey {
    type V = Seq<char>;

    closed spec fn view(&self) -> Seq<char> {
        self.key@
    }
}

impl VapidPublicKey {
    /// The key in standard Base64.
    pub fn new(public_key: &[u8]) -> (r: Self)
        requires
            public_key@.len() <= usize::MAX / 4,
        ensures
            r@ == base64_standard_encode(public_key@),
    {
        Self { key: encode_standard(public_key) }
    }
}

/// Push notification info for the client.
#[derive(Debug, Clone)]
pub struct GetPushNotificationInfo {
    pub device_token: Option<PushNotificationDeviceToken>,
    /// Base64 encoded VAPID public key if web push notifications are
    /// enabled and the current login session is from a web client.
    pub vapid_public_key: Option<VapidPublicKey>,
    pub sync_version: PushNotificationInfoSyncVersion,
}

/// Device token of an account for push notifications.
#[derive(Debug, Clone)]
pub struct PushNotificationStateInfo {
    pub push_notification_device_token: Option<PushNotificationDeviceToken>,
}

/// Push notification state with the pending flags, if there are any.
#[derive(Debug, Clone)]
pub enum PushNotificationStateInfoWithFlags {
    EmptyFlags,
    WithFlags { info: PushNotificationStateInfo, flags: PushNotificationFlags },
}

/// Notifications to send with the database state they were made from.
#[derive(Debug)]
pub struct PushNotificationSendingInfo {
    pub db_state: PushNotificationDbState,
    pub notifications: Vec<PushNotification>,
}

/// Notification IDs of the client.
#[derive(Debug, Clone, Copy, PartialEq, Eq, Structural)]
pub enum PushNotificationId {
    AdminNotification,
    NewsItemAvailable,
    ProfileNameModerationAccepted,
    ProfileNameModerationRejected,
    ProfileTextModerationAccepted,
    ProfileTextModerationRejected,
    AutomaticProfileSearchCompleted,
    MediaContentModerationAccepted,
    MediaContentModerationRejected,
    MediaContentModerationDeleted,
    LikeReceived,
    FirstNewMessageNotificationId,
}

impl PushNotificationId {
    /// Number of the ID: 10 common, 20 account, 30..34 profile, 40..42
    /// media, 50 chat and 1000 for the first new message ID.
    pub open spec fn spec_number(self) -> i64 {
        match self {
            Self::AdminNotification => 10,
            Self::NewsItemAvailable => 20,
            Self::ProfileNameModerationAccepted => 30,
            Self::ProfileNameModerationRejected => 31,
            Self::ProfileTextModerationAccepted => 32,
            Self::ProfileTextModerationRejected => 33,
            Self::AutomaticProfileSearchCompleted => 34,
            Self::MediaContentModerationAccepted => 40,
            Self::MediaContentModerationRejected => 41,
            Self::MediaContentModerationDeleted => 42,
            Self::LikeReceived => 50,
            Self::FirstNewMessageNotificationId => 1000,
        }
    }

    /// Each variant has the number that the documentation gives it.
    pub proof fn lemma_documented_numbers(self)
        ensures
            self is AdminNotification ==> self.spec_number() == 10,
            self is NewsItemAvailable ==> self.spec_number() == 20,
            self is ProfileNameModerationAccepted ==> self.spec_number() == 30,
            self is ProfileNameModerationRejected ==> self.spec_number() == 31,
            self is ProfileTextModerationAccepted ==> self.spec_number() == 32,
            self is ProfileTextModerationRejected ==> self.spec_number() == 33,
            self is AutomaticProfileSearchCompleted ==> self.spec_number() == 34,
            self is MediaContentModerationAccepted ==> self.spec_number() == 40,
            self is MediaContentModerationRejected ==> self.spec_number() == 41,
            self is MediaContentModerationDeleted ==> self.spec_number() == 42,
            self is LikeReceived ==> self.spec_number() == 50,
            self is FirstNewMessageNotificationId ==> self.spec_number() == 1000,
    {
    }

    pub fn number(self) -> (r: i64)
        ensures
            r == self.spec_number(),
    {
        match self {
            Self::AdminNotification => 10,
            Self::NewsItemAvailable => 20,
            Self::ProfileNameModerationAccepted => 30,
            Self::ProfileNameModerationRejected => 31,
            Self::ProfileTextModerationAccepted => 32,
            Self::ProfileTextModerationRejected => 33,
            Self::AutomaticProfileSearchCompleted => 34,
            Self::MediaContentModerationAccepted => 40,
            Self::MediaContentModerationRejected => 41,
            Self::MediaContentModerationDeleted => 42,
            Self::LikeReceived => 50,
            Self::FirstNewMessageNotificationId => 1000,
        }
    }

    /// Android notification channel of the ID.
    pub open spec fn spec_channel_id(self) -> Option<Seq<char>> {
        match self {
            Self::AdminNotification | Self::NewsItemAvailable => Some("news_item_available"@),
            Self::ProfileNameModerationAccepted | Self::ProfileNameModerationRejected
            | Self::ProfileTextModerationAccepted | Self::ProfileTextModerationRejected =>
                Some("profile_string_moderation_completed"@),
            Self::AutomaticProfileSearchCompleted => Some("automatic_profile_search"@),
            Self::MediaContentModerationAccepted | Self::MediaContentModerationRejected
            | Self::MediaContentModerationDeleted => Some("media_content_moderation_completed"@),
            Self::LikeReceived => Some("likes"@),
            Self::FirstNewMessageNotificationId => None,
        }
    }

    /// Converts to an Android notification channel ID.
    pub fn to_channel_id(self) -> (r: Option<&'static str>)
        ensures
            match self.spec_channel_id() {
                Some(c) => r matches Some(s) && s@ == c,
                None => r is None,
            },
    {
        match self {
            Self::AdminNotification | Self::NewsItemAvailable => Some("news_item_available"),
            Self::ProfileNameModerationAccepted | Self::ProfileNameModerationRejected
            | Self::ProfileTextModerationAccepted | Self::ProfileTextModerationRejected =>
                Some("profile_string_moderation_completed"),
            Self::AutomaticProfileSearchCompleted => Some("automatic_profile_search"),
            Self::MediaContentModerationAccepted | Self::MediaContentModerationRejected
            | Self::MediaContentModerationDeleted => Some("media_content_moderation_completed"),
            Self::LikeReceived => Some("likes"),
            Self::FirstNewMessageNotificationId => None,
        }
    }
}

/// A push notification for a device.
#[derive(Debug, Clone)]
pub struct PushNotification {
    /// If None, the notification should be hidden.
    title: Option<String>,
    body: Option<String>,
    /// Notification ID number which the client can use to hide the
    /// notification or run a notification specific navigation action.
    id: String,
    /// Notification channel ID string for the Android client.
    channel: Option<&'static str>,
}

/// Values of a [PushNotification].
pub ghost struct PushNotificationView {
    pub title: Option<Seq<char>>,
    pub body: Option<Seq<char>>,
    pub id: Seq<char>,
    pub channel: Option<Seq<char>>,
}

pub open spec fn opt_string_view(s: Option<String>) -> Option<Seq<char>> {
    match s {
        Some(v) => Some(v@),
        None => None,
    }
}

impl View for PushNotification {
    type V = PushNotificationView;

    closed spec fn view(&self) -> PushNotificationView {
        PushNotificationView {
            title: opt_string_view(self.title),
            body: opt_string_view(self.body),
            id: self.id@,
            channel: match self.channel {
                Some(c) => Some(c@),
                None => None,
            },
        }
    }
}

impl PushNotification {
    /// A visible notification with a title.
    pub fn new(notification: PushNotificationId, title: String) -> (r: Self)
        ensures
            r@ == (PushNotificationView {
                title: Some(title@),
                body: None,
                id: int_to_decimal(notification.spec_number() as int),
                channel: notification.spec_channel_id(),
            }),
    {
        Self {
            title: Some(title),
            body: None,
            id: i64_to_string(notification.number()),
            channel: notification.to_channel_id(),
        }
    }

    /// A visible notification with a title and a body.
    pub fn new_with_body(notification: PushNotificationId, title: String, body: String) -> (r: Self)
        ensures
            r@ == (PushNotificationView {
                title: Some(title@),
                body: Some(body@),
                id: int_to_decimal(notification.spec_number() as int),
                channel: notification.spec_channel_id(),
            }),
    {
        Self {
            title: Some(title),
            body: Some(body),
            id: i64_to_string(notification.number()),
            channel: notification.to_channel_id(),
        }
    }

    /// A hidden notification that removes the shown one.
    pub fn remove_notification(notification: PushNotificationId) -> (r: Self)
        ensures
            r@ == (PushNotificationView {
                title: None,
                body: None,
                id: int_to_decimal(notification.spec_number() as int),
                channel: notification.spec_channel_id(),
            }),
    {
        Self {
            title: None,
            body: None,
            id: i64_to_string(notification.number()),
            channel: notification.to_channel_id(),
        }
    }

    /// A new message notification of a conversation: its ID is 1000 plus
    /// the conversation ID.
    pub fn new_message(conversation: ConversationId, title: String) -> (r: Self)
        requires
            conversation.id <= i64::MAX - 1000,
        ensures
            r@ == (PushNotificationView {
                title: Some(title@),
                body: None,
                id: int_to_decimal(1000 + conversation.id),
                channel: Some("messages"@),
            }),
    {
        Self {
            title: Some(title),
            body: None,
            id: i64_to_string(PushNotificationId::FirstNewMessageNotificationId.number() + conversation.id),
            channel: Some("messages"),
        }
    }

    pub fn is_visible(&self) -> (r: bool)
        ensures
            r == self@.title is Some,
    {
        self.title.is_some()
    }

    pub fn id(&self) -> (r: &str)
        ensures
            r@ == self@.id,
    {
        self.id.as_str()
    }

    pub fn title(&self) -> (r: Option<&str>)
        ensures
            match self@.title {
                Some(t) => r matches Some(s) && s@ == t,
                None => r is None,
            },
    {
        match &self.title {
            Some(t) => Some(t.as_str()),
            None => None,
        }
    }

    pub fn body(&self) -> (r: Option<&str>)
        ensures
            match self@.body {
                Some(t) => r matches Some(s) && s@ == t,
                None => r is None,
            },
    {
        match &self.body {
            Some(t) => Some(t.as_str()),
            None => None,
        }
    }

    pub fn channel(&self) -> (r: Option<&str>)
        ensures
            match self@.channel {
                Some(t) => r matches Some(s) && s@ == t,
                None => r is None,
            },
    {
        self.channel
    }
}

impl PushNotificationId {
    /// Different values have different numbers, so reading a value's
    /// number back gives the value.
    pub proof fn lemma_number_injective(a: Self, b: Self)
        ensures
            a.spec_number() == b.spec_number() <==> a == b,
    {
    }
}

} // verus!
