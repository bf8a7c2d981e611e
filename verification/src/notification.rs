//! Pending app notifications and their database form.
use vstd::prelude::*;

use crate::admin_notification::AdminNotificationBitflags;
use crate::backend::UnixTime;
use crate::EnumParsingError;

verus! {

/// App notification types.
///
/// The integer payload of an admin notification holds the
/// [AdminNotificationBitflags], that of news changed the unread news count,
/// that of an automatic profile search the found profile count and that of
/// received likes changed the received likes count.
#[derive(Debug, Clone, Copy, PartialEq, Eq, Structural)]
pub enum PendingAppNotificationType {
    AdminNotification,
    NewsChanged,
    ProfileNameModerationAccepted,
    ProfileNameModerationRejected,
    ProfileTextModerationAccepted,
    ProfileTextModerationRejected,
    AutomaticProfileSearchCompleted,
    MediaContentModerationAccepted,
    MediaContentModerationRejected,
    MediaContentModerationDeleted,
    ReceivedLikesChanged,
}

impl PendingAppNotificationType {
    /// Number of the type: 0..19 common, 20..39 account, 40..59 profile,
    /// 60..79 media and 80..99 chat.
    pub open spec fn spec_to_i16(self) -> i16 {
        match self {
            Self::AdminNotification => 0,
            Self::NewsChanged => 20,
            Self::ProfileNameModerationAccepted => 40,
            Self::ProfileNameModerationRejected => 41,
            Self::ProfileTextModerationAccepted => 42,
            Self::ProfileTextModerationRejected => 43,
            Self::AutomaticProfileSearchCompleted => 44,
            Self::MediaContentModerationAccepted => 60,
            Self::MediaContentModerationRejected => 61,
            Self::MediaContentModerationDeleted => 62,
            Self::ReceivedLikesChanged => 80,
        }
    }

    /// Each variant has the number that the documentation gives it.
    pub proof fn lemma_documented_numbers(self)
        ensures
            self is AdminNotification ==> self.spec_to_i16() == 0,
            self is NewsChanged ==> self.spec_to_i16() == 20,
            self is ProfileNameModerationAccepted ==> self.spec_to_i16() == 40,
            self is ProfileNameModerationRejected ==> self.spec_to_i16() == 41,
            self is ProfileTextModerationAccepted ==> self.spec_to_i16() == 42,
            self is ProfileTextModerationRejected ==> self.spec_to_i16() == 43,
            self is AutomaticProfileSearchCompleted ==> self.spec_to_i16() == 44,
            self is MediaContentModerationAccepted ==> self.spec_to_i16() == 60,
            self is MediaContentModerationRejected ==> self.spec_to_i16() == 61,
            self is MediaContentModerationDeleted ==> self.spec_to_i16() == 62,
            self is ReceivedLikesChanged ==> self.spec_to_i16() == 80,
    {
    }

    pub fn to_i16(self) -> (r: i16)
        ensures
            r == self.spec_to_i16(),
    {
        match self {
            Self::AdminNotification => 0,
            Self::NewsChanged => 20,
            Self::ProfileNameModerationAccepted => 40,
            Self::ProfileNameModerationRejected => 41,
            Self::ProfileTextModerationAccepted => 42,
            Self::ProfileTextModerationRejected => 43,
            Self::AutomaticProfileSearchCompleted => 44,
            Self::MediaContentModerationAccepted => 60,
            Self::MediaContentModerationRejected => 61,
            Self::MediaContentModerationDeleted => 62,
            Self::ReceivedLikesChanged => 80,
        }
    }

    /// The type numbered `v`, or an error for a number that names no type.
    pub fn try_from_i16(v: i16) -> (r: Result<Self, EnumParsingError>)
        ensures
            match r {
                Ok(t) => t.spec_to_i16() == v,
                Err(e) => e == EnumParsingError::ParsingError(v as i64)
                    && forall|t: Self| #[trigger] t.spec_to_i16() != v,
            },
    {
        if v == 0 {
            Ok(Self::AdminNotification)
        } else if v == 20 {
            Ok(Self::NewsChanged)
        } else if v == 40 {
            Ok(Self::ProfileNameModerationAccepted)
        } else if v == 41 {
            Ok(Self::ProfileNameModerationRejected)
        } else if v == 42 {
            Ok(Self::ProfileTextModerationAccepted)
        } else if v == 43 {
            Ok(Self::ProfileTextModerationRejected)
        } else if v == 44 {
            Ok(Self::AutomaticProfileSearchCompleted)
        } else if v == 60 {
            Ok(Self::MediaContentModerationAccepted)
        } else if v == 61 {
            Ok(Self::MediaContentModerationRejected)
        } else if v == 62 {
            Ok(Self::MediaContentModerationDeleted)
        } else if v == 80 {
            Ok(Self::ReceivedLikesChanged)
        } else {
            Err(EnumParsingError::ParsingError(v as i64))
        }
    }
}

/// A pending app notification with its data.
#[derive(Debug, Clone, Copy, PartialEq, Eq, Structural)]
pub enum PendingAppNotificationInternal {
    AdminNotification { bitflags: AdminNotificationBitflags },
    NewsChanged { unread_news_count: i64 },
    ReceivedLikesChanged { new_received_likes_count: i64 },
    MediaContentModerationAccepted,
    MediaContentModerationRejected,
    MediaContentModerationDeleted,
    ProfileNameModerationAccepted,
    ProfileNameModerationRejected,
    ProfileTextModerationAccepted,
    ProfileTextModerationRejected,
    AutomaticProfileSearchCompleted { profile_count: i64 },
}

impl PendingAppNotificationInternal {
    /// The notification type and its integer payload.
    pub open spec fn spec_db_values(self) -> (PendingAppNotificationType, Option<i64>) {
        match self {
            Self::AdminNotification { bitflags } =>
                (PendingAppNotificationType::AdminNotification, Some(bitflags.spec_bits())),
            Self::NewsChanged { unread_news_count } =>
                (PendingAppNotificationType::NewsChanged, Some(unread_news_count)),
            Self::ReceivedLikesChanged { new_received_likes_count } =>
                (PendingAppNotificationType::ReceivedLikesChanged, Some(new_received_likes_count)),
            Self::MediaContentModerationAccepted =>
                (PendingAppNotificationType::MediaContentModerationAccepted, None),
            Self::MediaContentModerationRejected =>
                (PendingAppNotificationType::MediaContentModerationRejected, None),
            Self::MediaContentModerationDeleted =>
                (PendingAppNotificationType::MediaContentModerationDeleted, None),
            Self::ProfileNameModerationAccepted =>
                (PendingAppNotificationType::ProfileNameModerationAccepted, None),
            Self::ProfileNameModerationRejected =>
                (PendingAppNotificationType::ProfileNameModerationRejected, None),
            Self::ProfileTextModerationAccepted =>
                (PendingAppNotificationType::ProfileTextModerationAccepted, None),
            Self::ProfileTextModerationRejected =>
                (PendingAppNotificationType::ProfileTextModerationRejected, None),
            Self::AutomaticProfileSearchCompleted { profile_count } =>
                (PendingAppNotificationType::AutomaticProfileSearchCompleted, Some(profile_count)),
        }
    }

    /// Each notification is stored under its documented type number, with
    /// the admin notification bits, the unread news count, the new received
    /// likes count or the found profile count as its number, and no number
    /// for the moderation results.
    pub proof fn lemma_db_value_numbers(self)
        ensures
            self matches Self::AdminNotification { bitflags } ==> self.spec_db_values().0.spec_to_i16() == 0
                && self.spec_db_values().1 == Some(bitflags.spec_bits()),
            self matches Self::NewsChanged { unread_news_count } ==> self.spec_db_values().0.spec_to_i16() == 20
                && self.spec_db_values().1 == Some(unread_news_count),
            self matches Self::ProfileNameModerationAccepted ==> self.spec_db_values().0.spec_to_i16() == 40
                && self.spec_db_values().1 is None,
            self matches Self::ProfileNameModerationRejected ==> self.spec_db_values().0.spec_to_i16() == 41
                && self.spec_db_values().1 is None,
            self matches Self::ProfileTextModerationAccepted ==> self.spec_db_values().0.spec_to_i16() == 42
                && self.spec_db_values().1 is None,
            self matches Self::ProfileTextModerationRejected ==> self.spec_db_values().0.spec_to_i16() == 43
                && self.spec_db_values().1 is None,
            self matches Self::AutomaticProfileSearchCompleted { profile_count } ==> self.spec_db_values().0.spec_to_i16()
                == 44 && self.spec_db_values().1 == Some(profile_count),
            self matches Self::MediaContentModerationAccepted ==> self.spec_db_values().0.spec_to_i16() == 60
                && self.spec_db_values().1 is None,
            self matches Self::MediaContentModerationRejected ==> self.spec_db_values().0.spec_to_i16() == 61
                && self.spec_db_values().1 is None,
            self matches Self::MediaContentModerationDeleted ==> self.spec_db_values().0.spec_to_i16() == 62
                && self.spec_db_values().1 is None,
            self matches Self::ReceivedLikesChanged { new_received_likes_count } ==> self.spec_db_values().0.spec_to_i16()
                == 80 && self.spec_db_values().1 == Some(new_received_likes_count),
    {
    }

    pub fn into_db_values(self) -> (r: (PendingAppNotificationType, Option<i64>))
        ensures
            r == self.spec_db_values(),
    {
        match self {
            Self::AdminNotification { bitflags } => (
                PendingAppNotificationType::AdminNotification,
                Some(bitflags.bits()),
            ),
            Self::NewsChanged { unread_news_count } => (
                PendingAppNotificationType::NewsChanged,
                Some(unread_news_count),
            ),
            Self::ReceivedLikesChanged { new_received_likes_count } => (
                PendingAppNotificationType::ReceivedLikesChanged,
                Some(new_received_likes_count),
            ),
            Self::MediaContentModerationAccepted => (
                PendingAppNotificationType::MediaContentModerationAccepted,
                None,
            ),
            Self::MediaContentModerationRejected => (
                PendingAppNotificationType::MediaContentModerationRejected,
                None,
            ),
            Self::MediaContentModerationDeleted => (
                PendingAppNotificationType::MediaContentModerationDeleted,
                None,
            ),
            Self::ProfileNameModerationAccepted => (
                PendingAppNotificationType::ProfileNameModerationAccepted,
                None,
            ),
            Self::ProfileNameModerationRejected => (
                PendingAppNotificationType::ProfileNameModerationRejected,
                None,
            ),
            Self::ProfileTextModerationAccepted => (
                PendingAppNotificationType::ProfileTextModerationAccepted,
                None,
            ),
            Self::ProfileTextModerationRejected => (
                PendingAppNotificationType::ProfileTextModerationRejected,
                None,
            ),
            Self::AutomaticProfileSearchCompleted { profile_count } => (
                PendingAppNotificationType::AutomaticProfileSearchCompleted,
                Some(profile_count),
            ),
        }
    }
}

/// Different notifications are stored as different database values.
pub proof fn lemma_db_values_injective(a: PendingAppNotificationInternal, b: PendingAppNotificationInternal)
    ensures
        a.spec_db_values() == b.spec_db_values() ==> a == b,
{
    if let PendingAppNotificationInternal::AdminNotification { bitflags: x } = a {
        if let PendingAppNotificationInternal::AdminNotification { bitflags: y } = b {
            AdminNotificationBitflags::lemma_bits_injective(x, y);
        }
    }
}

/// Type numbers of different notification types differ.
pub proof fn lemma_type_number_injective(a: PendingAppNotificationType, b: PendingAppNotificationType)
    ensures
        a.spec_to_i16() == b.spec_to_i16() ==> a == b,
{
}

/// A pending notification that the client wants deleted.
#[derive(Debug, Clone, Copy, PartialEq, Eq, Structural)]
pub struct PendingAppNotificationToDelete {
    pub notification_type: PendingAppNotificationType,
    pub data_integer: Option<i64>,
}

/// A pending notification as shown to the client.
#[derive(Debug, Clone, Copy, PartialEq, Eq, Structural)]
pub struct PendingAppNotification {
    pub notification_type: PendingAppNotificationType,
    pub push_notification_sent: bool,
    pub data_integer: Option<i64>,
}

/// A pending notification row in the database.
#[derive(Debug, Clone, Copy, PartialEq, Eq, Structural)]
pub struct PendingAppNotificationDb {
    pub notification_type: PendingAppNotificationType,
    pub push_notification_sent: bool,
    pub email_notification_sent: bool,
    pub created_unix_time: UnixTime,
    pub data_integer: Option<i64>,
}

} // verus!
