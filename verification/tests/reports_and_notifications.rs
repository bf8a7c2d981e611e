use model::admin_notification::AdminNotificationBitflags;
use model::common::NotificationEvent;
use model::interaction::ConversationId;
use model::media::{ContentId, ContentProcessingStateInternal, ContentProcessingStateType};
use model::backend::UuidBase64Url;
use model::notification::{PendingAppNotificationInternal, PendingAppNotificationType};
use model::push_notifications::{
    NotificationId, NotificationIdViewed, NotificationStatus, PushNotification, PushNotificationFlags,
    PushNotificationId,
};
use model::report::{
    CustomReportTypeValue, ReportProcessingState, ReportTypeInternal, UpdateReportResult,
};

#[test]
fn report_type_db_values() {
    assert_eq!(ReportTypeInternal::ProfileContent.db_value(), 2);
    let custom = CustomReportTypeValue::new(100).unwrap().to_report_type_internal();
    assert_eq!(custom.db_value(), 100);
    assert_eq!(ReportTypeInternal::try_from(100i16), Ok(custom));
    assert_eq!(ReportTypeInternal::try_from(3i16), Ok(ReportTypeInternal::ChatMessage));
    assert_eq!(
        ReportTypeInternal::try_from(10i16),
        Err("Unknown report type number value 10".to_string())
    );
    assert_eq!(
        ReportTypeInternal::try_from(1000i16),
        Err("out of range integral type conversion attempted".to_string())
    );
    assert_eq!(
        CustomReportTypeValue::new(63).map(|_| ()),
        Err("Invalid custom report type number value 63, min: 64, max: 127".to_string())
    );
}

#[test]
fn report_states_and_results() {
    assert_eq!(ReportProcessingState::processed_states().len(), 4);
    assert_eq!(
        ReportProcessingState::rejected_states(),
        [ReportProcessingState::RejectedByAdminBot, ReportProcessingState::RejectedByAdmin]
    );
    assert_eq!(ReportProcessingState::try_from_i16(2), Ok(ReportProcessingState::AcceptedByAdmin));
    assert!(UpdateReportResult::success().is_success());
    assert!(!UpdateReportResult::too_many_reports().is_success());
    assert!(!UpdateReportResult::outdated_report_content().is_success());
}

#[test]
fn pending_notification_db_values() {
    let flags = AdminNotificationBitflags::from_bits_truncate(5);
    assert_eq!(
        PendingAppNotificationInternal::AdminNotification { bitflags: flags }.into_db_values(),
        (PendingAppNotificationType::AdminNotification, Some(5))
    );
    assert_eq!(
        PendingAppNotificationInternal::NewsChanged { unread_news_count: 3 }.into_db_values(),
        (PendingAppNotificationType::NewsChanged, Some(3))
    );
    assert_eq!(
        PendingAppNotificationInternal::MediaContentModerationDeleted.into_db_values(),
        (PendingAppNotificationType::MediaContentModerationDeleted, None)
    );
    assert_eq!(PendingAppNotificationType::try_from_i16(44), Ok(PendingAppNotificationType::AutomaticProfileSearchCompleted));
    assert_eq!(PendingAppNotificationType::ReceivedLikesChanged.to_i16(), 80);
    assert!(PendingAppNotificationType::try_from_i16(45).is_err());
}

#[test]
fn push_notifications() {
    let n = PushNotification::new(PushNotificationId::LikeReceived, "Like".to_string());
    assert!(n.is_visible());
    assert_eq!(n.id(), "50");
    assert_eq!(n.title(), Some("Like"));
    assert_eq!(n.body(), None);
    assert_eq!(n.channel(), Some("likes"));
    let m = PushNotification::new_message(ConversationId::new(7), "Message".to_string());
    assert_eq!(m.id(), "1007");
    assert_eq!(m.channel(), Some("messages"));
    let r = PushNotification::remove_notification(PushNotificationId::ProfileTextModerationRejected);
    assert!(!r.is_visible());
    assert_eq!(r.id(), "33");
    assert_eq!(r.channel(), Some("profile_string_moderation_completed"));
    let b = PushNotification::new_with_body(PushNotificationId::AdminNotification, "T".to_string(), "B".to_string());
    assert_eq!(b.body(), Some("B"));
    assert_eq!(b.channel(), Some("news_item_available"));
    assert_eq!(PushNotificationId::FirstNewMessageNotificationId.to_channel_id(), None);
}

#[test]
fn push_notification_flags_and_ids() {
    assert_eq!(PushNotificationFlags::from_event(NotificationEvent::AdminNotification).bits(), 0x40);
    assert_eq!(PushNotificationFlags::from_bits_truncate(0x1ff).bits(), 0x7f);
    assert_eq!(NotificationId { id: 127 }.wrapping_increment().id, -128);
    assert_eq!(NotificationId { id: 5 }.wrapping_increment().id, 6);
    assert_eq!(NotificationId::try_from_i16(200), Err("out of range integral type conversion attempted".to_string()));
    let status = NotificationStatus { id: NotificationId { id: 3 }, viewed: NotificationIdViewed { id: 3 } };
    assert!(status.notification_viewed());
}

#[test]
fn content_processing_state_to_external() {
    let cid = ContentId { cid: UuidBase64Url::from_bytes([4; 16]) };
    let e = ContentProcessingStateInternal::Completed { content_id: cid, face_detected: false }.to_external();
    assert_eq!(e.state, ContentProcessingStateType::Completed);
    assert_eq!(e.cid, Some(cid));
    assert_eq!(e.fd, Some(false));
    assert_eq!(e.wait_queue_position, None);
    let q = ContentProcessingStateInternal::InQueue { wait_queue_position: 1 }.to_external();
    assert_eq!(q.state, ContentProcessingStateType::InQueue);
    assert_eq!(q.wait_queue_position, Some(1));
    assert_eq!(q.cid, None);
}
