use model::admin_notification::AdminBotNotificationTypes;
use model::backend::{ScheduledMaintenanceStatus, UnixTime, UuidBase64Url};
use model::common::{
    AccountId, ContentProcessingStateChanged, EventToClientInternal, ResponseNextProfilePageStatus,
    ResponseResetProfilePagingStatus,
};
use model::media::{ContentId, ContentProcessingStateInternal, ProfileContentVersion};
use model::profile::{LastSeenTime, OnlineStatusUpdate, ProfileLink, ProfileVersion};
use model::websocket::create_server_binary_message;
use model::websocket_parser::parse_server_binary_message;

fn test_uuid(value: u8) -> UuidBase64Url {
    UuidBase64Url::from_bytes([value; 16])
}

fn test_account_id(value: u8) -> AccountId {
    AccountId::new_base_64_url(test_uuid(value))
}

fn test_profile_version(value: u8) -> ProfileVersion {
    ProfileVersion::new_base_64_url(test_uuid(value))
}

fn test_profile_content_version(value: u8) -> ProfileContentVersion {
    ProfileContentVersion::new_base_64_url(test_uuid(value))
}

#[test]
fn roundtrip_pending_app_notifications_changed_message() {
    let message = create_server_binary_message(&EventToClientInternal::PendingAppNotificationsChanged);
    let parsed = parse_server_binary_message(&message)
        .expect("parsing message without payload should succeed");

    assert!(matches!(parsed, EventToClientInternal::PendingAppNotificationsChanged));
}

#[test]
fn roundtrip_client_config_changed_message() {
    let message = create_server_binary_message(&EventToClientInternal::ClientConfigChanged);
    let parsed = parse_server_binary_message(&message)
        .expect("parsing message without payload should succeed");

    assert!(matches!(parsed, EventToClientInternal::ClientConfigChanged));
}

#[test]
fn roundtrip_news_changed_message() {
    let message = create_server_binary_message(&EventToClientInternal::NewsChanged);
    let parsed = parse_server_binary_message(&message)
        .expect("parsing message without payload should succeed");

    assert!(matches!(parsed, EventToClientInternal::NewsChanged));
}

#[test]
fn roundtrip_push_notification_info_changed_message() {
    let message = create_server_binary_message(&EventToClientInternal::PushNotificationInfoChanged);
    let parsed = parse_server_binary_message(&message)
        .expect("parsing message without payload should succeed");

    assert!(matches!(parsed, EventToClientInternal::PushNotificationInfoChanged));
}

#[test]
fn roundtrip_account_state_changed_message() {
    let message = create_server_binary_message(&EventToClientInternal::AccountStateChanged);
    let parsed = parse_server_binary_message(&message)
        .expect("parsing message without payload should succeed");

    assert!(matches!(parsed, EventToClientInternal::AccountStateChanged));
}

#[test]
fn roundtrip_profile_changed_message() {
    let message = create_server_binary_message(&EventToClientInternal::ProfileChanged);
    let parsed = parse_server_binary_message(&message)
        .expect("parsing message without payload should succeed");

    assert!(matches!(parsed, EventToClientInternal::ProfileChanged));
}

#[test]
fn roundtrip_media_content_changed_message() {
    let message = create_server_binary_message(&EventToClientInternal::MediaContentChanged);
    let parsed = parse_server_binary_message(&message)
        .expect("parsing message without payload should succeed");

    assert!(matches!(parsed, EventToClientInternal::MediaContentChanged));
}

#[test]
fn roundtrip_new_message_received_message() {
    let message = create_server_binary_message(&EventToClientInternal::NewMessageReceived);
    let parsed = parse_server_binary_message(&message)
        .expect("parsing message without payload should succeed");

    assert!(matches!(parsed, EventToClientInternal::NewMessageReceived));
}

#[test]
fn roundtrip_pending_chat_notifications_changed_message() {
    let message = create_server_binary_message(&EventToClientInternal::PendingChatNotificationsChanged);
    let parsed = parse_server_binary_message(&message)
        .expect("parsing message without payload should succeed");

    assert!(matches!(parsed, EventToClientInternal::PendingChatNotificationsChanged));
}

#[test]
fn roundtrip_received_likes_changed_message() {
    let message = create_server_binary_message(&EventToClientInternal::ReceivedLikesChanged);
    let parsed = parse_server_binary_message(&message)
        .expect("parsing message without payload should succeed");

    assert!(matches!(parsed, EventToClientInternal::ReceivedLikesChanged));
}

#[test]
fn roundtrip_daily_likes_left_changed_message() {
    let message = create_server_binary_message(&EventToClientInternal::DailyLikesLeftChanged);
    let parsed = parse_server_binary_message(&message)
        .expect("parsing message without payload should succeed");

    assert!(matches!(parsed, EventToClientInternal::DailyLikesLeftChanged));
}

#[test]
fn roundtrip_message_delivery_info_changed_message() {
    let message = create_server_binary_message(&EventToClientInternal::MessageDeliveryInfoChanged);
    let parsed = parse_server_binary_message(&message)
        .expect("parsing message without payload should succeed");

    assert!(matches!(parsed, EventToClientInternal::MessageDeliveryInfoChanged));
}

#[test]
fn roundtrip_latest_seen_message_changed_message() {
    let message = create_server_binary_message(&EventToClientInternal::LatestSeenMessageChanged);
    let parsed = parse_server_binary_message(&message)
        .expect("parsing message without payload should succeed");

    assert!(matches!(parsed, EventToClientInternal::LatestSeenMessageChanged));
}

#[test]
fn roundtrip_websocket_connection_attempts_remaining_message() {
    let remaining = 50;
    let message = create_server_binary_message(
        &EventToClientInternal::WebSocketConnectionAttemptsRemaining { remaining },
    );
    let parsed = parse_server_binary_message(&message)
        .expect("websocket connection attempts remaining should parse");

    match parsed {
        EventToClientInternal::WebSocketConnectionAttemptsRemaining {
            remaining: parsed_remaining,
        } => {
            assert_eq!(parsed_remaining, remaining);
        }
        _ => panic!("unexpected event parsed"),
    }
}

#[test]
fn roundtrip_scheduled_maintenance_status_message() {
    let mut status = ScheduledMaintenanceStatus::default();
    status.set_admin_bot_offline(true);
    status.set_maintenance_time(Some(UnixTime::new(1234)), Some(UnixTime::new(5678)));

    let message = create_server_binary_message(
        &EventToClientInternal::ScheduledMaintenanceStatus(status.clone()),
    );
    let parsed =
        parse_server_binary_message(&message).expect("scheduled maintenance should parse");

    match parsed {
        EventToClientInternal::ScheduledMaintenanceStatus(parsed_status) => {
            assert_eq!(
                parsed_status.admin_bot_offline(),
                status.admin_bot_offline()
            );
            assert_eq!(parsed_status.start(), status.start());
            assert_eq!(parsed_status.end(), status.end());
        }
        _ => panic!("unexpected event parsed"),
    }
}

#[test]
fn roundtrip_admin_bot_notification_message() {
    let value = AdminBotNotificationTypes::from_bits_truncate(
        AdminBotNotificationTypes::MODERATE_INITIAL_MEDIA_CONTENT_BOT
            | AdminBotNotificationTypes::MODERATE_PROFILE_TEXTS_BOT,
    );

    let message =
        create_server_binary_message(&EventToClientInternal::AdminBotNotification(value));
    let parsed =
        parse_server_binary_message(&message).expect("admin bot notification should parse");

    match parsed {
        EventToClientInternal::AdminBotNotification(parsed_value) => {
            assert_eq!(parsed_value.bits(), value.bits());
        }
        _ => panic!("unexpected event parsed"),
    }
}

#[test]
fn roundtrip_response_next_profile_page_message() {
    let profiles = vec![
        ProfileLink::new(
            test_account_id(1),
            test_profile_version(2),
            test_profile_content_version(3),
            Some(LastSeenTime::new(-1)),
        ),
        ProfileLink::new(
            test_account_id(4),
            test_profile_version(5),
            test_profile_content_version(6),
            None,
        ),
    ];
    let request_id = 7;
    let status = ResponseNextProfilePageStatus::Success;

    let message =
        create_server_binary_message(&EventToClientInternal::ResponseNextProfilePage {
            request_id,
            status,
            profiles: profiles.clone(),
        });
    let parsed = parse_server_binary_message(&message).expect("next profile page should parse");

    match parsed {
        EventToClientInternal::ResponseNextProfilePage {
            request_id: parsed_request_id,
            status: parsed_status,
            profiles: parsed_profiles,
        } => {
            assert_eq!(parsed_request_id, request_id);
            assert_eq!(parsed_status, status);
            assert_eq!(parsed_profiles, profiles);
        }
        _ => panic!("unexpected event parsed"),
    }
}

#[test]
fn roundtrip_response_reset_profile_paging_message() {
    let request_id = 9;
    let status = ResponseResetProfilePagingStatus::Success;
    let iterator_session_id = Some(42);

    let message =
        create_server_binary_message(&EventToClientInternal::ResponseResetProfilePaging {
            request_id,
            status,
            iterator_session_id,
        });
    let parsed =
        parse_server_binary_message(&message).expect("reset profile paging should parse");

    match parsed {
        EventToClientInternal::ResponseResetProfilePaging {
            request_id: parsed_request_id,
            status: parsed_status,
            iterator_session_id: parsed_iterator_session_id,
        } => {
            assert_eq!(parsed_request_id, request_id);
            assert_eq!(parsed_status, status);
            assert_eq!(parsed_iterator_session_id, iterator_session_id);
        }
        _ => panic!("unexpected event parsed"),
    }
}

#[test]
fn roundtrip_response_reset_profile_paging_rate_limited_message() {
    let request_id = 10;
    let status = ResponseResetProfilePagingStatus::RateLimited;
    let iterator_session_id = None;

    let message =
        create_server_binary_message(&EventToClientInternal::ResponseResetProfilePaging {
            request_id,
            status,
            iterator_session_id,
        });
    let parsed = parse_server_binary_message(&message)
        .expect("rate limited reset profile paging should parse");

    match parsed {
        EventToClientInternal::ResponseResetProfilePaging {
            request_id: parsed_request_id,
            status: parsed_status,
            iterator_session_id: parsed_iterator_session_id,
        } => {
            assert_eq!(parsed_request_id, request_id);
            assert_eq!(parsed_status, status);
            assert_eq!(parsed_iterator_session_id, iterator_session_id);
        }
        _ => panic!("unexpected event parsed"),
    }
}

#[test]
fn roundtrip_response_automatic_profile_search_reset_profile_paging_message() {
    let request_id = 11;
    let status = ResponseResetProfilePagingStatus::Success;
    let iterator_session_id = Some(55);

    let message = create_server_binary_message(
        &EventToClientInternal::ResponseAutomaticProfileSearchResetProfilePaging {
            request_id,
            status,
            iterator_session_id,
        },
    );
    let parsed = parse_server_binary_message(&message)
        .expect("automatic profile search reset profile paging should parse");

    match parsed {
        EventToClientInternal::ResponseAutomaticProfileSearchResetProfilePaging {
            request_id: parsed_request_id,
            status: parsed_status,
            iterator_session_id: parsed_iterator_session_id,
        } => {
            assert_eq!(parsed_request_id, request_id);
            assert_eq!(parsed_status, status);
            assert_eq!(parsed_iterator_session_id, iterator_session_id);
        }
        _ => panic!("unexpected event parsed"),
    }
}

#[test]
fn roundtrip_response_automatic_profile_search_next_profile_page_message() {
    let profiles = vec![
        ProfileLink::new(
            test_account_id(14),
            test_profile_version(15),
            test_profile_content_version(16),
            Some(LastSeenTime::new(123)),
        ),
        ProfileLink::new(
            test_account_id(17),
            test_profile_version(18),
            test_profile_content_version(19),
            None,
        ),
    ];
    let request_id = 12;
    let status = ResponseNextProfilePageStatus::Success;

    let message = create_server_binary_message(
        &EventToClientInternal::ResponseAutomaticProfileSearchNextProfilePage {
            request_id,
            status,
            profiles: profiles.clone(),
        },
    );
    let parsed = parse_server_binary_message(&message)
        .expect("automatic profile search next profile page should parse");

    match parsed {
        EventToClientInternal::ResponseAutomaticProfileSearchNextProfilePage {
            request_id: parsed_request_id,
            status: parsed_status,
            profiles: parsed_profiles,
        } => {
            assert_eq!(parsed_request_id, request_id);
            assert_eq!(parsed_status, status);
            assert_eq!(parsed_profiles, profiles);
        }
        _ => panic!("unexpected event parsed"),
    }
}

#[test]
fn roundtrip_content_processing_state_changed_message() {
    let expected = ContentProcessingStateChanged {
        id: 42,
        new_state: ContentProcessingStateInternal::Completed {
            content_id: ContentId { cid: test_uuid(9) },
            face_detected: true,
        },
    };

    let message = create_server_binary_message(
        &EventToClientInternal::ContentProcessingStateChanged(expected.clone()),
    );
    let parsed = parse_server_binary_message(&message)
        .expect("content processing state changed should parse");

    match parsed {
        EventToClientInternal::ContentProcessingStateChanged(parsed_value) => {
            assert_eq!(parsed_value.id, expected.id);
            assert_eq!(parsed_value.new_state, expected.new_state);
        }
        _ => panic!("unexpected event parsed"),
    }
}

#[test]
fn roundtrip_typing_start_message() {
    let account_id = test_account_id(10);

    let message = create_server_binary_message(&EventToClientInternal::TypingStart(account_id));
    let parsed = parse_server_binary_message(&message).expect("typing start should parse");

    match parsed {
        EventToClientInternal::TypingStart(parsed_account_id) => {
            assert_eq!(parsed_account_id, account_id);
        }
        _ => panic!("unexpected event parsed"),
    }
}

#[test]
fn roundtrip_typing_stop_message() {
    let account_id = test_account_id(11);

    let message = create_server_binary_message(&EventToClientInternal::TypingStop(account_id));
    let parsed = parse_server_binary_message(&message).expect("typing stop should parse");

    match parsed {
        EventToClientInternal::TypingStop(parsed_account_id) => {
            assert_eq!(parsed_account_id, account_id);
        }
        _ => panic!("unexpected event parsed"),
    }
}

#[test]
fn roundtrip_online_status_updated_message() {
    let expected = OnlineStatusUpdate {
        a: test_account_id(12),
        l: Some(LastSeenTime::new(123_456_789)),
    };

    let message = create_server_binary_message(&EventToClientInternal::OnlineStatusUpdated(
        expected.clone(),
    ));
    let parsed = parse_server_binary_message(&message)
        .expect("online status updated event should parse");

    match parsed {
        EventToClientInternal::OnlineStatusUpdated(parsed_value) => {
            assert_eq!(parsed_value.a, expected.a);
            assert_eq!(parsed_value.l, expected.l);
        }
        _ => panic!("unexpected event parsed"),
    }
}

#[test]
fn roundtrip_online_status_updated_without_last_seen_message() {
    let expected = OnlineStatusUpdate {
        a: test_account_id(13),
        l: None,
    };

    let message = create_server_binary_message(&EventToClientInternal::OnlineStatusUpdated(
        expected.clone(),
    ));
    let parsed = parse_server_binary_message(&message)
        .expect("online status updated event without last seen should parse");

    match parsed {
        EventToClientInternal::OnlineStatusUpdated(parsed_value) => {
            assert_eq!(parsed_value.a, expected.a);
            assert_eq!(parsed_value.l, expected.l);
        }
        _ => panic!("unexpected event parsed"),
    }
}

#[test]
fn empty_server_message_is_refused() {
    let r = parse_server_binary_message(&[]);
    assert_eq!(r.err(), Some("missing server message type byte".to_string()));
}

#[test]
fn unknown_server_message_type_is_refused() {
    let r = parse_server_binary_message(&[250, 1, 2]);
    assert_eq!(r.err(), Some("unsupported server message type 250".to_string()));
}

#[test]
fn trailing_payload_is_refused_with_the_message_type() {
    let r = parse_server_binary_message(&[0, 1]);
    assert_eq!(r.err(), Some("unexpected trailing payload for PendingAppNotificationsChanged".to_string()));
}

#[test]
fn missing_online_status_marker_names_the_message() {
    let mut message = vec![126u8];
    message.extend_from_slice(&[7u8; 16]);
    let r = parse_server_binary_message(&message);
    assert_eq!(r.err(), Some("missing check online status last seen marker payload".to_string()));
}
