use model::markers::IsLoggingAllowed;
use model::backend::{UnixTime, UuidBase64Url};
use model::chat::{
    MatchesIteratorSessionId, MatchesIteratorSessionIdInternal, NewReceivedLikesCount, NextNumberStorage,
    PendingNotificationFlags, PendingNotificationToken, PublicKeyData, ReceivedLikesIteratorSessionId,
    ReceivedLikesIteratorSessionIdInternal,
};
use model::client::{ClientMessageType, ClientType, ClientVersion, WebSocketClientTypeNumber};
use model::common::{AccountId, BotAccountType, NotificationEvent, OtherSharedState};
use model::ip_address::{
    GetIpCountryStatisticsResult, GetIpCountryStatisticsSettings, IpCountryCounters, IpCountryStatisticsType,
    IpInfo,
};
use model::media::{ContentId, ContentProcessingId, ContentSlot};
use model::profile_info::{ProfileAgesPage, ProfileTextModerationState, StatisticsGender};
use model::push_notifications::PushNotificationEncryptionKey;

#[test]
fn next_number_storage_wraps() {
    let mut s = NextNumberStorage::default();
    assert_eq!(s.get_and_increment(), 0);
    assert_eq!(s.get_and_increment(), 1);
    let id = ReceivedLikesIteratorSessionIdInternal::create(&mut s);
    let api = ReceivedLikesIteratorSessionId::from_internal(id);
    assert_eq!(ReceivedLikesIteratorSessionIdInternal::from_api(api), id);
    assert_eq!(s.get_and_increment(), 3);
}

#[test]
fn new_received_likes_count_limits() {
    assert_eq!(NewReceivedLikesCount::new(0).decrement().c, 0);
    assert_eq!(NewReceivedLikesCount::new(5).decrement().c, 4);
    assert_eq!(NewReceivedLikesCount::new(i64::MAX).increment().c, i64::MAX);
    assert_eq!(NewReceivedLikesCount::new(1).increment().c, 2);
}

#[test]
fn matches_session_id_is_hyphenated_uuid() {
    let a = MatchesIteratorSessionId::from_internal(MatchesIteratorSessionIdInternal::create_random());
    let text = a.as_str();
    assert_eq!(text.len(), 36);
    for (i, c) in text.chars().enumerate() {
        if i == 8 || i == 13 || i == 18 || i == 23 {
            assert_eq!(c, '-');
        } else {
            assert!(c.is_ascii_hexdigit() && !c.is_ascii_uppercase());
        }
    }
    assert_eq!(text.chars().nth(14), Some('4'));
}

#[test]
fn random_values_differ() {
    let a = UuidBase64Url::new_random_id();
    let b = UuidBase64Url::new_random_id();
    assert_ne!(a, b);
    assert_eq!(a.as_bytes()[6] & 0xf0, 0x40);
    assert_ne!(AccountId::new_random(), AccountId::new_random());
    assert_ne!(ContentId::new_random(), ContentId::new_random());
    let t = PendingNotificationToken::generate_new();
    assert_eq!(t.as_str().len(), 44);
    assert_ne!(t.as_str(), PendingNotificationToken::generate_new().as_str());
    let k = PushNotificationEncryptionKey::generate_new();
    assert_eq!(k.as_str().len(), 24);
    assert!(UnixTime::current_time().ut > 1_600_000_000);
    let info = IpInfo::new();
    assert_eq!(info.usage_count(), 1);
}

#[test]
fn ip_country_statistics() {
    let data = vec![
        ("fi".to_string(), IpCountryCounters { tcp_connections: 3, http_requests: 0 }),
        ("se".to_string(), IpCountryCounters { tcp_connections: 0, http_requests: 2 }),
        ("no".to_string(), IpCountryCounters { tcp_connections: 5, http_requests: 1 }),
    ];
    let settings = GetIpCountryStatisticsSettings {
        max_time: None,
        min_time: None,
        statistics_type: IpCountryStatisticsType::NewTcpConnections,
        data_from_ram: true,
    };
    let r = GetIpCountryStatisticsResult::new_from_ip_country_tracker_state(data, settings);
    assert_eq!(r.values.len(), 2);
    assert_eq!(r.values[0].country, "fi");
    assert_eq!(r.values[0].values[0].c, 3);
    assert_eq!(r.values[0].values[0].t, None);
    assert_eq!(r.values[1].country, "no");
    assert_eq!(r.values[1].values[0].c, 5);
}

#[test]
fn content_file_names() {
    let cid = ContentId { cid: UuidBase64Url::from_bytes([0; 16]) };
    assert_eq!(cid.content_file_name(), "AAAAAAAAAAAAAAAAAAAAAA");
    assert_eq!(cid.raw_content_file_name(), "AAAAAAAAAAAAAAAAAAAAAA.raw");
    assert!(cid.not_in(&[]));
    assert!(!cid.not_in(&[cid]));
    let p = ContentProcessingId::new(AccountId::for_debugging_only_zero(), ContentSlot::Content3, -12);
    assert_eq!(p.content_file_name(), "-12_3");
    assert_eq!(p.raw_content_file_name(), "-12_3.raw");
    assert_eq!(ContentSlot::try_from_i16(6), Ok(ContentSlot::Content6));
    assert!(ContentSlot::try_from_i16(7).is_err());
}

#[test]
fn enum_numbers() {
    assert_eq!(ClientMessageType::try_from_u8(122), Ok(ClientMessageType::CheckOnlineStatus));
    assert!(ClientMessageType::try_from_u8(3).is_err());
    assert_eq!(ClientMessageType::RequestGetNextProfilePage.to_u8(), 61);
    assert_eq!(ClientType::try_from_i64(2), Ok(ClientType::Web));
    assert_eq!(WebSocketClientTypeNumber::Bot.to_u8(), 3);
    assert_eq!(ClientVersion::bot_client_version(), ClientVersion { major: 0, minor: 0, patch: 0 });
    assert_eq!(BotAccountType::try_from_i16(1), Ok(BotAccountType::User));
    assert_eq!(ProfileTextModerationState::try_from_i64(4), Ok(ProfileTextModerationState::AcceptedByHuman));
    assert!(ProfileTextModerationState::AcceptedByBot.is_accepted());
    assert!(!ProfileTextModerationState::RejectedByBot.is_accepted());
    assert_eq!(PendingNotificationFlags::from_event(NotificationEvent::NewMessageReceived).bits(), 1);
    assert_eq!(PendingNotificationFlags::from_event(NotificationEvent::NewsChanged).bits(), 0);
}

#[test]
fn shared_state_and_statistics() {
    let mut s = OtherSharedState::default();
    assert!(!s.is_bot());
    s.set_bot_account_type_number(BotAccountType::Admin);
    assert_eq!(s.bot_account_type_number(), Some(BotAccountType::Admin));
    let mut page = ProfileAgesPage::empty(StatisticsGender::Woman);
    assert_eq!(page.profile_counts.len(), 82);
    page.increment_age(18);
    page.increment_age(99);
    page.increment_age(99);
    assert_eq!(page.profile_counts[0], 1);
    assert_eq!(page.profile_counts[81], 2);
    page.increment_age(100);
    assert_eq!(page.profile_counts.iter().sum::<i64>(), 3);
    let key = PublicKeyData::new("key".to_string());
    assert_eq!(key.as_str(), "key");
}

#[test]
fn logging_markers() {
    assert!(<model::common::AccountId as IsLoggingAllowed>::logging_allowed());
    assert!(<model::media::ContentSlot as IsLoggingAllowed>::logging_allowed());
    assert!(!<model::chat::MessageNumber as IsLoggingAllowed>::logging_allowed());
    assert!(!<i64 as IsLoggingAllowed>::logging_allowed());
    assert!(<(i64, i64) as IsLoggingAllowed>::logging_allowed());
}

#[test]
fn attribute_id_as_index() {
    assert_eq!(model::client::AttributeId::new(7).to_usize(), 7);
    assert_eq!(model::client::AttributeId::from_db_value(-1).to_usize(), usize::MAX);
    assert_eq!(model::client::AttributeId::from_db_value(-2).to_usize(), usize::MAX - 1);
}
