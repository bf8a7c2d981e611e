use model::admin_notification::{
    AdminBotNotificationTypes, AdminNotification, AdminNotificationBitflags, AdminNotificationSettings,
    AdminNotificationTypes, DayTimestamp,
};

#[test]
fn admin_notification_enable_sets_one_field() {
    let mut n = AdminNotification::default();
    n.enable(AdminNotificationTypes::ProcessReports);
    n.enable(AdminNotificationTypes::ModerateMediaContentHuman);
    let mut expected = AdminNotification::default();
    expected.process_reports = true;
    expected.moderate_media_content_human = true;
    assert_eq!(n, expected);
}

#[test]
fn admin_notification_merge_and_union() {
    let mut a = AdminNotification::default();
    a.enable(AdminNotificationTypes::ModerateProfileNamesBot);
    a.enable(AdminNotificationTypes::ProcessReports);
    let mut b = AdminNotification::default();
    b.enable(AdminNotificationTypes::ProcessReports);
    b.enable(AdminNotificationTypes::ModerateInitialMediaContentBot);
    let merged = a.merge(&b);
    assert!(merged.moderate_profile_names_bot && merged.process_reports && merged.moderate_initial_media_content_bot);
    assert!(!merged.moderate_media_content_bot);
    let both = a.union(&b);
    assert!(both.process_reports);
    assert!(!both.moderate_profile_names_bot && !both.moderate_initial_media_content_bot);
}

#[test]
fn admin_notification_field_names() {
    assert_eq!(AdminNotification::default().field_names_of_true_values(), "");
    let mut n = AdminNotification::default();
    n.enable(AdminNotificationTypes::ModerateInitialMediaContentHuman);
    assert_eq!(n.field_names_of_true_values(), "moderate_initial_media_content_human");
    n.enable(AdminNotificationTypes::ProcessReports);
    n.enable(AdminNotificationTypes::ModerateProfileTextsBot);
    assert_eq!(
        n.field_names_of_true_values(),
        "moderate_initial_media_content_human\nmoderate_profile_texts_bot\nprocess_reports"
    );
}

#[test]
fn admin_notification_bitflags_roundtrip() {
    let mut n = AdminNotification::default();
    n.enable(AdminNotificationTypes::ModerateInitialMediaContentBot);
    n.enable(AdminNotificationTypes::ModerateProfileNamesHuman);
    n.enable(AdminNotificationTypes::ProcessReports);
    let flags = AdminNotificationBitflags::from(n);
    assert_eq!(flags.bits(), 1 | 128 | 256);
    assert_eq!(AdminNotification::from(flags), n);
    let extra = AdminNotificationBitflags::from_bits_truncate(0x1_0003);
    assert_eq!(extra.bits(), 0x1_0003);
    let back = AdminNotificationBitflags::from(extra.into_admin_notification());
    assert_eq!(back.bits(), 3);
}

#[test]
fn admin_bot_notification_types() {
    let a = AdminBotNotificationTypes::from_bits_truncate(0xff);
    assert_eq!(a.bits(), 0x7f);
    let b = AdminBotNotificationTypes::from_bits_truncate(AdminBotNotificationTypes::PROCESS_REPORTS);
    let c = AdminBotNotificationTypes::from_bits_truncate(AdminBotNotificationTypes::VERIFY_ACCOUNT_BOT);
    assert_eq!(b.merge(&c).bits(), 64 | 32);
    assert_eq!(
        AdminBotNotificationTypes::try_from(AdminNotificationTypes::ModerateProfileTextsBot).map(|v| v.bits()),
        Ok(4)
    );
    assert_eq!(
        AdminBotNotificationTypes::try_from(AdminNotificationTypes::ModerateProfileTextsHuman).map(|v| v.bits()),
        Err(())
    );
}

#[test]
fn day_timestamp_values() {
    assert_eq!(DayTimestamp::new_clamped(-5).value(), 0);
    assert_eq!(DayTimestamp::new_clamped(100_000).value(), 86399);
    assert_eq!(DayTimestamp::from_hours(2).value(), 7200);
    assert_eq!(DayTimestamp::from_hours(30).value(), 86399);
    let t = DayTimestamp::try_from(3 * 3600 + 25 * 60 + 7).unwrap();
    let time = t.to_utc_time_value();
    assert_eq!((time.0.hours, time.0.minutes), (3, 25));
    assert_eq!(DayTimestamp::try_from(86400), Err("DayTimestamp must be in range [0, 86399]".to_string()));
    assert_eq!(DayTimestamp::default().into_i32(), 0);
    let settings = AdminNotificationSettings::default();
    assert_eq!(settings.weekdays.0, 0x7f);
    assert_eq!(settings.daily_enabled_time_end_seconds.value(), 86399);
}
