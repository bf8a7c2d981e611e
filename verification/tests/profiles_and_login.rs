use model::backend::{UnixTime, UuidBase64Url};
use model::client_features::{
    AccountVerificationPlatforms, AttributionConfigInternal, ClientFeaturesConfigInternal,
    DynamicClientFeaturesConfigHash, StringResourceInternal,
};
use model::client::WebSocketClientTypeNumber;
use model::common::AccountId;
use model::ip_address::IpAddressInternal;
use model::login::{AccessToken, AccessTokenType, AccessTokenUnixTime, LoginSession, RefreshToken};
use model::profile::{LastSeenTime, ProfileAge};
use model::search::{SelectedWeekdays, Weekday, WeekdayFlags};
use model::search_group::{
    LastSeenTimeFilter, ProfileSearchAgeRange, ProfileSearchAgeRangeValidated, SearchGroupFlags,
    SearchGroups, ValidatedSearchGroups,
};

#[test]
fn search_groups_validation() {
    let mut g = SearchGroups::default();
    assert_eq!(ValidatedSearchGroups::try_from_search_groups(g), Err("Gender not set"));
    g.man_for_woman = true;
    assert_eq!(
        ValidatedSearchGroups::try_from_search_groups(g),
        Ok(ValidatedSearchGroups::ManFor { woman: true, man: false, non_binary: false })
    );
    g.woman_for_man = true;
    assert_eq!(ValidatedSearchGroups::try_from_search_groups(g), Err("Unambiguous gender"));
}

#[test]
fn search_group_flags_and_filter() {
    let man_for_woman = SearchGroupFlags::from_validated(ValidatedSearchGroups::ManFor {
        woman: true,
        man: false,
        non_binary: false,
    });
    assert_eq!(man_for_woman.bits(), 0x1);
    assert!(man_for_woman.is_man() && !man_for_woman.is_woman());
    let woman_for_man = SearchGroupFlags::from_validated(ValidatedSearchGroups::WomanFor {
        man: true,
        woman: false,
        non_binary: false,
    });
    assert_eq!(woman_for_man.bits(), 0x8);
    assert!(man_for_woman.to_filter().is_match(woman_for_man));
    assert!(woman_for_man.to_filter().is_match(man_for_woman));
    assert!(!man_for_woman.to_filter().is_match(man_for_woman));
    assert_eq!(SearchGroupFlags::try_from_i64(0x200).map(|f| f.bits()), Err("Unknown bitflag".to_string()));
    assert_eq!(
        SearchGroupFlags::try_from_i64(-1).map(|f| f.bits()),
        Err("out of range integral type conversion attempted".to_string())
    );
    assert_eq!(SearchGroupFlags::try_from_i64(0x100).map(|f| f.into_i64()), Ok(0x100));
    assert!(SearchGroupFlags::try_from_i64(0x100).unwrap().to_search_groups().non_binary_for_non_binary);
}

#[test]
fn age_range_and_last_seen_filter() {
    let r = ProfileSearchAgeRangeValidated::new(ProfileAge::new_clamped(40), ProfileAge::new_clamped(20));
    assert_eq!(r.min().value(), 20);
    assert_eq!(r.max().value(), 40);
    assert!(r.is_match(ProfileAge::new_clamped(30)));
    assert!(!r.is_match(ProfileAge::new_clamped(41)));
    assert_eq!(
        ProfileSearchAgeRangeValidated::try_from_range(ProfileSearchAgeRange { min: 30, max: 20 }).map(|_| ()),
        Err("Min value must be less than or equal to max value".to_string())
    );
    assert_eq!(
        ProfileSearchAgeRangeValidated::try_from_range(ProfileSearchAgeRange { min: 10, max: 20 }).map(|_| ()),
        Err("Profile age must be in range [18, 99]".to_string())
    );
    let now = UnixTime::new(1000);
    assert!(LastSeenTimeFilter::new(-1).is_match(LastSeenTime::new(-1), &now));
    assert!(!LastSeenTimeFilter::new(-1).is_match(LastSeenTime::new(999), &now));
    assert!(LastSeenTimeFilter::new(10).is_match(LastSeenTime::new(990), &now));
    assert!(!LastSeenTimeFilter::new(10).is_match(LastSeenTime::new(989), &now));
    assert!(!LastSeenTimeFilter::new(10).is_match(LastSeenTime::new(1001), &now));
    assert!(LastSeenTimeFilter::new(10).is_match(LastSeenTime::new(-1), &now));
    assert!(LastSeenTimeFilter::new(0).is_match(LastSeenTime::new(-1), &now));
    assert_eq!(LastSeenTime::new(5).last_seen_unix_time().map(|t| t.ut.ut), Some(5));
    assert!(LastSeenTime::new(-1).last_seen_unix_time().is_none());
}

#[test]
fn weekdays() {
    assert_eq!(SelectedWeekdays::all().0, 0x7f);
    assert_eq!(WeekdayFlags::from_weekday(Weekday::Sun).bits(), 0x40);
    assert!(WeekdayFlags::all().contains(WeekdayFlags::from_weekday(Weekday::Wed)));
    assert_eq!(WeekdayFlags::from_bits_truncate(0x7ff).bits(), 0x7f);
}

fn session(time: i64) -> LoginSession {
    LoginSession {
        access_token: AccessToken::new("a".to_string()),
        access_token_unix_time: AccessTokenUnixTime { ut: UnixTime::new(time) },
        access_token_previous: None,
        access_token_ip_address: IpAddressInternal::V4([127, 0, 0, 1]),
        access_token_ip_address_previous: Some(IpAddressInternal::V6([1; 16])),
        refresh_token: RefreshToken::from_bytes(&[1, 2, 3]),
    }
}

#[test]
fn login_session_validity() {
    let s = session(0);
    let day = 86400;
    assert!(s.is_valid_at(IpAddressInternal::V4([127, 0, 0, 1]), AccessTokenType::Current, true, UnixTime::new(7 * day - 1)));
    assert!(!s.is_valid_at(IpAddressInternal::V4([127, 0, 0, 1]), AccessTokenType::Current, true, UnixTime::new(7 * day)));
    assert!(s.is_valid_at(IpAddressInternal::V6([1; 16]), AccessTokenType::Current, false, UnixTime::new(13 * day)));
    assert!(!s.is_valid_at(IpAddressInternal::V4([127, 0, 0, 2]), AccessTokenType::Current, false, UnixTime::new(0)));
    assert!(!s.is_access_token_valid_at(AccessTokenType::Previous, false, UnixTime::new(0)));
    let mut with_previous = session(0);
    with_previous.access_token_previous = Some(AccessToken::new("b".to_string()));
    assert!(with_previous.is_access_token_valid_at(AccessTokenType::Previous, false, UnixTime::new(59)));
    assert!(!with_previous.is_access_token_valid_at(AccessTokenType::Previous, false, UnixTime::new(60)));
    assert!(!s.is_valid(IpAddressInternal::V4([127, 0, 0, 2]), AccessTokenType::Current, false));
}

#[test]
fn ip_addresses() {
    assert_eq!(IpAddressInternal::try_from_bytes(&[1, 2, 3, 4]).map(|a| a.as_ref().to_vec()), Ok(vec![1, 2, 3, 4]));
    assert!(matches!(IpAddressInternal::try_from_bytes(&[0; 16]), Ok(IpAddressInternal::V6(_))));
    assert_eq!(
        IpAddressInternal::try_from_bytes(&[1, 2, 3]).map(|_| ()),
        Err(<[u8; 16]>::try_from(&[1u8, 2, 3][..]).unwrap_err().to_string())
    );
    assert!(IpAddressInternal::V4([1, 2, 3, 4]).is_same_address(&IpAddressInternal::V4([1, 2, 3, 4])));
    assert!(!IpAddressInternal::V4([1, 2, 3, 4]).is_same_address(&IpAddressInternal::V4([1, 2, 3, 5])));
}

#[test]
fn uuid_text() {
    let u = UuidBase64Url::from_bytes([0; 16]);
    assert_eq!(u.to_text(), "AAAAAAAAAAAAAAAAAAAAAA");
    let v = UuidBase64Url::from_bytes([255; 16]);
    assert_eq!(UuidBase64Url::from_text(&v.to_text()), Ok(v));
    assert!(UuidBase64Url::from_text("AAAA").is_err());
    let id = AccountId::try_from_text("AAAAAAAAAAAAAAAAAAAAAA".to_string()).unwrap();
    assert_eq!(id, AccountId::for_debugging_only_zero());
    assert_eq!(u.as_bytes(), [0; 16]);
}

#[test]
fn client_features_checks() {
    let hash = DynamicClientFeaturesConfigHash::from_json_string("");
    assert_eq!(hash.hash(), "e3b0c44298fc1c149afbf4c8996fb92427ae41e4649b934ca495991b7852b855");
    let resource = StringResourceInternal {
        default: "hello world".to_string(),
        translations: vec![("fi".to_string(), "hei world".to_string())],
    };
    assert_eq!(resource.values(), vec!["hello world", "hei world"]);
    assert!(resource.all_strings_contain("world"));
    assert!(!resource.all_strings_contain("hello"));
    assert!(resource.all_strings_contain(""));

    let mut config = ClientFeaturesConfigInternal::default();
    config.profile.profile_name_regex = Some("^[a-z]+$".to_string());
    assert!(config.clone().to_client_features_config().is_ok());
    config.profile.profile_name_regex = Some("[a-z]+$".to_string());
    assert_eq!(
        config.clone().to_client_features_config().map(|_| ()),
        Err("Profile name regex does not start with '^'".to_string())
    );
    config.profile.profile_name_regex = Some("^[a-z]+".to_string());
    assert_eq!(
        config.clone().to_client_features_config().map(|_| ()),
        Err("Profile name regex does not end with '$'".to_string())
    );
    config.profile.profile_name_regex = Some("^[a-z$".to_string());
    assert!(config.clone().to_client_features_config().is_err());
    config.profile.profile_name_regex = None;
    config.attribution = AttributionConfigInternal {
        generic: None,
        ip_country: None,
        other: vec!["unknown".to_string()],
    };
    assert_eq!(
        config.to_client_features_config().map(|_| ()),
        Err("Client features config file error. Unknown attribution string resource 'unknown'.".to_string())
    );

    let p = AccountVerificationPlatforms { android: true, ios: false, web: true };
    assert!(p.is_enabled_for(WebSocketClientTypeNumber::Android));
    assert!(!p.is_enabled_for(WebSocketClientTypeNumber::Ios));
    assert!(!p.is_enabled_for(WebSocketClientTypeNumber::Bot));
}

#[test]
fn account_id_text_round_trip() {
    let id = model::common::AccountId::new_base_64_url(model::backend::UuidBase64Url::from_bytes([7u8; 16]));
    let text = id.to_string();
    assert_eq!(text, "BwcHBwcHBwcHBwcHBwcHBw");
    let back = model::common::AccountId::try_from_text(text).unwrap();
    assert_eq!(back, id);
}

#[test]
fn random_ids_are_version_4_uuids() {
    let ids = [
        AccountId::new_random().aid.as_bytes(),
        model::media::ContentId::new_random().cid.as_bytes(),
        model::media::ProfileContentVersion::new_random().as_ref().as_bytes(),
        model::profile::ProfileVersion::new_random().as_ref().as_bytes(),
    ];
    for b in ids {
        assert_eq!(b[6] & 0xf0, 0x40);
        assert_eq!(b[8] & 0xc0, 0x80);
    }
}
