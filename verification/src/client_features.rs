//! Client features configuration: banners, string resources, feature
//! switches, verification platforms and the checks of the configuration
//! file.
use vstd::prelude::*;
use vstd::string::{StrSliceExecFns, StringSliceAdditionalSpecFns};

use crate::backend::UtcTimeValue;
use crate::client::WebSocketClientTypeNumber;
use crate::outside::{check_regex, regex_accepts, sha256, sha256_digest, hex_digit_lower};
use crate::text::text;

verus! {

/// Lower case hexadecimal text of `bytes`, two digits per byte.
pub open spec fn hex_lower_text(bytes: Seq<u8>) -> Seq<char>
    decreases bytes.len(),
{
    if bytes.len() == 0 {
        Seq::empty()
    } else {
        hex_lower_text(bytes.drop_last()) + seq![
            hex_digit_lower((bytes.last() / 16) as int),
            hex_digit_lower((bytes.last() % 16) as int),
        ]
    }
}

fn hex_digit_str(n: u8) -> (r: &'static str)
    requires
        n < 16,
    ensures
        r@ == seq![hex_digit_lower(n as int)],
{
    if n == 0 {
        proof { reveal_strlit("0"); }
        "0"
    } else if n == 1 {
        proof { reveal_strlit("1"); }
        "1"
    } else if n == 2 {
        proof { reveal_strlit("2"); }
        "2"
    } else if n == 3 {
        proof { reveal_strlit("3"); }
        "3"
    } else if n == 4 {
        proof { reveal_strlit("4"); }
        "4"
    } else if n == 5 {
        proof { reveal_strlit("5"); }
        "5"
    } else if n == 6 {
        proof { reveal_strlit("6"); }
        "6"
    } else if n == 7 {
        proof { reveal_strlit("7"); }
        "7"
    } else if n == 8 {
        proof { reveal_strlit("8"); }
        "8"
    } else if n == 9 {
        proof { reveal_strlit("9"); }
        "9"
    } else if n == 10 {
        proof { reveal_strlit("a"); }
        "a"
    } else if n == 11 {
        proof { reveal_strlit("b"); }
        "b"
    } else if n == 12 {
        proof { reveal_strlit("c"); }
        "c"
    } else if n == 13 {
        proof { reveal_strlit("d"); }
        "d"
    } else if n == 14 {
        proof { reveal_strlit("e"); }
        "e"
    } else {
        proof { reveal_strlit("f"); }
        "f"
    }
}

/// Lower case hexadecimal text of `bytes`.
fn to_hex_lower(bytes: &Vec<u8>) -> (r: String)
    ensures
        r@ == hex_lower_text(bytes@),
{
    let mut s = String::new();
    let mut i: usize = 0;
    while i < bytes.len()
        invariant
            i <= bytes@.len(),
            s@ == hex_lower_text(bytes@.subrange(0, i as int)),
        decreases bytes@.len() - i,
    {
        let b = bytes[i];
        s.append(hex_digit_str(b / 16));
        s.append(hex_digit_str(b % 16));
        assert(bytes@.subrange(0, i + 1).drop_last() =~= bytes@.subrange(0, i as int));
        assert(s@ =~= hex_lower_text(bytes@.subrange(0, i + 1)));
        i = i + 1;
    }
    assert(bytes@.subrange(0, i as int) =~= bytes@);
    s
}

/// Hash of the client features configuration.
#[derive(Debug, Clone)]
pub struct DynamicClientFeaturesConfigHash {
    h: String,
}

impl View for DynamicClientFeaturesConfigHash {
    type V = Seq<char>;

    closed spec fn view(&self) -> Seq<char> {
        self.h@
    }
}

impl DynamicClientFeaturesConfigHash {
    /// The lower case hexadecimal SHA-256 digest of the JSON text.
    pub fn from_json_string(json: &str) -> (r: Self)
        ensures
            r@ == hex_lower_text(sha256_digest(json.spec_bytes())),
    {
        let digest = sha256(json.as_bytes());
        Self { h: to_hex_lower(&digest) }
    }

    pub fn hash(&self) -> (r: &str)
        ensures
            r@ == self@,
    {
        self.h.as_str()
    }
}

/// The characters of `s`.
fn str_chars(s: &str) -> (r: Vec<char>)
    ensures
        r@ == s@,
{
    let n = s.unicode_len();
    let mut v: Vec<char> = Vec::new();
    let mut i: usize = 0;
    while i < n
        invariant
            n == s@.len(),
            i <= n,
            v@ == s@.subrange(0, i as int),
        decreases n - i,
    {
        v.push(s.get_char(i));
        assert(v@ =~= s@.subrange(0, i + 1));
        i = i + 1;
    }
    assert(v@ =~= s@);
    v
}

/// Whether `text` occurs in `s`.
pub open spec fn seq_contains_text(s: Seq<char>, text: Seq<char>) -> bool {
    exists|i: int| 0 <= i && i + text.len() <= s.len() && #[trigger] s.subrange(i, i + text.len()) == text
}

/// Whether `needle` occurs in `hay`.
fn chars_contain(hay: &Vec<char>, needle: &Vec<char>) -> (r: bool)
    ensures
        r == seq_contains_text(hay@, needle@),
{
    let n = hay.len();
    let m = needle.len();
    if m > n {
        proof {
            assert forall|i: int| 0 <= i && i + m <= n implies #[trigger] hay@.subrange(i, i + m) != needle@ by {}
        }
        return false;
    }
    let mut i: usize = 0;
    while i <= n - m
        invariant
            n == hay@.len(),
            m == needle@.len(),
            m <= n,
            i <= n - m + 1,
            forall|k: int| 0 <= k < i ==> #[trigger] hay@.subrange(k, k + m) != needle@,
        decreases n - m + 1 - i,
    {
        let mut j: usize = 0;
        let mut same = true;
        while j < m
            invariant
                n == hay@.len(),
                m == needle@.len(),
                i + m <= n,
                j <= m,
                same == (forall|t: int| 0 <= t < j ==> hay@[i + t] == needle@[t]),
            decreases m - j,
        {
            if hay[i + j] != needle[j] {
                same = false;
            }
            j = j + 1;
        }
        if same {
            assert(hay@.subrange(i as int, i + m) =~= needle@);
            return true;
        } else {
            assert(hay@.subrange(i as int, i + m) != needle@) by {
                let t = choose|t: int| 0 <= t < m && hay@[i + t] != needle@[t];
                assert(hay@.subrange(i as int, i + m)[t] == hay@[i + t]);
            }
        }
        i = i + 1;
    }
    proof {
        assert forall|k: int| 0 <= k && k + m <= n implies #[trigger] hay@.subrange(k, k + m) != needle@ by {
            assert(k < i);
        }
    }
    false
}

/// No key occurs twice among the `(key, value)` pairs `entries`: they are
/// the entries of a map.
pub open spec fn keys_unique<V>(entries: Seq<(String, V)>) -> bool {
    forall|i: int, j: int| 0 <= i < j < entries.len() ==> #[trigger] entries[i].0@ != #[trigger] entries[j].0@
}

/// A text with translations.
#[derive(Debug, Clone)]
pub struct StringResource {
    default: String,
    /// Country code like "en" and the translated text.
    translations: Vec<(String, String)>,
}

impl StringResource {
    /// The translations are a map: each country code occurs once.
    pub open spec fn wf(&self) -> bool {
        keys_unique(self.spec_translations())
    }

    pub closed spec fn spec_default(&self) -> Seq<char> {
        self.default@
    }

    pub closed spec fn spec_translations(&self) -> Seq<(String, String)> {
        self.translations@
    }

    pub fn from_internal(value: StringResourceInternal) -> (r: Self)
        ensures
            r.spec_default() == value.default@,
            r.spec_translations() == value.translations@,
            value.wf() ==> r.wf(),
    {
        Self { default: value.default, translations: value.translations }
    }
}

/// A text with translations as read from the configuration file.
#[derive(Debug, Clone)]
pub struct StringResourceInternal {
    pub default: String,
    /// Keys are country codes like "en".
    pub translations: Vec<(String, String)>,
}

/// The default text followed by the translated texts.
pub open spec fn string_resource_values(default: Seq<char>, translations: Seq<(String, String)>) -> Seq<Seq<char>> {
    seq![default] + Seq::new(translations.len(), |i: int| translations[i].1@)
}

impl StringResourceInternal {
    /// The translations are a map: each country code occurs once.
    pub open spec fn wf(&self) -> bool {
        keys_unique(self.translations@)
    }

    /// The default text and then each translated text.
    pub fn values(&self) -> (r: Vec<&str>)
        ensures
            r@.len() == 1 + self.translations@.len(),
            forall|i: int| 0 <= i < r@.len() ==> (#[trigger] r@[i])@ == string_resource_values(self.default@, self.translations@)[i],
    {
        let mut v: Vec<&str> = Vec::new();
        v.push(self.default.as_str());
        let mut i: usize = 0;
        while i < self.translations.len()
            invariant
                i <= self.translations@.len(),
                v@.len() == 1 + i,
                forall|k: int| 0 <= k < v@.len() ==> (#[trigger] v@[k])@ == string_resource_values(self.default@, self.translations@)[k],
            decreases self.translations@.len() - i,
        {
            v.push(self.translations[i].1.as_str());
            i = i + 1;
        }
        v
    }

    /// Whether the default text and every translated text contain `text`.
    pub fn all_strings_contain(&self, text_value: &str) -> (r: bool)
        ensures
            r == forall|i: int| 0 <= i < 1 + self.translations@.len()
                ==> seq_contains_text(#[trigger] string_resource_values(self.default@, self.translations@)[i], text_value@),
    {
        let needle = str_chars(text_value);
        let values = self.values();
        let mut i: usize = 0;
        while i < values.len()
            invariant
                i <= values@.len(),
                values@.len() == 1 + self.translations@.len(),
                needle@ == text_value@,
                forall|k: int| 0 <= k < values@.len() ==> (#[trigger] values@[k])@ == string_resource_values(self.default@, self.translations@)[k],
                forall|k: int| 0 <= k < i ==> seq_contains_text(#[trigger] string_resource_values(self.default@, self.translations@)[k], text_value@),
            decreases values@.len() - i,
        {
            let hay = str_chars(values[i]);
            if !chars_contain(&hay, &needle) {
                return false;
            }
            i = i + 1;
        }
        true
    }
}

/// Platforms on which a verification method or scope is enabled.
#[derive(Debug, Clone, Copy, Default, PartialEq, Eq, Structural)]
pub struct AccountVerificationPlatforms {
    pub android: bool,
    pub ios: bool,
    pub web: bool,
}

impl AccountVerificationPlatforms {
    /// Whether the client platform is enabled; bots never are.
    pub fn is_enabled_for(&self, client_type: WebSocketClientTypeNumber) -> (r: bool)
        ensures
            r == match client_type {
                WebSocketClientTypeNumber::Android => self.android,
                WebSocketClientTypeNumber::Ios => self.ios,
                WebSocketClientTypeNumber::Web => self.web,
                WebSocketClientTypeNumber::Bot => false,
            },
    {
        match client_type {
            WebSocketClientTypeNumber::Android => self.android,
            WebSocketClientTypeNumber::Ios => self.ios,
            WebSocketClientTypeNumber::Web => self.web,
            WebSocketClientTypeNumber::Bot => false,
        }
    }
}

/// Account verification platforms per method.
#[derive(Debug, Clone, Copy, Default, PartialEq, Eq, Structural)]
pub struct AccountVerificationMethodsConfig {
    pub debug: AccountVerificationPlatforms,
    pub eudi: AccountVerificationPlatforms,
}

/// Account verification platforms per scope.
#[derive(Debug, Clone, Copy, Default, PartialEq, Eq, Structural)]
pub struct AccountVerificationScopesConfig {
    pub security_content: AccountVerificationPlatforms,
    pub profile_age_range: AccountVerificationPlatforms,
    pub profile_name: AccountVerificationPlatforms,
}

/// Account verification configuration.
#[derive(Debug, Clone, Copy, Default, PartialEq, Eq, Structural)]
pub struct AccountVerificationConfig {
    pub methods: Option<AccountVerificationMethodsConfig>,
    pub scopes: Option<AccountVerificationScopesConfig>,
}

/// Age verification methods.
#[derive(Debug, Clone, Copy, Default, PartialEq, Eq, Structural)]
pub struct AgeVerificationMethodsConfig {
    pub debug: bool,
    pub eudi: bool,
}

/// Age verification configuration.
#[derive(Debug, Clone, Copy, Default, PartialEq, Eq, Structural)]
pub struct AgeVerificationConfig {
    pub verify_during_initial_setup: bool,
    pub required: bool,
    pub methods: Option<AgeVerificationMethodsConfig>,
}

/// Feature switches.
#[derive(Debug, Clone, Copy, Default, PartialEq, Eq, Structural)]
pub struct FeaturesConfig {
    /// Enable video calls
    pub video_calls: bool,
    /// Show face verification status and filters
    pub face_verification: bool,
}

/// News locales for which admins can write translations.
#[derive(Debug, Clone, Default)]
pub struct NewsConfig {
    pub locales: Vec<String>,
}

/// Zoom levels of the map.
#[derive(Debug, Clone, Copy, PartialEq, Eq, Structural)]
pub struct MapZoom {
    pub min: u8,
    pub max: u8,
    pub max_tile_downloading: u8,
    pub location_not_selected: u8,
    pub location_selected: u8,
}

impl Default for MapZoom {
    fn default() -> (r: Self)
        ensures
            r == (Self { min: 0, max: 19, max_tile_downloading: 19, location_not_selected: 0, location_selected: 0 }),
    {
        Self { min: 0, max: 19, max_tile_downloading: 19, location_not_selected: 0, location_selected: 0 }
    }
}

/// Daily likes.
#[derive(Debug, Clone, Copy, PartialEq, Eq, Structural)]
pub struct DailyLikesConfig {
    pub daily_likes: u8,
    /// UTC time with "hh:mm" format.
    pub reset_time: UtcTimeValue,
}

/// Like limits.
#[derive(Debug, Clone, Copy, Default, PartialEq, Eq, Structural)]
pub struct LikesConfig {
    /// UTC time with "hh:mm" format.
    pub unlimited_likes_disabling_time: Option<UtcTimeValue>,
    pub daily: Option<DailyLikesConfig>,
}

/// Face detection requirements of the first profile image.
#[derive(Debug, Clone, Copy, PartialEq, Eq, Structural)]
pub struct FirstImageConfig {
    pub require_face_detected_when_editing: bool,
    pub require_face_detected_when_viewing: bool,
}

/// Profile configuration.
#[derive(Debug, Clone, Default)]
pub struct ProfileConfig {
    pub profile_name_regex: Option<String>,
    pub first_image: Option<FirstImageConfig>,
}

/// Typing indicator timing.
#[derive(Debug, Clone, Copy, PartialEq, Eq, Structural)]
pub struct TypingIndicatorConfig {
    /// Client should hide the typing indicator after this time.
    pub start_event_ttl_seconds: u16,
    /// Server ignores messages received before this wait time elapses.
    pub min_wait_seconds_between_requests_server: u16,
    /// Client should wait at least this time before sending another
    /// typing indicator message.
    pub min_wait_seconds_between_requests_client: u16,
}

impl Default for TypingIndicatorConfig {
    fn default() -> (r: Self)
        ensures
            r == (Self {
                start_event_ttl_seconds: 10,
                min_wait_seconds_between_requests_server: 1,
                min_wait_seconds_between_requests_client: 4,
            }),
    {
        Self {
            start_event_ttl_seconds: 10,
            min_wait_seconds_between_requests_server: 1,
            min_wait_seconds_between_requests_client: 4,
        }
    }
}

/// Online status check timing.
#[derive(Debug, Clone, Copy, PartialEq, Eq, Structural)]
pub struct CheckOnlineStatusConfig {
    /// Server ignores requests received before this wait time elapses.
    pub min_wait_seconds_between_requests_server: u16,
    /// Client should wait at least this time before sending another
    /// request.
    pub min_wait_seconds_between_requests_client: u16,
}

impl Default for CheckOnlineStatusConfig {
    fn default() -> (r: Self)
        ensures
            r == (Self { min_wait_seconds_between_requests_server: 4, min_wait_seconds_between_requests_client: 8 }),
    {
        Self { min_wait_seconds_between_requests_server: 4, min_wait_seconds_between_requests_client: 8 }
    }
}

/// Chat configuration.
#[derive(Debug, Clone, Copy, Default, PartialEq, Eq, Structural)]
pub struct ChatConfig {
    pub typing_indicator: Option<TypingIndicatorConfig>,
    pub check_online_status: Option<CheckOnlineStatusConfig>,
    pub message_state_seen: bool,
}

/// Attribution texts shown in the app.
#[derive(Debug, Clone, Default)]
pub struct AttributionConfig {
    /// Generic attribution info text displayed in the about screen.
    pub generic: Option<StringResource>,
    /// Attribution info text displayed when IP country data is shown.
    pub ip_country: Option<StringResource>,
}

/// Attribution texts as read from the configuration file, with the keys
/// of the other tables of the attribution section.
#[derive(Debug, Clone, Default)]
pub struct AttributionConfigInternal {
    pub generic: Option<StringResourceInternal>,
    pub ip_country: Option<StringResourceInternal>,
    /// Keys of unknown string resources, in file order.
    pub other: Vec<String>,
}

/// Whether a text with translations holds what the configuration file gave.
pub open spec fn same_string_resource(r: Option<StringResource>, value: Option<StringResourceInternal>) -> bool {
    match (r, value) {
        (Some(a), Some(b)) => a.spec_default() == b.default@ && a.spec_translations() == b.translations@,
        (None, None) => true,
        _ => false,
    }
}

fn opt_string_resource(value: Option<StringResourceInternal>) -> (r: Option<StringResource>)
    ensures
        same_string_resource(r, value),
{
    match value {
        Some(v) => Some(StringResource::from_internal(v)),
        None => None,
    }
}

impl AttributionConfig {
    pub fn from_internal(value: AttributionConfigInternal) -> (r: Self)
        ensures
            same_string_resource(r.generic, value.generic),
            same_string_resource(r.ip_country, value.ip_country),
    {
        Self { generic: opt_string_resource(value.generic), ip_country: opt_string_resource(value.ip_country) }
    }
}

/// Client features for the client. The map settings hold floating point
/// coordinates and are added outside this library.
#[derive(Debug, Clone, Default)]
pub struct ClientFeaturesConfig {
    pub attribution: Option<AttributionConfig>,
    pub features: Option<FeaturesConfig>,
    pub news: Option<NewsConfig>,
    pub likes: Option<LikesConfig>,
    pub profile: Option<ProfileConfig>,
    pub chat: Option<ChatConfig>,
    pub age_verification: Option<AgeVerificationConfig>,
    pub account_verification: Option<AccountVerificationConfig>,
}

/// Client features configuration file, without the map settings.
#[derive(Debug, Clone, Default)]
pub struct ClientFeaturesConfigInternal {
    pub attribution: AttributionConfigInternal,
    pub features: FeaturesConfig,
    pub news: Option<NewsConfig>,
    pub likes: LikesConfig,
    pub profile: ProfileConfig,
    pub chat: ChatConfig,
}

/// The first error of a client features file: an unknown attribution
/// string resource, then a profile name regex that is not anchored at
/// both ends. A regex that the regex crate refuses is the last check.
pub open spec fn client_features_error(other_keys: Seq<String>, regex: Option<Seq<char>>) -> Option<Seq<char>> {
    if other_keys.len() > 0 {
        Some("Client features config file error. Unknown attribution string resource '"@ + other_keys[0]@ + "'."@)
    } else {
        match regex {
            Some(r) => if r.len() == 0 || r[0] != '^' {
                Some("Profile name regex does not start with '^'"@)
            } else if r.last() != '$' {
                Some("Profile name regex does not end with '$'"@)
            } else {
                None
            },
            None => None,
        }
    }
}

fn opt_string_view(s: &Option<String>) -> (r: Option<&str>)
    ensures
        match s {
            Some(v) => r matches Some(x) && x@ == v@,
            None => r is None,
        },
{
    match s {
        Some(v) => Some(v.as_str()),
        None => None,
    }
}

impl ClientFeaturesConfigInternal {
    /// Checks the file and gives the client's configuration. Unknown
    /// attribution string resources, a profile name regex that does not
    /// start with '^' or end with '$' and a regex that the regex crate
    /// refuses are errors.
    pub fn to_client_features_config(self) -> (r: Result<ClientFeaturesConfig, String>)
        ensures
            match client_features_error(self.attribution.other@, match self.profile.profile_name_regex {
                Some(x) => Some(x@),
                None => None,
            }) {
                Some(e) => r matches Err(x) && x@ == e,
                None => match self.profile.profile_name_regex {
                    Some(x) => (r is Ok <==> regex_accepts(x@)),
                    None => r is Ok,
                },
            },
            r matches Ok(c) ==> {
                &&& c.attribution matches Some(a) && same_string_resource(a.generic, self.attribution.generic)
                    && same_string_resource(a.ip_country, self.attribution.ip_country)
                &&& c.features == Some(self.features)
                &&& c.news == self.news
                &&& c.likes == Some(self.likes)
                &&& c.profile == Some(self.profile)
                &&& c.chat == Some(self.chat)
                &&& c.age_verification is None
                &&& c.account_verification is None
            },
    {
        if self.attribution.other.len() > 0 {
            let mut e = text("Client features config file error. Unknown attribution string resource '");
            e.append(self.attribution.other[0].as_str());
            e.append("'.");
            return Err(e);
        }
        match opt_string_view(&self.profile.profile_name_regex) {
            Some(regex) => {
                let n = regex.unicode_len();
                if n == 0 || regex.get_char(0) != '^' {
                    return Err(text("Profile name regex does not start with '^'"));
                }
                if regex.get_char(n - 1) != '$' {
                    return Err(text("Profile name regex does not end with '$'"));
                }
                match check_regex(regex) {
                    Ok(()) => {},
                    Err(e) => {
                        return Err(e);
                    },
                }
            },
            None => {},
        }
        Ok(ClientFeaturesConfig {
            attribution: Some(AttributionConfig::from_internal(self.attribution)),
            features: Some(self.features),
            news: self.news,
            likes: Some(self.likes),
            profile: Some(self.profile),
            chat: Some(self.chat),
            age_verification: None,
            account_verification: None,
        })
    }
}

/// How an info banner is shown.
#[derive(Debug, Clone, Copy, PartialEq, Eq, Structural)]
pub enum InfoBannerMode {
    /// Data: [InfoBanner::text]
    Text,
}

/// Banners that the client shows by itself.
#[derive(Debug, Clone, Copy, PartialEq, Eq, Structural)]
pub enum PredefinedBanner {
    ServerMaintenance,
    AdminBotOffline,
}

/// Platforms that show a banner.
#[derive(Debug, Clone, Copy, Default, PartialEq, Eq, Structural)]
pub struct BannerPlatform {
    pub android: bool,
    pub ios: bool,
    pub web: bool,
}

/// Screens that show a banner.
#[derive(Debug, Clone, Copy, Default, PartialEq, Eq, Structural)]
pub struct BannerVisibility {
    pub profiles: bool,
    pub likes: bool,
    pub chats: bool,
    pub menu: bool,
    pub conversation: bool,
}

/// Button of a banner that opens a URL.
#[derive(Debug, Clone)]
pub struct InfoBannerUrlButton {
    pub text: StringResource,
    pub url: String,
}

/// Text of a banner.
#[derive(Debug, Clone)]
pub struct TextInfoBanner {
    pub body: StringResource,
    pub dismissible: bool,
    pub url_button: Option<InfoBannerUrlButton>,
    /// Name of the icon resource.
    pub icon: Option<String>,
}

/// An info banner.
#[derive(Debug, Clone)]
pub struct InfoBanner {
    /// Server increments this field when the banner is changed. It wraps,
    /// so compare versions with "not equal".
    pub version: u32,
    pub mode: InfoBannerMode,
    pub platform: BannerPlatform,
    pub visibility: BannerVisibility,
    pub override_predefined_banner: Option<PredefinedBanner>,
    pub text: Option<TextInfoBanner>,
}

/// Info banners by name, in name order.
#[derive(Debug, Clone, Default)]
pub struct InfoBannersConfig {
    pub banners: Vec<(String, InfoBanner)>,
}

impl InfoBannersConfig {
    /// The banners are a map: each name occurs once.
    pub open spec fn wf(&self) -> bool {
        keys_unique(self.banners@)
    }
}

/// Client features that admins can change at run time.
#[derive(Debug, Clone, Default)]
pub struct DynamicClientFeaturesConfig {
    pub info_banners: Option<InfoBannersConfig>,
}

} // verus!
