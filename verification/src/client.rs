//! Client configuration, client versions, client message types, data
//! export states and profile attribute info.
use vstd::prelude::*;

use crate::backend::NonEmptyString;
use crate::common::AccountId;
use crate::custom_reports::CustomReportsFileHash;
use crate::sync_version::ClientConfigSyncVersion;
use crate::text::text;
use crate::EnumParsingError;

verus! {

/// Hash of the client features configuration.
#[derive(Debug, Clone)]
pub struct ClientFeaturesConfigHash {
    h: String,
}

impl View for ClientFeaturesConfigHash {
    type V = Seq<char>;

    closed spec fn view(&self) -> Seq<char> {
        self.h@
    }
}

impl ClientFeaturesConfigHash {
    pub fn new(h: String) -> (r: Self)
        ensures
            r@ == h@,
    {
        Self { h }
    }

    pub fn hash(&self) -> (r: &str)
        ensures
            r@ == self@,
    {
        self.h.as_str()
    }
}

/// How clients order profile attributes.
#[derive(Debug, Clone, Copy, PartialEq, Eq, Structural)]
pub enum AttributeOrderMode {
    OrderNumber,
}

/// Hash of one profile attribute.
#[derive(Debug, Clone)]
pub struct AttributeHash {
    h: String,
}

impl View for AttributeHash {
    type V = Seq<char>;

    closed spec fn view(&self) -> Seq<char> {
        self.h@
    }
}

impl AttributeHash {
    pub fn new(h: String) -> (r: Self)
        ensures
            r@ == h@,
    {
        Self { h }
    }

    pub fn as_str(&self) -> (r: &str)
        ensures
            r@ == self@,
    {
        self.h.as_str()
    }
}

/// Profile attribute ID, 0 or greater.
#[derive(Debug, Clone, Copy, PartialEq, Eq, PartialOrd, Ord, Hash, Structural)]
pub struct AttributeId(i16);

impl AttributeId {
    pub closed spec fn spec_value(self) -> i16 {
        self.0
    }

    /// The ID `id`, which must be 0 or greater.
    pub fn new(id: i16) -> (r: Self)
        requires
            id >= 0,
        ensures
            r.spec_value() == id,
    {
        Self(id)
    }

    pub fn to_i16(&self) -> (r: i16)
        ensures
            r == self.spec_value(),
    {
        self.0
    }

    /// The ID as an index: the `i16` value cast to `usize`. IDs read from
    /// the database keep the value as it is, and a negative ID is sign
    /// extended, giving `usize::MAX + 1` plus the value.
    pub fn to_usize(&self) -> (r: usize)
        ensures
            r == self.spec_value() as usize,
            self.spec_value() >= 0 ==> r == self.spec_value(),
            self.spec_value() < 0 ==> r == usize::MAX + 1 + self.spec_value(),
    {
        let r = self.0 as usize;
        proof {
            let v = self.0;
            assert(v < 0 ==> (v as usize) as int + (-(v as i32)) as int == (if usize::BITS == 64 {
                0x1_0000_0000_0000_0000int
            } else {
                0x1_0000_0000int
            })) by (bit_vector);
        }
        r
    }

    pub fn as_ref(&self) -> (r: &i16)
        ensures
            *r == self.spec_value(),
    {
        &self.0
    }

    /// The ID as stored in the database.
    pub fn from_db_value(value: i16) -> (r: Self)
        ensures
            r.spec_value() == value,
    {
        Self(value)
    }
}

/// A profile attribute ID, read from client data: negative values are
/// refused.
pub fn deserialize_non_negative_i16(v: i16) -> (r: Result<i16, String>)
    ensures
        match r {
            Ok(x) => v >= 0 && x == v,
            Err(e) => v < 0 && e@ == "negative value not allowed"@,
        },
{
    if v < 0 {
        Err(text("negative value not allowed"))
    } else {
        Ok(v)
    }
}

/// A profile attribute ID with its hash.
#[derive(Debug, Clone)]
pub struct ProfileAttributeInfo {
    pub id: AttributeId,
    pub h: AttributeHash,
}

/// Profile attribute config without the attribute details.
#[derive(Debug, Clone)]
pub struct PartialProfileAttributesConfig {
    pub attribute_order: AttributeOrderMode,
    pub attributes: Vec<ProfileAttributeInfo>,
}

/// Client configuration: hashes of the configured parts.
#[derive(Debug, Clone)]
pub struct ClientConfig {
    /// None, if client features are not configured.
    pub client_features: Option<ClientFeaturesConfigHash>,
    /// None, if custom reports are not configured.
    pub custom_reports: Option<CustomReportsFileHash>,
    /// None, if attributes are not configured.
    pub profile_attributes: Option<PartialProfileAttributesConfig>,
    pub sync_version: ClientConfigSyncVersion,
}

/// Client platform.
#[derive(Debug, Clone, Copy, PartialEq, Eq, Structural)]
pub enum ClientType {
    Android,
    Ios,
    Web,
}

impl ClientType {
    /// Number of the platform: Android 0, Ios 1, Web 2.
    pub open spec fn spec_to_i64(self) -> i64 {
        match self {
            Self::Android => 0,
            Self::Ios => 1,
            Self::Web => 2,
        }
    }

    /// Each variant has the number that the documentation gives it.
    pub proof fn lemma_documented_numbers(self)
        ensures
            self is Android ==> self.spec_to_i64() == 0,
            self is Ios ==> self.spec_to_i64() == 1,
            self is Web ==> self.spec_to_i64() == 2,
    {
    }

    pub fn to_i64(self) -> (r: i64)
        ensures
            r == self.spec_to_i64(),
    {
        match self {
            Self::Android => 0,
            Self::Ios => 1,
            Self::Web => 2,
        }
    }

    pub fn try_from_i64(v: i64) -> (r: Result<Self, EnumParsingError>)
        ensures
            match r {
                Ok(t) => t.spec_to_i64() == v,
                Err(e) => !(0 <= v <= 2) && e == EnumParsingError::ParsingError(v),
            },
    {
        if v == 0 {
            Ok(Self::Android)
        } else if v == 1 {
            Ok(Self::Ios)
        } else if v == 2 {
            Ok(Self::Web)
        } else {
            Err(EnumParsingError::ParsingError(v))
        }
    }
}

/// Language code of the client, like "en".
#[derive(Debug, Clone)]
pub struct ClientLanguage {
    /// Language code like "en". Non-empty string.
    pub l: NonEmptyString,
}

impl ClientLanguage {
    pub fn new(l: NonEmptyString) -> (r: Self)
        ensures
            r.l@ == l@,
    {
        Self { l }
    }

    pub fn as_str(&self) -> (r: &str)
        ensures
            r@ == self.l@,
    {
        self.l.as_str()
    }
}

/// Client language, if the client has set one.
#[derive(Debug, Clone)]
pub struct GetClientLanguage {
    pub l: Option<ClientLanguage>,
}

/// Client type of a WebSocket connection.
#[derive(Debug, Clone, Copy, PartialEq, Eq, Structural)]
pub enum WebSocketClientTypeNumber {
    Android,
    Ios,
    Web,
    Bot,
}

impl WebSocketClientTypeNumber {
    /// Number of the client type: Android 0, Ios 1, Web 2, Bot 3.
    pub open spec fn spec_to_u8(self) -> u8 {
        match self {
            Self::Android => 0,
            Self::Ios => 1,
            Self::Web => 2,
            Self::Bot => 3,
        }
    }

    /// Each variant has the number that the documentation gives it.
    pub proof fn lemma_documented_numbers(self)
        ensures
            self is Android ==> self.spec_to_u8() == 0,
            self is Ios ==> self.spec_to_u8() == 1,
            self is Web ==> self.spec_to_u8() == 2,
            self is Bot ==> self.spec_to_u8() == 3,
    {
    }

    pub fn to_u8(self) -> (r: u8)
        ensures
            r == self.spec_to_u8(),
    {
        match self {
            Self::Android => 0,
            Self::Ios => 1,
            Self::Web => 2,
            Self::Bot => 3,
        }
    }

    pub fn try_from_u8(v: u8) -> (r: Result<Self, EnumParsingError>)
        ensures
            match r {
                Ok(t) => t.spec_to_u8() == v,
                Err(e) => v > 3 && e == EnumParsingError::ParsingError(v as i64),
            },
    {
        if v == 0 {
            Ok(Self::Android)
        } else if v == 1 {
            Ok(Self::Ios)
        } else if v == 2 {
            Ok(Self::Web)
        } else if v == 3 {
            Ok(Self::Bot)
        } else {
            Err(EnumParsingError::ParsingError(v as i64))
        }
    }
}

/// Semantic version number.
#[derive(Debug, Clone, Copy, Default, PartialEq, Eq, Structural)]
pub struct VersionNumber {
    pub major: u32,
    pub minor: u32,
    pub patch: u32,
}

/// Client version.
#[derive(Debug, Clone, Copy, Default, PartialEq, Eq, Structural)]
pub struct ClientVersion {
    pub major: u32,
    pub minor: u32,
    pub patch: u32,
}

impl ClientVersion {
    /// Version of bot clients: 0.0.0.
    pub fn bot_client_version() -> (r: Self)
        ensures
            r == (Self { major: 0, minor: 0, patch: 0 }),
    {
        Self { major: 0, minor: 0, patch: 0 }
    }

    pub fn to_version_number(self) -> (r: VersionNumber)
        ensures
            r == (VersionNumber { major: self.major, minor: self.minor, patch: self.patch }),
    {
        VersionNumber { major: self.major, minor: self.minor, patch: self.patch }
    }
}

/// Info from the first WebSocket binary message of a client, without the
/// protocol version byte.
#[derive(Debug, Clone, Copy, PartialEq, Eq, Structural)]
pub struct WebSocketClientInfo {
    pub client_type: WebSocketClientTypeNumber,
    pub client_version: ClientVersion,
}

/// First byte of WebSocket binary messages from client to server.
#[derive(Debug, Clone, Copy, PartialEq, Eq, Structural)]
pub enum ClientMessageType {
    SyncVersionList,
    ClearMaintenanceStatusIfPossible,
    ResponseAdminBotConfigWarnings,
    RequestResetProfilePaging,
    RequestGetNextProfilePage,
    RequestAutomaticProfileSearchResetProfilePaging,
    RequestAutomaticProfileSearchGetNextProfilePage,
    TypingStart,
    TypingStop,
    CheckOnlineStatus,
}

impl ClientMessageType {
    /// Number of the message type: 0..=29 common, 60..=89 profile,
    /// 120..=149 chat.
    pub open spec fn spec_to_u8(self) -> u8 {
        match self {
            Self::SyncVersionList => 0,
            Self::ClearMaintenanceStatusIfPossible => 1,
            Self::ResponseAdminBotConfigWarnings => 2,
            Self::RequestResetProfilePaging => 60,
            Self::RequestGetNextProfilePage => 61,
            Self::RequestAutomaticProfileSearchResetProfilePaging => 62,
            Self::RequestAutomaticProfileSearchGetNextProfilePage => 63,
            Self::TypingStart => 120,
            Self::TypingStop => 121,
            Self::CheckOnlineStatus => 122,
        }
    }

    /// Each variant has the number that the documentation gives it.
    pub proof fn lemma_documented_numbers(self)
        ensures
            self is SyncVersionList ==> self.spec_to_u8() == 0,
            self is ClearMaintenanceStatusIfPossible ==> self.spec_to_u8() == 1,
            self is ResponseAdminBotConfigWarnings ==> self.spec_to_u8() == 2,
            self is RequestResetProfilePaging ==> self.spec_to_u8() == 60,
            self is RequestGetNextProfilePage ==> self.spec_to_u8() == 61,
            self is RequestAutomaticProfileSearchResetProfilePaging ==> self.spec_to_u8() == 62,
            self is RequestAutomaticProfileSearchGetNextProfilePage ==> self.spec_to_u8() == 63,
            self is TypingStart ==> self.spec_to_u8() == 120,
            self is TypingStop ==> self.spec_to_u8() == 121,
            self is CheckOnlineStatus ==> self.spec_to_u8() == 122,
    {
    }

    pub fn to_u8(self) -> (r: u8)
        ensures
            r == self.spec_to_u8(),
    {
        match self {
            Self::SyncVersionList => 0,
            Self::ClearMaintenanceStatusIfPossible => 1,
            Self::ResponseAdminBotConfigWarnings => 2,
            Self::RequestResetProfilePaging => 60,
            Self::RequestGetNextProfilePage => 61,
            Self::RequestAutomaticProfileSearchResetProfilePaging => 62,
            Self::RequestAutomaticProfileSearchGetNextProfilePage => 63,
            Self::TypingStart => 120,
            Self::TypingStop => 121,
            Self::CheckOnlineStatus => 122,
        }
    }

    /// The message type numbered `v`, or an error for a number that names
    /// no message type.
    pub fn try_from_u8(v: u8) -> (r: Result<Self, EnumParsingError>)
        ensures
            match r {
                Ok(t) => t.spec_to_u8() == v,
                Err(e) => e == EnumParsingError::ParsingError(v as i64) && forall|t: Self| #[trigger] t.spec_to_u8() != v,
            },
    {
        if v == 0 {
            Ok(Self::SyncVersionList)
        } else if v == 1 {
            Ok(Self::ClearMaintenanceStatusIfPossible)
        } else if v == 2 {
            Ok(Self::ResponseAdminBotConfigWarnings)
        } else if v == 60 {
            Ok(Self::RequestResetProfilePaging)
        } else if v == 61 {
            Ok(Self::RequestGetNextProfilePage)
        } else if v == 62 {
            Ok(Self::RequestAutomaticProfileSearchResetProfilePaging)
        } else if v == 63 {
            Ok(Self::RequestAutomaticProfileSearchGetNextProfilePage)
        } else if v == 120 {
            Ok(Self::TypingStart)
        } else if v == 121 {
            Ok(Self::TypingStop)
        } else if v == 122 {
            Ok(Self::CheckOnlineStatus)
        } else {
            Err(EnumParsingError::ParsingError(v as i64))
        }
    }
}

/// Client message that the data crate handles: the sync version list.
#[derive(Debug, Clone, Copy)]
pub enum ClientMessageForDataAllCrate<'a> {
    SyncVersionList(&'a [u8]),
}

/// Admin bot config warning flags: bit 0 profile name moderation, bit 1
/// profile text moderation, bit 2 content moderation, bit 3 face
/// verification and bit 4 security content verification file config
/// missing.
#[derive(Debug, Clone, Copy, Default, PartialEq, Eq, Structural)]
pub struct AdminBotConfigWarningFlags {
    pub bits: u8,
}

impl AdminBotConfigWarningFlags {
    pub const PROFILE_NAME_MODERATION_FILE_CONFIG_MISSING: u8 = 0b0000_0001;
    pub const PROFILE_TEXT_MODERATION_FILE_CONFIG_MISSING: u8 = 0b0000_0010;
    pub const CONTENT_MODERATION_FILE_CONFIG_MISSING: u8 = 0b0000_0100;
    pub const FACE_VERIFICATION_FILE_CONFIG_MISSING: u8 = 0b0000_1000;
    pub const SECURITY_CONTENT_VERIFICATION_FILE_CONFIG_MISSING: u8 = 0b0001_0000;

    /// Keeps the defined flags of `bits`.
    pub fn from_bits_truncate(bits: u8) -> (r: Self)
        ensures
            r.bits == bits & 0x1f,
    {
        Self { bits: bits & 0x1f }
    }
}

/// State of a data export.
#[derive(Debug, Clone, Copy, Default, PartialEq, Eq, Structural)]
pub enum DataExportStateType {
    #[default]
    Empty,
    InProgress,
    Done,
    Error,
}

/// Name of a data export file.
#[derive(Debug, Clone)]
pub struct DataExportName {
    pub name: String,
}

/// Data export state with the export name when the export is done.
#[derive(Debug, Clone)]
pub struct DataExportState {
    /// Available when the current state is [DataExportStateType::Done].
    pub name: Option<DataExportName>,
    pub state: DataExportStateType,
}

impl DataExportState {
    pub fn empty() -> (r: Self)
        ensures
            r.name is None,
            r.state == DataExportStateType::Empty,
    {
        Self { name: None, state: DataExportStateType::Empty }
    }

    pub fn in_progress() -> (r: Self)
        ensures
            r.name is None,
            r.state == DataExportStateType::InProgress,
    {
        Self { name: None, state: DataExportStateType::InProgress }
    }

    pub fn done(name: DataExportName) -> (r: Self)
        ensures
            r.name matches Some(n) && n.name@ == name.name@,
            r.state == DataExportStateType::Done,
    {
        Self { name: Some(name), state: DataExportStateType::Done }
    }

    pub fn error() -> (r: Self)
        ensures
            r.name is None,
            r.state == DataExportStateType::Error,
    {
        Self { name: None, state: DataExportStateType::Error }
    }
}

/// Who started a data export.
#[derive(Debug, Clone, Copy, PartialEq, Eq, Structural)]
pub enum DataExportType {
    /// User initiated data export which doesn't expose information on
    /// other users.
    User,
    /// Admin initiated data export which does expose information on other
    /// users.
    Admin,
}

/// Request to start a data export.
#[derive(Debug, Clone, Copy, PartialEq, Eq, Structural)]
pub struct PostStartDataExport {
    /// Data reading source account.
    pub source: AccountId,
    pub data_export_type: DataExportType,
}

/// Binary data in the API documentation.
#[derive(Debug, Clone, Copy)]
pub struct BinaryData(());

impl ClientType {
    /// Different values have different numbers, so reading a value's
    /// number back gives the value.
    pub proof fn lemma_number_injective(a: Self, b: Self)
        ensures
            a.spec_to_i64() == b.spec_to_i64() <==> a == b,
    {
    }
}

impl WebSocketClientTypeNumber {
    /// Different values have different numbers, so reading a value's
    /// number back gives the value.
    pub proof fn lemma_number_injective(a: Self, b: Self)
        ensures
            a.spec_to_u8() == b.spec_to_u8() <==> a == b,
    {
    }
}

impl ClientMessageType {
    /// Different values have different numbers, so reading a value's
    /// number back gives the value.
    pub proof fn lemma_number_injective(a: Self, b: Self)
        ensures
            a.spec_to_u8() == b.spec_to_u8() <==> a == b,
    {
    }
}

} // verus!
