//! Data sync versions that the server keeps and clients report.
use vstd::prelude::*;

use crate::text;

verus! {

/// Data type of a sync version that a client reports.
#[derive(Debug, Clone, Copy, PartialEq, Eq, Structural)]
pub enum SyncCheckDataType {
    Account,
    ReveivedLikes,
    ClientConfig,
    Profile,
    News,
    MediaContent,
    DailyLikesLeft,
    PushNotificationInfo,
    /// Special value without valid [SyncVersionFromClient] informing
    /// the server that client has info that server maintenance is scheduled.
    ServerMaintenanceIsScheduled,
}

impl SyncCheckDataType {
    /// The data type with number `v`: Account 0, ReveivedLikes 1,
    /// ClientConfig 2, Profile 3, News 4, MediaContent 5, DailyLikesLeft 6,
    /// PushNotificationInfo 7, ServerMaintenanceIsScheduled 255.
    pub open spec fn spec_from_u8(v: u8) -> Option<Self> {
        if v == 0 {
            Some(Self::Account)
        } else if v == 1 {
            Some(Self::ReveivedLikes)
        } else if v == 2 {
            Some(Self::ClientConfig)
        } else if v == 3 {
            Some(Self::Profile)
        } else if v == 4 {
            Some(Self::News)
        } else if v == 5 {
            Some(Self::MediaContent)
        } else if v == 6 {
            Some(Self::DailyLikesLeft)
        } else if v == 7 {
            Some(Self::PushNotificationInfo)
        } else if v == 255 {
            Some(Self::ServerMaintenanceIsScheduled)
        } else {
            None
        }
    }

    pub fn from_u8(v: u8) -> (r: Option<Self>)
        ensures
            r == Self::spec_from_u8(v),
    {
        if v == 0 {
            Some(Self::Account)
        } else if v == 1 {
            Some(Self::ReveivedLikes)
        } else if v == 2 {
            Some(Self::ClientConfig)
        } else if v == 3 {
            Some(Self::Profile)
        } else if v == 4 {
            Some(Self::News)
        } else if v == 5 {
            Some(Self::MediaContent)
        } else if v == 6 {
            Some(Self::DailyLikesLeft)
        } else if v == 7 {
            Some(Self::PushNotificationInfo)
        } else if v == 255 {
            Some(Self::ServerMaintenanceIsScheduled)
        } else {
            None
        }
    }
}

/// What the server does after comparing a client's sync version.
#[derive(Debug, Clone, Copy, PartialEq, Eq, Structural)]
pub enum SyncCheckResult {
    /// Reset version number to 0 and then sync data and version number to client.
    ResetVersionAndSync,
    /// Sync data and version number to client.
    Sync,
    /// Do nothing.
    DoNothing,
}

/// Sync version from a client, in the range `[0, 255]`. The value 255
/// makes the server reset its version to 0 and do a full sync.
#[derive(Debug, Clone, Copy, PartialEq, Eq, Structural)]
pub struct SyncVersionFromClient(pub u8);

impl SyncVersionFromClient {
    pub fn new(version: u8) -> (r: Self)
        ensures
            r.0 == version,
    {
        Self(version)
    }
}

/// One data type and its version from a client.
#[derive(Debug, Clone, Copy, PartialEq, Eq, Structural)]
pub struct SyncDataVersionFromClient {
    pub data_type: SyncCheckDataType,
    pub version: SyncVersionFromClient,
}

/// The pairs of a sync data list: byte `2 * i` names the data type and
/// byte `2 * i + 1` is the version; an odd last byte is ignored.
/// `None` when some pair names an unknown data type.
pub open spec fn spec_parse_sync_data_list(data: Seq<u8>) -> Option<Seq<SyncDataVersionFromClient>> {
    let n = data.len() / 2;
    if forall|i: int| 0 <= i < n ==> (#[trigger] SyncCheckDataType::spec_from_u8(data[2 * i])) is Some {
        Some(Seq::new(n, |i: int| SyncDataVersionFromClient {
            data_type: SyncCheckDataType::spec_from_u8(data[2 * i]).unwrap(),
            version: SyncVersionFromClient(data[2 * i + 1]),
        }))
    } else {
        None
    }
}

/// The documented number of each data type: Account 0, ReveivedLikes 1,
/// ClientConfig 2, Profile 3, News 4, MediaContent 5, DailyLikesLeft 6,
/// PushNotificationInfo 7, ServerMaintenanceIsScheduled 255.
pub open spec fn sync_data_type_number(t: SyncCheckDataType) -> u8 {
    match t {
        SyncCheckDataType::Account => 0,
        SyncCheckDataType::ReveivedLikes => 1,
        SyncCheckDataType::ClientConfig => 2,
        SyncCheckDataType::Profile => 3,
        SyncCheckDataType::News => 4,
        SyncCheckDataType::MediaContent => 5,
        SyncCheckDataType::DailyLikesLeft => 6,
        SyncCheckDataType::PushNotificationInfo => 7,
        SyncCheckDataType::ServerMaintenanceIsScheduled => 255,
    }
}

/// Whether `b` is the number of a data type.
pub open spec fn is_sync_data_type_number(b: u8) -> bool {
    b <= 7 || b == 255
}

/// Each number names the data type documented for it, and no other number
/// names one.
pub proof fn lemma_sync_data_type_numbers(t: SyncCheckDataType, b: u8)
    ensures
        SyncCheckDataType::spec_from_u8(sync_data_type_number(t)) == Some(t),
        SyncCheckDataType::spec_from_u8(b) is Some <==> is_sync_data_type_number(b),
        SyncCheckDataType::spec_from_u8(b) matches Some(u) ==> sync_data_type_number(u) == b,
{
}

/// A sync data list is read pair by pair: the first byte of each pair is
/// the number of its data type and the second byte its version. The list
/// is read exactly when every pair's first byte is a data type number.
pub proof fn lemma_sync_data_list_pairs(data: Seq<u8>)
    ensures
        spec_parse_sync_data_list(data) is Some <==> forall|i: int|
            0 <= i < data.len() / 2 ==> #[trigger] is_sync_data_type_number(data[2 * i]),
        spec_parse_sync_data_list(data) matches Some(l) ==> {
            &&& l.len() == data.len() / 2
            &&& forall|i: int| 0 <= i < l.len() ==> sync_data_type_number(#[trigger] l[i].data_type) == data[2 * i]
            &&& forall|i: int| 0 <= i < l.len() ==> (#[trigger] l[i]).version == SyncVersionFromClient(data[2 * i + 1])
        },
{
    let n = data.len() / 2;
    assert forall|i: int| 0 <= i < n implies (#[trigger] SyncCheckDataType::spec_from_u8(data[2 * i]) is Some
        <==> is_sync_data_type_number(data[2 * i])) by {
        lemma_sync_data_type_numbers(SyncCheckDataType::Account, data[2 * i]);
    }
    if spec_parse_sync_data_list(data) is Some {
        assert forall|i: int| 0 <= i < n implies #[trigger] is_sync_data_type_number(data[2 * i]) by {
            assert(SyncCheckDataType::spec_from_u8(data[2 * i]) is Some);
        }
        let l = spec_parse_sync_data_list(data).unwrap();
        assert forall|i: int| 0 <= i < l.len() implies sync_data_type_number(#[trigger] l[i].data_type) == data[2 * i] by {
            assert(SyncCheckDataType::spec_from_u8(data[2 * i]) is Some);
            lemma_sync_data_type_numbers(SyncCheckDataType::Account, data[2 * i]);
        }
    } else {
        let i = choose|i: int| 0 <= i < n && !(#[trigger] SyncCheckDataType::spec_from_u8(data[2 * i]) is Some);
        assert(!is_sync_data_type_number(data[2 * i]));
    }
}

impl SyncDataVersionFromClient {
    /// Parses a list of (data type, version) byte pairs.
    pub fn parse_sync_data_list(data: &[u8]) -> (r: Result<Vec<Self>, String>)
        ensures
            match r {
                Ok(v) => spec_parse_sync_data_list(data@) == Some(v@),
                Err(_) => spec_parse_sync_data_list(data@) is None,
            },
    {
        let mut data_versions: Vec<Self> = Vec::new();
        let n = data.len() / 2;
        let mut i: usize = 0;
        while i < n
            invariant
                n == data@.len() / 2,
                i <= n,
                data_versions@.len() == i,
                forall|j: int| 0 <= j < i ==> (#[trigger] SyncCheckDataType::spec_from_u8(data@[2 * j])) is Some,
                forall|j: int|
                    0 <= j < i ==> #[trigger] data_versions@[j] == (SyncDataVersionFromClient {
                        data_type: SyncCheckDataType::spec_from_u8(data@[2 * j]).unwrap(),
                        version: SyncVersionFromClient(data@[2 * j + 1]),
                    }),
            decreases n - i,
        {
            assert(2 * i + 1 < data.len());
            let k: usize = i + i;
            match Self::parse(data[k], data[k + 1]) {
                Ok(v) => {
                    data_versions.push(v);
                },
                Err(e) => {
                    assert(SyncCheckDataType::spec_from_u8(data@[2 * (i as int)]) is None);
                    return Err(e);
                },
            }
            i = i + 1;
        }
        assert(data_versions@ =~= spec_parse_sync_data_list(data@).unwrap());
        Ok(data_versions)
    }

    fn parse(data_type_u8: u8, version_u8: u8) -> (r: Result<Self, String>)
        ensures
            match SyncCheckDataType::spec_from_u8(data_type_u8) {
                Some(t) => r == Ok::<Self, String>(Self { data_type: t, version: SyncVersionFromClient(version_u8) }),
                None => r is Err,
            },
    {
        match SyncCheckDataType::from_u8(data_type_u8) {
            Some(data_type) => Ok(Self { data_type, version: SyncVersionFromClient(version_u8) }),
            None => Err(text::text_with_number(
                "No discriminant in enum `SyncCheckDataType` matches the value ",
                data_type_u8 as i64,
            )),
        }
    }
}

/// Sync version stored on the server. The value has range of `[0, 255]`.
#[derive(Debug, Clone, Copy, PartialEq, Eq, Structural)]
pub struct SyncVersion {
    pub version: i16,
}

impl SyncVersion {
    pub const MAX_VALUE: i16 = 255;

    /// `id` clamped to `[0, 255]`.
    pub open spec fn spec_new(id: i16) -> Self {
        Self { version: if id < 0 { 0 } else if id > 255 { 255 } else { id } }
    }

    /// The version lies in `[0, 255]`.
    pub open spec fn wf(self) -> bool {
        0 <= self.version <= 255
    }

    pub fn new(id: i16) -> (r: Self)
        ensures
            r == Self::spec_new(id),
            r.wf(),
    {
        let version = if id < 0 {
            0
        } else if id > Self::MAX_VALUE {
            Self::MAX_VALUE
        } else {
            id
        };
        Self { version }
    }

    pub fn as_i16(&self) -> (r: &i16)
        ensures
            *r == self.version,
    {
        &self.version
    }

    /// What to do with the client's version: reset and sync when the
    /// client sends 255, nothing when the versions are equal, else sync.
    pub open spec fn spec_check_is_sync_required(self, client_value: SyncVersionFromClient) -> SyncCheckResult {
        if client_value.0 as i16 >= 255 {
            SyncCheckResult::ResetVersionAndSync
        } else if client_value.0 as i16 == self.version {
            SyncCheckResult::DoNothing
        } else {
            SyncCheckResult::Sync
        }
    }

    fn check_is_sync_required(&self, client_value: SyncVersionFromClient) -> (r: SyncCheckResult)
        ensures
            r == self.spec_check_is_sync_required(client_value),
    {
        if client_value.0 as i16 >= Self::MAX_VALUE {
            SyncCheckResult::ResetVersionAndSync
        } else if client_value.0 as i16 == self.version {
            SyncCheckResult::DoNothing
        } else {
            SyncCheckResult::Sync
        }
    }

    /// The next version, staying at 255 once there.
    pub open spec fn spec_increment_if_not_max_value(self) -> Self {
        if self.version >= 255 {
            Self { version: 255 }
        } else {
            Self { version: (self.version + 1) as i16 }
        }
    }

    fn increment_if_not_max_value(&self) -> (r: Self)
        ensures
            r == self.spec_increment_if_not_max_value(),
    {
        if self.version >= Self::MAX_VALUE {
            Self { version: Self::MAX_VALUE }
        } else {
            Self { version: self.version + 1 }
        }
    }
}

impl Default for SyncVersion {
    fn default() -> (r: Self)
        ensures
            r.version == 0,
    {
        Self::new(0)
    }
}

/// Shared behaviour of the sync version wrapper types.
pub trait SyncVersionUtils: Sized {
    spec fn spec_sync_version(&self) -> SyncVersion;

    fn sync_version(&self) -> (r: SyncVersion)
        ensures
            r == self.spec_sync_version(),
    ;

    fn new_with_sync_version(sync_version: SyncVersion) -> (r: Self)
        ensures
            r.spec_sync_version() == sync_version,
    ;

    fn check_is_sync_required(&self, client_value: SyncVersionFromClient) -> (r: SyncCheckResult)
        ensures
            r == self.spec_sync_version().spec_check_is_sync_required(client_value),
    {
        self.sync_version().check_is_sync_required(client_value)
    }

    fn increment_if_not_max_value(&self) -> (r: Self)
        ensures
            r.spec_sync_version() == self.spec_sync_version().spec_increment_if_not_max_value(),
    {
        Self::new_with_sync_version(self.sync_version().increment_if_not_max_value())
    }

    fn increment_if_not_max_value_mut(&mut self)
        ensures
            final(self).spec_sync_version() == old(self).spec_sync_version().spec_increment_if_not_max_value(),
    {
        let new = Self::new_with_sync_version(self.sync_version().increment_if_not_max_value());
        *self = new;
    }

    fn return_new_if_different(&self, new: Self) -> (r: Option<Self>)
        ensures
            r == (if self.spec_sync_version() != new.spec_sync_version() { Some(new) } else { None }),
    {
        if self.sync_version() != new.sync_version() {
            Some(new)
        } else {
            None
        }
    }
}

/// Incrementing keeps a version in `[0, 255]`, never lowers it, and
/// raises it by one below 255.
pub proof fn lemma_increment_if_not_max_value(v: SyncVersion)
    requires
        v.wf(),
    ensures
        v.spec_increment_if_not_max_value().wf(),
        v.version <= v.spec_increment_if_not_max_value().version,
        v.version < 255 ==> v.spec_increment_if_not_max_value().version == v.version + 1,
{
}

/// A client that reports the server's own version (below 255) needs no
/// sync; any other version below 255 needs a sync.
pub proof fn lemma_check_is_sync_required(v: SyncVersion, client_value: SyncVersionFromClient)
    requires
        client_value.0 < 255,
    ensures
        (v.spec_check_is_sync_required(client_value) == SyncCheckResult::DoNothing)
            == (client_value.0 as i16 == v.version),
        v.spec_check_is_sync_required(client_value) != SyncCheckResult::ResetVersionAndSync,
{
}

/// Sync version of one data type, in the range `[0, 255]`.
#[derive(Debug, Clone, Copy, PartialEq, Eq, Structural)]
pub struct AccountSyncVersion {
    pub version: SyncVersion,
}

impl AccountSyncVersion {
    pub fn new(id: i16) -> (r: Self)
        ensures
            r.version == SyncVersion::spec_new(id),
    {
        Self { version: SyncVersion::new(id) }
    }

    pub fn as_i16(&self) -> (r: &i16)
        ensures
            *r == self.version.version,
    {
        self.version.as_i16()
    }
}

impl Default for AccountSyncVersion {
    fn default() -> (r: Self)
        ensures
            r.version.version == 0,
    {
        Self { version: SyncVersion::default() }
    }
}

impl SyncVersionUtils for AccountSyncVersion {
    open spec fn spec_sync_version(&self) -> SyncVersion {
        self.version
    }

    fn sync_version(&self) -> (r: SyncVersion) {
        self.version
    }

    fn new_with_sync_version(sync_version: SyncVersion) -> (r: Self) {
        Self { version: sync_version }
    }
}

/// Sync version of one data type, in the range `[0, 255]`.
#[derive(Debug, Clone, Copy, PartialEq, Eq, Structural)]
pub struct ClientConfigSyncVersion {
    pub version: SyncVersion,
}

impl ClientConfigSyncVersion {
    pub fn new(id: i16) -> (r: Self)
        ensures
            r.version == SyncVersion::spec_new(id),
    {
        Self { version: SyncVersion::new(id) }
    }

    pub fn as_i16(&self) -> (r: &i16)
        ensures
            *r == self.version.version,
    {
        self.version.as_i16()
    }
}

impl Default for ClientConfigSyncVersion {
    fn default() -> (r: Self)
        ensures
            r.version.version == 0,
    {
        Self { version: SyncVersion::default() }
    }
}

impl SyncVersionUtils for ClientConfigSyncVersion {
    open spec fn spec_sync_version(&self) -> SyncVersion {
        self.version
    }

    fn sync_version(&self) -> (r: SyncVersion) {
        self.version
    }

    fn new_with_sync_version(sync_version: SyncVersion) -> (r: Self) {
        Self { version: sync_version }
    }
}

/// Sync version of one data type, in the range `[0, 255]`.
#[derive(Debug, Clone, Copy, PartialEq, Eq, Structural)]
pub struct NewsSyncVersion {
    pub version: SyncVersion,
}

impl NewsSyncVersion {
    pub fn new(id: i16) -> (r: Self)
        ensures
            r.version == SyncVersion::spec_new(id),
    {
        Self { version: SyncVersion::new(id) }
    }

    pub fn as_i16(&self) -> (r: &i16)
        ensures
            *r == self.version.version,
    {
        self.version.as_i16()
    }
}

impl Default for NewsSyncVersion {
    fn default() -> (r: Self)
        ensures
            r.version.version == 0,
    {
        Self { version: SyncVersion::default() }
    }
}

impl SyncVersionUtils for NewsSyncVersion {
    open spec fn spec_sync_version(&self) -> SyncVersion {
        self.version
    }

    fn sync_version(&self) -> (r: SyncVersion) {
        self.version
    }

    fn new_with_sync_version(sync_version: SyncVersion) -> (r: Self) {
        Self { version: sync_version }
    }
}

/// Sync version of one data type, in the range `[0, 255]`.
#[derive(Debug, Clone, Copy, PartialEq, Eq, Structural)]
pub struct ReceivedBlocksSyncVersion {
    pub version: SyncVersion,
}

impl ReceivedBlocksSyncVersion {
    pub fn new(id: i16) -> (r: Self)
        ensures
            r.version == SyncVersion::spec_new(id),
    {
        Self { version: SyncVersion::new(id) }
    }

    pub fn as_i16(&self) -> (r: &i16)
        ensures
            *r == self.version.version,
    {
        self.version.as_i16()
    }
}

impl Default for ReceivedBlocksSyncVersion {
    fn default() -> (r: Self)
        ensures
            r.version.version == 0,
    {
        Self { version: SyncVersion::default() }
    }
}

impl SyncVersionUtils for ReceivedBlocksSyncVersion {
    open spec fn spec_sync_version(&self) -> SyncVersion {
        self.version
    }

    fn sync_version(&self) -> (r: SyncVersion) {
        self.version
    }

    fn new_with_sync_version(sync_version: SyncVersion) -> (r: Self) {
        Self { version: sync_version }
    }
}

/// Sync version for new received likes count.
#[derive(Debug, Clone, Copy, PartialEq, Eq, Structural)]
pub struct ReceivedLikesSyncVersion {
    pub version: SyncVersion,
}

impl ReceivedLikesSyncVersion {
    pub fn new(id: i16) -> (r: Self)
        ensures
            r.version == SyncVersion::spec_new(id),
    {
        Self { version: SyncVersion::new(id) }
    }

    pub fn as_i16(&self) -> (r: &i16)
        ensures
            *r == self.version.version,
    {
        self.version.as_i16()
    }
}

impl Default for ReceivedLikesSyncVersion {
    fn default() -> (r: Self)
        ensures
            r.version.version == 0,
    {
        Self { version: SyncVersion::default() }
    }
}

impl SyncVersionUtils for ReceivedLikesSyncVersion {
    open spec fn spec_sync_version(&self) -> SyncVersion {
        self.version
    }

    fn sync_version(&self) -> (r: SyncVersion) {
        self.version
    }

    fn new_with_sync_version(sync_version: SyncVersion) -> (r: Self) {
        Self { version: sync_version }
    }
}

/// Sync version of one data type, in the range `[0, 255]`.
#[derive(Debug, Clone, Copy, PartialEq, Eq, Structural)]
pub struct SentBlocksSyncVersion {
    pub version: SyncVersion,
}

impl SentBlocksSyncVersion {
    pub fn new(id: i16) -> (r: Self)
        ensures
            r.version == SyncVersion::spec_new(id),
    {
        Self { version: SyncVersion::new(id) }
    }

    pub fn as_i16(&self) -> (r: &i16)
        ensures
            *r == self.version.version,
    {
        self.version.as_i16()
    }
}

impl Default for SentBlocksSyncVersion {
    fn default() -> (r: Self)
        ensures
            r.version.version == 0,
    {
        Self { version: SyncVersion::default() }
    }
}

impl SyncVersionUtils for SentBlocksSyncVersion {
    open spec fn spec_sync_version(&self) -> SyncVersion {
        self.version
    }

    fn sync_version(&self) -> (r: SyncVersion) {
        self.version
    }

    fn new_with_sync_version(sync_version: SyncVersion) -> (r: Self) {
        Self { version: sync_version }
    }
}

/// Sync version of one data type, in the range `[0, 255]`.
#[derive(Debug, Clone, Copy, PartialEq, Eq, Structural)]
pub struct SentLikesSyncVersion {
    pub version: SyncVersion,
}

impl SentLikesSyncVersion {
    pub fn new(id: i16) -> (r: Self)
        ensures
            r.version == SyncVersion::spec_new(id),
    {
        Self { version: SyncVersion::new(id) }
    }

    pub fn as_i16(&self) -> (r: &i16)
        ensures
            *r == self.version.version,
    {
        self.version.as_i16()
    }
}

impl Default for SentLikesSyncVersion {
    fn default() -> (r: Self)
        ensures
            r.version.version == 0,
    {
        Self { version: SyncVersion::default() }
    }
}

impl SyncVersionUtils for SentLikesSyncVersion {
    open spec fn spec_sync_version(&self) -> SyncVersion {
        self.version
    }

    fn sync_version(&self) -> (r: SyncVersion) {
        self.version
    }

    fn new_with_sync_version(sync_version: SyncVersion) -> (r: Self) {
        Self { version: sync_version }
    }
}

/// Sync version of one data type, in the range `[0, 255]`.
#[derive(Debug, Clone, Copy, PartialEq, Eq, Structural)]
pub struct MatchesSyncVersion {
    pub version: SyncVersion,
}

impl MatchesSyncVersion {
    pub fn new(id: i16) -> (r: Self)
        ensures
            r.version == SyncVersion::spec_new(id),
    {
        Self { version: SyncVersion::new(id) }
    }

    pub fn as_i16(&self) -> (r: &i16)
        ensures
            *r == self.version.version,
    {
        self.version.as_i16()
    }
}

impl Default for MatchesSyncVersion {
    fn default() -> (r: Self)
        ensures
            r.version.version == 0,
    {
        Self { version: SyncVersion::default() }
    }
}

impl SyncVersionUtils for MatchesSyncVersion {
    open spec fn spec_sync_version(&self) -> SyncVersion {
        self.version
    }

    fn sync_version(&self) -> (r: SyncVersion) {
        self.version
    }

    fn new_with_sync_version(sync_version: SyncVersion) -> (r: Self) {
        Self { version: sync_version }
    }
}

/// Sync version of one data type, in the range `[0, 255]`.
#[derive(Debug, Clone, Copy, PartialEq, Eq, Structural)]
pub struct DailyLikesLeftSyncVersion {
    pub version: SyncVersion,
}

impl DailyLikesLeftSyncVersion {
    pub fn new(id: i16) -> (r: Self)
        ensures
            r.version == SyncVersion::spec_new(id),
    {
        Self { version: SyncVersion::new(id) }
    }

    pub fn as_i16(&self) -> (r: &i16)
        ensures
            *r == self.version.version,
    {
        self.version.as_i16()
    }
}

impl Default for DailyLikesLeftSyncVersion {
    fn default() -> (r: Self)
        ensures
            r.version.version == 0,
    {
        Self { version: SyncVersion::default() }
    }
}

impl SyncVersionUtils for DailyLikesLeftSyncVersion {
    open spec fn spec_sync_version(&self) -> SyncVersion {
        self.version
    }

    fn sync_version(&self) -> (r: SyncVersion) {
        self.version
    }

    fn new_with_sync_version(sync_version: SyncVersion) -> (r: Self) {
        Self { version: sync_version }
    }
}

/// Sync version of one data type, in the range `[0, 255]`.
#[derive(Debug, Clone, Copy, PartialEq, Eq, Structural)]
pub struct PushNotificationInfoSyncVersion {
    pub version: SyncVersion,
}

impl PushNotificationInfoSyncVersion {
    pub fn new(id: i16) -> (r: Self)
        ensures
            r.version == SyncVersion::spec_new(id),
    {
        Self { version: SyncVersion::new(id) }
    }

    pub fn as_i16(&self) -> (r: &i16)
        ensures
            *r == self.version.version,
    {
        self.version.as_i16()
    }
}

impl Default for PushNotificationInfoSyncVersion {
    fn default() -> (r: Self)
        ensures
            r.version.version == 0,
    {
        Self { version: SyncVersion::default() }
    }
}

impl SyncVersionUtils for PushNotificationInfoSyncVersion {
    open spec fn spec_sync_version(&self) -> SyncVersion {
        self.version
    }

    fn sync_version(&self) -> (r: SyncVersion) {
        self.version
    }

    fn new_with_sync_version(sync_version: SyncVersion) -> (r: Self) {
        Self { version: sync_version }
    }
}

} // verus!
