//! Chat values: public keys, received likes and matches iterators, data
//! transfer messages and pending chat notifications.
use vstd::prelude::*;

use crate::backend::{is_uuid_v4, UnixTime, UuidBase64Url};
use crate::common::{AccountId, AccountIdDb, AccountIdInternal, NotificationEvent};
use crate::interaction::MessageId;
use crate::profile::LastSeenTime;
use crate::outside::{
    base64_standard_encode, encode_standard, random_uuid_v4_bytes, random_uuid_v4_bytes_le,
    uuid_hyphenated, uuid_hyphenated_text,
};
use crate::interaction::saturating_add_i64;
use crate::sync_version::{MatchesSyncVersion, ReceivedLikesSyncVersion};

verus! {

/// Counter that hands out consecutive numbers, wrapping at the end of the
/// `i64` range.
#[derive(Debug, Clone, Copy, Default, PartialEq, Eq, Structural)]
pub struct NextNumberStorage {
    next: i64,
}

impl NextNumberStorage {
    pub closed spec fn spec_next(self) -> i64 {
        self.next
    }

    /// The next number; the counter moves on by one, from `i64::MAX` to
    /// `i64::MIN`.
    pub fn get_and_increment(&mut self) -> (r: i64)
        ensures
            r == old(self).spec_next(),
            final(self).spec_next() == if old(self).spec_next() == i64::MAX {
                i64::MIN
            } else {
                (old(self).spec_next() + 1) as i64
            },
    {
        let next = self.next;
        self.next = if self.next == i64::MAX { i64::MIN } else { self.next + 1 };
        next
    }
}

/// Message number in a conversation.
#[derive(Debug, Clone, Copy, Default, PartialEq, Eq, Structural)]
pub struct MessageNumber {
    pub mn: i64,
}

impl MessageNumber {
    pub fn new(id: i64) -> (r: Self)
        ensures
            r.mn == id,
    {
        Self { mn: id }
    }

    pub fn as_i64(&self) -> (r: &i64)
        ensures
            *r == self.mn,
    {
        &self.mn
    }
}

/// Public key ID.
#[derive(Debug, Clone, Copy, Default, PartialEq, Eq, Structural)]
pub struct PublicKeyId {
    pub id: i64,
}

impl PublicKeyId {
    pub fn new(id: i64) -> (r: Self)
        ensures
            r.id == id,
    {
        Self { id }
    }

    pub fn as_i64(&self) -> (r: &i64)
        ensures
            *r == self.id,
    {
        &self.id
    }
}

/// Public key version.
#[derive(Debug, Clone, Copy, Default, PartialEq, Eq, Structural)]
pub struct PublicKeyVersion {
    pub version: i64,
}

impl PublicKeyVersion {
    pub fn new(id: i64) -> (r: Self)
        ensures
            r.version == id,
    {
        Self { version: id }
    }

    pub fn as_i64(&self) -> (r: &i64)
        ensures
            *r == self.version,
    {
        &self.version
    }
}

/// Public key ID with its version.
#[derive(Debug, Clone, Copy, Default, PartialEq, Eq, Structural)]
pub struct PublicKeyIdAndVersion {
    pub id: PublicKeyId,
    pub version: PublicKeyVersion,
}

/// Public key data.
#[derive(Debug, Clone)]
pub struct PublicKeyData {
    data: String,
}

impl View for PublicKeyData {
    type V = Seq<char>;

    closed spec fn view(&self) -> Seq<char> {
        self.data@
    }
}

impl PublicKeyData {
    pub fn new(data: String) -> (r: Self)
        ensures
            r@ == data@,
    {
        Self { data }
    }

    pub fn into_string(self) -> (r: String)
        ensures
            r@ == self@,
    {
        self.data
    }

    pub fn as_str(&self) -> (r: &str)
        ensures
            r@ == self@,
    {
        self.data.as_str()
    }
}

/// A public key.
#[derive(Debug, Clone)]
pub struct PublicKey {
    pub id: PublicKeyId,
    pub version: PublicKeyVersion,
    pub data: PublicKeyData,
}

/// Public key of an account, if it has one.
#[derive(Debug, Clone)]
pub struct GetPublicKey {
    pub key: Option<PublicKey>,
}

/// New public key.
#[derive(Debug, Clone)]
pub struct SetPublicKey {
    pub version: PublicKeyVersion,
    pub data: PublicKeyData,
}

/// Count of new received likes.
#[derive(Debug, Clone, Copy, Default, PartialEq, Eq, Structural)]
pub struct NewReceivedLikesCount {
    pub c: i64,
}

impl NewReceivedLikesCount {
    pub fn new(count: i64) -> (r: Self)
        ensures
            r.c == count,
    {
        Self { c: count }
    }

    pub fn as_i64(&self) -> (r: &i64)
        ensures
            *r == self.c,
    {
        &self.c
    }

    /// One more; the count stops at `i64::MAX`.
    pub fn increment(&self) -> (r: Self)
        ensures
            r.c == saturating_add_i64(self.c as int, 1),
    {
        Self { c: if self.c == i64::MAX { i64::MAX } else { self.c + 1 } }
    }

    /// One less; the count stops at zero.
    pub fn decrement(&self) -> (r: Self)
        requires
            self.c > i64::MIN,
        ensures
            r.c == if self.c - 1 > 0 { self.c - 1 } else { 0 },
    {
        let d = self.c - 1;
        Self { c: if d > 0 { d } else { 0 } }
    }
}

/// New received likes count with the received likes sync version.
#[derive(Debug, Clone, Copy, Default, PartialEq, Eq, Structural)]
pub struct NewReceivedLikesCountResult {
    pub v: ReceivedLikesSyncVersion,
    pub c: NewReceivedLikesCount,
}

/// Count of items on a received likes page that are new likes.
#[derive(Debug, Clone, Copy, Default, PartialEq, Eq, Structural)]
pub struct PageItemCountForNewLikes {
    pub c: i64,
}

/// Session ID of a received likes iterator on the server.
#[derive(Debug, Clone, Copy, PartialEq, Eq, Structural)]
pub struct ReceivedLikesIteratorSessionIdInternal {
    id: i64,
}

impl ReceivedLikesIteratorSessionIdInternal {
    pub closed spec fn spec_id(self) -> i64 {
        self.id
    }

    /// A session ID from the next number of `storage`.
    pub fn create(storage: &mut NextNumberStorage) -> (r: Self)
        ensures
            r.spec_id() == old(storage).spec_next(),
            final(storage).spec_next() == if old(storage).spec_next() == i64::MAX {
                i64::MIN
            } else {
                (old(storage).spec_next() + 1) as i64
            },
    {
        Self { id: storage.get_and_increment() }
    }

    pub fn from_api(value: ReceivedLikesIteratorSessionId) -> (r: Self)
        ensures
            r.spec_id() == value.spec_id(),
    {
        Self { id: value.id }
    }
}

/// Session ID of a received likes iterator in the API.
#[derive(Debug, Clone, Copy, PartialEq, Eq, Structural)]
pub struct ReceivedLikesIteratorSessionId {
    id: i64,
}

impl ReceivedLikesIteratorSessionId {
    pub closed spec fn spec_id(self) -> i64 {
        self.id
    }

    pub fn from_internal(value: ReceivedLikesIteratorSessionIdInternal) -> (r: Self)
        ensures
            r.spec_id() == value.spec_id(),
    {
        Self { id: value.id }
    }
}

/// Result of resetting the received likes iterator.
#[derive(Debug, Clone, Copy, PartialEq, Eq, Structural)]
pub struct ResetReceivedLikesIteratorResult {
    pub v: ReceivedLikesSyncVersion,
    pub c: NewReceivedLikesCount,
    pub s: ReceivedLikesIteratorSessionId,
}

/// A page of received likes.
#[derive(Debug, Clone)]
pub struct ReceivedLikesPage {
    pub n: PageItemCountForNewLikes,
    pub p: Vec<AccountId>,
    pub error_invalid_iterator_session_id: bool,
}

/// Random session ID of a matches iterator on the server.
#[derive(Debug, Clone, Copy, PartialEq, Eq)]
pub struct MatchesIteratorSessionIdInternal {
    id: [u8; 16],
}

impl MatchesIteratorSessionIdInternal {
    pub closed spec fn spec_bytes(self) -> Seq<u8> {
        self.id@
    }

    /// A new random version 4 UUID session ID.
    pub fn create_random() -> (r: Self)
        ensures
            is_uuid_v4(r.spec_bytes()),
    {
        Self { id: random_uuid_v4_bytes() }
    }
}

/// Session ID of a matches iterator in the API: hyphenated UUID text.
#[derive(Debug, Clone)]
pub struct MatchesIteratorSessionId {
    id: String,
}

impl View for MatchesIteratorSessionId {
    type V = Seq<char>;

    closed spec fn view(&self) -> Seq<char> {
        self.id@
    }
}

impl MatchesIteratorSessionId {
    /// The hyphenated text of the session UUID.
    pub fn from_internal(value: MatchesIteratorSessionIdInternal) -> (r: Self)
        ensures
            r@ == uuid_hyphenated_text(value.spec_bytes()),
    {
        Self { id: uuid_hyphenated(value.id) }
    }

    pub fn as_str(&self) -> (r: &str)
        ensures
            r@ == self@,
    {
        self.id.as_str()
    }
}

/// All matches.
#[derive(Debug, Clone)]
pub struct AllMatchesPage {
    pub version: MatchesSyncVersion,
    pub profiles: Vec<AccountId>,
}

/// Result of resetting the matches iterator.
#[derive(Debug, Clone)]
pub struct ResetMatchesIteratorResult {
    pub s: MatchesIteratorSessionId,
}

/// A page of matches.
#[derive(Debug, Clone)]
pub struct MatchesPage {
    pub p: Vec<AccountId>,
    pub error_invalid_iterator_session_id: bool,
}

/// Role of a client in a data transfer.
#[derive(Debug, Clone, Copy, PartialEq, Eq, Structural)]
pub enum ClientRole {
    Target,
    Source,
}

/// First message of a data transfer.
#[derive(Debug, Clone)]
pub struct DataTransferInitialMessage {
    pub role: ClientRole,
    pub access_token: Option<String>,
    pub data: Option<String>,
    pub data_sha256: Option<String>,
}

/// Data of a data transfer.
#[derive(Debug, Clone)]
pub struct DataTransferData {
    pub data: String,
}

/// Byte count of a data transfer.
#[derive(Debug, Clone, Copy, PartialEq, Eq, Structural)]
pub struct DataTransferByteCount {
    pub byte_count: u32,
}

/// Pending chat notification flags as stored in the database.
#[derive(Debug, Clone, Copy, Default, PartialEq, Eq, Structural)]
pub struct PendingNotification(i64);

impl PendingNotification {
    pub closed spec fn spec_value(self) -> i64 {
        self.0
    }

    pub fn new(value: i64) -> (r: Self)
        ensures
            r.spec_value() == value,
    {
        Self(value)
    }

    pub fn as_i64(&self) -> (r: &i64)
        ensures
            *r == self.spec_value(),
    {
        &self.0
    }

    pub fn from_flags(value: PendingNotificationFlags) -> (r: Self)
        ensures
            r.spec_value() == value.spec_bits(),
    {
        Self(value.bits)
    }
}

/// Pending chat notification flags: NEW_MESSAGE 0x1.
#[derive(Debug, Clone, Copy, Default, PartialEq, Eq, Structural)]
pub struct PendingNotificationFlags {
    bits: i64,
}

impl PendingNotificationFlags {
    pub const NEW_MESSAGE: i64 = 0x1;

    pub closed spec fn spec_bits(self) -> i64 {
        self.bits
    }

    /// Keeps the defined flag of `bits`.
    pub fn from_bits_truncate(bits: i64) -> (r: Self)
        ensures
            r.spec_bits() == bits & 0x1,
    {
        Self { bits: bits & 0x1 }
    }

    pub fn bits(self) -> (r: i64)
        ensures
            r == self.spec_bits(),
    {
        self.bits
    }

    /// The flags stored in the database, the defined flag only.
    pub fn from_pending_notification(value: PendingNotification) -> (r: Self)
        ensures
            r.spec_bits() == value.spec_value() & 0x1,
    {
        Self::from_bits_truncate(value.0)
    }

    /// The flag of a new message event; other events have no flag here.
    pub fn from_event(value: NotificationEvent) -> (r: Self)
        ensures
            r.spec_bits() == if value == NotificationEvent::NewMessageReceived { 0x1i64 } else { 0i64 },
    {
        match value {
            NotificationEvent::NewMessageReceived => Self { bits: Self::NEW_MESSAGE },
            _ => Self { bits: 0 },
        }
    }
}

/// Firebase Cloud Messaging device token.
#[derive(Debug, Clone)]
pub struct FcmDeviceToken {
    token: String,
}

impl View for FcmDeviceToken {
    type V = Seq<char>;

    closed spec fn view(&self) -> Seq<char> {
        self.token@
    }
}

impl FcmDeviceToken {
    pub fn into_string(self) -> (r: String)
        ensures
            r@ == self@,
    {
        self.token
    }

    pub fn new(token: String) -> (r: Self)
        ensures
            r@ == token@,
    {
        Self { token }
    }

    pub fn as_str(&self) -> (r: &str)
        ensures
            r@ == self@,
    {
        self.token.as_str()
    }
}

/// Pending notification token as stored in the database.
#[derive(Debug, Clone)]
pub struct PendingNotificationTokenRaw {
    pub pending_notification_token: Option<PendingNotificationToken>,
}

/// Token for reading pending notifications: 256 random bits in standard
/// Base64.
#[derive(Debug, Clone)]
pub struct PendingNotificationToken {
    token: String,
}

impl View for PendingNotificationToken {
    type V = Seq<char>;

    closed spec fn view(&self) -> Seq<char> {
        self.token@
    }
}

impl PendingNotificationToken {
    /// A new token: the bytes of two random version 4 UUIDs, fields in
    /// little-endian order, in standard Base64 (44 characters).
    pub fn generate_new() -> (r: Self)
        ensures
            r@.len() == 44,
            exists|b: Seq<u8>| b.len() == 32 && r@ == base64_standard_encode(b),
    {
        let mut token: Vec<u8> = Vec::new();
        let first = random_uuid_v4_bytes_le();
        token.extend_from_slice(first.as_slice());
        let second = random_uuid_v4_bytes_le();
        token.extend_from_slice(second.as_slice());
        Self { token: encode_standard(token.as_slice()) }
    }

    pub fn new(token: String) -> (r: Self)
        ensures
            r@ == token@,
    {
        Self { token }
    }

    pub fn into_string(self) -> (r: String)
        ensures
            r@ == self@,
    {
        self.token
    }

    pub fn as_str(&self) -> (r: &str)
        ensures
            r@ == self@,
    {
        self.token.as_str()
    }
}

/// Pending notification with the accounts that sent new messages.
#[derive(Debug, Clone)]
pub struct PendingNotificationWithData {
    pub value: PendingNotification,
    pub new_message_received_from: Option<Vec<AccountId>>,
}

/// Message UUID which the sender generates.
#[derive(Debug, Clone, Copy, PartialEq, Eq, Structural)]
pub struct MessageUuid {
    id: UuidBase64Url,
}

impl MessageUuid {
    pub closed spec fn spec_id(self) -> UuidBase64Url {
        self.id
    }

    pub fn new(id: UuidBase64Url) -> (r: Self)
        ensures
            r.spec_id() == id,
    {
        Self { id }
    }

    pub fn id(&self) -> (r: UuidBase64Url)
        ensures
            r == self.spec_id(),
    {
        self.id
    }
}

/// New message count of one conversation.
#[derive(Debug, Clone, Copy, Default, PartialEq, Eq, Structural)]
pub struct NewMessageNotification {
    /// Message count
    pub m: i64,
}

/// New message counts.
#[derive(Debug, Clone, Default)]
pub struct NewMessageNotificationList {
    pub v: Vec<NewMessageNotification>,
}

/// A reported chat message.
#[derive(Debug, Clone)]
pub struct ChatMessageReport {
    /// Message without encryption and signing
    pub message_base64: String,
}

/// ID of a pending message.
#[derive(Debug, Clone, Copy, PartialEq, Eq, Structural)]
pub struct PendingMessageIdInternal {
    /// Sender of the message.
    pub sender: AccountIdInternal,
    /// Receiver of the message.
    pub receiver: AccountIdDb,
    pub m: MessageId,
}

/// A pending message ID and the time the message was sent.
#[derive(Debug, Clone, Copy, PartialEq, Eq, Structural)]
pub struct PendingMessageIdInternalAndMessageTime {
    pub id: PendingMessageIdInternal,
    pub time: UnixTime,
}

/// Request for the chat message reports of a creator about a target.
#[derive(Debug, Clone, Copy, PartialEq, Eq, Structural)]
pub struct GetChatMessageReports {
    pub creator: AccountId,
    pub target: AccountId,
    pub only_not_processed: bool,
}

/// Request for chat message reports with both IDs of each account.
#[derive(Debug, Clone, Copy, PartialEq, Eq, Structural)]
pub struct GetChatMessageReportsInternal {
    pub creator: AccountIdInternal,
    pub target: AccountIdInternal,
    pub only_not_processed: bool,
}

/// A pending message row in the database.
#[derive(Debug, Clone, Copy, PartialEq, Eq, Structural)]
pub struct PendingMessageRaw {
    pub id: i64,
    pub account_id_sender: AccountIdDb,
    pub account_id_receiver: AccountIdDb,
    pub sender_acknowledgement: bool,
    pub receiver_acknowledgement: bool,
    pub receiver_push_notification_sent: bool,
    pub receiver_email_notification_sent: bool,
    pub message_unix_time: UnixTime,
    pub message_id: MessageId,
    pub message_uuid: MessageUuid,
}

/// A pending message in a user's data export.
#[derive(Debug, Clone)]
pub struct DataExportPendingMessage {
    message_unix_time: UnixTime,
    message_id: MessageId,
    message_uuid: MessageUuid,
    message_bytes_base64: String,
}

impl DataExportPendingMessage {
    pub closed spec fn spec_values(&self) -> (UnixTime, MessageId, MessageUuid, Seq<char>) {
        (self.message_unix_time, self.message_id, self.message_uuid, self.message_bytes_base64@)
    }

    /// The message's time, ID and UUID with its bytes in standard Base64.
    pub fn new(message: PendingMessageRaw, message_bytes: Vec<u8>) -> (r: Self)
        requires
            message_bytes@.len() <= usize::MAX / 4,
        ensures
            r.spec_values() == (message.message_unix_time, message.message_id, message.message_uuid,
                base64_standard_encode(message_bytes@)),
    {
        Self {
            message_unix_time: message.message_unix_time,
            message_id: message.message_id,
            message_uuid: message.message_uuid,
            message_bytes_base64: encode_standard(message_bytes.as_slice()),
        }
    }
}

/// A pending message in an admin's data export.
#[derive(Debug, Clone)]
pub struct AdminDataExportPendingMessage {
    pending_message: PendingMessageRaw,
    message_bytes_base64: String,
}

impl AdminDataExportPendingMessage {
    pub closed spec fn spec_values(&self) -> (PendingMessageRaw, Seq<char>) {
        (self.pending_message, self.message_bytes_base64@)
    }

    /// The message row with its bytes in standard Base64.
    pub fn new(pending_message: PendingMessageRaw, message_bytes: Vec<u8>) -> (r: Self)
        requires
            message_bytes@.len() <= usize::MAX / 4,
        ensures
            r.spec_values() == (pending_message, base64_standard_encode(message_bytes@)),
    {
        Self { pending_message, message_bytes_base64: encode_standard(message_bytes.as_slice()) }
    }
}

/// Online status of an account.
#[derive(Debug, Clone, Copy, PartialEq, Eq, Structural)]
pub struct CheckOnlineStatusResponse {
    pub a: AccountId,
    pub l: LastSeenTime,
}

/// Conversation ID, if there is one.
#[derive(Debug, Clone, Copy, Default, PartialEq, Eq, Structural)]
pub struct GetConversationId {
    pub value: Option<crate::interaction::ConversationId>,
}

} // verus!
