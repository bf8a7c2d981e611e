//! Media content identifiers and content processing states.
use vstd::prelude::*;

use crate::backend::{is_uuid_v4, UuidBase64Url};
use crate::common::{AccountId, AccountIdInternal};
use crate::outside::base64_url_safe_no_pad_encode;
use crate::text::{append_i64_decimal, int_to_decimal};
use crate::EnumParsingError;

verus! {

/// Primary key of the media content table.
#[derive(Debug, Clone, Copy, PartialEq, Eq, Structural)]
pub struct ContentIdDb(pub i64);

impl ContentIdDb {
    pub fn as_ref(&self) -> (r: &i64)
        ensures
            *r == self.0,
    {
        &self.0
    }
}

/// Content ID for media content. It is unique for one account, so another
/// account might use the same ID for another content.
#[derive(Debug, Clone, Copy, PartialEq, Eq, Structural)]
pub struct ContentId {
    pub cid: UuidBase64Url,
}

impl ContentId {
    /// A new random content ID: a random version 4 UUID.
    pub fn new_random() -> (r: Self)
        ensures
            is_uuid_v4(r.cid.bytes_view()),
    {
        Self { cid: UuidBase64Url::new_random_id() }
    }

    /// File name for unprocessed user uploaded content: the ID text and
    /// `.raw`.
    pub fn raw_content_file_name(&self) -> (r: String)
        ensures
            r@ == base64_url_safe_no_pad_encode(self.cid.bytes_view()) + ".raw"@,
    {
        let mut s = self.cid.to_text();
        s.append(".raw");
        s
    }

    /// File name for processed content: the ID text.
    pub fn content_file_name(&self) -> (r: String)
        ensures
            r@ == base64_url_safe_no_pad_encode(self.cid.bytes_view()),
    {
        self.cid.to_text()
    }

    /// Whether the ID is missing from `ids`.
    pub fn not_in(&self, ids: &[ContentId]) -> (r: bool)
        ensures
            r == !ids@.contains(*self),
    {
        let mut i: usize = 0;
        while i < ids.len()
            invariant
                i <= ids@.len(),
                forall|t: int| 0 <= t < i ==> ids@[t] != *self,
            decreases ids@.len() - i,
        {
            if ids[i].cid == self.cid {
                assert(ids@[i as int] == *self);
                return false;
            }
            i = i + 1;
        }
        true
    }

    pub fn as_ref(&self) -> (r: &UuidBase64Url)
        ensures
            *r == self.cid,
    {
        &self.cid
    }
}

/// Both IDs of a content and its owner.
#[derive(Debug, Clone, Copy, PartialEq, Eq, Structural)]
pub struct ContentIdInternal {
    aid: AccountIdInternal,
    cid: ContentId,
    cid_db: ContentIdDb,
}

impl ContentIdInternal {
    pub closed spec fn spec_owner(self) -> AccountIdInternal {
        self.aid
    }

    pub closed spec fn spec_content_id(self) -> ContentId {
        self.cid
    }

    pub closed spec fn spec_db_id(self) -> ContentIdDb {
        self.cid_db
    }

    pub fn new(aid: AccountIdInternal, cid: ContentId, cid_db: ContentIdDb) -> (r: Self)
        ensures
            r.spec_owner() == aid,
            r.spec_content_id() == cid,
            r.spec_db_id() == cid_db,
    {
        Self { aid, cid, cid_db }
    }

    pub fn as_db_id(&self) -> (r: &ContentIdDb)
        ensures
            *r == self.spec_db_id(),
    {
        &self.cid_db
    }

    pub fn account_id(&self) -> (r: AccountId)
        ensures
            r == self.spec_owner().uuid,
    {
        self.aid.uuid
    }

    pub fn content_owner(&self) -> (r: AccountIdInternal)
        ensures
            r == self.spec_owner(),
    {
        self.aid
    }

    pub fn content_id(&self) -> (r: ContentId)
        ensures
            r == self.spec_content_id(),
    {
        self.cid
    }
}

/// Profile content slot.
#[derive(Debug, Clone, Copy, PartialEq, Eq, Structural)]
pub enum ContentSlot {
    Content0,
    Content1,
    Content2,
    Content3,
    Content4,
    Content5,
    Content6,
}

impl ContentSlot {
    /// Number of the slot, from 0 to 6.
    pub open spec fn spec_to_i16(self) -> i16 {
        match self {
            Self::Content0 => 0,
            Self::Content1 => 1,
            Self::Content2 => 2,
            Self::Content3 => 3,
            Self::Content4 => 4,
            Self::Content5 => 5,
            Self::Content6 => 6,
        }
    }

    /// Each variant has the number that the documentation gives it.
    pub proof fn lemma_documented_numbers(self)
        ensures
            self is Content0 ==> self.spec_to_i16() == 0,
            self is Content1 ==> self.spec_to_i16() == 1,
            self is Content2 ==> self.spec_to_i16() == 2,
            self is Content3 ==> self.spec_to_i16() == 3,
            self is Content4 ==> self.spec_to_i16() == 4,
            self is Content5 ==> self.spec_to_i16() == 5,
            self is Content6 ==> self.spec_to_i16() == 6,
    {
    }

    pub fn to_i16(self) -> (r: i16)
        ensures
            r == self.spec_to_i16(),
    {
        match self {
            Self::Content0 => 0,
            Self::Content1 => 1,
            Self::Content2 => 2,
            Self::Content3 => 3,
            Self::Content4 => 4,
            Self::Content5 => 5,
            Self::Content6 => 6,
        }
    }

    /// The slot numbered `v`, or an error when `v` is not in `[0, 6]`.
    pub fn try_from_i16(v: i16) -> (r: Result<Self, EnumParsingError>)
        ensures
            match r {
                Ok(s) => s.spec_to_i16() == v,
                Err(e) => !(0 <= v <= 6) && e == EnumParsingError::ParsingError(v as i64),
            },
    {
        if v == 0 {
            Ok(Self::Content0)
        } else if v == 1 {
            Ok(Self::Content1)
        } else if v == 2 {
            Ok(Self::Content2)
        } else if v == 3 {
            Ok(Self::Content3)
        } else if v == 4 {
            Ok(Self::Content4)
        } else if v == 5 {
            Ok(Self::Content5)
        } else if v == 6 {
            Ok(Self::Content6)
        } else {
            Err(EnumParsingError::ParsingError(v as i64))
        }
    }
}

/// Content which is queued to be processed.
#[derive(Debug, Clone, Copy, PartialEq, Eq, Structural)]
pub struct ContentProcessingId {
    aid: AccountId,
    slot: ContentSlot,
    /// Server process specific unique ID
    id: i64,
}

impl ContentProcessingId {
    pub closed spec fn spec_id(self) -> i64 {
        self.id
    }

    pub closed spec fn spec_slot(self) -> ContentSlot {
        self.slot
    }

    pub closed spec fn spec_account_id(self) -> AccountId {
        self.aid
    }

    pub fn new(aid: AccountId, slot: ContentSlot, id: i64) -> (r: Self)
        ensures
            r.spec_account_id() == aid,
            r.spec_slot() == slot,
            r.spec_id() == id,
    {
        Self { aid, slot, id }
    }

    pub fn server_process_id(&self) -> (r: i64)
        ensures
            r == self.spec_id(),
    {
        self.id
    }

    /// File name for processed content: the process specific ID, `_` and
    /// the slot number.
    pub fn content_file_name(&self) -> (r: String)
        ensures
            r@ == int_to_decimal(self.spec_id() as int) + "_"@ + int_to_decimal(self.spec_slot().spec_to_i16() as int),
    {
        let mut s = String::new();
        append_i64_decimal(&mut s, self.id);
        s.append("_");
        append_i64_decimal(&mut s, self.slot.to_i16() as i64);
        s
    }

    /// File name for unprocessed user uploaded content: the processed
    /// content file name and `.raw`.
    pub fn raw_content_file_name(&self) -> (r: String)
        ensures
            r@ == int_to_decimal(self.spec_id() as int) + "_"@ + int_to_decimal(self.spec_slot().spec_to_i16() as int)
                + ".raw"@,
    {
        let mut s = self.content_file_name();
        s.append(".raw");
        s
    }
}

/// Version UUID for public profile content.
#[derive(Debug, Clone, Copy, PartialEq, Eq, Structural)]
pub struct ProfileContentVersion {
    pub v: UuidBase64Url,
}

impl ProfileContentVersion {
    pub open spec fn uuid(&self) -> UuidBase64Url {
        self.v
    }

    pub fn new_base_64_url(version: UuidBase64Url) -> (r: Self)
        ensures
            r.uuid() == version,
    {
        Self { v: version }
    }

    pub fn as_ref(&self) -> (r: &UuidBase64Url)
        ensures
            *r == self.uuid(),
    {
        &self.v
    }

    /// A new random version: a random version 4 UUID.
    pub fn new_random() -> (r: Self)
        ensures
            is_uuid_v4(r.uuid().bytes_view()),
    {
        Self { v: UuidBase64Url::new_random_id() }
    }
}

/// State of a content processing slot.
#[derive(Debug, Clone, Copy, Default, PartialEq, Eq, Structural)]
pub enum ContentProcessingStateType {
    /// This content slot is empty.
    #[default]
    Empty,
    /// Content is waiting in processing queue.
    InQueue,
    /// Content processing is ongoing.
    Processing,
    /// Content is processed and content ID is now available.
    Completed,
    /// Content processing failed.
    Failed,
    /// NSFW detected.
    NsfwDetected,
}

impl ContentProcessingStateType {
    /// Number of the state: Empty 0, InQueue 1, Processing 2, Completed 3,
    /// Failed 4, NsfwDetected 5.
    pub open spec fn spec_to_u8(self) -> u8 {
        match self {
            Self::Empty => 0,
            Self::InQueue => 1,
            Self::Processing => 2,
            Self::Completed => 3,
            Self::Failed => 4,
            Self::NsfwDetected => 5,
        }
    }

    /// Each variant has the number that the documentation gives it, and each such
    /// number is read back as its variant.
    pub proof fn lemma_documented_numbers(self)
        ensures
            self is Empty ==> self.spec_to_u8() == 0,
            self is InQueue ==> self.spec_to_u8() == 1,
            self is Processing ==> self.spec_to_u8() == 2,
            self is Completed ==> self.spec_to_u8() == 3,
            self is Failed ==> self.spec_to_u8() == 4,
            self is NsfwDetected ==> self.spec_to_u8() == 5,
            Self::spec_from_u8(0) == Some(Self::Empty),
            Self::spec_from_u8(1) == Some(Self::InQueue),
            Self::spec_from_u8(2) == Some(Self::Processing),
            Self::spec_from_u8(3) == Some(Self::Completed),
            Self::spec_from_u8(4) == Some(Self::Failed),
            Self::spec_from_u8(5) == Some(Self::NsfwDetected),
    {
    }

    pub open spec fn spec_from_u8(v: u8) -> Option<Self> {
        if v == 0 {
            Some(Self::Empty)
        } else if v == 1 {
            Some(Self::InQueue)
        } else if v == 2 {
            Some(Self::Processing)
        } else if v == 3 {
            Some(Self::Completed)
        } else if v == 4 {
            Some(Self::Failed)
        } else if v == 5 {
            Some(Self::NsfwDetected)
        } else {
            None
        }
    }

    pub fn to_u8(self) -> (r: u8)
        ensures
            r == self.spec_to_u8(),
    {
        match self {
            Self::Empty => 0,
            Self::InQueue => 1,
            Self::Processing => 2,
            Self::Completed => 3,
            Self::Failed => 4,
            Self::NsfwDetected => 5,
        }
    }

    pub fn try_from_u8(v: u8) -> (r: Result<Self, EnumParsingError>)
        ensures
            match Self::spec_from_u8(v) {
                Some(t) => r == Ok::<Self, EnumParsingError>(t),
                None => r == Err::<Self, EnumParsingError>(EnumParsingError::ParsingError(v as i64)),
            },
    {
        if v == 0 {
            Ok(Self::Empty)
        } else if v == 1 {
            Ok(Self::InQueue)
        } else if v == 2 {
            Ok(Self::Processing)
        } else if v == 3 {
            Ok(Self::Completed)
        } else if v == 4 {
            Ok(Self::Failed)
        } else if v == 5 {
            Ok(Self::NsfwDetected)
        } else {
            Err(EnumParsingError::ParsingError(v as i64))
        }
    }
}

/// Content processing state with its state specific data.
#[derive(Debug, Clone, Copy, PartialEq, Eq, Structural)]
pub enum ContentProcessingStateInternal {
    Empty,
    InQueue { wait_queue_position: i64 },
    Processing,
    Completed { content_id: ContentId, face_detected: bool },
    Failed,
    NsfwDetected,
}

impl ContentProcessingStateInternal {
    pub open spec fn spec_state_type(self) -> ContentProcessingStateType {
        match self {
            Self::Empty => ContentProcessingStateType::Empty,
            Self::InQueue { .. } => ContentProcessingStateType::InQueue,
            Self::Processing => ContentProcessingStateType::Processing,
            Self::Completed { .. } => ContentProcessingStateType::Completed,
            Self::Failed => ContentProcessingStateType::Failed,
            Self::NsfwDetected => ContentProcessingStateType::NsfwDetected,
        }
    }

    pub fn state_type(&self) -> (r: ContentProcessingStateType)
        ensures
            r == self.spec_state_type(),
    {
        match self {
            Self::Empty => ContentProcessingStateType::Empty,
            Self::InQueue { .. } => ContentProcessingStateType::InQueue,
            Self::Processing => ContentProcessingStateType::Processing,
            Self::Completed { .. } => ContentProcessingStateType::Completed,
            Self::Failed => ContentProcessingStateType::Failed,
            Self::NsfwDetected => ContentProcessingStateType::NsfwDetected,
        }
    }

    /// Each state has the documented type number: Empty 0, InQueue 1,
    /// Processing 2, Completed 3, Failed 4, NsfwDetected 5.
    pub proof fn lemma_state_type_numbers(self)
        ensures
            self is Empty ==> self.spec_state_type().spec_to_u8() == 0,
            self is InQueue ==> self.spec_state_type().spec_to_u8() == 1,
            self is Processing ==> self.spec_state_type().spec_to_u8() == 2,
            self is Completed ==> self.spec_state_type().spec_to_u8() == 3,
            self is Failed ==> self.spec_state_type().spec_to_u8() == 4,
            self is NsfwDetected ==> self.spec_state_type().spec_to_u8() == 5,
    {
    }

    /// The state as the API shows it: the state type and the data of the
    /// state, other fields empty.
    pub open spec fn spec_external(self) -> ContentProcessingState {
        ContentProcessingState {
            state: self.spec_state_type(),
            wait_queue_position: match self {
                Self::InQueue { wait_queue_position } => Some(wait_queue_position),
                _ => None,
            },
            cid: match self {
                Self::Completed { content_id, .. } => Some(content_id),
                _ => None,
            },
            fd: match self {
                Self::Completed { face_detected, .. } => Some(face_detected),
                _ => None,
            },
        }
    }

    pub fn to_external(&self) -> (r: ContentProcessingState)
        ensures
            r == self.spec_external(),
    {
        match self {
            Self::Empty => ContentProcessingState {
                state: ContentProcessingStateType::Empty,
                wait_queue_position: None,
                cid: None,
                fd: None,
            },
            Self::InQueue { wait_queue_position } => ContentProcessingState {
                state: ContentProcessingStateType::InQueue,
                wait_queue_position: Some(*wait_queue_position),
                cid: None,
                fd: None,
            },
            Self::Processing => ContentProcessingState {
                state: ContentProcessingStateType::Processing,
                wait_queue_position: None,
                cid: None,
                fd: None,
            },
            Self::Completed { content_id, face_detected } => ContentProcessingState {
                state: ContentProcessingStateType::Completed,
                wait_queue_position: None,
                cid: Some(*content_id),
                fd: Some(*face_detected),
            },
            Self::Failed => ContentProcessingState {
                state: ContentProcessingStateType::Failed,
                wait_queue_position: None,
                cid: None,
                fd: None,
            },
            Self::NsfwDetected => ContentProcessingState {
                state: ContentProcessingStateType::NsfwDetected,
                wait_queue_position: None,
                cid: None,
                fd: None,
            },
        }
    }
}

/// The API form of a state keeps all of the state: different states have
/// different API forms.
pub proof fn lemma_external_injective(a: ContentProcessingStateInternal, b: ContentProcessingStateInternal)
    ensures
        a.spec_external() == b.spec_external() ==> a == b,
{
}

/// Content processing state as the API shows it.
#[derive(Debug, Clone, Copy, Default, PartialEq, Eq, Structural)]
pub struct ContentProcessingState {
    pub state: ContentProcessingStateType,
    /// Current position in the processing queue. Content added to an
    /// empty queue has position 1.
    pub wait_queue_position: Option<i64>,
    /// Content ID of the processed content.
    pub cid: Option<ContentId>,
    /// Face detected info of the processed content.
    pub fd: Option<bool>,
}

impl ContentSlot {
    /// Different values have different numbers, so reading a value's
    /// number back gives the value.
    pub proof fn lemma_number_injective(a: Self, b: Self)
        ensures
            a.spec_to_i16() == b.spec_to_i16() <==> a == b,
    {
    }
}

impl ContentProcessingStateType {
    /// Different values have different numbers, so reading a value's
    /// number back gives the value.
    pub proof fn lemma_number_injective(a: Self, b: Self)
        ensures
            a.spec_to_u8() == b.spec_to_u8() <==> a == b,
    {
    }
}

} // verus!
