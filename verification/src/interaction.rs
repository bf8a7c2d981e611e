//! Likes, matches and blocks between two accounts, with the message and
//! conversation counters of the pair.
use vstd::prelude::*;

use crate::backend::UnixTime;
use crate::common::{AccountIdDb, AccountIdInternal};
use crate::text::{int_to_decimal, text, text_with_number};

verus! {

/// `a + b` limited to the `i64` range.
pub open spec fn saturating_add_i64(a: int, b: int) -> i64 {
    if a + b > i64::MAX {
        i64::MAX
    } else if a + b < i64::MIN {
        i64::MIN
    } else {
        (a + b) as i64
    }
}

fn saturating_add(a: i64, b: i64) -> (r: i64)
    ensures
        r == saturating_add_i64(a as int, b as int),
{
    let sum = a as i128 + b as i128;
    if sum > i64::MAX as i128 {
        i64::MAX
    } else if sum < i64::MIN as i128 {
        i64::MIN
    } else {
        sum as i64
    }
}

/// Message ID for identifying a message in a conversation. The ID is
/// conversation specific and it increments.
#[derive(Debug, Clone, Copy, Default, PartialEq, Eq, Structural)]
pub struct MessageId {
    pub id: i64,
}

impl MessageId {
    pub fn new(id: i64) -> (r: Self)
        ensures
            r.id == id,
    {
        Self { id }
    }

    pub fn as_i64(&self) -> (r: &i64)
        ensures
            *r == self.id,
    {
        &self.id
    }
}

/// Match ID.
#[derive(Debug, Clone, Copy, Default, PartialEq, Eq, Structural)]
pub struct MatchId {
    pub id: i64,
}

impl MatchId {
    pub fn new(id: i64) -> (r: Self)
        ensures
            r.id == id,
    {
        Self { id }
    }

    pub fn as_i64(&self) -> (r: &i64)
        ensures
            *r == self.id,
    {
        &self.id
    }

    /// The next ID; the largest ID stays as it is.
    pub fn increment(&self) -> (r: Self)
        ensures
            r.id == saturating_add_i64(self.id as int, 1),
    {
        Self { id: saturating_add(self.id, 1) }
    }

    /// The ID before this one: -1 where no ID was used yet.
    pub fn next_id_to_latest_used_id(&self) -> (r: Self)
        requires
            self.id > i64::MIN,
        ensures
            r.id == self.id - 1,
    {
        Self { id: self.id - 1 }
    }

    pub fn into_i64(self) -> (r: i64)
        ensures
            r == self.id,
    {
        self.id
    }
}

/// Received like ID.
#[derive(Debug, Clone, Copy, Default, PartialEq, Eq, Structural)]
pub struct ReceivedLikeId {
    pub id: i64,
}

impl ReceivedLikeId {
    pub fn new(id: i64) -> (r: Self)
        ensures
            r.id == id,
    {
        Self { id }
    }

    pub fn as_i64(&self) -> (r: &i64)
        ensures
            *r == self.id,
    {
        &self.id
    }

    /// The next ID; the largest ID stays as it is.
    pub fn increment(&self) -> (r: Self)
        ensures
            r.id == saturating_add_i64(self.id as int, 1),
    {
        Self { id: saturating_add(self.id, 1) }
    }

    /// The ID before this one: -1 where no ID was used yet.
    pub fn next_id_to_latest_used_id(&self) -> (r: Self)
        requires
            self.id > i64::MIN,
        ensures
            r.id == self.id - 1,
    {
        Self { id: self.id - 1 }
    }

    pub fn into_i64(self) -> (r: i64)
        ensures
            r == self.id,
    {
        self.id
    }
}

/// Account specific conversation ID.
#[derive(Debug, Clone, Copy, Default, PartialEq, Eq, Structural)]
pub struct ConversationId {
    pub id: i64,
}

impl ConversationId {
    pub fn new(id: i64) -> (r: Self)
        ensures
            r.id == id,
    {
        Self { id }
    }

    pub fn as_i64(&self) -> (r: &i64)
        ensures
            *r == self.id,
    {
        &self.id
    }

    /// The next ID; the largest ID stays as it is.
    pub fn increment(&self) -> (r: Self)
        ensures
            r.id == saturating_add_i64(self.id as int, 1),
    {
        Self { id: saturating_add(self.id, 1) }
    }

    /// The ID before this one: -1 where no ID was used yet.
    pub fn next_id_to_latest_used_id(&self) -> (r: Self)
        requires
            self.id > i64::MIN,
        ensures
            r.id == self.id - 1,
    {
        Self { id: self.id - 1 }
    }

    pub fn into_i64(self) -> (r: i64)
        ensures
            r == self.id,
    {
        self.id
    }
}

/// Account interaction states. The states change in one direction only:
/// Empty, Like, Match.
#[derive(Debug, Clone, Copy, PartialEq, Eq, Structural)]
pub enum AccountInteractionState {
    Empty,
    Like,
    Match,
}

impl AccountInteractionState {
    /// Number of the state: Empty 0, Like 1, Match 2.
    pub open spec fn spec_to_i64(self) -> i64 {
        match self {
            Self::Empty => 0,
            Self::Like => 1,
            Self::Match => 2,
        }
    }

    /// Each variant has the number that the documentation gives it.
    pub proof fn lemma_documented_numbers(self)
        ensures
            self is Empty ==> self.spec_to_i64() == 0,
            self is Like ==> self.spec_to_i64() == 1,
            self is Match ==> self.spec_to_i64() == 2,
    {
    }

    pub fn to_i64(self) -> (r: i64)
        ensures
            r == self.spec_to_i64(),
    {
        match self {
            Self::Empty => 0,
            Self::Like => 1,
            Self::Match => 2,
        }
    }

    /// The state numbered `value`, or a wrong state number error.
    pub fn try_from_i64(value: i64) -> (r: Result<Self, AccountInteractionStateError>)
        ensures
            match r {
                Ok(s) => s.spec_to_i64() == value,
                Err(e) => !(0 <= value <= 2) && e == AccountInteractionStateError::WrongStateNumber(value),
            },
    {
        if value == 0 {
            Ok(Self::Empty)
        } else if value == 1 {
            Ok(Self::Like)
        } else if value == 2 {
            Ok(Self::Match)
        } else {
            Err(AccountInteractionStateError::WrongStateNumber(value))
        }
    }

    /// Name of the state.
    pub open spec fn spec_name(self) -> Seq<char> {
        match self {
            Self::Empty => "Empty"@,
            Self::Like => "Like"@,
            Self::Match => "Match"@,
        }
    }

    fn append_name(self, s: &mut String)
        ensures
            final(s)@ == old(s)@ + self.spec_name(),
    {
        match self {
            Self::Empty => s.append("Empty"),
            Self::Like => s.append("Like"),
            Self::Match => s.append("Match"),
        }
    }
}

impl TryFrom<i64> for AccountInteractionState {
    type Error = AccountInteractionStateError;

    fn try_from(value: i64) -> (r: Result<Self, Self::Error>)
        ensures
            match r {
                Ok(s) => s.spec_to_i64() == value,
                Err(e) => !(0 <= value <= 2) && e == AccountInteractionStateError::WrongStateNumber(value),
            },
    {
        Self::try_from_i64(value)
    }
}

impl vstd::std_specs::convert::TryFromSpecImpl<i64> for AccountInteractionState {
    open spec fn obeys_try_from_spec() -> bool {
        true
    }

    open spec fn try_from_spec(v: i64) -> Result<Self, AccountInteractionStateError> {
        if v == 0 {
            Ok(Self::Empty)
        } else if v == 1 {
            Ok(Self::Like)
        } else if v == 2 {
            Ok(Self::Match)
        } else {
            Err(AccountInteractionStateError::WrongStateNumber(v))
        }
    }
}

/// Error of reading or changing an interaction state.
#[derive(Debug, Clone, Copy, PartialEq, Eq, Structural)]
pub enum AccountInteractionStateError {
    WrongStateNumber(i64),
    Transition { from: AccountInteractionState, to: AccountInteractionState },
}

impl AccountInteractionStateError {
    pub fn wrong_state_number(number: i64) -> (r: Self)
        ensures
            r == Self::WrongStateNumber(number),
    {
        Self::WrongStateNumber(number)
    }

    pub fn transition(from: AccountInteractionState, to: AccountInteractionState) -> (r: Self)
        ensures
            r == (Self::Transition { from, to }),
    {
        Self::Transition { from, to }
    }

    /// The error as text.
    pub open spec fn spec_message(self) -> Seq<char> {
        match self {
            Self::WrongStateNumber(number) => "Wrong state number: "@ + int_to_decimal(number as int),
            Self::Transition { from, to } => "State transition from "@ + from.spec_name() + " to "@
                + to.spec_name() + " is not allowed"@,
        }
    }

    /// The error as text.
    pub fn to_string(&self) -> (r: String)
        ensures
            r@ == self.spec_message(),
    {
        match self {
            Self::WrongStateNumber(number) => text_with_number("Wrong state number: ", *number),
            Self::Transition { from, to } => {
                let mut s = text("State transition from ");
                from.append_name(&mut s);
                s.append(" to ");
                to.append_name(&mut s);
                s.append(" is not allowed");
                s
            },
        }
    }
}

/// All values of an [AccountInteractionInternal].
pub ghost struct AccountInteractionView {
    pub id: i64,
    pub state_number: AccountInteractionState,
    pub account_id_sender: Option<AccountIdDb>,
    pub account_id_receiver: Option<AccountIdDb>,
    pub account_id_block_sender: Option<AccountIdDb>,
    pub account_id_block_receiver: Option<AccountIdDb>,
    pub two_way_block: bool,
    pub message_counter_sender: i64,
    pub message_counter_receiver: i64,
    pub video_call_url_created_sender: bool,
    pub video_call_url_created_receiver: bool,
    pub received_like_id: Option<ReceivedLikeId>,
    pub received_like_viewed: bool,
    pub received_like_email_notification_sent: bool,
    pub received_like_unix_time: Option<UnixTime>,
    pub match_id: Option<MatchId>,
    pub match_unix_time: Option<UnixTime>,
    pub conversation_id_sender: Option<ConversationId>,
    pub conversation_id_receiver: Option<ConversationId>,
}

impl AccountInteractionView {
    /// Whether `sender` blocks `receiver`: the one-way block is from
    /// `sender` to `receiver`, or the block between them is two-way.
    pub open spec fn is_direction_blocked(self, sender: AccountIdDb, receiver: AccountIdDb) -> bool {
        ||| self.account_id_block_sender == Some(sender) && self.account_id_block_receiver == Some(receiver)
        ||| self.account_id_block_sender == Some(receiver) && self.account_id_block_receiver == Some(sender)
            && self.two_way_block
    }

    /// Whether `sender` likes `receiver`: the accounts match, or the like is
    /// from `sender` to `receiver`.
    pub open spec fn is_direction_liked(self, sender: AccountIdDb, receiver: AccountIdDb) -> bool {
        ||| self.state_number == AccountInteractionState::Match
        ||| self.state_number == AccountInteractionState::Like && self.account_id_sender == Some(sender)
            && self.account_id_receiver == Some(receiver)
    }

    /// The value of `account` between the sender's and the receiver's:
    /// the sender's where `account` is the sender, else the receiver's
    /// where it is the receiver, else `other`.
    pub open spec fn for_account<T>(self, account: AccountIdDb, sender_value: T, receiver_value: T, other: T) -> T {
        if self.account_id_sender == Some(account) {
            sender_value
        } else if self.account_id_receiver == Some(account) {
            receiver_value
        } else {
            other
        }
    }

    /// The interaction after `sender` likes `receiver` at `now`.
    pub open spec fn after_like(self, sender: AccountIdDb, receiver: AccountIdDb, like_id: ReceivedLikeId, now: UnixTime) -> Result<Self, AccountInteractionStateError> {
        match self.state_number {
            AccountInteractionState::Empty => Ok(Self {
                state_number: AccountInteractionState::Like,
                account_id_sender: Some(sender),
                account_id_receiver: Some(receiver),
                received_like_id: Some(like_id),
                received_like_unix_time: Some(now),
                ..self
            }),
            AccountInteractionState::Like => Ok(self),
            AccountInteractionState::Match => Err(AccountInteractionStateError::Transition {
                from: AccountInteractionState::Match,
                to: AccountInteractionState::Like,
            }),
        }
    }

    /// The interaction after the accounts match at `now`.
    pub open spec fn after_match(self, match_id: MatchId, conversation_id_sender: ConversationId, conversation_id_receiver: ConversationId, now: UnixTime) -> Result<Self, AccountInteractionStateError> {
        match self.state_number {
            AccountInteractionState::Like => Ok(Self {
                state_number: AccountInteractionState::Match,
                received_like_id: None,
                match_id: Some(match_id),
                conversation_id_sender: Some(conversation_id_sender),
                conversation_id_receiver: Some(conversation_id_receiver),
                match_unix_time: Some(now),
                ..self
            }),
            AccountInteractionState::Match => Ok(self),
            AccountInteractionState::Empty => Err(AccountInteractionStateError::Transition {
                from: AccountInteractionState::Empty,
                to: AccountInteractionState::Match,
            }),
        }
    }

    /// The interaction after `sender` blocks `receiver`.
    pub open spec fn after_add_block(self, sender: AccountIdDb, receiver: AccountIdDb) -> Self {
        if self.account_id_block_sender == Some(sender) && self.account_id_block_receiver == Some(receiver) {
            self
        } else if self.account_id_block_sender == Some(receiver) && self.account_id_block_receiver == Some(sender)
            && self.two_way_block {
            self
        } else if self.account_id_block_sender == Some(receiver) && self.account_id_block_receiver == Some(sender) {
            Self { two_way_block: true, ..self }
        } else {
            Self { account_id_block_sender: Some(sender), account_id_block_receiver: Some(receiver), ..self }
        }
    }

    /// The interaction after `sender` removes its block of `receiver`.
    pub open spec fn after_delete_block(self, sender: AccountIdDb, receiver: AccountIdDb) -> Self {
        if self.account_id_block_sender == Some(sender) && self.account_id_block_receiver == Some(receiver) {
            if self.two_way_block {
                Self {
                    account_id_block_sender: Some(receiver),
                    account_id_block_receiver: Some(sender),
                    two_way_block: false,
                    ..self
                }
            } else {
                Self { account_id_block_sender: None, account_id_block_receiver: None, ..self }
            }
        } else if self.account_id_block_sender == Some(receiver) && self.account_id_block_receiver == Some(sender)
            && self.two_way_block {
            Self { two_way_block: false, ..self }
        } else {
            self
        }
    }
}

/// Interaction between two accounts: like, match, blocks, message
/// counters and conversation IDs.
#[derive(Debug, Clone, Copy, PartialEq, Eq, Structural)]
pub struct AccountInteractionInternal {
    pub id: i64,
    pub state_number: AccountInteractionState,
    pub account_id_sender: Option<AccountIdDb>,
    pub account_id_receiver: Option<AccountIdDb>,
    pub account_id_block_sender: Option<AccountIdDb>,
    pub account_id_block_receiver: Option<AccountIdDb>,
    pub two_way_block: bool,
    /// Message counter of the sender, which increments for each message
    /// and does not reset. Zero means that no messages are sent.
    pub message_counter_sender: i64,
    /// Message counter of the receiver, which increments for each message
    /// and does not reset. Zero means that no messages are sent.
    pub message_counter_receiver: i64,
    /// Video call URL created flag of the sender.
    pub video_call_url_created_sender: bool,
    /// Video call URL created flag of the receiver.
    pub video_call_url_created_receiver: bool,
    pub received_like_id: Option<ReceivedLikeId>,
    received_like_viewed: bool,
    received_like_email_notification_sent: bool,
    received_like_unix_time: Option<UnixTime>,
    pub match_id: Option<MatchId>,
    match_unix_time: Option<UnixTime>,
    conversation_id_sender: Option<ConversationId>,
    conversation_id_receiver: Option<ConversationId>,
}

impl View for AccountInteractionInternal {
    type V = AccountInteractionView;

    closed spec fn view(&self) -> AccountInteractionView {
        AccountInteractionView {
            id: self.id,
            state_number: self.state_number,
            account_id_sender: self.account_id_sender,
            account_id_receiver: self.account_id_receiver,
            account_id_block_sender: self.account_id_block_sender,
            account_id_block_receiver: self.account_id_block_receiver,
            two_way_block: self.two_way_block,
            message_counter_sender: self.message_counter_sender,
            message_counter_receiver: self.message_counter_receiver,
            video_call_url_created_sender: self.video_call_url_created_sender,
            video_call_url_created_receiver: self.video_call_url_created_receiver,
            received_like_id: self.received_like_id,
            received_like_viewed: self.received_like_viewed,
            received_like_email_notification_sent: self.received_like_email_notification_sent,
            received_like_unix_time: self.received_like_unix_time,
            match_id: self.match_id,
            match_unix_time: self.match_unix_time,
            conversation_id_sender: self.conversation_id_sender,
            conversation_id_receiver: self.conversation_id_receiver,
        }
    }
}

fn same_db_id(a: Option<AccountIdDb>, b: AccountIdDb) -> (r: bool)
    ensures
        r == (a == Some(b)),
{
    match a {
        Some(x) => x.0 == b.0,
        None => false,
    }
}

impl AccountInteractionInternal {
    /// Views of interactions are equal only for equal interactions.
    pub proof fn lemma_view_injective(a: Self, b: Self)
        ensures
            a@ == b@ <==> a == b,
    {
    }

    /// A new interaction row: no like, match, block, messages or
    /// conversations.
    pub fn new_empty(id: i64) -> (r: Self)
        ensures
            r@ == (AccountInteractionView {
                id,
                state_number: AccountInteractionState::Empty,
                account_id_sender: None,
                account_id_receiver: None,
                account_id_block_sender: None,
                account_id_block_receiver: None,
                two_way_block: false,
                message_counter_sender: 0,
                message_counter_receiver: 0,
                video_call_url_created_sender: false,
                video_call_url_created_receiver: false,
                received_like_id: None,
                received_like_viewed: false,
                received_like_email_notification_sent: false,
                received_like_unix_time: None,
                match_id: None,
                match_unix_time: None,
                conversation_id_sender: None,
                conversation_id_receiver: None,
            }),
    {
        Self {
            id,
            state_number: AccountInteractionState::Empty,
            account_id_sender: None,
            account_id_receiver: None,
            account_id_block_sender: None,
            account_id_block_receiver: None,
            two_way_block: false,
            message_counter_sender: 0,
            message_counter_receiver: 0,
            video_call_url_created_sender: false,
            video_call_url_created_receiver: false,
            received_like_id: None,
            received_like_viewed: false,
            received_like_email_notification_sent: false,
            received_like_unix_time: None,
            match_id: None,
            match_unix_time: None,
            conversation_id_sender: None,
            conversation_id_receiver: None,
        }
    }

    /// Like from `id_like_sender` to `id_like_receiver` at `now`. An empty
    /// interaction becomes a like; a like stays as it is; a match cannot
    /// become a like.
    pub fn try_into_like_at(
        self,
        id_like_sender: AccountIdInternal,
        id_like_receiver: AccountIdInternal,
        received_like_id: ReceivedLikeId,
        now: UnixTime,
    ) -> (r: Result<Self, AccountInteractionStateError>)
        ensures
            match self@.after_like(id_like_sender.id, id_like_receiver.id, received_like_id, now) {
                Ok(v) => r matches Ok(x) && x@ == v,
                Err(e) => r == Err::<Self, AccountInteractionStateError>(e),
            },
    {
        let target = AccountInteractionState::Like;
        let state = self.state_number;
        match state {
            AccountInteractionState::Empty => Ok(Self {
                state_number: target,
                account_id_sender: Some(id_like_sender.into_db_id()),
                account_id_receiver: Some(id_like_receiver.into_db_id()),
                received_like_id: Some(received_like_id),
                received_like_unix_time: Some(now),
                ..self
            }),
            AccountInteractionState::Like => Ok(self),
            AccountInteractionState::Match => Err(AccountInteractionStateError::transition(state, target)),
        }
    }

    /// Like from `id_like_sender` to `id_like_receiver` now.
    pub fn try_into_like(
        self,
        id_like_sender: AccountIdInternal,
        id_like_receiver: AccountIdInternal,
        received_like_id: ReceivedLikeId,
    ) -> (r: Result<Self, AccountInteractionStateError>)
        ensures
            exists|now: UnixTime| match #[trigger] self@.after_like(id_like_sender.id, id_like_receiver.id, received_like_id, now) {
                Ok(v) => r matches Ok(x) && x@ == v,
                Err(e) => r == Err::<Self, AccountInteractionStateError>(e),
            },
    {
        let now = UnixTime::current_time();
        let result = self.try_into_like_at(id_like_sender, id_like_receiver, received_like_id, now);
        assert(match self@.after_like(id_like_sender.id, id_like_receiver.id, received_like_id, now) {
            Ok(v) => result matches Ok(x) && x@ == v,
            Err(e) => result == Err::<Self, AccountInteractionStateError>(e),
        });
        result
    }

    /// Match at `now`. A like becomes a match; a match stays as it is; an
    /// empty interaction cannot become a match.
    pub fn try_into_match_at(
        self,
        match_id: MatchId,
        conversation_id_sender: ConversationId,
        conversation_id_receiver: ConversationId,
        now: UnixTime,
    ) -> (r: Result<Self, AccountInteractionStateError>)
        ensures
            match self@.after_match(match_id, conversation_id_sender, conversation_id_receiver, now) {
                Ok(v) => r matches Ok(x) && x@ == v,
                Err(e) => r == Err::<Self, AccountInteractionStateError>(e),
            },
    {
        let target = AccountInteractionState::Match;
        let state = self.state_number;
        match state {
            AccountInteractionState::Like => Ok(Self {
                state_number: target,
                received_like_id: None,
                match_id: Some(match_id),
                conversation_id_sender: Some(conversation_id_sender),
                conversation_id_receiver: Some(conversation_id_receiver),
                match_unix_time: Some(now),
                ..self
            }),
            AccountInteractionState::Match => Ok(self),
            AccountInteractionState::Empty => Err(AccountInteractionStateError::transition(state, target)),
        }
    }

    /// Match now.
    pub fn try_into_match(
        self,
        match_id: MatchId,
        conversation_id_sender: ConversationId,
        conversation_id_receiver: ConversationId,
    ) -> (r: Result<Self, AccountInteractionStateError>)
        ensures
            exists|now: UnixTime| match #[trigger] self@.after_match(match_id, conversation_id_sender, conversation_id_receiver, now) {
                Ok(v) => r matches Ok(x) && x@ == v,
                Err(e) => r == Err::<Self, AccountInteractionStateError>(e),
            },
    {
        let now = UnixTime::current_time();
        let result = self.try_into_match_at(match_id, conversation_id_sender, conversation_id_receiver, now);
        assert(match self@.after_match(match_id, conversation_id_sender, conversation_id_receiver, now) {
            Ok(v) => result matches Ok(x) && x@ == v,
            Err(e) => result == Err::<Self, AccountInteractionStateError>(e),
        });
        result
    }

    /// Block from `id_block_sender` to `id_block_receiver`. A block in the
    /// other direction becomes a two-way block.
    pub fn add_block(self, id_block_sender: AccountIdInternal, id_block_receiver: AccountIdInternal) -> (r: Self)
        ensures
            r@ == self@.after_add_block(id_block_sender.id, id_block_receiver.id),
    {
        let s = id_block_sender.into_db_id();
        let rcv = id_block_receiver.into_db_id();
        if same_db_id(self.account_id_block_sender, s) && same_db_id(self.account_id_block_receiver, rcv) {
            self
        } else if same_db_id(self.account_id_block_sender, rcv) && same_db_id(self.account_id_block_receiver, s)
            && self.two_way_block {
            self
        } else if same_db_id(self.account_id_block_sender, rcv) && same_db_id(self.account_id_block_receiver, s) {
            Self { two_way_block: true, ..self }
        } else {
            Self { account_id_block_sender: Some(s), account_id_block_receiver: Some(rcv), ..self }
        }
    }

    /// Removes the block from `id_block_sender` to `id_block_receiver`. A
    /// two-way block becomes a one-way block in the other direction.
    pub fn delete_block(self, id_block_sender: AccountIdInternal, id_block_receiver: AccountIdInternal) -> (r: Self)
        ensures
            r@ == self@.after_delete_block(id_block_sender.id, id_block_receiver.id),
    {
        let s = id_block_sender.into_db_id();
        let rcv = id_block_receiver.into_db_id();
        if same_db_id(self.account_id_block_sender, s) && same_db_id(self.account_id_block_receiver, rcv) {
            if self.two_way_block {
                Self {
                    account_id_block_sender: Some(rcv),
                    account_id_block_receiver: Some(s),
                    two_way_block: false,
                    ..self
                }
            } else {
                Self { account_id_block_sender: None, account_id_block_receiver: None, ..self }
            }
        } else if same_db_id(self.account_id_block_sender, rcv) && same_db_id(self.account_id_block_receiver, s)
            && self.two_way_block {
            Self { two_way_block: false, ..self }
        } else {
            self
        }
    }

    pub fn is_empty(&self) -> (r: bool)
        ensures
            r == (self@.state_number == AccountInteractionState::Empty),
    {
        self.state_number == AccountInteractionState::Empty
    }

    pub fn is_like(&self) -> (r: bool)
        ensures
            r == (self@.state_number == AccountInteractionState::Like),
    {
        self.state_number == AccountInteractionState::Like
    }

    pub fn is_match(&self) -> (r: bool)
        ensures
            r == (self@.state_number == AccountInteractionState::Match),
    {
        self.state_number == AccountInteractionState::Match
    }

    /// Whether one or both accounts block the other.
    pub fn is_blocked(&self) -> (r: bool)
        ensures
            r == self@.account_id_block_sender is Some,
    {
        self.account_id_block_sender.is_some()
    }

    pub fn is_direction_blocked(&self, id_block_sender: AccountIdDb, id_block_receiver: AccountIdDb) -> (r: bool)
        ensures
            r == self@.is_direction_blocked(id_block_sender, id_block_receiver),
    {
        if same_db_id(self.account_id_block_sender, id_block_sender)
            && same_db_id(self.account_id_block_receiver, id_block_receiver) {
            true
        } else if same_db_id(self.account_id_block_sender, id_block_receiver)
            && same_db_id(self.account_id_block_receiver, id_block_sender) && self.two_way_block {
            true
        } else {
            false
        }
    }

    pub fn is_direction_liked(&self, id_like_sender: AccountIdDb, id_like_receiver: AccountIdDb) -> (r: bool)
        ensures
            r == self@.is_direction_liked(id_like_sender, id_like_receiver),
    {
        if self.is_match() {
            true
        } else {
            self.is_like() && same_db_id(self.account_id_sender, id_like_sender)
                && same_db_id(self.account_id_receiver, id_like_receiver)
        }
    }

    /// Messages sent by both accounts; the count stops at `i64::MAX`.
    pub fn message_counter(&self) -> (r: i64)
        ensures
            r == saturating_add_i64(self@.message_counter_receiver as int, self@.message_counter_sender as int),
    {
        saturating_add(self.message_counter_receiver, self.message_counter_sender)
    }

    /// ID of the next message: one more than the message count, so that
    /// message ID 0 can stand for no viewed message.
    pub fn next_message_id(&self) -> (r: MessageId)
        ensures
            r.id == saturating_add_i64(
                saturating_add_i64(self@.message_counter_receiver as int, self@.message_counter_sender as int) as int,
                1,
            ),
    {
        MessageId::new(saturating_add(self.message_counter(), 1))
    }

    /// Messages sent by `account`.
    pub fn message_count_for_account(&self, account: AccountIdDb) -> (r: i64)
        ensures
            r == self@.for_account(account, self@.message_counter_sender, self@.message_counter_receiver, 0i64),
    {
        if same_db_id(self.account_id_sender, account) {
            self.message_counter_sender
        } else if same_db_id(self.account_id_receiver, account) {
            self.message_counter_receiver
        } else {
            0
        }
    }

    /// Conversation ID of `account`.
    pub fn conversation_id_for_account(&self, account: AccountIdDb) -> (r: Option<ConversationId>)
        ensures
            r == self@.for_account(account, self@.conversation_id_sender, self@.conversation_id_receiver, None),
    {
        if same_db_id(self.account_id_sender, account) {
            self.conversation_id_sender
        } else if same_db_id(self.account_id_receiver, account) {
            self.conversation_id_receiver
        } else {
            None
        }
    }

    /// Whether `account` created a video call URL.
    pub fn video_call_url_created_for_account(&self, account: AccountIdDb) -> (r: bool)
        ensures
            r == self@.for_account(account, self@.video_call_url_created_sender, self@.video_call_url_created_receiver, false),
    {
        if same_db_id(self.account_id_sender, account) {
            self.video_call_url_created_sender
        } else if same_db_id(self.account_id_receiver, account) {
            self.video_call_url_created_receiver
        } else {
            false
        }
    }
}

/// The interaction states change only forward: a like keeps or moves the
/// state forward, a match needs a like first, and a match never goes back
/// to a like.
pub proof fn lemma_interaction_state_order(
    v: AccountInteractionView,
    sender: AccountIdDb,
    receiver: AccountIdDb,
    like_id: ReceivedLikeId,
    match_id: MatchId,
    c1: ConversationId,
    c2: ConversationId,
    now: UnixTime,
)
    ensures
        v.state_number == AccountInteractionState::Match <==> v.after_like(sender, receiver, like_id, now) is Err,
        v.state_number == AccountInteractionState::Empty <==> v.after_match(match_id, c1, c2, now) is Err,
        v.after_like(sender, receiver, like_id, now) matches Ok(w) ==> w.state_number == AccountInteractionState::Like,
        v.after_match(match_id, c1, c2, now) matches Ok(w) ==> w.state_number == AccountInteractionState::Match,
        v.state_number == AccountInteractionState::Empty ==> (v.after_like(sender, receiver, like_id, now) matches Ok(w)
            && w.after_match(match_id, c1, c2, now) matches Ok(x) && x.state_number == AccountInteractionState::Match
            && x.is_direction_liked(sender, receiver) && x.is_direction_liked(receiver, sender)),
{
}

/// After `sender` blocks `receiver`, `sender` blocks `receiver`, and a
/// block from `receiver` to `sender` stays.
pub proof fn lemma_add_block_blocks(v: AccountInteractionView, sender: AccountIdDb, receiver: AccountIdDb)
    ensures
        v.after_add_block(sender, receiver).is_direction_blocked(sender, receiver),
        v.is_direction_blocked(receiver, sender) ==> v.after_add_block(sender, receiver).is_direction_blocked(
            receiver,
            sender,
        ),
{
}

/// After `sender` removes its block of `receiver`, `sender` no longer
/// blocks `receiver`, and whether `receiver` blocks `sender` does not
/// change. This holds for two different accounts; for one account whose
/// block is two-way, the block stays.
pub proof fn lemma_delete_block_unblocks(v: AccountInteractionView, sender: AccountIdDb, receiver: AccountIdDb)
    requires
        sender != receiver,
    ensures
        !v.after_delete_block(sender, receiver).is_direction_blocked(sender, receiver),
        v.after_delete_block(sender, receiver).is_direction_blocked(receiver, sender) == v.is_direction_blocked(
            receiver,
            sender,
        ),
{
}

/// Removing a block right after adding it leaves no block from `sender`
/// to `receiver` where there was none before; a block from `receiver` to
/// `sender` stays as it was. A two-way block must be one between the two
/// accounts.
pub proof fn lemma_add_then_delete_block(v: AccountInteractionView, sender: AccountIdDb, receiver: AccountIdDb)
    requires
        sender != receiver,
        !v.is_direction_blocked(sender, receiver),
        v.two_way_block ==> (v.account_id_block_sender == Some(receiver) && v.account_id_block_receiver == Some(sender))
            || (v.account_id_block_sender == Some(sender) && v.account_id_block_receiver == Some(receiver)),
    ensures
        !v.after_add_block(sender, receiver).after_delete_block(sender, receiver).is_direction_blocked(sender, receiver),
        v.after_add_block(sender, receiver).after_delete_block(sender, receiver).is_direction_blocked(receiver, sender)
            == v.is_direction_blocked(receiver, sender),
{
    let w = v.after_add_block(sender, receiver);
    lemma_add_block_blocks(v, sender, receiver);
    lemma_delete_block_unblocks(w, sender, receiver);
    if v.is_direction_blocked(receiver, sender) {
        assert(w.is_direction_blocked(receiver, sender));
    } else {
        assert(!w.is_direction_blocked(receiver, sender));
    }
}

impl AccountInteractionState {
    /// Different values have different numbers, so reading a value's
    /// number back gives the value.
    pub proof fn lemma_number_injective(a: Self, b: Self)
        ensures
            a.spec_to_i64() == b.spec_to_i64() <==> a == b,
    {
    }
}

} // verus!
