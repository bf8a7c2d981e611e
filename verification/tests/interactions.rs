use model::backend::UnixTime;
use model::common::{AccountId, AccountIdDb, AccountIdInternal};
use model::interaction::{
    AccountInteractionInternal, AccountInteractionState, AccountInteractionStateError, ConversationId,
    MatchId, ReceivedLikeId,
};

fn account(id: i64) -> AccountIdInternal {
    AccountIdInternal::new(AccountIdDb(id), AccountId::for_debugging_only_zero())
}

#[test]
fn interaction_like_then_match() {
    let a = account(1);
    let b = account(2);
    let empty = AccountInteractionInternal::new_empty(7);
    assert!(empty.is_empty());
    let liked = empty.try_into_like_at(a, b, ReceivedLikeId::new(3), UnixTime::new(100)).unwrap();
    assert!(liked.is_like());
    assert!(liked.is_direction_liked(AccountIdDb(1), AccountIdDb(2)));
    assert!(!liked.is_direction_liked(AccountIdDb(2), AccountIdDb(1)));
    assert_eq!(liked.received_like_id, Some(ReceivedLikeId::new(3)));
    let liked_again = liked.try_into_like_at(b, a, ReceivedLikeId::new(9), UnixTime::new(200)).unwrap();
    assert_eq!(liked_again, liked);
    let matched = liked
        .try_into_match_at(MatchId::new(5), ConversationId::new(10), ConversationId::new(11), UnixTime::new(300))
        .unwrap();
    assert!(matched.is_match());
    assert_eq!(matched.received_like_id, None);
    assert_eq!(matched.match_id, Some(MatchId::new(5)));
    assert!(matched.is_direction_liked(AccountIdDb(2), AccountIdDb(1)));
    assert_eq!(matched.conversation_id_for_account(AccountIdDb(1)), Some(ConversationId::new(10)));
    assert_eq!(matched.conversation_id_for_account(AccountIdDb(2)), Some(ConversationId::new(11)));
    assert_eq!(matched.conversation_id_for_account(AccountIdDb(3)), None);
    assert_eq!(
        matched.try_into_like_at(a, b, ReceivedLikeId::new(1), UnixTime::new(1)),
        Err(AccountInteractionStateError::Transition {
            from: AccountInteractionState::Match,
            to: AccountInteractionState::Like,
        })
    );
    assert_eq!(
        AccountInteractionInternal::new_empty(1).try_into_match(MatchId::new(1), ConversationId::new(1), ConversationId::new(1)),
        Err(AccountInteractionStateError::Transition {
            from: AccountInteractionState::Empty,
            to: AccountInteractionState::Match,
        })
    );
}

#[test]
fn interaction_blocks() {
    let a = account(1);
    let b = account(2);
    let i = AccountInteractionInternal::new_empty(1);
    let one_way = i.add_block(a, b);
    assert!(one_way.is_blocked());
    assert!(one_way.is_direction_blocked(AccountIdDb(1), AccountIdDb(2)));
    assert!(!one_way.is_direction_blocked(AccountIdDb(2), AccountIdDb(1)));
    let two_way = one_way.add_block(b, a);
    assert!(two_way.two_way_block);
    assert!(two_way.is_direction_blocked(AccountIdDb(2), AccountIdDb(1)));
    assert_eq!(two_way.add_block(a, b), two_way);
    let back_to_one_way = two_way.delete_block(a, b);
    assert!(!back_to_one_way.is_direction_blocked(AccountIdDb(1), AccountIdDb(2)));
    assert!(back_to_one_way.is_direction_blocked(AccountIdDb(2), AccountIdDb(1)));
    let none = back_to_one_way.delete_block(b, a);
    assert!(!none.is_blocked());
    assert_eq!(none.delete_block(a, b), none);
}

#[test]
fn interaction_counters_and_ids() {
    let i = AccountInteractionInternal::new_empty(1);
    assert_eq!(i.message_counter(), 0);
    assert_eq!(i.next_message_id().id, 1);
    assert_eq!(i.message_count_for_account(AccountIdDb(1)), 0);
    assert!(!i.video_call_url_created_for_account(AccountIdDb(1)));
    assert_eq!(MatchId::new(i64::MAX).increment().id, i64::MAX);
    assert_eq!(MatchId::new(4).increment().id, 5);
    assert_eq!(ConversationId::new(0).next_id_to_latest_used_id().id, -1);
    assert_eq!(ReceivedLikeId::new(2).increment().into_i64(), 3);
}

#[test]
fn interaction_state_numbers() {
    assert_eq!(AccountInteractionState::try_from(2i64), Ok(AccountInteractionState::Match));
    assert_eq!(
        AccountInteractionState::try_from(3i64),
        Err(AccountInteractionStateError::WrongStateNumber(3))
    );
    assert_eq!(AccountInteractionState::Like.to_i64(), 1);
    assert_eq!(AccountInteractionStateError::WrongStateNumber(-4).to_string(), "Wrong state number: -4");
    assert_eq!(
        AccountInteractionStateError::transition(AccountInteractionState::Empty, AccountInteractionState::Match)
            .to_string(),
        "State transition from Empty to Match is not allowed"
    );
}
