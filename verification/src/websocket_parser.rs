//! Parser for the binary WebSocket messages that the server sends.
use vstd::prelude::*;

use crate::admin_notification::{AdminBotNotificationTypes, ADMIN_BOT_NOTIFICATION_TYPES_ALL};
use crate::backend::{ScheduledMaintenanceStatus, UnixTime, UuidBase64Url};
use crate::common::{
    AccountId, EventToClientInternal, ContentProcessingStateChanged, EventToClientView, ResponseNextProfilePageStatus,
    ResponseResetProfilePagingStatus,
};
use crate::media::{ContentId, ContentProcessingStateInternal, ContentProcessingStateType, ProfileContentVersion};
use crate::minimal_i64;
use crate::text::int_to_decimal;
use crate::profile::{LastSeenTime, OnlineStatusUpdate, ProfileLink, ProfileVersion};
use crate::websocket::{
    content_processing_state_changed_bytes, last_seen_bytes, next_profile_page_bytes, profile_link_bytes,
    profile_links_bytes, reset_profile_paging_bytes, scheduled_maintenance_status_bytes,
    spec_create_server_binary_message, spec_message_type, spec_payload, uuid_bytes, ServerMessageType,
};

verus! {

/// One byte at `p`.
pub open spec fn spec_parse_byte(s: Seq<u8>, p: int) -> Option<(u8, int)> {
    if 0 <= p < s.len() {
        Some((s[p], p + 1))
    } else {
        None
    }
}

/// A 16-byte UUID at `p`.
pub open spec fn spec_parse_uuid(s: Seq<u8>, p: int) -> Option<(UuidBase64Url, int)> {
    if 0 <= p && p + 16 <= s.len() {
        Some((UuidBase64Url::spec_from_bytes(s.subrange(p, p + 16)), p + 16))
    } else {
        None
    }
}

/// Null last seen time (0 byte) or a minimal i64 last seen time at `p`.
pub open spec fn spec_parse_last_seen(s: Seq<u8>, p: int) -> Option<(Option<LastSeenTime>, int)> {
    match spec_parse_byte(s, p) {
        None => None,
        Some((marker, q)) => if marker == 0 {
            Some((None, q))
        } else {
            match minimal_i64::spec_parse(s, p) {
                Some((v, r)) => Some((Some(LastSeenTime(v)), r)),
                None => None,
            }
        },
    }
}

/// A minimal i64 at `p`, or nothing when the input has ended.
pub open spec fn spec_parse_optional_i64(s: Seq<u8>, p: int) -> Option<(Option<i64>, int)> {
    if p >= s.len() {
        Some((None, p))
    } else {
        match minimal_i64::spec_parse(s, p) {
            Some((v, r)) => Some((Some(v), r)),
            None => None,
        }
    }
}

/// One profile entry at `p`.
pub open spec fn spec_parse_profile_link(s: Seq<u8>, p: int) -> Option<(ProfileLink, int)> {
    match spec_parse_uuid(s, p) {
        None => None,
        Some((a, p1)) => match spec_parse_uuid(s, p1) {
            None => None,
            Some((pv, p2)) => match spec_parse_uuid(s, p2) {
                None => None,
                Some((cv, p3)) => match spec_parse_last_seen(s, p3) {
                    None => None,
                    Some((l, p4)) => Some((
                        ProfileLink {
                            a: AccountId { aid: a },
                            p: ProfileVersion { v: pv },
                            c: ProfileContentVersion { v: cv },
                            l,
                        },
                        p4,
                    )),
                },
            },
        },
    }
}

/// Profile entries from `p` to the end of the input.
pub open spec fn spec_parse_profile_links(s: Seq<u8>, p: int) -> Option<Seq<ProfileLink>>
    decreases s.len() - p,
{
    if p >= s.len() {
        Some(Seq::empty())
    } else {
        match spec_parse_profile_link(s, p) {
            None => None,
            Some((link, q)) => if p < q {
                match spec_parse_profile_links(s, q) {
                    Some(rest) => Some(seq![link] + rest),
                    None => None,
                }
            } else {
                None
            },
        }
    }
}

/// Payload of a reset profile paging response at `p`.
pub open spec fn spec_parse_reset_profile_paging(s: Seq<u8>, p: int) -> Option<
    ((u8, ResponseResetProfilePagingStatus, Option<i64>), int),
> {
    match spec_parse_byte(s, p) {
        None => None,
        Some((request_id, p1)) => match spec_parse_byte(s, p1) {
            None => None,
            Some((status_raw, p2)) => match ResponseResetProfilePagingStatus::spec_from_u8(status_raw) {
                None => None,
                Some(status) => if status != ResponseResetProfilePagingStatus::Success {
                    if p2 < s.len() {
                        None
                    } else {
                        Some(((request_id, status, None), p2))
                    }
                } else {
                    match minimal_i64::spec_parse(s, p2) {
                        None => None,
                        Some((id, p3)) => Some(((request_id, status, Some(id)), p3)),
                    }
                },
            },
        },
    }
}

/// Payload of a next profile page response at `p`; it takes the rest of the input.
pub open spec fn spec_parse_next_profile_page(s: Seq<u8>, p: int) -> Option<
    ((u8, ResponseNextProfilePageStatus, Seq<ProfileLink>), int),
> {
    match spec_parse_byte(s, p) {
        None => None,
        Some((request_id, p1)) => match spec_parse_byte(s, p1) {
            None => None,
            Some((status_raw, p2)) => match ResponseNextProfilePageStatus::spec_from_u8(status_raw) {
                None => None,
                Some(status) => if status != ResponseNextProfilePageStatus::Success {
                    if p2 < s.len() {
                        None
                    } else {
                        Some(((request_id, status, Seq::empty()), p2))
                    }
                } else {
                    match spec_parse_profile_links(s, p2) {
                        None => None,
                        Some(profiles) => Some(((request_id, status, profiles), s.len() as int)),
                    }
                },
            },
        },
    }
}

/// Payload of a scheduled maintenance status at `p`.
pub open spec fn spec_parse_scheduled_maintenance_status(s: Seq<u8>, p: int) -> Option<
    (ScheduledMaintenanceStatus, int),
> {
    match spec_parse_byte(s, p) {
        None => None,
        Some((offline, p1)) => match spec_parse_optional_i64(s, p1) {
            None => None,
            Some((start, p2)) => {
                let end_result = if start is Some {
                    spec_parse_optional_i64(s, p2)
                } else {
                    Some((None, p2))
                };
                match end_result {
                    None => None,
                    Some((end, p3)) => Some((
                        ScheduledMaintenanceStatus {
                            admin_bot_offline: offline != 0,
                            start: match start {
                                Some(v) => Some(UnixTime { ut: v }),
                                None => None,
                            },
                            end: match end {
                                Some(v) => Some(UnixTime { ut: v }),
                                None => None,
                            },
                        },
                        p3,
                    )),
                }
            },
        },
    }
}

/// Payload of a content processing state change at `p`.
pub open spec fn spec_parse_content_processing_state_changed(s: Seq<u8>, p: int) -> Option<
    (ContentProcessingStateChanged, int),
> {
    match minimal_i64::spec_parse(s, p) {
        None => None,
        Some((id, p1)) => match spec_parse_byte(s, p1) {
            None => None,
            Some((state_raw, p2)) => match ContentProcessingStateType::spec_from_u8(state_raw) {
                None => None,
                Some(state) => {
                    let new_state: Option<(ContentProcessingStateInternal, int)> = match state {
                        ContentProcessingStateType::InQueue => match minimal_i64::spec_parse(s, p2) {
                            None => None,
                            Some((q, p3)) => Some((
                                ContentProcessingStateInternal::InQueue { wait_queue_position: q },
                                p3,
                            )),
                        },
                        ContentProcessingStateType::Completed => match spec_parse_uuid(s, p2) {
                            None => None,
                            Some((cid, p3)) => match spec_parse_byte(s, p3) {
                                None => None,
                                Some((fd, p4)) => Some((
                                    ContentProcessingStateInternal::Completed {
                                        content_id: ContentId { cid },
                                        face_detected: fd != 0,
                                    },
                                    p4,
                                )),
                            },
                        },
                        ContentProcessingStateType::Empty => Some((ContentProcessingStateInternal::Empty, p2)),
                        ContentProcessingStateType::Processing => Some(
                            (ContentProcessingStateInternal::Processing, p2),
                        ),
                        ContentProcessingStateType::Failed => Some((ContentProcessingStateInternal::Failed, p2)),
                        ContentProcessingStateType::NsfwDetected => Some(
                            (ContentProcessingStateInternal::NsfwDetected, p2),
                        ),
                    };
                    match new_state {
                        None => None,
                        Some((ns, p3)) => Some((ContentProcessingStateChanged { id, new_state: ns }, p3)),
                    }
                },
            },
        },
    }
}

/// Payload of message type `t` at `p`: the event and the position after it.
pub open spec fn spec_parse_payload(t: ServerMessageType, s: Seq<u8>, p: int) -> Option<(EventToClientView, int)> {
    match t {
        ServerMessageType::PendingAppNotificationsChanged => Some((EventToClientView::PendingAppNotificationsChanged, p)),
        ServerMessageType::ClientConfigChanged => Some((EventToClientView::ClientConfigChanged, p)),
        ServerMessageType::NewsCountChanged => Some((EventToClientView::NewsChanged, p)),
        ServerMessageType::ScheduledMaintenanceStatus => match spec_parse_scheduled_maintenance_status(s, p) {
            Some((v, q)) => Some((EventToClientView::ScheduledMaintenanceStatus(v), q)),
            None => None,
        },
        ServerMessageType::AdminBotNotification => match spec_parse_byte(s, p) {
            Some((b, q)) => Some((
                EventToClientView::AdminBotNotification(
                    AdminBotNotificationTypes { bits: b & ADMIN_BOT_NOTIFICATION_TYPES_ALL },
                ),
                q,
            )),
            None => None,
        },
        ServerMessageType::PushNotificationInfoChanged => Some((EventToClientView::PushNotificationInfoChanged, p)),
        ServerMessageType::RequestAdminBotConfigWarnings => match spec_parse_byte(s, p) {
            Some((b, q)) => Some((EventToClientView::RequestAdminBotConfigWarnings { request_id: b }, q)),
            None => None,
        },
        ServerMessageType::WebSocketConnectionAttemptsRemaining => match spec_parse_byte(s, p) {
            Some((b, q)) => Some((EventToClientView::WebSocketConnectionAttemptsRemaining { remaining: b }, q)),
            None => None,
        },
        ServerMessageType::AppUpdateAvailable => Some((EventToClientView::AppUpdateAvailable, p)),
        ServerMessageType::AccountStateChanged => Some((EventToClientView::AccountStateChanged, p)),
        ServerMessageType::AccountVerificationQueuePositionChanged => if p >= s.len() {
            Some((EventToClientView::AccountVerificationQueuePositionChanged { queue_position: None }, p))
        } else {
            match spec_parse_byte(s, p) {
                Some((b, q)) => Some(
                    (EventToClientView::AccountVerificationQueuePositionChanged { queue_position: Some(b) }, q),
                ),
                None => None,
            }
        },
        ServerMessageType::ProfileChanged => Some((EventToClientView::ProfileChanged, p)),
        ServerMessageType::ResponseResetProfilePaging => match spec_parse_reset_profile_paging(s, p) {
            Some(((request_id, status, iterator_session_id), q)) => Some((
                EventToClientView::ResponseResetProfilePaging { request_id, status, iterator_session_id },
                q,
            )),
            None => None,
        },
        ServerMessageType::ResponseNextProfilePage => match spec_parse_next_profile_page(s, p) {
            Some(((request_id, status, profiles), q)) => Some((
                EventToClientView::ResponseNextProfilePage { request_id, status, profiles },
                q,
            )),
            None => None,
        },
        ServerMessageType::ResponseAutomaticProfileSearchResetProfilePaging => match spec_parse_reset_profile_paging(s, p) {
            Some(((request_id, status, iterator_session_id), q)) => Some((
                EventToClientView::ResponseAutomaticProfileSearchResetProfilePaging {
                    request_id,
                    status,
                    iterator_session_id,
                },
                q,
            )),
            None => None,
        },
        ServerMessageType::ResponseAutomaticProfileSearchNextProfilePage => match spec_parse_next_profile_page(s, p) {
            Some(((request_id, status, profiles), q)) => Some((
                EventToClientView::ResponseAutomaticProfileSearchNextProfilePage { request_id, status, profiles },
                q,
            )),
            None => None,
        },
        ServerMessageType::ContentProcessingStateChanged => match spec_parse_content_processing_state_changed(s, p) {
            Some((v, q)) => Some((EventToClientView::ContentProcessingStateChanged(v), q)),
            None => None,
        },
        ServerMessageType::MediaContentChanged => Some((EventToClientView::MediaContentChanged, p)),
        ServerMessageType::NewMessageReceived => Some((EventToClientView::NewMessageReceived, p)),
        ServerMessageType::PendingChatNotificationsChanged => Some((EventToClientView::PendingChatNotificationsChanged, p)),
        ServerMessageType::ReceivedLikesChanged => Some((EventToClientView::ReceivedLikesChanged, p)),
        ServerMessageType::DailyLikesLeftChanged => Some((EventToClientView::DailyLikesLeftChanged, p)),
        ServerMessageType::TypingStart => match spec_parse_uuid(s, p) {
            Some((u, q)) => Some((EventToClientView::TypingStart(AccountId { aid: u }), q)),
            None => None,
        },
        ServerMessageType::TypingStop => match spec_parse_uuid(s, p) {
            Some((u, q)) => Some((EventToClientView::TypingStop(AccountId { aid: u }), q)),
            None => None,
        },
        ServerMessageType::OnlineStatusUpdated => match spec_parse_uuid(s, p) {
            None => None,
            Some((u, q)) => match spec_parse_last_seen(s, q) {
                Some((l, r)) => Some((
                    EventToClientView::OnlineStatusUpdated(OnlineStatusUpdate { a: AccountId { aid: u }, l }),
                    r,
                )),
                None => None,
            },
        },
        ServerMessageType::MessageDeliveryInfoChanged => Some((EventToClientView::MessageDeliveryInfoChanged, p)),
        ServerMessageType::LatestSeenMessageChanged => Some((EventToClientView::LatestSeenMessageChanged, p)),
    }
}

/// The event that message `s` carries, or `None` if `s` is not a valid
/// message: the type byte is unknown, the payload is truncated or
/// malformed, or bytes follow the payload (allowed only for
/// `AppUpdateAvailable`).
pub open spec fn spec_parse_server_binary_message(s: Seq<u8>) -> Option<EventToClientView> {
    if s.len() == 0 {
        None
    } else {
        match ServerMessageType::spec_from_u8(s[0]) {
            None => None,
            Some(t) => match spec_parse_payload(t, s, 1) {
                None => None,
                Some((event, end)) => if t == ServerMessageType::AppUpdateAvailable || end == s.len() {
                    Some(event)
                } else {
                    None
                },
            },
        }
    }
}


/// Events that the message encoding carries without loss: a reset paging
/// response has an iterator session id exactly when it succeeded, a
/// failed next page response has no profiles, a maintenance status has
/// an end time only with a start time, and admin bot notification flags
/// are defined flags.
pub open spec fn is_encodable(event: EventToClientView) -> bool {
    match event {
        EventToClientView::ResponseResetProfilePaging { status, iterator_session_id, .. } =>
            (status == ResponseResetProfilePagingStatus::Success) == (iterator_session_id is Some),
        EventToClientView::ResponseAutomaticProfileSearchResetProfilePaging { status, iterator_session_id, .. } =>
            (status == ResponseResetProfilePagingStatus::Success) == (iterator_session_id is Some),
        EventToClientView::ResponseNextProfilePage { status, profiles, .. } =>
            status == ResponseNextProfilePageStatus::Success || profiles.len() == 0,
        EventToClientView::ResponseAutomaticProfileSearchNextProfilePage { status, profiles, .. } =>
            status == ResponseNextProfilePageStatus::Success || profiles.len() == 0,
        EventToClientView::ScheduledMaintenanceStatus(v) => v.start is None ==> v.end is None,
        EventToClientView::AdminBotNotification(v) => v.wf(),
        _ => true,
    }
}

proof fn lemma_parse_uuid_frame(pre: Seq<u8>, u: UuidBase64Url, post: Seq<u8>)
    ensures
        spec_parse_uuid(pre + uuid_bytes(u) + post, pre.len() as int)
            == Some((u, pre.len() + 16int)),
        uuid_bytes(u).len() == 16,
{
    let s = pre + uuid_bytes(u) + post;
    let p = pre.len() as int;
    UuidBase64Url::lemma_bytes_view_injective(u, u);
    assert(s.subrange(p, p + 16) =~= u.bytes_view());
    UuidBase64Url::lemma_from_own_bytes(u);
}

proof fn lemma_parse_last_seen_frame(pre: Seq<u8>, l: Option<LastSeenTime>, post: Seq<u8>)
    ensures
        spec_parse_last_seen(pre + last_seen_bytes(l) + post, pre.len() as int)
            == Some((l, (pre.len() + last_seen_bytes(l).len()) as int)),
        last_seen_bytes(l).len() >= 1,
{
    let s = pre + last_seen_bytes(l) + post;
    let p = pre.len() as int;
    match l {
        Some(t) => {
            minimal_i64::lemma_parse_encode(pre, t.0, post);
            assert(s[p] == minimal_i64::spec_encode(t.0)[0]);
        },
        None => {
            assert(s[p] == 0);
        },
    }
}

proof fn lemma_parse_profile_link_frame(pre: Seq<u8>, link: ProfileLink, post: Seq<u8>)
    ensures
        spec_parse_profile_link(pre + profile_link_bytes(link) + post, pre.len() as int)
            == Some((link, (pre.len() + profile_link_bytes(link).len()) as int)),
        profile_link_bytes(link).len() > 48,
{
    let a = uuid_bytes(link.a.aid);
    let b = uuid_bytes(link.p.v);
    let c = uuid_bytes(link.c.v);
    let l = last_seen_bytes(link.l);
    let s = pre + profile_link_bytes(link) + post;
    assert(s =~= pre + a + (b + c + l + post));
    lemma_parse_uuid_frame(pre, link.a.aid, b + c + l + post);
    assert(s =~= (pre + a) + b + (c + l + post));
    lemma_parse_uuid_frame(pre + a, link.p.v, c + l + post);
    assert(s =~= (pre + a + b) + c + (l + post));
    lemma_parse_uuid_frame(pre + a + b, link.c.v, l + post);
    assert(s =~= (pre + a + b + c) + l + post);
    lemma_parse_last_seen_frame(pre + a + b + c, link.l, post);
}

proof fn lemma_parse_profile_links_frame(pre: Seq<u8>, ps: Seq<ProfileLink>)
    ensures
        spec_parse_profile_links(pre + profile_links_bytes(ps), pre.len() as int) == Some(ps),
    decreases ps.len(),
{
    let s = pre + profile_links_bytes(ps);
    let p = pre.len() as int;
    if ps.len() == 0 {
        assert(s =~= pre);
    } else {
        let head = profile_link_bytes(ps[0]);
        let rest = profile_links_bytes(ps.drop_first());
        assert(s =~= pre + head + rest);
        lemma_parse_profile_link_frame(pre, ps[0], rest);
        lemma_parse_profile_links_frame(pre + head, ps.drop_first());
        assert(s =~= (pre + head) + rest);
        assert(seq![ps[0]] + ps.drop_first() =~= ps);
    }
}

proof fn lemma_parse_optional_i64_frame(pre: Seq<u8>, v: i64, post: Seq<u8>)
    ensures
        spec_parse_optional_i64(pre + minimal_i64::spec_encode(v) + post, pre.len() as int)
            == Some((Some(v), (pre.len() + minimal_i64::spec_encode(v).len()) as int)),
{
    minimal_i64::lemma_parse_encode(pre, v, post);
}

proof fn lemma_parse_reset_profile_paging_frame(
    pre: Seq<u8>,
    request_id: u8,
    status: ResponseResetProfilePagingStatus,
    iterator_session_id: Option<i64>,
)
    requires
        (status == ResponseResetProfilePagingStatus::Success) == (iterator_session_id is Some),
    ensures
        ({
            let s = pre + reset_profile_paging_bytes(request_id, status, iterator_session_id);
            spec_parse_reset_profile_paging(s, pre.len() as int)
                == Some(((request_id, status, iterator_session_id), s.len() as int))
        }),
{
    let s = pre + reset_profile_paging_bytes(request_id, status, iterator_session_id);
    let p = pre.len() as int;
    assert(s[p] == request_id);
    assert(s[p + 1] == status.spec_to_u8());
    match iterator_session_id {
        Some(id) => {
            assert(s =~= (pre + seq![request_id, status.spec_to_u8()]) + minimal_i64::spec_encode(id) + Seq::empty());
            minimal_i64::lemma_parse_encode(pre + seq![request_id, status.spec_to_u8()], id, Seq::empty());
        },
        None => {},
    }
}

proof fn lemma_parse_next_profile_page_frame(
    pre: Seq<u8>,
    request_id: u8,
    status: ResponseNextProfilePageStatus,
    profiles: Seq<ProfileLink>,
)
    requires
        status == ResponseNextProfilePageStatus::Success || profiles.len() == 0,
    ensures
        ({
            let s = pre + next_profile_page_bytes(request_id, status, profiles);
            spec_parse_next_profile_page(s, pre.len() as int)
                == Some(((request_id, status, profiles), s.len() as int))
        }),
{
    let s = pre + next_profile_page_bytes(request_id, status, profiles);
    let p = pre.len() as int;
    assert(s[p] == request_id);
    assert(s[p + 1] == status.spec_to_u8());
    if status == ResponseNextProfilePageStatus::Success {
        assert(s =~= (pre + seq![request_id, status.spec_to_u8()]) + profile_links_bytes(profiles));
        lemma_parse_profile_links_frame(pre + seq![request_id, status.spec_to_u8()], profiles);
    } else {
        assert(profiles =~= Seq::<ProfileLink>::empty());
    }
}

proof fn lemma_parse_scheduled_maintenance_status_frame(pre: Seq<u8>, v: ScheduledMaintenanceStatus)
    requires
        v.start is None ==> v.end is None,
    ensures
        ({
            let s = pre + scheduled_maintenance_status_bytes(v);
            spec_parse_scheduled_maintenance_status(s, pre.len() as int) == Some((v, s.len() as int))
        }),
{
    let s = pre + scheduled_maintenance_status_bytes(v);
    let p = pre.len() as int;
    let first = seq![if v.admin_bot_offline { 1u8 } else { 0u8 }];
    assert(s[p] == first[0]);
    match v.start {
        Some(start) => {
            let e1 = minimal_i64::spec_encode(start.ut);
            match v.end {
                Some(end) => {
                    let e2 = minimal_i64::spec_encode(end.ut);
                    assert(s =~= (pre + first) + e1 + e2);
                    lemma_parse_optional_i64_frame(pre + first, start.ut, e2);
                    assert(s =~= (pre + first + e1) + e2 + Seq::empty());
                    lemma_parse_optional_i64_frame(pre + first + e1, end.ut, Seq::empty());
                },
                None => {
                    assert(s =~= (pre + first) + e1 + Seq::empty());
                    lemma_parse_optional_i64_frame(pre + first, start.ut, Seq::empty());
                },
            }
        },
        None => {},
    }
}

proof fn lemma_parse_content_processing_state_changed_frame(pre: Seq<u8>, v: ContentProcessingStateChanged)
    ensures
        ({
            let s = pre + content_processing_state_changed_bytes(v);
            spec_parse_content_processing_state_changed(s, pre.len() as int) == Some((v, s.len() as int))
        }),
{
    let s = pre + content_processing_state_changed_bytes(v);
    let p = pre.len() as int;
    let e = minimal_i64::spec_encode(v.id);
    let st = seq![v.new_state.spec_state_type().spec_to_u8()];
    let rest = s.subrange(p + e.len() + 1, s.len() as int);
    assert(s =~= pre + e + (st + rest));
    minimal_i64::lemma_parse_encode(pre, v.id, st + rest);
    assert(s[p + e.len()] == st[0]);
    let pre2 = pre + e + st;
    match v.new_state {
        ContentProcessingStateInternal::InQueue { wait_queue_position } => {
            assert(s =~= pre2 + minimal_i64::spec_encode(wait_queue_position) + Seq::empty());
            minimal_i64::lemma_parse_encode(pre2, wait_queue_position, Seq::empty());
        },
        ContentProcessingStateInternal::Completed { content_id, face_detected } => {
            let fd = seq![if face_detected { 1u8 } else { 0u8 }];
            assert(s =~= pre2 + uuid_bytes(content_id.cid) + fd);
            lemma_parse_uuid_frame(pre2, content_id.cid, fd);
            assert(s[pre2.len() + 16int] == fd[0]);
        },
        _ => {},
    }
}

/// Parsing the message that [create_server_binary_message] writes for an
/// encodable event gives the event back.
pub proof fn lemma_parse_create_roundtrip(event: EventToClientView)
    requires
        is_encodable(event),
    ensures
        spec_parse_server_binary_message(spec_create_server_binary_message(event)) == Some(event),
{
    let t = spec_message_type(event);
    let pre = seq![t.spec_to_u8()];
    let payload = spec_payload(event);
    let s = spec_create_server_binary_message(event);
    assert(s =~= pre + payload);
    ServerMessageType::lemma_from_to_u8(t);
    assert(s[0] == t.spec_to_u8());
    match event {
        EventToClientView::ContentProcessingStateChanged(v) => {
            lemma_parse_content_processing_state_changed_frame(pre, v);
        },
        EventToClientView::ScheduledMaintenanceStatus(v) => {
            lemma_parse_scheduled_maintenance_status_frame(pre, v);
        },
        EventToClientView::AdminBotNotification(v) => {
            let b = v.bits;
            assert(b & !0x7fu8 == 0 ==> b & 0x7fu8 == b) by (bit_vector);
        },
        EventToClientView::TypingStart(a) => {
            assert(s =~= pre + uuid_bytes(a.aid) + Seq::empty());
            lemma_parse_uuid_frame(pre, a.aid, Seq::empty());
        },
        EventToClientView::TypingStop(a) => {
            assert(s =~= pre + uuid_bytes(a.aid) + Seq::empty());
            lemma_parse_uuid_frame(pre, a.aid, Seq::empty());
        },
        EventToClientView::OnlineStatusUpdated(v) => {
            assert(s =~= pre + uuid_bytes(v.a.aid) + last_seen_bytes(v.l));
            lemma_parse_uuid_frame(pre, v.a.aid, last_seen_bytes(v.l));
            assert(s =~= (pre + uuid_bytes(v.a.aid)) + last_seen_bytes(v.l) + Seq::empty());
            lemma_parse_last_seen_frame(pre + uuid_bytes(v.a.aid), v.l, Seq::empty());
        },
        EventToClientView::ResponseResetProfilePaging { request_id, status, iterator_session_id } => {
            lemma_parse_reset_profile_paging_frame(pre, request_id, status, iterator_session_id);
        },
        EventToClientView::ResponseAutomaticProfileSearchResetProfilePaging {
            request_id,
            status,
            iterator_session_id,
        } => {
            lemma_parse_reset_profile_paging_frame(pre, request_id, status, iterator_session_id);
        },
        EventToClientView::ResponseNextProfilePage { request_id, status, profiles } => {
            lemma_parse_next_profile_page_frame(pre, request_id, status, profiles);
        },
        EventToClientView::ResponseAutomaticProfileSearchNextProfilePage { request_id, status, profiles } => {
            lemma_parse_next_profile_page_frame(pre, request_id, status, profiles);
        },
        _ => {},
    }
}


fn missing_payload(payload_name: &str) -> (r: String)
    ensures
        r@ == "missing "@ + payload_name@ + " payload"@,
{
    let mut s = crate::text::concat("missing ", payload_name);
    s.append(" payload");
    s
}

fn truncated_payload(payload_name: &str) -> (r: String)
    ensures
        r@ == "truncated "@ + payload_name@ + " payload"@,
{
    let mut s = crate::text::concat("truncated ", payload_name);
    s.append(" payload");
    s
}

fn ensure_payload_fully_consumed(message: &[u8], pos: usize, message_type: ServerMessageType) -> (r: Result<
    (),
    String,
>)
    ensures
        r is Ok <==> pos >= message@.len(),
        r matches Err(e) ==> e@ == "unexpected trailing payload for "@ + message_type.spec_variant_name(),
{
    if pos < message.len() {
        return Err(crate::text::concat("unexpected trailing payload for ", message_type.variant_name()));
    }
    Ok(())
}

fn next_payload_byte(message: &[u8], pos: usize, payload_name: &str) -> (r: Result<(u8, usize), String>)
    ensures
        match r {
            Ok((b, n)) => spec_parse_byte(message@, pos as int) == Some((b, n as int)),
            Err(_) => spec_parse_byte(message@, pos as int) is None,
        },
{
    if pos < message.len() {
        Ok((message[pos], pos + 1))
    } else {
        Err(missing_payload(payload_name))
    }
}

fn parse_uuid_base64_url_from_iter(message: &[u8], pos: usize, payload_name: &str) -> (r: Result<
    (UuidBase64Url, usize),
    String,
>)
    ensures
        match r {
            Ok((u, n)) => spec_parse_uuid(message@, pos as int) == Some((u, n as int)),
            Err(_) => spec_parse_uuid(message@, pos as int) is None,
        },
{
    if pos >= message.len() {
        return Err(missing_payload(payload_name));
    }
    parse_uuid_base64_url_from_iter_with_first_byte(message, pos, payload_name)
}

fn parse_uuid_base64_url_from_iter_with_first_byte(message: &[u8], pos: usize, payload_name: &str) -> (r: Result<
    (UuidBase64Url, usize),
    String,
>)
    requires
        pos < message@.len(),
    ensures
        match r {
            Ok((u, n)) => spec_parse_uuid(message@, pos as int) == Some((u, n as int)),
            Err(_) => spec_parse_uuid(message@, pos as int) is None,
        },
{
    if message.len() - pos < 16 {
        return Err(truncated_payload(payload_name));
    }
    let m = message;
    let p = pos;
    let bytes = [m[p], m[p + 1], m[p + 2], m[p + 3], m[p + 4], m[p + 5], m[p + 6], m[p + 7],
        m[p + 8], m[p + 9], m[p + 10], m[p + 11], m[p + 12], m[p + 13], m[p + 14], m[p + 15]];
    assert(bytes@ =~= message@.subrange(pos as int, pos + 16));
    Ok((UuidBase64Url::from_bytes(bytes), pos + 16))
}

fn parse_account_id_payload(message: &[u8], pos: usize) -> (r: Result<(AccountId, usize), String>)
    ensures
        match r {
            Ok((a, n)) => spec_parse_uuid(message@, pos as int) == Some((a.aid, n as int)),
            Err(_) => spec_parse_uuid(message@, pos as int) is None,
        },
{
    let (account_id, next) = parse_uuid_base64_url_from_iter(message, pos, "account id")?;
    Ok((AccountId::new_base_64_url(account_id), next))
}

fn parse_minimal_i64_value_with_context(message: &[u8], pos: usize, error_context: &str) -> (r: Result<
    (i64, usize),
    String,
>)
    ensures
        match r {
            Ok((v, n)) => minimal_i64::spec_parse(message@, pos as int) == Some((v, n as int)),
            Err(_) => minimal_i64::spec_parse(message@, pos as int) is None,
        },
{
    match minimal_i64::parse_minimal_i64(message, pos) {
        Some(v) => Ok(v),
        None => Err(crate::text::text(error_context)),
    }
}

fn parse_minimal_i64_value(message: &[u8], pos: usize) -> (r: Result<(i64, usize), String>)
    ensures
        match r {
            Ok((v, n)) => minimal_i64::spec_parse(message@, pos as int) == Some((v, n as int)),
            Err(_) => minimal_i64::spec_parse(message@, pos as int) is None,
        },
{
    parse_minimal_i64_value_with_context(message, pos, "invalid or truncated minimal i64 payload")
}

fn parse_optional_minimal_i64_value(message: &[u8], pos: usize) -> (r: Result<(Option<i64>, usize), String>)
    ensures
        match r {
            Ok((v, n)) => spec_parse_optional_i64(message@, pos as int) == Some((v, n as int)),
            Err(_) => spec_parse_optional_i64(message@, pos as int) is None,
        },
{
    if pos >= message.len() {
        return Ok((None, pos));
    }
    let (v, next) = parse_minimal_i64_value(message, pos)?;
    Ok((Some(v), next))
}

fn parse_scheduled_maintenance_status_payload(message: &[u8], pos: usize) -> (r: Result<
    (ScheduledMaintenanceStatus, usize),
    String,
>)
    ensures
        match r {
            Ok((v, n)) => spec_parse_scheduled_maintenance_status(message@, pos as int) == Some((v, n as int)),
            Err(_) => spec_parse_scheduled_maintenance_status(message@, pos as int) is None,
        },
{
    let (admin_bot_offline_raw, p1) = next_payload_byte(message, pos, "scheduled maintenance admin_bot_offline")?;
    let (start, p2) = parse_optional_minimal_i64_value(message, p1)?;
    let (end, p3) = if start.is_some() {
        parse_optional_minimal_i64_value(message, p2)?
    } else {
        (None, p2)
    };
    let mut status = ScheduledMaintenanceStatus::default();
    status.set_admin_bot_offline(admin_bot_offline_raw != 0);
    let start_time = match start {
        Some(v) => Some(UnixTime::new(v)),
        None => None,
    };
    let end_time = match end {
        Some(v) => Some(UnixTime::new(v)),
        None => None,
    };
    status.set_maintenance_time(start_time, end_time);
    Ok((status, p3))
}

fn parse_response_reset_profile_paging_payload(message: &[u8], pos: usize) -> (r: Result<
    ((u8, ResponseResetProfilePagingStatus, Option<i64>), usize),
    String,
>)
    ensures
        match r {
            Ok((v, n)) => spec_parse_reset_profile_paging(message@, pos as int) == Some((v, n as int)),
            Err(_) => spec_parse_reset_profile_paging(message@, pos as int) is None,
        },
{
    let (request_id, p1) = next_payload_byte(message, pos, "response reset profile paging request id")?;
    let (status_raw, p2) = next_payload_byte(message, p1, "response reset profile paging status")?;
    let status = match ResponseResetProfilePagingStatus::try_from_u8(status_raw) {
        Ok(status) => status,
        Err(_) => {
            return Err(crate::text::text_with_number(
                "unsupported reset profile paging status value ",
                status_raw as i64,
            ));
        },
    };
    if !matches!(status, ResponseResetProfilePagingStatus::Success) {
        if p2 < message.len() {
            return Err(crate::text::text("unexpected payload for non-success reset profile paging response"));
        }
        return Ok(((request_id, status, None), p2));
    }
    let (iterator_session_id, p3) = parse_minimal_i64_value_with_context(
        message,
        p2,
        "invalid or missing reset profile paging iterator session id payload",
    )?;
    Ok(((request_id, status, Some(iterator_session_id)), p3))
}

fn parse_optional_last_seen_time_payload(
    message: &[u8],
    pos: usize,
    marker_name: &str,
    error_context: &str,
) -> (r: Result<
    (Option<LastSeenTime>, usize),
    String,
>)
    ensures
        match r {
            Ok((v, n)) => spec_parse_last_seen(message@, pos as int) == Some((v, n as int)),
            Err(_) => spec_parse_last_seen(message@, pos as int) is None,
        },
{
    let (marker, p1) = next_payload_byte(message, pos, marker_name)?;
    if marker == 0 {
        return Ok((None, p1));
    }
    let (value, p2) = parse_minimal_i64_value_with_context(message, pos, error_context)?;
    Ok((Some(LastSeenTime::new(value)), p2))
}

fn parse_profile_version_payload(message: &[u8], pos: usize) -> (r: Result<(ProfileVersion, usize), String>)
    ensures
        match r {
            Ok((v, n)) => spec_parse_uuid(message@, pos as int) == Some((v.v, n as int)),
            Err(_) => spec_parse_uuid(message@, pos as int) is None,
        },
{
    let (profile_version, next) = parse_uuid_base64_url_from_iter(message, pos, "profile version")?;
    Ok((ProfileVersion::new_base_64_url(profile_version), next))
}

fn parse_profile_content_version_payload(message: &[u8], pos: usize) -> (r: Result<
    (ProfileContentVersion, usize),
    String,
>)
    ensures
        match r {
            Ok((v, n)) => spec_parse_uuid(message@, pos as int) == Some((v.v, n as int)),
            Err(_) => spec_parse_uuid(message@, pos as int) is None,
        },
{
    let (profile_content_version, next) = parse_uuid_base64_url_from_iter(message, pos, "profile content version")?;
    Ok((ProfileContentVersion::new_base_64_url(profile_content_version), next))
}

/// `acc` put in front of the profiles that `rest` holds, if any.
pub open spec fn prepend_profiles(acc: Seq<ProfileLink>, rest: Option<Seq<ProfileLink>>) -> Option<Seq<ProfileLink>> {
    match rest {
        Some(r) => Some(acc + r),
        None => None,
    }
}

fn parse_profile_link_payload(message: &[u8], pos: usize) -> (r: Result<(ProfileLink, usize), String>)
    requires
        pos < message@.len(),
    ensures
        match r {
            Ok((v, n)) => spec_parse_profile_link(message@, pos as int) == Some((v, n as int)) && n > pos,
            Err(_) => spec_parse_profile_link(message@, pos as int) is None,
        },
{
    let (account_id, p1) = parse_uuid_base64_url_from_iter_with_first_byte(message, pos, "account id")?;
    let (profile_version, p2) = parse_profile_version_payload(message, p1)?;
    let (profile_content_version, p3) = parse_profile_content_version_payload(message, p2)?;
    let (last_seen, p4) = parse_optional_last_seen_time_payload(
        message,
        p3,
        "next profile page last seen marker",
        "invalid or truncated next profile page last seen payload",
    )?;
    Ok((
        ProfileLink::new(AccountId::new_base_64_url(account_id), profile_version, profile_content_version, last_seen),
        p4,
    ))
}

fn parse_response_next_profile_page_payload(message: &[u8], pos: usize) -> (r: Result<
    ((u8, ResponseNextProfilePageStatus, Vec<ProfileLink>), usize),
    String,
>)
    ensures
        match r {
            Ok(((request_id, status, profiles), n)) => spec_parse_next_profile_page(message@, pos as int) == Some(
                ((request_id, status, profiles@), n as int),
            ),
            Err(_) => spec_parse_next_profile_page(message@, pos as int) is None,
        },
{
    let (request_id, p1) = next_payload_byte(message, pos, "response next profile page request id")?;
    let (status_raw, p2) = next_payload_byte(message, p1, "response next profile page status")?;
    let status = match ResponseNextProfilePageStatus::try_from_u8(status_raw) {
        Ok(status) => status,
        Err(_) => {
            return Err(crate::text::text_with_number(
                "unsupported next profile page status value ",
                status_raw as i64,
            ));
        },
    };
    if !matches!(status, ResponseNextProfilePageStatus::Success) {
        if p2 < message.len() {
            return Err(
                crate::text::text("unexpected profile payload for non-success next profile page response"),
            );
        }
        let empty: Vec<ProfileLink> = Vec::new();
        assert(empty@ =~= Seq::<ProfileLink>::empty());
        return Ok(((request_id, status, empty), p2));
    }
    let mut profiles: Vec<ProfileLink> = Vec::new();
    let mut p = p2;
    assert(profiles@ + Seq::<ProfileLink>::empty() =~= profiles@);
    let ghost whole = match spec_parse_profile_links(message@, p2 as int) {
        Some(ps) => Some(((request_id, status, ps), message@.len() as int)),
        None => None,
    };
    assert(spec_parse_next_profile_page(message@, pos as int) == whole);
    while p < message.len()
        invariant
            p2 <= p <= message@.len(),
            spec_parse_next_profile_page(message@, pos as int) == whole,
            whole == match spec_parse_profile_links(message@, p2 as int) {
                Some(ps) => Some(((request_id, status, ps), message@.len() as int)),
                None => None,
            },
            spec_parse_profile_links(message@, p2 as int)
                == prepend_profiles(profiles@, spec_parse_profile_links(message@, p as int)),
        decreases message@.len() - p,
    {
        let (profile, next) = match parse_profile_link_payload(message, p) {
            Ok(v) => v,
            Err(e) => {
                assert(spec_parse_profile_links(message@, p as int) is None);
                return Err(e);
            },
        };
        proof {
            let rest = spec_parse_profile_links(message@, next as int);
            match rest {
                Some(r) => {
                    assert(profiles@.push(profile) + r =~= profiles@ + (seq![profile] + r));
                },
                None => {},
            }
        }
        profiles.push(profile);
        p = next;
    }
    assert(profiles@ + Seq::<ProfileLink>::empty() =~= profiles@);
    Ok(((request_id, status, profiles), message.len()))
}

fn parse_content_id_payload(message: &[u8], pos: usize) -> (r: Result<(ContentId, usize), String>)
    ensures
        match r {
            Ok((v, n)) => spec_parse_uuid(message@, pos as int) == Some((v.cid, n as int)),
            Err(_) => spec_parse_uuid(message@, pos as int) is None,
        },
{
    let (content_id, next) = parse_uuid_base64_url_from_iter(message, pos, "content id")?;
    Ok((ContentId { cid: content_id }, next))
}

fn parse_content_processing_state_changed_payload(message: &[u8], pos: usize) -> (r: Result<
    (ContentProcessingStateChanged, usize),
    String,
>)
    ensures
        match r {
            Ok((v, n)) => spec_parse_content_processing_state_changed(message@, pos as int) == Some((v, n as int)),
            Err(_) => spec_parse_content_processing_state_changed(message@, pos as int) is None,
        },
{
    let (id, p1) = parse_minimal_i64_value(message, pos)?;
    let (state_raw, p2) = next_payload_byte(message, p1, "content processing state")?;
    let state = match ContentProcessingStateType::try_from_u8(state_raw) {
        Ok(state) => state,
        Err(_) => {
            return Err(crate::text::text_with_number(
                "unsupported content processing state value ",
                state_raw as i64,
            ));
        },
    };
    let (new_state, p3) = match state {
        ContentProcessingStateType::InQueue => {
            let (wait_queue_position, p3) = parse_minimal_i64_value(message, p2)?;
            (ContentProcessingStateInternal::InQueue { wait_queue_position }, p3)
        },
        ContentProcessingStateType::Completed => {
            let (content_id, p3) = parse_content_id_payload(message, p2)?;
            let (face_detected_byte, p4) = next_payload_byte(message, p3, "face detection")?;
            (ContentProcessingStateInternal::Completed { content_id, face_detected: face_detected_byte != 0 }, p4)
        },
        ContentProcessingStateType::Empty => (ContentProcessingStateInternal::Empty, p2),
        ContentProcessingStateType::Processing => (ContentProcessingStateInternal::Processing, p2),
        ContentProcessingStateType::Failed => (ContentProcessingStateInternal::Failed, p2),
        ContentProcessingStateType::NsfwDetected => (ContentProcessingStateInternal::NsfwDetected, p2),
    };
    Ok((ContentProcessingStateChanged { id, new_state }, p3))
}

fn parse_online_status_updated_payload(message: &[u8], pos: usize) -> (r: Result<
    (OnlineStatusUpdate, usize),
    String,
>)
    ensures
        match r {
            Ok((v, n)) => match spec_parse_uuid(message@, pos as int) {
                Some((u, q)) => u == v.a.aid && spec_parse_last_seen(message@, q) == Some((v.l, n as int)),
                None => false,
            },
            Err(_) => match spec_parse_uuid(message@, pos as int) {
                Some((u, q)) => spec_parse_last_seen(message@, q) is None,
                None => true,
            },
        },
{
    let (account_id, p1) = parse_account_id_payload(message, pos)?;
    let (last_seen, p2) = parse_optional_last_seen_time_payload(
        message,
        p1,
        "check online status last seen marker",
        "invalid or truncated check online status last seen payload",
    )?;
    Ok((OnlineStatusUpdate { a: account_id, l: last_seen }, p2))
}

/// Parses a binary WebSocket message from the server.
pub fn parse_server_binary_message(message: &[u8]) -> (r: Result<EventToClientInternal, String>)
    ensures
        match r {
            Ok(event) => spec_parse_server_binary_message(message@) == Some(event@),
            Err(_) => spec_parse_server_binary_message(message@) is None,
        },
        message@.len() == 0 ==> (r matches Err(e) && e@ == "missing server message type byte"@),
        message@.len() > 0 && ServerMessageType::spec_from_u8(message@[0]) is None ==> (r matches Err(e)
            && e@ == "unsupported server message type "@ + int_to_decimal(message@[0] as int)),
{
    if message.len() == 0 {
        return Err(crate::text::text("missing server message type byte"));
    }
    let message_type_u8 = message[0];
    let message_type = match ServerMessageType::try_from_u8(message_type_u8) {
        Ok(t) => t,
        Err(_) => {
            return Err(crate::text::text_with_number("unsupported server message type ", message_type_u8 as i64));
        },
    };
    let p: usize = 1;
    let (event, end) = match message_type {
        ServerMessageType::PendingAppNotificationsChanged => (EventToClientInternal::PendingAppNotificationsChanged, p),
        ServerMessageType::ClientConfigChanged => (EventToClientInternal::ClientConfigChanged, p),
        ServerMessageType::NewsCountChanged => (EventToClientInternal::NewsChanged, p),
        ServerMessageType::ScheduledMaintenanceStatus => {
            let (v, q) = parse_scheduled_maintenance_status_payload(message, p)?;
            (EventToClientInternal::ScheduledMaintenanceStatus(v), q)
        },
        ServerMessageType::AdminBotNotification => {
            let (bits, q) = next_payload_byte(message, p, "admin bot notification")?;
            (EventToClientInternal::AdminBotNotification(AdminBotNotificationTypes::from_bits_truncate(bits)), q)
        },
        ServerMessageType::PushNotificationInfoChanged => (EventToClientInternal::PushNotificationInfoChanged, p),
        ServerMessageType::RequestAdminBotConfigWarnings => {
            let (request_id, q) = next_payload_byte(message, p, "request admin bot config warnings request id")?;
            (EventToClientInternal::RequestAdminBotConfigWarnings { request_id }, q)
        },
        ServerMessageType::WebSocketConnectionAttemptsRemaining => {
            let (remaining, q) = next_payload_byte(message, p, "websocket connection attempts remaining")?;
            (EventToClientInternal::WebSocketConnectionAttemptsRemaining { remaining }, q)
        },
        ServerMessageType::AppUpdateAvailable => {
            return Ok(EventToClientInternal::AppUpdateAvailable);
        },
        ServerMessageType::AccountStateChanged => (EventToClientInternal::AccountStateChanged, p),
        ServerMessageType::AccountVerificationQueuePositionChanged => {
            if p >= message.len() {
                (EventToClientInternal::AccountVerificationQueuePositionChanged { queue_position: None }, p)
            } else {
                let (queue_position, q) = next_payload_byte(message, p, "account verification queue position")?;
                (
                    EventToClientInternal::AccountVerificationQueuePositionChanged {
                        queue_position: Some(queue_position),
                    },
                    q,
                )
            }
        },
        ServerMessageType::ProfileChanged => (EventToClientInternal::ProfileChanged, p),
        ServerMessageType::ResponseResetProfilePaging => {
            let ((request_id, status, iterator_session_id), q) = parse_response_reset_profile_paging_payload(
                message,
                p,
            )?;
            (EventToClientInternal::ResponseResetProfilePaging { request_id, status, iterator_session_id }, q)
        },
        ServerMessageType::ResponseNextProfilePage => {
            let ((request_id, status, profiles), q) = parse_response_next_profile_page_payload(message, p)?;
            (EventToClientInternal::ResponseNextProfilePage { request_id, status, profiles }, q)
        },
        ServerMessageType::ResponseAutomaticProfileSearchResetProfilePaging => {
            let ((request_id, status, iterator_session_id), q) = parse_response_reset_profile_paging_payload(
                message,
                p,
            )?;
            (
                EventToClientInternal::ResponseAutomaticProfileSearchResetProfilePaging {
                    request_id,
                    status,
                    iterator_session_id,
                },
                q,
            )
        },
        ServerMessageType::ResponseAutomaticProfileSearchNextProfilePage => {
            let ((request_id, status, profiles), q) = parse_response_next_profile_page_payload(message, p)?;
            (EventToClientInternal::ResponseAutomaticProfileSearchNextProfilePage { request_id, status, profiles }, q)
        },
        ServerMessageType::ContentProcessingStateChanged => {
            let (v, q) = parse_content_processing_state_changed_payload(message, p)?;
            (EventToClientInternal::ContentProcessingStateChanged(v), q)
        },
        ServerMessageType::MediaContentChanged => (EventToClientInternal::MediaContentChanged, p),
        ServerMessageType::NewMessageReceived => (EventToClientInternal::NewMessageReceived, p),
        ServerMessageType::PendingChatNotificationsChanged => (EventToClientInternal::PendingChatNotificationsChanged, p),
        ServerMessageType::ReceivedLikesChanged => (EventToClientInternal::ReceivedLikesChanged, p),
        ServerMessageType::DailyLikesLeftChanged => (EventToClientInternal::DailyLikesLeftChanged, p),
        ServerMessageType::TypingStart => {
            let (account_id, q) = parse_account_id_payload(message, p)?;
            (EventToClientInternal::TypingStart(account_id), q)
        },
        ServerMessageType::TypingStop => {
            let (account_id, q) = parse_account_id_payload(message, p)?;
            (EventToClientInternal::TypingStop(account_id), q)
        },
        ServerMessageType::OnlineStatusUpdated => {
            let (v, q) = parse_online_status_updated_payload(message, p)?;
            (EventToClientInternal::OnlineStatusUpdated(v), q)
        },
        ServerMessageType::MessageDeliveryInfoChanged => (EventToClientInternal::MessageDeliveryInfoChanged, p),
        ServerMessageType::LatestSeenMessageChanged => (EventToClientInternal::LatestSeenMessageChanged, p),
    };
    ensure_payload_fully_consumed(message, end, message_type)?;
    Ok(event)
}

} // verus!
