//! Small value types shared by the whole model: time stamps, UUIDs and
//! non-empty strings.
use vstd::prelude::*;
use vstd::string::StrSliceExecFns;

use crate::outside::{
    base64_url_safe_no_pad_decode, base64_url_safe_no_pad_encode, decode_url_safe_no_pad,
    encode_url_safe_no_pad, random_uuid_v4_bytes, utc_now_timestamp,
};
use crate::text::text;

verus! {

/// Seconds since the Unix epoch.
#[derive(Debug, Clone, Copy, PartialEq, Eq, Structural)]
pub struct UnixTime {
    pub ut: i64,
}

impl Default for UnixTime {
    fn default() -> (r: Self)
        ensures
            r.ut == 0,
    {
        Self { ut: 0 }
    }
}

impl UnixTime {
    pub fn new(ut: i64) -> (r: Self)
        ensures
            r.ut == ut,
    {
        Self { ut }
    }

    pub fn as_i64(&self) -> (r: &i64)
        ensures
            *r == self.ut,
    {
        &self.ut
    }

    /// The current time of the system clock.
    pub fn current_time() -> (r: Self) {
        Self { ut: utc_now_timestamp() }
    }

    /// Whether `duration` has passed from this time to `now`.
    pub open spec fn spec_elapsed_at(self, duration: DurationValue, now: UnixTime) -> bool {
        now.ut >= self.ut + duration.seconds
    }

    /// Whether `duration` has passed from this time to `now`.
    pub fn duration_value_elapsed_at(&self, duration: DurationValue, now: UnixTime) -> (r: bool)
        ensures
            r == self.spec_elapsed_at(duration, now),
    {
        now.ut as i128 >= self.ut as i128 + duration.seconds as i128
    }

    /// Whether `duration` has passed from this time to the current time
    /// of the system clock.
    pub fn duration_value_elapsed(&self, duration: DurationValue) -> (r: bool)
        ensures
            exists|now: UnixTime| r == self.spec_elapsed_at(duration, now),
    {
        let now = Self::current_time();
        self.duration_value_elapsed_at(duration, now)
    }
}

/// Time of day as hours and minutes.
#[derive(Debug, Clone, Copy, PartialEq, Eq, Structural)]
pub struct TimeValue {
    pub hours: u8,
    pub minutes: u8,
}

impl TimeValue {
    pub fn new(hours: u8, minutes: u8) -> (r: Self)
        ensures
            r.hours == hours,
            r.minutes == minutes,
    {
        Self { hours, minutes }
    }
}

/// Time of day in the UTC+0 time zone.
#[derive(Debug, Clone, Copy, PartialEq, Eq, Structural)]
pub struct UtcTimeValue(pub TimeValue);

/// Length of time in whole seconds.
#[derive(Debug, Clone, Copy, PartialEq, Eq, Structural)]
pub struct DurationValue {
    pub seconds: u32,
}

impl DurationValue {
    pub fn from_seconds(seconds: u32) -> (r: Self)
        ensures
            r.seconds == seconds,
    {
        Self { seconds }
    }

    pub fn from_days(days: u32) -> (r: Self)
        requires
            days * 86400 <= u32::MAX,
        ensures
            r.seconds == days * 86400,
    {
        Self { seconds: days * 86400 }
    }
}

/// Byte `i` (counted from the most significant one) of `x`.
pub open spec fn be_byte(x: u64, i: int) -> u8 {
    (x >> ((56 - 8 * i) as u64)) as u8
}

/// The 8 bytes of `x` in big-endian order.
pub open spec fn be_bytes(x: u64) -> Seq<u8> {
    seq![be_byte(x, 0), be_byte(x, 1), be_byte(x, 2), be_byte(x, 3),
        be_byte(x, 4), be_byte(x, 5), be_byte(x, 6), be_byte(x, 7)]
}

/// The `u64` whose big-endian bytes are `b[0..8]`.
pub open spec fn be_compose(b0: u8, b1: u8, b2: u8, b3: u8, b4: u8, b5: u8, b6: u8, b7: u8) -> u64 {
    (b0 as u64) << 56u64 | (b1 as u64) << 48u64 | (b2 as u64) << 40u64 | (b3 as u64) << 32u64
        | (b4 as u64) << 24u64 | (b5 as u64) << 16u64 | (b6 as u64) << 8u64 | (b7 as u64)
}

proof fn lemma_be_compose_bytes(b0: u8, b1: u8, b2: u8, b3: u8, b4: u8, b5: u8, b6: u8, b7: u8)
    ensures
        be_bytes(be_compose(b0, b1, b2, b3, b4, b5, b6, b7)) == seq![b0, b1, b2, b3, b4, b5, b6, b7],
{
    let x = be_compose(b0, b1, b2, b3, b4, b5, b6, b7);
    assert(
        (((b0 as u64) << 56u64 | (b1 as u64) << 48u64 | (b2 as u64) << 40u64 | (b3 as u64) << 32u64
        | (b4 as u64) << 24u64 | (b5 as u64) << 16u64 | (b6 as u64) << 8u64 | (b7 as u64)) >> 56u64) as u8 == b0
        && (((b0 as u64) << 56u64 | (b1 as u64) << 48u64 | (b2 as u64) << 40u64 | (b3 as u64) << 32u64
        | (b4 as u64) << 24u64 | (b5 as u64) << 16u64 | (b6 as u64) << 8u64 | (b7 as u64)) >> 48u64) as u8 == b1
        && (((b0 as u64) << 56u64 | (b1 as u64) << 48u64 | (b2 as u64) << 40u64 | (b3 as u64) << 32u64
        | (b4 as u64) << 24u64 | (b5 as u64) << 16u64 | (b6 as u64) << 8u64 | (b7 as u64)) >> 40u64) as u8 == b2
        && (((b0 as u64) << 56u64 | (b1 as u64) << 48u64 | (b2 as u64) << 40u64 | (b3 as u64) << 32u64
        | (b4 as u64) << 24u64 | (b5 as u64) << 16u64 | (b6 as u64) << 8u64 | (b7 as u64)) >> 32u64) as u8 == b3
        && (((b0 as u64) << 56u64 | (b1 as u64) << 48u64 | (b2 as u64) << 40u64 | (b3 as u64) << 32u64
        | (b4 as u64) << 24u64 | (b5 as u64) << 16u64 | (b6 as u64) << 8u64 | (b7 as u64)) >> 24u64) as u8 == b4
        && (((b0 as u64) << 56u64 | (b1 as u64) << 48u64 | (b2 as u64) << 40u64 | (b3 as u64) << 32u64
        | (b4 as u64) << 24u64 | (b5 as u64) << 16u64 | (b6 as u64) << 8u64 | (b7 as u64)) >> 16u64) as u8 == b5
        && (((b0 as u64) << 56u64 | (b1 as u64) << 48u64 | (b2 as u64) << 40u64 | (b3 as u64) << 32u64
        | (b4 as u64) << 24u64 | (b5 as u64) << 16u64 | (b6 as u64) << 8u64 | (b7 as u64)) >> 8u64) as u8 == b6
        && (((b0 as u64) << 56u64 | (b1 as u64) << 48u64 | (b2 as u64) << 40u64 | (b3 as u64) << 32u64
        | (b4 as u64) << 24u64 | (b5 as u64) << 16u64 | (b6 as u64) << 8u64 | (b7 as u64)) >> 0u64) as u8 == b7
    ) by (bit_vector);
    assert(be_bytes(x) =~= seq![b0, b1, b2, b3, b4, b5, b6, b7]);
}

proof fn lemma_be_bytes_injective(x: u64, y: u64)
    requires
        be_bytes(x) == be_bytes(y),
    ensures
        x == y,
{
    assert(be_bytes(x)[0] == be_bytes(y)[0]);
    assert(be_bytes(x)[1] == be_bytes(y)[1]);
    assert(be_bytes(x)[2] == be_bytes(y)[2]);
    assert(be_bytes(x)[3] == be_bytes(y)[3]);
    assert(be_bytes(x)[4] == be_bytes(y)[4]);
    assert(be_bytes(x)[5] == be_bytes(y)[5]);
    assert(be_bytes(x)[6] == be_bytes(y)[6]);
    assert(be_bytes(x)[7] == be_bytes(y)[7]);
    assert(
        (x >> 56u64) as u8 == (y >> 56u64) as u8 && (x >> 48u64) as u8 == (y >> 48u64) as u8
        && (x >> 40u64) as u8 == (y >> 40u64) as u8 && (x >> 32u64) as u8 == (y >> 32u64) as u8
        && (x >> 24u64) as u8 == (y >> 24u64) as u8 && (x >> 16u64) as u8 == (y >> 16u64) as u8
        && (x >> 8u64) as u8 == (y >> 8u64) as u8 && (x >> 0u64) as u8 == (y >> 0u64) as u8
        ==> x == y
    ) by (bit_vector);
}

/// UUID value, held as its high and low 64 bits.
/// Whether the bytes `b` are a version 4 UUID: 16 bytes whose version
/// nibble is 4 and whose variant bits are those of RFC 4122. The other
/// bits of such a UUID are random.
pub open spec fn is_uuid_v4(b: Seq<u8>) -> bool {
    &&& b.len() == 16
    &&& b[6] & 0xf0 == 0x40
    &&& b[8] & 0xc0 == 0x80
}

#[derive(Debug, Clone, Copy, PartialEq, Eq, Structural)]
pub struct UuidBase64Url {
    hi: u64,
    lo: u64,
}

impl UuidBase64Url {
    /// The 16 bytes of the UUID in big-endian order.
    pub closed spec fn bytes_view(&self) -> Seq<u8> {
        be_bytes(self.hi) + be_bytes(self.lo)
    }

    /// Two UUIDs are equal exactly when their bytes are.
    pub proof fn lemma_bytes_view_injective(a: Self, b: Self)
        ensures
            a.bytes_view() == b.bytes_view() <==> a == b,
            a.bytes_view().len() == 16,
    {
        if a.bytes_view() == b.bytes_view() {
            assert(be_bytes(a.hi) =~= a.bytes_view().subrange(0, 8));
            assert(be_bytes(b.hi) =~= b.bytes_view().subrange(0, 8));
            assert(be_bytes(a.lo) =~= a.bytes_view().subrange(8, 16));
            assert(be_bytes(b.lo) =~= b.bytes_view().subrange(8, 16));
            lemma_be_bytes_injective(a.hi, b.hi);
            lemma_be_bytes_injective(a.lo, b.lo);
        }
    }

    /// The UUID whose big-endian bytes are `b[0..16]`.
    pub closed spec fn spec_from_bytes(b: Seq<u8>) -> Self {
        Self {
            hi: be_compose(b[0], b[1], b[2], b[3], b[4], b[5], b[6], b[7]),
            lo: be_compose(b[8], b[9], b[10], b[11], b[12], b[13], b[14], b[15]),
        }
    }

    /// Building a UUID from 16 bytes keeps those bytes.
    pub proof fn lemma_spec_from_bytes(b: Seq<u8>)
        requires
            b.len() == 16,
        ensures
            Self::spec_from_bytes(b).bytes_view() == b,
    {
        lemma_be_compose_bytes(b[0], b[1], b[2], b[3], b[4], b[5], b[6], b[7]);
        lemma_be_compose_bytes(b[8], b[9], b[10], b[11], b[12], b[13], b[14], b[15]);
        assert(Self::spec_from_bytes(b).bytes_view() =~= b);
    }

    /// A UUID is rebuilt from its own bytes.
    pub proof fn lemma_from_own_bytes(u: Self)
        ensures
            Self::spec_from_bytes(u.bytes_view()) == u,
    {
        let b = u.bytes_view();
        Self::lemma_spec_from_bytes(b);
        Self::lemma_bytes_view_injective(Self::spec_from_bytes(b), u);
    }

    pub fn from_bytes(bytes: [u8; 16]) -> (r: Self)
        ensures
            r.bytes_view() == bytes@,
            r == Self::spec_from_bytes(bytes@),
    {
        let hi = (bytes[0] as u64) << 56u64 | (bytes[1] as u64) << 48u64 | (bytes[2] as u64) << 40u64
            | (bytes[3] as u64) << 32u64 | (bytes[4] as u64) << 24u64 | (bytes[5] as u64) << 16u64
            | (bytes[6] as u64) << 8u64 | (bytes[7] as u64);
        let lo = (bytes[8] as u64) << 56u64 | (bytes[9] as u64) << 48u64 | (bytes[10] as u64) << 40u64
            | (bytes[11] as u64) << 32u64 | (bytes[12] as u64) << 24u64 | (bytes[13] as u64) << 16u64
            | (bytes[14] as u64) << 8u64 | (bytes[15] as u64);
        proof {
            lemma_be_compose_bytes(bytes[0], bytes[1], bytes[2], bytes[3], bytes[4], bytes[5], bytes[6], bytes[7]);
            lemma_be_compose_bytes(bytes[8], bytes[9], bytes[10], bytes[11], bytes[12], bytes[13], bytes[14], bytes[15]);
        }
        let r = Self { hi, lo };
        assert(r.bytes_view() =~= bytes@);
        assert(r == Self::spec_from_bytes(bytes@));
        r
    }

    pub fn as_bytes(&self) -> (r: [u8; 16])
        ensures
            r@ == self.bytes_view(),
    {
        let h = self.hi;
        let l = self.lo;
        let r = [(h >> 56u64) as u8, (h >> 48u64) as u8, (h >> 40u64) as u8, (h >> 32u64) as u8,
            (h >> 24u64) as u8, (h >> 16u64) as u8, (h >> 8u64) as u8, (h >> 0u64) as u8,
            (l >> 56u64) as u8, (l >> 48u64) as u8, (l >> 40u64) as u8, (l >> 32u64) as u8,
            (l >> 24u64) as u8, (l >> 16u64) as u8, (l >> 8u64) as u8, (l >> 0u64) as u8];
        assert(r@ =~= self.bytes_view());
        r
    }

    /// A new random version 4 UUID: the version nibble is 4 and the
    /// variant bits are those of RFC 4122.
    pub fn new_random_id() -> (r: Self)
        ensures
            is_uuid_v4(r.bytes_view()),
    {
        Self::from_bytes(random_uuid_v4_bytes())
    }

    /// The URL safe Base64 text, without padding, of the UUID bytes.
    pub fn to_text(&self) -> (r: String)
        ensures
            r@ == base64_url_safe_no_pad_encode(self.bytes_view()),
            r@.len() == 22,
    {
        let bytes = self.as_bytes();
        encode_url_safe_no_pad(bytes.as_slice())
    }

    /// The UUID whose bytes the URL safe Base64 text `text` holds. Fails
    /// when the text does not decode or does not hold exactly 16 bytes.
    pub fn from_text(text_value: &str) -> (r: Result<Self, String>)
        ensures
            match r {
                Ok(u) => base64_url_safe_no_pad_decode(text_value@) == Some(u.bytes_view()),
                Err(_) => match base64_url_safe_no_pad_decode(text_value@) {
                    Some(b) => b.len() != 16,
                    None => true,
                },
            },
            forall|u: Self| #[trigger] base64_url_safe_no_pad_encode(u.bytes_view()) == text_value@
                ==> r == Ok::<Self, String>(u),
    {
        match decode_url_safe_no_pad(text_value) {
            Ok(v) => {
                if v.len() == 16 {
                    let bytes: [u8; 16] = [v[0], v[1], v[2], v[3], v[4], v[5], v[6], v[7], v[8],
                        v[9], v[10], v[11], v[12], v[13], v[14], v[15]];
                    assert(bytes@ =~= v@);
                    let u = Self::from_bytes(bytes);
                    proof {
                        assert forall|w: Self| #[trigger] base64_url_safe_no_pad_encode(w.bytes_view())
                            == text_value@ implies Ok::<Self, String>(u) == Ok::<Self, String>(w) by {
                            Self::lemma_bytes_view_injective(u, w);
                        }
                    }
                    Ok(u)
                } else {
                    proof {
                        assert forall|w: Self| #[trigger] base64_url_safe_no_pad_encode(w.bytes_view())
                            == text_value@ implies false by {
                            Self::lemma_bytes_view_injective(w, w);
                        }
                    }
                    Err(text("UUID text does not hold 16 bytes"))
                }
            },
            Err(_) => Err(text("UUID text is not URL safe Base64")),
        }
    }

    /// The UUID whose bytes are all zero.
    pub fn for_debugging_only_zero() -> (r: Self)
        ensures
            r.bytes_view() == Seq::new(16, |i: int| 0u8),
    {
        let r = Self { hi: 0, lo: 0 };
        assert(0u64 >> 56u64 == 0 && 0u64 >> 48u64 == 0 && 0u64 >> 40u64 == 0 && 0u64 >> 32u64 == 0
            && 0u64 >> 24u64 == 0 && 0u64 >> 16u64 == 0 && 0u64 >> 8u64 == 0 && 0u64 >> 0u64 == 0)
            by (bit_vector);
        assert(r.bytes_view() =~= Seq::new(16, |i: int| 0u8));
        r
    }
}

/// Scheduled server maintenance: whether the admin bot is offline and
/// the optional maintenance start and end times.
#[derive(Debug, Clone, Copy, PartialEq, Eq, Structural)]
pub struct ScheduledMaintenanceStatus {
    pub admin_bot_offline: bool,
    pub start: Option<UnixTime>,
    pub end: Option<UnixTime>,
}

impl Default for ScheduledMaintenanceStatus {
    fn default() -> (r: Self)
        ensures
            r == (Self { admin_bot_offline: false, start: None, end: None }),
    {
        Self { admin_bot_offline: false, start: None, end: None }
    }
}

impl ScheduledMaintenanceStatus {
    pub fn set_admin_bot_offline(&mut self, value: bool)
        ensures
            *final(self) == (Self { admin_bot_offline: value, ..*old(self) }),
    {
        self.admin_bot_offline = value;
    }

    pub fn set_maintenance_time(&mut self, start: Option<UnixTime>, end: Option<UnixTime>)
        ensures
            *final(self) == (Self { start, end, ..*old(self) }),
    {
        self.start = start;
        self.end = end;
    }

    pub fn admin_bot_offline(&self) -> (r: bool)
        ensures
            r == self.admin_bot_offline,
    {
        self.admin_bot_offline
    }

    pub fn start(&self) -> (r: Option<UnixTime>)
        ensures
            r == self.start,
    {
        self.start
    }

    pub fn end(&self) -> (r: Option<UnixTime>)
        ensures
            r == self.end,
    {
        self.end
    }
}

/// String that is never empty.
#[derive(Debug)]
pub struct NonEmptyString {
    s: String,
}

impl Clone for NonEmptyString {
    fn clone(&self) -> (r: Self)
        ensures
            r@ == self@,
    {
        proof {
            use_type_invariant(self);
        }
        Self { s: self.s.clone() }
    }
}

impl View for NonEmptyString {
    type V = Seq<char>;

    closed spec fn view(&self) -> Seq<char> {
        self.s@
    }
}

impl NonEmptyString {
    #[verifier::type_invariant]
    spec fn non_empty(&self) -> bool {
        self.s@.len() > 0
    }

    /// `s` when it is not empty.
    pub fn from_string(s: String) -> (r: Option<Self>)
        ensures
            match r {
                Some(v) => v@ == s@ && s@.len() > 0,
                None => s@.len() == 0,
            },
    {
        if s.as_str().unicode_len() == 0 {
            None
        } else {
            Some(Self { s })
        }
    }

    pub fn as_str(&self) -> (r: &str)
        ensures
            r@ == self@,
            r@.len() > 0,
    {
        proof {
            use_type_invariant(self);
        }
        self.s.as_str()
    }
}

} // verus!
