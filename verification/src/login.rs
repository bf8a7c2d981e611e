//! Login sessions and the random tokens that authenticate API access.
use vstd::prelude::*;

use crate::backend::{DurationValue, UnixTime};
use crate::ip_address::IpAddressInternal;
use crate::outside::{
    base64_padded_len, base64_standard_decode, base64_standard_encode, base64_unpadded_len,
    base64_url_safe_no_pad_decode, base64_url_safe_no_pad_encode, decode_standard,
    decode_url_safe_no_pad, encode_standard, encode_url_safe_no_pad, is_base64_standard_char,
    is_base64_url_safe_char, random_128_bits,
};

verus! {

/// 32 random bytes: two blocks of 128 random bits.
fn random_256_bits() -> (r: Vec<u8>)
    ensures
        r@.len() == 32,
{
    let mut token: Vec<u8> = Vec::new();
    let first = random_128_bits();
    token.extend_from_slice(first.as_slice());
    let second = random_128_bits();
    token.extend_from_slice(second.as_slice());
    token
}

/// AccessToken is used as a short lived token for API access.
///
/// The token is a 256 bit random value which is Base64 URL safe encoded
/// without padding, as it is transferred as an HTTP header value. The token
/// length in characters is 43.
#[derive(Debug, Clone, PartialEq, Eq, Hash)]
pub struct AccessToken {
    /// Base64 URL safe without padding
    token: String,
}

impl View for AccessToken {
    type V = Seq<char>;

    closed spec fn view(&self) -> Seq<char> {
        self.token@
    }
}

impl AccessToken {
    /// A new random token and the 32 bytes that it encodes.
    pub fn generate_new_with_bytes() -> (r: (Self, Vec<u8>))
        ensures
            r.1@.len() == 32,
            r.0@ == base64_url_safe_no_pad_encode(r.1@),
            r.0@.len() == 43,
            forall|i: int| 0 <= i < r.0@.len() ==> is_base64_url_safe_char(#[trigger] r.0@[i]),
    {
        let token = random_256_bits();
        let access_token = Self::from_bytes(token.as_slice());
        (access_token, token)
    }

    /// A new random token of 43 URL safe Base64 characters.
    pub fn generate_new() -> (r: Self)
        ensures
            r@.len() == 43,
            forall|i: int| 0 <= i < r@.len() ==> is_base64_url_safe_char(#[trigger] r@[i]),
            exists|b: Seq<u8>| b.len() == 32 && r@ == base64_url_safe_no_pad_encode(b),
    {
        let (t, b) = Self::generate_new_with_bytes();
        t
    }

    pub fn new(token: String) -> (r: Self)
        ensures
            r@ == token@,
    {
        Self { token }
    }

    pub fn into_string(self) -> (r: String)
        ensures
            r@ == self@,
    {
        self.token
    }

    pub fn as_str(&self) -> (r: &str)
        ensures
            r@ == self@,
    {
        self.token.as_str()
    }

    /// The token that encodes `data`.
    pub fn from_bytes(data: &[u8]) -> (r: Self)
        requires
            data@.len() <= usize::MAX / 4,
        ensures
            r@ == base64_url_safe_no_pad_encode(data@),
            r@.len() == base64_unpadded_len(data@.len()),
            forall|i: int| 0 <= i < r@.len() ==> is_base64_url_safe_char(#[trigger] r@[i]),
    {
        Self { token: encode_url_safe_no_pad(data) }
    }

    /// The bytes that the token encodes. A token made from bytes gives them
    /// back.
    pub fn bytes(&self) -> (r: Result<Vec<u8>, base64::DecodeError>)
        ensures
            match r {
                Ok(v) => base64_url_safe_no_pad_decode(self@) == Some(v@),
                Err(_) => base64_url_safe_no_pad_decode(self@) is None,
            },
            forall|d: Seq<u8>|
                #[trigger] base64_url_safe_no_pad_encode(d) == self@ ==> (r is Ok && r->Ok_0@ == d),
    {
        decode_url_safe_no_pad(self.token.as_str())
    }
}

/// Email login token is a 128 bit token used for email based
/// authentication where the client receives one token via the API and
/// another is sent via email.
#[derive(Debug, Clone, PartialEq, Eq, Hash)]
pub struct EmailLoginToken {
    /// Base64 URL safe without padding
    token: String,
}

impl View for EmailLoginToken {
    type V = Seq<char>;

    closed spec fn view(&self) -> Seq<char> {
        self.token@
    }
}

impl EmailLoginToken {
    /// A new random token and the 16 bytes that it encodes.
    pub fn generate_new_with_bytes() -> (r: (Self, Vec<u8>))
        ensures
            r.1@.len() == 16,
            r.0@ == base64_url_safe_no_pad_encode(r.1@),
            r.0@.len() == 22,
            forall|i: int| 0 <= i < r.0@.len() ==> is_base64_url_safe_char(#[trigger] r.0@[i]),
    {
        let token = random_128_bits();
        let email_token = Self::from_bytes(token.as_slice());
        let mut bytes: Vec<u8> = Vec::new();
        bytes.extend_from_slice(token.as_slice());
        assert(bytes@ =~= token@);
        (email_token, bytes)
    }

    /// A new random token of 22 URL safe Base64 characters.
    pub fn generate_new() -> (r: Self)
        ensures
            r@.len() == 22,
            forall|i: int| 0 <= i < r@.len() ==> is_base64_url_safe_char(#[trigger] r@[i]),
            exists|b: Seq<u8>| b.len() == 16 && r@ == base64_url_safe_no_pad_encode(b),
    {
        let (t, b) = Self::generate_new_with_bytes();
        t
    }

    pub fn new(token: String) -> (r: Self)
        ensures
            r@ == token@,
    {
        Self { token }
    }

    pub fn into_string(self) -> (r: String)
        ensures
            r@ == self@,
    {
        self.token
    }

    pub fn as_str(&self) -> (r: &str)
        ensures
            r@ == self@,
    {
        self.token.as_str()
    }

    /// The token that encodes `data`.
    pub fn from_bytes(data: &[u8]) -> (r: Self)
        requires
            data@.len() <= usize::MAX / 4,
        ensures
            r@ == base64_url_safe_no_pad_encode(data@),
            r@.len() == base64_unpadded_len(data@.len()),
            forall|i: int| 0 <= i < r@.len() ==> is_base64_url_safe_char(#[trigger] r@[i]),
    {
        Self { token: encode_url_safe_no_pad(data) }
    }

    /// The bytes that the token encodes. A token made from bytes gives them
    /// back.
    pub fn bytes(&self) -> (r: Result<Vec<u8>, base64::DecodeError>)
        ensures
            match r {
                Ok(v) => base64_url_safe_no_pad_decode(self@) == Some(v@),
                Err(_) => base64_url_safe_no_pad_decode(self@) is None,
            },
            forall|d: Seq<u8>|
                #[trigger] base64_url_safe_no_pad_encode(d) == self@ ==> (r is Ok && r->Ok_0@ == d),
    {
        decode_url_safe_no_pad(self.token.as_str())
    }
}

/// Refresh token is a long lived token used for getting new access tokens.
///
/// The token is a 256 bit random value which is Base64 encoded with
/// padding. The token length in characters is 44.
#[derive(Debug, Clone, PartialEq, Eq, Hash)]
pub struct RefreshToken {
    /// Base64 encoded random number.
    token: String,
}

impl View for RefreshToken {
    type V = Seq<char>;

    closed spec fn view(&self) -> Seq<char> {
        self.token@
    }
}

impl RefreshToken {
    /// A new random token and the 32 bytes that it encodes.
    pub fn generate_new_with_bytes() -> (r: (Self, Vec<u8>))
        ensures
            r.1@.len() == 32,
            r.0@ == base64_standard_encode(r.1@),
            r.0@.len() == 44,
            forall|i: int| 0 <= i < r.0@.len() ==> is_base64_standard_char(#[trigger] r.0@[i]),
    {
        let token = random_256_bits();
        (Self::from_bytes(token.as_slice()), token)
    }

    /// A new random token of 44 Base64 characters.
    pub fn generate_new() -> (r: Self)
        ensures
            r@.len() == 44,
            forall|i: int| 0 <= i < r@.len() ==> is_base64_standard_char(#[trigger] r@[i]),
            exists|b: Seq<u8>| b.len() == 32 && r@ == base64_standard_encode(b),
    {
        let (token, _bytes) = Self::generate_new_with_bytes();
        token
    }

    /// The token that encodes `data`.
    pub fn from_bytes(data: &[u8]) -> (r: Self)
        requires
            data@.len() <= usize::MAX / 4,
        ensures
            r@ == base64_standard_encode(data@),
            r@.len() == base64_padded_len(data@.len()),
            forall|i: int| 0 <= i < r@.len() ==> is_base64_standard_char(#[trigger] r@[i]),
    {
        Self { token: encode_standard(data) }
    }

    /// Base64 string
    pub fn into_string(self) -> (r: String)
        ensures
            r@ == self@,
    {
        self.token
    }

    /// Base64 string
    pub fn as_str(&self) -> (r: &str)
        ensures
            r@ == self@,
    {
        self.token.as_str()
    }

    /// The bytes that the token encodes. A token made from bytes gives them
    /// back.
    pub fn bytes(&self) -> (r: Result<Vec<u8>, base64::DecodeError>)
        ensures
            match r {
                Ok(v) => base64_standard_decode(self@) == Some(v@),
                Err(_) => base64_standard_decode(self@) is None,
            },
            forall|d: Seq<u8>| #[trigger] base64_standard_encode(d) == self@ ==> (r is Ok && r->Ok_0@ == d),
    {
        decode_standard(self.token.as_str())
    }
}

/// Time when an access token was created.
#[derive(Debug, Clone, Copy, Default, PartialEq, Eq, Structural)]
pub struct AccessTokenUnixTime {
    pub ut: UnixTime,
}

impl AccessTokenUnixTime {
    pub fn current_time() -> (r: Self) {
        Self { ut: UnixTime::current_time() }
    }

    pub fn as_ref(&self) -> (r: &i64)
        ensures
            *r == self.ut.ut,
    {
        self.ut.as_i64()
    }
}

impl TryFrom<i64> for AccessTokenUnixTime {
    type Error = String;

    fn try_from(ut: i64) -> (r: Result<Self, Self::Error>)
        ensures
            r matches Ok(t) && t.ut.ut == ut,
    {
        Ok(Self { ut: UnixTime::new(ut) })
    }
}

impl vstd::std_specs::convert::TryFromSpecImpl<i64> for AccessTokenUnixTime {
    open spec fn obeys_try_from_spec() -> bool {
        false
    }

    open spec fn try_from_spec(v: i64) -> Result<Self, String> {
        arbitrary()
    }
}

/// Which access token of a login session a request used.
#[derive(Debug, Clone, Copy, PartialEq, Eq, Structural)]
pub enum AccessTokenType {
    Current,
    Previous,
}

/// Tokens of one login and the IP addresses that may use the access tokens.
#[derive(Debug, Clone)]
pub struct LoginSession {
    pub access_token: AccessToken,
    pub access_token_unix_time: AccessTokenUnixTime,
    pub access_token_previous: Option<AccessToken>,
    pub access_token_ip_address: IpAddressInternal,
    pub access_token_ip_address_previous: Option<IpAddressInternal>,
    pub refresh_token: RefreshToken,
}

impl LoginSession {
    /// Whether `ip` is the session's IP address or its previous one.
    pub open spec fn spec_is_ip_valid(&self, ip: IpAddressInternal) -> bool {
        self.access_token_ip_address == ip || self.access_token_ip_address_previous == Some(ip)
    }

    /// How long an access token of the given type stays valid, or `None`
    /// when the session has no such token: the current token 7 days for a
    /// WebSocket connection and 14 days otherwise, the previous token 60
    /// seconds.
    pub open spec fn spec_token_lifetime(&self, access_token_type: AccessTokenType, websocket: bool) -> Option<int> {
        match access_token_type {
            AccessTokenType::Current => if websocket { Some(604800int) } else { Some(1209600int) },
            AccessTokenType::Previous => if self.access_token_previous is Some { Some(60int) } else { None },
        }
    }

    /// Whether the access token of the given type is valid at `now`: it
    /// exists and its lifetime has not passed since it was created.
    pub open spec fn spec_is_access_token_valid_at(
        &self,
        access_token_type: AccessTokenType,
        websocket: bool,
        now: UnixTime,
    ) -> bool {
        match self.spec_token_lifetime(access_token_type, websocket) {
            Some(seconds) => now.ut < self.access_token_unix_time.ut.ut + seconds,
            None => false,
        }
    }

    pub fn is_ip_valid(&self, ip: IpAddressInternal) -> (r: bool)
        ensures
            r == self.spec_is_ip_valid(ip),
    {
        if self.access_token_ip_address.is_same_address(&ip) {
            true
        } else {
            match self.access_token_ip_address_previous {
                Some(a) => a.is_same_address(&ip),
                None => false,
            }
        }
    }

    pub fn is_access_token_valid_at(&self, access_token_type: AccessTokenType, websocket: bool, now: UnixTime) -> (r: bool)
        ensures
            r == self.spec_is_access_token_valid_at(access_token_type, websocket, now),
    {
        let expires_in = match access_token_type {
            AccessTokenType::Current => {
                if websocket {
                    DurationValue::from_days(7)
                } else {
                    DurationValue::from_days(14)
                }
            },
            AccessTokenType::Previous => {
                if self.access_token_previous.is_some() {
                    DurationValue::from_seconds(60)
                } else {
                    return false;
                }
            },
        };
        !self.access_token_unix_time.ut.duration_value_elapsed_at(expires_in, now)
    }

    /// Whether the access token of the given type is valid now.
    pub fn is_access_token_valid(&self, access_token_type: AccessTokenType, websocket: bool) -> (r: bool)
        ensures
            exists|now: UnixTime| r == self.spec_is_access_token_valid_at(access_token_type, websocket, now),
            self.spec_token_lifetime(access_token_type, websocket) is None ==> !r,
    {
        self.is_access_token_valid_at(access_token_type, websocket, UnixTime::current_time())
    }

    /// Whether a request from `ip` that uses the access token of the given
    /// type is allowed at `now`.
    pub fn is_valid_at(&self, ip: IpAddressInternal, access_token_type: AccessTokenType, websocket: bool, now: UnixTime) -> (r: bool)
        ensures
            r == (self.spec_is_ip_valid(ip) && self.spec_is_access_token_valid_at(access_token_type, websocket, now)),
    {
        self.is_ip_valid(ip) && self.is_access_token_valid_at(access_token_type, websocket, now)
    }

    /// Whether a request from `ip` that uses the access token of the given
    /// type is allowed now.
    pub fn is_valid(&self, ip: IpAddressInternal, access_token_type: AccessTokenType, websocket: bool) -> (r: bool)
        ensures
            r ==> self.spec_is_ip_valid(ip),
            !self.spec_is_ip_valid(ip) ==> !r,
            self.spec_token_lifetime(access_token_type, websocket) is None ==> !r,
    {
        let now = UnixTime::current_time();
        self.is_valid_at(ip, access_token_type, websocket, now)
    }
}

} // verus!
