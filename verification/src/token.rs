//! Bearer tokens: issuing them, and reading the caller's identity out of the
//! one that a request carries.

use crate::clock::unix_time;
use crate::error::ErrorKind;
use crate::object_id::hex_text;
use crate::object_id::ObjectId;
use crate::text::after_last;
use crate::text::has_prefix;
use crate::text::last_index_ascii;
use crate::text::last_index_of;
use crate::text::lemma_last_index_of;
use crate::text::strip_prefix;
use vstd::prelude::*;
use vstd::utf8::is_ascii_chars;

verus! {

/// The seconds for which a token is good.
pub const TOKEN_LIFETIME: u64 = 86400;

/// The key that tokens are signed with. One value is made at startup and handed
/// by reference to whatever signs or verifies; nothing changes it afterwards.
pub struct SigningSecret {
    key: Vec<u8>,
}

impl View for SigningSecret {
    type V = Seq<u8>;

    closed spec fn view(&self) -> Seq<u8> {
        self.key@
    }
}

impl SigningSecret {
    /// The secret with the given bytes.
    pub fn new(key: Vec<u8>) -> (secret: SigningSecret)
        ensures
            secret@ == key@,
    {
        SigningSecret { key }
    }

    fn bytes(&self) -> (bytes: &[u8])
        ensures
            bytes@ == self@,
    {
        self.key.as_slice()
    }
}

/// What a token says of its bearer: who it is, and from when until when the
/// token is good, in seconds since the epoch.
#[derive(Clone, Copy, Debug, PartialEq, Eq)]
pub struct JWTClaims {
    pub user_id: ObjectId,
    pub exp: u64,
    pub iat: u64,
}

/// The caller of a request, as read out of a verified token.
#[derive(Clone, Copy, Debug, PartialEq, Eq)]
pub struct Identity {
    pub subject_id: ObjectId,
    pub issued_at: u64,
    pub expires_at: u64,
}

/// Why a request's credential was turned down.
#[derive(Clone, Copy, Debug, PartialEq, Eq, Structural)]
pub enum TokenError {
    /// No credential, or one that is not a well-formed bearer token.
    InvalidCredential,
    /// The signature is not the one that the secret gives.
    InvalidSignature,
    /// The token was good once and is no longer.
    Expired,
}

impl TokenError {
    /// The class of the rejection: every one is a failure to authenticate.
    pub open spec fn class(self) -> ErrorKind {
        ErrorKind::Authentication
    }

    /// The class of the rejection.
    pub fn kind(&self) -> (kind: ErrorKind)
        ensures
            kind == self.class(),
    {
        ErrorKind::Authentication
    }

    /// The status sent with the rejection.
    pub fn status(&self) -> (status: u16)
        ensures
            status == 401,
    {
        401
    }

    /// The message sent with the rejection.
    pub fn message(&self) -> (message: String)
        ensures
            message@ == match *self {
                TokenError::InvalidCredential => "Missing or invalid credential"@,
                TokenError::InvalidSignature => "Invalid signature"@,
                TokenError::Expired => "Expired credential"@,
            },
    {
        match self {
            TokenError::InvalidCredential => String::from_str("Missing or invalid credential"),
            TokenError::InvalidSignature => String::from_str("Invalid signature"),
            TokenError::Expired => String::from_str("Expired credential"),
        }
    }
}

impl JWTClaims {
    /// The claims of a token issued to `user_id` at `now`: good from then on
    /// for `TOKEN_LIFETIME` seconds.
    pub open spec fn issued(user_id: ObjectId, now: u64) -> JWTClaims {
        JWTClaims { user_id, exp: (now + TOKEN_LIFETIME) as u64, iat: now }
    }

    /// The claims of a token issued to `user_id` at `now`. `None` where the
    /// expiry would not fit the clock's type.
    pub fn new(user_id: ObjectId, now: u64) -> (claims: Option<JWTClaims>)
        ensures
            claims == if now + TOKEN_LIFETIME <= u64::MAX {
                Some(JWTClaims::issued(user_id, now))
            } else {
                None
            },
    {
        match now.checked_add(TOKEN_LIFETIME) {
            Some(exp) => Some(JWTClaims { user_id, exp, iat: now }),
            None => None,
        }
    }

    /// The identity that a token with these claims gives its bearer.
    pub open spec fn identity(self) -> Identity {
        Identity { subject_id: self.user_id, issued_at: self.iat, expires_at: self.exp }
    }
}

impl Identity {
    /// An identity's expiry lies behind its issue.
    pub open spec fn well_formed(self) -> bool {
        self.expires_at > self.issued_at
    }

    /// An identity is valid from its issue until just before its expiry.
    pub open spec fn valid_at(self, time: u64) -> bool {
        self.issued_at <= time < self.expires_at
    }

    /// Whether the identity is valid at `time`.
    pub fn is_valid_at(&self, time: u64) -> (valid: bool)
        ensures
            valid == self.valid_at(time),
    {
        self.issued_at <= time && time < self.expires_at
    }
}

/// The six bits that a character of the URL-safe base64 alphabet stands for;
/// `-1` for any other character.
pub open spec fn base64url_value(c: char) -> int {
    if 'A' <= c && c <= 'Z' {
        c as int - 'A' as int
    } else if 'a' <= c && c <= 'z' {
        c as int - 'a' as int + 26
    } else if '0' <= c && c <= '9' {
        c as int - '0' as int + 52
    } else if c == '-' {
        62
    } else if c == '_' {
        63
    } else {
        -1
    }
}

/// A text is unpadded URL-safe base64 when every character is of the alphabet,
/// the length is that of some number of bytes, and the bits of the last
/// character that belong to no byte are zero.
pub open spec fn is_base64url(s: Seq<char>) -> bool {
    &&& forall|i: int| 0 <= i < s.len() ==> base64url_value(#[trigger] s[i]) >= 0
    &&& s.len() % 4 != 1
    &&& s.len() % 4 == 2 ==> base64url_value(s.last()) % 16 == 0
    &&& s.len() % 4 == 3 ==> base64url_value(s.last()) % 4 == 0
}

/// The part of a token that is signed: all that stands before its last `.`.
pub open spec fn message_of(token: Seq<char>) -> Seq<char> {
    token.take(last_index_of(token, '.'))
}

/// The signature segment of a token: all that stands behind its last `.`.
pub open spec fn signature_of(token: Seq<char>) -> Seq<char> {
    after_last(token, '.')
}

/// The first segment of a token, which describes the signature.
pub open spec fn header_of(token: Seq<char>) -> Seq<char> {
    message_of(message_of(token))
}

/// The second segment of a token, which holds the claims.
pub open spec fn claims_of(token: Seq<char>) -> Seq<char> {
    after_last(message_of(token), '.')
}

/// A token is framed when it is three segments of unpadded URL-safe base64
/// with a `.` between them.
pub open spec fn is_framed(token: Seq<char>) -> bool {
    &&& last_index_of(token, '.') >= 0
    &&& last_index_of(message_of(token), '.') >= 0
    &&& is_base64url(header_of(token))
    &&& is_base64url(claims_of(token))
    &&& is_base64url(signature_of(token))
}

#[verifier::external_type_specification]
#[verifier::external_body]
pub struct ExJwtError(jsonwebtoken::errors::Error);

/// The names of the three claims of a token: who the bearer is, when the token
/// was issued, and when it expires.
pub open spec fn claim_names() -> (Seq<char>, Seq<char>, Seq<char>) {
    ("subject_id"@, "iat"@, "exp"@)
}

/// The token that `jsonwebtoken::encode` makes, under the default header and
/// a secret, of a JSON object with three members: a string under the first
/// name, a number under the second and a number under the third. `None` where
/// it reports an error.
pub uninterp spec fn jwt_encoding(
    names: (Seq<char>, Seq<char>, Seq<char>),
    subject: Seq<char>,
    iat: u64,
    exp: u64,
    secret: Seq<u8>,
) -> Option<Seq<char>>;

/// The signature that `jsonwebtoken::crypto::verify` compares a given one
/// with: the one that signing gives the message under the secret with
/// HMAC-SHA256, in URL-safe base64. `None` where signing reports an error.
pub uninterp spec fn hs256_signature(message: Seq<char>, secret: Seq<u8>) -> Option<Seq<char>>;

/// The three members, a string and two numbers, that `jsonwebtoken::decode`
/// reads under the three names out of the claims of a token, under a secret,
/// with HMAC-SHA256 and without a look at the clock. `None` where it reports
/// an error, or where one of the three is missing or of another type.
pub uninterp spec fn jwt_decoding(
    names: (Seq<char>, Seq<char>, Seq<char>),
    token: Seq<char>,
    secret: Seq<u8>,
) -> Option<(Seq<char>, u64, u64)>;

/// `jsonwebtoken::encode`, under `Header::default()` and a key made by
/// `EncodingKey::from_secret`, of a JSON object with a string member and two
/// number members under the given names.
///
/// Trusted: the token depends on the arguments alone, so it is given the name
/// `jwt_encoding`; nothing more is claimed of it.
#[verifier::external_body]
fn encode_claims(names: (&str, &str, &str), subject: &str, iat: u64, exp: u64, secret: &[u8]) -> (res:
    Result<String, jsonwebtoken::errors::Error>)
    ensures
        match res {
            Ok(token) => jwt_encoding((names.0@, names.1@, names.2@), subject@, iat, exp, secret@)
                == Some(token@),
            Err(_) => jwt_encoding((names.0@, names.1@, names.2@), subject@, iat, exp, secret@)
                is None,
        },
{
    let mut claims = serde_json::Map::new();
    claims.insert(names.0.to_string(), serde_json::Value::from(subject));
    claims.insert(names.1.to_string(), serde_json::Value::from(iat));
    claims.insert(names.2.to_string(), serde_json::Value::from(exp));
    let key = jsonwebtoken::EncodingKey::from_secret(secret);
    jsonwebtoken::encode(&jsonwebtoken::Header::default(), &claims, &key)
}

/// `jsonwebtoken::crypto::verify` with `Algorithm::HS256` and a key made by
/// `DecodingKey::from_secret`.
///
/// Trusted: the call signs the message again and compares the signature given
/// with the new one, without stopping at the first difference; it answers
/// whether the two are the same. The new signature depends on the message and
/// the secret alone, so it is given the name `hs256_signature`; nothing more
/// is claimed of it.
#[verifier::external_body]
fn verify_signature(signature: &str, message: &str, secret: &[u8]) -> (res: Result<
    bool,
    jsonwebtoken::errors::Error,
>)
    ensures
        match res {
            Ok(same) => same == (hs256_signature(message@, secret@) == Some(signature@)),
            Err(_) => hs256_signature(message@, secret@) is None,
        },
{
    let key = jsonwebtoken::DecodingKey::from_secret(secret);
    jsonwebtoken::crypto::verify(signature, message.as_bytes(), &key, jsonwebtoken::Algorithm::HS256)
}

/// `jsonwebtoken::decode` with a key made by `DecodingKey::from_secret` and a
/// `Validation` for `Algorithm::HS256` that checks the signature and neither
/// expiry nor audience, into a JSON object, of which the members under the
/// given names are taken: the first as a string, the others as numbers.
///
/// Trusted: what is read depends on the arguments alone, so it is given the
/// name `jwt_decoding`; nothing more is claimed of it.
#[verifier::external_body]
fn decode_claims(names: (&str, &str, &str), token: &str, secret: &[u8]) -> (res: Option<
    (String, u64, u64),
>)
    ensures
        match res {
            Some((subject, iat, exp)) => jwt_decoding(
                (names.0@, names.1@, names.2@),
                token@,
                secret@,
            ) == Some((subject@, iat, exp)),
            None => jwt_decoding((names.0@, names.1@, names.2@), token@, secret@) is None,
        },
{
    let mut rules = jsonwebtoken::Validation::new(jsonwebtoken::Algorithm::HS256);
    rules.validate_exp = false;
    rules.validate_aud = false;
    rules.required_spec_claims.clear();
    let key = jsonwebtoken::DecodingKey::from_secret(secret);
    let claims = jsonwebtoken::decode::<serde_json::Map<String, serde_json::Value>>(token, &key, &rules).ok()?.claims;
    let subject = claims.get(names.0)?.as_str()?.to_string();
    Some((subject, claims.get(names.1)?.as_u64()?, claims.get(names.2)?.as_u64()?))
}

/// What a token proves of its bearer, whatever the time: the identity it was
/// issued to, where it is framed, carries the signature that the secret gives
/// its message, and holds claims that name a subject.
pub open spec fn authentication(token: Seq<char>, secret: Seq<u8>) -> Result<Identity, TokenError> {
    if !is_framed(token) {
        Err(TokenError::InvalidCredential)
    } else if hs256_signature(message_of(token), secret) != Some(signature_of(token)) {
        Err(TokenError::InvalidSignature)
    } else {
        match jwt_decoding(claim_names(), token, secret) {
            None => Err(TokenError::InvalidCredential),
            Some((subject, iat, exp)) => match ObjectId::parsed(subject) {
                None => Err(TokenError::InvalidCredential),
                Some(subject_id) => Ok(Identity { subject_id, issued_at: iat, expires_at: exp }),
            },
        }
    }
}

/// What a token proves of its bearer at the time `now`: what it proves at any
/// time, unless it has expired.
pub open spec fn verification(token: Seq<char>, secret: Seq<u8>, now: u64) -> Result<
    Identity,
    TokenError,
> {
    match authentication(token, secret) {
        Ok(identity) => if now >= identity.expires_at {
            Err(TokenError::Expired)
        } else {
            Ok(identity)
        },
        Err(e) => Err(e),
    }
}

/// The word that stands before the token in an `Authorization` header.
pub open spec fn bearer_prefix() -> Seq<char> {
    "Bearer "@
}

/// What the `Authorization` header of a request proves of its caller at the
/// time `now`.
pub open spec fn extraction(header: Option<Seq<char>>, secret: Seq<u8>, now: u64) -> Result<
    Identity,
    TokenError,
> {
    match header {
        None => Err(TokenError::InvalidCredential),
        Some(value) => if has_prefix(value, bearer_prefix()) {
            verification(value.skip(bearer_prefix().len() as int), secret, now)
        } else {
            Err(TokenError::InvalidCredential)
        },
    }
}

/// The token that is issued for the claims: the one that `jsonwebtoken` makes
/// of them, where this library reads the same claims back out of it.
pub open spec fn issuance(claims: JWTClaims, secret: Seq<u8>) -> Option<Seq<char>> {
    match jwt_encoding(claim_names(), hex_text(claims.user_id@), claims.iat, claims.exp, secret) {
        Some(token) => if authentication(token, secret) == Ok::<Identity, TokenError>(
            claims.identity(),
        ) {
            Some(token)
        } else {
            None
        },
        None => None,
    }
}

/// The six bits that an ASCII character of the alphabet stands for.
fn base64url_bits(b: u8) -> (bits: Option<u8>)
    requires
        b < 128,
    ensures
        match bits {
            Some(v) => v == base64url_value(b as char),
            None => base64url_value(b as char) == -1,
        },
{
    if 65 <= b && b <= 90 {
        Some(b - 65)
    } else if 97 <= b && b <= 122 {
        Some(b - 97 + 26)
    } else if 48 <= b && b <= 57 {
        Some(b - 48 + 52)
    } else if b == 45 {
        Some(62)
    } else if b == 95 {
        Some(63)
    } else {
        None
    }
}

/// Whether the characters of `s` from `from` up to `to` are unpadded URL-safe
/// base64.
fn is_base64url_segment(s: &str, from: usize, to: usize) -> (ok: bool)
    requires
        is_ascii_chars(s@),
        from <= to <= s@.len(),
    ensures
        ok == is_base64url(s@.subrange(from as int, to as int)),
{
    let ghost segment = s@.subrange(from as int, to as int);
    let mut last: u8 = 0;
    let mut i: usize = from;
    while i < to
        invariant
            from <= i <= to <= s@.len(),
            is_ascii_chars(s@),
            segment == s@.subrange(from as int, to as int),
            forall|j: int| 0 <= j < i - from ==> base64url_value(#[trigger] segment[j]) >= 0,
            i > from ==> last == base64url_value(segment[i - from - 1]),
        decreases to - i,
    {
        let b: u8 = s.get_ascii(i);
        assert(segment[i - from] == s@[i as int]);
        match base64url_bits(b) {
            Some(v) => {
                last = v;
            },
            None => {
                return false;
            },
        }
        i = i + 1;
    }
    let rest: usize = (to - from) % 4;
    if rest == 1 {
        false
    } else if rest == 2 {
        last % 16 == 0
    } else if rest == 3 {
        last % 4 == 0
    } else {
        true
    }
}

/// A framed token is made of ASCII characters.
pub proof fn lemma_framed_is_ascii(token: Seq<char>)
    requires
        is_framed(token),
    ensures
        is_ascii_chars(token),
{
    let k = last_index_of(token, '.');
    let message = message_of(token);
    let j = last_index_of(message, '.');
    lemma_last_index_of(token, '.');
    lemma_last_index_of(message, '.');
    let header = header_of(token);
    let claims = claims_of(token);
    let signature = signature_of(token);
    assert forall|i: int| 0 <= i < token.len() implies '\0' <= #[trigger] token[i] <= '\u{7f}' by {
        if i < j {
            assert(header[i] == token[i]);
            assert(base64url_value(header[i]) >= 0);
        } else if i == j {
            assert(message[j] == token[i]);
        } else if i < k {
            assert(claims[i - j - 1] == token[i]);
            assert(base64url_value(claims[i - j - 1]) >= 0);
        } else if i == k {
        } else {
            assert(signature[i - k - 1] == token[i]);
            assert(base64url_value(signature[i - k - 1]) >= 0);
        }
    }
}

/// Reads the identity out of a token and checks all of it but the expiry.
pub fn authenticate_token(token: &str, secret: &SigningSecret) -> (res: Result<
    Identity,
    TokenError,
>)
    ensures
        res == authentication(token@, secret@),
{
    if !token.is_ascii() {
        proof {
            if is_framed(token@) {
                lemma_framed_is_ascii(token@);
            }
        }
        return Err(TokenError::InvalidCredential);
    }
    let len: usize = token.unicode_len();
    assert(token@.take(len as int) =~= token@);
    let k: usize = match last_index_ascii(token, len, 46) {
        Some(k) => k,
        None => {
            return Err(TokenError::InvalidCredential);
        },
    };
    proof {
        lemma_last_index_of(token@, '.');
    }
    let j: usize = match last_index_ascii(token, k, 46) {
        Some(j) => j,
        None => {
            return Err(TokenError::InvalidCredential);
        },
    };
    proof {
        lemma_last_index_of(message_of(token@), '.');
        assert(header_of(token@) =~= token@.subrange(0, j as int));
        assert(claims_of(token@) =~= token@.subrange(j + 1, k as int));
        assert(signature_of(token@) =~= token@.subrange(k + 1, len as int));
        assert(message_of(token@) =~= token@.subrange(0, k as int));
    }
    let framed = is_base64url_segment(token, 0, j) && is_base64url_segment(token, j + 1, k)
        && is_base64url_segment(token, k + 1, len);
    if !framed {
        return Err(TokenError::InvalidCredential);
    }
    let message = token.substring_ascii(0, k);
    let signature = token.substring_ascii(k + 1, len);
    match verify_signature(signature, message, secret.bytes()) {
        Ok(true) => {},
        _ => {
            return Err(TokenError::InvalidSignature);
        },
    }
    let (subject, iat, exp) = match decode_claims(("subject_id", "iat", "exp"), token, secret.bytes()) {
        Some(claims) => claims,
        None => {
            return Err(TokenError::InvalidCredential);
        },
    };
    match ObjectId::parse_str(subject.as_str()) {
        Some(subject_id) => Ok(Identity { subject_id, issued_at: iat, expires_at: exp }),
        None => Err(TokenError::InvalidCredential),
    }
}

/// Reads the identity out of a token and checks it at the time `now`.
pub fn verify_token(token: &str, secret: &SigningSecret, now: u64) -> (res: Result<
    Identity,
    TokenError,
>)
    ensures
        res == verification(token@, secret@, now),
{
    match authenticate_token(token, secret) {
        Ok(identity) => if now >= identity.expires_at {
            Err(TokenError::Expired)
        } else {
            Ok(identity)
        },
        Err(e) => Err(e),
    }
}

/// The view of an optional header value.
pub open spec fn header_view(header: Option<&str>) -> Option<Seq<char>> {
    match header {
        Some(value) => Some(value@),
        None => None,
    }
}

/// Reads the caller's identity out of the `Authorization` header of a request,
/// where there is one, and checks it at the time `now`.
pub fn extract_identity(header: Option<&str>, secret: &SigningSecret, now: u64) -> (res: Result<
    Identity,
    TokenError,
>)
    ensures
        res == extraction(header_view(header), secret@, now),
{
    match header {
        None => Err(TokenError::InvalidCredential),
        Some(value) => match strip_prefix(value, "Bearer ") {
            Some(token) => verify_token(token, secret, now),
            None => Err(TokenError::InvalidCredential),
        },
    }
}

/// Reads the caller's identity out of the `Authorization` header of a request
/// and checks it at the time that the clock gives. Where the clock gives a
/// time before the epoch, every token passes for expired.
pub fn identify_caller(header: Option<&str>, secret: &SigningSecret) -> (res: Result<
    Identity,
    TokenError,
>)
    ensures
        exists|now: u64| res == #[trigger] extraction(header_view(header), secret@, now),
{
    let now: u64 = match unix_time() {
        Some(now) => now,
        None => u64::MAX,
    };
    let res = extract_identity(header, secret, now);
    assert(res == extraction(header_view(header), secret@, now));
    res
}

/// Issues the token for the claims. `None` where the token cannot be made, or
/// where it does not read back as the claims it was made of.
pub fn issue_token(claims: &JWTClaims, secret: &SigningSecret) -> (res: Option<String>)
    ensures
        match res {
            Some(token) => issuance(*claims, secret@) == Some(token@),
            None => issuance(*claims, secret@) is None,
        },
{
    let subject = claims.user_id.to_hex();
    let token = match encode_claims(
        ("subject_id", "iat", "exp"),
        subject.as_str(),
        claims.iat,
        claims.exp,
        secret.bytes(),
    ) {
        Ok(token) => token,
        Err(_) => {
            return None;
        },
    };
    match authenticate_token(token.as_str(), secret) {
        Ok(identity) => if identity.subject_id == claims.user_id && identity.issued_at == claims.iat
            && identity.expires_at == claims.exp {
            Some(token)
        } else {
            None
        },
        Err(_) => None,
    }
}

/// A token that was issued for some claims gives their subject back, from the
/// header of a request, at every time before its expiry.
pub proof fn issued_token_round_trips(
    claims: JWTClaims,
    secret: Seq<u8>,
    token: Seq<char>,
    now: u64,
)
    requires
        issuance(claims, secret) == Some(token),
        now < claims.exp,
    ensures
        extraction(Some(bearer_prefix() + token), secret, now) == Ok::<Identity, TokenError>(
            claims.identity(),
        ),
        claims.identity().subject_id == claims.user_id,
{
    let value = bearer_prefix() + token;
    assert(value.take(bearer_prefix().len() as int) =~= bearer_prefix());
    assert(value.skip(bearer_prefix().len() as int) =~= token);
}

/// The identity of a token issued at `now` is well formed, and valid from
/// `now` until its expiry.
pub proof fn issued_identity_is_well_formed(user_id: ObjectId, now: u64, time: u64)
    requires
        now + TOKEN_LIFETIME <= u64::MAX,
    ensures
        JWTClaims::issued(user_id, now).identity().well_formed(),
        JWTClaims::issued(user_id, now).identity().valid_at(time) <==> now <= time < now
            + TOKEN_LIFETIME,
{
}

/// From its expiry on a token is turned down, whether or not its signature
/// holds: nothing is accepted at or after the expiry it claims, and what is
/// turned down is a failure to authenticate.
pub proof fn expired_token_is_rejected(token: Seq<char>, secret: Seq<u8>, now: u64)
    ensures
        verification(token, secret, now) matches Ok(identity) ==> now < identity.expires_at,
        authentication(token, secret) matches Ok(identity) && identity.expires_at <= now
            ==> verification(token, secret, now) == Err::<Identity, TokenError>(
            TokenError::Expired,
        ),
        authentication(token, secret) is Err ==> verification(token, secret, now) is Err,
        verification(token, secret, now) matches Err(e) ==> e.class()
            == ErrorKind::Authentication,
{
}

/// Whatever stands in the place of a verified token's signature segment other
/// than the signature itself, the token is turned down: no change to the text
/// behind the last `.` goes unnoticed.
pub proof fn tampered_signature_is_rejected(
    token: Seq<char>,
    forged: Seq<char>,
    secret: Seq<u8>,
    now: u64,
)
    requires
        authentication(token, secret) is Ok,
        forged.len() > last_index_of(token, '.'),
        forged.take(last_index_of(token, '.') + 1) == token.take(last_index_of(token, '.') + 1),
        forged != token,
    ensures
        authentication(forged, secret) is Err,
        verification(forged, secret, now) is Err,
{
    let k = last_index_of(token, '.');
    let message = message_of(token);
    let j = last_index_of(message, '.');
    lemma_last_index_of(token, '.');
    lemma_last_index_of(message, '.');
    let head = token.take(k + 1);
    assert(forall|i: int| 0 <= i <= k ==> forged[i] == forged.take(k + 1)[i]);
    assert(forall|i: int| 0 <= i <= k ==> token[i] == head[i]);
    assert(forged[k] == '.');
    assert(forged[j] == message[j]);
    let k2 = last_index_of(forged, '.');
    lemma_last_index_of(forged, '.');
    assert(k2 >= k);
    if is_framed(forged) {
        let message2 = message_of(forged);
        let j2 = last_index_of(message2, '.');
        lemma_last_index_of(message2, '.');
        if k2 > k {
            assert(message2[k] == '.');
            assert(j2 >= k);
            let header2 = header_of(forged);
            assert(header2[j] == '.');
            assert(base64url_value(header2[j]) >= 0);
            assert(false);
        }
        assert(message2 =~= message);
        assert(signature_of(forged) != signature_of(token)) by {
            if signature_of(forged) == signature_of(token) {
                assert(forged =~= forged.take(k + 1) + signature_of(forged));
                assert(token =~= head + signature_of(token));
            }
        }
    }
}

/// A token with a segment that is not unpadded URL-safe base64 is turned down.
pub proof fn malformed_segment_is_rejected(token: Seq<char>, secret: Seq<u8>, now: u64)
    requires
        !is_base64url(header_of(token)) || !is_base64url(claims_of(token)) || !is_base64url(
            signature_of(token),
        ),
    ensures
        verification(token, secret, now) == Err::<Identity, TokenError>(
            TokenError::InvalidCredential,
        ),
        extraction(Some(bearer_prefix() + token), secret, now) == Err::<Identity, TokenError>(
            TokenError::InvalidCredential,
        ),
{
    let value = bearer_prefix() + token;
    assert(value.take(bearer_prefix().len() as int) =~= bearer_prefix());
    assert(value.skip(bearer_prefix().len() as int) =~= token);
}

} // verus!
