//! The token authenticator: signed bearer tokens that name a subject and
//! expire two hours after they were issued.
//!
//! Time is an argument, counted in whole seconds since the Unix epoch:
//! issuing and verifying are functions of the key, the text and the time.

use jwt_simple::claims::{JWTClaims, NoCustomClaims};
use jwt_simple::prelude::{HS256Key, MACLike, UnixTimeStamp, VerificationOptions};
use vstd::prelude::*;

use crate::common::AppError;

verus! {

/// How long a token is valid, in seconds: two hours.
pub const TOKEN_LIFETIME_SECS: u64 = 7200;

/// The clock drift that verification tolerates on either side of a token's
/// validity, in seconds.
pub const TIME_TOLERANCE_SECS: u64 = 900;

/// The longest token, in bytes, that verification reads.
pub const MAX_TOKEN_LENGTH: usize = 1_000_000;

/// A bound on what a token holds besides its subject, in bytes: header,
/// time claims, signature and separators.
pub const TOKEN_OVERHEAD: usize = 200;

/// The most bytes that one character of the subject takes in a token.
pub const TOKEN_BYTES_PER_CHAR: usize = 8;

/// The longest subject, in characters, whose token is sure to be within
/// `MAX_TOKEN_LENGTH`.
pub const MAX_SUBJECT_LENGTH: usize = 124_975;

/// The shortest key, in bytes, that signs or verifies.
pub const MIN_KEY_LENGTH: usize = 12;

/// The last second that the signing primitive's timestamps hold exactly.
pub const LATEST_SECOND: u64 = 4_294_967_295;

/// The token that a key signs for a subject and a validity window.
pub uninterp spec fn signed_token(
    key: Seq<u8>,
    subject: Seq<char>,
    issued_at: u64,
    expires_at: u64,
) -> Seq<char>;

/// What verification finds in a token at a given time: `None` where the
/// token is refused, else the subject that it names, if it names one.
pub uninterp spec fn token_claims(key: Seq<u8>, token: Seq<char>, now: u64) -> Option<
    Option<Seq<char>>,
>;

/// Whether a character can stand in a token: a letter or digit of ASCII,
/// `-`, `_` or the `.` that separates the parts.
pub open spec fn is_token_char(c: char) -> bool {
    ('A' <= c <= 'Z') || ('a' <= c <= 'z') || ('0' <= c <= '9') || c == '-' || c == '_' || c
        == '.'
}

/// Whether a text has the form of a token for the given subject: not
/// empty, made of token characters, and no longer than the subject allows.
pub open spec fn has_token_form(text: Seq<char>, subject: Seq<char>) -> bool {
    &&& 0 < text.len() <= TOKEN_OVERHEAD + TOKEN_BYTES_PER_CHAR * subject.len()
    &&& forall|i: int| 0 <= i < text.len() ==> is_token_char(#[trigger] text[i])
}

/// Whether a validity window, widened by the tolerated drift, holds `now`.
pub open spec fn accepted_at(issued_at: u64, expires_at: u64, now: u64) -> bool {
    issued_at <= now + TIME_TOLERANCE_SECS && now <= expires_at + TIME_TOLERANCE_SECS
}

/// A token signed for `subject` and a window is read back as naming
/// `subject` at the times that the window admits, and refused at the others.
/// Stated for the times from `TIME_TOLERANCE_SECS` on that leave room for
/// the drift below `LATEST_SECOND`.
pub open spec fn reads_back(
    key: Seq<u8>,
    subject: Seq<char>,
    issued_at: u64,
    expires_at: u64,
    token: Seq<char>,
) -> bool {
    forall|now: u64|
        TIME_TOLERANCE_SECS <= now && now + TIME_TOLERANCE_SECS <= LATEST_SECOND ==> (
        #[trigger] token_claims(key, token, now)) == (if accepted_at(issued_at, expires_at, now) {
            Some(Some(subject))
        } else {
            None
        })
}

/// Calls `HS256Key::authenticate` of jwt-simple on claims with the given
/// subject, `iat` and `nbf` at `issued_at` and `exp` at `expires_at`.
/// The claims: a key under twelve bytes signs nothing and any other key
/// signs; the token depends on the four arguments alone; it is three runs
/// of URL-safe base64 characters joined by dots, of at most
/// `TOKEN_OVERHEAD` bytes and eight more for each character of the subject;
/// and a token of at most `MAX_TOKEN_LENGTH` bytes is read back by
/// `verify_token`, under the same key, as [`reads_back`] says.
#[verifier::external_body]
fn sign_claims(key: &Vec<u8>, subject: &str, issued_at: u64, expires_at: u64) -> (token: Option<
    String,
>)
    requires
        issued_at <= LATEST_SECOND,
        expires_at <= LATEST_SECOND,
    ensures
        token is Some <==> key@.len() >= MIN_KEY_LENGTH,
        token matches Some(text) ==> {
            &&& text@ == signed_token(key@, subject@, issued_at, expires_at)
            &&& has_token_form(text@, subject@)
            &&& text@.len() <= MAX_TOKEN_LENGTH ==> reads_back(
                key@,
                subject@,
                issued_at,
                expires_at,
                text@,
            )
        },
{
    let mut claims = JWTClaims::<NoCustomClaims>::new();
    claims.issued_at = Some(UnixTimeStamp::from_secs(issued_at));
    claims.invalid_before = Some(UnixTimeStamp::from_secs(issued_at));
    claims.expires_at = Some(UnixTimeStamp::from_secs(expires_at));
    claims.subject = Some(subject.to_string());
    HS256Key::from_bytes(key).authenticate(claims).ok()
}

/// Calls `HS256Key::verify_token` of jwt-simple with its default options
/// and the clock set to `now`. The claim: the outcome depends on the key,
/// the token and `now` alone. A refused token gives `None`; an accepted one
/// gives its subject claim.
#[verifier::external_body]
fn read_claims(key: &Vec<u8>, token: &str, now: u64) -> (claims: Option<Option<String>>)
    requires
        now + TIME_TOLERANCE_SECS <= LATEST_SECOND,
    ensures
        claims.deep_view() == token_claims(key@, token@, now),
{
    let mut options = VerificationOptions::default();
    options.artificial_time = Some(UnixTimeStamp::from_secs(now));
    let found = HS256Key::from_bytes(key).verify_token::<NoCustomClaims>(token, Some(options));
    found.ok().map(|claims| claims.subject)
}

/// Calls `HS256Key::generate` of jwt-simple and takes the key's bytes. The
/// claim: the key has 32 bytes. Which bytes is left open: they are random.
#[verifier::external_body]
fn random_key_bytes() -> (bytes: Vec<u8>)
    ensures
        bytes@.len() == 32,
{
    HS256Key::generate().to_bytes()
}

/// The value of a hexadecimal digit, in either case.
pub open spec fn hex_digit(c: char) -> Option<int> {
    if '0' <= c <= '9' {
        Some(c as int - '0' as int)
    } else if 'a' <= c <= 'f' {
        Some(c as int - 'a' as int + 10)
    } else if 'A' <= c <= 'F' {
        Some(c as int - 'A' as int + 10)
    } else {
        None
    }
}

/// The digits of a hexadecimal text: the text without a leading `0x` or `0X`.
pub open spec fn hex_digits(text: Seq<char>) -> Seq<char> {
    if text.len() >= 2 && text[0] == '0' && (text[1] == 'x' || text[1] == 'X') {
        text.skip(2)
    } else {
        text
    }
}

/// The bytes that a hexadecimal text spells: two digits to a byte, the high
/// one first. A text of odd length, or with anything but digits after the
/// optional prefix, spells nothing.
pub open spec fn hex_decoded(text: Seq<char>) -> Option<Seq<u8>> {
    let digits = hex_digits(text);
    if text.len() % 2 == 0 && (forall|i: int|
        0 <= i < digits.len() ==> (#[trigger] hex_digit(digits[i])) is Some) {
        Some(
            Seq::new(
                digits.len() / 2,
                |i: int|
                    (16 * hex_digit(digits[2 * i]).unwrap() + hex_digit(
                        digits[2 * i + 1],
                    ).unwrap()) as u8,
            ),
        )
    } else {
        None
    }
}

/// Calls `const_hex::decode`. The claim: the bytes are those that
/// [`hex_decoded`] gives, and there are none where it gives none.
#[verifier::external_body]
fn decode_hex(text: &str) -> (bytes: Option<Vec<u8>>)
    ensures
        bytes.deep_view() == hex_decoded(text@),
{
    const_hex::decode(text).ok()
}

/// The symmetric secret that signs and verifies the tokens of one process.
/// Its value is the sequence of its bytes.
#[derive(Debug, Clone, PartialEq, Eq)]
pub struct SigningKey {
    bytes: Vec<u8>,
}

impl View for SigningKey {
    type V = Seq<u8>;

    closed spec fn view(&self) -> Seq<u8> {
        self.bytes@
    }
}

impl SigningKey {
    /// Whether the key is long enough to sign.
    pub open spec fn can_sign(self) -> bool {
        self@.len() >= MIN_KEY_LENGTH
    }

    /// The key with the given bytes.
    pub fn from_bytes(bytes: Vec<u8>) -> (key: SigningKey)
        ensures
            key@ == bytes@,
    {
        SigningKey { bytes }
    }

    /// The bytes of the key.
    pub fn to_bytes(&self) -> (bytes: Vec<u8>)
        ensures
            bytes@ == self@,
    {
        self.bytes.clone()
    }

    /// Whether the key is long enough to sign.
    pub fn is_strong(&self) -> (strong: bool)
        ensures
            strong == self.can_sign(),
    {
        self.bytes.len() >= MIN_KEY_LENGTH
    }

    /// The key that an operator supplied as hexadecimal text, where the
    /// text spells bytes.
    pub fn from_hex(text: &str) -> (key: Option<SigningKey>)
        ensures
            key.deep_view() == hex_decoded(text@),
    {
        match decode_hex(text) {
            Some(bytes) => Some(SigningKey { bytes }),
            None => None,
        }
    }

    /// A fresh random key of 32 bytes. Tokens signed with it cannot be
    /// verified by another process, nor by this one after a restart.
    pub fn generate() -> (key: SigningKey)
        ensures
            key@.len() == 32,
            key.can_sign(),
    {
        SigningKey { bytes: random_key_bytes() }
    }

    /// The key of a process at startup: the configured one where a
    /// hexadecimal text is supplied, else a fresh random key. A supplied
    /// text that spells no bytes gives no key.
    pub fn load(configured: Option<&str>) -> (key: Option<SigningKey>)
        ensures
            configured matches Some(text) ==> key.deep_view() == hex_decoded(text@),
            configured is None ==> key is Some && key.unwrap()@.len() == 32,
    {
        match configured {
            Some(text) => SigningKey::from_hex(text),
            None => Some(SigningKey::generate()),
        }
    }
}

impl DeepView for SigningKey {
    type V = Seq<u8>;

    open spec fn deep_view(&self) -> Seq<u8> {
        self@
    }
}

/// The token issued to `subject` at `now`: signed for the window of
/// `TOKEN_LIFETIME_SECS` that starts at `now`.
pub open spec fn issued(key: Seq<u8>, subject: Seq<char>, now: u64) -> Seq<char> {
    signed_token(key, subject, now, (now + TOKEN_LIFETIME_SECS) as u64)
}

/// What holds of a token issued to `subject` at `now`: it is the signed
/// token for that window, it has the form of a token for the subject, and
/// if it is not longer than `MAX_TOKEN_LENGTH` it reads back at the times of
/// the window.
pub open spec fn is_issued(key: Seq<u8>, subject: Seq<char>, now: u64, token: Seq<char>) -> bool {
    &&& token == issued(key, subject, now)
    &&& has_token_form(token, subject)
    &&& token.len() <= MAX_TOKEN_LENGTH ==> reads_back(
        key,
        subject,
        now,
        (now + TOKEN_LIFETIME_SECS) as u64,
        token,
    )
}

/// The outcome of verifying a token at `now`: the subject, or `InvalidToken`
/// for a refused token and for an accepted one that names no subject.
pub open spec fn verified(key: Seq<u8>, token: Seq<char>, now: u64) -> Result<
    Seq<char>,
    AppError,
> {
    subject_of_claims(token_claims(key, token, now))
}

/// The subject in what verification found, or `InvalidToken`.
pub open spec fn subject_of_claims(claims: Option<Option<Seq<char>>>) -> Result<
    Seq<char>,
    AppError,
> {
    match claims {
        Some(Some(subject)) => Ok(subject),
        _ => Err(AppError::InvalidToken),
    }
}

/// Issues a token for `subject` at `now`. A key that cannot sign issues
/// nothing; every other key issues.
pub fn issue(key: &SigningKey, subject: &str, now: u64) -> (token: Option<String>)
    requires
        now + TOKEN_LIFETIME_SECS <= LATEST_SECOND,
    ensures
        token is Some <==> key.can_sign(),
        token matches Some(text) ==> is_issued(key@, subject@, now, text@),
{
    sign_claims(&key.bytes, subject, now, now + TOKEN_LIFETIME_SECS)
}

/// Turns what verification found into the subject or `InvalidToken`.
pub fn subject_of(claims: Option<Option<String>>) -> (subject: Result<String, AppError>)
    ensures
        match subject {
            Ok(name) => subject_of_claims(claims.deep_view()) == Ok::<Seq<char>, AppError>(name@),
            Err(error) => subject_of_claims(claims.deep_view()) == Err::<Seq<char>, AppError>(
                error,
            ),
        },
        subject is Ok <==> claims matches Some(Some(_)),
{
    match claims {
        Some(Some(name)) => Ok(name),
        _ => Err(AppError::InvalidToken),
    }
}

/// Verifies a token at `now`: signature, form and validity window. Gives
/// the subject, or `InvalidToken`. Changes nothing.
pub fn verify(key: &SigningKey, token: &str, now: u64) -> (subject: Result<String, AppError>)
    requires
        now + TIME_TOLERANCE_SECS <= LATEST_SECOND,
    ensures
        match subject {
            Ok(name) => verified(key@, token@, now) == Ok::<Seq<char>, AppError>(name@),
            Err(error) => verified(key@, token@, now) == Err::<Seq<char>, AppError>(error),
        },
        subject matches Err(error) ==> error == AppError::InvalidToken,
{
    subject_of(read_claims(&key.bytes, token, now))
}

/// The token of a subject of at most `MAX_SUBJECT_LENGTH` characters is
/// within the length that verification reads.
pub proof fn lemma_short_subject_fits(
    key: Seq<u8>,
    subject: Seq<char>,
    token: Seq<char>,
    issued_at: u64,
)
    requires
        is_issued(key, subject, issued_at, token),
        subject.len() <= MAX_SUBJECT_LENGTH,
    ensures
        token.len() <= MAX_TOKEN_LENGTH,
{
}

/// A token verifies to its subject from the moment it was issued until it
/// expires two hours later.
pub proof fn lemma_issued_token_verifies(
    key: Seq<u8>,
    subject: Seq<char>,
    token: Seq<char>,
    issued_at: u64,
    now: u64,
)
    requires
        is_issued(key, subject, issued_at, token),
        token.len() <= MAX_TOKEN_LENGTH,
        issued_at + TOKEN_LIFETIME_SECS <= LATEST_SECOND,
        issued_at <= now <= issued_at + TOKEN_LIFETIME_SECS,
        TIME_TOLERANCE_SECS <= now,
        now + TIME_TOLERANCE_SECS <= LATEST_SECOND,
    ensures
        verified(key, token, now) == Ok::<Seq<char>, AppError>(subject),
{
}

/// A token is refused once its expiry lies further back than the tolerated
/// clock drift.
pub proof fn lemma_expired_token_is_refused(
    key: Seq<u8>,
    subject: Seq<char>,
    token: Seq<char>,
    issued_at: u64,
    now: u64,
)
    requires
        is_issued(key, subject, issued_at, token),
        token.len() <= MAX_TOKEN_LENGTH,
        issued_at + TOKEN_LIFETIME_SECS <= LATEST_SECOND,
        now > issued_at + TOKEN_LIFETIME_SECS + TIME_TOLERANCE_SECS,
        now + TIME_TOLERANCE_SECS <= LATEST_SECOND,
    ensures
        verified(key, token, now) == Err::<Seq<char>, AppError>(AppError::InvalidToken),
{
}

} // verus!
