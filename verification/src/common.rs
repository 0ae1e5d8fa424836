//! The error kinds that cross the HTTP boundary, the outcome of a handler,
//! and the authorisation that runs ahead of the protected handlers.

use axum::http::HeaderValue;
use axum_extra::headers::authorization::Bearer;
use axum_extra::headers::{Authorization, Header};
use vstd::prelude::*;

use crate::token::{
    has_token_form, is_issued, is_token_char, lemma_issued_token_verifies, verified, verify,
    SigningKey, LATEST_SECOND, MAX_TOKEN_LENGTH, TIME_TOLERANCE_SECS, TOKEN_LIFETIME_SECS,
};

verus! {

/// HTTP status `200 OK`.
pub const STATUS_OK: u16 = 200;

/// HTTP status `400 Bad Request`.
pub const STATUS_BAD_REQUEST: u16 = 400;

/// HTTP status `403 Forbidden`.
pub const STATUS_FORBIDDEN: u16 = 403;

/// The five kinds of failure that a caller of the gateway can be told about.
///
/// Every failure inside the gateway is collapsed to one of them before a
/// response is written: no detail of the store or of the task service
/// crosses the boundary.
#[derive(Debug, Clone, Copy, PartialEq, Eq, Structural)]
pub enum AppError {
    InvalidToken,
    NonExistingUser,
    WrongPassword,
    IncorrectRequest,
    IncorrectDateFormat,
}

impl AppError {
    /// The HTTP status that goes with each kind.
    pub open spec fn status(self) -> u16 {
        match self {
            AppError::InvalidToken => STATUS_FORBIDDEN,
            AppError::NonExistingUser => STATUS_BAD_REQUEST,
            AppError::WrongPassword => STATUS_FORBIDDEN,
            AppError::IncorrectRequest => STATUS_BAD_REQUEST,
            AppError::IncorrectDateFormat => STATUS_BAD_REQUEST,
        }
    }

    /// The text that the response carries under the key `error`.
    pub open spec fn message(self) -> Seq<char> {
        match self {
            AppError::InvalidToken => "Invalid token"@,
            AppError::NonExistingUser => "User doesn't exist"@,
            AppError::WrongPassword => "Wrong password"@,
            AppError::IncorrectRequest => "Incorrect request"@,
            AppError::IncorrectDateFormat => "Incorrect date format. Expected YYYY-MM-DD"@,
        }
    }

    /// The status and the message of the response that reports this error.
    ///
    /// The body of the response is the JSON object with the single key
    /// `error` and the message as its value; writing it is left to the
    /// caller.
    pub fn into_response(self) -> (response: (u16, &'static str))
        ensures
            response.0 == self.status(),
            response.1@ == self.message(),
            response.0 == STATUS_BAD_REQUEST || response.0 == STATUS_FORBIDDEN,
    {
        match self {
            AppError::InvalidToken => (STATUS_FORBIDDEN, "Invalid token"),
            AppError::NonExistingUser => (STATUS_BAD_REQUEST, "User doesn't exist"),
            AppError::WrongPassword => (STATUS_FORBIDDEN, "Wrong password"),
            AppError::IncorrectRequest => (STATUS_BAD_REQUEST, "Incorrect request"),
            AppError::IncorrectDateFormat => (
                STATUS_BAD_REQUEST,
                "Incorrect date format. Expected YYYY-MM-DD",
            ),
        }
    }
}

/// A condition under which a handler can give no answer at all: the runtime
/// or the peer is broken, and the request must not be accepted.
#[derive(Debug, Clone, Copy, PartialEq, Eq, Structural)]
pub enum Fault {
    /// The password hasher failed, or the stored hash is not a hash.
    Hasher,
    /// The signing key cannot sign.
    Signer,
    /// The task service sent a reply that lacks a part it must have.
    MalformedReply,
}

/// How a handler ends.
#[derive(Debug, Clone, PartialEq, Eq)]
pub enum Handled<T> {
    /// The request succeeded with this value.
    Done(T),
    /// The request is refused with one of the five error kinds.
    Rejected(AppError),
    /// No answer can be given.
    Faulted(Fault),
}

impl<T: View> View for Handled<T> {
    type V = Handled<T::V>;

    open spec fn view(&self) -> Handled<T::V> {
        match *self {
            Handled::Done(value) => Handled::Done(value@),
            Handled::Rejected(error) => Handled::Rejected(error),
            Handled::Faulted(fault) => Handled::Faulted(fault),
        }
    }
}

/// The identity that a verified bearer token resolves to. Its value is the
/// username.
#[derive(Debug, Clone, PartialEq, Eq)]
pub struct AppClaims {
    pub username: String,
}

impl View for AppClaims {
    type V = Seq<char>;

    open spec fn view(&self) -> Seq<char> {
        self.username@
    }
}

/// Whether a byte is printable ASCII or a tab: what a header value may hold
/// to be read as text.
pub open spec fn is_visible(byte: u8) -> bool {
    32 <= byte < 127 || byte == 9
}

/// A byte with an ASCII capital turned into its small letter.
pub open spec fn lowered(byte: u8) -> u8 {
    if 65 <= byte <= 90 {
        (byte + 32) as u8
    } else {
        byte
    }
}

/// Whether a header value starts with the scheme `Bearer`, in any mix of
/// cases, and a space.
pub open spec fn names_bearer(value: Seq<u8>) -> bool {
    &&& value.len() > 6
    &&& lowered(value[0]) == 98
    &&& lowered(value[1]) == 101
    &&& lowered(value[2]) == 97
    &&& lowered(value[3]) == 114
    &&& lowered(value[4]) == 101
    &&& lowered(value[5]) == 114
    &&& value[6] == 32
}

/// The bytes that follow the leading spaces and tabs.
pub open spec fn without_leading_blanks(bytes: Seq<u8>) -> Seq<u8>
    decreases bytes.len(),
{
    if bytes.len() > 0 && (bytes[0] == 32 || bytes[0] == 9) {
        without_leading_blanks(bytes.skip(1))
    } else {
        bytes
    }
}

/// The bearer token that one `Authorization` value carries: what follows
/// the scheme, its space and any further blanks, provided that the whole
/// value is visible text.
pub open spec fn bearer_token(value: Seq<u8>) -> Option<Seq<char>> {
    if names_bearer(value) && (forall|i: int|
        0 <= i < value.len() ==> is_visible(#[trigger] value[i])) {
        Some(without_leading_blanks(value.skip(7)).map_values(|byte: u8| byte as char))
    } else {
        None
    }
}

/// Calls `Authorization::<Bearer>::decode` of the `headers` crate on one
/// header value and takes the credentials' `token`. The claim: the token is
/// the one that [`bearer_token`] gives, and there is none where it gives
/// none. Bytes that `HeaderValue::from_bytes` refuses are not visible text,
/// so they carry no token either.
#[verifier::external_body]
fn decode_bearer(value: &Vec<u8>) -> (token: Option<String>)
    ensures
        token.deep_view() == bearer_token(value@),
{
    let header = HeaderValue::from_bytes(value).ok()?;
    let mut values = std::iter::once(&header);
    let credentials = Authorization::<Bearer>::decode(&mut values).ok()?;
    Some(credentials.token().to_string())
}

impl AppClaims {
    /// The identity that a request is authorised as, from the values of its
    /// `Authorization` header in the order in which they came: the first
    /// value's bearer token, verified at `now`. A request without the
    /// header, with another scheme or with a token that does not verify is
    /// refused with `InvalidToken`.
    pub open spec fn authorized(authorization: Seq<Seq<u8>>, key: Seq<u8>, now: u64) -> Result<
        Seq<char>,
        AppError,
    > {
        if authorization.len() == 0 {
            Err(AppError::InvalidToken)
        } else {
            match bearer_token(authorization[0]) {
                Some(token) => verified(key, token, now),
                None => Err(AppError::InvalidToken),
            }
        }
    }

    /// Authorises a request ahead of its handler. The handler runs only on
    /// `Ok`, with the identity; on `Err` the request ends with the error
    /// and nothing else has happened.
    pub fn from_request_parts(authorization: &Vec<Vec<u8>>, key: &SigningKey, now: u64) -> (claims:
        Result<AppClaims, AppError>)
        requires
            now + TIME_TOLERANCE_SECS <= LATEST_SECOND,
        ensures
            match claims {
                Ok(identity) => AppClaims::authorized(
                    authorization@.map_values(|value: Vec<u8>| value@),
                    key@,
                    now,
                ) == Ok::<Seq<char>, AppError>(identity@),
                Err(error) => AppClaims::authorized(
                    authorization@.map_values(|value: Vec<u8>| value@),
                    key@,
                    now,
                ) == Err::<Seq<char>, AppError>(error),
            },
            claims matches Err(error) ==> error == AppError::InvalidToken,
            authorization@.len() == 0 ==> claims is Err,
    {
        if authorization.len() == 0 {
            return Err(AppError::InvalidToken);
        }
        match decode_bearer(&authorization[0]) {
            Some(token) => match verify(key, token.as_str(), now) {
                Ok(username) => Ok(AppClaims { username }),
                Err(error) => Err(error),
            },
            None => Err(AppError::InvalidToken),
        }
    }
}

/// The `Authorization` value that carries a token: the scheme `Bearer`, a
/// space and the token.
pub open spec fn bearer_header(token: Seq<char>) -> Seq<u8> {
    seq![66u8, 101u8, 97u8, 114u8, 101u8, 114u8, 32u8] + token.map_values(|c: char| c as u8)
}

/// A header made of `Bearer`, a space and a token carries that token.
pub proof fn lemma_bearer_header_carries_token(token: Seq<char>, subject: Seq<char>)
    requires
        has_token_form(token, subject),
    ensures
        bearer_token(bearer_header(token)) == Some(token),
{
    let bytes = token.map_values(|c: char| c as u8);
    let value = bearer_header(token);
    assert forall|i: int| 0 <= i < value.len() implies is_visible(#[trigger] value[i]) by {
        if i >= 7 {
            assert(is_token_char(token[i - 7]));
        }
    }
    assert(value.skip(7) =~= bytes);
    assert(is_token_char(token[0]));
    assert forall|i: int| 0 <= i < token.len() implies bytes[i] as char == token[i] by {
        assert(is_token_char(token[i]));
    }
    assert(bytes.map_values(|byte: u8| byte as char) =~= token);
}

/// A request that carries an issued token in its `Authorization` header is
/// authorised as the token's subject, from the moment the token was issued
/// until it expires.
pub proof fn lemma_issued_token_authorises(
    key: Seq<u8>,
    subject: Seq<char>,
    token: Seq<char>,
    issued_at: u64,
    now: u64,
)
    requires
        is_issued(key, subject, issued_at, token),
        token.len() <= MAX_TOKEN_LENGTH,
        issued_at + TOKEN_LIFETIME_SECS <= LATEST_SECOND,
        issued_at <= now <= issued_at + TOKEN_LIFETIME_SECS,
        TIME_TOLERANCE_SECS <= now,
        now + TIME_TOLERANCE_SECS <= LATEST_SECOND,
    ensures
        AppClaims::authorized(seq![bearer_header(token)], key, now) == Ok::<Seq<char>, AppError>(
            subject,
        ),
{
    lemma_bearer_header_carries_token(token, subject);
    lemma_issued_token_verifies(key, subject, token, issued_at, now);
}

/// The plain-text banner served at the root path.
pub fn root_handler() -> (banner: &'static str)
    ensures
        banner@ == "User service API"@,
{
    "User service API"
}

} // verus!
