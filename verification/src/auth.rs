//! Registration, login and profile update.
//!
//! The credential store is the caller's: a handler here takes what a lookup
//! brought, or returns what is to be written, and maps the store's answer.

use chrono::{Datelike, NaiveDate};
use vstd::prelude::*;

use crate::common::{
    bearer_header, lemma_issued_token_authorises, AppClaims, AppError, Fault, Handled, STATUS_OK,
};
use crate::password;
use crate::password::{made_with_cost, password_verdict, HASH_COST};
use crate::token;
use crate::token::{
    is_issued, issued, verified, SigningKey, LATEST_SECOND, MAX_SUBJECT_LENGTH, MAX_TOKEN_LENGTH,
    MIN_KEY_LENGTH, TIME_TOLERANCE_SECS, TOKEN_LIFETIME_SECS,
};

verus! {

/// Body of `register` and of `login`.
#[derive(Debug, Clone, PartialEq, Eq)]
pub struct AuthInfo {
    pub username: String,
    pub password: String,
}

/// The mathematical value of a [`AuthInfo`].
pub struct AuthInfoView {
    pub username: Seq<char>,
    pub password: Seq<char>,
}

impl View for AuthInfo {
    type V = AuthInfoView;

    open spec fn view(&self) -> AuthInfoView {
        AuthInfoView { username: self.username@, password: self.password@ }
    }
}

/// Body of `update`: the profile fields to change. A field left out stays
/// as it is.
#[derive(Debug, Clone, PartialEq, Eq)]
pub struct UserInfo {
    pub first_name: Option<String>,
    pub last_name: Option<String>,
    /// A date written as `YYYY-MM-DD`.
    pub date_of_birth: Option<String>,
    pub email: Option<String>,
    pub phone_number: Option<String>,
}

/// The mathematical value of a [`UserInfo`].
pub struct UserInfoView {
    pub first_name: Option<Seq<char>>,
    pub last_name: Option<Seq<char>>,
    pub date_of_birth: Option<Seq<char>>,
    pub email: Option<Seq<char>>,
    pub phone_number: Option<Seq<char>>,
}

impl View for UserInfo {
    type V = UserInfoView;

    open spec fn view(&self) -> UserInfoView {
        UserInfoView {
            first_name: self.first_name.deep_view(),
            last_name: self.last_name.deep_view(),
            date_of_birth: self.date_of_birth.deep_view(),
            email: self.email.deep_view(),
            phone_number: self.phone_number.deep_view(),
        }
    }
}

/// Answer to a login. Its value is the token.
#[derive(Debug, Clone, PartialEq, Eq)]
pub struct AccessToken {
    pub token: String,
}

impl View for AccessToken {
    type V = Seq<char>;

    open spec fn view(&self) -> Seq<char> {
        self.token@
    }
}

/// A row of the credential store: a username and the hash of its password.
#[derive(Debug, Clone, PartialEq, Eq)]
pub struct Credential {
    pub username: String,
    pub password_hash: String,
}

/// The mathematical value of a [`Credential`].
pub struct CredentialView {
    pub username: Seq<char>,
    pub password_hash: Seq<char>,
}

impl View for Credential {
    type V = CredentialView;

    open spec fn view(&self) -> CredentialView {
        CredentialView { username: self.username@, password_hash: self.password_hash@ }
    }
}

/// What the lookup of a username in the credential store brought.
#[derive(Debug, Clone, PartialEq, Eq)]
pub enum Lookup {
    /// The username has a row, with this password hash.
    Found(String),
    /// The store answered, and the username has no row.
    Missing,
    /// The store gave no answer: it is out of reach, or the statement failed.
    Failed,
}

/// The mathematical value of a [`Lookup`].
pub enum LookupView {
    Found(Seq<char>),
    Missing,
    Failed,
}

impl View for Lookup {
    type V = LookupView;

    open spec fn view(&self) -> LookupView {
        match *self {
            Lookup::Found(hash) => LookupView::Found(hash@),
            Lookup::Missing => LookupView::Missing,
            Lookup::Failed => LookupView::Failed,
        }
    }
}

/// A calendar date.
#[derive(Debug, Clone, Copy, PartialEq, Eq, Structural)]
pub struct Date {
    pub year: i32,
    pub month: u32,
    pub day: u32,
}

impl Date {
    /// Month and day lie in the ranges of a calendar.
    pub open spec fn in_range(self) -> bool {
        1 <= self.month <= 12 && 1 <= self.day <= 31
    }
}

/// The statement that `update` hands to the store: the fields to set for
/// one user. A field that is `None` stays as it is.
#[derive(Debug, Clone, PartialEq, Eq)]
pub struct ProfileUpdate {
    pub username: String,
    pub first_name: Option<String>,
    pub last_name: Option<String>,
    pub date_of_birth: Option<Date>,
    pub email: Option<String>,
    pub phone_number: Option<String>,
}

/// The mathematical value of a [`ProfileUpdate`].
pub struct ProfileUpdateView {
    pub username: Seq<char>,
    pub first_name: Option<Seq<char>>,
    pub last_name: Option<Seq<char>>,
    pub date_of_birth: Option<Date>,
    pub email: Option<Seq<char>>,
    pub phone_number: Option<Seq<char>>,
}

impl View for ProfileUpdate {
    type V = ProfileUpdateView;

    open spec fn view(&self) -> ProfileUpdateView {
        ProfileUpdateView {
            username: self.username@,
            first_name: self.first_name.deep_view(),
            last_name: self.last_name.deep_view(),
            date_of_birth: self.date_of_birth,
            email: self.email.deep_view(),
            phone_number: self.phone_number.deep_view(),
        }
    }
}

/// The format in which `update` reads a date of birth.
pub const DATE_FORMAT: &'static str = "%Y-%m-%d";

/// The date that a text spells in a format, as year, month and day.
pub uninterp spec fn parsed_date(text: Seq<char>, format: Seq<char>) -> Option<(i32, u32, u32)>;

/// Calls `NaiveDate::parse_from_str` of chrono and takes year, month and
/// day of the date. The claims: the outcome depends on the two texts alone,
/// and a date that is read has its month in 1 to 12 and its day in 1 to 31.
#[verifier::external_body]
fn parse_date(text: &str, format: &str) -> (date: Option<(i32, u32, u32)>)
    ensures
        date == parsed_date(text@, format@),
        date matches Some(found) ==> 1 <= found.1 <= 12 && 1 <= found.2 <= 31,
{
    NaiveDate::parse_from_str(text, format).ok().map(|date| (date.year(), date.month(), date.day()))
}

/// Whether a character is a decimal digit of ASCII.
pub open spec fn is_digit(c: char) -> bool {
    '0' <= c <= '9'
}

/// Whether a text has the form `YYYY-MM-DD`: ten characters, of which the
/// fifth and the eighth are `-` and the others are digits.
pub open spec fn has_date_form(text: Seq<char>) -> bool {
    &&& text.len() == 10
    &&& is_digit(text[0])
    &&& is_digit(text[1])
    &&& is_digit(text[2])
    &&& is_digit(text[3])
    &&& text[4] == '-'
    &&& is_digit(text[5])
    &&& is_digit(text[6])
    &&& text[7] == '-'
    &&& is_digit(text[8])
    &&& is_digit(text[9])
}

/// The date of birth that a text spells: the date that it names, provided
/// that it is written as `YYYY-MM-DD`, with the month and the day in two
/// digits each.
pub open spec fn date_of(text: Seq<char>) -> Option<Date> {
    if has_date_form(text) {
        match parsed_date(text, DATE_FORMAT@) {
            Some(found) => Some(Date { year: found.0, month: found.1, day: found.2 }),
            None => None,
        }
    } else {
        None
    }
}

/// What `update` does with a request, given what its date of birth spells.
pub open spec fn update_of(
    username: Seq<char>,
    info: UserInfoView,
    date: Option<Option<Date>>,
) -> Result<ProfileUpdateView, AppError> {
    match date {
        Some(None) => Err(AppError::IncorrectDateFormat),
        Some(Some(day)) => Ok(
            ProfileUpdateView {
                username,
                first_name: info.first_name,
                last_name: info.last_name,
                date_of_birth: Some(day),
                email: info.email,
                phone_number: info.phone_number,
            },
        ),
        None => Ok(
            ProfileUpdateView {
                username,
                first_name: info.first_name,
                last_name: info.last_name,
                date_of_birth: None,
                email: info.email,
                phone_number: info.phone_number,
            },
        ),
    }
}

/// What the date of birth of a request spells: `None` where the request
/// has none, `Some(None)` where it has one that is no date.
pub open spec fn date_reading(info: UserInfoView) -> Option<Option<Date>> {
    match info.date_of_birth {
        Some(text) => Some(date_of(text)),
        None => None,
    }
}

/// The answer to a request whose statement the store has run, or refused.
pub fn store_response(stored: bool) -> (status: Result<u16, AppError>)
    ensures
        stored ==> status == Ok::<u16, AppError>(STATUS_OK),
        !stored ==> status == Err::<u16, AppError>(AppError::IncorrectRequest),
{
    if stored {
        Ok(STATUS_OK)
    } else {
        Err(AppError::IncorrectRequest)
    }
}

/// Whether a credential is a registration of the given name and password:
/// it has the name, and its hash admits the password.
pub open spec fn registers(credential: CredentialView, info: AuthInfoView) -> bool {
    &&& credential.username == info.username
    &&& password_verdict(info.password, credential.password_hash) == Some(true)
}

/// Whether a credential is what registration makes of the given name and
/// password: a registration whose hash has the gateway's work factor.
pub open spec fn is_registration(credential: CredentialView, info: AuthInfoView) -> bool {
    registers(credential, info) && made_with_cost(credential.password_hash, HASH_COST)
}

/// The credential of a registration, from the hash of its password. No
/// hash, no credential: the hasher is at fault.
pub fn credential_of(auth_info: AuthInfo, password_hash: Option<String>) -> (out: Handled<
    Credential,
>)
    ensures
        match password_hash {
            Some(hash) => out@ == Handled::Done(
                CredentialView { username: auth_info@.username, password_hash: hash@ },
            ),
            None => out@ == Handled::<CredentialView>::Faulted(Fault::Hasher),
        },
{
    match password_hash {
        Some(hash) => Handled::Done(
            Credential { username: auth_info.username, password_hash: hash },
        ),
        None => Handled::Faulted(Fault::Hasher),
    }
}

/// Registration, up to the store: hashes the password and gives the row to
/// insert. The store's answer to the insert goes to [`store_response`]: a
/// username that exists already and a store out of reach both end in
/// `IncorrectRequest`.
pub fn register_handler(auth_info: AuthInfo) -> (out: Handled<Credential>)
    ensures
        match out {
            Handled::Done(credential) => is_registration(credential@, auth_info@),
            Handled::Rejected(_) => false,
            Handled::Faulted(fault) => fault == Fault::Hasher,
        },
{
    let password_hash = password::hash(auth_info.password.as_str());
    credential_of(auth_info, password_hash)
}

/// The answer to a login: from what the lookup of the username brought,
/// the request and the time.
///
/// No row: `NonExistingUser`. A lookup that failed: `IncorrectRequest`, as
/// every failure of the store. A row whose hash refuses the password:
/// `WrongPassword`. A row whose hash admits it: a token for the username,
/// issued at `now`. A stored text that is no hash, and a key that cannot
/// sign, are faults.
pub open spec fn login_answer(
    key: Seq<u8>,
    info: AuthInfoView,
    lookup: LookupView,
    now: u64,
) -> Handled<Seq<char>> {
    match lookup {
        LookupView::Missing => Handled::Rejected(AppError::NonExistingUser),
        LookupView::Failed => Handled::Rejected(AppError::IncorrectRequest),
        LookupView::Found(hash) => match password_verdict(info.password, hash) {
            None => Handled::Faulted(Fault::Hasher),
            Some(false) => Handled::Rejected(AppError::WrongPassword),
            Some(true) => if key.len() >= MIN_KEY_LENGTH {
                Handled::Done(issued(key, info.username, now))
            } else {
                Handled::Faulted(Fault::Signer)
            },
        },
    }
}

/// Where a login ends at the password check, and how: a refused password
/// is rejected, a check without verdict is a fault, an admitted password
/// lets the login go on.
pub fn password_refusal(verdict: Option<bool>) -> (stop: Option<Handled<AccessToken>>)
    ensures
        verdict == Some(true) <==> stop is None,
        verdict == Some(false) <==> stop == Some(
            Handled::<AccessToken>::Rejected(AppError::WrongPassword),
        ),
        verdict is None <==> stop == Some(Handled::<AccessToken>::Faulted(Fault::Hasher)),
{
    match verdict {
        Some(true) => None,
        Some(false) => Some(Handled::Rejected(AppError::WrongPassword)),
        None => Some(Handled::Faulted(Fault::Hasher)),
    }
}

/// The end of a login whose password was admitted: the token, or the fault
/// of a key that signed nothing.
pub fn token_response(token: Option<String>) -> (out: Handled<AccessToken>)
    ensures
        match token {
            Some(text) => out@ == Handled::Done(text@),
            None => out@ == Handled::<Seq<char>>::Faulted(Fault::Signer),
        },
{
    match token {
        Some(text) => Handled::Done(AccessToken { token: text }),
        None => Handled::Faulted(Fault::Signer),
    }
}

/// Login, from what the lookup of the username in the store brought.
pub fn login_handler(key: &SigningKey, auth_info: AuthInfo, lookup: Lookup, now: u64) -> (out:
    Handled<AccessToken>)
    requires
        now + TOKEN_LIFETIME_SECS <= LATEST_SECOND,
    ensures
        out@ == login_answer(key@, auth_info@, lookup@, now),
        out matches Handled::Done(access) ==> is_issued(key@, auth_info@.username, now, access@),
        lookup is Missing ==> out == Handled::<AccessToken>::Rejected(AppError::NonExistingUser),
        lookup is Failed ==> out == Handled::<AccessToken>::Rejected(AppError::IncorrectRequest),
        lookup is Found ==> out != Handled::<AccessToken>::Rejected(AppError::NonExistingUser),
{
    match lookup {
        Lookup::Missing => Handled::Rejected(AppError::NonExistingUser),
        Lookup::Failed => Handled::Rejected(AppError::IncorrectRequest),
        Lookup::Found(hash) => {
            let verdict = password::verify(auth_info.password.as_str(), hash.as_str());
            match password_refusal(verdict) {
                Some(stop) => stop,
                None => token_response(token::issue(key, auth_info.username.as_str(), now)),
            }
        },
    }
}

/// The statement of an update, from what the date of birth was read as:
/// `None` where the request has no date, `Some(None)` where its date is no
/// date.
pub fn update_with(claims: AppClaims, user_info: UserInfo, date: Option<Option<Date>>) -> (out:
    Result<ProfileUpdate, AppError>)
    ensures
        match out {
            Ok(update) => update_of(claims@, user_info@, date) == Ok::<
                ProfileUpdateView,
                AppError,
            >(update@),
            Err(error) => update_of(claims@, user_info@, date) == Err::<
                ProfileUpdateView,
                AppError,
            >(error),
        },
{
    let date_of_birth = match date {
        Some(None) => {
            return Err(AppError::IncorrectDateFormat);
        },
        Some(Some(day)) => Some(day),
        None => None,
    };
    Ok(
        ProfileUpdate {
            username: claims.username,
            first_name: user_info.first_name,
            last_name: user_info.last_name,
            date_of_birth,
            email: user_info.email,
            phone_number: user_info.phone_number,
        },
    )
}

/// Whether the character at a place of a text is a digit.
fn digit_at(text: &str, index: usize) -> (digit: bool)
    requires
        index < text@.len(),
    ensures
        digit == is_digit(text@[index as int]),
{
    let c = text.get_char(index);
    '0' <= c && c <= '9'
}

/// Whether a text is written as `YYYY-MM-DD`.
pub fn is_date_form(text: &str) -> (formed: bool)
    ensures
        formed == has_date_form(text@),
{
    if text.unicode_len() != 10 {
        return false;
    }
    digit_at(text, 0) && digit_at(text, 1) && digit_at(text, 2) && digit_at(text, 3)
        && text.get_char(4) == '-' && digit_at(text, 5) && digit_at(text, 6) && text.get_char(7)
        == '-' && digit_at(text, 8) && digit_at(text, 9)
}

/// Reads a date of birth written as `YYYY-MM-DD`. A text of another form
/// is no date, whatever it may name; a text of that form is a date if the
/// calendar has the day.
pub fn read_date(text: &str) -> (date: Option<Date>)
    ensures
        date == date_of(text@),
        date is Some ==> has_date_form(text@),
        date matches Some(day) ==> day.in_range(),
{
    if !is_date_form(text) {
        return None;
    }
    match parse_date(text, DATE_FORMAT) {
        Some(found) => Some(Date { year: found.0, month: found.1, day: found.2 }),
        None => None,
    }
}

/// Profile update, up to the store: checks the date of birth and gives the
/// statement for the authorised user. A date that is no date ends the
/// request with `IncorrectDateFormat` and no statement: the store is not
/// touched. The store's answer to the statement goes to [`store_response`].
pub fn update_handler(claims: AppClaims, user_info: UserInfo) -> (out: Result<
    ProfileUpdate,
    AppError,
>)
    ensures
        match out {
            Ok(update) => update_of(claims@, user_info@, date_reading(user_info@)) == Ok::<
                ProfileUpdateView,
                AppError,
            >(update@),
            Err(error) => update_of(claims@, user_info@, date_reading(user_info@)) == Err::<
                ProfileUpdateView,
                AppError,
            >(error),
        },
        out matches Err(error) ==> error == AppError::IncorrectDateFormat,
        user_info.date_of_birth is None ==> out is Ok,
        out matches Ok(update) ==> (update.date_of_birth matches Some(day) ==> day.in_range()),
{
    let date = match &user_info.date_of_birth {
        Some(text) => Some(read_date(text.as_str())),
        None => None,
    };
    update_with(claims, user_info, date)
}

/// The credential store as registration and login see it: at most one
/// password hash for each username.
pub struct CredentialStore {
    pub rows: Map<Seq<char>, Seq<char>>,
}

impl CredentialStore {
    /// What a lookup of the username brings from a store that answers:
    /// the hash of its row, or that it has none.
    pub open spec fn lookup(self, username: Seq<char>) -> LookupView {
        if self.rows.dom().contains(username) {
            LookupView::Found(self.rows[username])
        } else {
            LookupView::Missing
        }
    }

    /// The store after the insert of a credential. Usernames are unique: a
    /// credential for a username that has a row is refused.
    pub open spec fn insert(self, credential: CredentialView) -> Option<CredentialStore> {
        if self.rows.dom().contains(credential.username) {
            None
        } else {
            Some(
                CredentialStore {
                    rows: self.rows.insert(credential.username, credential.password_hash),
                },
            )
        }
    }
}

/// Register, then log in with the same name and password: the login is
/// answered with a token, and the token verifies to the name from the
/// login until it expires. Stated for a key that can sign, for a token
/// within the length that verification reads, and for times from
/// `TIME_TOLERANCE_SECS` on that leave room for the drift below
/// `LATEST_SECOND`.
pub proof fn lemma_register_then_login(
    store: CredentialStore,
    key: Seq<u8>,
    info: AuthInfoView,
    credential: CredentialView,
    now: u64,
    later: u64,
)
    requires
        registers(credential, info),
        store.insert(credential) is Some,
        key.len() >= MIN_KEY_LENGTH,
        now + TOKEN_LIFETIME_SECS <= LATEST_SECOND,
        is_issued(key, info.username, now, issued(key, info.username, now)),
        issued(key, info.username, now).len() <= MAX_TOKEN_LENGTH,
        now <= later <= now + TOKEN_LIFETIME_SECS,
        TIME_TOLERANCE_SECS <= later,
        later + TIME_TOLERANCE_SECS <= LATEST_SECOND,
    ensures
        login_answer(
            key,
            info,
            store.insert(credential).unwrap().lookup(info.username),
            now,
        ) == Handled::Done(issued(key, info.username, now)),
        verified(key, issued(key, info.username, now), later) == Ok::<Seq<char>, AppError>(
            info.username,
        ),
{
    token::lemma_issued_token_verifies(
        key,
        info.username,
        issued(key, info.username, now),
        now,
        later,
    );
}

/// Register, log in, and send the token in the `Authorization` header of
/// a later request: for a username of at most `MAX_SUBJECT_LENGTH`
/// characters the login is answered with a token, and the request is
/// authorised as that username until the token expires. Stated for a key
/// that can sign, and for times from `TIME_TOLERANCE_SECS` on that leave
/// room for the drift below `LATEST_SECOND`.
pub proof fn lemma_register_login_authorise(
    store: CredentialStore,
    key: Seq<u8>,
    info: AuthInfoView,
    credential: CredentialView,
    now: u64,
    later: u64,
)
    requires
        registers(credential, info),
        store.insert(credential) is Some,
        key.len() >= MIN_KEY_LENGTH,
        info.username.len() <= MAX_SUBJECT_LENGTH,
        now + TOKEN_LIFETIME_SECS <= LATEST_SECOND,
        is_issued(key, info.username, now, issued(key, info.username, now)),
        now <= later <= now + TOKEN_LIFETIME_SECS,
        TIME_TOLERANCE_SECS <= later,
        later + TIME_TOLERANCE_SECS <= LATEST_SECOND,
    ensures
        login_answer(
            key,
            info,
            store.insert(credential).unwrap().lookup(info.username),
            now,
        ) == Handled::Done(issued(key, info.username, now)),
        AppClaims::authorized(
            seq![bearer_header(issued(key, info.username, now))],
            key,
            later,
        ) == Ok::<Seq<char>, AppError>(info.username),
{
    let token = issued(key, info.username, now);
    token::lemma_short_subject_fits(key, info.username, token, now);
    lemma_issued_token_authorises(key, info.username, token, now, later);
}

/// A login with a password that the stored hash refuses is answered with
/// `WrongPassword`.
pub proof fn lemma_wrong_password(
    store: CredentialStore,
    key: Seq<u8>,
    info: AuthInfoView,
    now: u64,
)
    requires
        store.lookup(info.username) matches LookupView::Found(hash) && password_verdict(
            info.password,
            hash,
        ) == Some(false),
    ensures
        login_answer(key, info, store.lookup(info.username), now) == Handled::<
            Seq<char>,
        >::Rejected(AppError::WrongPassword),
{
}

/// A login for a username that has a row is never answered with
/// `NonExistingUser`, whatever the password.
pub proof fn lemma_existing_user_is_known(
    store: CredentialStore,
    key: Seq<u8>,
    info: AuthInfoView,
    now: u64,
)
    requires
        store.rows.dom().contains(info.username),
    ensures
        login_answer(key, info, store.lookup(info.username), now) != Handled::<
            Seq<char>,
        >::Rejected(AppError::NonExistingUser),
{
}

/// A login for a username that was never registered is answered with
/// `NonExistingUser`.
pub proof fn lemma_unregistered_user(
    store: CredentialStore,
    key: Seq<u8>,
    info: AuthInfoView,
    now: u64,
)
    requires
        !store.rows.dom().contains(info.username),
    ensures
        login_answer(key, info, store.lookup(info.username), now) == Handled::<
            Seq<char>,
        >::Rejected(AppError::NonExistingUser),
{
}

} // verus!
