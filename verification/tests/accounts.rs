use std::collections::HashMap;

use user_service::auth::{
    credential_of, is_date_form, login_handler, password_refusal, read_date, register_handler,
    store_response, token_response, update_handler, update_with, AccessToken, AuthInfo,
    Credential, Date, Lookup, ProfileUpdate, UserInfo,
};
use user_service::common::{AppClaims, AppError, Fault, Handled};
use user_service::password;
use user_service::token::{verify, SigningKey};

const T0: u64 = 1_700_000_000;

fn key() -> SigningKey {
    SigningKey::from_bytes(b"an operator-supplied secret key!".to_vec())
}

fn auth(username: &str, password: &str) -> AuthInfo {
    AuthInfo { username: String::from(username), password: String::from(password) }
}

fn claims(username: &str) -> AppClaims {
    AppClaims { username: String::from(username) }
}

fn nothing_to_change() -> UserInfo {
    UserInfo {
        first_name: None,
        last_name: None,
        date_of_birth: None,
        email: None,
        phone_number: None,
    }
}

/// A store with unique usernames, as the tests' stand-in for the database.
fn insert(store: &mut HashMap<String, String>, credential: Credential) -> bool {
    if store.contains_key(&credential.username) {
        return false;
    }
    store.insert(credential.username, credential.password_hash);
    true
}

fn lookup(store: &HashMap<String, String>, username: &str) -> Lookup {
    match store.get(username) {
        Some(hash) => Lookup::Found(hash.clone()),
        None => Lookup::Missing,
    }
}

fn registered(store: &mut HashMap<String, String>, username: &str, password: &str) {
    match register_handler(auth(username, password)) {
        Handled::Done(credential) => {
            assert_eq!(store_response(insert(store, credential)), Ok(200));
        }
        other => panic!("registration ended in {:?}", other),
    }
}

#[test]
fn registration_gives_a_row_whose_hash_admits_the_password() {
    match register_handler(auth("alice", "pw")) {
        Handled::Done(credential) => {
            assert_eq!(credential.username, "alice");
            assert_ne!(credential.password_hash, "pw");
            assert_eq!(password::verify("pw", &credential.password_hash), Some(true));
            assert_eq!(password::verify("pW", &credential.password_hash), Some(false));
        }
        other => panic!("registration ended in {:?}", other),
    }
}

#[test]
fn the_credential_is_the_name_with_the_hash() {
    assert_eq!(
        credential_of(auth("alice", "pw"), Some(String::from("$2b$10$hash"))),
        Handled::Done(Credential {
            username: String::from("alice"),
            password_hash: String::from("$2b$10$hash"),
        })
    );
    assert_eq!(credential_of(auth("alice", "pw"), None), Handled::Faulted(Fault::Hasher));
}

#[test]
fn the_store_s_answer_becomes_200_or_incorrect_request() {
    assert_eq!(store_response(true), Ok(200));
    assert_eq!(store_response(false), Err(AppError::IncorrectRequest));
}

#[test]
fn a_second_registration_of_a_name_is_an_incorrect_request() {
    let mut store = HashMap::new();
    registered(&mut store, "alice", "pw");
    match register_handler(auth("alice", "other")) {
        Handled::Done(credential) => {
            assert_eq!(
                store_response(insert(&mut store, credential)),
                Err(AppError::IncorrectRequest)
            );
        }
        other => panic!("registration ended in {:?}", other),
    }
}

#[test]
fn register_then_login_gives_a_token_for_the_name() {
    let mut store = HashMap::new();
    registered(&mut store, "alice", "pw");
    registered(&mut store, "bob", "hunter2");
    for (username, password) in [("alice", "pw"), ("bob", "hunter2")] {
        let row = lookup(&store, username);
        match login_handler(&key(), auth(username, password), row, T0) {
            Handled::Done(access) => {
                assert_eq!(verify(&key(), &access.token, T0), Ok(String::from(username)));
                assert_eq!(verify(&key(), &access.token, T0 + 7200), Ok(String::from(username)));
            }
            other => panic!("login ended in {:?}", other),
        }
    }
}

#[test]
fn a_wrong_password_is_told_as_wrong_password() {
    let mut store = HashMap::new();
    registered(&mut store, "alice", "pw");
    for password in ["", "PW", "pw ", "hunter2"] {
        let row = lookup(&store, "alice");
        assert_eq!(
            login_handler(&key(), auth("alice", password), row, T0),
            Handled::Rejected(AppError::WrongPassword)
        );
    }
}

#[test]
fn an_unregistered_name_is_told_as_non_existing_user() {
    let mut store = HashMap::new();
    registered(&mut store, "alice", "pw");
    let row = lookup(&store, "carol");
    assert_eq!(row, Lookup::Missing);
    assert_eq!(
        login_handler(&key(), auth("carol", "pw"), row, T0),
        Handled::Rejected(AppError::NonExistingUser)
    );
}

#[test]
fn a_lookup_that_failed_is_an_incorrect_request() {
    assert_eq!(
        login_handler(&key(), auth("alice", "pw"), Lookup::Failed, T0),
        Handled::Rejected(AppError::IncorrectRequest)
    );
    assert_eq!(
        login_handler(&key(), auth("", ""), Lookup::Failed, T0),
        Handled::Rejected(AppError::IncorrectRequest)
    );
}

#[test]
fn a_stored_text_that_is_no_hash_is_a_fault_of_the_hasher() {
    assert_eq!(
        login_handler(&key(), auth("alice", "pw"), Lookup::Found(String::from("pw")), T0),
        Handled::Faulted(Fault::Hasher)
    );
}

#[test]
fn a_key_that_cannot_sign_is_a_fault_of_the_signer() {
    let weak = SigningKey::from_bytes(b"short".to_vec());
    let stored = password::hash("pw").unwrap();
    assert_eq!(
        login_handler(&weak, auth("alice", "pw"), Lookup::Found(stored.clone()), T0),
        Handled::Faulted(Fault::Signer)
    );
    assert_eq!(
        login_handler(&weak, auth("alice", "nope"), Lookup::Found(stored), T0),
        Handled::Rejected(AppError::WrongPassword)
    );
}

#[test]
fn the_password_check_decides_whether_a_login_goes_on() {
    assert_eq!(password_refusal(Some(true)), None);
    assert_eq!(password_refusal(Some(false)), Some(Handled::Rejected(AppError::WrongPassword)));
    assert_eq!(password_refusal(None), Some(Handled::Faulted(Fault::Hasher)));
}

#[test]
fn the_issued_token_is_the_answer_of_a_login() {
    assert_eq!(
        token_response(Some(String::from("a.b.c"))),
        Handled::Done(AccessToken { token: String::from("a.b.c") })
    );
    assert_eq!(token_response(None), Handled::Faulted(Fault::Signer));
}

#[test]
fn a_date_of_birth_with_month_13_is_an_incorrect_date_format() {
    let mut info = nothing_to_change();
    info.date_of_birth = Some(String::from("2024-13-01"));
    info.first_name = Some(String::from("Alice"));
    assert_eq!(update_handler(claims("alice"), info), Err(AppError::IncorrectDateFormat));
}

#[test]
fn texts_that_are_no_dates_are_refused() {
    for text in ["", "2024", "2024-02-30", "2023-02-29", "2024-00-10", "2024-01-00",
        "01-02-2024x", "2024/01/02", "2024-01-02T00:00:00", "yesterday", "2024-01-32"]
    {
        assert_eq!(read_date(text), None, "{:?}", text);
        let mut info = nothing_to_change();
        info.date_of_birth = Some(String::from(text));
        assert_eq!(update_handler(claims("alice"), info), Err(AppError::IncorrectDateFormat));
    }
}

#[test]
fn dates_are_read_as_year_month_day() {
    assert_eq!(read_date("2024-02-29"), Some(Date { year: 2024, month: 2, day: 29 }));
    assert_eq!(read_date("1999-12-31"), Some(Date { year: 1999, month: 12, day: 31 }));
    assert_eq!(read_date("0001-01-01"), Some(Date { year: 1, month: 1, day: 1 }));
    assert_eq!(read_date("2000-02-29"), Some(Date { year: 2000, month: 2, day: 29 }));
    assert_eq!(read_date("9999-12-31"), Some(Date { year: 9999, month: 12, day: 31 }));
}

#[test]
fn a_month_or_day_of_one_digit_is_an_incorrect_date_format() {
    let mut info = nothing_to_change();
    info.date_of_birth = Some(String::from("2024-1-5"));
    assert_eq!(update_handler(claims("alice"), info), Err(AppError::IncorrectDateFormat));
    for text in ["2024-1-5", "2024-01-5", "2024-1-05", "2024-1-15", "2024-11-5", "24-01-05"] {
        assert_eq!(read_date(text), None, "{:?}", text);
    }
}

#[test]
fn dates_in_another_form_are_refused_whatever_they_name() {
    for text in [
        " 2024-01-05",
        "2024-01-05 ",
        "+2024-01-05",
        "-2024-01-05",
        "+024-01-05",
        " 024-01-05",
        "2024- 1-05",
        "2024-01- 5",
        "02024-01-05",
        "2024\u{2010}01-05",
        "2024.01.05",
        "2024-01/05",
        "\u{662}\u{660}\u{662}\u{664}-01-05",
        "2024-01-0\u{665}",
    ] {
        assert!(!is_date_form(text), "{:?}", text);
        assert_eq!(read_date(text), None, "{:?}", text);
    }
}

#[test]
fn the_form_of_a_date_is_four_two_and_two_digits_between_hyphens() {
    for text in ["2024-01-05", "0000-00-00", "9999-99-99", "2023-02-29"] {
        assert!(is_date_form(text), "{:?}", text);
    }
    for text in ["", "2024-01-0", "2024-01-055", "2024_01_05", "2024-01-0a", "abcd-ef-gh"] {
        assert!(!is_date_form(text), "{:?}", text);
    }
    assert_eq!(read_date("0000-00-00"), None);
    assert_eq!(read_date("9999-99-99"), None);
    assert_eq!(read_date("2023-02-29"), None);
}

#[test]
fn an_update_carries_the_fields_of_the_request_for_the_authorised_user() {
    let info = UserInfo {
        first_name: Some(String::from("Alice")),
        last_name: None,
        date_of_birth: Some(String::from("1990-07-04")),
        email: Some(String::from("alice@example.com")),
        phone_number: None,
    };
    assert_eq!(
        update_handler(claims("alice"), info),
        Ok(ProfileUpdate {
            username: String::from("alice"),
            first_name: Some(String::from("Alice")),
            last_name: None,
            date_of_birth: Some(Date { year: 1990, month: 7, day: 4 }),
            email: Some(String::from("alice@example.com")),
            phone_number: None,
        })
    );
}

#[test]
fn an_update_without_fields_changes_nothing() {
    assert_eq!(
        update_handler(claims("alice"), nothing_to_change()),
        Ok(ProfileUpdate {
            username: String::from("alice"),
            first_name: None,
            last_name: None,
            date_of_birth: None,
            email: None,
            phone_number: None,
        })
    );
}

#[test]
fn the_reading_of_the_date_decides_the_update() {
    let day = Date { year: 2000, month: 1, day: 2 };
    let with_day = update_with(claims("alice"), nothing_to_change(), Some(Some(day))).unwrap();
    assert_eq!(with_day.date_of_birth, Some(day));
    assert_eq!(with_day.username, "alice");
    let without = update_with(claims("alice"), nothing_to_change(), None).unwrap();
    assert_eq!(without.date_of_birth, None);
    assert_eq!(
        update_with(claims("alice"), nothing_to_change(), Some(None)),
        Err(AppError::IncorrectDateFormat)
    );
}
