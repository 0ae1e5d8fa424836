use axum::http::HeaderValue;
use axum_extra::headers::authorization::Bearer;
use axum_extra::headers::{Authorization, Header};
use user_service::common::{root_handler, AppClaims, AppError};
use user_service::token::{issue, SigningKey};

fn key() -> SigningKey {
    SigningKey::from_bytes(b"an operator-supplied secret key!".to_vec())
}

fn bearer(prefix: &str, token: &str) -> Vec<Vec<u8>> {
    vec![format!("{}{}", prefix, token).into_bytes()]
}

#[test]
fn each_error_has_its_status_and_message() {
    assert_eq!(AppError::InvalidToken.into_response(), (403, "Invalid token"));
    assert_eq!(AppError::NonExistingUser.into_response(), (400, "User doesn't exist"));
    assert_eq!(AppError::WrongPassword.into_response(), (403, "Wrong password"));
    assert_eq!(AppError::IncorrectRequest.into_response(), (400, "Incorrect request"));
    assert_eq!(
        AppError::IncorrectDateFormat.into_response(),
        (400, "Incorrect date format. Expected YYYY-MM-DD")
    );
}

#[test]
fn root_answers_with_the_banner() {
    assert_eq!(root_handler(), "User service API");
}

#[test]
fn a_request_without_the_header_is_refused() {
    let claims = AppClaims::from_request_parts(&Vec::new(), &key(), 1_700_000_000);
    assert_eq!(claims.err(), Some(AppError::InvalidToken));
}

#[test]
fn a_valid_bearer_token_authorises_its_subject() {
    let token = issue(&key(), "alice", 1_700_000_000).unwrap();
    let claims =
        AppClaims::from_request_parts(&bearer("Bearer ", &token), &key(), 1_700_000_100).unwrap();
    assert_eq!(claims.username, "alice");
}

#[test]
fn the_scheme_is_read_in_any_case() {
    let token = issue(&key(), "alice", 1_700_000_000).unwrap();
    for prefix in ["bearer ", "BEARER ", "bEaReR "] {
        let claims =
            AppClaims::from_request_parts(&bearer(prefix, &token), &key(), 1_700_000_000).unwrap();
        assert_eq!(claims.username, "alice");
    }
}

#[test]
fn blanks_before_the_token_are_skipped() {
    let token = issue(&key(), "alice", 1_700_000_000).unwrap();
    let claims =
        AppClaims::from_request_parts(&bearer("Bearer  \t ", &token), &key(), 1_700_000_000)
            .unwrap();
    assert_eq!(claims.username, "alice");
}

#[test]
fn other_shapes_of_the_header_are_refused() {
    let token = issue(&key(), "alice", 1_700_000_000).unwrap();
    let shapes: Vec<Vec<Vec<u8>>> = vec![
        bearer("", &token),
        bearer("Bearer", &token),
        bearer("Bearer\t", &token),
        bearer("Basic ", &token),
        bearer("Token ", &token),
        bearer(" Bearer ", &token),
        vec![b"Bearer".to_vec()],
        vec![b"Bearer ".to_vec()],
        vec![b"".to_vec()],
    ];
    for shape in shapes {
        let claims = AppClaims::from_request_parts(&shape, &key(), 1_700_000_000);
        assert_eq!(claims.err(), Some(AppError::InvalidToken));
    }
}

#[test]
fn a_header_with_bytes_that_are_no_text_is_refused() {
    let token = issue(&key(), "alice", 1_700_000_000).unwrap();
    for extra in [0x80u8, 0xff, 0x7f, 0x00, 0x0a] {
        let mut value = format!("Bearer {}", token).into_bytes();
        value.push(extra);
        let claims = AppClaims::from_request_parts(&vec![value], &key(), 1_700_000_000);
        assert_eq!(claims.err(), Some(AppError::InvalidToken));
    }
}

#[test]
fn only_the_first_value_of_the_header_counts() {
    let token = issue(&key(), "alice", 1_700_000_000).unwrap();
    let good = format!("Bearer {}", token).into_bytes();
    let bad = b"Basic QWxhZGRpbjpvcGVuIHNlc2FtZQ==".to_vec();
    let first_good =
        AppClaims::from_request_parts(&vec![good.clone(), bad.clone()], &key(), 1_700_000_000);
    assert_eq!(first_good.unwrap().username, "alice");
    let first_bad = AppClaims::from_request_parts(&vec![bad, good], &key(), 1_700_000_000);
    assert_eq!(first_bad.err(), Some(AppError::InvalidToken));
}

#[test]
fn a_token_with_a_flipped_bit_in_its_payload_authorises_nobody() {
    let token = issue(&key(), "alice", 1_700_000_000).unwrap();
    let first_dot = token.find('.').unwrap();
    let last_dot = token.rfind('.').unwrap();
    for position in (first_dot + 1)..last_dot {
        for bit in 0..8 {
            let mut value = format!("Bearer {}", token).into_bytes();
            value[7 + position] ^= 1 << bit;
            let claims = AppClaims::from_request_parts(&vec![value], &key(), 1_700_000_000);
            assert_eq!(claims.err(), Some(AppError::InvalidToken), "byte {} bit {}", position, bit);
        }
    }
}

#[test]
fn a_token_of_another_key_is_refused() {
    let other = SigningKey::from_bytes(b"some other secret, as long as it".to_vec());
    let token = issue(&other, "alice", 1_700_000_000).unwrap();
    let claims = AppClaims::from_request_parts(&bearer("Bearer ", &token), &key(), 1_700_000_000);
    assert_eq!(claims.err(), Some(AppError::InvalidToken));
}

#[test]
fn an_expired_token_is_refused() {
    let token = issue(&key(), "alice", 1_700_000_000).unwrap();
    let late = 1_700_000_000 + 7200 + 900 + 1;
    let claims = AppClaims::from_request_parts(&bearer("Bearer ", &token), &key(), late);
    assert_eq!(claims.err(), Some(AppError::InvalidToken));
}

#[test]
fn the_extractor_reads_the_header_as_the_headers_crate_does() {
    let token = issue(&key(), "alice", 1_700_000_000).unwrap();
    let values = [
        format!("Bearer {}", token),
        format!("bearer    {}", token),
        format!("Bearer\t{}", token),
        format!("Bearer{}", token),
        format!("Beare {}", token),
        String::from("Bearer "),
    ];
    for value in values {
        let header = HeaderValue::from_str(&value).unwrap();
        let mut one = std::iter::once(&header);
        let theirs = Authorization::<Bearer>::decode(&mut one)
            .ok()
            .map(|found| found.token().to_string());
        let ours = AppClaims::from_request_parts(
            &vec![value.clone().into_bytes()],
            &key(),
            1_700_000_000,
        );
        assert_eq!(ours.is_ok(), theirs == Some(token.clone()), "{:?}", value);
    }
}
