use user_service::password::{hash, verify, HASH_COST};

#[test]
fn a_hash_admits_its_password() {
    let stored = hash("correct horse").unwrap();
    assert_eq!(verify("correct horse", &stored), Some(true));
}

#[test]
fn a_hash_refuses_another_password() {
    let stored = hash("correct horse").unwrap();
    assert_eq!(verify("battery staple", &stored), Some(false));
    assert_eq!(verify("", &stored), Some(false));
}

#[test]
fn a_hash_is_not_the_password_and_names_the_cost() {
    let stored = hash("pw").unwrap();
    assert_ne!(stored, "pw");
    assert_eq!(HASH_COST, 10);
    assert!(stored.starts_with("$2b$10$"));
    assert_eq!(stored.len(), 60);
}

#[test]
fn two_hashes_of_one_password_differ() {
    let first = hash("pw").unwrap();
    let second = hash("pw").unwrap();
    assert_ne!(first, second);
    assert_eq!(verify("pw", &first), Some(true));
    assert_eq!(verify("pw", &second), Some(true));
}

#[test]
fn hashes_made_elsewhere_are_checked() {
    let from_a_tool = "$2a$04$UuTkLRZZ6QofpDOlMz32MuuxEHA43WOemOYHPz6.SjsVsyO1tDU96";
    assert_eq!(verify("password", from_a_tool), Some(true));
    let from_python = "$2b$04$EGdrhbKUv8Oc9vGiXX0HQOxSg445d458Muh7DAHskb6QbtCvdxcie";
    assert_eq!(verify("correctbatteryhorsestapler", from_python), Some(true));
    assert_eq!(verify("wrong", from_python), Some(false));
}

#[test]
fn a_text_that_is_no_hash_gives_no_verdict() {
    assert_eq!(verify("pw", ""), None);
    assert_eq!(verify("pw", "pw"), None);
    assert_eq!(verify("pw", "$2a$ab$n4Uy0eSnMfvnESYL.bLwuuj0U/ETSsoTpRT9GVk$5bektyVVa5xnIi"), None);
    assert_eq!(
        verify("pw", "$2a$04$n4Uy0eSnMfvnESYL.bLwuuj0U/ETSsoTpRT9GVk$5bektyVVa5xnIi"),
        None
    );
}

#[test]
fn the_empty_password_and_long_passwords_are_hashed() {
    let empty = hash("").unwrap();
    assert_eq!(verify("", &empty), Some(true));
    assert_eq!(verify("x", &empty), Some(false));
    let long: String = std::iter::repeat('x').take(100).collect();
    let stored = hash(&long).unwrap();
    assert_eq!(verify(&long, &stored), Some(true));
}
