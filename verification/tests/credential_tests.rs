use chat_backend::credential::hash_password;
use chat_backend::credential::verify_password;

const COST_FOUR_PREFIX: &str = "$2b$04$";

#[test]
fn digest_verifies_its_plaintext_and_no_other() {
    let digest = hash_password("pw1").unwrap();
    assert_ne!(digest, "pw1");
    assert_eq!(digest.len(), 60);
    assert!(digest.starts_with("$2b$12$"));
    assert_eq!(verify_password("pw1", &digest), Some(true));
    assert_eq!(verify_password("pw2", &digest), Some(false));
}

#[test]
fn digests_of_one_plaintext_differ() {
    let first = hash_password("pw1").unwrap();
    let second = hash_password("pw1").unwrap();
    assert_ne!(first, second);
}

#[test]
fn known_digest_verifies() {
    let digest = bcrypt::hash_with_salt("correct horse", 4, [7u8; 16]).unwrap().to_string();
    assert!(digest.starts_with(COST_FOUR_PREFIX));
    assert_eq!(verify_password("correct horse", &digest), Some(true));
    assert_eq!(verify_password("correct horsf", &digest), Some(false));
    assert_eq!(verify_password("", &digest), Some(false));
}

#[test]
fn unreadable_digest_is_no_answer() {
    assert_eq!(verify_password("pw1", ""), None);
    assert_eq!(verify_password("pw1", "pw1"), None);
    assert_eq!(verify_password("pw1", "not a digest"), None);
    assert_eq!(
        verify_password("pw1", "$9z$04$abcdefghijklmnopqrstuuabcdefghijklmnopqrstuvwxyz01234"),
        None
    );
}
