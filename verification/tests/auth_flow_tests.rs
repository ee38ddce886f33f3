use chat_backend::auth_controller::admit_login;
use chat_backend::auth_controller::check_registration;
use chat_backend::auth_controller::login;
use chat_backend::auth_controller::login_at;
use chat_backend::auth_controller::new_account;
use chat_backend::auth_controller::register;
use chat_backend::auth_controller::registered;
use chat_backend::auth_controller::validate_login;
use chat_backend::auth_controller::validate_registration;
use chat_backend::auth_controller::AuthError;
use chat_backend::auth_controller::AuthResponse;
use chat_backend::auth_controller::LoginRequest;
use chat_backend::auth_controller::RegisterRequest;
use chat_backend::credential::verify_password;
use chat_backend::error::ErrorKind;
use chat_backend::error::StoreError;
use chat_backend::models::User;
use chat_backend::object_id::ObjectId;
use chat_backend::token::extract_identity;
use chat_backend::token::verify_token;
use chat_backend::token::SigningSecret;

fn secret() -> SigningSecret {
    SigningSecret::new(b"secret".to_vec())
}

fn find_by_email(users: &[User], email: &str) -> Result<Option<User>, StoreError> {
    Ok(users.iter().find(|user| user.email == email).cloned())
}

fn register_in(users: &mut Vec<User>, payload: &RegisterRequest) -> Result<AuthResponse, AuthError> {
    let existing = find_by_email(users, &payload.email);
    let user = register(payload, &existing)?;
    let id = user.id;
    users.push(user);
    registered(&Ok(Some(id)))
}

fn ann() -> RegisterRequest {
    RegisterRequest { name: "Ann".to_string(), email: "ann@x.com".to_string(), password: "pw1".to_string() }
}

fn account(password: &str) -> User {
    let digest = bcrypt::hash_with_salt(password, 4, [3u8; 16]).unwrap().to_string();
    User {
        id: ObjectId::parse_str("65f0c0ffee0123456789abcd").unwrap(),
        name: "Ann".to_string(),
        email: "ann@x.com".to_string(),
        password: digest,
    }
}

#[test]
fn registering_twice_under_one_email_fails_the_second_time() {
    let mut users = Vec::new();
    let first = register_in(&mut users, &ann()).unwrap();
    assert_eq!(first.msg, "User created Successfully");
    assert_eq!(users.len(), 1);
    assert_eq!(first.user_id, users[0].id);
    assert_eq!(users[0].name, "Ann");
    assert_eq!(users[0].email, "ann@x.com");
    assert_ne!(users[0].password, "pw1");
    assert_eq!(verify_password("pw1", &users[0].password), Some(true));
    let second = register_in(&mut users, &ann()).unwrap_err();
    assert_eq!(second, AuthError::EmailTaken);
    assert_eq!(second.status(), 400);
    assert_eq!(second.message(), "Email already exists");
    assert_eq!(users.len(), 1);
}

#[test]
fn registration_needs_all_three_fields() {
    for payload in [
        RegisterRequest { name: String::new(), ..ann() },
        RegisterRequest { email: String::new(), ..ann() },
        RegisterRequest { password: String::new(), ..ann() },
        RegisterRequest { name: String::new(), email: String::new(), password: String::new() },
    ] {
        assert!(!payload.is_complete());
        for existing in [Ok(None), Ok(Some(account("pw1"))), Err(StoreError)] {
            assert_eq!(check_registration(&payload, &existing), Err(AuthError::FieldsRequired));
            assert_eq!(register(&payload, &existing).unwrap_err(), AuthError::FieldsRequired);
        }
    }
    assert!(ann().is_complete());
    assert_eq!(AuthError::FieldsRequired.status(), 400);
    assert_eq!(AuthError::FieldsRequired.message(), "Name, email and password are required");
}

#[test]
fn registration_fails_where_the_lookup_fails() {
    assert_eq!(check_registration(&ann(), &Err(StoreError)), Err(AuthError::FindFailed));
    assert_eq!(register(&ann(), &Err(StoreError)).unwrap_err(), AuthError::FindFailed);
    assert_eq!(AuthError::FindFailed.status(), 500);
    assert_eq!(AuthError::FindFailed.message(), "Failed to find user");
    assert_eq!(check_registration(&ann(), &Ok(None)), Ok(()));
}

#[test]
fn account_is_made_of_the_registration_and_the_digest() {
    let id = ObjectId::from_bytes([5; 12]);
    let user = new_account(&ann(), id, Some("digest".to_string())).unwrap();
    assert_eq!(user.id, id);
    assert_eq!(user.name, "Ann");
    assert_eq!(user.email, "ann@x.com");
    assert_eq!(user.password, "digest");
    let failed = new_account(&ann(), id, None).unwrap_err();
    assert_eq!(failed, AuthError::HashFailed);
    assert_eq!(failed.status(), 500);
    assert_eq!(failed.message(), "Failed to hash password");
}

#[test]
fn answer_to_a_registration_follows_the_store() {
    let id = ObjectId::from_bytes([5; 12]);
    let done = registered(&Ok(Some(id))).unwrap();
    assert_eq!(done.user_id, id);
    assert_eq!(done.msg, "User created Successfully");
    let lost = registered(&Ok(None)).unwrap_err();
    assert_eq!(lost, AuthError::MissingUserId);
    assert_eq!(lost.status(), 500);
    assert_eq!(lost.message(), "Failed to get user id");
    let failed = registered(&Err(StoreError)).unwrap_err();
    assert_eq!(failed, AuthError::InsertFailed);
    assert_eq!(failed.status(), 500);
    assert_eq!(failed.message(), "Failed to insert user");
}

#[test]
fn login_with_a_wrong_password_is_unauthorized() {
    let found = Ok(Some(account("pw1")));
    let payload = LoginRequest { email: "ann@x.com".to_string(), password: "pw2".to_string() };
    let failed = login(&payload, &found, &secret()).unwrap_err();
    assert_eq!(failed, AuthError::InvalidPassword);
    assert_eq!(failed.status(), 401);
    assert_eq!(failed.kind(), ErrorKind::Authentication);
    assert_eq!(failed.message(), "Invalid password");
    assert_eq!(login_at(&payload, &found, &secret(), 1_700_000_000).unwrap_err(), failed);
}

#[test]
fn login_under_an_unknown_email_is_not_found() {
    let payload = LoginRequest { email: "bob@x.com".to_string(), password: "pw1".to_string() };
    let found = find_by_email(&[account("pw1")], &payload.email);
    let failed = login(&payload, &found, &secret()).unwrap_err();
    assert_eq!(failed, AuthError::EmailNotFound);
    assert_eq!(failed.status(), 404);
    assert_eq!(failed.kind(), ErrorKind::NotFound);
    assert_eq!(failed.message(), "Email not Found");
}

#[test]
fn login_needs_both_fields() {
    let found = Ok(Some(account("pw1")));
    for payload in [
        LoginRequest { email: String::new(), password: "pw1".to_string() },
        LoginRequest { email: "ann@x.com".to_string(), password: String::new() },
    ] {
        assert!(!payload.is_complete());
        let failed = login(&payload, &found, &secret()).unwrap_err();
        assert_eq!(failed, AuthError::CredentialsRequired);
        assert_eq!(failed.status(), 400);
        assert_eq!(failed.message(), "Email and password cannot be empty");
        assert_eq!(admit_login(&payload, &Err(StoreError)), Err(AuthError::CredentialsRequired));
    }
}

#[test]
fn login_fails_where_the_lookup_fails() {
    let payload = LoginRequest { email: "ann@x.com".to_string(), password: "pw1".to_string() };
    let failed = login(&payload, &Err(StoreError), &secret()).unwrap_err();
    assert_eq!(failed, AuthError::Internal);
    assert_eq!(failed.status(), 500);
    assert_eq!(failed.message(), "Internal Server Error");
}

#[test]
fn login_fails_where_the_digest_cannot_be_read() {
    let mut user = account("pw1");
    user.password = "pw1".to_string();
    let payload = LoginRequest { email: "ann@x.com".to_string(), password: "pw1".to_string() };
    let failed = login(&payload, &Ok(Some(user)), &secret()).unwrap_err();
    assert_eq!(failed, AuthError::VerifyFailed);
    assert_eq!(failed.status(), 500);
    assert_eq!(failed.message(), "Error in verifying the password");
}

#[test]
fn login_gives_a_token_for_the_account() {
    let user = account("pw1");
    let payload = LoginRequest { email: "ann@x.com".to_string(), password: "pw1".to_string() };
    let now = 1_700_000_000;
    let response = login_at(&payload, &Ok(Some(user.clone())), &secret(), now).unwrap();
    assert_eq!(response.msg, "User created Successfully");
    assert_eq!(response.user_id, user.id);
    let identity = verify_token(&response.token, &secret(), now).unwrap();
    assert_eq!(identity.subject_id, user.id);
    assert_eq!(identity.issued_at, now);
    assert_eq!(identity.expires_at, now + 86400);
    assert_eq!(admit_login(&payload, &Ok(Some(user))), Ok(response.user_id));
}

#[test]
fn login_now_gives_a_token_that_is_good_now() {
    let user = account("pw1");
    let payload = LoginRequest { email: "ann@x.com".to_string(), password: "pw1".to_string() };
    let before = chrono::Utc::now().timestamp() as u64;
    let response = login(&payload, &Ok(Some(user.clone())), &secret()).unwrap();
    let after = chrono::Utc::now().timestamp() as u64;
    let header = format!("Bearer {}", response.token);
    let identity = extract_identity(Some(&header), &secret(), after).unwrap();
    assert_eq!(identity.subject_id, user.id);
    assert!(before <= identity.issued_at && identity.issued_at <= after);
    assert_eq!(identity.expires_at, identity.issued_at + 86400);
}

#[test]
fn login_at_the_end_of_time_fails() {
    let user = account("pw1");
    let payload = LoginRequest { email: "ann@x.com".to_string(), password: "pw1".to_string() };
    let failed = login_at(&payload, &Ok(Some(user)), &secret(), u64::MAX - 10).unwrap_err();
    assert_eq!(failed, AuthError::Internal);
}

#[test]
fn registered_user_logs_in_with_the_password_and_with_no_other() {
    let mut users = Vec::new();
    let created = register_in(&mut users, &ann()).unwrap();
    let right = LoginRequest { email: "ann@x.com".to_string(), password: "pw1".to_string() };
    let found = find_by_email(&users, &right.email);
    let response = login_at(&right, &found, &secret(), 1_700_000_000).unwrap();
    assert_eq!(response.user_id, created.user_id);
    let wrong = LoginRequest { email: "ann@x.com".to_string(), password: "pw1 ".to_string() };
    assert_eq!(login_at(&wrong, &found, &secret(), 1_700_000_000).unwrap_err(), AuthError::InvalidPassword);
}

#[test]
fn auth_errors_have_their_class() {
    assert_eq!(AuthError::FieldsRequired.kind(), ErrorKind::Validation);
    assert_eq!(AuthError::EmailTaken.kind(), ErrorKind::Validation);
    assert_eq!(AuthError::FindFailed.kind(), ErrorKind::Internal);
    assert_eq!(AuthError::HashFailed.kind(), ErrorKind::Internal);
    assert_eq!(AuthError::InsertFailed.kind(), ErrorKind::Internal);
    assert_eq!(AuthError::MissingUserId.kind(), ErrorKind::Internal);
    assert_eq!(AuthError::CredentialsRequired.kind(), ErrorKind::Validation);
    assert_eq!(AuthError::EmailNotFound.kind(), ErrorKind::NotFound);
    assert_eq!(AuthError::InvalidPassword.kind(), ErrorKind::Authentication);
    assert_eq!(AuthError::VerifyFailed.kind(), ErrorKind::Internal);
    assert_eq!(AuthError::Internal.kind(), ErrorKind::Internal);
}

#[test]
fn requests_are_validated_before_anything_is_looked_up() {
    assert_eq!(validate_registration(&ann()), Ok(()));
    assert_eq!(
        validate_registration(&RegisterRequest { name: String::new(), ..ann() }),
        Err(AuthError::FieldsRequired)
    );
    let complete = LoginRequest { email: "ann@x.com".to_string(), password: "pw1".to_string() };
    assert_eq!(validate_login(&complete), Ok(()));
    let empty = LoginRequest { email: "ann@x.com".to_string(), password: String::new() };
    assert_eq!(validate_login(&empty), Err(AuthError::CredentialsRequired));
}

#[test]
fn registration_stores_a_digest_that_the_password_verifies_against() {
    let payload = RegisterRequest {
        name: "Bob".to_string(),
        email: "bob@x.com".to_string(),
        password: "a long passphrase, longer than seventy-two bytes, which bcrypt cuts short at its end".to_string(),
    };
    let user = register(&payload, &Ok(None)).unwrap();
    assert_ne!(user.password, payload.password);
    assert_eq!(verify_password(&payload.password, &user.password), Some(true));
    assert_eq!(verify_password("another", &user.password), Some(false));
    let login = LoginRequest { email: payload.email.clone(), password: payload.password.clone() };
    assert_eq!(admit_login(&login, &Ok(Some(user.clone()))), Ok(user.id));
}
