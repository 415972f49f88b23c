use chatroom::auth::{authenticate, keep_if_verified, Credentials, User};

/// Argon2 hash of the password "password" (from the password-auth test suite).
const PASSWORD_HASH: &str =
    "$argon2i$v=19$m=65536,t=1,p=1$c29tZXNhbHQAAAAAAAAAAA$+r0d29hqEB0yasKr55ZgICsQGSkl0v0kgwhd+U3wyRo";

fn stored_alice() -> User {
    User::from_stored("alice".to_string(), PASSWORD_HASH.to_string())
}

fn credentials(username: &str, password: &str) -> Credentials {
    Credentials { username: username.to_string(), password: password.to_string() }
}

#[test]
fn stored_user_keeps_name_and_hash() {
    let user = stored_alice();
    assert_eq!(user.username, "alice");
    assert_eq!(user.password(), PASSWORD_HASH);
    assert_eq!(user.id(), "alice");
    assert_eq!(user.session_auth_hash(), PASSWORD_HASH.as_bytes());
}

#[test]
fn authenticate_accepts_the_right_password() {
    let found = authenticate(Some(stored_alice()), &credentials("alice", "password"));
    let user = found.expect("the password verifies");
    assert_eq!(user.username, "alice");
    assert_eq!(user.password(), PASSWORD_HASH);
}

#[test]
fn authenticate_rejects_a_wrong_password() {
    assert!(authenticate(Some(stored_alice()), &credentials("alice", "bogus")).is_none());
    assert!(authenticate(Some(stored_alice()), &credentials("alice", "")).is_none());
}

#[test]
fn authenticate_without_account_yields_nothing() {
    assert!(authenticate(None, &credentials("alice", "password")).is_none());
}

#[test]
fn authenticate_rejects_an_unparsable_hash() {
    let user = User::from_stored("bob".to_string(), "password".to_string());
    assert!(authenticate(Some(user), &credentials("bob", "password")).is_none());
}

#[test]
fn keep_if_verified_keeps_only_verified_accounts() {
    assert_eq!(keep_if_verified(Some(stored_alice()), true).map(|u| u.username), Some("alice".to_string()));
    assert!(keep_if_verified(Some(stored_alice()), false).is_none());
    assert!(keep_if_verified(None, true).is_none());
}

#[test]
fn new_user_is_hashed_and_logs_in_with_its_password() {
    let user = User::new("carol", "hunter2");
    assert_eq!(user.username, "carol");
    assert_eq!(user.id(), "carol");
    // The password is never stored as such.
    assert_ne!(user.password(), "hunter2");
    assert!(user.password().starts_with("$argon2id$v=19$m=19456,t=2,p=1$"));
    assert!(user.password().len() > "$argon2id$v=19$m=19456,t=2,p=1$".len());
    assert_eq!(user.session_auth_hash(), user.password().as_bytes());
    let hash = user.password().to_string();
    let again = authenticate(Some(user), &credentials("carol", "hunter2")).expect("own password");
    assert_eq!(again.password(), hash);
    let user = User::from_stored("carol".to_string(), hash);
    assert!(authenticate(Some(user), &credentials("carol", "hunter3")).is_none());
}
