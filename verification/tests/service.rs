//! End-to-end scenarios over the boundary operations: register, login,
//! authenticate, and the post operations.

use authpost::errors::{AuthError, LoginError, RegisterError, UserPostError};
use authpost::post_store::PostDb;
use authpost::service::{
    authenticate, create_post, get_post, list_posts, login, register, register_hashed,
    verify_credentials,
};
use authpost::settings::EnvSettings;
use authpost::user_store::UserDbService;

fn test_settings() -> EnvSettings {
    EnvSettings::from_values(
        "collections".to_string(),
        "test-signing-secret".to_string(),
        "60",
    )
    .expect("valid settings")
}

#[test]
fn full_scenario() {
    let mut store = UserDbService::new();
    let mut posts = PostDb::new();
    let settings = test_settings();

    let u1 = register(&mut store, "a@x.com", "pw1", "Alice").expect("register succeeds");
    assert_eq!(u1.len(), 36);

    let (t1, uuid) = login(&store, &settings, "a@x.com", "pw1").expect("login succeeds");
    assert_eq!(uuid, u1);

    let header = format!("Bearer {}", t1);
    let identity = authenticate(Some(header.as_str()), &settings).expect("token validates");
    assert_eq!(identity.uuid(), &u1);
    assert_eq!(identity.authentication_token(), &header);

    let p1 = create_post(&mut posts, &identity, "hi", "world").expect("post stored");
    let found = get_post(&posts, &identity, &p1).expect("post found");
    assert_eq!(found.title, "hi");
    assert_eq!(found.body, "world");
    assert_eq!(found.uuid, p1);

    let wrong = login(&store, &settings, "a@x.com", "wrong");
    assert_eq!(wrong, Err(LoginError::InvalidEmailOrPassword));
}

#[test]
fn register_returns_fresh_identifiers() {
    let mut store = UserDbService::new();
    let a = register(&mut store, "a@x.com", "pw1", "Alice").expect("first register");
    let b = register(&mut store, "b@x.com", "pw2", "Bob").expect("second register");
    assert_eq!(a.len(), 36);
    assert_eq!(b.len(), 36);
    assert_ne!(a, b);
}

#[test]
fn register_conflicts() {
    let mut store = UserDbService::new();
    register(&mut store, "a@x.com", "pw1", "Alice").expect("first register");

    let same_email = register(&mut store, "a@x.com", "pw2", "Alina");
    assert_eq!(same_email, Err(RegisterError::EmailAlreadyExist));

    let same_display_name = register(&mut store, "b@x.com", "pw2", "Alice");
    assert_eq!(same_display_name, Err(RegisterError::DisplayNameAlreadyExist));
}

#[test]
fn register_hashed_exact_outcomes() {
    let mut store = UserDbService::new();
    assert!(register_hashed(&mut store, "a@x.com", "h1", "Alice", "id-1").is_ok());
    assert_eq!(
        register_hashed(&mut store, "a@x.com", "h2", "Alina", "id-2"),
        Err(RegisterError::EmailAlreadyExist)
    );
    assert_eq!(
        register_hashed(&mut store, "b@x.com", "h2", "Alice", "id-2"),
        Err(RegisterError::DisplayNameAlreadyExist)
    );
    assert_eq!(
        register_hashed(&mut store, "b@x.com", "h2", "Bob", "id-1"),
        Err(RegisterError::GenericError)
    );
    assert!(register_hashed(&mut store, "b@x.com", "h2", "Bob", "id-2").is_ok());
}

#[test]
fn login_unknown_email_and_wrong_password_are_indistinguishable() {
    let mut store = UserDbService::new();
    let settings = test_settings();
    register(&mut store, "a@x.com", "pw1", "Alice").expect("register");

    let unknown = login(&store, &settings, "nobody@x.com", "pw1");
    let wrong = login(&store, &settings, "a@x.com", "pw2");
    assert_eq!(unknown, Err(LoginError::InvalidEmailOrPassword));
    assert_eq!(wrong, Err(LoginError::InvalidEmailOrPassword));
    assert_eq!(unknown, wrong);
}

#[test]
fn verify_credentials_checks_the_hash() {
    let mut store = UserDbService::new();
    register(&mut store, "a@x.com", "pw1", "Alice").expect("register");

    let user = verify_credentials(&store, "a@x.com", "pw1").expect("correct password");
    assert_eq!(user.email, "a@x.com");
    assert_eq!(user.display_name, "Alice");
    assert!(verify_credentials(&store, "a@x.com", "pw2").is_none());
    assert!(verify_credentials(&store, "b@x.com", "pw1").is_none());
}

#[test]
fn stored_password_is_a_hash_not_the_plaintext() {
    let mut store = UserDbService::new();
    register(&mut store, "a@x.com", "pw1", "Alice").expect("register");
    let stored = store
        .get_password_from_email("a@x.com")
        .expect("user exists");
    assert_ne!(stored, "pw1");
    assert_eq!(stored.len(), 60);
}

#[test]
fn list_posts_before_and_after_first_post() {
    let mut store = UserDbService::new();
    let mut posts = PostDb::new();
    let settings = test_settings();

    register(&mut store, "a@x.com", "pw1", "Alice").expect("register");
    let (t1, _) = login(&store, &settings, "a@x.com", "pw1").expect("login");
    let header = format!("Bearer {}", t1);
    let identity = authenticate(Some(header.as_str()), &settings).expect("authenticate");

    let empty = list_posts(&posts, &identity);
    assert_eq!(empty.unwrap_err(), UserPostError::PostNotFound);

    let p1 = create_post(&mut posts, &identity, "hi", "world").expect("post stored");
    let listed = list_posts(&posts, &identity).expect("partition exists");
    assert_eq!(listed.len(), 1);
    assert_eq!(listed[0].uuid, p1);
    assert_eq!(listed[0].title, "hi");
    assert_eq!(listed[0].body, "world");

    let missing = get_post(&posts, &identity, "no-such-post");
    assert_eq!(missing.unwrap_err(), UserPostError::PostNotFound);
}

#[test]
fn authenticate_rejects_what_no_login_issued() {
    let settings = test_settings();
    assert_eq!(
        authenticate(None, &settings).unwrap_err(),
        AuthError::NoAuthenticationToken
    );
    assert_eq!(
        authenticate(Some(""), &settings).unwrap_err(),
        AuthError::InvalidAuthenticationToken
    );
    assert_eq!(
        authenticate(Some("Bearer"), &settings).unwrap_err(),
        AuthError::InvalidAuthenticationToken
    );
    assert_eq!(
        authenticate(Some("Bearer not.a.token"), &settings).unwrap_err(),
        AuthError::InvalidAuthenticationToken
    );
}
