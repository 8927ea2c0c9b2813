use zero_to_prod::auth::{login, validate, AuthError, LoginError, UserStore};
use zero_to_prod::codec::QueryParams;
use zero_to_prod::render::login_form;
use zero_to_prod::session::SessionStore;

const KEY: &[u8] = b"super-long-and-secret-random-key";

fn seeded_users() -> UserStore {
    let mut users = UserStore::new();
    users
        .add_user(7, b"alice".to_vec(), b"stored-hash-of-s3cret".to_vec())
        .unwrap();
    users
}

/// Split the location of a failed login into its message tag.
fn tag_of(location: &[u8]) -> Vec<u8> {
    let marker = b"&tag=";
    let pos = location
        .windows(marker.len())
        .position(|w| w == marker)
        .expect("the failure location carries a tag");
    location[pos + marker.len()..].to_vec()
}

#[test]
fn an_error_flash_message_is_set_on_failure() {
    let users = seeded_users();
    let mut sessions = SessionStore::new();

    let outcome = validate(&users, b"random-username", b"hash-of-random-password");
    assert_eq!(outcome, Err(AuthError::InvalidCredentials));

    let (redirect, error) = login(&mut sessions, b"sid-1".to_vec(), outcome, KEY);
    assert_eq!(redirect.status, 303);
    assert!(redirect.location.starts_with(b"/login?error="));
    assert_eq!(error, Some(LoginError::AuthError));

    // Following the redirect renders the authenticated message exactly once.
    let params = QueryParams {
        error: b"Authentication failed".to_vec(),
        tag: tag_of(&redirect.location),
    };
    let html = login_form(Some(params), KEY);
    assert_eq!(html, b"<p><i>Authentication failed</i></p>".to_vec());

    // Reloading the login page carries no query: nothing is rendered.
    let html = login_form(None, KEY);
    assert!(html.is_empty());
}

#[test]
fn redirect_to_admin_dashboard_after_login_success() {
    let users = seeded_users();
    let mut sessions = SessionStore::new();

    let outcome = validate(&users, b"alice", b"stored-hash-of-s3cret");
    assert_eq!(outcome, Ok(7));

    let (redirect, error) = login(&mut sessions, b"sid-1".to_vec(), outcome, KEY);
    assert_eq!(redirect.status, 303);
    assert_eq!(redirect.location, b"/admin/dashboard".to_vec());
    assert!(error.is_none());
    assert_eq!(sessions.get(b"sid-1"), Some(7));
}

#[test]
fn unknown_user_and_wrong_password_are_indistinguishable() {
    let users = seeded_users();
    let unknown = validate(&users, b"mallory", b"stored-hash-of-s3cret");
    let wrong_password = validate(&users, b"alice", b"hash-of-wrong");
    assert_eq!(unknown, Err(AuthError::InvalidCredentials));
    assert_eq!(unknown, wrong_password);
}

#[test]
fn login_failure_stores_no_session() {
    let users = seeded_users();
    let mut sessions = SessionStore::new();
    let outcome = validate(&users, b"alice", b"hash-of-wrong");
    let (_, error) = login(&mut sessions, b"sid-1".to_vec(), outcome, KEY);
    assert_eq!(error, Some(LoginError::AuthError));
    assert_eq!(sessions.get(b"sid-1"), None);
}

#[test]
fn a_tampered_flash_message_renders_nothing() {
    let users = seeded_users();
    let mut sessions = SessionStore::new();
    let outcome = validate(&users, b"alice", b"hash-of-wrong");
    let (redirect, _) = login(&mut sessions, b"sid-1".to_vec(), outcome, KEY);

    // Same tag, altered message.
    let params = QueryParams {
        error: b"You are admin now".to_vec(),
        tag: tag_of(&redirect.location),
    };
    assert!(login_form(Some(params), KEY).is_empty());

    // Same message, altered tag.
    let mut tag = tag_of(&redirect.location);
    tag[3] = if tag[3] == b'0' { b'1' } else { b'0' };
    let params = QueryParams { error: b"Authentication failed".to_vec(), tag };
    assert!(login_form(Some(params), KEY).is_empty());
}

#[test]
fn login_error_messages_and_status() {
    assert_eq!(LoginError::AuthError.message(), b"Authentication failed".to_vec());
    assert_eq!(
        LoginError::UnexpectedError.message(),
        b"Something went wrong".to_vec()
    );
    assert_eq!(LoginError::AuthError.status_code(), 303);
    assert_eq!(LoginError::UnexpectedError.status_code(), 303);
}

#[test]
fn flash_messages_escape_html() {
    let key: &[u8] = b"k";
    let msg = b"<script>&'\"";
    let tag = zero_to_prod::codec::sign(msg, key);
    let params = QueryParams { error: msg.to_vec(), tag };
    let html = login_form(Some(params), key);
    assert_eq!(
        html,
        b"<p><i>&lt;script&gt;&amp;&#x27;&quot;</i></p>".to_vec()
    );
}
