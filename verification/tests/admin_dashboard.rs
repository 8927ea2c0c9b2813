use zero_to_prod::auth::{login, validate, UserStore};
use zero_to_prod::render::{admin_dashboard, flash_html, AdminDashboardResponse};
use zero_to_prod::session::SessionStore;
use zero_to_prod::store::StoreTokenError;

const KEY: &[u8] = b"super-long-and-secret-random-key";

fn seeded_users() -> UserStore {
    let mut users = UserStore::new();
    users
        .add_user(7, b"alice".to_vec(), b"stored-hash-of-s3cret".to_vec())
        .unwrap();
    users
}

fn assert_is_redirect_to_login(response: &AdminDashboardResponse) {
    match response {
        AdminDashboardResponse::Redirect { location } => {
            assert_eq!(location, &b"/login".to_vec());
        }
        _ => panic!("expected a redirect to the login page"),
    }
}

#[test]
fn you_must_be_logged_in_to_access_the_admin_dashboard() {
    let users = seeded_users();
    let sessions = SessionStore::new();
    let response = admin_dashboard(&sessions, b"no-such-session", &users);
    assert_is_redirect_to_login(&response);
}

#[test]
fn logout_clears_session_state() {
    let users = seeded_users();
    let mut sessions = SessionStore::new();

    // Login.
    let outcome = validate(&users, b"alice", b"stored-hash-of-s3cret");
    let (redirect, _) = login(&mut sessions, b"sid-1".to_vec(), outcome, KEY);
    assert_eq!(redirect.location, b"/admin/dashboard".to_vec());

    // Follow the redirect.
    match admin_dashboard(&sessions, b"sid-1", &users) {
        AdminDashboardResponse::Page { body } => {
            assert_eq!(body, b"Welcome alice!".to_vec());
        }
        _ => panic!("an authenticated session must be served the dashboard"),
    }

    // Logout: the session is destroyed and a fresh anonymous session
    // carries the one-shot goodbye.
    sessions.destroy(b"sid-1");
    sessions.create(b"sid-2".to_vec(), None).unwrap();
    sessions
        .set_flash(b"sid-2", b"You have successfully logged out.".to_vec())
        .unwrap();

    // Follow the redirect: the login page shows the flash once.
    let flash = sessions.take_flash(b"sid-2").expect("the flash is pending");
    assert_eq!(
        flash_html(&flash),
        b"<p><i>You have successfully logged out.</i></p>".to_vec()
    );
    assert_eq!(sessions.take_flash(b"sid-2"), None);

    // The old session no longer opens the admin panel.
    let response = admin_dashboard(&sessions, b"sid-1", &users);
    assert_is_redirect_to_login(&response);
}

#[test]
fn flash_data_is_one_shot() {
    let mut sessions = SessionStore::new();
    sessions.create(b"sid".to_vec(), None).unwrap();
    sessions.set_flash(b"sid", b"once".to_vec()).unwrap();
    assert_eq!(sessions.take_flash(b"sid"), Some(b"once".to_vec()));
    assert_eq!(sessions.take_flash(b"sid"), None);
    assert_eq!(sessions.take_flash(b"sid"), None);
}

#[test]
fn sessions_are_isolated_from_each_other() {
    let mut sessions = SessionStore::new();
    sessions.create(b"sid-a".to_vec(), Some(1)).unwrap();
    sessions.create(b"sid-b".to_vec(), Some(2)).unwrap();
    sessions.set_flash(b"sid-a", b"only a".to_vec()).unwrap();

    assert_eq!(sessions.get(b"sid-a"), Some(1));
    assert_eq!(sessions.get(b"sid-b"), Some(2));
    assert_eq!(sessions.take_flash(b"sid-b"), None);
    assert_eq!(sessions.take_flash(b"sid-a"), Some(b"only a".to_vec()));

    sessions.destroy(b"sid-a");
    assert_eq!(sessions.get(b"sid-a"), None);
    assert_eq!(sessions.get(b"sid-b"), Some(2));
}

#[test]
fn a_session_id_cannot_be_taken_twice() {
    let mut sessions = SessionStore::new();
    sessions.create(b"sid".to_vec(), Some(1)).unwrap();
    assert!(sessions.create(b"sid".to_vec(), Some(2)).is_err());
    assert_eq!(sessions.get(b"sid"), Some(1));
}

#[test]
fn a_missing_dashboard_user_is_a_server_fault() {
    let users = seeded_users();
    let mut sessions = SessionStore::new();
    // A session referencing a user id the users table does not hold.
    sessions.create(b"sid".to_vec(), Some(999)).unwrap();
    assert!(matches!(
        admin_dashboard(&sessions, b"sid", &users),
        AdminDashboardResponse::ServerError
    ));
}

#[test]
fn store_token_error_describes_itself() {
    let err = StoreTokenError;
    assert_eq!(
        err.message(),
        "A database error was encountered while trying to store a subscription token."
    );
}
