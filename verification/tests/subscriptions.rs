use zero_to_prod::domain::{NewSubscriber, SubscriberEmail, SubscriberName};
use zero_to_prod::store::SubscriberStore;
use zero_to_prod::token::generate_subscription_token;
use zero_to_prod::workflow::{subscribe, subscribe_error_status, dispatch_http_status, FormData, SubscribeError};

#[test]
fn subscribe_commits_one_subscriber_and_one_token() {
    let mut store = SubscriberStore::new();
    let form = FormData {
        email: b"ursula_le_guin@gmail.com".to_vec(),
        name: b"le guin".to_vec(),
    };
    let outcome = subscribe(&mut store, form, b"http://127.0.0.1");
    let pending = outcome.expect("a valid submission must commit");
    assert_eq!(store.subscriber_count(), 1);
    assert_eq!(store.token_count(), 1);
    assert_eq!(store.token_owner(&pending.token), Some(pending.subscriber_id));
    assert!(store.contains_subscriber_id(pending.subscriber_id));
}

#[test]
fn subscribe_embeds_the_token_in_both_bodies() {
    let mut store = SubscriberStore::new();
    let form = FormData {
        email: b"ursula_le_guin@gmail.com".to_vec(),
        name: b"le guin".to_vec(),
    };
    let pending = subscribe(&mut store, form, b"http://127.0.0.1").unwrap();
    let mut link = b"http://127.0.0.1/subscriptions/confirm?subscription_token=".to_vec();
    link.extend_from_slice(&pending.token);
    let mut html = b"Welcome to our newsletter!<br />Click <a href=\"".to_vec();
    html.extend_from_slice(&link);
    html.extend_from_slice(b"\">here</a> to confirm your subscription.");
    assert_eq!(pending.email.html_body, html);
    let mut text = b"Welcome to our newsletter!\nVisit ".to_vec();
    text.extend_from_slice(&link);
    text.extend_from_slice(b" to confirm your subscription.");
    assert_eq!(pending.email.text_body, text);
    assert_eq!(pending.email.recipient, b"ursula_le_guin@gmail.com".to_vec());
    assert_eq!(pending.email.subject, b"Welcome!".to_vec());
}

#[test]
fn subscribe_rejects_invalid_input_without_writing() {
    let mut store = SubscriberStore::new();
    let no_at = subscribe(
        &mut store,
        FormData { email: b"not-an-email".to_vec(), name: b"le guin".to_vec() },
        b"b",
    );
    assert_eq!(no_at, Err(SubscribeError::InvalidInput));
    let empty_name = subscribe(
        &mut store,
        FormData { email: b"ursula@gmail.com".to_vec(), name: b"".to_vec() },
        b"b",
    );
    assert_eq!(empty_name, Err(SubscribeError::InvalidInput));
    let blank_name = subscribe(
        &mut store,
        FormData { email: b"ursula@gmail.com".to_vec(), name: b"   ".to_vec() },
        b"b",
    );
    assert_eq!(blank_name, Err(SubscribeError::InvalidInput));
    assert_eq!(store.subscriber_count(), 0);
    assert_eq!(store.token_count(), 0);
}

#[test]
fn subscribe_error_statuses_match_the_http_boundary() {
    assert_eq!(subscribe_error_status(&SubscribeError::InvalidInput), 400);
    assert_eq!(subscribe_error_status(&SubscribeError::StorageFailure), 500);
    assert_eq!(dispatch_http_status(true), 200);
    assert_eq!(dispatch_http_status(false), 500);
}

#[test]
fn persist_is_atomic_when_the_token_write_cannot_proceed() {
    let mut store = SubscriberStore::new();
    let first = NewSubscriber::parse(b"a@b.io".to_vec(), b"Ann".to_vec()).unwrap();
    let token = generate_subscription_token();
    store.persist(&first, 1, 0, &token).unwrap();
    assert_eq!(store.subscriber_count(), 1);

    // The same token cannot be committed again: the transaction fails as a
    // whole and the second subscriber row never becomes visible.
    let second = NewSubscriber::parse(b"c@d.io".to_vec(), b"Cey".to_vec()).unwrap();
    assert!(store.persist(&second, 2, 0, &token).is_err());
    assert_eq!(store.subscriber_count(), 1);
    assert_eq!(store.token_count(), 1);
    assert!(!store.contains_subscriber_id(2));
}

#[test]
fn persist_rejects_a_duplicate_subscriber_id() {
    let mut store = SubscriberStore::new();
    let first = NewSubscriber::parse(b"a@b.io".to_vec(), b"Ann".to_vec()).unwrap();
    let t1 = generate_subscription_token();
    store.persist(&first, 1, 0, &t1).unwrap();
    let second = NewSubscriber::parse(b"c@d.io".to_vec(), b"Cey".to_vec()).unwrap();
    let t2 = generate_subscription_token();
    assert!(store.persist(&second, 1, 0, &t2).is_err());
    assert_eq!(store.subscriber_count(), 1);
    assert_eq!(store.token_count(), 1);
}

#[test]
fn store_subscription_token_needs_its_subscriber() {
    let mut store = SubscriberStore::new();
    let token = generate_subscription_token();
    assert!(store.store_subscription_token(42, &token).is_err());
    assert_eq!(store.token_count(), 0);
}

#[test]
fn tokens_are_twenty_five_alphanumeric_bytes() {
    let token = generate_subscription_token();
    assert_eq!(token.len(), 25);
    assert!(token.iter().all(|b| b.is_ascii_alphanumeric()));
    // Two independent draws of a high-entropy token never coincide.
    assert_ne!(token, generate_subscription_token());
}

#[test]
fn name_validation_edges() {
    assert!(SubscriberName::parse(b"le guin".to_vec()).is_ok());
    assert!(SubscriberName::parse(vec![b'a'; 256]).is_ok());
    assert!(SubscriberName::parse(vec![b'a'; 257]).is_err());
    assert!(SubscriberName::parse(b"".to_vec()).is_err());
    assert!(SubscriberName::parse(b" \t ".to_vec()).is_err());
    for bad in [b'/', b'(', b')', b'"', b'<', b'>', b'\\', b'{', b'}'] {
        assert!(SubscriberName::parse(vec![b'a', bad]).is_err());
    }
}

#[test]
fn email_validation_edges() {
    assert!(SubscriberEmail::parse(b"ursula@domain.com".to_vec()).is_ok());
    assert!(SubscriberEmail::parse(b"".to_vec()).is_err());
    assert!(SubscriberEmail::parse(b"ursuladomain.com".to_vec()).is_err());
    assert!(SubscriberEmail::parse(b"@domain.com".to_vec()).is_err());
    assert!(SubscriberEmail::parse(b"ursula@".to_vec()).is_err());
    assert!(SubscriberEmail::parse(b"u@a@b".to_vec()).is_err());
    assert!(SubscriberEmail::parse(b"ursula @domain.com".to_vec()).is_err());
}
