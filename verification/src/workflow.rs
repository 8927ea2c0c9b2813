//! Confirmation workflow: validate, persist atomically, and only then hand
//! the caller the material to dispatch. A dispatch can only follow a commit,
//! because the mail only exists inside the value a successful commit
//! returns; a dispatch failure is reported but never rolls the commit back.

use crate::domain::{valid_email, valid_name, NewSubscriber};
use crate::store::{
    new_subscriber_id, now_timestamp, SubscriberRow, SubscriberStore, SubscriptionStatus,
    TokenRow,
};
use crate::text::{
    confirm_path, confirm_path_text, email_html_close, email_html_close_text, email_html_open,
    email_html_open_text, email_subject, email_subject_text, email_text_close,
    email_text_close_text, email_text_open, email_text_open_text,
};
use crate::token::{generate_subscription_token, is_alphanumeric_byte};
use vstd::prelude::*;

verus! {

/// A raw subscription submission, exactly as the form fields arrived.
#[derive(Debug, PartialEq, Eq)]
pub struct FormData {
    pub email: Vec<u8>,
    pub name: Vec<u8>,
}

/// Why a subscription attempt failed: the client's input was rejected, or
/// persistence failed; the caller maps them to distinct HTTP answers.
#[derive(Clone, Copy, Debug, PartialEq, Eq, Structural)]
pub enum SubscribeError {
    InvalidInput,
    StorageFailure,
}

/// A confirmation mail, ready for the external mailer.
#[derive(Debug, PartialEq, Eq)]
pub struct EmailMessage {
    pub recipient: Vec<u8>,
    pub subject: Vec<u8>,
    pub html_body: Vec<u8>,
    pub text_body: Vec<u8>,
}

/// What a committed subscription hands to the dispatcher. A value of this
/// type exists only after both rows are durable.
#[derive(Debug, PartialEq, Eq)]
pub struct PendingDispatch {
    pub subscriber_id: u128,
    pub subscribed_at: i64,
    pub token: Vec<u8>,
    pub email: EmailMessage,
}

/// Spec: the confirmation link embedding the token.
pub open spec fn confirmation_link_text(base_url: Seq<u8>, token: Seq<u8>) -> Seq<u8> {
    base_url + confirm_path_text() + token
}

/// Spec: the HTML body of the confirmation mail.
pub open spec fn html_body_text(link: Seq<u8>) -> Seq<u8> {
    email_html_open_text() + link + email_html_close_text()
}

/// Spec: the plain-text body of the confirmation mail.
pub open spec fn text_body_text(link: Seq<u8>) -> Seq<u8> {
    email_text_open_text() + link + email_text_close_text()
}

/// Build the confirmation mail for one subscriber: both bodies embed the
/// confirmation link, which embeds the token, exactly once.
pub fn confirmation_email(recipient: &[u8], base_url: &[u8], token: &[u8]) -> (r: EmailMessage)
    ensures
        r.recipient@ == recipient@,
        r.subject@ == email_subject_text(),
        r.html_body@ == html_body_text(confirmation_link_text(base_url@, token@)),
        r.text_body@ == text_body_text(confirmation_link_text(base_url@, token@)),
{
    let mut link: Vec<u8> = Vec::new();
    let mut base: Vec<u8> = Vec::new();
    base.extend_from_slice(base_url);
    link.append(&mut base);
    let mut path = confirm_path();
    link.append(&mut path);
    let mut tok: Vec<u8> = Vec::new();
    tok.extend_from_slice(token);
    link.append(&mut tok);
    proof {
        assert(link@ =~= confirmation_link_text(base_url@, token@));
    }
    let mut html_body = email_html_open();
    let mut l1 = link.clone();
    html_body.append(&mut l1);
    let mut hc = email_html_close();
    html_body.append(&mut hc);
    let mut text_body = email_text_open();
    let mut l2 = link;
    text_body.append(&mut l2);
    let mut tc = email_text_close();
    text_body.append(&mut tc);
    let mut recipient_vec: Vec<u8> = Vec::new();
    recipient_vec.extend_from_slice(recipient);
    EmailMessage {
        recipient: recipient_vec,
        subject: email_subject(),
        html_body,
        text_body,
    }
}

/// The subscription workflow up to its commit point, strictly ordered:
/// validate the submission, then persist the subscriber row and its token
/// row in one atomic transaction, and only on commit return the dispatch
/// material. On every failure the store is exactly as it was, so no mail
/// can ever be built for an uncommitted token.
pub fn subscribe(store: &mut SubscriberStore, form: FormData, base_url: &[u8]) -> (r: Result<
    PendingDispatch,
    SubscribeError,
>)
    requires
        old(store).wf(),
    ensures
        final(store).wf(),
        r == Err::<PendingDispatch, SubscribeError>(SubscribeError::InvalidInput) <==> !(
        valid_email(form.email@) && valid_name(form.name@)),
        r is Err ==> *final(store) == *old(store),
        r matches Ok(pd) ==> ({
            &&& pd.token@.len() == 25
            &&& forall|i: int| 0 <= i < pd.token@.len() ==> is_alphanumeric_byte(
                #[trigger] pd.token@[i],
            )
            &&& final(store).subs() == old(store).subs().push(
                SubscriberRow {
                    id: pd.subscriber_id,
                    email: form.email@,
                    name: form.name@,
                    subscribed_at: pd.subscribed_at,
                    status: SubscriptionStatus::PendingConfirmation,
                },
            )
            &&& final(store).toks() == old(store).toks().push(
                TokenRow { token: pd.token@, subscriber_id: pd.subscriber_id },
            )
            &&& pd.email.recipient@ == form.email@
            &&& pd.email.subject@ == email_subject_text()
            &&& pd.email.html_body@ == html_body_text(
                confirmation_link_text(base_url@, pd.token@),
            )
            &&& pd.email.text_body@ == text_body_text(
                confirmation_link_text(base_url@, pd.token@),
            )
        }),
{
    let subscriber = match NewSubscriber::parse(form.email, form.name) {
        Ok(s) => s,
        Err(_) => {
            return Err(SubscribeError::InvalidInput);
        },
    };
    let id = new_subscriber_id();
    let subscribed_at = now_timestamp();
    let token = generate_subscription_token();
    match store.persist(&subscriber, id, subscribed_at, &token) {
        Ok(()) => {},
        Err(_) => {
            return Err(SubscribeError::StorageFailure);
        },
    }
    let email_message = confirmation_email(
        subscriber.email.as_bytes().as_slice(),
        base_url,
        token.as_slice(),
    );
    Ok(PendingDispatch { subscriber_id: id, subscribed_at, token, email: email_message })
}

/// The HTTP status a failed subscription maps to: client fault for invalid
/// input, server fault for a persistence failure.
pub fn subscribe_error_status(e: &SubscribeError) -> (r: u16)
    ensures
        r == (match e {
            SubscribeError::InvalidInput => 400u16,
            SubscribeError::StorageFailure => 500u16,
        }),
{
    match e {
        SubscribeError::InvalidInput => 400,
        SubscribeError::StorageFailure => 500,
    }
}

/// The HTTP status of the workflow after its dispatch step: success only
/// when the mail went out; a dispatch failure is a server fault, reported
/// without touching the committed rows — this function has no access to the
/// store at all.
pub fn dispatch_http_status(dispatch_ok: bool) -> (r: u16)
    ensures
        r == (if dispatch_ok {
            200u16
        } else {
            500u16
        }),
{
    if dispatch_ok {
        200
    } else {
        500
    }
}

} // verus!
