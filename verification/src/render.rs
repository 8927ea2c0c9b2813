//! What the core contributes to rendered pages: the verified flash fragment
//! of the login page, and the dashboard answer behind the session check.

use crate::auth::{username_of, UserStore};
use crate::codec::{verify_spec, QueryParams};
use crate::session::{session_user, SessionStore};
use crate::text::{
    amp_entity, amp_entity_text, apos_entity, apos_entity_text, flash_close, flash_close_text,
    flash_open, flash_open_text, gt_entity, gt_entity_text, login_path, login_path_text,
    lt_entity, lt_entity_text, quot_entity, quot_entity_text, welcome_prefix,
    welcome_prefix_text, welcome_suffix, welcome_suffix_text,
};
use vstd::prelude::*;

verus! {

/// Spec: what one byte becomes in minimally escaped HTML.
pub open spec fn escaped_byte(b: u8) -> Seq<u8> {
    if b == 38 {
        amp_entity_text()
    } else if b == 60 {
        lt_entity_text()
    } else if b == 62 {
        gt_entity_text()
    } else if b == 34 {
        quot_entity_text()
    } else if b == 39 {
        apos_entity_text()
    } else {
        seq![b]
    }
}

/// Spec: minimal HTML escaping of a byte string.
pub open spec fn html_escaped(s: Seq<u8>) -> Seq<u8>
    decreases s.len(),
{
    if s.len() == 0 {
        Seq::empty()
    } else {
        html_escaped(s.drop_last()) + escaped_byte(s.last())
    }
}

/// Escape the five HTML-significant bytes of a message.
pub fn html_escape(s: &[u8]) -> (r: Vec<u8>)
    ensures
        r@ == html_escaped(s@),
{
    let mut out: Vec<u8> = Vec::new();
    let mut i: usize = 0;
    while i < s.len()
        invariant
            i <= s@.len(),
            out@ == html_escaped(s@.subrange(0, i as int)),
        decreases s@.len() - i,
    {
        let b = s[i];
        if b == 38 {
            let mut e = amp_entity();
            out.append(&mut e);
        } else if b == 60 {
            let mut e = lt_entity();
            out.append(&mut e);
        } else if b == 62 {
            let mut e = gt_entity();
            out.append(&mut e);
        } else if b == 34 {
            let mut e = quot_entity();
            out.append(&mut e);
        } else if b == 39 {
            let mut e = apos_entity();
            out.append(&mut e);
        } else {
            out.push(b);
        }
        proof {
            assert(s@.subrange(0, i + 1 as int).drop_last() =~= s@.subrange(0, i as int));
            assert(s@.subrange(0, i + 1 as int).last() == s@[i as int]);
            assert(out@ =~= html_escaped(s@.subrange(0, i + 1 as int)));
        }
        i = i + 1;
    }
    proof {
        assert(s@.subrange(0, s@.len() as int) =~= s@);
    }
    out
}

/// Spec: the flash fragment of the login page: the escaped message in an
/// emphasis block, or nothing.
pub open spec fn login_flash_html(message: Option<Seq<u8>>) -> Seq<u8> {
    match message {
        None => Seq::empty(),
        Some(m) => flash_open_text() + html_escaped(m) + flash_close_text(),
    }
}

/// Render a one-shot message as the login page's flash fragment.
pub fn flash_html(message: &[u8]) -> (r: Vec<u8>)
    ensures
        r@ == login_flash_html(Some(message@)),
{
    let mut out = flash_open();
    let mut esc = html_escape(message);
    out.append(&mut esc);
    let mut close = flash_close();
    out.append(&mut close);
    out
}

/// Render the one-shot message of the login page: only a message whose tag
/// verifies under the server secret is shown; a tampered or absent message
/// silently renders nothing.
pub fn login_form(query: Option<QueryParams>, secret: &[u8]) -> (r: Vec<u8>)
    ensures
        r@ == login_flash_html(
            match query {
                None => None::<Seq<u8>>,
                Some(q) => if verify_spec(q.error@, q.tag@, secret@) {
                    Some(q.error@)
                } else {
                    None
                },
            },
        ),
{
    match query {
        None => Vec::new(),
        Some(q) => {
            match q.verify(secret) {
                Ok(msg) => flash_html(msg.as_slice()),
                Err(_) => Vec::new(),
            }
        },
    }
}

/// The dashboard's answer: a page for an authenticated session, a redirect
/// to the login page otherwise.
pub enum AdminDashboardResponse {
    Redirect { location: Vec<u8> },
    Page { body: Vec<u8> },
    ServerError,
}

/// Spec: the greeting of the dashboard page.
pub open spec fn welcome_page_text(name: Seq<u8>) -> Seq<u8> {
    welcome_prefix_text() + name + welcome_suffix_text()
}

/// Serve the admin dashboard behind the hard access-control rule: a session
/// that stands for no authenticated principal is always redirected to the
/// login page, never served content.
pub fn admin_dashboard(sessions: &SessionStore, session_id: &[u8], users: &UserStore) -> (r:
    AdminDashboardResponse)
    requires
        sessions.wf(),
        users.wf(),
    ensures
        session_user(sessions.rows(), session_id@) is None ==> (r matches
            AdminDashboardResponse::Redirect { location } && location@ == login_path_text()),
        session_user(sessions.rows(), session_id@) matches Some(uid) ==> (match username_of(
            users.rows(),
            uid,
        ) {
            Some(name) => r matches AdminDashboardResponse::Page { body } && body@
                == welcome_page_text(name),
            None => r is ServerError,
        }),
{
    match sessions.get(session_id) {
        None => AdminDashboardResponse::Redirect { location: login_path() },
        Some(uid) => {
            match users.get_username(uid) {
                None => AdminDashboardResponse::ServerError,
                Some(mut name) => {
                    let mut body = welcome_prefix();
                    body.append(&mut name);
                    let mut suffix = welcome_suffix();
                    body.append(&mut suffix);
                    AdminDashboardResponse::Page { body }
                },
            }
        },
    }
}

} // verus!
