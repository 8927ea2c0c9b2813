//! Subscriber store model: a subscriber row and its confirmation-token row
//! commit together or not at all, ids and tokens stay unique, and every
//! token row references an existing subscriber. Also holds the users table
//! the credential validator reads.

use crate::domain::NewSubscriber;
use vstd::prelude::*;

verus! {

/// A persistence fault; surfaced as a generic server failure, never as a
/// validation error.
#[derive(Debug, PartialEq, Eq, Structural)]
pub struct StorageError;

/// A persistence fault while storing a confirmation token.
#[derive(Debug, PartialEq, Eq, Structural)]
pub struct StoreTokenError;

impl StoreTokenError {
    /// The user-facing description of this fault.
    pub fn message(&self) -> (r: &'static str)
        ensures
            r@ == "A database error was encountered while trying to store a subscription token."@,
    {
        "A database error was encountered while trying to store a subscription token."
    }
}

/// Subscription lifecycle: confirmed only through a token redemption.
#[derive(Clone, Copy, Debug, PartialEq, Eq, Structural)]
pub enum SubscriptionStatus {
    PendingConfirmation,
    Confirmed,
}

/// A stored subscriber row.
pub struct SubscriberRecord {
    pub id: u128,
    pub email: Vec<u8>,
    pub name: Vec<u8>,
    pub subscribed_at: i64,
    pub status: SubscriptionStatus,
}

/// Spec-level image of a subscriber row.
pub ghost struct SubscriberRow {
    pub id: u128,
    pub email: Seq<u8>,
    pub name: Seq<u8>,
    pub subscribed_at: i64,
    pub status: SubscriptionStatus,
}

impl SubscriberRecord {
    /// Spec: the row this record stands for.
    pub open spec fn view(&self) -> SubscriberRow {
        SubscriberRow {
            id: self.id,
            email: self.email@,
            name: self.name@,
            subscribed_at: self.subscribed_at,
            status: self.status,
        }
    }
}

/// A stored confirmation-token row; the token bytes are the primary key.
pub struct TokenRecord {
    pub token: Vec<u8>,
    pub subscriber_id: u128,
}

/// Spec-level image of a token row.
pub ghost struct TokenRow {
    pub token: Seq<u8>,
    pub subscriber_id: u128,
}

impl TokenRecord {
    /// Spec: the row this record stands for.
    pub open spec fn view(&self) -> TokenRow {
        TokenRow { token: self.token@, subscriber_id: self.subscriber_id }
    }
}

/// Spec: some subscriber row carries this id.
pub open spec fn has_subscriber_id(subs: Seq<SubscriberRow>, id: u128) -> bool {
    exists|i: int| 0 <= i < subs.len() && (#[trigger] subs[i]).id == id
}

/// Spec: some token row carries these token bytes.
pub open spec fn has_token(toks: Seq<TokenRow>, token: Seq<u8>) -> bool {
    exists|i: int| 0 <= i < toks.len() && (#[trigger] toks[i]).token == token
}

/// Spec: store well-formedness — unique subscriber ids, unique tokens, and
/// no token row without its subscriber row.
pub open spec fn wf_rows(subs: Seq<SubscriberRow>, toks: Seq<TokenRow>) -> bool {
    &&& forall|i: int, j: int|
        0 <= i < j < subs.len() ==> (#[trigger] subs[i]).id != (#[trigger] subs[j]).id
    &&& forall|i: int, j: int|
        0 <= i < j < toks.len() ==> (#[trigger] toks[i]).token != (#[trigger] toks[j]).token
    &&& forall|i: int| 0 <= i < toks.len() ==> has_subscriber_id(subs, (#[trigger] toks[i]).subscriber_id)
}

/// Transactional persistence of subscribers and their confirmation tokens.
pub struct SubscriberStore {
    subscribers: Vec<SubscriberRecord>,
    tokens: Vec<TokenRecord>,
}

/// Relies on uuid::Uuid::new_v4: a fresh randomly drawn identifier; no two
/// calls are related.
#[verifier::external_body]
pub fn new_subscriber_id() -> u128 {
    uuid::Uuid::new_v4().as_u128()
}

/// Relies on chrono::Utc::now: the current wall-clock time in unix seconds;
/// depends on the machine's clock, so nothing is promised of the value.
#[verifier::external_body]
pub fn now_timestamp() -> i64 {
    chrono::Utc::now().timestamp()
}

pub(crate) fn bytes_eq(a: &[u8], b: &[u8]) -> (r: bool)
    ensures
        r == (a@ == b@),
{
    if a.len() != b.len() {
        return false;
    }
    let mut i: usize = 0;
    while i < a.len()
        invariant
            i <= a@.len(),
            a@.len() == b@.len(),
            forall|j: int| 0 <= j < i ==> a@[j] == b@[j],
        decreases a@.len() - i,
    {
        if a[i] != b[i] {
            return false;
        }
        i = i + 1;
    }
    proof {
        assert(a@ =~= b@);
    }
    true
}

impl SubscriberStore {
    /// Spec: the subscriber rows, in insertion order.
    pub closed spec fn subs(&self) -> Seq<SubscriberRow> {
        self.subscribers@.map_values(|r: SubscriberRecord| r@)
    }

    /// Spec: the token rows, in insertion order.
    pub closed spec fn toks(&self) -> Seq<TokenRow> {
        self.tokens@.map_values(|r: TokenRecord| r@)
    }

    /// Spec: the store invariant.
    pub open spec fn wf(&self) -> bool {
        wf_rows(self.subs(), self.toks())
    }

    /// An empty store.
    pub fn new() -> (r: SubscriberStore)
        ensures
            r.wf(),
            r.subs() =~= Seq::<SubscriberRow>::empty(),
            r.toks() =~= Seq::<TokenRow>::empty(),
    {
        let r = SubscriberStore { subscribers: Vec::new(), tokens: Vec::new() };
        proof {
            assert(r.subs() =~= Seq::<SubscriberRow>::empty());
            assert(r.toks() =~= Seq::<TokenRow>::empty());
        }
        r
    }

    /// Whether a subscriber row with this id exists.
    pub fn contains_subscriber_id(&self, id: u128) -> (r: bool)
        ensures
            r == has_subscriber_id(self.subs(), id),
    {
        let mut i: usize = 0;
        while i < self.subscribers.len()
            invariant
                i <= self.subscribers@.len(),
                self.subs().len() == self.subscribers@.len(),
                forall|j: int| 0 <= j < i ==> (#[trigger] self.subs()[j]).id != id,
            decreases self.subscribers@.len() - i,
        {
            if self.subscribers[i].id == id {
                proof {
                    assert(self.subs()[i as int].id == id);
                }
                return true;
            }
            i = i + 1;
        }
        false
    }

    /// Whether a token row with these bytes exists.
    pub fn contains_token(&self, token: &[u8]) -> (r: bool)
        ensures
            r == has_token(self.toks(), token@),
    {
        let mut i: usize = 0;
        while i < self.tokens.len()
            invariant
                i <= self.tokens@.len(),
                self.toks().len() == self.tokens@.len(),
                forall|j: int| 0 <= j < i ==> (#[trigger] self.toks()[j]).token != token@,
            decreases self.tokens@.len() - i,
        {
            if bytes_eq(self.tokens[i].token.as_slice(), token) {
                proof {
                    assert(self.toks()[i as int].token == token@);
                }
                return true;
            }
            i = i + 1;
        }
        false
    }

    /// How many subscriber rows the store holds.
    pub fn subscriber_count(&self) -> (r: usize)
        ensures
            r == self.subs().len(),
    {
        self.subscribers.len()
    }

    /// How many token rows the store holds.
    pub fn token_count(&self) -> (r: usize)
        ensures
            r == self.toks().len(),
    {
        self.tokens.len()
    }

    /// The subscriber id the token row with these bytes references, if any.
    pub fn token_owner(&self, token: &[u8]) -> (r: Option<u128>)
        ensures
            r is Some <==> has_token(self.toks(), token@),
            r matches Some(id) ==> exists|i: int|
                0 <= i < self.toks().len() && (#[trigger] self.toks()[i]).token == token@
                    && self.toks()[i].subscriber_id == id,
    {
        let mut i: usize = 0;
        while i < self.tokens.len()
            invariant
                i <= self.tokens@.len(),
                self.toks().len() == self.tokens@.len(),
                forall|j: int| 0 <= j < i ==> (#[trigger] self.toks()[j]).token != token@,
            decreases self.tokens@.len() - i,
        {
            if bytes_eq(self.tokens[i].token.as_slice(), token) {
                proof {
                    assert(self.toks()[i as int].token == token@);
                }
                return Some(self.tokens[i].subscriber_id);
            }
            i = i + 1;
        }
        None
    }

    /// First transactional write: insert the subscriber row, pending
    /// confirmation. Fails exactly on an id collision, changing nothing.
    pub fn insert_subscriber(
        &mut self,
        subscriber: &NewSubscriber,
        id: u128,
        subscribed_at: i64,
    ) -> (r: Result<(), StorageError>)
        requires
            old(self).wf(),
        ensures
            final(self).wf(),
            r is Ok <==> !has_subscriber_id(old(self).subs(), id),
            r is Ok ==> final(self).subs() == old(self).subs().push(
                SubscriberRow {
                    id,
                    email: subscriber.email@,
                    name: subscriber.name@,
                    subscribed_at,
                    status: SubscriptionStatus::PendingConfirmation,
                },
            ) && final(self).toks() == old(self).toks(),
            r is Err ==> *final(self) == *old(self),
    {
        if self.contains_subscriber_id(id) {
            return Err(StorageError);
        }
        let record = SubscriberRecord {
            id,
            email: subscriber.email.as_bytes().clone(),
            name: subscriber.name.as_bytes().clone(),
            subscribed_at,
            status: SubscriptionStatus::PendingConfirmation,
        };
        self.subscribers.push(record);
        proof {
            assert(self.subs() =~= old(self).subs().push(
                SubscriberRow {
                    id,
                    email: subscriber.email@,
                    name: subscriber.name@,
                    subscribed_at,
                    status: SubscriptionStatus::PendingConfirmation,
                },
            ));
            assert(self.toks() =~= old(self).toks());
            assert forall|k: int|
                0 <= k < self.toks().len() implies has_subscriber_id(
                self.subs(),
                (#[trigger] self.toks()[k]).subscriber_id,
            ) by {
                assert(has_subscriber_id(old(self).subs(), old(self).toks()[k].subscriber_id));
                let w = choose|i: int|
                    0 <= i < old(self).subs().len() && (#[trigger] old(self).subs()[i]).id
                        == old(self).toks()[k].subscriber_id;
                assert(self.subs()[w].id == self.toks()[k].subscriber_id);
            }
        }
        Ok(())
    }

    /// Second transactional write: insert the confirmation-token row for an
    /// already-inserted subscriber. Fails exactly on a token collision or a
    /// missing subscriber, changing nothing.
    pub fn store_subscription_token(&mut self, subscriber_id: u128, token: &Vec<u8>) -> (r: Result<
        (),
        StoreTokenError,
    >)
        requires
            old(self).wf(),
        ensures
            final(self).wf(),
            r is Ok <==> (!has_token(old(self).toks(), token@) && has_subscriber_id(
                old(self).subs(),
                subscriber_id,
            )),
            r is Ok ==> final(self).toks() == old(self).toks().push(
                TokenRow { token: token@, subscriber_id },
            ) && final(self).subs() == old(self).subs(),
            r is Err ==> *final(self) == *old(self),
    {
        if self.contains_token(token.as_slice()) {
            return Err(StoreTokenError);
        }
        if !self.contains_subscriber_id(subscriber_id) {
            return Err(StoreTokenError);
        }
        let record = TokenRecord { token: token.clone(), subscriber_id };
        self.tokens.push(record);
        proof {
            assert(self.toks() =~= old(self).toks().push(
                TokenRow { token: token@, subscriber_id },
            ));
            assert(self.subs() =~= old(self).subs());
        }
        Ok(())
    }

    /// The single atomic transaction of the subscription workflow: both the
    /// subscriber row and its token row become durable together, or neither
    /// does. On any failure the store is exactly as it was.
    pub fn persist(
        &mut self,
        subscriber: &NewSubscriber,
        id: u128,
        subscribed_at: i64,
        token: &Vec<u8>,
    ) -> (r: Result<(), StorageError>)
        requires
            old(self).wf(),
        ensures
            final(self).wf(),
            r is Ok <==> (!has_subscriber_id(old(self).subs(), id) && !has_token(
                old(self).toks(),
                token@,
            )),
            r is Ok ==> final(self).subs() == old(self).subs().push(
                SubscriberRow {
                    id,
                    email: subscriber.email@,
                    name: subscriber.name@,
                    subscribed_at,
                    status: SubscriptionStatus::PendingConfirmation,
                },
            ) && final(self).toks() == old(self).toks().push(
                TokenRow { token: token@, subscriber_id: id },
            ),
            r is Err ==> *final(self) == *old(self),
    {
        if self.contains_token(token.as_slice()) {
            return Err(StorageError);
        }
        match self.insert_subscriber(subscriber, id, subscribed_at) {
            Ok(()) => {},
            Err(e) => {
                return Err(e);
            },
        }
        match self.store_subscription_token(id, token) {
            Ok(()) => Ok(()),
            Err(_) => {
                proof {
                    assert(self.subs()[self.subs().len() - 1].id == id);
                    assert(has_subscriber_id(self.subs(), id));
                    assert(false);
                }
                Err(StorageError)
            },
        }
    }
}

/// Law: after a successful persist, exactly one subscriber row carries the
/// new id, exactly one token row carries the new token, and that token row
/// references that subscriber.
pub proof fn lemma_persist_unique_rows(subs: Seq<SubscriberRow>, toks: Seq<TokenRow>, id: u128, token: Seq<u8>)
    requires
        wf_rows(subs, toks),
        subs.len() > 0,
        subs.last().id == id,
        toks.len() > 0,
        toks.last().token == token,
        toks.last().subscriber_id == id,
    ensures
        forall|i: int| 0 <= i < subs.len() && (#[trigger] subs[i]).id == id ==> i == subs.len() - 1,
        forall|i: int|
            0 <= i < toks.len() && (#[trigger] toks[i]).token == token ==> i == toks.len() - 1,
{
}

} // verus!
