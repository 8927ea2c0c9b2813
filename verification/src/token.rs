//! Confirmation-token generator: high-entropy, URL-safe, single-use tokens
//! drawn from an alphanumeric alphabet.

use rand::Rng;
use vstd::prelude::*;

verus! {

/// Spec: an ASCII alphanumeric byte, the whole token alphabet.
pub open spec fn is_alphanumeric_byte(b: u8) -> bool {
    (48 <= b <= 57) || (65 <= b <= 90) || (97 <= b <= 122)
}

/// Relies on rand's Alphanumeric distribution sampled from the thread-local
/// cryptographically seeded generator: every sampled byte comes from the
/// ASCII alphanumeric alphabet.
#[verifier::external_body]
fn sample_alphanumeric() -> (r: u8)
    ensures
        is_alphanumeric_byte(r),
{
    rand::thread_rng().sample(rand::distributions::Alphanumeric)
}

/// Generate a subscription token: twenty-five random alphanumeric bytes,
/// a fresh independent draw on every call.
pub fn generate_subscription_token() -> (r: Vec<u8>)
    ensures
        r@.len() == 25,
        forall|i: int| 0 <= i < r@.len() ==> is_alphanumeric_byte(#[trigger] r@[i]),
{
    let mut out: Vec<u8> = Vec::new();
    let mut i: usize = 0;
    while i < 25
        invariant
            i <= 25,
            out@.len() == i,
            forall|j: int| 0 <= j < out@.len() ==> is_alphanumeric_byte(#[trigger] out@[j]),
        decreases 25 - i,
    {
        out.push(sample_alphanumeric());
        i = i + 1;
    }
    out
}

} // verus!
