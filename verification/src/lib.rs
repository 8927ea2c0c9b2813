//! Security-and-consistency core of a newsletter subscription service.
//!
//! The crate verifies the pieces that carry real invariants: the signed
//! one-shot message codec used across login redirects, the high-entropy
//! token generator, input validation for new subscribers, the transactional
//! subscriber store (a subscriber and its confirmation token commit together
//! or not at all), the credential validator with its uniform failure
//! behaviour, the server-side session store with one-shot flash data, and
//! the subscription workflow that orders persistence strictly before
//! notification.

pub mod auth;
pub mod codec;
pub mod domain;
pub mod render;
pub mod session;
pub mod store;
pub mod text;
pub mod token;
pub mod workflow;
