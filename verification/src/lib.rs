//! Encrypt-on-close for a single document.
//!
//! An encrypted document is decrypted into a private workspace, opened in
//! the user's application, watched until that application lets go of it, and
//! encrypted back over the original. This library holds the decisions of
//! that lifecycle and the cipher codec; reading, writing, waiting and
//! launching are left to the caller, which performs each [`session::Action`]
//! and hands the outcome back as a [`session::Event`].

pub mod codec;
pub mod error;
pub mod intake;
pub mod invariants;
pub mod session;
pub mod workspace;
