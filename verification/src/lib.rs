//! Crowdfunding campaigns and the registry that creates them.
//!
//! A campaign is a ledger of contributions with a fundraising deadline, a
//! grace window for paying out a funded campaign, a fee or token-reward
//! engine, and a comment and spam ledger. The registry hands out campaign
//! identities through a one-shot handshake. Every operation is a function
//! from the state and the caller's request to the next state and the
//! response, with the outbound instructions as plain values.
pub mod wide;
pub mod text;
pub mod address;
pub mod paging;
pub mod encoding;
pub mod host;
pub mod error;
pub mod project;
pub mod platform;
