//! Epoch-based reward distribution.
//!
//! Entitlements to a token are committed epoch by epoch as the root of a
//! Merkle tree. An agent creates and corrects draft epochs, a manager approves
//! and funds them, and each receiver claims an entitlement once, with a proof
//! that it belongs to the tree. Every function of this crate is verified
//! against its contract.
//!
//! - [`merkle_proof`] verifies proofs; [`merkle_laws`] states what a verified
//!   proof shows.
//! - [`state`], [`errors`] and [`events`] are the records, the rejections and
//!   the announcements.
//! - [`instructions`] holds each operation on the records it concerns.
//! - [`rewards_distributor`] is the engine as one object, a ledger; [`ledger`]
//!   is its mathematical model, and [`laws`] states what holds of every
//!   history of a ledger.
pub mod errors;
pub mod events;
pub mod instructions;
pub mod laws;
pub mod ledger;
pub mod merkle_laws;
pub mod merkle_proof;
pub mod pubkey;
pub mod rewards_distributor;
pub mod state;
