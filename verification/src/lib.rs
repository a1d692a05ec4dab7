//! Maintenance bot core for a shared stake pool on a public ledger.
//!
//! The ledger offers only point reads of single accounts, batched into one
//! call; it has no multi-account snapshots. This crate implements the two
//! pieces worth getting exactly right:
//!
//! * an optimistic-concurrency reader that assembles a consistent view of a
//!   working set of accounts from chunked bulk reads, retries with a grown
//!   set when the caller touches an account outside the batch, and refuses
//!   the retry once a mutation has been submitted in the same attempt;
//! * the rebalancing arithmetic that computes per-validator stake targets
//!   and picks the most underfunded validator.
//!
//! The pieces that talk to the outside world (the RPC transport, the status
//! HTTP listener, the jittered sleep) live in the surrounding binary; they
//! hand this crate plain values and drive it through the traits in
//! [`reader`].

pub mod ordered_set;

pub mod error;

pub mod account_view;

pub mod reader;

pub mod balance;

pub mod metrics;

pub mod scheduler;
