//! Core of a group-chat lunch-vote workflow: the poll lifecycle state
//! machine, the deduplicated ledger of affirmative voters, the reconciliation
//! of asynchronously delivered answer events, and the randomized priority
//! ordering announced when a vote is closed.
//!
//! The messaging platform and the persistent store are external
//! collaborators: this crate holds the decision and bookkeeping logic and
//! states its behaviour in contracts.

pub mod command_handlers;

pub mod db;

pub mod error_handling;

pub mod ledger;

pub mod message_handlers;

pub mod models;

pub mod poll_handlers;

pub mod render;

pub mod shuffle;

