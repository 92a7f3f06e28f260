//! Attendance punches: the punch protocol of a shift with nested breaks, the
//! pairing of start and end records, and the time rules they are judged by.
//!
//! - `clock`: instants and wall-clock readings in the company's zone; lateness,
//!   early leave and durations.
//! - `registry`: the roles of punches and the registry of action types.
//! - `engine`: the guards of the protocol, the pairing search, the judging
//!   of a punch against its rule.
//! - `flow`: one punch as a conversation with the record store.
//! - `ledger`: what a store owes a flow, and the laws of the protocol.
//! - `store`: the queries that the library asks of a store.
//! - `checkin`, `statistics`, `auth`, `admin`: what each command reads from
//!   the store and what it makes of the reply.
//! - `crypto`: password digests.
//! - `models`: the rows of the store and the requests of the callers.

pub mod admin;
pub mod auth;
pub mod checkin;
pub mod clock;
pub mod crypto;
pub mod engine;
pub mod flow;
pub mod ledger;
pub mod models;
pub mod registry;
pub mod statistics;
pub mod store;
