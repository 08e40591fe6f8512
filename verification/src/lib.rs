//! Inventory control and purchase coordination for event ticketing.
//!
//! The crate sells a finite number of tickets per event without ever selling
//! more than exist. Every function carries a contract that Verus proves.
//!
//! - [`ledger`] keeps, for every event, the units still available and the
//!   tickets issued, and owns the rule `0 <= available <= capacity`.
//! - [`purchase`] is the coordinator: it validates a request, has the ledger
//!   grant the whole quantity or nothing, and has exactly that many tickets
//!   issued.
//! - [`ticket`] and [`event`] hold the two records and their state machines.
//! - [`gateway`] reads the commands of clients and words the answers.
//! - [`auth`] decides sign-up and log-in.
//! - [`catalog`] and [`users`] hold the kinds and the people that listings
//!   name.
//! - [`clock`], [`ident`], [`text`] and [`sequences`] are what the others
//!   stand on: instants, identifiers, texts and facts about sequences.
//!
//! A few private functions call other crates (`chrono`, `uuid`,
//! `serde_json`, `argon2`) or the standard library where it has no
//! specification. Their contracts are believed, not proved; each says so in
//! its documentation.

pub mod auth;
pub mod catalog;
pub mod clock;
pub mod event;
pub mod gateway;
pub mod ident;
pub mod ledger;
pub mod purchase;
pub mod sequences;
pub mod text;
pub mod ticket;
pub mod users;
