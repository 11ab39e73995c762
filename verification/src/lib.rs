//! Inventory tracking for tabletop-miniature collections: games, the model
//! definitions that belong to them, and the batches of models a user owns.
//!
//! The service is written as a dialogue with a relational store
//! ([`protocol`]): a handler says which statement to run and goes on from
//! the answer, so the same handlers serve a database behind a network and
//! the store that this crate holds in memory ([`store`], with [`model`] as
//! its mathematical description). [`service`] runs the handlers on that
//! store and states what each returns and leaves behind; [`laws`] states
//! what follows for every state and every request.

pub mod client;
pub mod error;
pub mod ident;
pub mod laws;
pub mod model;
pub mod number;
pub mod protocol;
pub mod query;
pub mod records;
pub mod rows;
pub mod service;
pub mod status;
pub mod store;
pub mod text;
