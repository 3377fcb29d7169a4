//! Verified core of a gymnastics-club management service: accounts, clubs,
//! memberships and the bearer tokens that identify a caller.
//!
//! Every operation is written as a conversation with a relational store: it
//! names the next query, and decides from the reply. The crate also holds a
//! model of that store, on which the same conversations are run to completion
//! and their effect on the data is proved.

pub mod entities;
pub mod guarantees;
pub mod routes;
pub mod store;
pub mod utils;
