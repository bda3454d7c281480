//! A small social board: users ("brains") register and log in, post short
//! items ("brainfarts"), and react to each other's posts with one of two
//! mutually exclusive reactions.
//!
//! The library holds the verified logic: the shared request and response
//! types, session tokens, password checks, the reaction state machine, the
//! stores' rules, the status codes of the endpoints and the client's form
//! state.

pub mod model;
pub mod clock;
pub mod session;
pub mod password;
pub mod reactions;
pub mod rows;
pub mod store;
pub mod api;
pub mod client;
