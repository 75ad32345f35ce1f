//! Session state and order-lifecycle logic for a brokerage dashboard.
//!
//! The library owns the data that a dashboard reads and mutates: the latest
//! balances, positions and orders, the per-status order filter, the order
//! draft and the page selector. Network calls happen outside; the library
//! decides what to call next and how each outcome changes the session.
pub mod account;
pub mod error;
pub mod order;
pub mod session;
pub mod snapshot;
pub mod status;
pub mod workflow;
