//! Decision logic of a marketplace backend.
//!
//! The crate holds the rules by which requests on users, services, products,
//! bookings, purchases and reviews are answered. It performs no I/O: every
//! operation is a small state machine that names the next thing to ask of the
//! document store or of the token service and is resumed with the answer.

pub mod aggregation;
pub mod clock;
pub mod db;
pub mod error;
pub mod handlers;
pub mod http;
pub mod laws;
pub mod model;
pub mod models;
pub mod oid;
pub mod password;
pub mod query;
pub mod rating;
pub mod settlement;
pub mod store;
pub mod text;
