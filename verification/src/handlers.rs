//! The request handlers, one module per group of routes.
//!
//! A handler is started with what the request carries and yields a step: an
//! action to perform and a state to come back with, or the answer. It is
//! resumed with the event that tells of the action until it answers.

pub mod auth;
pub mod bookings;
pub mod niche;
pub mod products;
pub mod purchases;
pub mod reviews;
pub mod services;
