//! exec(ut): the conference backend's rules, verified.
//!
//! Attendees and exhibitors carry badges; exhibitors and attendees scan each
//! other's badges at the conference, and admins seed the user base from CSV
//! uploads. The HTTP server and the database live in the application; this
//! library holds every decision they make: who may do what, which statement
//! runs next, which error answers a failed step, and how the answers are built.
pub mod auth;
mod errors;
pub mod handlers;
pub mod ids;
pub mod store;
pub mod users;

pub use crate::auth::Keys;
pub use crate::errors::{Error, Result};
