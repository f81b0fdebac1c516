//! A sans-I/O client core for a versioned REST+JSON resource API: the
//! composable request transport, resource locators, and the watch protocol
//! (session opening, event decoding, resumption).

pub mod clients;
pub mod error;
pub mod event;
pub mod open;
pub mod resume;
pub mod stream;
pub mod stream_laws;
pub mod transport;
