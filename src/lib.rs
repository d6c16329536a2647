//! Decisions and text of a listener that reads one JSON array of user
//! records per connection and reports each record.
pub mod decimal;
pub mod user;
pub mod connection;
