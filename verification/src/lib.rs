//! A verified client core for the GoodWe SEMS Plus portal: request signing,
//! login, the paged fetch of charging records and the session rules of a small
//! web front end.
pub mod calendar;
pub mod clock;
pub mod cookies;
pub mod crypto;
pub mod goodwe;
pub mod json;
pub mod routes;
pub mod text;
