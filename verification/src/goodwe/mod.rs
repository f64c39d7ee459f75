//! The portal's interface: signed requests, login and the paged charging log.
pub mod fetch;
pub mod login;
pub mod record;
pub mod request;
pub mod token;
