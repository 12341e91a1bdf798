//! What the login flow needs of HTTP: addresses and the session client.

pub mod address;
pub mod client;
