//! What holds of the library as a whole, stated over the same specifications as the functions'
//! own contracts.
pub mod channels;
pub mod client;
pub mod engine;
pub mod handshake;
pub mod layout;
pub mod steps;
pub mod views;
pub mod wire;
