//! A transparent relay for one two-party message session.
//!
//! The relay sits between one upstream endpoint and one downstream endpoint.
//! It decides which role a connection plays, keeps the current peer of each
//! role, routes every message to the opposite role unchanged, and renders the
//! transcript records that describe the traffic.
pub mod role;
pub mod registry;
pub mod relay;
pub mod session;
pub mod laws;
pub mod text;
pub mod port;
pub mod json;
pub mod clock;
pub mod transcript;
pub mod cli;
