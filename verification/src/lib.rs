//! Core of a small terminal counter application, organised as a
//! Model-Update-View loop: a pure state machine over a counter, a
//! run state and an opaque 32-byte payload, together with the
//! key-to-message mapping, the follow-up-message drain, the view
//! projection and the payload validation that surround it.

pub mod config;
pub mod input;
pub mod laws;
pub mod model;
pub mod update;
pub mod view;
