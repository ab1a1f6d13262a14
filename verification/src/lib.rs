//! Core state machine of a two-team score counter with a settings page.
//!
//! The library models the whole application state (scores, current page,
//! theme) and the discrete messages that mutate it. Rendering and the event
//! loop live outside; they only read this state and feed messages in.

pub mod machine;
pub mod laws;
