//! A verified model of a minimal one-triangle renderer.
//!
//! The library holds everything the renderer decides: wrapping raw GPU object
//! handles so that a null handle becomes a typed error, judging compile and
//! link outcomes, accounting for buffer allocations and driver-global binding
//! state, the fixed scene (shader sources, vertex layout, clear colour), and
//! the event-loop state machine. The unverified binary performs the actual
//! driver calls and hands their raw results to these functions.

pub mod error;
pub mod events;
pub mod resources;
pub mod scene;
