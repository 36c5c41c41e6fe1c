//! Drives a ring of addressable lights as a clock face: ring positions for the
//! time of day, per-light colours, an activation state machine gated by a
//! motion sensor, the event handling of the render loop and its supervisor.

pub mod activation;
pub mod array;
pub mod clock;
pub mod config;
pub mod decimal;
pub mod error;
pub mod face;
pub mod frame;
pub mod interface;
pub mod markup;
pub mod met_api;
pub mod pollen;
pub mod position;
pub mod scheduler;
pub mod signal;
pub mod supervisor;
pub mod value;
