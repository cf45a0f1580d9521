//! Verified core of an interactive terminal client for a local document
//! store: navigation and session state, filesystem-safe naming, destination
//! path resolution, and a step-driven recursive download engine.  All
//! network and terminal I/O lives outside this crate; the functions here
//! are pure decisions over plain values, stated in contracts and proved.

pub mod engine;
pub mod errors;
pub mod item;
pub mod names;
pub mod paths;
pub mod session;
pub mod text;
