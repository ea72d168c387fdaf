//! Verified core of a screen-region picker.
//!
//! The library resolves the most specific on-screen UI element under a point
//! (recursive hit-testing over an accessibility tree with an area/role
//! tie-break), drives the hover/click polling state machine that triggers a
//! capture, maps a global point to the monitor containing it, and converts
//! global coordinates to window-local ones. All geometry is held in logical
//! integer coordinates; the platform layer that reads the live accessibility
//! tree converts to and from these values.

pub mod capture;
pub mod geometry;
pub mod hittest;
pub mod monitor;
pub mod polling;
pub mod query;
pub mod role;
