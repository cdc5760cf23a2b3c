//! Interactive changelog dashboard core: an event-driven application state
//! machine, a generation pipeline with stale-result rejection by epoch, and a
//! block-structured markdown viewport with verified scroll and layout math.

pub mod document;
pub mod engine;
pub mod events;
pub mod geometry;
pub mod state;
