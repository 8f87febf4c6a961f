//! A terminal control layer: cursor, colour and screen commands queued into one
//! ordered output buffer, and a normalised model of input events.

pub mod ansi;
pub mod color;
pub mod event;
pub mod geometry;
pub mod model;
pub mod terminal;
