//! A streaming buffering-and-dispatch pipeline for live audio wake-phrase
//! detection: capture callbacks deliver arbitrarily-chunked sample batches,
//! a window accumulator gathers them into fixed-size windows, and a
//! dispatcher concatenates the transcribed text of each window and fires
//! an action when a configured trigger phrase occurs in it.
//!
//! Sample values pass through the pipeline opaquely: the library stores each
//! mono sample as a 32-bit word and never interprets it. Callers convert
//! their native sample representation to and from these words at the
//! boundary.

use vstd::prelude::*;

pub mod ring;
pub mod accumulator;
pub mod numfmt;
pub mod dispatch;
pub mod devices;
pub mod lifecycle;

verus! {

/// Seconds of audio gathered into one window.
pub const WINDOW_SECONDS: usize = 8;

/// Native capture rate: mono samples per second arriving from the device.
pub const CAPTURE_RATE: usize = 44_100;

/// Sample rate the speech model expects its windows at.
pub const MODEL_RATE: usize = 16_161;

} // verus!
