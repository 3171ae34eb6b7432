//! A live audio looper: a recording buffer, the transport that walks it, the
//! state machine of the looper's modes, and the per-block engine that ties
//! them together.
//!
//! Samples pass through as the bit patterns of single-precision values. The
//! library moves them, decides where they go, and says which products and
//! sums are taken of them; the product and the sum of two samples themselves
//! are operations that the host supplies.

pub mod engine;
pub mod looper;
pub mod looper_fsm;
pub mod midi;
pub mod recording_buffer;
pub mod transport;
