//! Key-event translation and action-dispatch pipeline for a Vietnamese
//! input-method engine.
//!
//! This library holds the verified core of an input-method platform adapter:
//! the keysym translation table, the modifier and word-boundary classifiers,
//! the decoder for the transformation engine's result records, the per-event
//! routing state machine, and the ordered output dispatcher. The surrounding
//! process (D-Bus plumbing, the foreign engine itself, logging) lives outside
//! this crate and only exchanges plain values with it.

pub mod action;
pub mod dispatch;
pub mod keycode;
pub mod modifiers;
pub mod pipeline;
