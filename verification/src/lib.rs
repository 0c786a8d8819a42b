//! Event-normalization pipeline for gamepad input.
//!
//! Raw device events arrive noisy and without higher-level semantics. This
//! library turns a stream of optional raw events into a clean stream by
//! composing independent filter stages: jitter suppression, deadzone
//! remapping, axis-to-button dpad translation, and synthetic key repeat.
//!
//! Every filter is a pure function from an optional event plus a read-only
//! snapshot of device state to the next optional event. A filter never turns
//! a present event into absence: suppression is expressed by the sentinel
//! `EventType::Dropped` kind, so the chain invariant "present in, present
//! out" holds across every stage.
//!
//! Axis values and thresholds are fixed-point integers in millionths of a
//! unit (`UNIT` is `1.0`), so the numerical behaviour of every stage is
//! stated and proved exactly.

pub mod chain;
pub mod deadzone;
pub mod dpad;
pub mod events;
pub mod jitter;
pub mod math;
pub mod repeat;
pub mod state;
