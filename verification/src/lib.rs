//! A verified model of a position-sampling poller: a background control loop
//! that samples a pointer location, filters out sub-threshold jitter, coalesces
//! bursts of movement under a throttle window, and publishes coalesced updates,
//! together with the start/stop lifecycle that guards the single live session.
//!
//! The platform work (sampling the real pointer, emitting to a real subscriber,
//! spawning and joining the sampling thread) stays outside this crate; the
//! decision logic it drives is verified here.

pub mod position;
pub mod config;
pub mod sampler;
pub mod session;
pub mod controller;
