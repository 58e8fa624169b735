//! Core logic of a dual-core LED/button/storage board runtime.
//!
//! The board splits its work across two execution contexts: context A drives
//! an addressable-LED lane with an animated color sequence, context B polls a
//! button and mirrors its inverse onto an indicator output. At boot, an
//! ordered bring-up claims the peripheral handles, partitions them between
//! the two contexts, and — when a storage card is detected — walks a
//! non-retrying cold-start handshake before the primary scheduler starts.
//!
//! This crate holds the decision and computation logic of that runtime:
//! the color wheel, the animation frame stepping, the button edge detector,
//! the storage cold-start state machine and the bootstrap ordering. The
//! hardware itself (GPIO, SPI, the LED protocol engine, the schedulers) sits
//! outside, performs the actions these types decide on, and hands the
//! observed outcomes back in.

pub mod animation;
pub mod bootstrap;
pub mod button;
pub mod color;
pub mod storage;
