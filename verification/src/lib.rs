//! Client-side session manager for a remote reinforcement-learning
//! environment service.
//!
//! The crate models the typed action/observation spaces of such a service
//! (discrete, continuous box, composite tuple), parses them from a
//! tree-structured wire value, samples random actions, and drives episodes
//! through an ordered create / discover / reset / step protocol.
//!
//! Real numbers on the wire are IEEE 754 binary64 values; this library
//! carries each one by its raw bit pattern (`u64`) and never performs
//! floating-point arithmetic itself.  The thin host layer that owns the
//! HTTP transport converts between bit patterns and native floats at the
//! boundary.

pub mod error;
pub mod json;
pub mod random;
pub mod session;
pub mod space;
