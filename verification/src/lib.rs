//! A weather cache: the latest observations of one place, refreshed from a
//! provider's documents and served as a compact little-endian block stream.
//!
//! Temperatures and humidities are single-precision numbers. They are carried
//! here as their IEEE 754 bit patterns (`u32`), which is also exactly what goes
//! on the wire.

pub mod document;
pub mod endpoint;
pub mod provider;
pub mod reading;
pub mod scheduler;
pub mod store;
pub mod wire;
