//! A sequential TCP half-open (SYN) port scanner, as a verified decision engine.
//!
//! The crate builds the probe packets, parses and correlates the answers,
//! classifies each port, and sequences the rounds of a scan over a port range.
//! It performs no input or output itself: the caller owns the raw socket and
//! the clock, carries out the action the engine asks for, and reports back
//! what happened.

pub mod address;
pub mod checksum;
pub mod classifier;
pub mod flags;
pub mod packet;
pub mod ports;
pub mod scan;
pub mod segment;
pub mod text;
pub mod trace;
