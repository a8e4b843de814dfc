//! A verified CHIP-8 virtual CPU: machine state, instruction decoding,
//! instruction execution and the fetch-decode-execute cycle.

pub mod cycle;
pub mod decode;
pub mod draw;
pub mod ops;
pub mod rng;
pub mod state;
