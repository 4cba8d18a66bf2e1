//! Control logic for a small interrupt-driven LED blinker.
//!
//! A foreground loop drives three digital outputs from a 3-bit counter once
//! per tick, while a background edge-interrupt handler advances a `mode`
//! value whose parity selects between two output policies: pattern mode
//! (outputs mirror the counter bits) and toggle mode (every output is
//! inverted each tick). The shared state crossing the two contexts is kept
//! behind a critical-section cell; this crate verifies the state machine,
//! the cell's ownership discipline, and the fault-path diagnostic, leaving
//! the board wiring to the surrounding binary.

pub mod cell;
pub mod device;
pub mod fault;
pub mod outputs;
pub mod system;
