//! Register-level model of a UART peripheral and a bridge to the resident
//! OS of an emulated machine: symbolic-address resolution for its filesystem
//! routines, the byte layout of its in-memory records, and a reader for its
//! terminated path strings.

pub mod mos;
pub mod uart;
