//! Initialization of a CAN-FD controller.
//!
//! The crate brings the controller from power-on-reset to a bus-ready state:
//! it selects and gates the peripheral clock, multiplexes the transmit and
//! receive pins, drives the controller through its mode transitions
//! (enable, reset, freeze, unfreeze), and computes and programs bit-timing
//! parameters for the classical arbitration phase and the FD data phase,
//! including transceiver-delay compensation.
//!
//! The hardware's memory-mapped registers are represented by an explicit
//! register model ([`registers`]); every operation states exactly how it
//! changes that model, and timing registers accept writes only while the
//! controller is frozen.

pub mod config;
pub mod error;
pub mod init;
pub mod registers;
pub mod timing;
