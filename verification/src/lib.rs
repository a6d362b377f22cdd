//! Host-side driver core for Robstride servo actuators on a CAN bus.
//!
//! The crate covers the protocol codec (typed request and response
//! messages laid out bit-exactly over a fixed 16-byte CAN frame), the
//! per-actuator session state machine, unit scaling between engineering
//! ranges and the 16-bit transport range, the parameter registry with its
//! value decoder, and the pure decision logic of the fleet driver
//! (discovery, response correlation, multi-frame parameter reassembly).
//! The raw socket transport and the timing loops around it live outside
//! this crate and exchange only plain `CanFrame` values with it.

pub mod actuator_types;
pub mod can;
pub mod client;
pub mod driver;
pub mod error;
pub mod parameters;
pub mod types;
pub mod protocol;
pub mod range;
