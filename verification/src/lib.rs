//! Verified core of a solar-inverter register poller.
//!
//! The library models a device's holding-register catalog, decodes raw
//! 16-bit register words into typed values, and drives the retry and
//! reconnect policy of a long-lived polling session as explicit state
//! machines.  All I/O (the Modbus transport, the time-series sink, the
//! configuration file) lives outside the library; callers perform it and
//! feed the observed outcomes back in.

pub mod catalog;
pub mod config;
pub mod descriptor;
pub mod param;
pub mod scan;
pub mod session;
pub mod strutil;
pub mod value;

pub use param::{Parameter, ParameterBlock};
pub use value::ParamKind;
