//! Telemetry and control core for a multi-drop serial bus of smart servo
//! actuators.
//!
//! The crate is free of I/O: it frames and checks bus traffic, keeps the
//! latest telemetry of every actuator, orders all bus transactions and decides
//! what to transmit next. A driver owns the physical channel, performs the
//! transmissions the core asks for and reports back what happened.

pub mod error;
pub mod signmag;
pub mod telemetry;
pub mod frame;
pub mod codec;
pub mod registry;
pub mod transport;
pub mod poll;
pub mod dispatch;
pub mod controller;
pub mod actuator;
pub mod console;
