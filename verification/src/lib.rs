//! Core of a sensor-to-broker telemetry bridge.
//!
//! A kernel-exposed sensor device is driven through a fixed single-byte
//! command protocol; the measurement records it emits are decoded and each
//! measured value is republished onto a message-broker topic. This crate
//! holds the verified core: the record codec, the command-cycle driver, the
//! publisher-loop policy, the broker-reconnection policy, and the settings
//! defaults. The surrounding process (device and broker I/O, configuration
//! files, signal handling, threads) runs these state machines and performs
//! the actions they ask for.

pub mod codec;
pub mod command;
pub mod decimal;
pub mod driver;
pub mod publisher;
pub mod reconnect;
pub mod settings;
