//! Driver for the Waveshare 5.83" v2 bi-tonal e-paper panel.
//!
//! The panel's controller is addressed over a serial bus plus three control
//! lines (data/command select, reset, busy). The driver turns the lifecycle
//! operations (initialize, update, refresh, clear, sleep, wake) into the
//! fixed command protocol the controller requires, and its contracts state
//! the exact sequence of bus operations each lifecycle step performs.
//!
//! The platform's bus and line primitives are abstracted behind the
//! [`bus::BusIo`] capability trait; [`bus::RecordingBus`] is a verified
//! test double that records every operation.

pub mod bus;
pub mod color;
pub mod command;
pub mod driver;
pub mod error;
pub mod events;
pub mod interface;
pub mod trace;
