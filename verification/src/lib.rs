//! Conformance harness logic for a Bluetooth Low Energy peripheral under
//! development: the structural checks of its GATT server, the write stress
//! probe, the test runner and the session that leads from scanning to the
//! final report. Everything here works on plain values; the radio, the clock
//! and the process belong to the program built around this library.
//!
//! - [`gatt`], [`identifier`]: what service discovery reports, and the
//!   identifiers and property flags that the device is expected to show.
//! - [`service_list`], [`characteristics`]: the structural checks, each with
//!   its verdict as a function of what was discovered.
//! - [`stress`]: the write stress test as a sequence of actions, and the
//!   throughput figure of a phase.
//! - [`cases`], [`runner`]: the closed set of test cases, the runner that
//!   takes them in order, and the report of a run.
//! - [`session`]: the stages from the start of the program to its exit.
//! - [`failure`], [`error`]: why one test failed, and why the program ends.
//! - [`flash`]: what is decided around flashing the firmware.
//! - [`text`], [`search`]: decimal rendering and first occurrences.

pub mod cases;
pub mod characteristics;
pub mod error;
pub mod failure;
pub mod flash;
pub mod gatt;
pub mod identifier;
pub mod runner;
pub mod search;
pub mod service_list;
pub mod session;
pub mod stress;
pub mod text;
