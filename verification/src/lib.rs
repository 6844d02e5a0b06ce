//! Decision core of a build, flash and observe cycle for an ESP32-S3 board.
//!
//! The crate performs no input or output. Each controller is a state machine:
//! it names the next outside action, takes what that action reported, and moves
//! on. A driver performs the actions (running `idf.py`, reading the serial
//! port, touching the result file) and feeds the reports back.

pub mod build_controller;
pub mod monitor;
pub mod session;
pub mod settings;
pub mod text;
pub mod tool;
