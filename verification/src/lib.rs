//! Core logic of a browser demo for an integer-subset OCaml interpreter
//! running on a COR24 p-code VM: the demo catalog, the source
//! concatenation for multi-file demos, the UART transcript cleaner, the
//! session state machine that feeds source bytes to the machine, and the
//! page's state machine.

pub mod text;
pub mod transcript;
pub mod hex;
pub mod runner;
pub mod config;
pub mod demos;
pub mod ui;
