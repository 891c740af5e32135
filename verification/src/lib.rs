//! Firmware logic of the Neotron Board Management Controller (BMC), as fitted to a Neotron Pico.
//!
//! The BMC controls the power, reset, UART and PS/2 ports of the mainboard, and answers requests
//! that the host sends over SPI. This crate holds what it decides: what a message, a reading of
//! the buttons or an interrupt leads to. Each task is a function from the state it owns and what
//! the hardware says to its new state and the actions to perform.

pub mod action;
pub mod buttons;
pub mod fifo;
pub mod idle;
pub mod interrupts;
pub mod laws;
pub mod led;
pub mod message;
pub mod power;
pub mod protocol;
pub mod registers;
pub mod startup;

pub use crate::message::Message;
pub use crate::power::DcPowerState;
pub use crate::registers::{process_command, RegisterState};
