//! Encoders for the 16-bit instruction words executed by programmable I/O
//! state machines, with the operand model and parameter checks behind them.

pub mod gpio;
pub mod param_assertions;
pub mod pio_instructions;
