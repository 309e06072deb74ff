//! A CHIP-8 interpreter core: the machine state, every implemented
//! instruction, the fetch/decode/execute cycle, the keypad mapping and the
//! translation of screen memory into pixels, each with its contract.

pub mod combine;
pub mod machine;
pub mod draw;
pub mod instructions;
mod random;
pub mod keypad;
pub mod cycle;
pub mod screen;
pub mod message;
pub mod laws;
pub mod cycle_laws;

