//! A CHIP-8 virtual machine with machine-checked contracts.
//!
//! - `opcode`: the operations, the layout of an instruction word, and the
//!   decoder, which is total.
//! - `machine`: the state of the machine as mathematical values, and what
//!   each operation, a clock tick and a key event do to it.
//! - `alu`: the arithmetic of the operations that define the flag.
//! - `input_output`: the pixels of the display and the keys of the keypad.
//! - `system`: the executable machine, whose view is the mathematical one.
//! - `engine`: fetch, decode and execute on the executable machine.
//! - `laws`: what holds across several operations.
//!
//! The host owns the clock, the keyboard, the window and the source of
//! random bytes. It hands the machine a random byte with every step, a
//! tick sixty times a second and the key events as they come, and it
//! draws the display when the machine asks for it.

pub mod alu;
pub mod engine;
pub mod input_output;
pub mod laws;
pub mod machine;
pub mod opcode;
pub mod system;
