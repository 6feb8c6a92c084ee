//! A CHIP-8 virtual machine: the machine state, the instruction decoder, the
//! semantics of every instruction, and the frame loop that paces instructions
//! against the 60 Hz timers.
//!
//! Every executable function carries a contract over the mathematical model
//! [`Machine`], the view of [`Chip8`].

pub mod decode;
pub mod disasm;
pub mod display;
pub mod error;
pub mod execute;
pub mod font;
pub mod frame;
pub mod keypad;
pub mod laws;
pub mod machine;
pub mod random;
pub mod semantics;
pub mod text;
pub mod trace;

pub use decode::{decode, Instruction};
pub use disasm::{mnemonic, opcode_str};
pub use error::{Fault, LoadError};
pub use frame::{Frame, CYCLES};
pub use machine::{Chip8, Machine};
pub use semantics::Status;
