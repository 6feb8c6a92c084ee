use crate::text::{decimal, push_decimal};
use vstd::prelude::*;
use vstd::string::StringExecFns;

verus! {

/// Why a program image was refused.
#[derive(Clone, Copy, Debug, PartialEq, Eq, Structural)]
pub enum LoadError {
    /// The image holds `size` bytes, more than the `max` bytes of program memory.
    TooLarge { size: usize, max: usize },
}

impl LoadError {
    /// What `message` says.
    pub open spec fn text(self) -> Seq<char> {
        match self {
            LoadError::TooLarge { size, max } => "ROM size ("@ + decimal(size as nat)
                + ") exceed maximum allowed size ("@ + decimal(max as nat) + ")"@,
        }
    }

    /// The error in words, with both sizes in decimal.
    pub fn message(&self) -> (s: String)
        ensures
            s@ == self.text(),
    {
        match *self {
            LoadError::TooLarge { size, max } => {
                let mut s: String = String::from_str("ROM size (");
                push_decimal(&mut s, size as u64);
                s.append(") exceed maximum allowed size (");
                push_decimal(&mut s, max as u64);
                s.append(")");
                s
            },
        }
    }
}

/// A condition under which an instruction cannot be carried out. The machine
/// is left exactly as it was before the instruction was fetched.
#[derive(Clone, Copy, Debug, PartialEq, Eq, Structural)]
pub enum Fault {
    /// `CALL` with all sixteen stack slots in use.
    StackOverflow,
    /// `RET` with an empty stack.
    StackUnderflow,
    /// A sprite, a register block or a decimal triple would reach past the
    /// last byte of memory.
    AddressOutOfRange,
    /// `SKP` or `SKNP` names a key above `0xF`.
    KeyOutOfRange,
}

} // verus!
