use crate::decode::decode_spec;
use crate::disasm::{mnemonic_spec, opcode_str};
use crate::machine::{Chip8, Machine};
use crate::text::{
    hex_byte, hex_nibble, hex_word, push_hex_byte, push_hex_nibble, push_hex_word,
};
use vstd::prelude::*;
use vstd::string::StringExecFns;

verus! {

/// The first `n` registers, each as a blank, `V`, its number, a colon and its
/// value in two hexadecimal digits.
pub open spec fn registers_text(v: Seq<u8>, n: nat) -> Seq<char>
    decreases n,
{
    if n == 0 {
        Seq::empty()
    } else {
        registers_text(v, (n - 1) as nat) + " V"@ + hex_nibble((n - 1) as u8) + ":"@ + hex_byte(
            v[n - 1],
        )
    }
}

/// The trace record of a machine about to carry out the word `op`: the
/// program counter, the sixteen registers, `I`, both timers and the mnemonic,
/// as in `PC:0200 V0:00 ... VF:00 I:0000 DT:00 ST:00 CLS`.
pub open spec fn trace_line_spec(m: Machine, op: u16) -> Seq<char> {
    "PC:"@ + hex_word(m.pc) + registers_text(m.v, 16) + " I:"@ + hex_word(m.i) + " DT:"@
        + hex_byte(m.delay) + " ST:"@ + hex_byte(m.sound) + " "@ + mnemonic_spec(decode_spec(op))
}

impl Chip8 {
    /// The sixteen registers as they appear in a trace record.
    fn registers_line(&self) -> (s: String)
        ensures
            s@ == registers_text(self.v@, 16),
    {
        let mut s: String = String::new();
        let mut r: u8 = 0;
        while r < 16
            invariant
                r <= 16,
                s@ == registers_text(self.v@, r as nat),
            decreases 16 - r,
        {
            s.append(" V");
            push_hex_nibble(&mut s, r);
            s.append(":");
            push_hex_byte(&mut s, self.v[r as usize]);
            r += 1;
        }
        s
    }

    /// The trace record for the machine as it stands and the word `op`.
    pub fn trace_line(&self, op: u16) -> (s: String)
        ensures
            s@ == trace_line_spec(self@, op),
    {
        let mut s: String = String::from_str("PC:");
        push_hex_word(&mut s, self.pc);
        let registers: String = self.registers_line();
        s.append(registers.as_str());
        s.append(" I:");
        push_hex_word(&mut s, self.i);
        s.append(" DT:");
        push_hex_byte(&mut s, self.delay);
        s.append(" ST:");
        push_hex_byte(&mut s, self.sound);
        s.append(" ");
        let text: String = opcode_str(op);
        s.append(text.as_str());
        s
    }
}

} // verus!
