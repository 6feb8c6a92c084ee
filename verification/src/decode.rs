use vstd::prelude::*;

verus! {

/// One decoded instruction. `x` and `y` name registers, `n` is a sprite
/// height, `kk` a byte and `nnn` an address.
#[derive(Clone, Copy, Debug, PartialEq, Eq, Structural)]
pub enum Instruction {
    /// `00E0`: clear the display.
    Cls,
    /// `00EE`: return from a subroutine.
    Ret,
    /// `0nnn`: call of a machine routine; does nothing.
    Sys { nnn: u16 },
    /// `1nnn`: jump to `nnn`.
    Jp { nnn: u16 },
    /// `2nnn`: call the subroutine at `nnn`.
    Call { nnn: u16 },
    /// `3xkk`: skip the next instruction if `Vx == kk`.
    SeImm { x: u8, kk: u8 },
    /// `4xkk`: skip the next instruction if `Vx != kk`.
    SneImm { x: u8, kk: u8 },
    /// `5xy_`: skip the next instruction if `Vx == Vy`.
    SeReg { x: u8, y: u8 },
    /// `6xkk`: `Vx = kk`.
    LdImm { x: u8, kk: u8 },
    /// `7xkk`: `Vx += kk`, wrapping, VF untouched.
    AddImm { x: u8, kk: u8 },
    /// `8xy0`: `Vx = Vy`.
    LdReg { x: u8, y: u8 },
    /// `8xy1`: `Vx |= Vy`.
    Or { x: u8, y: u8 },
    /// `8xy2`: `Vx &= Vy`.
    And { x: u8, y: u8 },
    /// `8xy3`: `Vx ^= Vy`.
    Xor { x: u8, y: u8 },
    /// `8xy4`: `Vx += Vy`, VF the carry.
    AddReg { x: u8, y: u8 },
    /// `8xy5`: `Vx -= Vy`, VF set when nothing was borrowed.
    Sub { x: u8, y: u8 },
    /// `8x_6`: VF the lowest bit of `Vx`, then `Vx >>= 1`.
    Shr { x: u8 },
    /// `8xy7`: `Vx = Vy - Vx`, VF set when nothing was borrowed.
    Subn { x: u8, y: u8 },
    /// `8x_E`: VF the highest bit of `Vx`, then `Vx <<= 1`.
    Shl { x: u8 },
    /// `9xy_`: skip the next instruction if `Vx != Vy`.
    SneReg { x: u8, y: u8 },
    /// `Annn`: `I = nnn`.
    LdI { nnn: u16 },
    /// `Bnnn`: jump to `nnn + V0`.
    JpV0 { nnn: u16 },
    /// `Cxkk`: `Vx` = a random byte masked by `kk`.
    Rnd { x: u8, kk: u8 },
    /// `Dxyn`: draw the `n`-row sprite at `I` at (`Vx`, `Vy`).
    Drw { x: u8, y: u8, n: u8 },
    /// `Ex9E`: skip the next instruction if the key named by `Vx` is held.
    Skp { x: u8 },
    /// `ExA1`: skip the next instruction if the key named by `Vx` is not held.
    Sknp { x: u8 },
    /// `Fx07`: `Vx` = the delay timer.
    LdVxDt { x: u8 },
    /// `Fx0A`: wait for a key and put its number in `Vx`.
    LdVxK { x: u8 },
    /// `Fx15`: the delay timer = `Vx`.
    LdDtVx { x: u8 },
    /// `Fx18`: the sound timer = `Vx`.
    LdStVx { x: u8 },
    /// `Fx1E`: `I += Vx`.
    AddI { x: u8 },
    /// `Fx29`: `I` = the address of the glyph for the low nibble of `Vx`.
    LdF { x: u8 },
    /// `Fx33`: the three decimal digits of `Vx` to `I`, `I+1`, `I+2`.
    LdB { x: u8 },
    /// `Fx55`: `V0..=Vx` to memory at `I`.
    Store { x: u8 },
    /// `Fx65`: `V0..=Vx` from memory at `I`.
    Load { x: u8 },
    /// A word that is none of the forms above; it does nothing.
    Unknown { op: u16 },
}

impl Instruction {
    /// Register numbers and the sprite height fit a nibble, addresses fit
    /// twelve bits.
    pub open spec fn wf(self) -> bool {
        match self {
            Instruction::Cls | Instruction::Ret | Instruction::Unknown { .. } => true,
            Instruction::Sys { nnn }
            | Instruction::Jp { nnn }
            | Instruction::Call { nnn }
            | Instruction::LdI { nnn }
            | Instruction::JpV0 { nnn } => nnn < 0x1000,
            Instruction::SeImm { x, .. }
            | Instruction::SneImm { x, .. }
            | Instruction::LdImm { x, .. }
            | Instruction::AddImm { x, .. }
            | Instruction::Rnd { x, .. }
            | Instruction::Shr { x }
            | Instruction::Shl { x }
            | Instruction::Skp { x }
            | Instruction::Sknp { x }
            | Instruction::LdVxDt { x }
            | Instruction::LdVxK { x }
            | Instruction::LdDtVx { x }
            | Instruction::LdStVx { x }
            | Instruction::AddI { x }
            | Instruction::LdF { x }
            | Instruction::LdB { x }
            | Instruction::Store { x }
            | Instruction::Load { x } => x < 16,
            Instruction::SeReg { x, y }
            | Instruction::LdReg { x, y }
            | Instruction::Or { x, y }
            | Instruction::And { x, y }
            | Instruction::Xor { x, y }
            | Instruction::AddReg { x, y }
            | Instruction::Sub { x, y }
            | Instruction::Subn { x, y }
            | Instruction::SneReg { x, y } => x < 16 && y < 16,
            Instruction::Drw { x, y, n } => x < 16 && y < 16 && n < 16,
        }
    }

    /// Tells whether the fields are in range.
    pub fn is_wf(&self) -> (ok: bool)
        ensures
            ok == self.wf(),
    {
        match *self {
            Instruction::Cls | Instruction::Ret | Instruction::Unknown { .. } => true,
            Instruction::Sys { nnn }
            | Instruction::Jp { nnn }
            | Instruction::Call { nnn }
            | Instruction::LdI { nnn }
            | Instruction::JpV0 { nnn } => nnn < 0x1000,
            Instruction::SeImm { x, .. }
            | Instruction::SneImm { x, .. }
            | Instruction::LdImm { x, .. }
            | Instruction::AddImm { x, .. }
            | Instruction::Rnd { x, .. }
            | Instruction::Shr { x }
            | Instruction::Shl { x }
            | Instruction::Skp { x }
            | Instruction::Sknp { x }
            | Instruction::LdVxDt { x }
            | Instruction::LdVxK { x }
            | Instruction::LdDtVx { x }
            | Instruction::LdStVx { x }
            | Instruction::AddI { x }
            | Instruction::LdF { x }
            | Instruction::LdB { x }
            | Instruction::Store { x }
            | Instruction::Load { x } => x < 16,
            Instruction::SeReg { x, y }
            | Instruction::LdReg { x, y }
            | Instruction::Or { x, y }
            | Instruction::And { x, y }
            | Instruction::Xor { x, y }
            | Instruction::AddReg { x, y }
            | Instruction::Sub { x, y }
            | Instruction::Subn { x, y }
            | Instruction::SneReg { x, y } => x < 16 && y < 16,
            Instruction::Drw { x, y, n } => x < 16 && y < 16 && n < 16,
        }
    }
}

/// The second nibble of an instruction word: the register `x`.
pub open spec fn field_x(op: u16) -> u8 {
    ((op / 256) % 16) as u8
}

/// The third nibble of an instruction word: the register `y`.
pub open spec fn field_y(op: u16) -> u8 {
    ((op / 16) % 16) as u8
}

/// The last nibble of an instruction word.
pub open spec fn field_n(op: u16) -> u8 {
    (op % 16) as u8
}

/// The low byte of an instruction word.
pub open spec fn field_kk(op: u16) -> u8 {
    (op % 256) as u8
}

/// The low twelve bits of an instruction word.
pub open spec fn field_nnn(op: u16) -> u16 {
    op % 4096
}

/// The instruction that the word `op` stands for. The first nibble selects
/// the form; for `0`, `8`, `E` and `F` the low byte or the low nibble selects
/// among several.
pub open spec fn decode_spec(op: u16) -> Instruction {
    let x = field_x(op);
    let y = field_y(op);
    let n = field_n(op);
    let kk = field_kk(op);
    let nnn = field_nnn(op);
    let top = op / 4096;
    if top == 0x0 {
        if op == 0x00E0 {
            Instruction::Cls
        } else if op == 0x00EE {
            Instruction::Ret
        } else {
            Instruction::Sys { nnn }
        }
    } else if top == 0x1 {
        Instruction::Jp { nnn }
    } else if top == 0x2 {
        Instruction::Call { nnn }
    } else if top == 0x3 {
        Instruction::SeImm { x, kk }
    } else if top == 0x4 {
        Instruction::SneImm { x, kk }
    } else if top == 0x5 {
        Instruction::SeReg { x, y }
    } else if top == 0x6 {
        Instruction::LdImm { x, kk }
    } else if top == 0x7 {
        Instruction::AddImm { x, kk }
    } else if top == 0x8 {
        if n == 0x0 {
            Instruction::LdReg { x, y }
        } else if n == 0x1 {
            Instruction::Or { x, y }
        } else if n == 0x2 {
            Instruction::And { x, y }
        } else if n == 0x3 {
            Instruction::Xor { x, y }
        } else if n == 0x4 {
            Instruction::AddReg { x, y }
        } else if n == 0x5 {
            Instruction::Sub { x, y }
        } else if n == 0x6 {
            Instruction::Shr { x }
        } else if n == 0x7 {
            Instruction::Subn { x, y }
        } else if n == 0xE {
            Instruction::Shl { x }
        } else {
            Instruction::Unknown { op }
        }
    } else if top == 0x9 {
        Instruction::SneReg { x, y }
    } else if top == 0xA {
        Instruction::LdI { nnn }
    } else if top == 0xB {
        Instruction::JpV0 { nnn }
    } else if top == 0xC {
        Instruction::Rnd { x, kk }
    } else if top == 0xD {
        Instruction::Drw { x, y, n }
    } else if top == 0xE {
        if kk == 0x9E {
            Instruction::Skp { x }
        } else if kk == 0xA1 {
            Instruction::Sknp { x }
        } else {
            Instruction::Unknown { op }
        }
    } else {
        if kk == 0x07 {
            Instruction::LdVxDt { x }
        } else if kk == 0x0A {
            Instruction::LdVxK { x }
        } else if kk == 0x15 {
            Instruction::LdDtVx { x }
        } else if kk == 0x18 {
            Instruction::LdStVx { x }
        } else if kk == 0x1E {
            Instruction::AddI { x }
        } else if kk == 0x29 {
            Instruction::LdF { x }
        } else if kk == 0x33 {
            Instruction::LdB { x }
        } else if kk == 0x55 {
            Instruction::Store { x }
        } else if kk == 0x65 {
            Instruction::Load { x }
        } else {
            Instruction::Unknown { op }
        }
    }
}

/// What a word decodes to has its fields in range.
pub proof fn lemma_decode_wf(op: u16)
    ensures
        decode_spec(op).wf(),
{
}

/// Decodes one instruction word. Every word decodes; one that matches no
/// form comes back as `Unknown` with the word in it.
pub fn decode(op: u16) -> (ins: Instruction)
    ensures
        ins == decode_spec(op),
        ins.wf(),
{
    let x: u8 = ((op >> 8) & 0xF) as u8;
    let y: u8 = ((op >> 4) & 0xF) as u8;
    let n: u8 = (op & 0xF) as u8;
    let kk: u8 = (op & 0xFF) as u8;
    let nnn: u16 = op & 0xFFF;
    let top: u16 = op >> 12;
    assert((op >> 8) & 0xF == (op / 256) % 16) by (bit_vector);
    assert((op >> 4) & 0xF == (op / 16) % 16) by (bit_vector);
    assert(op & 0xF == op % 16) by (bit_vector);
    assert(op & 0xFF == op % 256) by (bit_vector);
    assert(op & 0xFFF == op % 4096) by (bit_vector);
    assert(op >> 12 == op / 4096) by (bit_vector);
    match top {
        0x0 => {
            if op == 0x00E0 {
                Instruction::Cls
            } else if op == 0x00EE {
                Instruction::Ret
            } else {
                Instruction::Sys { nnn }
            }
        },
        0x1 => Instruction::Jp { nnn },
        0x2 => Instruction::Call { nnn },
        0x3 => Instruction::SeImm { x, kk },
        0x4 => Instruction::SneImm { x, kk },
        0x5 => Instruction::SeReg { x, y },
        0x6 => Instruction::LdImm { x, kk },
        0x7 => Instruction::AddImm { x, kk },
        0x8 => match n {
            0x0 => Instruction::LdReg { x, y },
            0x1 => Instruction::Or { x, y },
            0x2 => Instruction::And { x, y },
            0x3 => Instruction::Xor { x, y },
            0x4 => Instruction::AddReg { x, y },
            0x5 => Instruction::Sub { x, y },
            0x6 => Instruction::Shr { x },
            0x7 => Instruction::Subn { x, y },
            0xE => Instruction::Shl { x },
            _ => Instruction::Unknown { op },
        },
        0x9 => Instruction::SneReg { x, y },
        0xA => Instruction::LdI { nnn },
        0xB => Instruction::JpV0 { nnn },
        0xC => Instruction::Rnd { x, kk },
        0xD => Instruction::Drw { x, y, n },
        0xE => match kk {
            0x9E => Instruction::Skp { x },
            0xA1 => Instruction::Sknp { x },
            _ => Instruction::Unknown { op },
        },
        _ => match kk {
            0x07 => Instruction::LdVxDt { x },
            0x0A => Instruction::LdVxK { x },
            0x15 => Instruction::LdDtVx { x },
            0x18 => Instruction::LdStVx { x },
            0x1E => Instruction::AddI { x },
            0x29 => Instruction::LdF { x },
            0x33 => Instruction::LdB { x },
            0x55 => Instruction::Store { x },
            0x65 => Instruction::Load { x },
            _ => Instruction::Unknown { op },
        },
    }
}

} // verus!
