use crate::decode::{decode, decode_spec, Instruction};
use crate::text::{
    decimal, hex_addr, hex_byte, hex_nibble, hex_word, push_decimal, push_hex_addr, push_hex_byte,
    push_hex_nibble, push_hex_word,
};
use vstd::prelude::*;
use vstd::string::StringExecFns;

verus! {

/// `head` followed by an address in three hexadecimal digits.
pub open spec fn with_addr(head: Seq<char>, nnn: u16) -> Seq<char> {
    head + hex_addr(nnn)
}

/// `head`, the register `x`, `tail`.
pub open spec fn with_reg(head: Seq<char>, x: u8, tail: Seq<char>) -> Seq<char> {
    head + hex_nibble(x) + tail
}

/// `head`, the register `x`, a comma and the byte `kk` in hexadecimal.
pub open spec fn with_reg_byte(head: Seq<char>, x: u8, kk: u8) -> Seq<char> {
    head + hex_nibble(x) + ", 0x"@ + hex_byte(kk)
}

/// `head`, the register `x`, a comma and the register `y`.
pub open spec fn with_reg_reg(head: Seq<char>, x: u8, y: u8) -> Seq<char> {
    head + hex_nibble(x) + ", V"@ + hex_nibble(y)
}

/// The text for a word that is no instruction: the form it falls under with
/// the field that was not recognised, and two question marks.
pub open spec fn unknown_text(op: u16) -> Seq<char> {
    let top = op / 4096;
    if top == 0x8 {
        "8XY"@ + decimal((op % 16) as nat) + " ??"@
    } else if top == 0xE {
        "EX"@ + decimal((op % 256) as nat) + " ??"@
    } else if top == 0xF {
        "FX"@ + hex_byte((op % 256) as u8) + " ??"@
    } else {
        "0x"@ + hex_word(op) + " ??"@
    }
}

/// The mnemonic of an instruction, operands included.
pub open spec fn mnemonic_spec(ins: Instruction) -> Seq<char> {
    match ins {
        Instruction::Cls => "CLS"@,
        Instruction::Ret => "RET"@,
        Instruction::Sys { nnn } => with_addr("SYS 0x"@, nnn),
        Instruction::Jp { nnn } => with_addr("JP 0x"@, nnn),
        Instruction::Call { nnn } => with_addr("CALL 0x"@, nnn),
        Instruction::SeImm { x, kk } => with_reg_byte("SE V"@, x, kk),
        Instruction::SneImm { x, kk } => with_reg_byte("SNE V"@, x, kk),
        Instruction::SeReg { x, y } => with_reg_reg("SE V"@, x, y),
        Instruction::LdImm { x, kk } => with_reg_byte("LD V"@, x, kk),
        Instruction::AddImm { x, kk } => with_reg_byte("ADD V"@, x, kk),
        Instruction::LdReg { x, y } => with_reg_reg("LD V"@, x, y),
        Instruction::Or { x, y } => with_reg_reg("OR  V"@, x, y),
        Instruction::And { x, y } => with_reg_reg("AND V"@, x, y),
        Instruction::Xor { x, y } => with_reg_reg("XOR V"@, x, y),
        Instruction::AddReg { x, y } => with_reg_reg("ADD V"@, x, y),
        Instruction::Sub { x, y } => with_reg_reg("SUB V"@, x, y),
        Instruction::Shr { x } => with_reg("SHR V"@, x, ""@),
        Instruction::Subn { x, y } => with_reg_reg("SUBN V"@, x, y),
        Instruction::Shl { x } => with_reg("SHL V"@, x, ""@),
        Instruction::SneReg { x, y } => with_reg_reg("SNE V"@, x, y),
        Instruction::LdI { nnn } => with_addr("LD I, 0x"@, nnn),
        Instruction::JpV0 { nnn } => with_addr("JP V0, 0x"@, nnn),
        Instruction::Rnd { x, kk } => with_reg_byte("RND V"@, x, kk),
        Instruction::Drw { x, y, n } => with_reg_reg("DRW V"@, x, y) + ", "@ + decimal(n as nat),
        Instruction::Skp { x } => with_reg("SKP V"@, x, ""@),
        Instruction::Sknp { x } => with_reg("SKNP V"@, x, ""@),
        Instruction::LdVxDt { x } => with_reg("LD V"@, x, ", DT"@),
        Instruction::LdVxK { x } => with_reg("LD V"@, x, ", K"@),
        Instruction::LdDtVx { x } => with_reg("LD DT, V"@, x, ""@),
        Instruction::LdStVx { x } => with_reg("LD ST, V"@, x, ""@),
        Instruction::AddI { x } => with_reg("ADD I, V"@, x, ""@),
        Instruction::LdF { x } => with_reg("LD F, V"@, x, ""@),
        Instruction::LdB { x } => with_reg("LD B, V"@, x, ""@),
        Instruction::Store { x } => with_reg("LD [I], V"@, x, ""@),
        Instruction::Load { x } => with_reg("LD V"@, x, ", [I]"@),
        Instruction::Unknown { op } => unknown_text(op),
    }
}

/// `head` and an address.
fn text_addr(head: &str, nnn: u16) -> (s: String)
    ensures
        s@ == with_addr(head@, nnn),
{
    let mut s: String = String::from_str(head);
    push_hex_addr(&mut s, nnn);
    s
}

/// `head`, a register and `tail`.
fn text_reg(head: &str, x: u8, tail: &str) -> (s: String)
    requires
        x < 16,
    ensures
        s@ == with_reg(head@, x, tail@),
{
    let mut s: String = String::from_str(head);
    push_hex_nibble(&mut s, x);
    s.append(tail);
    s
}

/// `head`, a register and a byte.
fn text_reg_byte(head: &str, x: u8, kk: u8) -> (s: String)
    requires
        x < 16,
    ensures
        s@ == with_reg_byte(head@, x, kk),
{
    let mut s: String = String::from_str(head);
    push_hex_nibble(&mut s, x);
    s.append(", 0x");
    push_hex_byte(&mut s, kk);
    s
}

/// `head` and two registers.
fn text_reg_reg(head: &str, x: u8, y: u8) -> (s: String)
    requires
        x < 16,
        y < 16,
    ensures
        s@ == with_reg_reg(head@, x, y),
{
    let mut s: String = String::from_str(head);
    push_hex_nibble(&mut s, x);
    s.append(", V");
    push_hex_nibble(&mut s, y);
    s
}

/// The text for a word that is no instruction.
fn text_unknown(op: u16) -> (s: String)
    ensures
        s@ == unknown_text(op),
{
    assert(op >> 12 == op / 4096 && op & 0xF == op % 16 && op & 0xFF == op % 256) by (bit_vector);
    let top: u16 = op >> 12;
    if top == 0x8 {
        let mut s: String = String::from_str("8XY");
        push_decimal(&mut s, (op & 0xF) as u64);
        s.append(" ??");
        s
    } else if top == 0xE {
        let mut s: String = String::from_str("EX");
        push_decimal(&mut s, (op & 0xFF) as u64);
        s.append(" ??");
        s
    } else if top == 0xF {
        let mut s: String = String::from_str("FX");
        push_hex_byte(&mut s, (op & 0xFF) as u8);
        s.append(" ??");
        s
    } else {
        let mut s: String = String::from_str("0x");
        push_hex_word(&mut s, op);
        s.append(" ??");
        s
    }
}

/// The mnemonic of a decoded instruction.
pub fn mnemonic(ins: Instruction) -> (s: String)
    requires
        ins.wf(),
    ensures
        s@ == mnemonic_spec(ins),
{
    match ins {
        Instruction::Cls => String::from_str("CLS"),
        Instruction::Ret => String::from_str("RET"),
        Instruction::Sys { nnn } => text_addr("SYS 0x", nnn),
        Instruction::Jp { nnn } => text_addr("JP 0x", nnn),
        Instruction::Call { nnn } => text_addr("CALL 0x", nnn),
        Instruction::SeImm { x, kk } => text_reg_byte("SE V", x, kk),
        Instruction::SneImm { x, kk } => text_reg_byte("SNE V", x, kk),
        Instruction::SeReg { x, y } => text_reg_reg("SE V", x, y),
        Instruction::LdImm { x, kk } => text_reg_byte("LD V", x, kk),
        Instruction::AddImm { x, kk } => text_reg_byte("ADD V", x, kk),
        Instruction::LdReg { x, y } => text_reg_reg("LD V", x, y),
        Instruction::Or { x, y } => text_reg_reg("OR  V", x, y),
        Instruction::And { x, y } => text_reg_reg("AND V", x, y),
        Instruction::Xor { x, y } => text_reg_reg("XOR V", x, y),
        Instruction::AddReg { x, y } => text_reg_reg("ADD V", x, y),
        Instruction::Sub { x, y } => text_reg_reg("SUB V", x, y),
        Instruction::Shr { x } => text_reg("SHR V", x, ""),
        Instruction::Subn { x, y } => text_reg_reg("SUBN V", x, y),
        Instruction::Shl { x } => text_reg("SHL V", x, ""),
        Instruction::SneReg { x, y } => text_reg_reg("SNE V", x, y),
        Instruction::LdI { nnn } => text_addr("LD I, 0x", nnn),
        Instruction::JpV0 { nnn } => text_addr("JP V0, 0x", nnn),
        Instruction::Rnd { x, kk } => text_reg_byte("RND V", x, kk),
        Instruction::Drw { x, y, n } => {
            let mut s: String = text_reg_reg("DRW V", x, y);
            s.append(", ");
            push_decimal(&mut s, n as u64);
            s
        },
        Instruction::Skp { x } => text_reg("SKP V", x, ""),
        Instruction::Sknp { x } => text_reg("SKNP V", x, ""),
        Instruction::LdVxDt { x } => text_reg("LD V", x, ", DT"),
        Instruction::LdVxK { x } => text_reg("LD V", x, ", K"),
        Instruction::LdDtVx { x } => text_reg("LD DT, V", x, ""),
        Instruction::LdStVx { x } => text_reg("LD ST, V", x, ""),
        Instruction::AddI { x } => text_reg("ADD I, V", x, ""),
        Instruction::LdF { x } => text_reg("LD F, V", x, ""),
        Instruction::LdB { x } => text_reg("LD B, V", x, ""),
        Instruction::Store { x } => text_reg("LD [I], V", x, ""),
        Instruction::Load { x } => text_reg("LD V", x, ", [I]"),
        Instruction::Unknown { op } => text_unknown(op),
    }
}

/// The mnemonic of an instruction word: that of the instruction it decodes
/// to, so that listing and execution never disagree on what a word is.
pub fn opcode_str(op: u16) -> (s: String)
    ensures
        s@ == mnemonic_spec(decode_spec(op)),
{
    mnemonic(decode(op))
}

} // verus!
