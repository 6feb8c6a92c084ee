use chip8::{decode, mnemonic, opcode_str, Chip8, Instruction};

#[test]
fn decode_every_form() {
    assert_eq!(decode(0x00E0), Instruction::Cls);
    assert_eq!(decode(0x00EE), Instruction::Ret);
    assert_eq!(decode(0x0123), Instruction::Sys { nnn: 0x123 });
    assert_eq!(decode(0x0000), Instruction::Sys { nnn: 0 });
    assert_eq!(decode(0x1ABC), Instruction::Jp { nnn: 0xABC });
    assert_eq!(decode(0x2FFF), Instruction::Call { nnn: 0xFFF });
    assert_eq!(decode(0x3A12), Instruction::SeImm { x: 0xA, kk: 0x12 });
    assert_eq!(decode(0x4B34), Instruction::SneImm { x: 0xB, kk: 0x34 });
    assert_eq!(decode(0x5120), Instruction::SeReg { x: 1, y: 2 });
    assert_eq!(decode(0x5127), Instruction::SeReg { x: 1, y: 2 });
    assert_eq!(decode(0x600C), Instruction::LdImm { x: 0, kk: 0x0C });
    assert_eq!(decode(0x7EFF), Instruction::AddImm { x: 0xE, kk: 0xFF });
    assert_eq!(decode(0x8120), Instruction::LdReg { x: 1, y: 2 });
    assert_eq!(decode(0x8121), Instruction::Or { x: 1, y: 2 });
    assert_eq!(decode(0x8122), Instruction::And { x: 1, y: 2 });
    assert_eq!(decode(0x8123), Instruction::Xor { x: 1, y: 2 });
    assert_eq!(decode(0x8124), Instruction::AddReg { x: 1, y: 2 });
    assert_eq!(decode(0x8125), Instruction::Sub { x: 1, y: 2 });
    assert_eq!(decode(0x8126), Instruction::Shr { x: 1 });
    assert_eq!(decode(0x8127), Instruction::Subn { x: 1, y: 2 });
    assert_eq!(decode(0x812E), Instruction::Shl { x: 1 });
    assert_eq!(decode(0x9AB0), Instruction::SneReg { x: 0xA, y: 0xB });
    assert_eq!(decode(0xA234), Instruction::LdI { nnn: 0x234 });
    assert_eq!(decode(0xB100), Instruction::JpV0 { nnn: 0x100 });
    assert_eq!(decode(0xC30F), Instruction::Rnd { x: 3, kk: 0x0F });
    assert_eq!(decode(0xD125), Instruction::Drw { x: 1, y: 2, n: 5 });
    assert_eq!(decode(0xE49E), Instruction::Skp { x: 4 });
    assert_eq!(decode(0xE4A1), Instruction::Sknp { x: 4 });
    assert_eq!(decode(0xF507), Instruction::LdVxDt { x: 5 });
    assert_eq!(decode(0xF50A), Instruction::LdVxK { x: 5 });
    assert_eq!(decode(0xF515), Instruction::LdDtVx { x: 5 });
    assert_eq!(decode(0xF518), Instruction::LdStVx { x: 5 });
    assert_eq!(decode(0xF51E), Instruction::AddI { x: 5 });
    assert_eq!(decode(0xF529), Instruction::LdF { x: 5 });
    assert_eq!(decode(0xF533), Instruction::LdB { x: 5 });
    assert_eq!(decode(0xF555), Instruction::Store { x: 5 });
    assert_eq!(decode(0xF565), Instruction::Load { x: 5 });
}

#[test]
fn decode_unknown_forms() {
    for n in [0x8u16, 0x9, 0xA, 0xB, 0xC, 0xD, 0xF] {
        let op = 0x8120 | n;
        assert_eq!(decode(op), Instruction::Unknown { op });
    }
    assert_eq!(decode(0xE19F), Instruction::Unknown { op: 0xE19F });
    assert_eq!(decode(0xE000), Instruction::Unknown { op: 0xE000 });
    assert_eq!(decode(0xF000), Instruction::Unknown { op: 0xF000 });
    assert_eq!(decode(0xFFFF), Instruction::Unknown { op: 0xFFFF });
}

#[test]
fn decode_is_total_and_well_formed() {
    for op in 0..=0xFFFFu16 {
        assert!(decode(op).is_wf());
    }
}

#[test]
fn instruction_range_check() {
    assert!(Instruction::LdImm { x: 15, kk: 255 }.is_wf());
    assert!(!Instruction::LdImm { x: 16, kk: 0 }.is_wf());
    assert!(!Instruction::SeReg { x: 0, y: 16 }.is_wf());
    assert!(!Instruction::Drw { x: 0, y: 0, n: 16 }.is_wf());
    assert!(!Instruction::Jp { nnn: 0x1000 }.is_wf());
    assert!(Instruction::Unknown { op: 0xFFFF }.is_wf());
}

#[test]
fn mnemonics_of_every_form() {
    assert_eq!(opcode_str(0x00E0), "CLS");
    assert_eq!(opcode_str(0x00EE), "RET");
    assert_eq!(opcode_str(0x0123), "SYS 0x123");
    assert_eq!(opcode_str(0x1ABC), "JP 0xABC");
    assert_eq!(opcode_str(0x200F), "CALL 0x00F");
    assert_eq!(opcode_str(0x3A12), "SE VA, 0x12");
    assert_eq!(opcode_str(0x4B04), "SNE VB, 0x04");
    assert_eq!(opcode_str(0x5120), "SE V1, V2");
    assert_eq!(opcode_str(0x600C), "LD V0, 0x0C");
    assert_eq!(opcode_str(0x7EFF), "ADD VE, 0xFF");
    assert_eq!(opcode_str(0x8120), "LD V1, V2");
    assert_eq!(opcode_str(0x8121), "OR  V1, V2");
    assert_eq!(opcode_str(0x8122), "AND V1, V2");
    assert_eq!(opcode_str(0x8123), "XOR V1, V2");
    assert_eq!(opcode_str(0x8124), "ADD V1, V2");
    assert_eq!(opcode_str(0x8125), "SUB V1, V2");
    assert_eq!(opcode_str(0x8126), "SHR V1");
    assert_eq!(opcode_str(0x8127), "SUBN V1, V2");
    assert_eq!(opcode_str(0x812E), "SHL V1");
    assert_eq!(opcode_str(0x9AB0), "SNE VA, VB");
    assert_eq!(opcode_str(0xA234), "LD I, 0x234");
    assert_eq!(opcode_str(0xB100), "JP V0, 0x100");
    assert_eq!(opcode_str(0xC30F), "RND V3, 0x0F");
    assert_eq!(opcode_str(0xD125), "DRW V1, V2, 5");
    assert_eq!(opcode_str(0xD12F), "DRW V1, V2, 15");
    assert_eq!(opcode_str(0xD120), "DRW V1, V2, 0");
    assert_eq!(opcode_str(0xE49E), "SKP V4");
    assert_eq!(opcode_str(0xE4A1), "SKNP V4");
    assert_eq!(opcode_str(0xF507), "LD V5, DT");
    assert_eq!(opcode_str(0xF50A), "LD V5, K");
    assert_eq!(opcode_str(0xF515), "LD DT, V5");
    assert_eq!(opcode_str(0xF518), "LD ST, V5");
    assert_eq!(opcode_str(0xF51E), "ADD I, V5");
    assert_eq!(opcode_str(0xF529), "LD F, V5");
    assert_eq!(opcode_str(0xF533), "LD B, V5");
    assert_eq!(opcode_str(0xF555), "LD [I], V5");
    assert_eq!(opcode_str(0xF565), "LD V5, [I]");
}

#[test]
fn mnemonics_of_unknown_words() {
    assert_eq!(opcode_str(0x8128), "8XY8 ??");
    assert_eq!(opcode_str(0x812A), "8XY10 ??");
    assert_eq!(opcode_str(0x812F), "8XY15 ??");
    assert_eq!(opcode_str(0xE100), "EX0 ??");
    assert_eq!(opcode_str(0xE19F), "EX159 ??");
    assert_eq!(opcode_str(0xE1FF), "EX255 ??");
    assert_eq!(opcode_str(0xF100), "FX00 ??");
    assert_eq!(opcode_str(0xF1AB), "FXAB ??");
    assert_eq!(mnemonic(Instruction::Unknown { op: 0x1234 }), "0x1234 ??");
}

#[test]
fn mnemonic_agrees_with_decoder_on_every_word() {
    for op in 0..=0xFFFFu16 {
        assert_eq!(opcode_str(op), mnemonic(decode(op)));
    }
}

#[test]
fn mnemonic_hex_digits_are_upper_case() {
    let digits = "0123456789ABCDEF";
    for x in 0..16u16 {
        let d = &digits[x as usize..x as usize + 1];
        assert_eq!(opcode_str(0x8006 | (x << 8)), format!("SHR V{}", d));
        assert_eq!(opcode_str(0x1000 | (x << 8) | (x << 4) | x), format!("JP 0x{}{}{}", d, d, d));
    }
}

#[test]
fn trace_line_format() {
    let mut c = Chip8::new(true);
    assert_eq!(
        c.trace_line(0x600C),
        "PC:0200 V0:00 V1:00 V2:00 V3:00 V4:00 V5:00 V6:00 V7:00 V8:00 V9:00 VA:00 VB:00 VC:00 \
         VD:00 VE:00 VF:00 I:0000 DT:00 ST:00 LD V0, 0x0C"
    );
    c.pc = 0x0ABC;
    c.v[0] = 0x12;
    c.v[10] = 0xAB;
    c.v[15] = 0xFF;
    c.i = 0xF00D;
    c.delay = 0x3C;
    c.sound = 0x07;
    assert_eq!(
        c.trace_line(0x00E0),
        "PC:0ABC V0:12 V1:00 V2:00 V3:00 V4:00 V5:00 V6:00 V7:00 V8:00 V9:00 VA:AB VB:00 VC:00 \
         VD:00 VE:00 VF:FF I:F00D DT:3C ST:07 CLS"
    );
}
