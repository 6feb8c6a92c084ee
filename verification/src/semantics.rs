use crate::decode::{decode_spec, Instruction};
use crate::display::drawn;
use crate::error::Fault;
use crate::machine::Machine;
use crate::random::next_draw;
use vstd::prelude::*;

verus! {

/// How a step ended.
#[derive(Clone, Copy, Debug, PartialEq, Eq, Structural)]
pub enum Status {
    /// An instruction was carried out.
    Running,
    /// The program counter stands behind the last address at which an
    /// instruction fits; nothing was done.
    Halted,
    /// The instruction cannot be carried out; nothing was done.
    Faulted(Fault),
}

/// A sum or difference reduced to sixteen bits.
pub open spec fn wrap16(n: int) -> u16 {
    (n % 0x10000) as u16
}

/// A sum or difference reduced to eight bits.
pub open spec fn wrap8(n: int) -> u8 {
    (n % 0x100) as u8
}

/// The value of register `x`.
pub open spec fn reg(m: Machine, x: u8) -> u8 {
    m.v[x as int]
}

/// The machine with register `x` set to `val`.
pub open spec fn set_reg(m: Machine, x: u8, val: u8) -> Machine {
    Machine { v: m.v.update(x as int, val), ..m }
}

/// The machine with VF set to 1 if `flag` holds, to 0 otherwise.
pub open spec fn set_flag(m: Machine, flag: bool) -> Machine {
    set_reg(m, 0xF, if flag { 1u8 } else { 0u8 })
}

/// The machine with the program counter moved past one more instruction if
/// `cond` holds.
pub open spec fn skip_if(m: Machine, cond: bool) -> Machine {
    if cond {
        Machine { pc: wrap16(m.pc + 2), ..m }
    } else {
        m
    }
}

/// Whether `k` is a held key and no key below it is held.
pub open spec fn is_lowest_held(keys: Seq<bool>, k: int) -> bool {
    &&& 0 <= k < 16
    &&& keys[k]
    &&& forall|j: int| 0 <= j < k ==> !keys[j]
}

/// Whether any of the sixteen keys is held.
pub open spec fn any_key_held(keys: Seq<bool>) -> bool {
    exists|k: int| 0 <= k < 16 && keys[k]
}

/// The lowest held key, where one is held.
pub open spec fn lowest_held(keys: Seq<bool>) -> int {
    choose|k: int| is_lowest_held(keys, k)
}

/// Memory after the hundreds, tens and units of `val` were written to `I`,
/// `I+1` and `I+2`.
pub open spec fn with_decimal(m: Machine, val: u8) -> Machine {
    Machine {
        mem: m.mem.update(m.i as int, val / 100).update(m.i + 1, (val % 100) / 10).update(
            m.i + 2,
            val % 10,
        ),
        ..m
    }
}

/// Memory after `V0..=Vx` were written from `I` on; `I` stays.
pub open spec fn with_stored(m: Machine, x: u8) -> Machine {
    Machine {
        mem: Seq::new(
            4096,
            |a: int| if m.i <= a <= m.i + x { m.v[a - m.i] } else { m.mem[a] },
        ),
        ..m
    }
}

/// The registers after `V0..=Vx` were read from `I` on; `I` stays.
pub open spec fn with_loaded(m: Machine, x: u8) -> Machine {
    Machine { v: Seq::new(16, |r: int| if r <= x { m.mem[m.i + r] } else { m.v[r] }), ..m }
}

/// The condition, if any, under which `ins` cannot be carried out in `m`.
pub open spec fn fault_spec(m: Machine, ins: Instruction) -> Option<Fault> {
    match ins {
        Instruction::Ret => if m.sp == 0 {
            Some(Fault::StackUnderflow)
        } else {
            None
        },
        Instruction::Call { .. } => if m.sp >= 16 {
            Some(Fault::StackOverflow)
        } else {
            None
        },
        Instruction::Drw { n, .. } => if n > 0 && m.i + n > 4096 {
            Some(Fault::AddressOutOfRange)
        } else {
            None
        },
        Instruction::Skp { x } | Instruction::Sknp { x } => if reg(m, x) >= 16 {
            Some(Fault::KeyOutOfRange)
        } else {
            None
        },
        Instruction::LdB { .. } => if m.i + 2 >= 4096 {
            Some(Fault::AddressOutOfRange)
        } else {
            None
        },
        Instruction::Store { x } | Instruction::Load { x } => if m.i + x >= 4096 {
            Some(Fault::AddressOutOfRange)
        } else {
            None
        },
        _ => None,
    }
}

/// What `ins` does to a machine whose program counter already stands behind
/// it. `rnd` is the byte that `RND` uses; the generator is not touched.
/// Meant for instructions that `fault_spec` lets pass.
pub open spec fn exec_spec(m: Machine, ins: Instruction, rnd: u8) -> Machine {
    match ins {
        Instruction::Cls => m.cleared(),
        Instruction::Ret => Machine { sp: (m.sp - 1) as u8, pc: m.stack[m.sp - 1], ..m },
        Instruction::Sys { .. } => m,
        Instruction::Jp { nnn } => Machine { pc: nnn, ..m },
        Instruction::Call { nnn } => Machine {
            stack: m.stack.update(m.sp as int, m.pc),
            sp: (m.sp + 1) as u8,
            pc: nnn,
            ..m
        },
        Instruction::SeImm { x, kk } => skip_if(m, reg(m, x) == kk),
        Instruction::SneImm { x, kk } => skip_if(m, reg(m, x) != kk),
        Instruction::SeReg { x, y } => skip_if(m, reg(m, x) == reg(m, y)),
        Instruction::LdImm { x, kk } => set_reg(m, x, kk),
        Instruction::AddImm { x, kk } => set_reg(m, x, wrap8(reg(m, x) + kk)),
        Instruction::LdReg { x, y } => set_reg(m, x, reg(m, y)),
        Instruction::Or { x, y } => set_reg(m, x, reg(m, x) | reg(m, y)),
        Instruction::And { x, y } => set_reg(m, x, reg(m, x) & reg(m, y)),
        Instruction::Xor { x, y } => set_reg(m, x, reg(m, x) ^ reg(m, y)),
        Instruction::AddReg { x, y } => set_flag(
            set_reg(m, x, wrap8(reg(m, x) + reg(m, y))),
            reg(m, x) + reg(m, y) > 255,
        ),
        Instruction::Sub { x, y } => set_flag(
            set_reg(m, x, wrap8(reg(m, x) - reg(m, y))),
            reg(m, x) >= reg(m, y),
        ),
        Instruction::Shr { x } => {
            let flagged = set_flag(m, reg(m, x) % 2 == 1);
            set_reg(flagged, x, reg(flagged, x) / 2)
        },
        Instruction::Subn { x, y } => set_flag(
            set_reg(m, x, wrap8(reg(m, y) - reg(m, x))),
            reg(m, y) >= reg(m, x),
        ),
        Instruction::Shl { x } => {
            let flagged = set_flag(m, reg(m, x) >= 128);
            set_reg(flagged, x, wrap8(reg(flagged, x) * 2))
        },
        Instruction::SneReg { x, y } => skip_if(m, reg(m, x) != reg(m, y)),
        Instruction::LdI { nnn } => Machine { i: nnn, ..m },
        Instruction::JpV0 { nnn } => Machine { pc: wrap16(nnn + reg(m, 0)), ..m },
        Instruction::Rnd { x, kk } => set_reg(m, x, rnd & kk),
        Instruction::Drw { x, y, n } => drawn(m, x, y, n),
        Instruction::Skp { x } => skip_if(m, m.keys[reg(m, x) as int]),
        Instruction::Sknp { x } => skip_if(m, !m.keys[reg(m, x) as int]),
        Instruction::LdVxDt { x } => set_reg(m, x, m.delay),
        Instruction::LdVxK { x } => if any_key_held(m.keys) {
            set_reg(m, x, lowest_held(m.keys) as u8)
        } else {
            Machine { pc: wrap16(m.pc - 2), ..m }
        },
        Instruction::LdDtVx { x } => Machine { delay: reg(m, x), ..m },
        Instruction::LdStVx { x } => Machine { sound: reg(m, x), ..m },
        Instruction::AddI { x } => Machine { i: wrap16(m.i + reg(m, x)), ..m },
        Instruction::LdF { x } => Machine { i: (5 * (reg(m, x) % 16)) as u16, ..m },
        Instruction::LdB { x } => with_decimal(m, reg(m, x)),
        Instruction::Store { x } => with_stored(m, x),
        Instruction::Load { x } => with_loaded(m, x),
        Instruction::Unknown { .. } => m,
    }
}

/// Whether the program counter stands behind the last address at which an
/// instruction fits, which is 4094.
pub open spec fn halted(m: Machine) -> bool {
    m.pc >= 4095
}

/// The instruction word at the program counter: the byte there is the high
/// byte, the next one the low byte.
pub open spec fn fetch_spec(m: Machine) -> u16 {
    (m.mem[m.pc as int] * 256 + m.mem[m.pc + 1]) as u16
}

/// One step with the byte for `RND` given: nothing where the machine is
/// halted or the instruction at the program counter faults; else the program
/// counter moves behind the instruction and the instruction is carried out.
/// The generator is not touched.
pub open spec fn step_spec(m: Machine, rnd: u8) -> (Machine, Status) {
    if halted(m) {
        (m, Status::Halted)
    } else {
        let ins = decode_spec(fetch_spec(m));
        match fault_spec(m, ins) {
            Some(fault) => (m, Status::Faulted(fault)),
            None => (exec_spec(Machine { pc: (m.pc + 2) as u16, ..m }, ins, rnd), Status::Running),
        }
    }
}

/// Whether the next step draws a byte: the machine is not halted and the
/// instruction at the program counter is `RND`.
pub open spec fn draws_byte(m: Machine) -> bool {
    !halted(m) && decode_spec(fetch_spec(m)) is Rnd
}

/// One step that takes the byte for `RND` from the machine's generator: where
/// the step draws, the generator moves on by one draw and the step uses the
/// byte drawn; where it does not, the generator stays as it is.
pub open spec fn drawing_step_spec(m: Machine) -> (Machine, Status) {
    if draws_byte(m) {
        step_spec(Machine { rng: next_draw(m.rng).1, ..m }, next_draw(m.rng).0)
    } else {
        step_spec(m, 0)
    }
}

} // verus!
