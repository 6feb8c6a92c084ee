use crate::decode::{decode, decode_spec, lemma_decode_wf, Instruction};
use crate::error::Fault;
use crate::machine::{Chip8, Machine};
use crate::random::{next_draw, next_random_byte};
use crate::semantics::{
    any_key_held, drawing_step_spec, exec_spec, fault_spec, fetch_spec, halted, is_lowest_held,
    lowest_held, reg, set_flag, skip_if, step_spec, with_decimal, with_loaded, with_stored, Status,
};
use vstd::prelude::*;

verus! {

/// The lowest held key is the one that `is_lowest_held` singles out.
pub proof fn lemma_lowest_held(keys: Seq<bool>, k: int)
    requires
        is_lowest_held(keys, k),
    ensures
        any_key_held(keys),
        lowest_held(keys) == k,
{
    let c = lowest_held(keys);
    assert(is_lowest_held(keys, c));
    if c < k {
        assert(!keys[c]);
    }
    if k < c {
        assert(!keys[k]);
    }
}

/// The instructions that only move the program counter or the stack.
spec fn is_control(ins: Instruction) -> bool {
    ins is Ret || ins is Jp || ins is Call || ins is SeImm || ins is SneImm || ins is SeReg
        || ins is SneReg || ins is JpV0 || ins is Skp || ins is Sknp
}

/// The instructions that compute a register from registers and bytes.
spec fn is_arithmetic(ins: Instruction) -> bool {
    ins is LdImm || ins is AddImm || ins is LdReg || ins is Or || ins is And || ins is Xor
        || ins is AddReg || ins is Sub || ins is Shr || ins is Subn || ins is Shl || ins is Rnd
        || ins is LdVxDt
}

/// Tells whether `ins` only moves the program counter or the stack.
fn control(ins: Instruction) -> (b: bool)
    ensures
        b == is_control(ins),
{
    match ins {
        Instruction::Ret
        | Instruction::Jp { .. }
        | Instruction::Call { .. }
        | Instruction::SeImm { .. }
        | Instruction::SneImm { .. }
        | Instruction::SeReg { .. }
        | Instruction::SneReg { .. }
        | Instruction::JpV0 { .. }
        | Instruction::Skp { .. }
        | Instruction::Sknp { .. } => true,
        _ => false,
    }
}

/// Tells whether `ins` computes a register from registers and bytes.
fn arithmetic(ins: Instruction) -> (b: bool)
    ensures
        b == is_arithmetic(ins),
{
    match ins {
        Instruction::LdImm { .. }
        | Instruction::AddImm { .. }
        | Instruction::LdReg { .. }
        | Instruction::Or { .. }
        | Instruction::And { .. }
        | Instruction::Xor { .. }
        | Instruction::AddReg { .. }
        | Instruction::Sub { .. }
        | Instruction::Shr { .. }
        | Instruction::Subn { .. }
        | Instruction::Shl { .. }
        | Instruction::Rnd { .. }
        | Instruction::LdVxDt { .. } => true,
        _ => false,
    }
}

impl Chip8 {
    /// Tells whether the program counter stands behind the last address at
    /// which an instruction fits.
    pub fn is_halted(&self) -> (h: bool)
        ensures
            h == halted(self@),
    {
        self.pc >= 4095
    }

    /// Reads the instruction word at the program counter, high byte first.
    pub fn fetch(&self) -> (op: u16)
        requires
            !halted(self@),
        ensures
            op == fetch_spec(self@),
    {
        let hi: u16 = self.mem[self.pc as usize] as u16;
        let lo: u16 = self.mem[self.pc as usize + 1] as u16;
        assert(hi << 8 | lo == hi * 256 + lo) by (bit_vector)
            requires
                hi < 256,
                lo < 256,
        ;
        hi << 8 | lo
    }

    /// Tells whether `ins` can be carried out, and if not, why.
    pub fn fault(&self, ins: Instruction) -> (f: Option<Fault>)
        requires
            ins.wf(),
        ensures
            f == fault_spec(self@, ins),
    {
        match ins {
            Instruction::Ret => if self.sp == 0 {
                Some(Fault::StackUnderflow)
            } else {
                None
            },
            Instruction::Call { .. } => if self.sp >= 16 {
                Some(Fault::StackOverflow)
            } else {
                None
            },
            Instruction::Drw { n, .. } => if n > 0 && self.i as usize + n as usize > 4096 {
                Some(Fault::AddressOutOfRange)
            } else {
                None
            },
            Instruction::Skp { x } | Instruction::Sknp { x } => if self.v[x as usize] >= 16 {
                Some(Fault::KeyOutOfRange)
            } else {
                None
            },
            Instruction::LdB { .. } => if self.i as usize + 2 >= 4096 {
                Some(Fault::AddressOutOfRange)
            } else {
                None
            },
            Instruction::Store { x } | Instruction::Load { x } => if self.i as usize + x as usize
                >= 4096 {
                Some(Fault::AddressOutOfRange)
            } else {
                None
            },
            _ => None,
        }
    }

    /// Moves the program counter past one more instruction if `cond` holds.
    fn skip(&mut self, cond: bool)
        ensures
            final(self)@ == skip_if(old(self)@, cond),
    {
        if cond {
            self.pc = self.pc.wrapping_add(2);
        }
    }

    /// Sets VF to 1 if `flag` holds, to 0 otherwise.
    fn set_flag(&mut self, flag: bool)
        ensures
            final(self)@ == set_flag(old(self)@, flag),
    {
        self.v[0xF] = if flag {
            1
        } else {
            0
        };
    }

    /// `LD Vx, K`: puts the lowest held key in `Vx`, or, where no key is
    /// held, moves the program counter back onto this instruction.
    fn wait_key(&mut self, x: u8)
        requires
            x < 16,
        ensures
            final(self)@ == exec_spec(old(self)@, Instruction::LdVxK { x }, 0),
    {
        let mut k: u8 = 0;
        while k < 16
            invariant
                k <= 16,
                x < 16,
                self@ == old(self)@,
                forall|j: int| 0 <= j < k ==> !self.keys@[j],
            decreases 16 - k,
        {
            if self.keys[k as usize] {
                proof {
                    lemma_lowest_held(self.keys@, k as int);
                }
                self.v[x as usize] = k;
                return ;
            }
            k += 1;
        }
        self.pc = self.pc.wrapping_sub(2);
    }

    /// `LD B, Vx`: writes the hundreds, tens and units of `Vx` at `I`.
    fn store_decimal(&mut self, x: u8)
        requires
            x < 16,
            old(self).i + 2 < 4096,
        ensures
            final(self)@ == with_decimal(old(self)@, reg(old(self)@, x)),
    {
        let val: u8 = self.v[x as usize];
        let at: usize = self.i as usize;
        self.mem[at] = val / 100;
        self.mem[at + 1] = (val % 100) / 10;
        self.mem[at + 2] = val % 10;
    }

    /// `LD [I], Vx`: writes `V0..=Vx` to memory from `I` on.
    fn store_registers(&mut self, x: u8)
        requires
            x < 16,
            old(self).i + x < 4096,
        ensures
            final(self)@ == with_stored(old(self)@, x),
    {
        let at: usize = self.i as usize;
        let mut r: usize = 0;
        while r <= x as usize
            invariant
                r <= x + 1,
                x < 16,
                at == old(self).i,
                at + x < 4096,
                self@ == (Machine { mem: self.mem@, ..old(self)@ }),
                forall|a: int|
                    0 <= a < 4096 ==> self.mem@[a] == if at <= a < at + r {
                        old(self).v@[a - at]
                    } else {
                        old(self).mem@[a]
                    },
            decreases x + 1 - r,
        {
            self.mem[at + r] = self.v[r];
            r += 1;
        }
        assert(self.mem@ =~= with_stored(old(self)@, x).mem);
    }

    /// `LD Vx, [I]`: reads `V0..=Vx` from memory from `I` on.
    fn load_registers(&mut self, x: u8)
        requires
            x < 16,
            old(self).i + x < 4096,
        ensures
            final(self)@ == with_loaded(old(self)@, x),
    {
        let at: usize = self.i as usize;
        let mut r: usize = 0;
        while r <= x as usize
            invariant
                r <= x + 1,
                x < 16,
                at == old(self).i,
                at + x < 4096,
                self@ == (Machine { v: self.v@, ..old(self)@ }),
                forall|j: int|
                    0 <= j < 16 ==> self.v@[j] == if j < r {
                        old(self).mem@[at + j]
                    } else {
                        old(self).v@[j]
                    },
            decreases x + 1 - r,
        {
            self.v[r] = self.mem[at + r];
            r += 1;
        }
        assert(self.v@ =~= with_loaded(old(self)@, x).v);
    }

    /// The instructions that only move the program counter or the stack.
    fn run_control(&mut self, ins: Instruction)
        requires
            old(self).wf(),
            ins.wf(),
            is_control(ins),
            fault_spec(old(self)@, ins) is None,
        ensures
            final(self).wf(),
            final(self)@ == exec_spec(old(self)@, ins, 0),
    {
        match ins {
            Instruction::Ret => {
                self.sp -= 1;
                self.pc = self.stack[self.sp as usize];
            },
            Instruction::Jp { nnn } => {
                self.pc = nnn;
            },
            Instruction::Call { nnn } => {
                self.stack[self.sp as usize] = self.pc;
                self.sp += 1;
                self.pc = nnn;
            },
            Instruction::SeImm { x, kk } => {
                let cond: bool = self.v[x as usize] == kk;
                self.skip(cond);
            },
            Instruction::SneImm { x, kk } => {
                let cond: bool = self.v[x as usize] != kk;
                self.skip(cond);
            },
            Instruction::SeReg { x, y } => {
                let cond: bool = self.v[x as usize] == self.v[y as usize];
                self.skip(cond);
            },
            Instruction::SneReg { x, y } => {
                let cond: bool = self.v[x as usize] != self.v[y as usize];
                self.skip(cond);
            },
            Instruction::JpV0 { nnn } => {
                self.pc = nnn.wrapping_add(self.v[0] as u16);
            },
            Instruction::Skp { x } => {
                let cond: bool = self.keys[self.v[x as usize] as usize];
                self.skip(cond);
            },
            Instruction::Sknp { x } => {
                let cond: bool = !self.keys[self.v[x as usize] as usize];
                self.skip(cond);
            },
            _ => {},
        }
    }

    /// The instructions that compute a register from registers and bytes.
    fn run_arithmetic(&mut self, ins: Instruction, rnd: u8)
        requires
            ins.wf(),
            is_arithmetic(ins),
        ensures
            final(self)@ == exec_spec(old(self)@, ins, rnd),
    {
        match ins {
            Instruction::LdImm { x, kk } => {
                self.v[x as usize] = kk;
            },
            Instruction::AddImm { x, kk } => {
                self.v[x as usize] = self.v[x as usize].wrapping_add(kk);
            },
            Instruction::LdReg { x, y } => {
                self.v[x as usize] = self.v[y as usize];
            },
            Instruction::Or { x, y } => {
                self.v[x as usize] = self.v[x as usize] | self.v[y as usize];
            },
            Instruction::And { x, y } => {
                self.v[x as usize] = self.v[x as usize] & self.v[y as usize];
            },
            Instruction::Xor { x, y } => {
                self.v[x as usize] = self.v[x as usize] ^ self.v[y as usize];
            },
            Instruction::AddReg { x, y } => {
                let a: u8 = self.v[x as usize];
                let b: u8 = self.v[y as usize];
                self.v[x as usize] = a.wrapping_add(b);
                self.set_flag(a as u16 + b as u16 > 255);
            },
            Instruction::Sub { x, y } => {
                let a: u8 = self.v[x as usize];
                let b: u8 = self.v[y as usize];
                self.v[x as usize] = a.wrapping_sub(b);
                self.set_flag(a >= b);
            },
            Instruction::Shr { x } => {
                let before: u8 = self.v[x as usize];
                assert(before & 1 == before % 2) by (bit_vector);
                self.set_flag(before & 1 == 1);
                let val: u8 = self.v[x as usize];
                assert(val >> 1 == val / 2) by (bit_vector);
                self.v[x as usize] = val >> 1;
            },
            Instruction::Subn { x, y } => {
                let a: u8 = self.v[y as usize];
                let b: u8 = self.v[x as usize];
                self.v[x as usize] = a.wrapping_sub(b);
                self.set_flag(a >= b);
            },
            Instruction::Shl { x } => {
                let before: u8 = self.v[x as usize];
                assert(((before & 0x80) >> 7 == 1) == (before >= 128)) by (bit_vector);
                self.set_flag((before & 0x80) >> 7 == 1);
                let val: u8 = self.v[x as usize];
                assert(val << 1 == (val * 2) % 256) by (bit_vector);
                self.v[x as usize] = val << 1;
            },
            Instruction::Rnd { x, kk } => {
                self.v[x as usize] = rnd & kk;
            },
            Instruction::LdVxDt { x } => {
                self.v[x as usize] = self.delay;
            },
            _ => {},
        }
    }

    /// The instructions that work on memory, the display, `I` and the
    /// timers, and those that do nothing.
    fn run_other(&mut self, ins: Instruction)
        requires
            ins.wf(),
            !is_control(ins),
            !is_arithmetic(ins),
            fault_spec(old(self)@, ins) is None,
        ensures
            final(self)@ == exec_spec(old(self)@, ins, 0),
    {
        match ins {
            Instruction::Cls => self.clear_d(),
            Instruction::LdI { nnn } => {
                self.i = nnn;
            },
            Instruction::Drw { x, y, n } => self.draw_sprite(x, y, n),
            Instruction::LdVxK { x } => self.wait_key(x),
            Instruction::LdDtVx { x } => {
                self.delay = self.v[x as usize];
            },
            Instruction::LdStVx { x } => {
                self.sound = self.v[x as usize];
            },
            Instruction::AddI { x } => {
                self.i = self.i.wrapping_add(self.v[x as usize] as u16);
            },
            Instruction::LdF { x } => {
                let val: u8 = self.v[x as usize];
                assert(val & 0xF == val % 16) by (bit_vector);
                self.i = (val & 0xF) as u16 * 5;
            },
            Instruction::LdB { x } => self.store_decimal(x),
            Instruction::Store { x } => self.store_registers(x),
            Instruction::Load { x } => self.load_registers(x),
            _ => {},
        }
    }

    /// Carries out one decoded instruction on a machine whose program
    /// counter already stands behind it. `rnd` is the byte that `RND` uses.
    /// An instruction that cannot be carried out leaves the machine as it
    /// is and comes back as the fault.
    pub fn execute(&mut self, ins: Instruction, rnd: u8) -> (r: Result<(), Fault>)
        requires
            old(self).wf(),
            ins.wf(),
        ensures
            final(self).wf(),
            match fault_spec(old(self)@, ins) {
                Some(fault) => r == Err::<(), Fault>(fault) && final(self)@ == old(self)@,
                None => r == Ok::<(), Fault>(()) && final(self)@ == exec_spec(
                    old(self)@,
                    ins,
                    rnd,
                ),
            },
    {
        if let Some(fault) = self.fault(ins) {
            return Err(fault);
        }
        if control(ins) {
            self.run_control(ins);
        } else if arithmetic(ins) {
            self.run_arithmetic(ins, rnd);
        } else {
            self.run_other(ins);
        }
        Ok(())
    }

    /// Moves the program counter behind the instruction it stands at and
    /// carries that instruction out, or leaves everything as it is where the
    /// instruction faults.
    pub(crate) fn advance(&mut self, ins: Instruction, rnd: u8) -> (s: Status)
        requires
            old(self).wf(),
            !halted(old(self)@),
            ins == decode_spec(fetch_spec(old(self)@)),
        ensures
            final(self).wf(),
            (final(self)@, s) == step_spec(old(self)@, rnd),
    {
        let at: u16 = self.pc;
        proof {
            lemma_decode_wf(fetch_spec(self@));
        }
        self.pc = at + 2;
        match self.execute(ins, rnd) {
            Ok(()) => Status::Running,
            Err(fault) => {
                self.pc = at;
                Status::Faulted(fault)
            },
        }
    }

    /// One step with the byte for `RND` given: where the machine is neither
    /// halted nor the instruction at the program counter faults, moves the
    /// program counter behind that instruction and carries it out.
    pub fn step_with(&mut self, rnd: u8) -> (s: Status)
        requires
            old(self).wf(),
        ensures
            final(self).wf(),
            (final(self)@, s) == step_spec(old(self)@, rnd),
    {
        if self.is_halted() {
            return Status::Halted;
        }
        let ins: Instruction = decode(self.fetch());
        self.advance(ins, rnd)
    }

    /// The byte for the next `RND`: drawn from the machine's generator if
    /// `ins` is `RND`; if it is not, the generator is left alone and the
    /// byte is 0, which nothing reads. The machine apart from the generator
    /// stays as it is either way.
    pub(crate) fn random_byte_for(&mut self, ins: Instruction) -> (rnd: u8)
        ensures
            ins is Rnd ==> rnd == next_draw(old(self)@.rng).0 && final(self)@ == (Machine {
                rng: next_draw(old(self)@.rng).1,
                ..old(self)@
            }),
            !(ins is Rnd) ==> rnd == 0 && final(self)@ == old(self)@,
    {
        match ins {
            Instruction::Rnd { .. } => next_random_byte(&mut self.rng),
            _ => 0,
        }
    }

    /// One step, drawing the byte for `RND` from the machine's generator
    /// when the instruction is `RND`; no other step touches the generator.
    pub fn step(&mut self) -> (s: Status)
        requires
            old(self).wf(),
        ensures
            final(self).wf(),
            (final(self)@, s) == drawing_step_spec(old(self)@),
    {
        if self.is_halted() {
            return Status::Halted;
        }
        let ins: Instruction = decode(self.fetch());
        let rnd: u8 = self.random_byte_for(ins);
        self.advance(ins, rnd)
    }
}

} // verus!
