use crate::error::LoadError;
use crate::font::{font, FONT, FONT_SIZE};
use crate::random::{seeded, seeded_generator};
use rand::rngs::StdRng;
use vstd::prelude::*;

verus! {

/// Addressable bytes of memory.
pub const MEM_SIZE: usize = 4096;

/// Width of the display in pixels.
pub const DISP_W: usize = 64;

/// Height of the display in pixels.
pub const DISP_H: usize = 32;

/// Pixels on the display, one byte each, row after row.
pub const DISP_SIZE: usize = 2048;

/// Where a program is loaded and where execution starts.
pub const PROGRAM_START: usize = 0x200;

/// The largest program image that fits behind `PROGRAM_START`.
pub const MAX_ROM_SIZE: usize = 3584;

/// Return addresses the call stack can hold.
pub const STACK_SIZE: usize = 16;

/// The seed of the random generator of a machine that was never reseeded.
pub const DEFAULT_SEED: u64 = 0;

/// The mathematical model of the machine: what every contract speaks of.
pub struct Machine {
    /// 4096 bytes of memory.
    pub mem: Seq<u8>,
    /// 2048 pixels, row-major, a lit pixel being 1.
    pub disp: Seq<u8>,
    /// The sixteen registers V0 to VF.
    pub v: Seq<u8>,
    /// The address register I.
    pub i: u16,
    /// The program counter.
    pub pc: u16,
    /// Sixteen slots for return addresses.
    pub stack: Seq<u16>,
    /// The next free stack slot.
    pub sp: u8,
    /// The sixteen keys, `true` while held.
    pub keys: Seq<bool>,
    /// The delay timer.
    pub delay: u8,
    /// The sound timer.
    pub sound: u8,
    /// Whether the tone is currently sounding.
    pub sound_active: bool,
    /// The time of the last timer tick, in milliseconds.
    pub last_cycle_time: u64,
    /// Whether a trace record is produced for every instruction.
    pub debug: bool,
    /// The generator that `RND` draws from.
    pub rng: StdRng,
}

impl Machine {
    /// The sizes of the parts, which the view of every `Chip8` has.
    pub open spec fn sized(self) -> bool {
        &&& self.mem.len() == 4096
        &&& self.disp.len() == 2048
        &&& self.v.len() == 16
        &&& self.stack.len() == 16
        &&& self.keys.len() == 16
    }

    /// The sizes of the parts and the range of the stack pointer.
    pub open spec fn wf(self) -> bool {
        &&& self.sized()
        &&& self.sp <= 16
    }

    /// The machine at power-on: memory zeroed but for the font table at its
    /// base, everything else zeroed, the program counter at `0x200`, the
    /// generator built from `DEFAULT_SEED`.
    pub open spec fn power_on(debug: bool) -> Machine {
        Machine {
            mem: Seq::new(4096, |a: int| if a < 80 { font()[a] } else { 0u8 }),
            disp: Seq::new(2048, |p: int| 0u8),
            v: Seq::new(16, |r: int| 0u8),
            i: 0,
            pc: 0x200,
            stack: Seq::new(16, |s: int| 0u16),
            sp: 0,
            keys: Seq::new(16, |k: int| false),
            delay: 0,
            sound: 0,
            sound_active: false,
            last_cycle_time: 0,
            debug,
            rng: seeded(DEFAULT_SEED),
        }
    }

    /// The machine with its generator replaced by the one built from `seed`.
    pub open spec fn reseeded(self, seed: u64) -> Machine {
        Machine { rng: seeded(seed), ..self }
    }

    /// Memory after `rom` was copied to `0x200`; every other byte is kept.
    pub open spec fn with_program(self, rom: Seq<u8>) -> Machine {
        Machine {
            mem: Seq::new(
                4096,
                |a: int| if 0x200 <= a < 0x200 + rom.len() { rom[a - 0x200] } else { self.mem[a] },
            ),
            ..self
        }
    }

    /// The machine with every pixel dark.
    pub open spec fn cleared(self) -> Machine {
        Machine { disp: Seq::new(2048, |p: int| 0u8), ..self }
    }
}

/// The machine state. Every field is plain data but `rng`, the generator
/// behind `RND`, which the model carries as it is.
pub struct Chip8 {
    pub mem: [u8; MEM_SIZE],
    pub disp: [u8; DISP_SIZE],
    pub v: [u8; 16],
    pub i: u16,
    pub pc: u16,
    pub stack: [u16; STACK_SIZE],
    pub sp: u8,
    pub keys: [bool; 16],
    pub delay: u8,
    pub sound: u8,
    pub sound_active: bool,
    pub last_cycle_time: u64,
    pub debug: bool,
    pub rng: StdRng,
}

impl View for Chip8 {
    type V = Machine;

    open spec fn view(&self) -> Machine {
        Machine {
            mem: self.mem@,
            disp: self.disp@,
            v: self.v@,
            i: self.i,
            pc: self.pc,
            stack: self.stack@,
            sp: self.sp,
            keys: self.keys@,
            delay: self.delay,
            sound: self.sound,
            sound_active: self.sound_active,
            last_cycle_time: self.last_cycle_time,
            debug: self.debug,
            rng: self.rng,
        }
    }
}

impl Chip8 {
    /// The invariant of the machine state: the stack pointer names a slot or
    /// the position just behind the last one.
    pub open spec fn wf(&self) -> bool {
        self@.wf()
    }

    /// Tells whether the invariant holds.
    pub fn is_wf(&self) -> (ok: bool)
        ensures
            ok == self.wf(),
    {
        self.sp <= 16
    }

    /// A machine at power-on, its random generator seeded with `DEFAULT_SEED`.
    pub fn new(debug: bool) -> (c: Chip8)
        ensures
            c@ == Machine::power_on(debug),
            c.wf(),
    {
        let mut c = Chip8 {
            mem: [0u8; MEM_SIZE],
            disp: [0u8; DISP_SIZE],
            v: [0u8; 16],
            i: 0,
            pc: 0x200,
            stack: [0u16; STACK_SIZE],
            sp: 0,
            keys: [false; 16],
            delay: 0,
            sound: 0,
            sound_active: false,
            last_cycle_time: 0,
            debug,
            rng: seeded_generator(DEFAULT_SEED),
        };
        assert(c.disp@ =~= Machine::power_on(debug).disp);
        assert(c.v@ =~= Machine::power_on(debug).v);
        assert(c.stack@ =~= Machine::power_on(debug).stack);
        assert(c.keys@ =~= Machine::power_on(debug).keys);
        let mut a: usize = 0;
        while a < FONT_SIZE
            invariant
                a <= 80,
                forall|j: int| 0 <= j < a ==> c.mem@[j] == font()[j],
                forall|j: int| a <= j < 4096 ==> c.mem@[j] == 0u8,
                c@ == (Machine { mem: c.mem@, ..Machine::power_on(debug) }),
            decreases 80 - a,
        {
            c.mem[a] = FONT[a];
            a += 1;
        }
        assert(c.mem@ =~= Machine::power_on(debug).mem);
        c
    }

    /// Replaces the random generator by the one built from `seed` alone, so
    /// that a run can be repeated. The rest of the machine stays as it is.
    pub fn reseed(&mut self, seed: u64)
        ensures
            final(self)@ == old(self)@.reseeded(seed),
    {
        self.rng = seeded_generator(seed);
    }

    /// Copies a program image to `0x200`. An image of more than 3584 bytes
    /// is refused and nothing is written.
    pub fn load(&mut self, rom: &[u8]) -> (r: Result<(), LoadError>)
        ensures
            rom@.len() <= 3584 ==> r == Ok::<(), LoadError>(()) && final(self)@ == old(self)@.with_program(
                rom@,
            ),
            rom@.len() > 3584 ==> r == Err::<(), LoadError>(
                LoadError::TooLarge { size: rom.len(), max: 3584 },
            ) && final(self)@ == old(self)@,
    {
        let size: usize = rom.len();
        if size > MAX_ROM_SIZE {
            return Err(LoadError::TooLarge { size, max: MAX_ROM_SIZE });
        }
        let mut k: usize = 0;
        while k < size
            invariant
                k <= size,
                size == rom@.len(),
                size <= 3584,
                forall|a: int| 0x200 <= a < 0x200 + k ==> self.mem@[a] == rom@[a - 0x200],
                forall|a: int|
                    0 <= a < 4096 && !(0x200 <= a < 0x200 + k) ==> self.mem@[a] == old(self).mem@[a],
                self@ == (Machine { mem: self.mem@, ..old(self)@ }),
            decreases size - k,
        {
            self.mem[PROGRAM_START + k] = rom[k];
            k += 1;
        }
        assert(self.mem@ =~= old(self)@.with_program(rom@).mem);
        Ok(())
    }

    /// Darkens every pixel.
    pub fn clear_d(&mut self)
        ensures
            final(self)@ == old(self)@.cleared(),
    {
        self.disp = [0u8; DISP_SIZE];
        assert(self.disp@ =~= old(self)@.cleared().disp);
    }

    /// Takes over the state of the sixteen keys as it is.
    pub fn input(&mut self, keys: [bool; 16])
        ensures
            final(self)@ == (Machine { keys: keys@, ..old(self)@ }),
    {
        self.keys = keys;
    }
}

} // verus!
