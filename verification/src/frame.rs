use crate::decode::{decode, decode_spec, Instruction};
use crate::machine::{Chip8, Machine};
use crate::semantics::{drawing_step_spec, fetch_spec, halted, Status};
use crate::trace::trace_line_spec;
use vstd::prelude::*;

verus! {

/// Instructions carried out per second.
pub const INSTRUCTION_RATE: usize = 700;

/// Frames per second, and ticks of the timers per second.
pub const FRAME_RATE: usize = 60;

/// Instructions carried out per frame.
pub const CYCLES: usize = INSTRUCTION_RATE / FRAME_RATE;

/// Milliseconds between two ticks of the timers.
pub const TICK_MS: u64 = 16;

/// What one frame has to report.
#[derive(Debug)]
pub struct Frame {
    /// `Running` if every instruction of the frame was carried out, else
    /// what stopped the frame early.
    pub status: Status,
    /// Whether the tone has just begun: the sound timer was found above zero
    /// at a tick while no tone was sounding.
    pub bell: bool,
    /// The words met in this frame that are no instruction, in order. Each
    /// was passed over.
    pub unknown: Vec<u16>,
    /// With `debug` set, one trace record for every instruction fetched in
    /// this frame, in order; else empty.
    pub trace: Vec<String>,
}

/// The texts of a list of strings.
pub open spec fn lines(trace: Seq<String>) -> Seq<Seq<char>> {
    trace.map_values(|s: String| s@)
}

/// The model of a run of steps or of a whole frame: the machine it leaves
/// and what it reports.
pub struct Run {
    /// The machine at the end.
    pub machine: Machine,
    /// `Running`, or what stopped the steps early.
    pub status: Status,
    /// Whether the tone begins; never so before the timers were looked at.
    pub bell: bool,
    /// The words that were no instruction, in order.
    pub unknown: Seq<u16>,
    /// The trace records, in order.
    pub trace: Seq<Seq<char>>,
}

impl Frame {
    /// Whether the frame reports what `run` reports.
    pub open spec fn reports(&self, run: Run) -> bool {
        &&& self.status == run.status
        &&& self.bell == run.bell
        &&& self.unknown@ == run.unknown
        &&& lines(self.trace@) == run.trace
    }
}

/// At most `n` steps from `m`, each drawing from the machine's generator
/// where it is `RND`. Once a step has halted or faulted, nothing more is
/// done. A step that finds the machine running and not halted notes the word
/// it fetches if that is no instruction, and, with `debug` set, makes a trace
/// record before it is carried out.
pub open spec fn run_spec(m: Machine, n: nat) -> Run
    decreases n,
{
    if n == 0 {
        Run { machine: m, status: Status::Running, bell: false, unknown: seq![], trace: seq![] }
    } else {
        let before = run_spec(m, (n - 1) as nat);
        let p = before.machine;
        if before.status != Status::Running {
            before
        } else if halted(p) {
            Run { status: Status::Halted, ..before }
        } else {
            let op = fetch_spec(p);
            let (machine, status) = drawing_step_spec(p);
            Run {
                machine,
                status,
                bell: false,
                unknown: if decode_spec(op) is Unknown {
                    before.unknown.push(op)
                } else {
                    before.unknown
                },
                trace: if p.debug {
                    before.trace.push(trace_line_spec(p, op))
                } else {
                    before.trace
                },
            }
        }
    }
}

/// Whether a sixtieth of a second has passed since the last tick.
pub open spec fn tick_due(m: Machine, now: u64) -> bool {
    now - m.last_cycle_time >= 16
}

/// A timer one lower, unless it is zero.
pub open spec fn counted_down(t: u8) -> u8 {
    if t > 0 {
        (t - 1) as u8
    } else {
        0
    }
}

/// The machine after the timers were looked at at time `now`: where a tick
/// is due, both timers go down by one towards zero, the tone sounds exactly
/// if the sound timer was above zero, and the time of the tick is noted.
pub open spec fn ticked(m: Machine, now: u64) -> Machine {
    if tick_due(m, now) {
        Machine {
            delay: counted_down(m.delay),
            sound: counted_down(m.sound),
            sound_active: m.sound > 0,
            last_cycle_time: now,
            ..m
        }
    } else {
        m
    }
}

/// Whether the tone begins at this look at the timers.
pub open spec fn bell_rings(m: Machine, now: u64) -> bool {
    tick_due(m, now) && m.sound > 0 && !m.sound_active
}

/// One frame of `n` steps at time `now`: the steps, then, unless a step
/// faulted, the look at the timers.
pub open spec fn frame_spec(m: Machine, n: nat, now: u64) -> Run {
    let run = run_spec(m, n);
    if run.status is Faulted {
        run
    } else {
        Run { machine: ticked(run.machine, now), bell: bell_rings(run.machine, now), ..run }
    }
}

impl Chip8 {
    /// Looks at the timers at time `now`, in milliseconds, and tells whether
    /// the tone begins.
    pub fn tick(&mut self, now: u64) -> (bell: bool)
        ensures
            final(self)@ == ticked(old(self)@, now),
            bell == bell_rings(old(self)@, now),
    {
        let mut bell: bool = false;
        if now >= self.last_cycle_time && now - self.last_cycle_time >= TICK_MS {
            if self.delay > 0 {
                self.delay -= 1;
            }
            if self.sound > 0 && !self.sound_active {
                self.sound_active = true;
                bell = true;
            } else if self.sound == 0 {
                self.sound_active = false;
            }
            if self.sound > 0 {
                self.sound -= 1;
            }
            self.last_cycle_time = now;
        }
        bell
    }

    /// One frame: up to `CYCLES` steps, then a look at the timers at time
    /// `now`, in milliseconds. A halted machine ends the steps early; a fault
    /// ends the frame at once, before the timers.
    pub fn cycle(&mut self, now: u64) -> (frame: Frame)
        requires
            old(self).wf(),
        ensures
            final(self).wf(),
            final(self)@ == frame_spec(old(self)@, CYCLES as nat, now).machine,
            frame.reports(frame_spec(old(self)@, CYCLES as nat, now)),
    {
        let ghost start = self@;
        let mut status: Status = Status::Running;
        let mut unknown: Vec<u16> = Vec::new();
        let mut trace: Vec<String> = Vec::new();
        let mut k: usize = 0;
        assert(lines(trace@) =~= run_spec(start, 0).trace);
        while k < CYCLES
            invariant
                k <= CYCLES,
                self.wf(),
                run_spec(start, k as nat) == (Run {
                    machine: self@,
                    status,
                    bell: false,
                    unknown: unknown@,
                    trace: lines(trace@),
                }),
            decreases CYCLES - k,
        {
            if status == Status::Running {
                if self.is_halted() {
                    status = Status::Halted;
                } else {
                    let op: u16 = self.fetch();
                    let ins: Instruction = decode(op);
                    if self.debug {
                        let line: String = self.trace_line(op);
                        trace.push(line);
                    }
                    if let Instruction::Unknown { .. } = ins {
                        unknown.push(op);
                    }
                    let byte: u8 = self.random_byte_for(ins);
                    status = self.advance(ins, byte);
                }
            }
            assert(lines(trace@) =~= run_spec(start, (k + 1) as nat).trace);
            k += 1;
        }
        let bell: bool = match status {
            Status::Faulted(_) => false,
            _ => self.tick(now),
        };
        Frame { status, bell, unknown, trace }
    }
}

} // verus!
