use crate::decode::{decode_spec, Instruction};
use crate::display::{
    drawn, origin_x, origin_y, sprite_collides, sprite_covers, sprite_on_dark, sprite_visible,
};
use crate::font::{font, font_installed, glyph};
use crate::frame::{counted_down, frame_spec, run_spec, tick_due};
use crate::machine::Machine;
use crate::random::next_draw;
use crate::semantics::{
    draws_byte, drawing_step_spec, exec_spec, fetch_spec, halted, reg, step_spec, Status,
};
use vstd::prelude::*;

verus! {

/// After `ADD Vx, Vy`, VF is 1 if the sum of the two registers exceeds 255,
/// and 0 if it does not, for every pair of registers.
pub proof fn law_add_sets_carry(m: Machine, x: u8, y: u8, rnd: u8)
    requires
        m.sized(),
        x < 16,
        y < 16,
    ensures
        reg(exec_spec(m, Instruction::AddReg { x, y }, rnd), 0xF) == if reg(m, x) + reg(m, y)
            > 255 {
            1u8
        } else {
            0u8
        },
{
}

/// After `SUB Vx, Vy`, VF is 1 if `Vx >= Vy` held, so that nothing was
/// borrowed, and 0 if not, for every pair of registers.
pub proof fn law_sub_sets_no_borrow(m: Machine, x: u8, y: u8, rnd: u8)
    requires
        m.sized(),
        x < 16,
        y < 16,
    ensures
        reg(exec_spec(m, Instruction::Sub { x, y }, rnd), 0xF) == if reg(m, x) >= reg(m, y) {
            1u8
        } else {
            0u8
        },
{
}

/// After `SHR Vx` on a register other than VF, VF holds the bit that was
/// shifted out: twice the new `Vx` plus VF is the old `Vx`.
pub proof fn law_shr_keeps_bit(m: Machine, x: u8, rnd: u8)
    requires
        m.sized(),
        x < 15,
    ensures
        ({
            let after = exec_spec(m, Instruction::Shr { x }, rnd);
            &&& reg(after, 0xF) <= 1
            &&& reg(m, x) == 2 * reg(after, x) + reg(after, 0xF)
        }),
{
}

/// After `SHL Vx` on a register other than VF, VF holds the bit that was
/// shifted out: half the new `Vx` plus 128 times VF is the old `Vx`.
pub proof fn law_shl_keeps_bit(m: Machine, x: u8, rnd: u8)
    requires
        m.sized(),
        x < 15,
    ensures
        ({
            let after = exec_spec(m, Instruction::Shl { x }, rnd);
            &&& reg(after, 0xF) <= 1
            &&& reg(m, x) == reg(after, x) / 2 + 128 * reg(after, 0xF)
        }),
{
}

/// Drawing the same sprite at the same place twice in a row gives back the
/// display as it was.
pub proof fn law_draw_twice_restores(m: Machine, x: u8, y: u8, n: u8, r1: u8, r2: u8)
    requires
        m.sized(),
        x < 16,
        y < 16,
    ensures
        ({
            let draw = Instruction::Drw { x, y, n };
            exec_spec(exec_spec(m, draw, r1), draw, r2).disp == m.disp
        }),
{
    let once = drawn(m, x, y, n);
    let x0 = origin_x(m, x);
    let y0 = origin_y(m, y);
    assert(once.v.update(0xF, 0u8) =~= m.v.update(0xF, 0u8));
    assert forall|p: int| 0 <= p < 2048 implies #[trigger] drawn(once, x, y, n).disp[p]
        == m.disp[p] by {
        assert(sprite_covers(once, x0, y0, n as int, p) == sprite_covers(m, x0, y0, n as int, p));
        let d = m.disp[p];
        assert((d ^ 1) ^ 1 == d) by (bit_vector);
    }
    assert(drawn(once, x, y, n).disp =~= m.disp);
}

/// Where every pixel under the sprite is dark, the first drawing leaves VF
/// at 0, and a second drawing at the same place leaves VF at 1 exactly if
/// the sprite has a pixel at all.
pub proof fn law_draw_twice_collides(m: Machine, x: u8, y: u8, n: u8, r1: u8, r2: u8)
    requires
        m.sized(),
        x < 16,
        y < 16,
        sprite_on_dark(m, x, y, n),
    ensures
        ({
            let draw = Instruction::Drw { x, y, n };
            let once = exec_spec(m, draw, r1);
            let twice = exec_spec(once, draw, r2);
            &&& reg(once, 0xF) == 0
            &&& reg(twice, 0xF) == if sprite_visible(m, x, y, n) {
                1u8
            } else {
                0u8
            }
        }),
{
    let once = drawn(m, x, y, n);
    let x0 = origin_x(m, x);
    let y0 = origin_y(m, y);
    assert(once.v.update(0xF, 0u8) =~= m.v.update(0xF, 0u8));
    assert(0u8 ^ 1 == 1) by (bit_vector);
    if sprite_collides(m, x, y, n) {
        let p = choose|p: int|
            0 <= p < 2048 && #[trigger] sprite_covers(m, x0, y0, n as int, p) && m.disp[p] == 1;
        assert(m.disp[p] == 0);
    }
    if sprite_collides(once, x, y, n) {
        let p = choose|p: int|
            0 <= p < 2048 && #[trigger] sprite_covers(once, x0, y0, n as int, p) && once.disp[p]
                == 1;
        assert(sprite_covers(m, x0, y0, n as int, p));
    }
    if sprite_visible(m, x, y, n) {
        let p = choose|p: int|
            0 <= p < 2048 && #[trigger] sprite_covers(m, x0, y0, n as int, p);
        assert(sprite_covers(once, x0, y0, n as int, p));
        assert(once.disp[p] == 1);
    }
}

/// `LD F, Vx` sets `I` to five times the low nibble of `Vx`, and in a memory
/// that holds the font table the five bytes from there on are the glyph of
/// that digit.
pub proof fn law_font_address(m: Machine, x: u8, rnd: u8)
    requires
        m.sized(),
        x < 16,
        font_installed(m.mem),
    ensures
        ({
            let digit = reg(m, x) as int % 16;
            let after = exec_spec(m, Instruction::LdF { x }, rnd);
            &&& after.i == 5 * digit
            &&& after.mem.subrange(after.i as int, after.i + 5) == glyph(digit)
        }),
{
    let digit = reg(m, x) as int % 16;
    let after = exec_spec(m, Instruction::LdF { x }, rnd);
    assert forall|k: int| 0 <= k < 5 implies #[trigger] after.mem.subrange(
        after.i as int,
        after.i + 5,
    )[k] == glyph(digit)[k] by {
        assert(m.mem.subrange(0, 80)[5 * digit + k] == m.mem[5 * digit + k]);
    }
    assert(after.mem.subrange(after.i as int, after.i + 5) =~= glyph(digit));
}

/// The font table stands in memory at power-on, and loading a program
/// leaves it there.
pub proof fn law_font_survives_load(debug: bool, rom: Seq<u8>)
    ensures
        font_installed(Machine::power_on(debug).mem),
        font_installed(Machine::power_on(debug).with_program(rom).mem),
{
    assert(Machine::power_on(debug).mem.subrange(0, 80) =~= font());
    assert(Machine::power_on(debug).with_program(rom).mem.subrange(0, 80) =~= font());
}

/// A word that is no instruction costs one step and changes nothing but the
/// program counter, which moves behind it.
pub proof fn law_unknown_word_is_passed_over(m: Machine, rnd: u8)
    requires
        m.sized(),
        !halted(m),
        decode_spec(fetch_spec(m)) is Unknown,
    ensures
        step_spec(m, rnd) == (Machine { pc: (m.pc + 2) as u16, ..m }, Status::Running),
{
}

/// Whether the machine is about to carry out an instruction that sets a
/// timer.
pub open spec fn sets_timer(m: Machine) -> bool {
    let ins = decode_spec(fetch_spec(m));
    !halted(m) && (ins is LdDtVx || ins is LdStVx)
}

/// Steps that set no timer leave both timers as they are, however many
/// steps there are.
pub proof fn law_steps_keep_timers(m: Machine, n: nat)
    requires
        m.sized(),
        forall|k: nat| k < n ==> !sets_timer(#[trigger] run_spec(m, k).machine),
    ensures
        run_spec(m, n).machine.sized(),
        run_spec(m, n).machine.delay == m.delay,
        run_spec(m, n).machine.sound == m.sound,
        run_spec(m, n).machine.sound_active == m.sound_active,
        run_spec(m, n).machine.last_cycle_time == m.last_cycle_time,
    decreases n,
{
    if n > 0 {
        law_steps_keep_timers(m, (n - 1) as nat);
        let p = run_spec(m, (n - 1) as nat).machine;
        assert(!sets_timer(p));
    }
}

/// A frame whose instructions set no timer, and in which a sixtieth of a
/// second has passed since the last tick, takes exactly one off each timer
/// that is above zero, whether the frame has one step or many.
pub proof fn law_timers_tick_once(m: Machine, n: nat, now: u64)
    requires
        m.sized(),
        tick_due(m, now),
        !(run_spec(m, n).status is Faulted),
        forall|k: nat| k < n ==> !sets_timer(#[trigger] run_spec(m, k).machine),
    ensures
        frame_spec(m, n, now).machine.delay == counted_down(m.delay),
        frame_spec(m, n, now).machine.sound == counted_down(m.sound),
{
    law_steps_keep_timers(m, n);
}

/// A step that is not `RND` leaves the generator as it is; a step that is
/// `RND` moves it on by exactly one draw.
pub proof fn law_only_rnd_draws(m: Machine)
    requires
        m.sized(),
    ensures
        drawing_step_spec(m).0.rng == if draws_byte(m) {
            next_draw(m.rng).1
        } else {
            m.rng
        },
{
}

/// Two machines that are given the same seed and agree on everything else
/// run the same frames: they end as the same machine and report the same.
pub proof fn law_same_seed_same_frame(a: Machine, b: Machine, seed: u64, n: nat, now: u64)
    requires
        a == (Machine { rng: a.rng, ..b }),
    ensures
        frame_spec(a.reseeded(seed), n, now) == frame_spec(b.reseeded(seed), n, now),
{
    assert(a.reseeded(seed) == b.reseeded(seed));
}

} // verus!
