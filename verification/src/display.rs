use crate::machine::{Chip8, Machine, DISP_H, DISP_SIZE, DISP_W};
use vstd::prelude::*;

verus! {

/// Whether the pixel in column `col` of a sprite row is set; column 0 is the
/// highest bit.
pub open spec fn sprite_bit(row: u8, col: u8) -> bool {
    row & (0x80u8 >> col) != 0
}

/// The sprite row that falls on display row `py` when the sprite's first row
/// is at `y0`, rows past the bottom edge coming back at the top.
pub open spec fn sprite_row(py: int, y0: int) -> int {
    (py - y0 + 32) % 32
}

/// The sprite column that falls on display column `px` when the sprite's
/// first column is at `x0`, columns past the right edge coming back at the
/// left.
pub open spec fn sprite_col(px: int, x0: int) -> int {
    (px - x0 + 64) % 64
}

/// Whether a sprite of `n` rows at origin (`x0`, `y0`) has a set pixel on
/// pixel `p` of the display. The sprite is read from memory at `I`, one byte
/// per row, and is eight pixels wide.
pub open spec fn sprite_covers(m: Machine, x0: int, y0: int, n: int, p: int) -> bool {
    let row = sprite_row(p / 64, y0);
    let col = sprite_col(p % 64, x0);
    row < n && col < 8 && sprite_bit(m.mem[m.i + row], col as u8)
}

/// The column of the sprite's first column: `Vx mod 64`, read after VF was
/// cleared.
pub open spec fn origin_x(m: Machine, x: u8) -> int {
    m.v.update(0xF, 0u8)[x as int] as int % 64
}

/// The row of the sprite's first row: `Vy mod 32`, read after VF was
/// cleared.
pub open spec fn origin_y(m: Machine, y: u8) -> int {
    m.v.update(0xF, 0u8)[y as int] as int % 32
}

/// Whether the sprite of `DRW Vx, Vy, n` has a pixel at all.
pub open spec fn sprite_visible(m: Machine, x: u8, y: u8, n: u8) -> bool {
    let x0 = origin_x(m, x);
    let y0 = origin_y(m, y);
    exists|p: int| 0 <= p < 2048 && #[trigger] sprite_covers(m, x0, y0, n as int, p)
}

/// Whether every pixel under the sprite of `DRW Vx, Vy, n` is dark.
pub open spec fn sprite_on_dark(m: Machine, x: u8, y: u8, n: u8) -> bool {
    let x0 = origin_x(m, x);
    let y0 = origin_y(m, y);
    forall|p: int|
        0 <= p < 2048 && #[trigger] sprite_covers(m, x0, y0, n as int, p) ==> m.disp[p] == 0
}

/// Whether the sprite of `DRW Vx, Vy, n` has a pixel on a lit pixel of the
/// display.
pub open spec fn sprite_collides(m: Machine, x: u8, y: u8, n: u8) -> bool {
    let x0 = origin_x(m, x);
    let y0 = origin_y(m, y);
    exists|p: int|
        0 <= p < 2048 && #[trigger] sprite_covers(m, x0, y0, n as int, p) && m.disp[p] == 1
}

/// The machine after `DRW Vx, Vy, n`: VF is cleared first, the origin is
/// (`Vx mod 64`, `Vy mod 32`) as the registers then stand, every set sprite
/// pixel flips the display pixel it falls on, wrapping at both edges, and VF
/// ends as 1 exactly if a lit pixel was flipped.
pub open spec fn drawn(m: Machine, x: u8, y: u8, n: u8) -> Machine {
    let x0 = origin_x(m, x);
    let y0 = origin_y(m, y);
    Machine {
        disp: Seq::new(
            2048,
            |p: int| if sprite_covers(m, x0, y0, n as int, p) { m.disp[p] ^ 1 } else { m.disp[p] },
        ),
        v: m.v.update(0xF, if sprite_collides(m, x, y, n) { 1u8 } else { 0u8 }),
        ..m
    }
}

/// The column and the row of pixel `p`, as the display is stored row after
/// row.
pub open spec fn point_of(p: int) -> (i32, i32) {
    ((p % 64) as i32, (p / 64) as i32)
}

/// The lit pixels among the first `n` of a display, in the order in which
/// the display is stored.
pub open spec fn lit_pixels(disp: Seq<u8>, n: nat) -> Seq<int> {
    Seq::new(n, |p: int| p).filter(|p: int| disp[p] != 0)
}

/// The column and row of every lit pixel of a display, row after row and
/// from left to right within a row.
pub open spec fn lit_points(disp: Seq<u8>) -> Seq<(i32, i32)> {
    lit_pixels(disp, disp.len()).map_values(|p: int| point_of(p))
}

/// Whether pixel `p` has been drawn when the sprite rows below `rows` are
/// done, and of row `rows` the columns below `cols`.
spec fn touched(m: Machine, x0: int, y0: int, rows: int, cols: int, p: int) -> bool {
    let row = sprite_row(p / 64, y0);
    let col = sprite_col(p % 64, x0);
    &&& col < 8
    &&& row < rows || (row == rows && col < cols)
    &&& sprite_bit(m.mem[m.i + row], col as u8)
}

/// Whether a lit pixel has been drawn at that point of the drawing.
spec fn hit_so_far(m: Machine, x0: int, y0: int, rows: int, cols: int) -> bool {
    exists|p: int| 0 <= p < 2048 && #[trigger] touched(m, x0, y0, rows, cols, p) && m.disp[p] == 1
}

/// The display at that point of the drawing.
spec fn painted(m: Machine, x0: int, y0: int, rows: int, cols: int) -> Seq<u8> {
    Seq::new(
        2048,
        |p: int| if touched(m, x0, y0, rows, cols, p) { m.disp[p] ^ 1 } else { m.disp[p] },
    )
}

/// The one pixel on which row `row`, column `col` of a sprite at origin
/// (`x0`, `y0`) falls.
spec fn target(x0: int, y0: int, row: int, col: int) -> int {
    ((y0 + row) % 32) * 64 + (x0 + col) % 64
}

/// A pixel is the target of a sprite position exactly if that position is
/// the pixel's sprite row and column.
proof fn lemma_target_unique(p: int, x0: int, y0: int, row: int, col: int)
    requires
        0 <= p < 2048,
        0 <= x0 < 64,
        0 <= y0 < 32,
        0 <= row < 32,
        0 <= col < 64,
    ensures
        (sprite_row(p / 64, y0) == row && sprite_col(p % 64, x0) == col) <==> p == target(
            x0,
            y0,
            row,
            col,
        ),
        0 <= target(x0, y0, row, col) < 2048,
{
}

/// Nothing has been drawn before the first row is begun.
proof fn lemma_drawing_begins(m: Machine, x0: int, y0: int)
    requires
        m.sized(),
    ensures
        painted(m, x0, y0, 0, 0) == m.disp,
        !hit_so_far(m, x0, y0, 0, 0),
{
    assert(painted(m, x0, y0, 0, 0) =~= m.disp);
}

/// One more column of a row draws, if the sprite has that pixel, the target
/// of the new position, which was not drawn before, and nothing else.
proof fn lemma_drawing_column(m: Machine, x0: int, y0: int, row: int, col: int)
    requires
        m.sized(),
        0 <= x0 < 64,
        0 <= y0 < 32,
        0 <= row < 32,
        0 <= col < 8,
    ensures
        forall|p: int|
            0 <= p < 2048 ==> (#[trigger] touched(m, x0, y0, row, col + 1, p) <==> touched(
                m,
                x0,
                y0,
                row,
                col,
                p,
            ) || (p == target(x0, y0, row, col) && sprite_bit(m.mem[m.i + row], col as u8))),
        !touched(m, x0, y0, row, col, target(x0, y0, row, col)),
        hit_so_far(m, x0, y0, row, col + 1) <==> hit_so_far(m, x0, y0, row, col) || (sprite_bit(
            m.mem[m.i + row],
            col as u8,
        ) && m.disp[target(x0, y0, row, col)] == 1),
{
    let t = target(x0, y0, row, col);
    lemma_target_unique(t, x0, y0, row, col);
    assert forall|p: int| 0 <= p < 2048 implies (#[trigger] touched(m, x0, y0, row, col + 1, p)
        <==> touched(m, x0, y0, row, col, p) || (p == t && sprite_bit(
        m.mem[m.i + row],
        col as u8,
    ))) by {
        lemma_target_unique(p, x0, y0, row, col);
    }
    if hit_so_far(m, x0, y0, row, col) {
        let p = choose|p: int|
            0 <= p < 2048 && #[trigger] touched(m, x0, y0, row, col, p) && m.disp[p] == 1;
        assert(touched(m, x0, y0, row, col + 1, p));
    }
    if sprite_bit(m.mem[m.i + row], col as u8) && m.disp[t] == 1 {
        assert(touched(m, x0, y0, row, col + 1, t));
    }
    if hit_so_far(m, x0, y0, row, col + 1) {
        let p = choose|p: int|
            0 <= p < 2048 && #[trigger] touched(m, x0, y0, row, col + 1, p) && m.disp[p] == 1;
        if p != t {
            assert(touched(m, x0, y0, row, col, p));
        }
    }
}

/// A row drawn in full is the same as the next row not yet begun.
proof fn lemma_drawing_row(m: Machine, x0: int, y0: int, row: int)
    ensures
        painted(m, x0, y0, row, 8) == painted(m, x0, y0, row + 1, 0),
        hit_so_far(m, x0, y0, row, 8) <==> hit_so_far(m, x0, y0, row + 1, 0),
{
    assert(painted(m, x0, y0, row, 8) =~= painted(m, x0, y0, row + 1, 0));
    if hit_so_far(m, x0, y0, row, 8) {
        let p = choose|p: int|
            0 <= p < 2048 && #[trigger] touched(m, x0, y0, row, 8, p) && m.disp[p] == 1;
        assert(touched(m, x0, y0, row + 1, 0, p));
    }
    if hit_so_far(m, x0, y0, row + 1, 0) {
        let p = choose|p: int|
            0 <= p < 2048 && #[trigger] touched(m, x0, y0, row + 1, 0, p) && m.disp[p] == 1;
        assert(touched(m, x0, y0, row, 8, p));
    }
}

/// With all `n` rows done, what has been drawn is what the sprite covers.
proof fn lemma_drawing_ends(m: Machine, x: u8, y: u8, n: u8)
    ensures
        painted(m, origin_x(m, x), origin_y(m, y), n as int, 0) == drawn(m, x, y, n).disp,
        hit_so_far(m, origin_x(m, x), origin_y(m, y), n as int, 0) <==> sprite_collides(m, x, y, n),
{
    let x0 = origin_x(m, x);
    let y0 = origin_y(m, y);
    assert(painted(m, x0, y0, n as int, 0) =~= drawn(m, x, y, n).disp);
    if hit_so_far(m, x0, y0, n as int, 0) {
        let p = choose|p: int|
            0 <= p < 2048 && #[trigger] touched(m, x0, y0, n as int, 0, p) && m.disp[p] == 1;
        assert(sprite_covers(m, x0, y0, n as int, p));
    }
    if sprite_collides(m, x, y, n) {
        let p = choose|p: int|
            0 <= p < 2048 && #[trigger] sprite_covers(m, x0, y0, n as int, p) && m.disp[p] == 1;
        assert(touched(m, x0, y0, n as int, 0, p));
    }
}

/// The lit pixels among the first `n + 1` are those among the first `n`,
/// and pixel `n` behind them if it is lit.
proof fn lemma_lit_pixels_next(disp: Seq<u8>, n: nat)
    ensures
        lit_pixels(disp, n + 1) == if disp[n as int] != 0 {
            lit_pixels(disp, n).push(n as int)
        } else {
            lit_pixels(disp, n)
        },
{
    let longer = Seq::new(n + 1, |p: int| p);
    assert(longer.drop_last() =~= Seq::new(n, |p: int| p));
    reveal(Seq::filter);
}

impl Chip8 {
    /// The points to light on a screen: the column and row of every lit
    /// pixel, row after row.
    pub fn draw(&self) -> (points: Vec<(i32, i32)>)
        ensures
            points@ == lit_points(self@.disp),
    {
        let mut points: Vec<(i32, i32)> = Vec::new();
        let mut p: usize = 0;
        assert(lit_pixels(self.disp@, 0) =~= Seq::empty()) by {
            reveal(Seq::filter);
        }
        while p < DISP_SIZE
            invariant
                p <= 2048,
                points@ == lit_pixels(self.disp@, p as nat).map_values(|q: int| point_of(q)),
            decreases 2048 - p,
        {
            proof {
                lemma_lit_pixels_next(self.disp@, p as nat);
            }
            if self.disp[p] != 0 {
                points.push(((p % DISP_W) as i32, (p / DISP_W) as i32));
            }
            assert(points@ =~= lit_pixels(self.disp@, (p + 1) as nat).map_values(
                |q: int| point_of(q),
            ));
            p += 1;
        }
        points
    }

    /// `DRW Vx, Vy, n`: XORs the `n`-row sprite at `I` onto the display and
    /// leaves in VF whether a lit pixel went dark.
    pub(crate) fn draw_sprite(&mut self, x: u8, y: u8, n: u8)
        requires
            x < 16,
            y < 16,
            n < 16,
            n > 0 ==> old(self).i + n <= 4096,
        ensures
            final(self)@ == drawn(old(self)@, x, y, n),
    {
        let ghost m = self@;
        self.v[0xF] = 0;
        let x0: usize = self.v[x as usize] as usize % DISP_W;
        let y0: usize = self.v[y as usize] as usize % DISP_H;
        let mut hit: bool = false;
        let mut row: usize = 0;
        proof {
            lemma_drawing_begins(m, x0 as int, y0 as int);
        }
        while row < n as usize
            invariant
                row <= n < 16,
                x0 < 64,
                y0 < 32,
                n > 0 ==> m.i + n <= 4096,
                m.sized(),
                self@ == (Machine { disp: self.disp@, v: m.v.update(0xF, 0u8), ..m }),
                self.disp@ == painted(m, x0 as int, y0 as int, row as int, 0),
                hit == hit_so_far(m, x0 as int, y0 as int, row as int, 0),
            decreases n - row,
        {
            let sprite_byte: u8 = self.mem[self.i as usize + row];
            let py: usize = (y0 + row) % DISP_H;
            let mut col: u8 = 0;
            while col < 8
                invariant
                    row < n < 16,
                    col <= 8,
                    x0 < 64,
                    y0 < 32,
                    py == (y0 + row) % 32,
                    m.i + n <= 4096,
                    m.sized(),
                    sprite_byte == m.mem[m.i + row],
                    self@ == (Machine { disp: self.disp@, v: m.v.update(0xF, 0u8), ..m }),
                    self.disp@ == painted(m, x0 as int, y0 as int, row as int, col as int),
                    hit == hit_so_far(m, x0 as int, y0 as int, row as int, col as int),
                decreases 8 - col,
            {
                proof {
                    lemma_drawing_column(m, x0 as int, y0 as int, row as int, col as int);
                }
                if sprite_byte & (0x80u8 >> col) != 0 {
                    let px: usize = (x0 + col as usize) % DISP_W;
                    let idx: usize = py * DISP_W + px;
                    if self.disp[idx] == 1 {
                        hit = true;
                    }
                    self.disp[idx] ^= 1;
                }
                assert(self.disp@ =~= painted(m, x0 as int, y0 as int, row as int, col + 1));
                col += 1;
            }
            proof {
                lemma_drawing_row(m, x0 as int, y0 as int, row as int);
            }
            row += 1;
        }
        self.v[0xF] = if hit {
            1
        } else {
            0
        };
        proof {
            lemma_drawing_ends(m, x, y, n);
            assert(self.v@ =~= drawn(m, x, y, n).v);
        }
    }
}

} // verus!
