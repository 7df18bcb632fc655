//! The 64x32 monochrome framebuffer and its XOR sprite blitter. Each sprite
//! row is one byte, most-significant bit leftmost; every set bit toggles one
//! pixel, wrapping each axis independently per pixel, and a draw reports a
//! collision when it turns some lit pixel off.

use vstd::prelude::*;

verus! {

/// Bit `col` of a sprite row byte, counted from the most significant bit:
/// column 0 is the leftmost pixel of the row.
pub open spec fn sprite_bit(row_byte: u8, col: int) -> bool
    recommends
        0 <= col < 8,
{
    (row_byte >> ((7 - col) as u8)) & 1 == 1
}

/// The framebuffer index (row-major, 64 pixels per row) that sprite bit
/// (`row`, `col`) lands on when the sprite is drawn at (`x`, `y`). Both axes
/// wrap independently per pixel.
pub open spec fn target_index(x: u8, y: u8, row: int, col: int) -> int {
    ((y + row) % 32) * 64 + ((x + col) % 64)
}

/// Whether drawing `rows` at (`x`, `y`) toggles the pixel at framebuffer
/// index `i`: some set sprite bit lands there. For sprites of at most 32
/// rows no two sprite bits share a pixel, so a covered pixel is toggled
/// exactly once.
pub open spec fn draw_toggles(x: u8, y: u8, rows: Seq<u8>, i: int) -> bool {
    exists|r: int, c: int|
        0 <= r < rows.len() && 0 <= c < 8 && sprite_bit(rows[r], c) && #[trigger] target_index(
            x,
            y,
            r,
            c,
        ) == i
}

/// `draw_toggles` restricted to the sprite bits strictly before (`row_lim`,
/// `col_lim`) in row-major order: the part of the sprite a partial draw has
/// already applied.
pub open spec fn draw_toggles_upto(
    x: u8,
    y: u8,
    rows: Seq<u8>,
    i: int,
    row_lim: int,
    col_lim: int,
) -> bool {
    exists|r: int, c: int|
        0 <= r < rows.len() && 0 <= c < 8 && (r < row_lim || (r == row_lim && c < col_lim))
            && sprite_bit(rows[r], c) && #[trigger] target_index(x, y, r, c) == i
}

/// The framebuffer after drawing `rows` at (`x`, `y`): every covered pixel
/// is toggled, every other pixel keeps its value.
pub open spec fn spec_draw_screen(screen: Seq<bool>, x: u8, y: u8, rows: Seq<u8>) -> Seq<bool> {
    Seq::new(screen.len(), |i: int| screen[i] != draw_toggles(x, y, rows, i))
}

/// Whether drawing `rows` at (`x`, `y`) over `screen` reports a collision:
/// some pixel that was lit is toggled off.
pub open spec fn spec_draw_collision(screen: Seq<bool>, x: u8, y: u8, rows: Seq<u8>) -> bool {
    exists|i: int| 0 <= i < screen.len() && screen[i] && #[trigger] draw_toggles(x, y, rows, i)
}

/// An all-dark framebuffer.
pub open spec fn blank_screen() -> Seq<bool> {
    Seq::new(2048, |i: int| false)
}

/// Distinct sprite bits of a sprite with at most 32 rows land on distinct
/// framebuffer pixels.
proof fn lemma_target_injective(x: u8, y: u8, r1: int, c1: int, r2: int, c2: int)
    requires
        0 <= r1 < 32,
        0 <= c1 < 8,
        0 <= r2 < 32,
        0 <= c2 < 8,
        target_index(x, y, r1, c1) == target_index(x, y, r2, c2),
    ensures
        r1 == r2,
        c1 == c2,
{
    let py1 = (y + r1) % 32;
    let px1 = (x + c1) % 64;
    let py2 = (y + r2) % 32;
    let px2 = (x + c2) % 64;
    vstd::arithmetic::div_mod::lemma_mod_bound(y + r1, 32);
    vstd::arithmetic::div_mod::lemma_mod_bound(x + c1, 64);
    vstd::arithmetic::div_mod::lemma_mod_bound(y + r2, 32);
    vstd::arithmetic::div_mod::lemma_mod_bound(x + c2, 64);
    assert(py1 == py2 && px1 == px2);
    vstd::arithmetic::div_mod::lemma_fundamental_div_mod(y + r1, 32);
    vstd::arithmetic::div_mod::lemma_fundamental_div_mod(y + r2, 32);
    vstd::arithmetic::div_mod::lemma_fundamental_div_mod(x + c1, 64);
    vstd::arithmetic::div_mod::lemma_fundamental_div_mod(x + c2, 64);
    let qy1 = (y + r1) / 32;
    let qy2 = (y + r2) / 32;
    assert(r1 - r2 == 32 * (qy1 - qy2)) by (nonlinear_arith)
        requires
            y + r1 == 32 * qy1 + py1,
            y + r2 == 32 * qy2 + py2,
            py1 == py2,
    ;
    let qx1 = (x + c1) / 64;
    let qx2 = (x + c2) / 64;
    assert(c1 - c2 == 64 * (qx1 - qx2)) by (nonlinear_arith)
        requires
            x + c1 == 64 * qx1 + px1,
            x + c2 == 64 * qx2 + px2,
            px1 == px2,
    ;
}

/// The sprite bits before (`row`, `col + 1`) are those before (`row`, `col`)
/// plus the single bit (`row`, `col`).
proof fn lemma_upto_step(x: u8, y: u8, rows: Seq<u8>, i: int, row: int, col: int)
    requires
        0 <= row < rows.len(),
        0 <= col < 8,
    ensures
        draw_toggles_upto(x, y, rows, i, row, col + 1) == (draw_toggles_upto(
            x,
            y,
            rows,
            i,
            row,
            col,
        ) || (sprite_bit(rows[row], col) && target_index(x, y, row, col) == i)),
{
    if draw_toggles_upto(x, y, rows, i, row, col + 1) {
        let (r, c) = choose|r: int, c: int|
            0 <= r < rows.len() && 0 <= c < 8 && (r < row || (r == row && c < col + 1))
                && sprite_bit(rows[r], c) && #[trigger] target_index(x, y, r, c) == i;
        if r == row && c == col {
            assert(sprite_bit(rows[row], col) && target_index(x, y, row, col) == i);
        } else {
            assert(r < row || (r == row && c < col));
            assert(draw_toggles_upto(x, y, rows, i, row, col));
        }
    }
    if draw_toggles_upto(x, y, rows, i, row, col) {
        let (r, c) = choose|r: int, c: int|
            0 <= r < rows.len() && 0 <= c < 8 && (r < row || (r == row && c < col))
                && sprite_bit(rows[r], c) && #[trigger] target_index(x, y, r, c) == i;
        assert(draw_toggles_upto(x, y, rows, i, row, col + 1));
    }
    if sprite_bit(rows[row], col) && target_index(x, y, row, col) == i {
        assert(draw_toggles_upto(x, y, rows, i, row, col + 1));
    }
}

/// Finishing a row: the bits before (`row`, 8) are the bits before
/// (`row + 1`, 0).
proof fn lemma_upto_row_wrap(x: u8, y: u8, rows: Seq<u8>, i: int, row: int)
    ensures
        draw_toggles_upto(x, y, rows, i, row, 8) == draw_toggles_upto(x, y, rows, i, row + 1, 0),
{
    if draw_toggles_upto(x, y, rows, i, row, 8) {
        let (r, c) = choose|r: int, c: int|
            0 <= r < rows.len() && 0 <= c < 8 && (r < row || (r == row && c < 8)) && sprite_bit(
                rows[r],
                c,
            ) && #[trigger] target_index(x, y, r, c) == i;
        assert(draw_toggles_upto(x, y, rows, i, row + 1, 0));
    }
    if draw_toggles_upto(x, y, rows, i, row + 1, 0) {
        let (r, c) = choose|r: int, c: int|
            0 <= r < rows.len() && 0 <= c < 8 && (r < row + 1 || (r == row + 1 && c < 0))
                && sprite_bit(rows[r], c) && #[trigger] target_index(x, y, r, c) == i;
        assert(draw_toggles_upto(x, y, rows, i, row, 8));
    }
}

/// The bits before (`rows.len()`, 0) are the whole sprite.
proof fn lemma_upto_full(x: u8, y: u8, rows: Seq<u8>, i: int)
    ensures
        draw_toggles_upto(x, y, rows, i, rows.len() as int, 0) == draw_toggles(x, y, rows, i),
{
    if draw_toggles_upto(x, y, rows, i, rows.len() as int, 0) {
        let (r, c) = choose|r: int, c: int|
            0 <= r < rows.len() && 0 <= c < 8 && (r < rows.len() || (r == rows.len() && c < 0))
                && sprite_bit(rows[r], c) && #[trigger] target_index(x, y, r, c) == i;
        assert(draw_toggles(x, y, rows, i));
    }
    if draw_toggles(x, y, rows, i) {
        let (r, c) = choose|r: int, c: int|
            0 <= r < rows.len() && 0 <= c < 8 && sprite_bit(rows[r], c) && #[trigger] target_index(
                x,
                y,
                r,
                c,
            ) == i;
        assert(draw_toggles_upto(x, y, rows, i, rows.len() as int, 0));
    }
}

/// No sprite bit before (`row`, `col`) lands on the pixel that bit
/// (`row`, `col`) itself lands on.
proof fn lemma_fresh_target(x: u8, y: u8, rows: Seq<u8>, row: int, col: int)
    requires
        rows.len() <= 32,
        0 <= row < rows.len(),
        0 <= col < 8,
    ensures
        !draw_toggles_upto(x, y, rows, target_index(x, y, row, col), row, col),
{
    let i = target_index(x, y, row, col);
    if draw_toggles_upto(x, y, rows, i, row, col) {
        let (r, c) = choose|r: int, c: int|
            0 <= r < rows.len() && 0 <= c < 8 && (r < row || (r == row && c < col))
                && sprite_bit(rows[r], c) && #[trigger] target_index(x, y, r, c) == i;
        lemma_target_injective(x, y, r, c, row, col);
        assert(false);
    }
}

/// Drawing the same sprite at the same coordinates twice restores every
/// pixel to its original state, and the second draw reports a collision
/// exactly when the first draw turned some dark pixel on.
pub proof fn lemma_draw_twice_restores(screen: Seq<bool>, x: u8, y: u8, rows: Seq<u8>)
    ensures
        spec_draw_screen(spec_draw_screen(screen, x, y, rows), x, y, rows) == screen,
        spec_draw_collision(spec_draw_screen(screen, x, y, rows), x, y, rows) == (exists|i: int|
            0 <= i < screen.len() && !screen[i] && #[trigger] draw_toggles(x, y, rows, i)),
{
    let once = spec_draw_screen(screen, x, y, rows);
    let twice = spec_draw_screen(once, x, y, rows);
    assert forall|i: int| 0 <= i < screen.len() implies twice[i] == screen[i] by {
        assert(once[i] == (screen[i] != draw_toggles(x, y, rows, i)));
    }
    assert(twice =~= screen);
    if spec_draw_collision(once, x, y, rows) {
        let i = choose|i: int|
            0 <= i < once.len() && once[i] && #[trigger] draw_toggles(x, y, rows, i);
        assert(!screen[i] && draw_toggles(x, y, rows, i));
    }
    if exists|i: int| 0 <= i < screen.len() && !screen[i] && #[trigger] draw_toggles(x, y, rows, i) {
        let i = choose|i: int|
            0 <= i < screen.len() && !screen[i] && #[trigger] draw_toggles(x, y, rows, i);
        assert(once[i]);
        assert(spec_draw_collision(once, x, y, rows));
    }
}

/// The framebuffer: 64x32 one-bit pixels, stored row-major.
pub struct Graphics {
    vram: Vec<bool>,
}

impl View for Graphics {
    type V = Seq<bool>;

    closed spec fn view(&self) -> Seq<bool> {
        self.vram@
    }
}

impl Graphics {
    /// The framebuffer always holds exactly 64 * 32 pixels.
    pub open spec fn wf(self) -> bool {
        self@.len() == 2048
    }

    /// A framebuffer with every pixel dark.
    pub fn new() -> (r: Graphics)
        ensures
            r.wf(),
            r@ == blank_screen(),
    {
        let mut vram: Vec<bool> = Vec::new();
        let mut i: usize = 0;
        while i < 2048
            invariant
                i <= 2048,
                vram@.len() == i,
                forall|j: int| 0 <= j < i ==> !vram@[j],
            decreases 2048 - i,
        {
            vram.push(false);
            i = i + 1;
        }
        let r = Graphics { vram };
        proof {
            assert(r@ =~= blank_screen());
        }
        r
    }

    /// Turn every pixel off.
    pub fn clear(&mut self)
        requires
            old(self).wf(),
        ensures
            final(self).wf(),
            final(self)@ == blank_screen(),
    {
        let mut i: usize = 0;
        while i < 2048
            invariant
                i <= 2048,
                self.vram@.len() == 2048,
                forall|j: int| 0 <= j < i ==> !self.vram@[j],
            decreases 2048 - i,
        {
            self.vram[i] = false;
            i = i + 1;
        }
        proof {
            assert(self@ =~= blank_screen());
        }
    }

    /// Read the pixel at (`x`, `y`).
    pub fn pixel(&self, x: usize, y: usize) -> (r: bool)
        requires
            self.wf(),
            x < 64,
            y < 32,
        ensures
            r == self@[y * 64 + x],
    {
        self.vram[y * 64 + x]
    }

    /// Blit a sprite at (`x`, `y`) by XOR, row by row, bit by bit, wrapping
    /// both axes per pixel. Returns the collision flag: whether some lit
    /// pixel was toggled off.
    pub fn draw_sprite(&mut self, x: u8, y: u8, sprite_bytes: &[u8]) -> (collision: bool)
        requires
            old(self).wf(),
            sprite_bytes@.len() <= 32,
        ensures
            final(self).wf(),
            final(self)@ == spec_draw_screen(old(self)@, x, y, sprite_bytes@),
            collision == spec_draw_collision(old(self)@, x, y, sprite_bytes@),
    {
        let ghost screen0 = self.vram@;
        let ghost rows = sprite_bytes@;
        let mut collision = false;
        let mut row: usize = 0;
        while row < sprite_bytes.len()
            invariant
                self.vram@.len() == 2048,
                screen0.len() == 2048,
                rows == sprite_bytes@,
                rows.len() <= 32,
                row <= rows.len(),
                forall|i: int|
                    0 <= i < 2048 ==> self.vram@[i] == (screen0[i] != draw_toggles_upto(
                        x,
                        y,
                        rows,
                        i,
                        row as int,
                        0,
                    )),
                collision == exists|i: int|
                    0 <= i < 2048 && screen0[i] && #[trigger] draw_toggles_upto(
                        x,
                        y,
                        rows,
                        i,
                        row as int,
                        0,
                    ),
            decreases rows.len() - row,
        {
            let byte = sprite_bytes[row];
            let mut col: usize = 0;
            while col < 8
                invariant
                    self.vram@.len() == 2048,
                    screen0.len() == 2048,
                    rows == sprite_bytes@,
                    rows.len() <= 32,
                    row < rows.len(),
                    byte == rows[row as int],
                    col <= 8,
                    forall|i: int|
                        0 <= i < 2048 ==> self.vram@[i] == (screen0[i] != draw_toggles_upto(
                            x,
                            y,
                            rows,
                            i,
                            row as int,
                            col as int,
                        )),
                    collision == exists|i: int|
                        0 <= i < 2048 && screen0[i] && #[trigger] draw_toggles_upto(
                            x,
                            y,
                            rows,
                            i,
                            row as int,
                            col as int,
                        ),
                decreases 8 - col,
            {
                let shift: u8 = (7 - col) as u8;
                let bit_set = ((byte >> shift) & 1) == 1;
                proof {
                    assert(bit_set == sprite_bit(rows[row as int], col as int));
                }
                if bit_set {
                    let px = (x as usize + col) % 64;
                    let py = (y as usize + row) % 32;
                    let q = py * 64 + px;
                    proof {
                        assert(q == target_index(x, y, row as int, col as int));
                        assert(q < 2048);
                        lemma_fresh_target(x, y, rows, row as int, col as int);
                    }
                    let cur = self.vram[q];
                    if cur {
                        collision = true;
                    }
                    self.vram[q] = !cur;
                    proof {
                        let ghost rowi = row as int;
                        let ghost coli = col as int;
                        assert forall|i: int| 0 <= i < 2048 implies self.vram@[i] == (screen0[i]
                            != draw_toggles_upto(x, y, rows, i, rowi, coli + 1)) by {
                            lemma_upto_step(x, y, rows, i, rowi, coli);
                        }
                        assert(screen0[q as int] == cur);
                        lemma_upto_step(x, y, rows, q as int, rowi, coli);
                        assert(draw_toggles_upto(x, y, rows, q as int, rowi, coli + 1));
                        assert forall|i: int|
                            0 <= i < 2048 && screen0[i] && #[trigger] draw_toggles_upto(
                                x,
                                y,
                                rows,
                                i,
                                rowi,
                                coli + 1,
                            ) implies collision by {
                            lemma_upto_step(x, y, rows, i, rowi, coli);
                        }
                        if collision && !(cur) {
                            let i = choose|i: int|
                                0 <= i < 2048 && screen0[i] && #[trigger] draw_toggles_upto(
                                    x,
                                    y,
                                    rows,
                                    i,
                                    rowi,
                                    coli,
                                );
                            lemma_upto_step(x, y, rows, i, rowi, coli);
                        }
                    }
                } else {
                    proof {
                        let ghost rowi = row as int;
                        let ghost coli = col as int;
                        assert forall|i: int| 0 <= i < 2048 implies draw_toggles_upto(
                            x,
                            y,
                            rows,
                            i,
                            rowi,
                            coli + 1,
                        ) == draw_toggles_upto(x, y, rows, i, rowi, coli) by {
                            lemma_upto_step(x, y, rows, i, rowi, coli);
                        }
                    }
                }
                col = col + 1;
            }
            proof {
                let ghost rowi = row as int;
                assert forall|i: int| 0 <= i < 2048 implies draw_toggles_upto(
                    x,
                    y,
                    rows,
                    i,
                    rowi,
                    8,
                ) == draw_toggles_upto(x, y, rows, i, rowi + 1, 0) by {
                    lemma_upto_row_wrap(x, y, rows, i, rowi);
                }
            }
            row = row + 1;
        }
        proof {
            assert forall|i: int| 0 <= i < 2048 implies draw_toggles_upto(
                x,
                y,
                rows,
                i,
                rows.len() as int,
                0,
            ) == draw_toggles(x, y, rows, i) by {
                lemma_upto_full(x, y, rows, i);
            }
            assert(self.vram@ =~= spec_draw_screen(screen0, x, y, rows));
            if collision {
                let i = choose|i: int|
                    0 <= i < 2048 && screen0[i] && #[trigger] draw_toggles_upto(
                        x,
                        y,
                        rows,
                        i,
                        rows.len() as int,
                        0,
                    );
                assert(draw_toggles(x, y, rows, i));
                assert(spec_draw_collision(screen0, x, y, rows));
            }
            if spec_draw_collision(screen0, x, y, rows) {
                let i = choose|i: int|
                    0 <= i < screen0.len() && screen0[i] && #[trigger] draw_toggles(x, y, rows, i);
                assert(draw_toggles_upto(x, y, rows, i, rows.len() as int, 0));
            }
        }
        collision
    }
}

} // verus!
