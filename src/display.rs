use vstd::prelude::*;

use crate::model::{
    col_offset, drawn_screen, row_offset, sprite_bit, sprite_hit, RAM_SIZE, SCREEN_HEIGHT,
    SCREEN_SIZE, SCREEN_WIDTH,
};

verus! {

/// Pixel `p` lies on row `py`, `col` places after column `x0`, exactly when it
/// is the pixel that column `(x0 + col) mod 64` of that row names.
proof fn lemma_pixel_of_column(p: int, x0: int, py: int, col: int)
    requires
        0 <= p < SCREEN_SIZE,
        0 <= x0 < SCREEN_WIDTH,
        0 <= py < SCREEN_HEIGHT,
        0 <= col < 8,
    ensures
        (p / 64 == py && col_offset(p, x0) == col) <==> p == (x0 + col) % 64 + 64 * py,
{
    let w = (x0 + col) % 64;
    assert(w == if x0 + col < 64 { x0 + col } else { x0 + col - 64 });
    assert(p == p % 64 + 64 * (p / 64) && 0 <= p % 64 < 64) by (nonlinear_arith)
        requires
            0 <= p,
    ;
    assert((w + 64 * py) / 64 == py && (w + 64 * py) % 64 == w) by (nonlinear_arith)
        requires
            0 <= w < 64,
            0 <= py,
    ;
}

/// Pixel `p` lies `row` rows after row `y0` exactly when it stands on row
/// `(y0 + row) mod 32`.
proof fn lemma_row_of_offset(p: int, y0: int, row: int)
    requires
        0 <= p < SCREEN_SIZE,
        0 <= y0 < SCREEN_HEIGHT,
        0 <= row < SCREEN_HEIGHT,
    ensures
        row_offset(p, y0) == row <==> p / 64 == (y0 + row) % 32,
        0 <= row_offset(p, y0) < SCREEN_HEIGHT,
{
    assert(0 <= p / 64 < 32);
    assert((y0 + row) % 32 == if y0 + row < 32 { y0 + row } else { y0 + row - 32 });
}

/// XORs one sprite row `bits` onto display row `py`, starting at column `x0`
/// and wrapping around the right edge.
fn xor_row(screen: &mut [bool; SCREEN_SIZE], bits: u8, x0: usize, py: usize)
    requires
        x0 < SCREEN_WIDTH,
        py < SCREEN_HEIGHT,
    ensures
        forall|p: int|
            0 <= p < SCREEN_SIZE ==> #[trigger] final(screen)@[p] == (old(screen)@[p] != (p / 64
                == py && col_offset(p, x0 as int) < 8 && sprite_bit(bits, col_offset(p, x0 as int)))),
    no_unwind
{
    let ghost start = screen@;
    let mut col: usize = 0;
    while col < 8
        invariant
            0 <= col <= 8,
            x0 < SCREEN_WIDTH,
            py < SCREEN_HEIGHT,
            start == old(screen)@,
            forall|p: int|
                0 <= p < SCREEN_SIZE ==> #[trigger] screen@[p] == (start[p] != (p / 64 == py
                    && col_offset(p, x0 as int) < col && sprite_bit(bits, col_offset(p, x0 as int)))),
        decreases 8 - col,
    {
        let idx = (x0 + col) % SCREEN_WIDTH + SCREEN_WIDTH * py;
        let set = bits & (0x80u8 >> (col as u8)) != 0;
        if set {
            screen[idx] = !screen[idx];
        }
        assert forall|p: int| 0 <= p < SCREEN_SIZE implies #[trigger] screen@[p] == (start[p] != (p
            / 64 == py && col_offset(p, x0 as int) < col + 1 && sprite_bit(
            bits,
            col_offset(p, x0 as int),
        ))) by {
            lemma_pixel_of_column(p, x0 as int, py as int, col as int);
        }
        col += 1;
    }
}

/// XORs the `n`-row sprite at `ram[base..base + n]` onto the display at
/// column `x0` and row `y0`, wrapping each pixel around both edges.
pub fn draw_sprite(
    screen: &mut [bool; SCREEN_SIZE],
    ram: &[u8; RAM_SIZE],
    base: usize,
    x0: usize,
    y0: usize,
    n: usize,
)
    requires
        x0 < SCREEN_WIDTH,
        y0 < SCREEN_HEIGHT,
        n < 16,
        n > 0 ==> base + n <= RAM_SIZE,
    ensures
        final(screen)@ == drawn_screen(old(screen)@, ram@, base as int, x0 as int, y0 as int, n as int),
    no_unwind
{
    let ghost start = screen@;
    let mut row: usize = 0;
    while row < n
        invariant
            0 <= row <= n < 16,
            x0 < SCREEN_WIDTH,
            y0 < SCREEN_HEIGHT,
            n > 0 ==> base + n <= RAM_SIZE,
            start == old(screen)@,
            forall|p: int|
                0 <= p < SCREEN_SIZE ==> #[trigger] screen@[p] == (start[p] != sprite_hit(
                    ram@,
                    base as int,
                    x0 as int,
                    y0 as int,
                    row as int,
                    p,
                )),
        decreases n - row,
    {
        let py = (y0 + row) % SCREEN_HEIGHT;
        let bits = ram[base + row];
        let ghost before = screen@;
        xor_row(screen, bits, x0, py);
        assert forall|p: int| 0 <= p < SCREEN_SIZE implies #[trigger] screen@[p] == (start[p]
            != sprite_hit(ram@, base as int, x0 as int, y0 as int, row + 1, p)) by {
            lemma_row_of_offset(p, y0 as int, row as int);
            assert(before[p] == (start[p] != sprite_hit(
                ram@,
                base as int,
                x0 as int,
                y0 as int,
                row as int,
                p,
            )));
        }
        row += 1;
    }
    assert(screen@ =~= drawn_screen(start, ram@, base as int, x0 as int, y0 as int, n as int));
}

} // verus!
