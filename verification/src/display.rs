//! The 64x32 one-bit framebuffer and the way a sprite is composited into it.
//!
//! The framebuffer is a row-major sequence of 2048 cells, each 0 or 1. A
//! sprite is up to fifteen bytes, one per row; bit 7 of a byte is the
//! leftmost of its eight pixels. Drawing a sprite at `(x, y)` toggles, for
//! every set bit at `(col, row)`, the pixel in column `(x + col) mod 64` of
//! line `(y + row) mod 32`.

use vstd::prelude::*;
use vstd::arithmetic::div_mod::lemma_fundamental_div_mod_converse;
use crate::mmu::Mmu;

verus! {

/// Pixels in one line of the framebuffer.
pub const SCREEN_WIDTH: usize = 64;

/// Lines of the framebuffer.
pub const SCREEN_HEIGHT: usize = 32;

/// Pixels in the framebuffer.
pub const VIDEO_SIZE: usize = 2048;

/// A framebuffer is 2048 cells, each 0 or 1.
pub open spec fn is_video(video: Seq<u8>) -> bool {
    &&& video.len() == 2048
    &&& forall|p: int| 0 <= p < 2048 ==> #[trigger] video[p] <= 1
}

/// The framebuffer with every pixel off.
pub open spec fn blank_video() -> Seq<u8> {
    Seq::new(2048, |p: int| 0u8)
}

/// The other value of a pixel.
pub open spec fn flipped(pixel: u8) -> u8 {
    if pixel == 0 {
        1
    } else {
        0
    }
}

/// The cell of the framebuffer on which the sprite pixel at `(col, row)`
/// lands when the sprite is drawn at `(x, y)`. Both coordinates wrap around.
pub open spec fn pixel_index(x: int, y: int, col: int, row: int) -> int {
    (x + col) % 64 + ((y + row) % 32) * 64
}

/// The sprite column that lands on cell `p` when a sprite is drawn at
/// horizontal position `x`; it is below 8 if `p` lies under the sprite's
/// eight columns.
pub open spec fn sprite_col(x: int, p: int) -> int {
    (p % 64 - x) % 64
}

/// The sprite row that lands on cell `p` when a sprite is drawn at vertical
/// position `y`.
pub open spec fn sprite_row(y: int, p: int) -> int {
    (p / 64 - y) % 32
}

/// Whether the pixel in column `col` of a sprite row is set: bit `7 - col` of
/// the row's byte.
pub open spec fn sprite_bit(row_byte: u8, col: int) -> bool {
    row_byte & (0x80u8 >> col) != 0
}

/// Whether drawing the sprite row `row_byte` as row number `row` of a sprite
/// at `(x, y)` toggles cell `p`.
pub open spec fn row_toggles(row_byte: u8, x: int, y: int, row: int, p: int) -> bool {
    &&& sprite_row(y, p) == row
    &&& sprite_col(x, p) < 8
    &&& sprite_bit(row_byte, sprite_col(x, p))
}

/// Whether drawing the `n`-row sprite stored at `index` toggles cell `p`.
///
/// A sprite is at most 8 wide and 15 tall, so at most one of its pixels
/// lands on any cell: the one in row `sprite_row(y, p)` and column
/// `sprite_col(x, p)`.
pub open spec fn toggles(memory: Seq<u8>, index: int, x: int, y: int, n: int, p: int) -> bool {
    let row = sprite_row(y, p);
    row < n && row_toggles(memory[index + row], x, y, row, p)
}

/// The framebuffer after the `n`-row sprite stored at `index` was drawn at
/// `(x, y)`.
pub open spec fn drawn(
    video: Seq<u8>,
    memory: Seq<u8>,
    index: int,
    x: int,
    y: int,
    n: int,
) -> Seq<u8> {
    Seq::new(
        2048,
        |p: int|
            if toggles(memory, index, x, y, n, p) {
                flipped(video[p])
            } else {
                video[p]
            },
    )
}

/// Whether the pixel in column `col` of the sprite row `row_byte`, drawn as
/// row number `row` of a sprite at `(x, y)`, is set and lands on a pixel that
/// is on.
pub open spec fn row_hits(
    video: Seq<u8>,
    row_byte: u8,
    x: int,
    y: int,
    col: int,
    row: int,
) -> bool {
    sprite_bit(row_byte, col) && video[pixel_index(x, y, col, row)] == 1
}

/// Whether the sprite pixel at `(col, row)` of the sprite stored at `index`,
/// drawn at `(x, y)`, is set and lands on a pixel that is on.
pub open spec fn hits(
    video: Seq<u8>,
    memory: Seq<u8>,
    index: int,
    x: int,
    y: int,
    col: int,
    row: int,
) -> bool {
    row_hits(video, memory[index + row], x, y, col, row)
}

/// Whether drawing the `n`-row sprite stored at `index` at `(x, y)` turns a
/// pixel off.
pub open spec fn collides(
    video: Seq<u8>,
    memory: Seq<u8>,
    index: int,
    x: int,
    y: int,
    n: int,
) -> bool {
    exists|col: int, row: int|
        0 <= col < 8 && 0 <= row < n && #[trigger] hits(video, memory, index, x, y, col, row)
}

/// A sprite pixel lands inside the framebuffer, and the cell it lands on
/// leads back to it.
pub proof fn lemma_pixel_of_sprite(x: int, y: int, col: int, row: int)
    requires
        0 <= x < 256,
        0 <= y < 256,
        0 <= col < 8,
        0 <= row < 16,
    ensures
        0 <= pixel_index(x, y, col, row) < 2048,
        sprite_col(x, pixel_index(x, y, col, row)) == col,
        sprite_row(y, pixel_index(x, y, col, row)) == row,
{
    let column = (x + col) % 64;
    let line = (y + row) % 32;
    let p = column + line * 64;
    lemma_fundamental_div_mod_converse(p, 64, line, column);
    lemma_fundamental_div_mod_converse(column - x, 64, -((x + col) / 64), col);
    lemma_fundamental_div_mod_converse(line - y, 32, -((y + row) / 32), row);
}

/// Every cell is the landing place of the sprite pixel that `sprite_col` and
/// `sprite_row` name for it.
pub proof fn lemma_sprite_of_pixel(x: int, y: int, p: int)
    requires
        0 <= x < 256,
        0 <= y < 256,
        0 <= p < 2048,
    ensures
        0 <= sprite_col(x, p) < 64,
        0 <= sprite_row(y, p) < 32,
        pixel_index(x, y, sprite_col(x, p), sprite_row(y, p)) == p,
{
    let col = sprite_col(x, p);
    let row = sprite_row(y, p);
    lemma_fundamental_div_mod_converse(x + col, 64, -((p % 64 - x) / 64), p % 64);
    lemma_fundamental_div_mod_converse(y + row, 32, -((p / 64 - y) / 32), p / 64);
}

/// The framebuffer cell for the sprite pixel at `(xline, yline)` of a sprite
/// drawn at `(x, y)`.
pub fn video_coordinates(x: u8, y: u8, xline: u16, yline: u16) -> (cell: usize)
    ensures
        cell == pixel_index(x as int, y as int, xline as int, yline as int),
        cell < 2048,
    no_unwind
{
    let column = (x as usize + xline as usize) % SCREEN_WIDTH;
    let line = (y as usize + yline as usize) % SCREEN_HEIGHT;
    column + line * SCREEN_WIDTH
}

/// Draws one row of a sprite: toggles the cell under every set bit of
/// `row_byte`, and says whether a cell that was on is among them.
fn draw_row(video: &mut Vec<u8>, row_byte: u8, x: u8, y: u8, row: u8) -> (hit: bool)
    requires
        is_video(old(video)@),
        row < 16,
    ensures
        is_video(final(video)@),
        forall|p: int|
            0 <= p < 2048 ==> #[trigger] final(video)@[p] == if row_toggles(
                row_byte,
                x as int,
                y as int,
                row as int,
                p,
            ) {
                flipped(old(video)@[p])
            } else {
                old(video)@[p]
            },
        hit == exists|col: int|
            0 <= col < 8 && #[trigger] row_hits(
                old(video)@,
                row_byte,
                x as int,
                y as int,
                col,
                row as int,
            ),
    no_unwind
{
    let mut hit = false;
    let mut col: u8 = 0;
    while col < 8
        invariant
            col <= 8,
            row < 16,
            is_video(video@),
            is_video(old(video)@),
            forall|p: int|
                0 <= p < 2048 ==> #[trigger] video@[p] == if row_toggles(
                    row_byte,
                    x as int,
                    y as int,
                    row as int,
                    p,
                ) && sprite_col(x as int, p) < col {
                    flipped(old(video)@[p])
                } else {
                    old(video)@[p]
                },
            hit == exists|c: int|
                0 <= c < col && #[trigger] row_hits(
                    old(video)@,
                    row_byte,
                    x as int,
                    y as int,
                    c,
                    row as int,
                ),
        decreases 8 - col,
    {
        if row_byte & (0x80u8 >> col) != 0 {
            let cell = video_coordinates(x, y, col as u16, row as u16);
            proof {
                lemma_pixel_of_sprite(x as int, y as int, col as int, row as int);
            }
            let pixel = video[cell];
            if pixel == 1 {
                hit = true;
            }
            assert(pixel ^ 1 == if pixel == 0 { 1u8 } else { 0u8 }) by (bit_vector)
                requires
                    pixel <= 1,
            ;
            video[cell] = pixel ^ 1;
        }
        proof {
            assert forall|p: int| 0 <= p < 2048 implies #[trigger] video@[p] == if row_toggles(
                row_byte,
                x as int,
                y as int,
                row as int,
                p,
            ) && sprite_col(x as int, p) < col + 1 {
                flipped(old(video)@[p])
            } else {
                old(video)@[p]
            } by {
                lemma_sprite_of_pixel(x as int, y as int, p);
            }
            assert(row_hits(old(video)@, row_byte, x as int, y as int, col as int, row as int)
                == (sprite_bit(row_byte, col as int) && old(video)@[pixel_index(
                x as int,
                y as int,
                col as int,
                row as int,
            )] == 1));
        }
        col += 1;
    }
    hit
}

/// Draws the `n`-row sprite stored at `start` to `(x, y)`, and says whether
/// that turned a pixel off.
pub(crate) fn draw_sprite(
    video: &mut Vec<u8>,
    mmu: &Mmu,
    start: usize,
    x: u8,
    y: u8,
    n: u8,
) -> (collision: bool)
    requires
        is_video(old(video)@),
        n < 16,
        n > 0 ==> start + n <= 4096,
    ensures
        is_video(final(video)@),
        final(video)@ == drawn(old(video)@, mmu@, start as int, x as int, y as int, n as int),
        collision == collides(old(video)@, mmu@, start as int, x as int, y as int, n as int),
    no_unwind
{
    let mut collision = false;
    let mut row: u8 = 0;
    while row < n
        invariant
            row <= n,
            n < 16,
            n > 0 ==> start + n <= 4096,
            is_video(video@),
            is_video(old(video)@),
            video@ == drawn(old(video)@, mmu@, start as int, x as int, y as int, row as int),
            collision == collides(
                old(video)@,
                mmu@,
                start as int,
                x as int,
                y as int,
                row as int,
            ),
        decreases n - row,
    {
        let row_byte = match mmu.read_byte(start + row as usize) {
            Ok(byte) => byte,
            Err(_) => 0,
        };
        let hit = draw_row(video, row_byte, x, y, row);
        proof {
            lemma_row_drawn(
                old(video)@,
                mmu@,
                start as int,
                x as int,
                y as int,
                row as int,
                video@,
                hit,
            );
        }
        if hit {
            collision = true;
        }
        row += 1;
    }
    collision
}

/// Drawing row `row` on top of the first `row` rows of a sprite gives its
/// first `row + 1` rows, and the sprite so far turns a pixel off if it did
/// before or if this row does.
proof fn lemma_row_drawn(
    video: Seq<u8>,
    memory: Seq<u8>,
    index: int,
    x: int,
    y: int,
    row: int,
    after: Seq<u8>,
    hit: bool,
)
    requires
        is_video(video),
        0 <= x < 256,
        0 <= y < 256,
        0 <= row < 15,
        after.len() == 2048,
        forall|p: int|
            0 <= p < 2048 ==> #[trigger] after[p] == if row_toggles(
                memory[index + row],
                x,
                y,
                row,
                p,
            ) {
                flipped(drawn(video, memory, index, x, y, row)[p])
            } else {
                drawn(video, memory, index, x, y, row)[p]
            },
        hit == exists|col: int|
            0 <= col < 8 && #[trigger] row_hits(
                drawn(video, memory, index, x, y, row),
                memory[index + row],
                x,
                y,
                col,
                row,
            ),
    ensures
        after == drawn(video, memory, index, x, y, row + 1),
        collides(video, memory, index, x, y, row + 1) == (collides(video, memory, index, x, y, row)
            || hit),
{
    let partial = drawn(video, memory, index, x, y, row);
    assert forall|col: int| 0 <= col < 8 implies row_hits(
        partial,
        memory[index + row],
        x,
        y,
        col,
        row,
    ) == #[trigger] hits(video, memory, index, x, y, col, row) by {
        lemma_pixel_of_sprite(x, y, col, row);
    }
    if hit {
        let c = choose|c: int|
            0 <= c < 8 && #[trigger] row_hits(partial, memory[index + row], x, y, c, row);
        assert(hits(video, memory, index, x, y, c, row));
    }
}

} // verus!
