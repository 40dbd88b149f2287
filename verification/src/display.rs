//! The display and the one operation that paints on it: drawing a sprite by
//! exclusive or, with wrap-around and collision detection.

use vstd::prelude::*;
use crate::state::{DISPLAY_HEIGHT, DISPLAY_SIZE, DISPLAY_WIDTH, RAM_SIZE};

verus! {

/// Whether the bit of a sprite row that stands for `column` is set. Column 0
/// is the leftmost pixel and the most significant bit.
pub open spec fn row_bit(row: u8, column: int) -> bool {
    row & (0x80u8 >> (column as u8)) != 0
}

/// The column of pixel `p` relative to a sprite whose left edge is at `x0`,
/// wrapping around the display.
pub open spec fn sprite_column(x0: int, p: int) -> int {
    (p % 64 - x0) % 64
}

/// The row of pixel `p` relative to a sprite whose top edge is at `y0`,
/// wrapping around the display.
pub open spec fn sprite_row(y0: int, p: int) -> int {
    (p / 64 - y0) % 32
}

/// Whether drawing `sprite` with its top-left corner at `(x0, y0)` flips
/// pixel `p`: the pixel lies under a set bit of the sprite, columns taken
/// modulo 64 and rows modulo 32.
pub open spec fn flips(sprite: Seq<u8>, x0: int, y0: int, p: int) -> bool {
    &&& sprite_row(y0, p) < sprite.len()
    &&& sprite_column(x0, p) < 8
    &&& row_bit(sprite[sprite_row(y0, p)], sprite_column(x0, p))
}

/// The display after `sprite` was drawn onto it at `(x0, y0)`: every pixel
/// under a set bit of the sprite is flipped, every other pixel is kept.
pub open spec fn drawn(display: Seq<bool>, sprite: Seq<u8>, x0: int, y0: int) -> Seq<bool> {
    Seq::new(display.len(), |p: int| display[p] != flips(sprite, x0, y0, p))
}

/// Whether drawing `sprite` at `(x0, y0)` turns off a pixel that was lit.
pub open spec fn collides(display: Seq<bool>, sprite: Seq<u8>, x0: int, y0: int) -> bool {
    exists|p: int| 0 <= p < display.len() && display[p] && #[trigger] flips(sprite, x0, y0, p)
}

/// The `rows` bytes of memory from `start` on, as a sprite.
pub open spec fn sprite_at(memory: Seq<u8>, start: int, rows: int) -> Seq<u8> {
    Seq::new(rows as nat, |r: int| memory[start + r])
}

/// The pixel that lies under column `c` of row `r` of a sprite at
/// `(x0, y0)`, the coordinates wrapped around the display.
pub open spec fn pixel_under(x0: int, y0: int, r: int, c: int) -> int {
    (x0 + c) % 64 + 64 * ((y0 + r) % 32)
}

/// Whether pixel `p` is flipped by the part of the sprite that comes before
/// column `c` of row `r`, rows taken from the top and columns from the left.
#[verifier::opaque]
spec fn flips_before(sprite: Seq<u8>, x0: int, y0: int, r: int, c: int, p: int) -> bool {
    &&& flips(sprite, x0, y0, p)
    &&& (sprite_row(y0, p) < r || (sprite_row(y0, p) == r && sprite_column(x0, p) < c))
}

/// Whether the part of the sprite before column `c` of row `r` turns off a
/// pixel that was lit.
spec fn collides_before(
    display: Seq<bool>,
    sprite: Seq<u8>,
    x0: int,
    y0: int,
    r: int,
    c: int,
) -> bool {
    exists|p: int|
        0 <= p < display.len() && display[p] && #[trigger] flips_before(sprite, x0, y0, r, c, p)
}

/// A column offset `c` from `x0` wraps onto column `q` exactly when `q` is
/// `x0 + c` modulo the width.
proof fn lemma_wrap_column(x0: int, c: int, q: int)
    requires
        0 <= c < 64,
        0 <= q < 64,
    ensures
        ((q - x0) % 64 == c) <==> q == (x0 + c) % 64,
{
}

/// A row offset `r` from `y0` wraps onto row `q` exactly when `q` is
/// `y0 + r` modulo the height.
proof fn lemma_wrap_row(y0: int, r: int, q: int)
    requires
        0 <= r < 32,
        0 <= q < 32,
    ensures
        ((q - y0) % 32 == r) <==> q == (y0 + r) % 32,
{
}

/// Exactly one pixel lies under column `c` of row `r` of a sprite at
/// `(x0, y0)`.
pub proof fn lemma_pixel_under(x0: int, y0: int, r: int, c: int, p: int)
    requires
        0 <= r < 32,
        0 <= c < 64,
        0 <= p < 2048,
    ensures
        (sprite_row(y0, p) == r && sprite_column(x0, p) == c) <==> p == pixel_under(x0, y0, r, c),
{
    lemma_wrap_column(x0, c, p % 64);
    lemma_wrap_row(y0, r, p / 64);
}

/// Before the first column of the first row nothing is drawn yet.
proof fn lemma_nothing_done(display: Seq<bool>, sprite: Seq<u8>, x0: int, y0: int)
    ensures
        forall|p: int| !flips_before(sprite, x0, y0, 0, 0, p),
        !collides_before(display, sprite, x0, y0, 0, 0),
{
    reveal(flips_before);
}

/// Finishing a row is the same as standing before the next one.
proof fn lemma_row_done(display: Seq<bool>, sprite: Seq<u8>, x0: int, y0: int, r: int)
    ensures
        forall|p: int|
            flips_before(sprite, x0, y0, r, 8, p) == flips_before(sprite, x0, y0, r + 1, 0, p),
        collides_before(display, sprite, x0, y0, r, 8) == collides_before(
            display,
            sprite,
            x0,
            y0,
            r + 1,
            0,
        ),
{
    reveal(flips_before);
    if collides_before(display, sprite, x0, y0, r, 8) {
        let p = choose|p: int|
            0 <= p < display.len() && display[p] && #[trigger] flips_before(
                sprite,
                x0,
                y0,
                r,
                8,
                p,
            );
        assert(flips_before(sprite, x0, y0, r + 1, 0, p));
    }
    if collides_before(display, sprite, x0, y0, r + 1, 0) {
        let p = choose|p: int|
            0 <= p < display.len() && display[p] && #[trigger] flips_before(
                sprite,
                x0,
                y0,
                r + 1,
                0,
                p,
            );
        assert(flips_before(sprite, x0, y0, r, 8, p));
    }
}

/// Standing before the row after the last is having drawn the whole sprite.
proof fn lemma_sprite_done(display: Seq<bool>, sprite: Seq<u8>, x0: int, y0: int)
    ensures
        forall|p: int|
            flips_before(sprite, x0, y0, sprite.len() as int, 0, p) == flips(sprite, x0, y0, p),
        collides_before(display, sprite, x0, y0, sprite.len() as int, 0) == collides(
            display,
            sprite,
            x0,
            y0,
        ),
{
    reveal(flips_before);
    let rows = sprite.len() as int;
    if collides(display, sprite, x0, y0) {
        let p = choose|p: int|
            0 <= p < display.len() && display[p] && #[trigger] flips(sprite, x0, y0, p);
        assert(flips_before(sprite, x0, y0, rows, 0, p));
    }
    if collides_before(display, sprite, x0, y0, rows, 0) {
        let p = choose|p: int|
            0 <= p < display.len() && display[p] && #[trigger] flips_before(
                sprite,
                x0,
                y0,
                rows,
                0,
                p,
            );
        assert(flips(sprite, x0, y0, p));
    }
}

/// Taking in column `c` of row `r` adds the pixel under it, if its bit is
/// set, and no other pixel.
proof fn lemma_column_done(
    display: Seq<bool>,
    sprite: Seq<u8>,
    x0: int,
    y0: int,
    r: int,
    c: int,
)
    requires
        display.len() == DISPLAY_SIZE,
        0 <= r < sprite.len() <= 32,
        0 <= c < 8,
    ensures
        0 <= pixel_under(x0, y0, r, c) < DISPLAY_SIZE,
        !flips_before(sprite, x0, y0, r, c, pixel_under(x0, y0, r, c)),
        forall|p: int|
            0 <= p < DISPLAY_SIZE ==> flips_before(sprite, x0, y0, r, c + 1, p) == (flips_before(
                sprite,
                x0,
                y0,
                r,
                c,
                p,
            ) || (row_bit(sprite[r], c) && p == pixel_under(x0, y0, r, c))),
        collides_before(display, sprite, x0, y0, r, c + 1) == (collides_before(
            display,
            sprite,
            x0,
            y0,
            r,
            c,
        ) || (row_bit(sprite[r], c) && display[pixel_under(x0, y0, r, c)])),
{
    reveal(flips_before);
    let under = pixel_under(x0, y0, r, c);
    lemma_pixel_under(x0, y0, r, c, under);
    assert forall|p: int| 0 <= p < DISPLAY_SIZE implies flips_before(sprite, x0, y0, r, c + 1, p)
        == (flips_before(sprite, x0, y0, r, c, p) || (row_bit(sprite[r], c) && p == under)) by {
        lemma_pixel_under(x0, y0, r, c, p);
    }
    if collides_before(display, sprite, x0, y0, r, c + 1) {
        let p = choose|p: int|
            0 <= p < display.len() && display[p] && #[trigger] flips_before(
                sprite,
                x0,
                y0,
                r,
                c + 1,
                p,
            );
        if p != under {
            assert(flips_before(sprite, x0, y0, r, c, p));
        }
    }
    if collides_before(display, sprite, x0, y0, r, c) {
        let p = choose|p: int|
            0 <= p < display.len() && display[p] && #[trigger] flips_before(
                sprite,
                x0,
                y0,
                r,
                c,
                p,
            );
        assert(flips_before(sprite, x0, y0, r, c + 1, p));
    }
    if row_bit(sprite[r], c) && display[under] {
        assert(flips_before(sprite, x0, y0, r, c + 1, under));
    }
}

/// Draws the sprite of `rows` rows that starts at `memory[start]` onto the
/// display with its top-left corner at `(x0, y0)` and reports whether a lit
/// pixel was turned off.
///
/// Each set bit of a row flips the pixel under it; the bit for column `c` of
/// row `r` lands on column `x0 + c` modulo 64 of row `y0 + r` modulo 32.
pub fn draw_sprite(
    display: &mut [bool; DISPLAY_SIZE],
    memory: &[u8; RAM_SIZE],
    start: usize,
    rows: u8,
    x0: u8,
    y0: u8,
) -> (collision: bool)
    requires
        rows <= 32,
        rows == 0 || start + rows <= RAM_SIZE,
    ensures
        final(display)@ == drawn(
            old(display)@,
            sprite_at(memory@, start as int, rows as int),
            x0 as int,
            y0 as int,
        ),
        collision == collides(
            old(display)@,
            sprite_at(memory@, start as int, rows as int),
            x0 as int,
            y0 as int,
        ),
    no_unwind
{
    let ghost before = display@;
    let ghost sprite = sprite_at(memory@, start as int, rows as int);
    let ghost x = x0 as int;
    let ghost y = y0 as int;
    let mut flipped = false;
    let mut r: u8 = 0;
    proof {
        lemma_nothing_done(before, sprite, x, y);
    }
    while r < rows
        invariant
            r <= rows <= 32,
            rows == 0 || start + rows <= RAM_SIZE,
            before.len() == DISPLAY_SIZE,
            sprite == sprite_at(memory@, start as int, rows as int),
            x == x0,
            y == y0,
            forall|p: int|
                0 <= p < DISPLAY_SIZE ==> display@[p] == (before[p] != flips_before(
                    sprite,
                    x,
                    y,
                    r as int,
                    0,
                    p,
                )),
            flipped == collides_before(before, sprite, x, y, r as int, 0),
        decreases rows - r,
    {
        let pixels = memory[start + r as usize];
        let mut c: u8 = 0;
        while c < 8
            invariant
                r < rows <= 32,
                c <= 8,
                before.len() == DISPLAY_SIZE,
                sprite.len() == rows,
                pixels == sprite[r as int],
                x == x0,
                y == y0,
                forall|p: int|
                    0 <= p < DISPLAY_SIZE ==> display@[p] == (before[p] != flips_before(
                        sprite,
                        x,
                        y,
                        r as int,
                        c as int,
                        p,
                    )),
                flipped == collides_before(before, sprite, x, y, r as int, c as int),
            decreases 8 - c,
        {
            proof {
                lemma_column_done(before, sprite, x, y, r as int, c as int);
            }
            if pixels & (0x80u8 >> c) != 0 {
                let column = (x0 as usize + c as usize) % DISPLAY_WIDTH;
                let row = (y0 as usize + r as usize) % DISPLAY_HEIGHT;
                let index = column + DISPLAY_WIDTH * row;
                let lit = display[index];
                flipped = flipped || lit;
                display[index] = !lit;
            }
            c += 1;
        }
        proof {
            lemma_row_done(before, sprite, x, y, r as int);
        }
        r += 1;
    }
    proof {
        lemma_sprite_done(before, sprite, x, y);
    }
    flipped
}

} // verus!
