//! The monochrome display, 64 pixels wide and 32 high, held row by row, and
//! the drawing of sprites onto it by exclusive or.

use bitvec::order::Msb0;
use bitvec::view::BitView;
use vstd::prelude::*;

verus! {

/// The number of pixels in a row of the display.
pub const DISPLAY_WIDTH: usize = 64;

/// The number of rows of the display.
pub const DISPLAY_HEIGHT: usize = 32;

/// The number of pixels of the display.
pub const DISPLAY_PIXELS: usize = 2048;

/// The pixel of a sprite row at `column`, counted from the left: the bits of
/// the row's byte from the most significant down.
pub open spec fn sprite_bit(row: u8, column: int) -> bool {
    (row >> ((7 - column) as u8)) & 1 == 1
}

/// Whether a sprite drawn with its top left corner at column `x` of row `y`
/// has a lit pixel on the display pixel `pixel`. Sprite row `r` lies on
/// display row `y + r` and sprite column `c` on display column `x + c`; what
/// would fall right of the last column or below the last row is cut off.
pub open spec fn sprite_covers(rows: Seq<u8>, x: int, y: int, pixel: int) -> bool {
    let row = pixel / 64 - y;
    let column = pixel % 64 - x;
    0 <= row < rows.len() && 0 <= column < 8 && sprite_bit(rows[row], column)
}

/// The display after the sprite has been drawn: each pixel that the sprite
/// covers is inverted.
pub open spec fn draw(display: Seq<bool>, rows: Seq<u8>, x: int, y: int) -> Seq<bool> {
    Seq::new(display.len(), |pixel: int| display[pixel] != sprite_covers(rows, x, y, pixel))
}

/// Whether the sprite has a lit pixel on the display pixel `pixel` and that
/// pixel is lit already.
pub open spec fn hits(display: Seq<bool>, rows: Seq<u8>, x: int, y: int, pixel: int) -> bool {
    0 <= pixel < display.len() && display[pixel] && sprite_covers(rows, x, y, pixel)
}

/// Whether drawing the sprite turns off some pixel that was lit.
pub open spec fn collides(display: Seq<bool>, rows: Seq<u8>, x: int, y: int) -> bool {
    exists|pixel: int| #[trigger] hits(display, rows, x, y, pixel)
}

/// The display with every pixel off.
pub open spec fn blank() -> Seq<bool> {
    Seq::new(DISPLAY_PIXELS as nat, |pixel: int| false)
}

/// Drawing the same sprite twice at the same place restores the display.
pub proof fn draw_twice_restores(display: Seq<bool>, rows: Seq<u8>, x: int, y: int)
    ensures
        draw(draw(display, rows, x, y), rows, x, y) == display,
{
    assert(draw(draw(display, rows, x, y), rows, x, y) =~= display);
}

/// Drawing a sprite and then one more row below it is drawing the sprite
/// with that row appended, and the two collide with the display exactly when
/// the longer sprite does.
pub proof fn draw_push_row(display: Seq<bool>, rows: Seq<u8>, x: int, y: int, row: u8)
    ensures
        draw(draw(display, rows, x, y), seq![row], x, y + rows.len()) == draw(
            display,
            rows.push(row),
            x,
            y,
        ),
        collides(display, rows.push(row), x, y) <==> collides(display, rows, x, y) || collides(
            draw(display, rows, x, y),
            seq![row],
            x,
            y + rows.len(),
        ),
{
    let below = y + rows.len();
    let drawn = draw(display, rows, x, y);
    let longer = rows.push(row);
    assert forall|pixel: int|
        sprite_covers(longer, x, y, pixel) == (sprite_covers(rows, x, y, pixel) || sprite_covers(
            seq![row],
            x,
            below,
            pixel,
        )) && !(sprite_covers(rows, x, y, pixel) && sprite_covers(seq![row], x, below, pixel)) by {
        let r = pixel / 64 - y;
        if 0 <= r < rows.len() {
            assert(longer[r] == rows[r]);
        } else if r == rows.len() {
            assert(longer[r] == row);
            assert(seq![row][pixel / 64 - below] == row);
        }
    }
    assert(draw(drawn, seq![row], x, below) =~= draw(display, longer, x, y));
    if collides(display, longer, x, y) {
        let pixel = choose|pixel: int| hits(display, longer, x, y, pixel);
        if sprite_covers(rows, x, y, pixel) {
            assert(hits(display, rows, x, y, pixel));
        } else {
            assert(hits(drawn, seq![row], x, below, pixel));
        }
    }
    if collides(display, rows, x, y) {
        let pixel = choose|pixel: int| hits(display, rows, x, y, pixel);
        assert(hits(display, longer, x, y, pixel));
    }
    if collides(drawn, seq![row], x, below) {
        let pixel = choose|pixel: int| hits(drawn, seq![row], x, below, pixel);
        assert(hits(display, longer, x, y, pixel));
    }
}

/// A sprite without rows changes nothing and collides with nothing.
pub proof fn draw_nothing(display: Seq<bool>, x: int, y: int)
    ensures
        draw(display, Seq::empty(), x, y) == display,
        !collides(display, Seq::empty(), x, y),
{
    assert(draw(display, Seq::<u8>::empty(), x, y) =~= display);
}

/// Reads the bit of `byte` at `column` through `bitvec`: `BitView::view_bits`
/// views the byte as a bit-slice of length 8 in `Msb0` order, which is then
/// indexed at `column`. In that order index 0 is the most significant bit of
/// the byte and index 7 the least significant. Indexing at 8 or above would
/// panic. This contract is not proved.
#[verifier::external_body]
fn bit_at(byte: u8, column: usize) -> (bit: bool)
    requires
        column < 8,
    ensures
        bit == sprite_bit(byte, column as int),
{
    byte.view_bits::<Msb0>()[column]
}

/// Turns every pixel of the display off.
pub fn clear(display: &mut [bool; 2048])
    ensures
        final(display)@ == blank(),
{
    *display = [false;2048];
    assert(display@ =~= blank());
}

/// Draws one sprite row of eight pixels, the bits of `bits` from the most
/// significant down, with its left end at column `x` of row `y`. Pixels
/// that would fall right of the last column are cut off. Returns whether a
/// lit pixel was turned off.
pub fn draw_row(display: &mut [bool; 2048], bits: u8, x: u8, y: u8) -> (collision: bool)
    requires
        x < 64,
        y < 32,
    ensures
        final(display)@ == draw(old(display)@, seq![bits], x as int, y as int),
        collision == collides(old(display)@, seq![bits], x as int, y as int),
{
    let start: usize = y as usize * DISPLAY_WIDTH + x as usize;
    let mut column: usize = 0;
    let mut collision = false;
    let ghost before = display@;
    let ghost row = seq![bits];
    while column < 8 && x as usize + column < DISPLAY_WIDTH
        invariant
            column <= 8,
            x < 64,
            y < 32,
            start == y * 64 + x,
            before == old(display)@,
            row == seq![bits],
            forall|pixel: int|
                0 <= pixel < 2048 ==> display@[pixel] == (if pixel < start + column {
                    before[pixel] != sprite_covers(row, x as int, y as int, pixel)
                } else {
                    before[pixel]
                }),
            collision <==> exists|pixel: int|
                pixel < start + column && #[trigger] hits(before, row, x as int, y as int, pixel),
            forall|pixel: int|
                start + column <= pixel && #[trigger] sprite_covers(
                    row,
                    x as int,
                    y as int,
                    pixel,
                ) ==> column < 8 && x + column < 64,
        decreases 8 - column,
    {
        let pixel: usize = start + column;
        let lit: bool = bit_at(bits, column);
        assert(sprite_covers(row, x as int, y as int, pixel as int) == lit) by {
            assert(pixel as int / 64 == y as int);
            assert(pixel as int % 64 == x + column);
            assert(row[0] == bits);
        }
        let ghost was = collision;
        if display[pixel] && lit {
            collision = true;
        }
        display[pixel] = display[pixel] ^ lit;
        column += 1;
        proof {
            if hits(before, row, x as int, y as int, pixel as int) {
                assert(collision);
            }
            if collision && !was {
                assert(hits(before, row, x as int, y as int, pixel as int));
            }
        }
    }
    assert(display@ =~= draw(before, row, x as int, y as int));
    proof {
        if collides(before, row, x as int, y as int) {
            let pixel = choose|pixel: int| hits(before, row, x as int, y as int, pixel);
            assert(pixel < start + column);
        }
    }
    collision
}

} // verus!
