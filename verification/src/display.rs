//! The 64x32 monochrome framebuffer with XOR sprite compositing and
//! collision reporting.

use vstd::prelude::*;

verus! {

pub const PIXELS_H: usize = 64;

pub const PIXELS_V: usize = 32;

pub const BUFFER_SIZE: usize = PIXELS_H * PIXELS_V;

pub const DARK_COLOR_R: u8 = 0;

pub const DARK_COLOR_G: u8 = 33;

pub const DARK_COLOR_B: u8 = 66;

pub const LIGHT_COLOR_R: u8 = 0;

pub const LIGHT_COLOR_G: u8 = 128;

pub const LIGHT_COLOR_B: u8 = 255;

/// Whether bit `dx` (0 = leftmost pixel, most significant bit) of a sprite
/// row byte is set.
pub open spec fn row_bit(row: u8, dx: int) -> bool {
    (row & (1u8 << ((7 - dx) as usize))) != 0
}

/// Whether the sprite drawn with top-left corner `(x0, y0)` puts a set bit
/// on pixel `(px, py)`: the pixel lies in the sprite's 8-wide window, on one
/// of its rows, and the corresponding row bit is set.
pub open spec fn sprite_pixel(x0: int, y0: int, sprite: Seq<u8>, px: int, py: int) -> bool {
    &&& y0 <= py < y0 + sprite.len()
    &&& x0 <= px < x0 + 8
    &&& row_bit(sprite[py - y0], px - x0)
}

/// The framebuffer after XOR-drawing `sprite` at `(x0, y0)`: every pixel
/// flips exactly where the sprite puts a set bit; pixels outside the grid
/// do not exist, so off-grid sprite bits are silently dropped.
pub open spec fn draw_bits(bits: Seq<bool>, x0: int, y0: int, sprite: Seq<u8>) -> Seq<bool> {
    Seq::new(
        bits.len(),
        |i: int| bits[i] != sprite_pixel(x0, y0, sprite, i % (PIXELS_H as int), i / (PIXELS_H as int)),
    )
}

/// Whether XOR-drawing `sprite` at `(x0, y0)` turns any set pixel unset:
/// some in-grid pixel is already set where the sprite puts a set bit.
pub open spec fn draw_collision(bits: Seq<bool>, x0: int, y0: int, sprite: Seq<u8>) -> bool {
    exists|i: int|
        0 <= i < bits.len() && bits[i] && sprite_pixel(
            x0,
            y0,
            sprite,
            i % (PIXELS_H as int),
            i / (PIXELS_H as int),
        )
}

/// One channel of the 4-byte color of a pixel: a fixed quadruple for set
/// and another for unset, both fully opaque.
pub open spec fn color_byte(is_set: bool, channel: int) -> u8 {
    if channel == 0 {
        if is_set {
            LIGHT_COLOR_R
        } else {
            DARK_COLOR_R
        }
    } else if channel == 1 {
        if is_set {
            LIGHT_COLOR_G
        } else {
            DARK_COLOR_G
        }
    } else if channel == 2 {
        if is_set {
            LIGHT_COLOR_B
        } else {
            DARK_COLOR_B
        }
    } else {
        255u8
    }
}

/// The framebuffer rendered as row-major 4-channel color bytes.
pub open spec fn frame_of(bits: Seq<bool>) -> Seq<u8> {
    Seq::new(bits.len() * 4, |j: int| color_byte(bits[j / 4], j % 4))
}

/// XOR + collision: a sprite drawn where all its in-grid target pixels are
/// unset reports no collision; drawing the same sprite at the same spot a
/// second time restores the framebuffer exactly and reports a collision
/// precisely when the sprite puts at least one set bit inside the grid.
pub proof fn lemma_draw_twice(bits: Seq<bool>, x0: int, y0: int, sprite: Seq<u8>)
    requires
        forall|i: int|
            0 <= i < bits.len() && sprite_pixel(
                x0,
                y0,
                sprite,
                i % (PIXELS_H as int),
                i / (PIXELS_H as int),
            ) ==> !bits[i],
    ensures
        !draw_collision(bits, x0, y0, sprite),
        draw_bits(draw_bits(bits, x0, y0, sprite), x0, y0, sprite) == bits,
        draw_collision(draw_bits(bits, x0, y0, sprite), x0, y0, sprite) == exists|i: int|
            0 <= i < bits.len() && #[trigger] sprite_pixel(
                x0,
                y0,
                sprite,
                i % (PIXELS_H as int),
                i / (PIXELS_H as int),
            ),
{
    let once = draw_bits(bits, x0, y0, sprite);
    assert(draw_bits(once, x0, y0, sprite) =~= bits);
    if exists|i: int|
        0 <= i < bits.len() && #[trigger] sprite_pixel(
            x0,
            y0,
            sprite,
            i % (PIXELS_H as int),
            i / (PIXELS_H as int),
        ) {
        let i = choose|i: int|
            0 <= i < bits.len() && #[trigger] sprite_pixel(
                x0,
                y0,
                sprite,
                i % (PIXELS_H as int),
                i / (PIXELS_H as int),
            );
        assert(once[i] && sprite_pixel(x0, y0, sprite, i % (PIXELS_H as int), i / (PIXELS_H as int)));
        assert(draw_collision(once, x0, y0, sprite));
    }
}

/// Sprite clipping: a draw changes no pixel the sprite does not cover
/// with a set bit, so a partially off-grid draw mutates only the in-grid
/// pixels it actually reaches; pixels past the edge simply do not exist.
pub proof fn lemma_draw_untouched(bits: Seq<bool>, x0: int, y0: int, sprite: Seq<u8>, i: int)
    requires
        0 <= i < bits.len(),
        !sprite_pixel(x0, y0, sprite, i % (PIXELS_H as int), i / (PIXELS_H as int)),
    ensures
        draw_bits(bits, x0, y0, sprite)[i] == bits[i],
{
}

/// The fixed-size monochrome pixel grid, row-major, top row first.
pub struct Display {
    pub bits: Vec<bool>,
}

impl Display {
    /// The pixel grid as one row-major sequence.
    pub open spec fn view(&self) -> Seq<bool> {
        self.bits@
    }

    /// The grid always spans exactly 64 x 32 pixels.
    pub open spec fn wf(&self) -> bool {
        self@.len() == BUFFER_SIZE
    }

    /// A fully unset grid.
    pub fn new() -> (r: Self)
        ensures
            r.wf(),
            forall|i: int| 0 <= i < BUFFER_SIZE ==> !r@[i],
    {
        let mut bits: Vec<bool> = Vec::new();
        let mut i: usize = 0;
        while i < BUFFER_SIZE
            invariant
                i <= BUFFER_SIZE,
                bits@.len() == i,
                forall|j: int| 0 <= j < i ==> !bits@[j],
            decreases BUFFER_SIZE - i,
        {
            bits.push(false);
            i += 1;
        }
        Display { bits }
    }

    /// Unsets every pixel.
    pub fn clear(&mut self)
        requires
            old(self).wf(),
        ensures
            final(self).wf(),
            forall|i: int| 0 <= i < BUFFER_SIZE ==> !final(self)@[i],
    {
        let mut i: usize = 0;
        while i < BUFFER_SIZE
            invariant
                self.wf(),
                i <= BUFFER_SIZE,
                forall|j: int| 0 <= j < i ==> !self@[j],
            decreases BUFFER_SIZE - i,
        {
            self.bits[i] = false;
            i += 1;
        }
    }

    /// XORs `value` into the pixel at `(x, y)` and reports a collision: a
    /// set pixel toggled off by an incoming set bit. A coordinate off the
    /// grid changes nothing and never collides.
    pub fn set_pixel(&mut self, x: usize, y: usize, value: bool) -> (r: bool)
        requires
            old(self).wf(),
        ensures
            final(self).wf(),
            x < PIXELS_H && y < PIXELS_V ==> {
                &&& final(self)@ == old(self)@.update(
                    y * PIXELS_H + x,
                    old(self)@[y * PIXELS_H + x] != value,
                )
                &&& r == (old(self)@[y * PIXELS_H + x] && value)
            },
            !(x < PIXELS_H && y < PIXELS_V) ==> final(self)@ == old(self)@ && !r,
    {
        if x < PIXELS_H && y < PIXELS_V {
            let index = (PIXELS_H * y) + x;
            let is_collision = self.bits[index] && value;
            let b = self.bits[index];
            self.bits[index] = b != value;
            proof {
                assert(self@ =~= old(self)@.update(
                    y * PIXELS_H + x,
                    old(self)@[y * PIXELS_H + x] != value,
                ));
            }
            return is_collision;
        }
        false
    }

    /// XOR-draws a sprite with its top-left corner at `(start_x, start_y)`:
    /// each row byte covers 8 pixels, most significant bit leftmost, rows
    /// filling downward. Pixels addressed outside the grid are skipped, so
    /// a partially off-grid draw mutates only in-grid pixels and never
    /// faults. Returns whether any set pixel was turned unset.
    pub fn render_sprite(&mut self, start_x: usize, start_y: usize, sprite: &[u8]) -> (r: bool)
        requires
            old(self).wf(),
            sprite@.len() + PIXELS_V <= usize::MAX,
        ensures
            final(self).wf(),
            final(self)@ == draw_bits(old(self)@, start_x as int, start_y as int, sprite@),
            r == draw_collision(old(self)@, start_x as int, start_y as int, sprite@),
    {
        if start_x >= PIXELS_H || start_y >= PIXELS_V {
            proof {
                lemma_draw_offgrid(self@, start_x as int, start_y as int, sprite@);
            }
            return false;
        }
        let mut is_collision = false;
        let mut y: usize = 0;
        while y < sprite.len()
            invariant
                self.wf(),
                old(self).wf(),
                start_x < PIXELS_H,
                start_y < PIXELS_V,
                sprite@.len() + PIXELS_V <= usize::MAX,
                y <= sprite@.len(),
                self@ == upto_bits(old(self)@, start_x as int, start_y as int, sprite@, y as int, 0),
                is_collision == upto_collision(old(self)@, start_x as int, start_y as int, sprite@, y as int, 0),
            decreases sprite@.len() - y,
        {
            let row = sprite[y];
            let mut x: usize = 0;
            while x < 8
                invariant
                    self.wf(),
                    old(self).wf(),
                    start_x < PIXELS_H,
                    start_y < PIXELS_V,
                    sprite@.len() + PIXELS_V <= usize::MAX,
                    y < sprite@.len(),
                    row == sprite@[y as int],
                    x <= 8,
                    self@ == upto_bits(old(self)@, start_x as int, start_y as int, sprite@, y as int, x as int),
                    is_collision == upto_collision(old(self)@, start_x as int, start_y as int, sprite@, y as int, x as int),
                decreases 8 - x,
            {
                let inverse = 7 - x;
                let is_lit = (row & (1u8 << inverse)) != 0;
                let ghost pre = self@;
                let ghost pre_col = is_collision;
                let this_collision = self.set_pixel(start_x + x, start_y + y, is_lit);
                is_collision = is_collision || this_collision;
                proof {
                    lemma_upto_step(
                        old(self)@,
                        pre,
                        self@,
                        pre_col,
                        this_collision,
                        start_x as int,
                        start_y as int,
                        sprite@,
                        y as int,
                        x as int,
                    );
                }
                x += 1;
            }
            proof {
                lemma_upto_row(old(self)@, start_x as int, start_y as int, sprite@, y as int);
            }
            y += 1;
        }
        proof {
            lemma_upto_done(old(self)@, start_x as int, start_y as int, sprite@);
        }
        is_collision
    }

    /// Renders the grid into a 4-bytes-per-pixel color buffer, row-major:
    /// one fixed color for set pixels, another for unset, full opacity.
    pub fn draw(&self, buffer: &mut Vec<u8>)
        requires
            self.wf(),
            old(buffer)@.len() == 4 * BUFFER_SIZE,
        ensures
            final(buffer)@ == frame_of(self@),
    {
        let mut i: usize = 0;
        while i < BUFFER_SIZE
            invariant
                self.wf(),
                i <= BUFFER_SIZE,
                buffer@.len() == 4 * BUFFER_SIZE,
                forall|j: int| 0 <= j < 4 * i ==> buffer@[j] == color_byte(self@[j / 4], j % 4),
            decreases BUFFER_SIZE - i,
        {
            let is_pixel_set = self.bits[i];
            let base = i * 4;
            buffer[base + 0] = if is_pixel_set {
                LIGHT_COLOR_R
            } else {
                DARK_COLOR_R
            };
            buffer[base + 1] = if is_pixel_set {
                LIGHT_COLOR_G
            } else {
                DARK_COLOR_G
            };
            buffer[base + 2] = if is_pixel_set {
                LIGHT_COLOR_B
            } else {
                DARK_COLOR_B
            };
            buffer[base + 3] = 255;
            i += 1;
        }
        proof {
            assert(buffer@ =~= frame_of(self@));
        }
    }
}

/// The set bits of the first `rows` full sprite rows, plus the leftmost
/// `cols` bits of row `rows`: the part of the sprite a row-by-row,
/// left-to-right draw has already applied.
spec fn upto_pixel(
    x0: int,
    y0: int,
    sprite: Seq<u8>,
    rows: int,
    cols: int,
    px: int,
    py: int,
) -> bool {
    ||| (y0 <= py < y0 + rows && x0 <= px < x0 + 8 && row_bit(sprite[py - y0], px - x0))
    ||| (rows < sprite.len() && py == y0 + rows && x0 <= px < x0 + cols && row_bit(
        sprite[rows],
        px - x0,
    ))
}

/// The framebuffer after the partial draw described by `upto_pixel`.
spec fn upto_bits(
    bits: Seq<bool>,
    x0: int,
    y0: int,
    sprite: Seq<u8>,
    rows: int,
    cols: int,
) -> Seq<bool> {
    Seq::new(
        bits.len(),
        |i: int| bits[i] != upto_pixel(
            x0,
            y0,
            sprite,
            rows,
            cols,
            i % (PIXELS_H as int),
            i / (PIXELS_H as int),
        ),
    )
}

/// The collision accumulated by the partial draw described by `upto_pixel`.
spec fn upto_collision(
    bits: Seq<bool>,
    x0: int,
    y0: int,
    sprite: Seq<u8>,
    rows: int,
    cols: int,
) -> bool {
    exists|i: int|
        0 <= i < bits.len() && bits[i] && upto_pixel(
            x0,
            y0,
            sprite,
            rows,
            cols,
            i % (PIXELS_H as int),
            i / (PIXELS_H as int),
        )
}

/// A draw whose top-left corner already lies off the grid touches nothing
/// and collides with nothing.
proof fn lemma_draw_offgrid(bits: Seq<bool>, x0: int, y0: int, sprite: Seq<u8>)
    requires
        x0 >= PIXELS_H || y0 >= PIXELS_V,
        bits.len() == BUFFER_SIZE,
    ensures
        draw_bits(bits, x0, y0, sprite) == bits,
        !draw_collision(bits, x0, y0, sprite),
{
    assert forall|i: int| 0 <= i < bits.len() implies !(#[trigger] sprite_pixel(
        x0,
        y0,
        sprite,
        i % (PIXELS_H as int),
        i / (PIXELS_H as int),
    )) by {
        assert(0 <= i % (PIXELS_H as int) < PIXELS_H);
        assert(0 <= i / (PIXELS_H as int) < PIXELS_V);
    }
    assert(draw_bits(bits, x0, y0, sprite) =~= bits);
}

/// One `set_pixel` call advances the partial draw by one column.
proof fn lemma_upto_step(
    orig: Seq<bool>,
    pre: Seq<bool>,
    post: Seq<bool>,
    pre_col: bool,
    this_col: bool,
    x0: int,
    y0: int,
    sprite: Seq<u8>,
    y: int,
    x: int,
)
    requires
        orig.len() == BUFFER_SIZE,
        0 <= x0 < PIXELS_H,
        0 <= y0 < PIXELS_V,
        0 <= y < sprite.len(),
        0 <= x < 8,
        pre == upto_bits(orig, x0, y0, sprite, y, x),
        pre_col == upto_collision(orig, x0, y0, sprite, y, x),
        ({
            let px = x0 + x;
            let py = y0 + y;
            let lit = row_bit(sprite[y], x);
            if px < PIXELS_H && py < PIXELS_V {
                post == pre.update(py * (PIXELS_H as int) + px, pre[py * (PIXELS_H as int) + px] != lit)
                    && this_col == (pre[py * (PIXELS_H as int) + px] && lit)
            } else {
                post == pre && !this_col
            }
        }),
    ensures
        post == upto_bits(orig, x0, y0, sprite, y, x + 1),
        (pre_col || this_col) == upto_collision(orig, x0, y0, sprite, y, x + 1),
{
    let h = PIXELS_H as int;
    let px = x0 + x;
    let py = y0 + y;
    let lit = row_bit(sprite[y], x);
    let target = py * h + px;
    if px < PIXELS_H && py < PIXELS_V {
        assert(target % h == px && target / h == py) by (nonlinear_arith)
            requires
                0 <= px < h,
                0 <= py,
                h == 64,
                target == py * h + px,
        ;
        // the target pixel was untouched by the partial draw so far
        assert(!upto_pixel(x0, y0, sprite, y, x, px, py));
        assert(pre[target] == orig[target]);
        assert forall|i: int| 0 <= i < orig.len() implies post[i] == (orig[i] != upto_pixel(
            x0,
            y0,
            sprite,
            y,
            x + 1,
            i % h,
            i / h,
        )) by {
            if i != target {
                assert(upto_pixel(x0, y0, sprite, y, x + 1, i % h, i / h) == upto_pixel(
                    x0,
                    y0,
                    sprite,
                    y,
                    x,
                    i % h,
                    i / h,
                )) by {
                    if i % h == px && i / h == py {
                        assert(i == (i / h) * h + (i % h)) by (nonlinear_arith)
                            requires
                                h > 0,
                        ;
                    }
                }
            } else {
                assert(upto_pixel(x0, y0, sprite, y, x + 1, px, py) == lit);
            }
        }
        assert(post =~= upto_bits(orig, x0, y0, sprite, y, x + 1));
        // collision bookkeeping
        if pre_col {
            let w = choose|i: int|
                0 <= i < orig.len() && orig[i] && upto_pixel(x0, y0, sprite, y, x, i % h, i / h);
            assert(upto_pixel(x0, y0, sprite, y, x + 1, w % h, w / h));
            assert(upto_collision(orig, x0, y0, sprite, y, x + 1));
        }
        if this_col {
            assert(orig[target] && upto_pixel(x0, y0, sprite, y, x + 1, px, py));
            assert(upto_collision(orig, x0, y0, sprite, y, x + 1));
        }
        if upto_collision(orig, x0, y0, sprite, y, x + 1) && !pre_col {
            let w = choose|i: int|
                0 <= i < orig.len() && orig[i] && upto_pixel(x0, y0, sprite, y, x + 1, i % h, i / h);
            if w == target {
                assert(this_col);
            } else {
                assert(upto_pixel(x0, y0, sprite, y, x, w % h, w / h)) by {
                    if w % h == px && w / h == py {
                        assert(w == (w / h) * h + (w % h)) by (nonlinear_arith)
                            requires
                                h > 0,
                        ;
                    }
                }
                assert(pre_col);
            }
        }
    } else {
        // the addressed pixel lies off the grid: nothing changes, and the
        // extra column adds no in-grid set bit
        assert forall|i: int| 0 <= i < orig.len() implies #[trigger] upto_pixel(
            x0,
            y0,
            sprite,
            y,
            x + 1,
            i % h,
            i / h,
        ) == upto_pixel(x0, y0, sprite, y, x, i % h, i / h) by {
            assert(0 <= i % h < h);
            assert(0 <= i / h < PIXELS_V);
            if i % h == px && i / h == py {
                assert(i == (i / h) * h + (i % h)) by (nonlinear_arith)
                    requires
                        h > 0,
                ;
            }
        }
        assert(post =~= upto_bits(orig, x0, y0, sprite, y, x + 1));
    }
}

/// Finishing the 8 columns of a row advances the partial draw to the next
/// full row.
proof fn lemma_upto_row(orig: Seq<bool>, x0: int, y0: int, sprite: Seq<u8>, y: int)
    requires
        0 <= y < sprite.len(),
    ensures
        upto_bits(orig, x0, y0, sprite, y, 8) == upto_bits(orig, x0, y0, sprite, y + 1, 0),
        upto_collision(orig, x0, y0, sprite, y, 8) == upto_collision(orig, x0, y0, sprite, y + 1, 0),
{
    let h = PIXELS_H as int;
    assert forall|px: int, py: int| true implies #[trigger] upto_pixel(x0, y0, sprite, y, 8, px, py)
        == upto_pixel(x0, y0, sprite, y + 1, 0, px, py) by {}
    assert(upto_bits(orig, x0, y0, sprite, y, 8) =~= upto_bits(orig, x0, y0, sprite, y + 1, 0));
    if upto_collision(orig, x0, y0, sprite, y, 8) {
        let w = choose|i: int|
            0 <= i < orig.len() && orig[i] && upto_pixel(x0, y0, sprite, y, 8, i % h, i / h);
        assert(upto_collision(orig, x0, y0, sprite, y + 1, 0));
    }
    if upto_collision(orig, x0, y0, sprite, y + 1, 0) {
        let w = choose|i: int|
            0 <= i < orig.len() && orig[i] && upto_pixel(x0, y0, sprite, y + 1, 0, i % h, i / h);
        assert(upto_collision(orig, x0, y0, sprite, y, 8));
    }
}

/// A partial draw of every row is the whole draw.
proof fn lemma_upto_done(orig: Seq<bool>, x0: int, y0: int, sprite: Seq<u8>)
    ensures
        upto_bits(orig, x0, y0, sprite, sprite.len() as int, 0) == draw_bits(orig, x0, y0, sprite),
        upto_collision(orig, x0, y0, sprite, sprite.len() as int, 0) == draw_collision(
            orig,
            x0,
            y0,
            sprite,
        ),
{
    let h = PIXELS_H as int;
    let n = sprite.len() as int;
    assert forall|px: int, py: int| true implies #[trigger] upto_pixel(x0, y0, sprite, n, 0, px, py)
        == sprite_pixel(x0, y0, sprite, px, py) by {}
    assert(upto_bits(orig, x0, y0, sprite, n, 0) =~= draw_bits(orig, x0, y0, sprite));
    if upto_collision(orig, x0, y0, sprite, n, 0) {
        let w = choose|i: int|
            0 <= i < orig.len() && orig[i] && upto_pixel(x0, y0, sprite, n, 0, i % h, i / h);
        assert(draw_collision(orig, x0, y0, sprite));
    }
    if draw_collision(orig, x0, y0, sprite) {
        let w = choose|i: int|
            0 <= i < orig.len() && orig[i] && sprite_pixel(x0, y0, sprite, i % h, i / h);
        assert(upto_collision(orig, x0, y0, sprite, n, 0));
    }
}

} // verus!
