//! The block visualizer: one still image in which every payload unit is a
//! square block of one color.

use crate::error::EtchError;
use crate::raster::{
    blank_canvas, canvas_height, canvas_samples, canvas_wf, canvas_width, into_samples, put_pixel,
    triple, Canvas,
};
use crate::settings::{Data, OutputMode, Payload, Settings};
use vstd::arithmetic::div_mod::{
    lemma_div_multiples_vanish_fancy, lemma_fundamental_div_mod,
    lemma_fundamental_div_mod_converse, lemma_mod_bound, lemma_multiply_divide_lt,
    lemma_div_pos_is_pos,
};
use vstd::prelude::*;

verus! {

/// The color of an unset bit and of every block that no payload unit fills.
pub open spec fn black() -> (u8, u8, u8) {
    (0u8, 0u8, 0u8)
}

/// The color of a set bit.
pub open spec fn white() -> (u8, u8, u8) {
    (255u8, 255u8, 255u8)
}

/// How many blocks a payload fills: one per bit, or one per three whole
/// bytes; one or two bytes left over fill none.
pub open spec fn blocks_available(payload: Payload) -> nat {
    match payload {
        Payload::Bits(bits) => bits.len(),
        Payload::Bytes(bytes) => bytes.len() / 3,
    }
}

/// The color of block `k`, blocks counted row by row from the top left.
pub open spec fn block_color(payload: Payload, k: int) -> (u8, u8, u8) {
    if 0 <= k < blocks_available(payload) {
        match payload {
            Payload::Bits(bits) => if bits[k] {
                white()
            } else {
                black()
            },
            Payload::Bytes(bytes) => (bytes[3 * k], bytes[3 * k + 1], bytes[3 * k + 2]),
        }
    } else {
        black()
    }
}

/// How many blocks of side `size` lie side by side on `width` pixels; the
/// last one may be cut off by the edge.
pub open spec fn grid_columns(width: int, size: int) -> int {
    (width + size - 1) / size
}

/// The number of the block that the pixel at `(x, y)` lies in.
pub open spec fn block_index(width: int, size: int, x: int, y: int) -> int {
    (y / size) * grid_columns(width, size) + x / size
}

/// The color that the pixel at `(x, y)` has in the image of `payload`.
pub open spec fn pixel_color(payload: Payload, settings: Settings, x: int, y: int) -> (u8, u8, u8) {
    block_color(payload, block_index(settings.width as int, settings.size as int, x, y))
}

/// Settings that an image can be made for: blocks of at least one pixel on
/// a canvas that is not negative and whose samples a vector can hold.
pub open spec fn renderable(settings: Settings) -> bool {
    &&& settings.size >= 1
    &&& settings.width >= 0
    &&& settings.height >= 0
    &&& 3 * (settings.width * settings.height) <= isize::MAX
}

/// Whether `(x, y)` lies in the rectangle of `bw` by `bh` pixels whose top
/// left pixel is `(x0, y0)`.
pub open spec fn in_rect(x: int, y: int, x0: int, y0: int, bw: int, bh: int) -> bool {
    x0 <= x < x0 + bw && y0 <= y < y0 + bh
}

/// The column and row of the pixel with the row-major number `p`.
proof fn lemma_pixel_coords(p: int, w: int, h: int)
    requires
        0 <= w,
        0 <= h,
        0 <= p < w * h,
    ensures
        0 < w,
        0 <= p % w < w,
        0 <= p / w < h,
        p == (p / w) * w + p % w,
{
    assert(w != 0) by (nonlinear_arith)
        requires
            0 <= p < w * h,
    ;
    lemma_mod_bound(p, w);
    lemma_div_pos_is_pos(p, w);
    lemma_multiply_divide_lt(p, w, h);
    lemma_fundamental_div_mod(p, w);
    assert(w * (p / w) == (p / w) * w) by (nonlinear_arith);
}

/// The row-major number of the pixel at `(x, y)`.
proof fn lemma_pixel_number(x: int, y: int, w: int, h: int)
    requires
        0 <= x < w,
        0 <= y < h,
    ensures
        0 <= y * w + x < w * h,
        (y * w + x) % w == x,
        (y * w + x) / w == y,
{
    assert(0 <= y * w + x < w * h) by (nonlinear_arith)
        requires
            0 <= x < w,
            0 <= y < h,
    ;
    lemma_fundamental_div_mod_converse(y * w + x, w, y, x);
}

/// A coordinate between `c * size` and the next multiple lies in band `c`.
proof fn lemma_band(v: int, size: int, c: int)
    requires
        0 < size,
        c * size <= v < c * size + size,
    ensures
        v / size == c,
{
    assert(size * c == c * size) by (nonlinear_arith);
    lemma_div_multiples_vanish_fancy(c, v - c * size, size);
}

/// Stepping over `width` pixels in strides of `size` takes as many
/// steps as there are columns.
proof fn lemma_columns(width: int, size: int, steps: int)
    requires
        0 < size,
        width <= steps * size < width + size,
    ensures
        grid_columns(width, size) == steps,
{
    assert(size * steps == steps * size) by (nonlinear_arith);
    lemma_div_multiples_vanish_fancy(steps, width + size - 1 - steps * size, size);
}

/// Paints the rectangle of `bw` by `bh` pixels at `(x0, y0)` in one color.
fn fill_block(canvas: &mut Canvas, x0: u32, y0: u32, bw: u32, bh: u32, rgb: (u8, u8, u8))
    requires
        canvas_wf(*old(canvas)),
        x0 + bw <= canvas_width(*old(canvas)),
        y0 + bh <= canvas_height(*old(canvas)),
    ensures
        canvas_wf(*final(canvas)),
        canvas_width(*final(canvas)) == canvas_width(*old(canvas)),
        canvas_height(*final(canvas)) == canvas_height(*old(canvas)),
        forall|p: int|
            0 <= p < canvas_width(*old(canvas)) * canvas_height(*old(canvas)) ==> #[trigger] triple(
                canvas_samples(*final(canvas)),
                p,
            ) == if in_rect(
                p % (canvas_width(*old(canvas)) as int),
                p / (canvas_width(*old(canvas)) as int),
                x0 as int,
                y0 as int,
                bw as int,
                bh as int,
            ) {
                rgb
            } else {
                triple(canvas_samples(*old(canvas)), p)
            },
{
    let ghost w = canvas_width(*canvas) as int;
    let ghost h = canvas_height(*canvas) as int;
    let ghost start = canvas_samples(*canvas);
    let mut dy: u32 = 0;
    while dy < bh
        invariant
            dy <= bh,
            x0 + bw <= w,
            y0 + bh <= h,
            canvas_width(*canvas) == w,
            canvas_height(*canvas) == h,
            w <= u32::MAX,
            h <= u32::MAX,
            canvas_samples(*canvas).len() == 3 * (w * h),
            forall|p: int|
                0 <= p < w * h ==> #[trigger] triple(canvas_samples(*canvas), p) == if in_rect(
                    p % w,
                    p / w,
                    x0 as int,
                    y0 as int,
                    bw as int,
                    dy as int,
                ) {
                    rgb
                } else {
                    triple(start, p)
                },
        decreases bh - dy,
    {
        let mut dx: u32 = 0;
        while dx < bw
            invariant
                dx <= bw,
                dy < bh,
                x0 + bw <= w,
                y0 + bh <= h,
                canvas_width(*canvas) == w,
                canvas_height(*canvas) == h,
                w <= u32::MAX,
            h <= u32::MAX,
            canvas_samples(*canvas).len() == 3 * (w * h),
                forall|p: int|
                    0 <= p < w * h ==> #[trigger] triple(canvas_samples(*canvas), p) == if in_rect(
                        p % w,
                        p / w,
                        x0 as int,
                        y0 as int,
                        bw as int,
                        dy as int,
                    ) || in_rect(p % w, p / w, x0 as int, y0 + dy, dx as int, 1) {
                        rgb
                    } else {
                        triple(start, p)
                    },
            decreases bw - dx,
        {
            let ghost before = canvas_samples(*canvas);
            let ghost x = x0 + dx;
            let ghost y = y0 + dy;
            put_pixel(canvas, x0 + dx, y0 + dy, rgb.0, rgb.1, rgb.2);
            proof {
                lemma_pixel_number(x, y, w, h);
                let here = y * w + x;
                assert forall|p: int| 0 <= p < w * h implies #[trigger] triple(
                    canvas_samples(*canvas),
                    p,
                ) == if in_rect(p % w, p / w, x0 as int, y0 as int, bw as int, dy as int)
                    || in_rect(p % w, p / w, x0 as int, y0 + dy, dx + 1, 1) {
                    rgb
                } else {
                    triple(start, p)
                } by {
                    lemma_pixel_coords(p, w, h);
                    if p == here {
                    } else {
                        assert(triple(canvas_samples(*canvas), p) == triple(before, p));
                    }
                }
            }
            dx += 1;
        }
        dy += 1;
    }
}

/// A still image as plain values: its sides in pixels and its samples,
/// row after row from the top, three samples (red, green, blue) a pixel.
pub struct Frame {
    pub width: u32,
    pub height: u32,
    pub samples: Vec<u8>,
}

impl Frame {
    /// There are three samples for each pixel.
    pub open spec fn wf(&self) -> bool {
        self.samples@.len() == 3 * (self.width * self.height)
    }

    /// The color of the pixel at `(x, y)`.
    pub open spec fn pixel(&self, x: int, y: int) -> (u8, u8, u8) {
        triple(self.samples@, y * self.width + x)
    }

    /// The frame is the image of `payload` under `settings`: it has the
    /// sides that the settings give, and every pixel has the color of the
    /// block it lies in.
    pub open spec fn shows(&self, payload: Payload, settings: Settings) -> bool {
        &&& self.wf()
        &&& self.width == settings.width
        &&& self.height == settings.height
        &&& forall|x: int, y: int|
            0 <= x < self.width && 0 <= y < self.height ==> #[trigger] self.pixel(x, y)
                == pixel_color(payload, settings, x, y)
    }
}

/// Whether an image can be made for `settings`.
pub fn is_renderable(settings: &Settings) -> (ok: bool)
    ensures
        ok == renderable(*settings),
{
    if settings.size < 1 || settings.width < 0 || settings.height < 0 {
        return false;
    }
    let w = settings.width as u64;
    let h = settings.height as u64;
    assert(w * h <= 0x7fff_ffff * 0x7fff_ffff) by (nonlinear_arith)
        requires
            w <= 0x7fff_ffff,
            h <= 0x7fff_ffff,
    ;
    3 * (w * h) <= isize::MAX as u64
}

/// How many blocks the payload of `data` fills.
fn count_blocks(data: &Data) -> (n: usize)
    ensures
        n == blocks_available(data@),
{
    match data.out_mode {
        OutputMode::Binary => data.binary.len(),
        OutputMode::Color => data.bytes.len() / 3,
    }
}

/// The color of block `k` of the payload of `data`.
fn block_rgb(data: &Data, k: usize) -> (rgb: (u8, u8, u8))
    requires
        k < blocks_available(data@),
    ensures
        rgb == block_color(data@, k as int),
{
    match data.out_mode {
        OutputMode::Binary => {
            if data.binary[k] {
                (255, 255, 255)
            } else {
                (0, 0, 0)
            }
        },
        OutputMode::Color => {
            let n = data.bytes.len();
            assert(k < n / 3);
            let i = 3 * k;
            (data.bytes[i], data.bytes[i + 1], data.bytes[i + 2])
        },
    }
}

/// The smaller of two numbers.
fn smaller(a: u32, b: u32) -> (m: u32)
    ensures
        m == if a <= b {
            a
        } else {
            b
        },
{
    if a <= b {
        a
    } else {
        b
    }
}

/// Renders the payload of `data` as a grid of square blocks.
///
/// The blocks are laid out row by row from the top left, each `size`
/// pixels wide and high and cut off at the right and lower edge. In binary
/// mode block `k` is white where bit `k` is set and black where it is not;
/// in color mode its red, green and blue are bytes `3k`, `3k + 1` and
/// `3k + 2`. A block that the payload does not reach stays black.
///
/// Fails with `InvalidSettings` exactly when the settings are not
/// renderable.
pub fn render(data: &Data, settings: &Settings) -> (r: Result<Frame, EtchError>)
    ensures
        renderable(*settings) ==> r is Ok && r->Ok_0.shows(data@, *settings),
        !renderable(*settings) ==> r is Err && r->Err_0 == EtchError::InvalidSettings,
{
    if !is_renderable(settings) {
        return Err(EtchError::InvalidSettings);
    }
    let w = settings.width as u32;
    let h = settings.height as u32;
    let s = settings.size as u32;
    let available = count_blocks(data);
    let mut canvas = blank_canvas(w, h);
    let ghost cols = grid_columns(w as int, s as int);
    let ghost mut row: int = 0;
    let ghost mut k: int = 0;
    let mut next: usize = 0;
    let mut y: u32 = 0;
    assert(0 * cols == 0);
    assert(0 * s == 0);
    while y < h
        invariant
            renderable(*settings),
            w == settings.width,
            h == settings.height,
            s == settings.size,
            available == blocks_available(data@),
            cols == grid_columns(w as int, s as int),
            canvas_wf(canvas),
            canvas_width(canvas) == w,
            canvas_height(canvas) == h,
            0 <= row,
            y == row * s,
            y < h + s,
            k == row * cols,
            next == if k <= available {
                k
            } else {
                available as int
            },
            forall|p: int|
                0 <= p < w * h ==> #[trigger] triple(canvas_samples(canvas), p) == if p / (
                w as int) < y {
                    pixel_color(data@, *settings, p % (w as int), p / (w as int))
                } else {
                    black()
                },
        decreases h + s - y,
    {
        let bh = smaller(s, h - y);
        let ghost mut col: int = 0;
        let mut x: u32 = 0;
        assert(0 * s == 0);
        while x < w
            invariant
                renderable(*settings),
                w == settings.width,
                h == settings.height,
                s == settings.size,
                available == blocks_available(data@),
                cols == grid_columns(w as int, s as int),
                canvas_wf(canvas),
                canvas_width(canvas) == w,
                canvas_height(canvas) == h,
                0 <= row,
                y == row * s,
                y < h,
                bh == if s <= h - y {
                    s
                } else {
                    (h - y) as u32
                },
                0 <= col,
                x == col * s,
                x < w + s,
                k == row * cols + col,
                next == if k <= available {
                    k
                } else {
                    available as int
                },
                forall|p: int|
                    0 <= p < w * h ==> #[trigger] triple(canvas_samples(canvas), p) == if p / (
                    w as int) < y || (p / (w as int) < y + s && p % (w as int) < x) {
                        pixel_color(data@, *settings, p % (w as int), p / (w as int))
                    } else {
                        black()
                    },
            decreases w + s - x,
        {
            let bw = smaller(s, w - x);
            let ghost before = canvas_samples(canvas);
            let ghost rgb = block_color(data@, k);
            if next < available {
                let color = block_rgb(data, next);
                fill_block(&mut canvas, x, y, bw, bh, color);
                next += 1;
            }
            proof {
                assert forall|p: int| 0 <= p < w * h implies #[trigger] triple(
                    canvas_samples(canvas),
                    p,
                ) == if p / (w as int) < y || (p / (w as int) < y + s && p % (w as int) < x + s) {
                    pixel_color(data@, *settings, p % (w as int), p / (w as int))
                } else {
                    black()
                } by {
                    lemma_pixel_coords(p, w as int, h as int);
                    let px = p % (w as int);
                    let py = p / (w as int);
                    if in_rect(px, py, x as int, y as int, bw as int, bh as int) {
                        lemma_band(px, s as int, col);
                        lemma_band(py, s as int, row);
                        assert(block_index(w as int, s as int, px, py) == k);
                        assert(pixel_color(data@, *settings, px, py) == rgb);
                    } else {
                        assert(triple(canvas_samples(canvas), p) == triple(before, p));
                    }
                }
                assert((col + 1) * s == col * s + s) by (nonlinear_arith);
                col = col + 1;
                k = k + 1;
            }
            x += s;
        }
        proof {
            lemma_columns(w as int, s as int, col);
            assert((row + 1) * s == row * s + s) by (nonlinear_arith);
            assert((row + 1) * cols == row * cols + cols) by (nonlinear_arith);
            row = row + 1;
        }
        y += s;
    }
    let samples = into_samples(canvas);
    let frame = Frame { width: w, height: h, samples };
    proof {
        assert forall|x: int, y: int|
            0 <= x < frame.width && 0 <= y < frame.height implies #[trigger] frame.pixel(x, y)
            == pixel_color(data@, *settings, x, y) by {
            lemma_pixel_number(x, y, w as int, h as int);
        }
    }
    Ok(frame)
}

/// What a frame shows settles every one of its samples: two frames that
/// show the same payload under the same settings are the same image.
pub proof fn lemma_shows_is_exact(a: Frame, b: Frame, payload: Payload, settings: Settings)
    requires
        a.shows(payload, settings),
        b.shows(payload, settings),
    ensures
        a.width == b.width,
        a.height == b.height,
        a.samples@ == b.samples@,
{
    let w = a.width as int;
    let h = a.height as int;
    assert forall|i: int| 0 <= i < a.samples@.len() implies a.samples@[i] == b.samples@[i] by {
        let p = i / 3;
        lemma_pixel_coords(p, w, h);
        let x = p % w;
        let y = p / w;
        assert(a.pixel(x, y) == b.pixel(x, y));
    }
    assert(a.samples@ =~= b.samples@);
}

} // verus!
