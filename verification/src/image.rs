use vstd::prelude::*;
use crate::color::{alpha_of, blue_of, green_of, pack_argb_spec, red_of};
use crate::modes::{rq_extend_mode, rq_filter_mode};
use crate::transform::rq_transform;

verus! {

/// An owned image: a row-major pixel buffer of one packed 32-bit color per
/// pixel, `width * height` pixels in all.
pub struct rq_image {
    pub width: i32,
    pub height: i32,
    pub data: Vec<u32>,
}

impl rq_image {
    /// A well-formed image has non-negative dimensions and exactly
    /// `width * height` entries in its buffer; `new` establishes this and
    /// nothing in this crate disturbs it. An image may be empty (a zero
    /// dimension); sampling asks for at least one pixel.
    pub open spec fn wf(&self) -> bool {
        &&& 0 <= self.width
        &&& 0 <= self.height
        &&& self.data@.len() == self.width * self.height
    }

    /// Builds an image from its dimensions and pixel buffer. Returns the
    /// image exactly when both dimensions are non-negative and the buffer
    /// holds exactly `width * height` pixels; any other input is malformed
    /// and yields nothing. A zero dimension gives an empty image, which
    /// can be stored but never sampled.
    pub fn new(width: i32, height: i32, data: Vec<u32>) -> (r: Option<rq_image>)
        ensures
            r is Some <==> (0 <= width && 0 <= height && data@.len() == width * height),
            r is Some ==> r->0 == (rq_image { width, height, data }) && r->0.wf(),
    {
        if width < 0 || height < 0 {
            return None;
        }
        let w = width as usize;
        let h = height as usize;
        let buf_len = data.len();
        match w.checked_mul(h) {
            Some(n) => {
                if buf_len == n {
                    Some(rq_image { width, height, data })
                } else {
                    None
                }
            },
            None => {
                proof {
                    assert(data@.len() < (width as int) * (height as int)) by (nonlinear_arith)
                        requires
                            (w as int) * (h as int) > usize::MAX as int,
                            data@.len() <= usize::MAX as int,
                            w as int == width as int,
                            h as int == height as int,
                    ;
                }
                None
            },
        }
    }
}

/// Maps a source coordinate `v` into `[0, n)`: `Pad` clamps to the nearest
/// edge, `Repeat` wraps with period `n`.
pub open spec fn resolve_spec(mode: rq_extend_mode, v: int, n: int) -> int {
    match mode {
        rq_extend_mode::Pad => if v < 0 {
            0
        } else if v > n - 1 {
            n - 1
        } else {
            v
        },
        rq_extend_mode::Repeat => v % n,
    }
}

/// The pixel of `img` nearest to source coordinates `(x, y)`, with
/// out-of-range coordinates resolved by the extend mode; never reads out
/// of bounds.
pub open spec fn sample_nearest_spec(img: rq_image, x: int, y: int, mode: rq_extend_mode) -> int {
    img.data@[resolve_spec(mode, y, img.height as int) * img.width + resolve_spec(
        mode,
        x,
        img.width as int,
    )] as int
}

/// One channel of a bilinear sample: the four neighbors weighted by the
/// subpixel fractions `fx`, `fy` (in units of 1/256), rounded to nearest.
pub open spec fn bilinear_channel_spec(
    c00: int,
    c10: int,
    c01: int,
    c11: int,
    fx: int,
    fy: int,
) -> int {
    (c00 * (256 - fx) * (256 - fy) + c10 * fx * (256 - fy) + c01 * (256 - fx) * fy + c11 * fx * fy
        + 32768) / 65536
}

/// A full bilinear sample: every channel of the four pixels around
/// `(x + fx/256, y + fy/256)` blended by `bilinear_channel_spec`, packed
/// back into one 32-bit pixel.
pub open spec fn sample_bilinear_spec(
    img: rq_image,
    x: int,
    y: int,
    fx: int,
    fy: int,
    mode: rq_extend_mode,
) -> int {
    let p00 = sample_nearest_spec(img, x, y, mode);
    let p10 = sample_nearest_spec(img, x + 1, y, mode);
    let p01 = sample_nearest_spec(img, x, y + 1, mode);
    let p11 = sample_nearest_spec(img, x + 1, y + 1, mode);
    pack_argb_spec(
        bilinear_channel_spec(alpha_of(p00), alpha_of(p10), alpha_of(p01), alpha_of(p11), fx, fy),
        bilinear_channel_spec(red_of(p00), red_of(p10), red_of(p01), red_of(p11), fx, fy),
        bilinear_channel_spec(green_of(p00), green_of(p10), green_of(p01), green_of(p11), fx, fy),
        bilinear_channel_spec(blue_of(p00), blue_of(p10), blue_of(p01), blue_of(p11), fx, fy),
    )
}

/// What a sample of `img` yields under the given filter: the nearest pixel
/// for `Nearest`, the weighted average of the four neighbors for
/// `Bilinear`.
pub open spec fn sample_spec(
    img: rq_image,
    x: int,
    y: int,
    fx: int,
    fy: int,
    extend: rq_extend_mode,
    filter: rq_filter_mode,
) -> int {
    match filter {
        rq_filter_mode::Nearest => sample_nearest_spec(img, x, y, extend),
        rq_filter_mode::Bilinear => sample_bilinear_spec(img, x, y, fx, fy, extend),
    }
}

/// Resolves one source coordinate into `[0, n)` under the extend mode.
fn resolve_coord(mode: rq_extend_mode, v: i32, n: i32) -> (r: i32)
    requires
        0 < n,
    ensures
        r == resolve_spec(mode, v as int, n as int),
        0 <= r < n,
{
    match mode {
        rq_extend_mode::Pad => {
            if v < 0 {
                0
            } else if v > n - 1 {
                n - 1
            } else {
                v
            }
        },
        rq_extend_mode::Repeat => {
            let r = v.checked_rem_euclid(n).unwrap();
            r
        },
    }
}

impl rq_image {
    /// The pixel nearest to source coordinates `(x, y)`; out-of-range
    /// coordinates are resolved by the extend mode, never read out of
    /// bounds. The image must have at least one pixel to resolve onto.
    pub fn sample_nearest(&self, x: i32, y: i32, mode: rq_extend_mode) -> (p: u32)
        requires
            self.wf(),
            0 < self.width,
            0 < self.height,
        ensures
            p == sample_nearest_spec(*self, x as int, y as int, mode),
    {
        let xi = resolve_coord(mode, x, self.width);
        let yi = resolve_coord(mode, y, self.height);
        let total = self.data.len();
        proof {
            assert(total == self.data@.len());
            assert(yi * self.width + xi < self.height * self.width) by (nonlinear_arith)
                requires
                    0 <= yi <= self.height - 1,
                    0 <= xi <= self.width - 1,
                    0 < self.width,
            ;
            assert(self.width * self.height == self.height * self.width) by (nonlinear_arith);
        }
        let idx: usize = (yi as usize) * (self.width as usize) + (xi as usize);
        self.data[idx]
    }

    /// A bilinear sample around `(x + fx/256, y + fy/256)`: the four
    /// surrounding pixels blended channel by channel with the subpixel
    /// weights, out-of-range neighbors resolved by the extend mode.
    pub fn sample_bilinear(&self, x: i32, y: i32, fx: u32, fy: u32, mode: rq_extend_mode) -> (p:
        u32)
        requires
            self.wf(),
            0 < self.width,
            0 < self.height,
            x < i32::MAX,
            y < i32::MAX,
            fx <= 255,
            fy <= 255,
        ensures
            p == sample_bilinear_spec(*self, x as int, y as int, fx as int, fy as int, mode),
    {
        let p00 = self.sample_nearest(x, y, mode);
        let p10 = self.sample_nearest(x + 1, y, mode);
        let p01 = self.sample_nearest(x, y + 1, mode);
        let p11 = self.sample_nearest(x + 1, y + 1, mode);
        let a = bilinear_channel(
            unpack_alpha(p00),
            unpack_alpha(p10),
            unpack_alpha(p01),
            unpack_alpha(p11),
            fx,
            fy,
        );
        let r = bilinear_channel(
            unpack_red(p00),
            unpack_red(p10),
            unpack_red(p01),
            unpack_red(p11),
            fx,
            fy,
        );
        let g = bilinear_channel(
            unpack_green(p00),
            unpack_green(p10),
            unpack_green(p01),
            unpack_green(p11),
            fx,
            fy,
        );
        let b = bilinear_channel(
            unpack_blue(p00),
            unpack_blue(p10),
            unpack_blue(p01),
            unpack_blue(p11),
            fx,
            fy,
        );
        crate::color::pack_argb(a, r, g, b)
    }

    /// A sample under the given extend and filter modes: `Nearest` looks
    /// the pixel up directly, `Bilinear` blends the four neighbors.
    pub fn sample(
        &self,
        x: i32,
        y: i32,
        fx: u32,
        fy: u32,
        extend: rq_extend_mode,
        filter: rq_filter_mode,
    ) -> (p: u32)
        requires
            self.wf(),
            0 < self.width,
            0 < self.height,
            x < i32::MAX,
            y < i32::MAX,
            fx <= 255,
            fy <= 255,
        ensures
            p == sample_spec(*self, x as int, y as int, fx as int, fy as int, extend, filter),
    {
        match filter {
            rq_filter_mode::Nearest => self.sample_nearest(x, y, extend),
            rq_filter_mode::Bilinear => self.sample_bilinear(x, y, fx, fy, extend),
        }
    }
}

/// Blends one 8-bit channel of four neighboring pixels with the subpixel
/// weights `fx`, `fy` (in units of 1/256).
pub fn bilinear_channel(c00: u8, c10: u8, c01: u8, c11: u8, fx: u32, fy: u32) -> (y: u8)
    requires
        fx <= 255,
        fy <= 255,
    ensures
        y == bilinear_channel_spec(
            c00 as int,
            c10 as int,
            c01 as int,
            c11 as int,
            fx as int,
            fy as int,
        ),
{
    let gx: u64 = (256 - fx) as u64;
    let gy: u64 = (256 - fy) as u64;
    let fx64: u64 = fx as u64;
    let fy64: u64 = fy as u64;
    proof {
        assert((c00 as int) * (gx as int) <= 255 * 256 && (c00 as int) * (gx as int) * (gy as int)
            <= 255 * 65536) by (nonlinear_arith)
            requires
                c00 <= 255,
                gx <= 256,
                gy <= 256,
        ;
        assert((c10 as int) * (fx64 as int) <= 255 * 256 && (c10 as int) * (fx64 as int) * (
        gy as int) <= 255 * 65536) by (nonlinear_arith)
            requires
                c10 <= 255,
                fx64 <= 256,
                gy <= 256,
        ;
        assert((c01 as int) * (gx as int) <= 255 * 256 && (c01 as int) * (gx as int) * (fy64 as int)
            <= 255 * 65536) by (nonlinear_arith)
            requires
                c01 <= 255,
                gx <= 256,
                fy64 <= 256,
        ;
        assert((c11 as int) * (fx64 as int) <= 255 * 256 && (c11 as int) * (fx64 as int) * (
        fy64 as int) <= 255 * 65536) by (nonlinear_arith)
            requires
                c11 <= 255,
                fx64 <= 256,
                fy64 <= 256,
        ;
        assert((c00 as int) * (gx as int) * (gy as int) + (c10 as int) * (fx64 as int) * (
        gy as int) + (c01 as int) * (gx as int) * (fy64 as int) + (c11 as int) * (fx64 as int) * (
        fy64 as int) <= 255 * 65536) by (nonlinear_arith)
            requires
                c00 <= 255,
                c10 <= 255,
                c01 <= 255,
                c11 <= 255,
                gx == 256 - fx64,
                gy == 256 - fy64,
                fx64 <= 255,
                fy64 <= 255,
        ;
    }
    let v: u64 = (c00 as u64) * gx * gy + (c10 as u64) * fx64 * gy + (c01 as u64) * gx * fy64 + (
    c11 as u64) * fx64 * fy64 + 32768;
    proof {
        assert(v / 65536 <= 255) by (nonlinear_arith)
            requires
                v <= 255 * 65536 + 32768,
        ;
    }
    (v / 65536) as u8
}

/// The alpha byte of a packed 32-bit pixel.
pub fn unpack_alpha(p: u32) -> (r: u8)
    ensures
        r == alpha_of(p as int),
{
    ((p / 0x1000000) % 0x100) as u8
}

/// The red byte of a packed 32-bit pixel.
pub fn unpack_red(p: u32) -> (r: u8)
    ensures
        r == red_of(p as int),
{
    ((p / 0x10000) % 0x100) as u8
}

/// The green byte of a packed 32-bit pixel.
pub fn unpack_green(p: u32) -> (r: u8)
    ensures
        r == green_of(p as int),
{
    ((p / 0x100) % 0x100) as u8
}

/// The blue byte of a packed 32-bit pixel.
pub fn unpack_blue(p: u32) -> (r: u8)
    ensures
        r == blue_of(p as int),
{
    (p % 0x100) as u8
}

/// A pattern: an owned image sampled under an extend mode and a filter
/// mode, positioned by a local transform.
pub struct rq_pattern {
    pub image: rq_image,
    pub extend_mode: rq_extend_mode,
    pub filter_mode: rq_filter_mode,
    pub transform: rq_transform,
}

impl rq_pattern {
    /// A well-formed pattern wraps a well-formed image.
    pub open spec fn wf(&self) -> bool {
        self.image.wf()
    }

    /// Builds a pattern around an image it takes ownership of.
    pub fn new(
        image: rq_image,
        extend_mode: rq_extend_mode,
        filter_mode: rq_filter_mode,
        transform: rq_transform,
    ) -> (p: rq_pattern)
        ensures
            p == (rq_pattern { image, extend_mode, filter_mode, transform }),
    {
        rq_pattern { image, extend_mode, filter_mode, transform }
    }

    /// Samples the pattern at source coordinates `(x + fx/256, y + fy/256)`
    /// (already mapped through the pattern's local transform), under the
    /// pattern's own extend and filter modes.
    pub fn eval_at(&self, x: i32, y: i32, fx: u32, fy: u32) -> (p: u32)
        requires
            self.wf(),
            0 < self.image.width,
            0 < self.image.height,
            x < i32::MAX,
            y < i32::MAX,
            fx <= 255,
            fy <= 255,
        ensures
            p == sample_spec(
                self.image,
                x as int,
                y as int,
                fx as int,
                fy as int,
                self.extend_mode,
                self.filter_mode,
            ),
    {
        self.image.sample(x, y, fx, fy, self.extend_mode, self.filter_mode)
    }
}

} // verus!
