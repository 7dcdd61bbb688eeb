use vstd::prelude::*;

verus! {

/// An 8-bit unpremultiplied RGBA color. Alpha 0 is fully transparent,
/// 255 fully opaque. No premultiplication is assumed at the API boundary.
#[derive(Copy, Clone, PartialEq, Eq, Structural, Debug)]
pub struct rq_color {
    pub r: u8,
    pub g: u8,
    pub b: u8,
    pub a: u8,
}

/// Scales a channel `x` by an alpha `a`, both in `0 ..= 255`, rounding to the
/// nearest integer of `a * x / 255`. This is the exact integer formula the
/// rasterizer uses when it premultiplies a color.
pub open spec fn scale255(a: int, x: int) -> int {
    let t = a * x + 128;
    (t + t / 256) / 256
}

/// The premultiplied form of `c`: each color channel scaled by the alpha.
pub open spec fn premul_spec(c: rq_color) -> rq_color {
    rq_color {
        r: scale255(c.a as int, c.r as int) as u8,
        g: scale255(c.a as int, c.g as int) as u8,
        b: scale255(c.a as int, c.b as int) as u8,
        a: c.a,
    }
}

/// A packed 32-bit pixel, laid out as `(A << 24) | (R << 16) | (G << 8) | B`.
pub open spec fn pack_argb_spec(a: int, r: int, g: int, b: int) -> int {
    a * 0x1000000 + r * 0x10000 + g * 0x100 + b
}

/// The packed premultiplied pixel a color becomes inside the pixel buffer.
pub open spec fn packed_premul_spec(c: rq_color) -> int {
    let p = premul_spec(c);
    pack_argb_spec(p.a as int, p.r as int, p.g as int, p.b as int)
}

pub open spec fn blue_of(p: int) -> int {
    p % 0x100
}

pub open spec fn green_of(p: int) -> int {
    (p / 0x100) % 0x100
}

pub open spec fn red_of(p: int) -> int {
    (p / 0x10000) % 0x100
}

pub open spec fn alpha_of(p: int) -> int {
    (p / 0x1000000) % 0x100
}

pub proof fn lemma_scale255_bounds(a: int, x: int)
    requires
        0 <= a <= 255,
        0 <= x <= 255,
    ensures
        0 <= scale255(a, x) <= 255,
        x == 255 ==> scale255(a, x) == a,
        a == 255 ==> scale255(a, x) == x,
        a == 0 ==> scale255(a, x) == 0,
        x == 0 ==> scale255(a, x) == 0,
{
    assert(0 <= a * x <= 255 * 255) by (nonlinear_arith)
        requires
            0 <= a <= 255,
            0 <= x <= 255,
    ;
    assert(a * x + 128 + (a * x + 128) / 256 <= 255 * 256 + 128);
    if a == 255 {
        assert(scale255(255, x) == x) by (nonlinear_arith)
            requires
                0 <= x <= 255,
        ;
    }
    if x == 255 {
        assert(scale255(a, 255) == a) by (nonlinear_arith)
            requires
                0 <= a <= 255,
        ;
    }
}

/// Premultiplying a fully opaque color leaves its channels unchanged.
pub proof fn lemma_premul_opaque(c: rq_color)
    requires
        c.a == 255,
    ensures
        premul_spec(c) == c,
{
    lemma_scale255_bounds(255, c.r as int);
    lemma_scale255_bounds(255, c.g as int);
    lemma_scale255_bounds(255, c.b as int);
}

/// Unpacking a packed pixel recovers the four channels that were packed.
pub proof fn lemma_pack_unpack(a: int, r: int, g: int, b: int)
    requires
        0 <= a <= 255,
        0 <= r <= 255,
        0 <= g <= 255,
        0 <= b <= 255,
    ensures
        0 <= pack_argb_spec(a, r, g, b) <= 0xffffffff,
        alpha_of(pack_argb_spec(a, r, g, b)) == a,
        red_of(pack_argb_spec(a, r, g, b)) == r,
        green_of(pack_argb_spec(a, r, g, b)) == g,
        blue_of(pack_argb_spec(a, r, g, b)) == b,
{
    let p = pack_argb_spec(a, r, g, b);
    assert(alpha_of(p) == a && red_of(p) == r && green_of(p) == g && blue_of(p) == b)
        by (nonlinear_arith)
        requires
            0 <= a <= 255,
            0 <= r <= 255,
            0 <= g <= 255,
            0 <= b <= 255,
            p == pack_argb_spec(a, r, g, b),
    ;
}

impl rq_color {
    pub fn new(r: u8, g: u8, b: u8, a: u8) -> (c: rq_color)
        ensures
            c == (rq_color { r, g, b, a }),
    {
        rq_color { r, g, b, a }
    }

    /// Fully transparent black, the color of a fresh pixel buffer.
    pub fn transparent_black() -> (c: rq_color)
        ensures
            c == (rq_color { r: 0u8, g: 0u8, b: 0u8, a: 0u8 }),
    {
        rq_color { r: 0, g: 0, b: 0, a: 0 }
    }
}

/// Scales channel `x` by alpha `a`, rounding to the nearest integer of
/// `a * x / 255`.
pub fn channel_scale(a: u8, x: u8) -> (y: u8)
    ensures
        y == scale255(a as int, x as int),
{
    proof {
        lemma_scale255_bounds(a as int, x as int);
        assert((a as u32) * (x as u32) <= 255 * 255) by (nonlinear_arith)
            requires
                a <= 255,
                x <= 255,
        ;
    }
    let t: u32 = (a as u32) * (x as u32) + 128;
    ((t + t / 256) / 256) as u8
}

/// The premultiplied form of `c`.
pub fn premultiply(c: rq_color) -> (p: rq_color)
    ensures
        p == premul_spec(c),
{
    rq_color {
        r: channel_scale(c.a, c.r),
        g: channel_scale(c.a, c.g),
        b: channel_scale(c.a, c.b),
        a: c.a,
    }
}

/// Packs four 8-bit channels into one 32-bit pixel, alpha in the top byte.
pub fn pack_argb(a: u8, r: u8, g: u8, b: u8) -> (p: u32)
    ensures
        p == pack_argb_spec(a as int, r as int, g as int, b as int),
{
    (a as u32) * 0x1000000 + (r as u32) * 0x10000 + (g as u32) * 0x100 + (b as u32)
}

/// The packed premultiplied pixel that `c` becomes in the pixel buffer.
pub fn to_packed_premul(c: rq_color) -> (p: u32)
    ensures
        p == packed_premul_spec(c),
{
    proof {
        lemma_scale255_bounds(c.a as int, c.r as int);
        lemma_scale255_bounds(c.a as int, c.g as int);
        lemma_scale255_bounds(c.a as int, c.b as int);
    }
    let q = premultiply(c);
    pack_argb(q.a, q.r, q.g, q.b)
}

} // verus!
