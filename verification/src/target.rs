use vstd::prelude::*;
use crate::color::{
    alpha_of, blue_of, green_of, lemma_pack_unpack, lemma_scale255_bounds, pack_argb_spec,
    packed_premul_spec, premul_spec, red_of, scale255, rq_color,
};
use crate::transform::{identity_bits_spec, rq_transform};

verus! {

/// Declares raqote::DrawTarget so it can stand in signatures and fields;
/// the target is opaque here, and its buffer and clip state are spoken of
/// through `dt_pixels` and `dt_clip_free`.
#[verifier::external_type_specification]
#[verifier::external_body]
#[verifier::reject_recursive_types(Backing)]
pub struct ExDrawTarget<Backing>(raqote::DrawTarget<Backing>);

/// Declares raqote::SolidSource with its four public channel fields
/// visible, so contracts can speak of them.
#[verifier::external_type_specification]
pub struct ExSolidSource(raqote::SolidSource);

/// Declares euclid's transform type (raqote::Transform names it) as an
/// opaque value carried to the rasterizer.
#[verifier::external_type_specification]
#[verifier::external_body]
#[verifier::reject_recursive_types(T)]
#[verifier::reject_recursive_types(Src)]
#[verifier::reject_recursive_types(Dst)]
pub struct ExTransform2D<T, Src, Dst>(euclid::Transform2D<T, Src, Dst>);

/// Declares euclid's unit marker, which the transform type carries.
#[verifier::external_type_specification]
#[verifier::external_body]
pub struct ExUnknownUnit(euclid::UnknownUnit);

/// The pixel buffer of a drawing target: `width * height` packed 32-bit
/// pixels, row-major.
pub uninterp spec fn dt_pixels(dt: raqote::DrawTarget) -> Seq<u32>;

/// Whether no clip is in effect on the target. Targets made by this crate
/// never have one; the drawing layer can only disturb this through the raw
/// target itself.
pub uninterp spec fn dt_clip_free(dt: raqote::DrawTarget) -> bool;

/// The transform currently stored on a drawing target, as the bit
/// encodings of its six entries.
pub uninterp spec fn dt_transform(dt: raqote::DrawTarget) -> rq_transform;

/// The bit encodings of a raw transform's six entries.
pub uninterp spec fn transform_bits(t: raqote::Transform) -> rq_transform;

/// Relies on raqote::SolidSource::from_unpremultiplied_argb: it keeps the
/// alpha and premultiplies each color channel with `muldiv255`, the
/// round-to-nearest scaling that `scale255` states.
pub assume_specification[ raqote::SolidSource::from_unpremultiplied_argb ](
    a: u8,
    r: u8,
    g: u8,
    b: u8,
) -> (s: raqote::SolidSource)
    ensures
        s.a == a,
        s.r as int == scale255(a as int, r as int),
        s.g as int == scale255(a as int, g as int),
        s.b as int == scale255(a as int, b as int),
;

/// Relies on raqote::DrawTarget::new: it allocates a `width * height`
/// buffer of zeroed pixels, an identity transform and no clip.
#[verifier::external_body]
fn dt_new(width: i32, height: i32) -> (dt: raqote::DrawTarget)
    requires
        0 <= width,
        0 <= height,
        width * height <= i32::MAX,
    ensures
        dt_pixels(dt) == Seq::new((width * height) as nat, |i: int| 0u32),
        dt_clip_free(dt),
        dt_transform(dt) == identity_bits_spec(),
{
    raqote::DrawTarget::new(width, height)
}

/// Relies on raqote::DrawTarget::clear: with no clip in effect it writes
/// the solid color, packed as `(A << 24) | (R << 16) | (G << 8) | B`, into
/// every pixel of the buffer, and leaves the clip state and the stored
/// transform untouched.
#[verifier::external_body]
fn dt_clear(dt: &mut raqote::DrawTarget, s: raqote::SolidSource)
    requires
        dt_clip_free(*old(dt)),
    ensures
        dt_clip_free(*final(dt)),
        dt_transform(*final(dt)) == dt_transform(*old(dt)),
        dt_pixels(*final(dt)) == Seq::new(
            dt_pixels(*old(dt)).len(),
            |i: int| pack_argb_spec(s.a as int, s.r as int, s.g as int, s.b as int) as u32,
        ),
{
    dt.clear(s)
}

/// Relies on raqote::DrawTarget::set_transform: it stores the given
/// transform for later drawing calls and touches nothing else - neither
/// the pixel buffer nor the clip state.
#[verifier::external_body]
fn dt_set_transform(dt: &mut raqote::DrawTarget, transform: &raqote::Transform)
    ensures
        dt_transform(*final(dt)) == transform_bits(*transform),
        dt_pixels(*final(dt)) == dt_pixels(*old(dt)),
        dt_clip_free(*final(dt)) == dt_clip_free(*old(dt)),
{
    dt.set_transform(transform)
}

/// Relies on raqote::DrawTarget::get_transform: it returns the stored
/// transform, copied here.
#[verifier::external_body]
fn dt_get_transform(dt: &raqote::DrawTarget) -> (t: raqote::Transform)
    ensures
        transform_bits(t) == dt_transform(*dt),
{
    *dt.get_transform()
}

/// Relies on raqote::DrawTarget::get_data: it returns the underlying pixel
/// buffer, copied here into an owned vector.
#[verifier::external_body]
fn dt_data(dt: &raqote::DrawTarget) -> (v: Vec<u32>)
    ensures
        v@ == dt_pixels(*dt),
{
    dt.get_data().to_vec()
}

/// An exported pixel buffer: an independent byte copy of a target's
/// pixels, four bytes per pixel in the order B, G, R, A, rows packed
/// without padding.
pub struct rq_argb(pub Vec<u8>);

impl View for rq_argb {
    type V = Seq<u8>;

    open spec fn view(&self) -> Seq<u8> {
        self.0@
    }
}

impl rq_argb {
    /// The exported bytes.
    pub fn data(&self) -> (r: &Vec<u8>)
        ensures
            r@ == self@,
    {
        &self.0
    }
}

/// The exported byte image of a pixel sequence: each packed pixel becomes
/// four bytes in the order B, G, R, A.
pub open spec fn bgra_bytes_spec(pixels: Seq<u32>) -> Seq<u8> {
    Seq::new(
        pixels.len() * 4,
        |j: int|
            {
                let p = pixels[j / 4] as int;
                if j % 4 == 0 {
                    blue_of(p) as u8
                } else if j % 4 == 1 {
                    green_of(p) as u8
                } else if j % 4 == 2 {
                    red_of(p) as u8
                } else {
                    alpha_of(p) as u8
                }
            },
    )
}

/// Unpacks a pixel sequence into its exported byte form: four bytes per
/// pixel, B then G then R then A, no padding between rows.
pub fn export_bgra(pixels: &Vec<u32>) -> (out: Vec<u8>)
    ensures
        out@ == bgra_bytes_spec(pixels@),
{
    let n = pixels.len();
    let mut out: Vec<u8> = Vec::new();
    let mut i: usize = 0;
    while i < n
        invariant
            n == pixels@.len(),
            i <= n,
            out@.len() == i * 4,
            out@ == bgra_bytes_spec(pixels@.take(i as int)),
        decreases n - i,
    {
        let p = pixels[i];
        out.push((p % 0x100) as u8);
        out.push(((p / 0x100) % 0x100) as u8);
        out.push(((p / 0x10000) % 0x100) as u8);
        out.push(((p / 0x1000000) % 0x100) as u8);
        i = i + 1;
        proof {
            assert(out@ =~= bgra_bytes_spec(pixels@.take(i as int)));
        }
    }
    proof {
        assert(pixels@.take(n as int) =~= pixels@);
    }
    out
}

/// A raster target: an owned `width * height` pixel buffer together with
/// the drawing state of the rasterizer.
///
/// The buffer lives inside the raw `raqote` target in `dt`; drawing
/// operations (fills and strokes, which take floating-point geometry) go
/// through that raw target directly, while creation, clearing and pixel
/// export are handled here. A target is not thread-safe without external
/// locking: one logical owner mutates it at a time.
pub struct rq_draw_target {
    pub width: i32,
    pub height: i32,
    pub dt: raqote::DrawTarget,
}

impl rq_draw_target {
    /// The current pixel buffer, row-major.
    pub open spec fn pixels(&self) -> Seq<u32> {
        dt_pixels(self.dt)
    }

    /// The current transform, as the bit encodings of its six entries.
    pub open spec fn transform_state(&self) -> rq_transform {
        dt_transform(self.dt)
    }

    /// A well-formed target: non-negative dimensions, a buffer of exactly
    /// `width * height` pixels, and no clip in effect. `new` establishes
    /// this and the operations here preserve it.
    pub open spec fn wf(&self) -> bool {
        &&& 0 <= self.width
        &&& 0 <= self.height
        &&& self.pixels().len() == self.width * self.height
        &&& dt_clip_free(self.dt)
    }

    /// Creates a target with the given fixed dimensions, every pixel
    /// zeroed (transparent black). Returns the target exactly when the
    /// dimensions are non-negative and their product fits the pixel
    /// count's range.
    pub fn new(width: i32, height: i32) -> (r: Option<rq_draw_target>)
        ensures
            r is Some <==> (0 <= width && 0 <= height && width * height <= i32::MAX),
            r is Some ==> r->0.wf(),
            r is Some ==> r->0.width == width && r->0.height == height,
            r is Some ==> r->0.pixels() == Seq::new((width * height) as nat, |i: int| 0u32),
            r is Some ==> r->0.transform_state() == identity_bits_spec(),
    {
        if width < 0 || height < 0 {
            return None;
        }
        match width.checked_mul(height) {
            Some(_) => Some(rq_draw_target { width, height, dt: dt_new(width, height) }),
            None => None,
        }
    }

    /// Resets every pixel of the buffer to `c`, bypassing any blend mode:
    /// afterwards the whole buffer holds the packed premultiplied form of
    /// `c`.
    pub fn clear(&mut self, c: rq_color)
        requires
            old(self).wf(),
        ensures
            final(self).wf(),
            final(self).width == old(self).width,
            final(self).height == old(self).height,
            final(self).pixels() == Seq::new(
                old(self).pixels().len(),
                |i: int| packed_premul_spec(c) as u32,
            ),
            final(self).transform_state() == old(self).transform_state(),
    {
        let s = raqote::SolidSource::from_unpremultiplied_argb(c.a, c.r, c.g, c.b);
        dt_clear(&mut self.dt, s);
        proof {
            lemma_scale255_bounds(c.a as int, c.r as int);
            lemma_scale255_bounds(c.a as int, c.g as int);
            lemma_scale255_bounds(c.a as int, c.b as int);
            assert(pack_argb_spec(s.a as int, s.r as int, s.g as int, s.b as int)
                == packed_premul_spec(c));
            assert(final(self).pixels() =~= Seq::new(
                old(self).pixels().len(),
                |i: int| packed_premul_spec(c) as u32,
            ));
        }
    }

    /// Sets the transform applied to the coordinates of later drawing
    /// calls: afterwards the stored transform is the given one. It never
    /// retroactively affects already-rasterized content: the pixel buffer
    /// is left exactly as it was.
    pub fn set_transform(&mut self, transform: &raqote::Transform)
        requires
            old(self).wf(),
        ensures
            final(self).wf(),
            final(self).transform_state() == transform_bits(*transform),
            final(self).width == old(self).width,
            final(self).height == old(self).height,
            final(self).pixels() == old(self).pixels(),
    {
        dt_set_transform(&mut self.dt, transform);
    }

    /// The current transform: the one last set, or the identity on a
    /// fresh target.
    pub fn get_transform(&self) -> (t: raqote::Transform)
        ensures
            transform_bits(t) == self.transform_state(),
    {
        dt_get_transform(&self.dt)
    }

    /// The fixed width of the target, in pixels.
    pub fn get_width(&self) -> (w: i32)
        ensures
            w == self.width,
    {
        self.width
    }

    /// The fixed height of the target, in pixels.
    pub fn get_height(&self) -> (h: i32)
        ensures
            h == self.height,
    {
        self.height
    }

    /// Exports the pixel buffer as an independent byte copy, four bytes
    /// per pixel in the order B, G, R, A, `width * height * 4` bytes in
    /// all with no padding between rows. The copy stays valid however the
    /// target is used or dropped afterwards.
    pub fn get_data(&self) -> (r: rq_argb)
        ensures
            r@ == bgra_bytes_spec(self.pixels()),
    {
        let v = dt_data(&self.dt);
        rq_argb(export_bgra(&v))
    }
}

/// Clearing a target to `c` and exporting it yields `width * height`
/// repetitions of the four bytes of `c`'s premultiplied form, in the order
/// B, G, R, A: the byte at offset `4 * i + k` depends only on `k` and `c`.
pub proof fn lemma_clear_then_export(pixels: Seq<u32>, c: rq_color, j: int)
    requires
        pixels == Seq::new(pixels.len(), |i: int| packed_premul_spec(c) as u32),
        0 <= j < pixels.len() * 4,
    ensures
        j % 4 == 0 ==> bgra_bytes_spec(pixels)[j] == premul_spec(c).b,
        j % 4 == 1 ==> bgra_bytes_spec(pixels)[j] == premul_spec(c).g,
        j % 4 == 2 ==> bgra_bytes_spec(pixels)[j] == premul_spec(c).r,
        j % 4 == 3 ==> bgra_bytes_spec(pixels)[j] == premul_spec(c).a,
{
    let p = premul_spec(c);
    lemma_scale255_bounds(c.a as int, c.r as int);
    lemma_scale255_bounds(c.a as int, c.g as int);
    lemma_scale255_bounds(c.a as int, c.b as int);
    lemma_pack_unpack(p.a as int, p.r as int, p.g as int, p.b as int);
    assert(0 <= j / 4 < pixels.len());
    assert(pixels[j / 4] == packed_premul_spec(c) as u32);
}

} // verus!

