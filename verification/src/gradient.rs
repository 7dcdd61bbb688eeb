use vstd::prelude::*;
use crate::color::rq_color;
use crate::modes::rq_spread_mode;
use crate::path::Scalar;

verus! {

/// Gradient stop positions are fractions of the gradient axis, measured in
/// units of `1 / POS_ONE`: position `0` is the start of the axis and
/// position `POS_ONE` is its end.
pub const POS_ONE: u32 = 65536;

/// One color stop of a gradient: a position on the gradient axis (in units
/// of `1 / POS_ONE`, at most `POS_ONE`) and the color reached there.
#[derive(Copy, Clone, PartialEq, Eq, Structural, Debug)]
pub struct rq_gradient_stop {
    pub position: u32,
    pub color: rq_color,
}

/// The stops are ordered by position.
pub open spec fn stops_sorted(s: Seq<rq_gradient_stop>) -> bool {
    forall|i: int, j: int|
        0 <= i <= j < s.len() ==> s[i].position <= s[j].position
}

/// Every stop position lies on the axis, at most `POS_ONE`.
pub open spec fn stops_bounded(s: Seq<rq_gradient_stop>) -> bool {
    forall|i: int| 0 <= i < s.len() ==> #[trigger] s[i].position <= POS_ONE
}

/// A well-formed stop list: sorted by position, positions on the axis.
pub open spec fn stops_wf(s: Seq<rq_gradient_stop>) -> bool {
    stops_sorted(s) && stops_bounded(s)
}

/// Maps a raw gradient parameter `t` (in units of `1 / POS_ONE`, possibly
/// far outside the axis) into `[0, POS_ONE]`: `Pad` clamps, `Repeat` wraps
/// with period one, `Reflect` folds with a triangular wave of period two.
pub open spec fn spread_spec(mode: rq_spread_mode, t: int) -> int {
    match mode {
        rq_spread_mode::Pad => if t < 0 {
            0
        } else if t > POS_ONE {
            POS_ONE as int
        } else {
            t
        },
        rq_spread_mode::Repeat => t % (POS_ONE as int),
        rq_spread_mode::Reflect => {
            let u = t % (2 * POS_ONE);
            if u <= POS_ONE {
                u
            } else {
                2 * POS_ONE - u
            }
        },
    }
}

/// Linear interpolation of one 8-bit channel from `a` to `b` at fraction
/// `num / den`, rounded to the nearest integer.
pub open spec fn lerp_spec(a: int, b: int, num: int, den: int) -> int {
    (a * (den - num) + b * num + den / 2) / den
}

/// Componentwise linear interpolation between two colors at `num / den`.
pub open spec fn lerp_color_spec(c0: rq_color, c1: rq_color, num: int, den: int) -> rq_color {
    rq_color {
        r: lerp_spec(c0.r as int, c1.r as int, num, den) as u8,
        g: lerp_spec(c0.g as int, c1.g as int, num, den) as u8,
        b: lerp_spec(c0.b as int, c1.b as int, num, den) as u8,
        a: lerp_spec(c0.a as int, c1.a as int, num, den) as u8,
    }
}

/// The color of a stop list at a mapped position `m` in `[0, POS_ONE]`:
/// transparent black with no stops, the single stop's color with one,
/// otherwise the first stop's color before the first position, the last
/// stop's color past the last position, and in between the interpolation
/// between the first bracketing pair in list order.
pub open spec fn stops_eval_spec(s: Seq<rq_gradient_stop>, m: int) -> rq_color
    decreases s.len(),
{
    if s.len() == 0 {
        rq_color { r: 0, g: 0, b: 0, a: 0 }
    } else if s.len() == 1 {
        s[0].color
    } else if m <= s[0].position {
        s[0].color
    } else if m <= s[1].position {
        lerp_color_spec(
            s[0].color,
            s[1].color,
            m - s[0].position,
            s[1].position - s[0].position,
        )
    } else {
        stops_eval_spec(s.drop_first(), m)
    }
}

/// The color of a gradient with stop list `s` and spread `mode` at the raw
/// parameter `t`: the spread maps `t` onto the axis, then the stops are
/// bracketed and interpolated.
pub open spec fn gradient_eval_spec(
    s: Seq<rq_gradient_stop>,
    mode: rq_spread_mode,
    t: int,
) -> rq_color {
    stops_eval_spec(s, spread_spec(mode, t))
}

/// Where a clamped position `p` is inserted in a sorted stop list: after
/// every stop whose position is at most `p`.
pub open spec fn insert_index_spec(s: Seq<rq_gradient_stop>, p: u32) -> int
    decreases s.len(),
{
    if s.len() == 0 {
        0
    } else if s[0].position <= p {
        1 + insert_index_spec(s.drop_first(), p)
    } else {
        0
    }
}

proof fn lemma_insert_index_bounds(s: Seq<rq_gradient_stop>, p: u32)
    ensures
        0 <= insert_index_spec(s, p) <= s.len(),
        forall|j: int| 0 <= j < insert_index_spec(s, p) ==> #[trigger] s[j].position <= p,
        insert_index_spec(s, p) < s.len() ==> s[insert_index_spec(s, p)].position > p,
    decreases s.len(),
{
    if s.len() > 0 && s[0].position <= p {
        lemma_insert_index_bounds(s.drop_first(), p);
        let k = insert_index_spec(s.drop_first(), p);
        assert forall|j: int| 0 <= j < k + 1 implies #[trigger] s[j].position <= p by {
            if j > 0 {
                assert(s.drop_first()[j - 1] == s[j]);
            }
        }
        if k + 1 < s.len() {
            assert(s.drop_first()[k] == s[k + 1]);
        }
    }
}

/// The mapped spread position always lies on the axis.
pub proof fn lemma_spread_in_range(mode: rq_spread_mode, t: int)
    ensures
        0 <= spread_spec(mode, t) <= POS_ONE,
{
    match mode {
        rq_spread_mode::Pad => {},
        rq_spread_mode::Repeat => {
            assert(0 <= t % (POS_ONE as int) < POS_ONE as int);
        },
        rq_spread_mode::Reflect => {
            assert(0 <= t % (2 * POS_ONE) < 2 * POS_ONE);
        },
    }
}

/// Under `Repeat`, the gradient is periodic with period one: shifting the
/// parameter by a whole period never changes the evaluated color.
pub proof fn lemma_repeat_periodic(s: Seq<rq_gradient_stop>, t: int)
    ensures
        gradient_eval_spec(s, rq_spread_mode::Repeat, t + POS_ONE) == gradient_eval_spec(
            s,
            rq_spread_mode::Repeat,
            t,
        ),
{
    let m = POS_ONE as int;
    vstd::arithmetic::div_mod::lemma_mod_multiples_vanish(1, t, m);
    assert(m * 1 + t == t + m);
}

/// Under `Reflect`, the gradient is periodic with period two: shifting the
/// parameter by a whole reflection period never changes the color.
pub proof fn lemma_reflect_periodic(s: Seq<rq_gradient_stop>, t: int)
    ensures
        gradient_eval_spec(s, rq_spread_mode::Reflect, t + 2 * POS_ONE) == gradient_eval_spec(
            s,
            rq_spread_mode::Reflect,
            t,
        ),
{
    let m = 2 * POS_ONE as int;
    vstd::arithmetic::div_mod::lemma_mod_multiples_vanish(1, t, m);
    assert(m * 1 + t == t + m);
}

/// Interpolating with full weight yields the second color exactly.
proof fn lemma_lerp_full_weight(c0: rq_color, c1: rq_color, den: int)
    requires
        0 < den,
    ensures
        lerp_color_spec(c0, c1, den, den) == c1,
{
    lemma_lerp_channel_full(c0.r as int, c1.r as int, den);
    lemma_lerp_channel_full(c0.g as int, c1.g as int, den);
    lemma_lerp_channel_full(c0.b as int, c1.b as int, den);
    lemma_lerp_channel_full(c0.a as int, c1.a as int, den);
}

proof fn lemma_lerp_channel_full(a: int, b: int, den: int)
    requires
        0 < den,
        0 <= b <= 255,
    ensures
        lerp_spec(a, b, den, den) == b,
{
    assert((a * 0 + b * den + den / 2) / den == b) by (nonlinear_arith)
        requires
            0 < den,
    ;
}

/// Under `Pad`, every parameter at or below the start of the axis
/// evaluates to the first stop's color.
pub proof fn lemma_pad_clamps_low(s: Seq<rq_gradient_stop>, t: int)
    requires
        s.len() > 0,
        t <= 0,
    ensures
        gradient_eval_spec(s, rq_spread_mode::Pad, t) == s[0].color,
{
}

/// Under `Pad`, every parameter at or past the end of the axis evaluates
/// to the last stop's color, provided no stop before the last one sits at
/// the very end of the axis.
pub proof fn lemma_pad_clamps_high(s: Seq<rq_gradient_stop>, t: int)
    requires
        stops_wf(s),
        s.len() > 0,
        t >= POS_ONE,
        forall|i: int| 0 <= i < s.len() - 1 ==> #[trigger] s[i].position < POS_ONE,
    ensures
        gradient_eval_spec(s, rq_spread_mode::Pad, t) == s.last().color,
{
    lemma_eval_at_end(s);
}

proof fn lemma_eval_at_end(s: Seq<rq_gradient_stop>)
    requires
        stops_wf(s),
        s.len() > 0,
        forall|i: int| 0 <= i < s.len() - 1 ==> #[trigger] s[i].position < POS_ONE,
    ensures
        stops_eval_spec(s, POS_ONE as int) == s.last().color,
    decreases s.len(),
{
    let m = POS_ONE as int;
    if s.len() == 1 {
    } else {
        assert(s[0].position < POS_ONE);
        if m <= s[1].position {
            assert(s[1].position == POS_ONE);
            assert(s.len() == 2) by {
                if s.len() > 2 {
                    assert(s[1].position < POS_ONE);
                }
            }
            lemma_lerp_full_weight(
                s[0].color,
                s[1].color,
                s[1].position - s[0].position,
            );
        } else {
            assert forall|i: int| 0 <= i < s.drop_first().len() - 1 implies #[trigger] s
                .drop_first()[i].position < POS_ONE by {
                assert(s.drop_first()[i] == s[i + 1]);
            }
            assert(stops_sorted(s.drop_first())) by {
                assert forall|i: int, j: int|
                    0 <= i <= j < s.drop_first().len() implies s.drop_first()[i].position <= s
                    .drop_first()[j].position by {
                    assert(s.drop_first()[i] == s[i + 1]);
                    assert(s.drop_first()[j] == s[j + 1]);
                }
            }
            assert(stops_bounded(s.drop_first())) by {
                assert forall|i: int| 0 <= i < s.drop_first().len() implies #[trigger] s
                    .drop_first()[i].position <= POS_ONE by {
                    assert(s.drop_first()[i] == s[i + 1]);
                }
            }
            lemma_eval_at_end(s.drop_first());
            assert(s.drop_first().last() == s.last());
        }
    }
}

/// A gradient with a single stop is that stop's constant color, whatever
/// the spread and the parameter.
pub proof fn lemma_single_stop_constant(s: Seq<rq_gradient_stop>, mode: rq_spread_mode, t: int)
    requires
        s.len() == 1,
    ensures
        gradient_eval_spec(s, mode, t) == s[0].color,
{
}

/// Maps a raw parameter onto the axis according to the spread mode.
pub fn spread_map(mode: rq_spread_mode, t: i64) -> (m: u32)
    ensures
        m == spread_spec(mode, t as int),
        m <= POS_ONE,
{
    proof {
        lemma_spread_in_range(mode, t as int);
    }
    match mode {
        rq_spread_mode::Pad => {
            if t < 0 {
                0
            } else if t > POS_ONE as i64 {
                POS_ONE
            } else {
                t as u32
            }
        },
        rq_spread_mode::Repeat => {
            let r = t.checked_rem_euclid(POS_ONE as i64).unwrap();
            r as u32
        },
        rq_spread_mode::Reflect => {
            let period: i64 = 2 * POS_ONE as i64;
            let u = t.checked_rem_euclid(period).unwrap();
            if u <= POS_ONE as i64 {
                u as u32
            } else {
                (period - u) as u32
            }
        },
    }
}

/// Interpolates one 8-bit channel from `a` to `b` at fraction `num / den`.
pub fn lerp_channel(a: u8, b: u8, num: u32, den: u32) -> (y: u8)
    requires
        0 < den <= POS_ONE,
        num <= den,
    ensures
        y == lerp_spec(a as int, b as int, num as int, den as int),
{
    let d: u32 = den - num;
    proof {
        assert((a as int) * (d as int) + (b as int) * (num as int) <= 255 * den)
            by (nonlinear_arith)
            requires
                a <= 255,
                b <= 255,
                num <= den,
                d == den - num,
        ;
    }
    let v: u64 = (a as u64) * (d as u64) + (b as u64) * (num as u64) + (den / 2) as u64;
    proof {
        assert(v / (den as u64) <= 255) by (nonlinear_arith)
            requires
                0 < den,
                v <= 255 * den + den / 2,
        ;
    }
    (v / (den as u64)) as u8
}

/// Componentwise interpolation between two colors at `num / den`.
pub fn lerp_color(c0: rq_color, c1: rq_color, num: u32, den: u32) -> (c: rq_color)
    requires
        0 < den <= POS_ONE,
        num <= den,
    ensures
        c == lerp_color_spec(c0, c1, num as int, den as int),
{
    rq_color {
        r: lerp_channel(c0.r, c1.r, num, den),
        g: lerp_channel(c0.g, c1.g, num, den),
        b: lerp_channel(c0.b, c1.b, num, den),
        a: lerp_channel(c0.a, c1.a, num, den),
    }
}

/// Evaluates a well-formed stop list under a spread mode at the raw
/// parameter `t` (in units of `1 / POS_ONE`).
pub fn eval_stops(stops: &Vec<rq_gradient_stop>, mode: rq_spread_mode, t: i64) -> (c: rq_color)
    requires
        stops_wf(stops@),
    ensures
        c == gradient_eval_spec(stops@, mode, t as int),
{
    let m = spread_map(mode, t);
    let n = stops.len();
    if n == 0 {
        return rq_color { r: 0, g: 0, b: 0, a: 0 };
    }
    let mut i: usize = 0;
    proof {
        assert(stops@.skip(0) =~= stops@);
    }
    while i + 1 < n
        invariant
            stops_wf(stops@),
            n == stops@.len(),
            0 < n,
            i < n,
            m <= POS_ONE,
            m == spread_spec(mode, t as int),
            stops_eval_spec(stops@, m as int) == stops_eval_spec(stops@.skip(i as int), m as int),
        decreases n - i,
    {
        let s0 = stops[i];
        let s1 = stops[i + 1];
        proof {
            assert(stops@.skip(i as int)[0] == stops@[i as int]);
            assert(stops@.skip(i as int)[1] == stops@[i + 1]);
        }
        if m <= s0.position {
            return s0.color;
        }
        if m <= s1.position {
            return lerp_color(s0.color, s1.color, m - s0.position, s1.position - s0.position);
        }
        proof {
            assert(stops@.skip(i as int).drop_first() =~= stops@.skip(i + 1));
        }
        i = i + 1;
    }
    proof {
        assert(stops@.skip(i as int).len() == 1);
        assert(stops@.skip(i as int)[0] == stops@[i as int]);
    }
    stops[i].color
}

/// Clamps a stop position onto the axis.
pub fn clamp_position(position: u32) -> (p: u32)
    ensures
        p == if position > POS_ONE { POS_ONE as int } else { position as int },
        p <= POS_ONE,
{
    if position > POS_ONE {
        POS_ONE
    } else {
        position
    }
}

/// Inserts a stop into a sorted stop list, keeping it sorted. The position
/// is clamped onto the axis; a stop with the same position as an existing
/// one is placed after it, so ties keep insertion order.
pub fn add_stop_sorted(stops: &mut Vec<rq_gradient_stop>, position: u32, color: rq_color)
    requires
        stops_wf(old(stops)@),
        old(stops)@.len() < usize::MAX,
    ensures
        stops_wf(final(stops)@),
        final(stops)@ == old(stops)@.insert(
            insert_index_spec(old(stops)@, clamped_position_spec(position)),
            rq_gradient_stop { position: clamped_position_spec(position), color },
        ),
{
    let p = clamp_position(position);
    let ghost s0 = stops@;
    let n = stops.len();
    let mut k: usize = 0;
    while k < n && stops[k].position <= p
        invariant
            stops@ == s0,
            n == s0.len(),
            k <= n,
            forall|j: int| 0 <= j < k ==> #[trigger] s0[j].position <= p,
        decreases n - k,
    {
        k = k + 1;
    }
    proof {
        lemma_insert_index_agrees(s0, p, k as int);
    }
    stops.insert(k, rq_gradient_stop { position: p, color });
    proof {
        lemma_insert_keeps_sorted(s0, k as int, rq_gradient_stop { position: p, color });
        assert(stops_bounded(stops@)) by {
            assert forall|i: int| 0 <= i < stops@.len() implies #[trigger] stops@[i].position
                <= POS_ONE by {
                if i < k {
                    assert(stops@[i] == s0[i]);
                } else if i > k {
                    assert(stops@[i] == s0[i - 1]);
                }
            }
        }
    }
}

/// The position a stop request ends up with: clamped onto the axis.
pub open spec fn clamped_position_spec(position: u32) -> u32 {
    if position > POS_ONE {
        POS_ONE
    } else {
        position
    }
}

proof fn lemma_insert_index_agrees(s: Seq<rq_gradient_stop>, p: u32, k: int)
    requires
        stops_sorted(s),
        0 <= k <= s.len(),
        forall|j: int| 0 <= j < k ==> #[trigger] s[j].position <= p,
        k < s.len() ==> s[k].position > p,
    ensures
        insert_index_spec(s, p) == k,
    decreases s.len(),
{
    if s.len() == 0 {
    } else if k == 0 {
        if s[0].position <= p {
            lemma_insert_index_bounds(s.drop_first(), p);
            let k2 = insert_index_spec(s.drop_first(), p);
            if k2 > 0 {
                assert(s.drop_first()[0] == s[1]);
                assert(s[1].position <= p) by {
                    assert(s.drop_first()[0].position <= p);
                }
                assert(false);
            } else {
                assert(s[0].position > p);
            }
        }
    } else {
        assert(s[0].position <= p);
        assert forall|j: int| 0 <= j < k - 1 implies #[trigger] s.drop_first()[j].position
            <= p by {
            assert(s.drop_first()[j] == s[j + 1]);
        }
        if k - 1 < s.drop_first().len() {
            assert(s.drop_first()[k - 1] == s[k]);
        }
        assert(stops_sorted(s.drop_first())) by {
            assert forall|i: int, j: int|
                0 <= i <= j < s.drop_first().len() implies s.drop_first()[i].position <= s
                .drop_first()[j].position by {
                assert(s.drop_first()[i] == s[i + 1]);
                assert(s.drop_first()[j] == s[j + 1]);
            }
        }
        lemma_insert_index_agrees(s.drop_first(), p, k - 1);
    }
}

/// A linear gradient: an axis from `(x0, y0)` to `(x1, y1)`, an ordered
/// list of color stops and a spread policy. The stop at position 0 sits at
/// the start of the axis, the stop at position `POS_ONE` at its end.
pub struct rq_linear_gradient {
    pub x0: Scalar,
    pub y0: Scalar,
    pub x1: Scalar,
    pub y1: Scalar,
    pub stops: Vec<rq_gradient_stop>,
    pub spread: rq_spread_mode,
}

impl rq_linear_gradient {
    pub open spec fn stops_view(&self) -> Seq<rq_gradient_stop> {
        self.stops@
    }

    /// The stop list is kept sorted by position and on the axis; every
    /// constructor establishes this and `add_stop` preserves it.
    pub open spec fn wf(&self) -> bool {
        stops_wf(self.stops@)
    }

    pub fn new(x0: Scalar, y0: Scalar, x1: Scalar, y1: Scalar, spread: rq_spread_mode) -> (g:
        rq_linear_gradient)
        ensures
            g.wf(),
            g.stops_view() == Seq::<rq_gradient_stop>::empty(),
            g.x0 == x0 && g.y0 == y0 && g.x1 == x1 && g.y1 == y1,
            g.spread == spread,
    {
        rq_linear_gradient { x0, y0, x1, y1, stops: Vec::new(), spread }
    }

    /// Adds a color stop; the position is clamped onto the axis and the
    /// stop is placed in position order, after any stop with the same
    /// position.
    pub fn add_stop(&mut self, position: u32, color: rq_color)
        requires
            old(self).wf(),
            old(self).stops_view().len() < usize::MAX,
        ensures
            final(self).wf(),
            final(self).stops_view() == old(self).stops_view().insert(
                insert_index_spec(old(self).stops_view(), clamped_position_spec(position)),
                rq_gradient_stop { position: clamped_position_spec(position), color },
            ),
            final(self).x0 == old(self).x0 && final(self).y0 == old(self).y0,
            final(self).x1 == old(self).x1 && final(self).y1 == old(self).y1,
            final(self).spread == old(self).spread,
    {
        add_stop_sorted(&mut self.stops, position, color);
    }

    /// The stops, in evaluation order.
    pub fn stops(&self) -> (r: &Vec<rq_gradient_stop>)
        ensures
            r@ == self.stops_view(),
    {
        &self.stops
    }

    /// The gradient's color at the raw parameter `t`, in units of
    /// `1 / POS_ONE` along the axis.
    pub fn eval_at(&self, t: i64) -> (c: rq_color)
        requires
            self.wf(),
        ensures
            c == gradient_eval_spec(self.stops_view(), self.spread, t as int),
    {
        eval_stops(&self.stops, self.spread, t)
    }
}

/// A radial gradient between two circles: centers `(x0, y0)` and
/// `(x1, y1)` with radii `r0` and `r1`, plus stops and a spread policy.
pub struct rq_radial_gradient {
    pub x0: Scalar,
    pub y0: Scalar,
    pub r0: Scalar,
    pub x1: Scalar,
    pub y1: Scalar,
    pub r1: Scalar,
    pub stops: Vec<rq_gradient_stop>,
    pub spread: rq_spread_mode,
}

impl rq_radial_gradient {
    pub open spec fn stops_view(&self) -> Seq<rq_gradient_stop> {
        self.stops@
    }

    /// The stop list is kept sorted by position and on the axis; every
    /// constructor establishes this and `add_stop` preserves it.
    pub open spec fn wf(&self) -> bool {
        stops_wf(self.stops@)
    }

    pub fn new(
        x0: Scalar,
        y0: Scalar,
        r0: Scalar,
        x1: Scalar,
        y1: Scalar,
        r1: Scalar,
        spread: rq_spread_mode,
    ) -> (g: rq_radial_gradient)
        ensures
            g.wf(),
            g.stops_view() == Seq::<rq_gradient_stop>::empty(),
            g.x0 == x0 && g.y0 == y0 && g.r0 == r0,
            g.x1 == x1 && g.y1 == y1 && g.r1 == r1,
            g.spread == spread,
    {
        rq_radial_gradient { x0, y0, r0, x1, y1, r1, stops: Vec::new(), spread }
    }

    /// Adds a color stop; the position is clamped onto the axis and the
    /// stop is placed in position order, after any stop with the same
    /// position.
    pub fn add_stop(&mut self, position: u32, color: rq_color)
        requires
            old(self).wf(),
            old(self).stops_view().len() < usize::MAX,
        ensures
            final(self).wf(),
            final(self).stops_view() == old(self).stops_view().insert(
                insert_index_spec(old(self).stops_view(), clamped_position_spec(position)),
                rq_gradient_stop { position: clamped_position_spec(position), color },
            ),
            final(self).x0 == old(self).x0 && final(self).y0 == old(self).y0,
            final(self).r0 == old(self).r0 && final(self).r1 == old(self).r1,
            final(self).x1 == old(self).x1 && final(self).y1 == old(self).y1,
            final(self).spread == old(self).spread,
    {
        add_stop_sorted(&mut self.stops, position, color);
    }

    /// The stops, in evaluation order.
    pub fn stops(&self) -> (r: &Vec<rq_gradient_stop>)
        ensures
            r@ == self.stops_view(),
    {
        &self.stops
    }

    /// The gradient's color at the raw parameter `t`, the position between
    /// the two circles in units of `1 / POS_ONE`.
    pub fn eval_at(&self, t: i64) -> (c: rq_color)
        requires
            self.wf(),
        ensures
            c == gradient_eval_spec(self.stops_view(), self.spread, t as int),
    {
        eval_stops(&self.stops, self.spread, t)
    }
}

/// A sweep gradient: a center, a start and an end angle (radians), stops
/// and a spread policy.
pub struct rq_sweep_gradient {
    pub center_x: Scalar,
    pub center_y: Scalar,
    pub start_angle: Scalar,
    pub end_angle: Scalar,
    pub stops: Vec<rq_gradient_stop>,
    pub spread: rq_spread_mode,
}

impl rq_sweep_gradient {
    pub open spec fn stops_view(&self) -> Seq<rq_gradient_stop> {
        self.stops@
    }

    /// The stop list is kept sorted by position and on the axis; every
    /// constructor establishes this and `add_stop` preserves it.
    pub open spec fn wf(&self) -> bool {
        stops_wf(self.stops@)
    }

    pub fn new(
        center_x: Scalar,
        center_y: Scalar,
        start_angle: Scalar,
        end_angle: Scalar,
        spread: rq_spread_mode,
    ) -> (g: rq_sweep_gradient)
        ensures
            g.wf(),
            g.stops_view() == Seq::<rq_gradient_stop>::empty(),
            g.center_x == center_x && g.center_y == center_y,
            g.start_angle == start_angle && g.end_angle == end_angle,
            g.spread == spread,
    {
        rq_sweep_gradient { center_x, center_y, start_angle, end_angle, stops: Vec::new(), spread }
    }

    /// Adds a color stop; the position is clamped onto the axis and the
    /// stop is placed in position order, after any stop with the same
    /// position.
    pub fn add_stop(&mut self, position: u32, color: rq_color)
        requires
            old(self).wf(),
            old(self).stops_view().len() < usize::MAX,
        ensures
            final(self).wf(),
            final(self).stops_view() == old(self).stops_view().insert(
                insert_index_spec(old(self).stops_view(), clamped_position_spec(position)),
                rq_gradient_stop { position: clamped_position_spec(position), color },
            ),
            final(self).center_x == old(self).center_x,
            final(self).center_y == old(self).center_y,
            final(self).start_angle == old(self).start_angle,
            final(self).end_angle == old(self).end_angle,
            final(self).spread == old(self).spread,
    {
        add_stop_sorted(&mut self.stops, position, color);
    }

    /// The stops, in evaluation order.
    pub fn stops(&self) -> (r: &Vec<rq_gradient_stop>)
        ensures
            r@ == self.stops_view(),
    {
        &self.stops
    }

    /// The gradient's color at the raw parameter `t`, the fraction of the
    /// angle range in units of `1 / POS_ONE`.
    pub fn eval_at(&self, t: i64) -> (c: rq_color)
        requires
            self.wf(),
        ensures
            c == gradient_eval_spec(self.stops_view(), self.spread, t as int),
    {
        eval_stops(&self.stops, self.spread, t)
    }
}

proof fn lemma_insert_keeps_sorted(s: Seq<rq_gradient_stop>, k: int, x: rq_gradient_stop)
    requires
        stops_sorted(s),
        0 <= k <= s.len(),
        forall|j: int| 0 <= j < k ==> #[trigger] s[j].position <= x.position,
        k < s.len() ==> s[k].position > x.position,
    ensures
        stops_sorted(s.insert(k, x)),
{
    let r = s.insert(k, x);
    assert forall|i: int, j: int| 0 <= i <= j < r.len() implies r[i].position <= r[j].position by {
        if i < k {
            assert(r[i] == s[i]);
        } else if i == k {
            assert(r[i] == x);
        } else {
            assert(r[i] == s[i - 1]);
        }
        if j < k {
            assert(r[j] == s[j]);
        } else if j == k {
            assert(r[j] == x);
        } else {
            assert(r[j] == s[j - 1]);
        }
    }
}

} // verus!
