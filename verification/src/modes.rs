use vstd::prelude::*;

verus! {

/// The rule that classifies a point as inside or outside a filled path.
#[derive(Copy, Clone, PartialEq, Eq, Structural, Debug)]
pub enum rq_fill_rule {
    /// Inside where the winding number is nonzero.
    Winding,
    /// Inside where the crossing count is odd.
    EvenOdd,
}

/// How a gradient parameter outside `[0, 1]` is mapped back into range.
#[derive(Copy, Clone, PartialEq, Eq, Structural, Debug)]
pub enum rq_spread_mode {
    Pad,
    Reflect,
    Repeat,
}

/// How a pattern behaves outside its image bounds.
#[derive(Copy, Clone, PartialEq, Eq, Structural, Debug)]
pub enum rq_extend_mode {
    Pad,
    Repeat,
}

/// How a pattern samples between pixel centers.
#[derive(Copy, Clone, PartialEq, Eq, Structural, Debug)]
pub enum rq_filter_mode {
    Nearest,
    Bilinear,
}

/// The compositing operator applied when a source color is drawn over a
/// destination pixel. Each variant has a fixed per-channel formula.
#[derive(Copy, Clone, PartialEq, Eq, Structural, Debug)]
pub enum rq_blend_mode {
    SourceOver,
    SourceCopy,
    Clear,
    Destination,
    DestinationOver,
    SourceIn,
    DestinationIn,
    SourceOut,
    DestinationOut,
    SourceAtop,
    DestinationAtop,
    Xor,
    Add,
    Multiply,
    Screen,
    Overlay,
    Darken,
    Lighten,
    ColorDodge,
    ColorBurn,
    HardLight,
    SoftLight,
    Difference,
    Exclusion,
    Hue,
    Saturation,
    Color,
    Luminosity,
}

/// The shape of the end of an open stroked subpath.
#[derive(Copy, Clone, PartialEq, Eq, Structural, Debug)]
pub enum rq_cap_style {
    Butt,
    Round,
    Square,
}

/// The shape of the corner where two stroked segments meet.
#[derive(Copy, Clone, PartialEq, Eq, Structural, Debug)]
pub enum rq_join_style {
    Miter,
    Round,
    Bevel,
}

/// Whether a point with winding number `winding` is inside a filled path
/// under `rule`: nonzero winding for `Winding`, odd winding for `EvenOdd`.
pub open spec fn inside_spec(rule: rq_fill_rule, winding: int) -> bool {
    match rule {
        rq_fill_rule::Winding => winding != 0,
        rq_fill_rule::EvenOdd => winding % 2 != 0,
    }
}

/// Classifies a point by its winding number under the given fill rule.
pub fn fill_rule_inside(rule: rq_fill_rule, winding: i32) -> (r: bool)
    ensures
        r == inside_spec(rule, winding as int),
{
    match rule {
        rq_fill_rule::Winding => winding != 0,
        rq_fill_rule::EvenOdd => winding % 2 != 0,
    }
}

/// On a simple, non-self-intersecting closed path every point has winding
/// number -1, 0 or 1, and there the two fill rules classify identically:
/// such a path fills the same area under `Winding` and under `EvenOdd`.
pub proof fn lemma_simple_path_rules_agree(winding: int)
    requires
        -1 <= winding <= 1,
    ensures
        inside_spec(rq_fill_rule::Winding, winding) == inside_spec(
            rq_fill_rule::EvenOdd,
            winding,
        ),
{
}

/// Where two lobes of a self-intersecting path wind the same way, the
/// winding number is an even value other than zero (such as 2 or -2), and
/// the two rules part: `Winding` fills the overlap, `EvenOdd` leaves it out.
pub proof fn lemma_even_overlap_rules_differ(winding: int)
    requires
        winding != 0,
        winding % 2 == 0,
    ensures
        inside_spec(rq_fill_rule::Winding, winding),
        !inside_spec(rq_fill_rule::EvenOdd, winding),
{
}

} // verus!
