use vstd::prelude::*;
use crate::color::rq_color;
use crate::gradient::{rq_linear_gradient, rq_radial_gradient, rq_sweep_gradient};
use crate::image::rq_pattern;
use crate::modes::{rq_blend_mode, rq_cap_style, rq_join_style};
use crate::path::Scalar;

verus! {

/// The fill or stroke source of a drawing operation: a solid color, one of
/// the three gradient kinds, or an image pattern.
///
/// Gradient and pattern resources are owned by the caller; a paint only
/// borrows them, so dropping a paint never destroys the resource, and the
/// resource must outlive any rasterization call that uses the paint.
pub enum rq_paint<'a> {
    Solid(rq_color),
    LinearGradient(&'a rq_linear_gradient),
    RadialGradient(&'a rq_radial_gradient),
    SweepGradient(&'a rq_sweep_gradient),
    Pattern(&'a rq_pattern),
}

impl<'a> rq_paint<'a> {
    /// The paint's color where it is a solid paint; nothing otherwise.
    pub fn solid_color(&self) -> (r: Option<rq_color>)
        ensures
            r is Some <==> self is Solid,
            self is Solid ==> r == Some(self->Solid_0),
    {
        match self {
            rq_paint::Solid(c) => Some(*c),
            _ => None,
        }
    }
}

/// How a path is stroked: the line width, the cap and join shapes, the
/// miter limit above which a miter join falls back to bevel, and the dash
/// pattern. The numeric fields are opaque scalar encodings interpreted by
/// the drawing layer.
///
/// Dashing is declared here for the drawing layer's use; the stroking
/// pipeline of this crate's drawing layer does not consume it.
pub struct rq_stroke_style {
    pub width: Scalar,
    pub cap: rq_cap_style,
    pub join: rq_join_style,
    pub miter_limit: Scalar,
    pub dash_array: Vec<Scalar>,
    pub dash_offset: Scalar,
}

/// The options of one drawing call: a global alpha (an opaque scalar
/// encoding of a value in `[0, 1]`) and the blend mode. When a caller
/// leaves the options out, the drawing layer uses full alpha and
/// `SourceOver`.
pub struct rq_draw_options {
    pub alpha: Scalar,
    pub blend_mode: rq_blend_mode,
}

} // verus!
