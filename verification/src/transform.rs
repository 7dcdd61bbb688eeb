use vstd::prelude::*;
use crate::path::Scalar;

verus! {

/// A 2 x 3 affine matrix `(m11, m12, m21, m22, m31, m32)`, stored as six
/// opaque scalar encodings.
///
/// The matrix algebra (identity, scale, translation, rotation and
/// composition) is floating-point work and belongs to the drawing layer;
/// this crate stores a transform and hands it through unchanged, as the
/// local transform of a pattern or the current transform of a target.
#[derive(Copy, Clone, PartialEq, Eq, Structural, Debug)]
pub struct rq_transform {
    pub m11: Scalar,
    pub m12: Scalar,
    pub m21: Scalar,
    pub m22: Scalar,
    pub m31: Scalar,
    pub m32: Scalar,
}

/// The bit encoding of the identity matrix: the single-precision encoding
/// of one (0x3f800000) on the diagonal, of zero everywhere else.
pub open spec fn identity_bits_spec() -> rq_transform {
    rq_transform {
        m11: Scalar { bits: 0x3f800000 },
        m12: Scalar { bits: 0 },
        m21: Scalar { bits: 0 },
        m22: Scalar { bits: 0x3f800000 },
        m31: Scalar { bits: 0 },
        m32: Scalar { bits: 0 },
    }
}

} // verus!
