//! The decision side of the math-approximation layer.
//!
//! Fused multiply-add and reciprocal-square-root estimate are per-lane
//! floating-point operations, so their arithmetic lives with the caller
//! that owns the float interpretation of the lanes.  What is decided
//! here, and verified, is the dispatch: which implementation a given
//! (element kind, lane count) pair runs on, as reported by the
//! architecture primitive provider, and the lane-selection pattern that
//! the fused add/sub variants steer their two intermediate results
//! with.

use vstd::prelude::*;
use crate::catalog::{all_ones, ones_of_width, valid_lane, VectorType};
use crate::vector::Vector;

verus! {

/// How a fused multiply-add `a*b + c` is carried out.
#[derive(Clone, Copy, Debug, PartialEq, Eq, Structural)]
pub enum FmaBackend {
    /// A hardware fused primitive: one rounding step.
    Fused,
    /// The portable fallback `(a*b) + c`: two rounding steps, an
    /// intentional, documented accuracy trade-off and not a defect.
    MulThenAdd,
}

/// How a reciprocal-square-root estimate is carried out.  Either way
/// the portable guarantee is the documented relative-error bound, not
/// the method.
#[derive(Clone, Copy, Debug, PartialEq, Eq, Structural)]
pub enum RsqrteBackend {
    /// A hardware estimate instruction.
    HardwareEstimate,
    /// An accurate `1 / sqrt(x)` computed directly.
    ReciprocalOfSqrt,
}

/// Picks the fused hardware primitive exactly when the architecture
/// primitive provider reports one for the shape at hand.
pub fn select_fma_backend(hw_fused_available: bool) -> (r: FmaBackend)
    ensures
        r == (if hw_fused_available {
            FmaBackend::Fused
        } else {
            FmaBackend::MulThenAdd
        }),
{
    if hw_fused_available {
        FmaBackend::Fused
    } else {
        FmaBackend::MulThenAdd
    }
}

/// Picks the hardware estimate exactly when the architecture primitive
/// provider reports one for the shape at hand.
pub fn select_rsqrte_backend(hw_estimate_available: bool) -> (r: RsqrteBackend)
    ensures
        r == (if hw_estimate_available {
            RsqrteBackend::HardwareEstimate
        } else {
            RsqrteBackend::ReciprocalOfSqrt
        }),
{
    if hw_estimate_available {
        RsqrteBackend::HardwareEstimate
    } else {
        RsqrteBackend::ReciprocalOfSqrt
    }
}

/// The steering mask of the fused multiply-add/sub and sub/add
/// variants: lane 0 holds `first`, and the truth value alternates lane
/// by lane.  Selecting between an "add" and a "sub" intermediate with
/// this mask yields the alternating pattern those variants promise.
pub fn alternating_mask(ty: VectorType, first: bool) -> (r: Vector)
    requires
        ty.wf(),
        ty.kind is Mask,
    ensures
        r.inv(),
        r.vtype() == ty,
        forall|i: int|
            0 <= i < ty.lanes ==> ((#[trigger] r.bits()[i]) != 0 <==> (if i % 2 == 0 {
                first
            } else {
                !first
            })),
{
    let ones = ones_of_width(ty.width);
    let mut lanes: Vec<u128> = Vec::new();
    let mut i: usize = 0;
    while i < ty.lanes
        invariant
            ty.wf(),
            ty.kind is Mask,
            ones as int == all_ones(ty.width),
            i <= ty.lanes,
            lanes@.len() == i,
            forall|j: int|
                0 <= j < i ==> ((#[trigger] lanes@[j]) != 0 <==> (if j % 2 == 0 {
                    first
                } else {
                    !first
                })),
            forall|j: int| 0 <= j < i ==> valid_lane(ty.kind, ty.width, #[trigger] lanes@[j]),
        decreases ty.lanes - i,
    {
        let on = if i % 2 == 0 {
            first
        } else {
            !first
        };
        if on {
            lanes.push(ones);
            proof {
                assert(all_ones(ty.width) != 0);
            }
        } else {
            lanes.push(0);
        }
        i = i + 1;
    }
    Vector::from_parts(ty, lanes)
}

} // verus!
