//! The cast engine: same-lane-count conversion between element
//! representations.
//!
//! Rules, per lane:
//! * integer to wider integer: sign-extension for signed sources,
//!   zero-extension for unsigned sources;
//! * integer to narrower or equal integer: low-bits truncation (wrap);
//! * any cast into or out of a mask: a lane converts to true exactly
//!   when it is nonzero, and the boolean is re-encoded canonically at
//!   the target width (all bits set or all bits clear).
//!
//! Casts that interpret floating-point values are not provided here;
//! the lane patterns of float vectors are opaque to this crate.

use vstd::prelude::*;
use crate::catalog::{
    all_ones, ones_of_width, sign_threshold, truncate_lane, valid_lane, valid_width,
    width_modulus, ElemKind, VectorType,
};
use crate::vector::Vector;
use vstd::arithmetic::div_mod::lemma_small_mod;

verus! {

/// What one lane pattern becomes under a cast from kind `sk` at width
/// `w1` to kind `dk` at width `w2`.
pub open spec fn cast_lane(sk: ElemKind, w1: u32, dk: ElemKind, w2: u32, x: u128) -> int {
    if sk is Mask || dk is Mask {
        if x == 0 {
            0
        } else {
            all_ones(w2)
        }
    } else if w2 <= w1 {
        (x as int) % width_modulus(w2)
    } else if sk is SignedInt {
        if (x as int) < width_modulus(w1) / 2 {
            x as int
        } else {
            x as int + width_modulus(w2) - width_modulus(w1)
        }
    } else {
        x as int
    }
}

/// [`cast_lane`] applied to every lane of a pattern sequence.
pub open spec fn cast_bits(sk: ElemKind, w1: u32, dk: ElemKind, w2: u32, b: Seq<u128>) -> Seq<
    u128,
> {
    Seq::new(b.len(), |i: int| cast_lane(sk, w1, dk, w2, b[i]) as u128)
}

/// The numeric value a lane pattern denotes: two's-complement for
/// signed kinds, the plain pattern otherwise.
pub open spec fn lane_value(kind: ElemKind, w: u32, x: u128) -> int {
    if kind is SignedInt {
        if (x as int) < width_modulus(w) / 2 {
            x as int
        } else {
            x as int - width_modulus(w)
        }
    } else {
        x as int
    }
}

/// Computes [`cast_lane`] on one lane.
pub(crate) fn cast_lane_exec(sk: ElemKind, w1: u32, dk: ElemKind, w2: u32, x: u128) -> (r: u128)
    requires
        valid_width(w1),
        valid_width(w2),
        valid_lane(sk, w1, x),
    ensures
        r as int == cast_lane(sk, w1, dk, w2, x),
        valid_lane(dk, w2, r),
{
    let mask_involved = sk == ElemKind::Mask || dk == ElemKind::Mask;
    if mask_involved {
        if x == 0 {
            0
        } else {
            ones_of_width(w2)
        }
    } else if w2 <= w1 {
        truncate_lane(x, w2)
    } else if sk == ElemKind::SignedInt {
        let ones1 = ones_of_width(w1);
        let ones2 = ones_of_width(w2);
        if x >= sign_threshold(w1) {
            x + (ones2 - ones1)
        } else {
            x
        }
    } else {
        proof {
            lemma_small_mod(x as nat, width_modulus(w2) as nat);
        }
        x
    }
}

impl Vector {
    /// Converts to a vector of equal lane count and possibly different
    /// element representation; see the module rules.
    pub fn cast(&self, target: VectorType) -> (r: Vector)
        requires
            self.inv(),
            target.wf(),
            target.lanes == self.vtype().lanes,
            !(self.vtype().kind is Float),
            !(target.kind is Float),
        ensures
            r.inv(),
            r.vtype() == target,
            r.bits() == cast_bits(
                self.vtype().kind,
                self.vtype().width,
                target.kind,
                target.width,
                self.bits(),
            ),
            forall|i: int|
                0 <= i < target.lanes ==> #[trigger] r.bits()[i] as int == cast_lane(
                    self.vtype().kind,
                    self.vtype().width,
                    target.kind,
                    target.width,
                    self.bits()[i],
                ),
    {
        let sty = self.get_type();
        let n = self.lane_count();
        let mut lanes: Vec<u128> = Vec::new();
        let mut i: usize = 0;
        while i < n
            invariant
                self.inv(),
                sty == self.vtype(),
                target.wf(),
                n == self.vtype().lanes,
                i <= n,
                lanes@.len() == i,
                forall|j: int|
                    0 <= j < i ==> #[trigger] lanes@[j] as int == cast_lane(
                        sty.kind,
                        sty.width,
                        target.kind,
                        target.width,
                        self.bits()[j],
                    ),
                forall|j: int|
                    0 <= j < i ==> valid_lane(target.kind, target.width, #[trigger] lanes@[j]),
            decreases n - i,
        {
            let x = self.extract(i);
            lanes.push(cast_lane_exec(sty.kind, sty.width, target.kind, target.width, x));
            i = i + 1;
        }
        proof {
            assert(lanes@ =~= cast_bits(sty.kind, sty.width, target.kind, target.width,
            self.bits()));
        }
        Vector::from_parts(target, lanes)
    }
}

/// Casting a vector of canonical mask lanes to another mask width and
/// back reproduces the original boolean pattern bit for bit.
pub proof fn lemma_mask_cast_round_trip(w1: u32, w2: u32, b: Seq<u128>)
    requires
        valid_width(w1),
        valid_width(w2),
        forall|i: int| 0 <= i < b.len() ==> valid_lane(ElemKind::Mask, w1, #[trigger] b[i]),
    ensures
        cast_bits(
            ElemKind::Mask,
            w2,
            ElemKind::Mask,
            w1,
            cast_bits(ElemKind::Mask, w1, ElemKind::Mask, w2, b),
        ) == b,
{
    let once = cast_bits(ElemKind::Mask, w1, ElemKind::Mask, w2, b);
    let twice = cast_bits(ElemKind::Mask, w2, ElemKind::Mask, w1, once);
    assert forall|i: int| 0 <= i < b.len() implies twice[i] == b[i] by {
        assert(valid_lane(ElemKind::Mask, w1, b[i]));
        if b[i] == 0 {
            assert(once[i] == 0);
        } else {
            assert(b[i] as int == all_ones(w1));
            assert(once[i] as int == all_ones(w2));
            assert(all_ones(w2) != 0);
        }
    }
    assert(twice =~= b);
}

/// A widening integer cast preserves the lane's numeric value: this is
/// what sign- or zero-extension means.
pub proof fn lemma_widening_cast_preserves_value(sk: ElemKind, w1: u32, w2: u32, x: u128)
    requires
        valid_width(w1),
        valid_width(w2),
        w1 <= w2,
        sk is SignedInt || sk is UnsignedInt,
        valid_lane(sk, w1, x),
    ensures
        lane_value(sk, w2, cast_lane(sk, w1, sk, w2, x) as u128) == lane_value(sk, w1, x),
{
    if w2 <= w1 {
        lemma_small_mod(x as nat, width_modulus(w2) as nat);
    }
}

} // verus!
