//! The truncating cast engine: conversion between vector shapes whose
//! lane count and element width move together downwards.
//!
//! Result lane `i`, for `i` below the target lane count, is the
//! low-order-bits truncation of source lane `i`; source lanes at or
//! beyond the target lane count are dropped entirely.  A boolean lane is
//! never partially preserved: a mask source or target re-encodes the
//! lane's truth value canonically at the target width, a lane counting
//! as true exactly when it is nonzero.
//!
//! No widening counterpart exists on purpose: widening conversions keep
//! their lane count and belong to the cast engine.

use vstd::prelude::*;
use crate::catalog::{all_ones, valid_lane, width_modulus, ElemKind, VectorType};
use crate::cast::cast_lane;
use crate::vector::Vector;

verus! {

/// What one lane pattern becomes under truncation to kind `dk` at the
/// narrower width `w2`.
pub open spec fn trunc_lane(sk: ElemKind, dk: ElemKind, w2: u32, x: u128) -> int {
    if sk is Mask || dk is Mask {
        if x == 0 {
            0
        } else {
            all_ones(w2)
        }
    } else {
        (x as int) % width_modulus(w2)
    }
}

/// [`trunc_lane`] applied to the first `n` lanes of a pattern sequence.
pub open spec fn trunc_bits(sk: ElemKind, dk: ElemKind, w2: u32, b: Seq<u128>, n: int) -> Seq<
    u128,
> {
    Seq::new(n as nat, |i: int| trunc_lane(sk, dk, w2, b[i]) as u128)
}

impl Vector {
    /// Truncating cast: keeps the low `target.lanes` lanes, each
    /// truncated to the target width; see the module rules.
    pub fn trunc_cast(&self, target: VectorType) -> (r: Vector)
        requires
            self.inv(),
            target.wf(),
            target.lanes <= self.vtype().lanes,
            target.width <= self.vtype().width,
            !(self.vtype().kind is Float),
            !(target.kind is Float),
        ensures
            r.inv(),
            r.vtype() == target,
            r.bits().len() == target.lanes,
            r.bits() == trunc_bits(
                self.vtype().kind,
                target.kind,
                target.width,
                self.bits(),
                target.lanes as int,
            ),
            forall|i: int|
                0 <= i < target.lanes ==> #[trigger] r.bits()[i] as int == trunc_lane(
                    self.vtype().kind,
                    target.kind,
                    target.width,
                    self.bits()[i],
                ),
    {
        let sty = self.get_type();
        let mut lanes: Vec<u128> = Vec::new();
        let mut i: usize = 0;
        while i < target.lanes
            invariant
                self.inv(),
                sty == self.vtype(),
                target.wf(),
                target.lanes <= self.vtype().lanes,
                target.width <= self.vtype().width,
                i <= target.lanes,
                lanes@.len() == i,
                forall|j: int|
                    0 <= j < i ==> #[trigger] lanes@[j] as int == trunc_lane(
                        sty.kind,
                        target.kind,
                        target.width,
                        self.bits()[j],
                    ),
                forall|j: int|
                    0 <= j < i ==> valid_lane(target.kind, target.width, #[trigger] lanes@[j]),
            decreases target.lanes - i,
        {
            let x = self.extract(i);
            let y = crate::cast::cast_lane_exec(sty.kind, sty.width, target.kind, target.width,
            x);
            proof {
                assert(trunc_lane(sty.kind, target.kind, target.width, x) == cast_lane(
                    sty.kind,
                    sty.width,
                    target.kind,
                    target.width,
                    x,
                ));
            }
            lanes.push(y);
            i = i + 1;
        }
        proof {
            assert(lanes@ =~= trunc_bits(sty.kind, target.kind, target.width, self.bits(),
            target.lanes as int));
        }
        Vector::from_parts(target, lanes)
    }
}

} // verus!
