//! Vector values: immutable aggregates of lanes, each lane a raw bit
//! pattern of the type's element width.

use vstd::prelude::*;
use crate::catalog::{
    all_ones, is_valid_lane, ones_of_width, valid_lane, valid_width, ElemKind, VectorType,
};

verus! {

/// One vector value: a catalog type together with its lane patterns.
///
/// Every operation both demands and re-establishes [`Vector::inv`], so a
/// mask vector observed anywhere in the crate is in canonical encoding.
pub struct Vector {
    pub(crate) ty: VectorType,
    pub(crate) lanes: Vec<u128>,
}

impl Vector {
    /// The catalog type of this value.
    pub closed spec fn vtype(self) -> VectorType {
        self.ty
    }

    /// The lane bit patterns, low lane first.
    pub closed spec fn bits(self) -> Seq<u128> {
        self.lanes@
    }

    /// Well-formedness: a catalog type, one stored pattern per lane, and
    /// every pattern valid for the element kind and width.
    pub open spec fn inv(self) -> bool {
        &&& self.vtype().wf()
        &&& self.bits().len() == self.vtype().lanes
        &&& forall|i: int|
            0 <= i < self.bits().len() ==> valid_lane(
                self.vtype().kind,
                self.vtype().width,
                #[trigger] self.bits()[i],
            )
    }

    /// Crate-internal assembly of a value from its pieces; callers
    /// establish [`Vector::inv`] from the ensured equalities.
    pub(crate) fn from_parts(ty: VectorType, lanes: Vec<u128>) -> (r: Vector)
        ensures
            r.vtype() == ty,
            r.bits() == lanes@,
    {
        Vector { ty, lanes }
    }

    /// The number of lanes.
    pub fn lane_count(&self) -> (n: usize)
        ensures
            n == self.vtype().lanes,
    {
        self.ty.lanes
    }

    /// The catalog type.
    pub fn get_type(&self) -> (t: VectorType)
        ensures
            t == self.vtype(),
    {
        self.ty
    }

    /// Reads the pattern of lane `i`.
    pub fn extract(&self, i: usize) -> (x: u128)
        requires
            self.inv(),
            i < self.vtype().lanes,
        ensures
            x == self.bits()[i as int],
    {
        self.lanes[i]
    }

    /// Broadcast construction: every lane holds `x`.
    pub fn splat(ty: VectorType, x: u128) -> (r: Vector)
        requires
            ty.wf(),
            valid_lane(ty.kind, ty.width, x),
        ensures
            r.inv(),
            r.vtype() == ty,
            forall|i: int| 0 <= i < ty.lanes ==> #[trigger] r.bits()[i] == x,
    {
        let mut lanes: Vec<u128> = Vec::new();
        let mut i: usize = 0;
        while i < ty.lanes
            invariant
                i <= ty.lanes,
                lanes@.len() == i,
                forall|j: int| 0 <= j < i ==> #[trigger] lanes@[j] == x,
            decreases ty.lanes - i,
        {
            lanes.push(x);
            i = i + 1;
        }
        Vector { ty, lanes }
    }

    /// Construction from an explicit lane list; `Some` exactly when the
    /// list has the type's lane count and every pattern is valid.
    pub fn try_from_lanes(ty: VectorType, lanes: Vec<u128>) -> (r: Option<Vector>)
        requires
            ty.wf(),
        ensures
            r is Some <==> (lanes@.len() == ty.lanes && forall|i: int|
                0 <= i < lanes@.len() ==> valid_lane(ty.kind, ty.width, #[trigger] lanes@[i])),
            r is Some ==> r->Some_0.inv() && r->Some_0.vtype() == ty && r->Some_0.bits()
                == lanes@,
    {
        if lanes.len() != ty.lanes {
            return None;
        }
        let mut i: usize = 0;
        while i < lanes.len()
            invariant
                ty.wf(),
                i <= lanes@.len(),
                forall|j: int|
                    0 <= j < i ==> valid_lane(ty.kind, ty.width, #[trigger] lanes@[j]),
            decreases lanes@.len() - i,
        {
            if !is_valid_lane(ty.kind, ty.width, lanes[i]) {
                return None;
            }
            i = i + 1;
        }
        Some(Vector { ty, lanes })
    }

    /// A copy of this value with lane `i` replaced by `x`.
    pub fn replace(self, i: usize, x: u128) -> (r: Vector)
        requires
            self.inv(),
            i < self.vtype().lanes,
            valid_lane(self.vtype().kind, self.vtype().width, x),
        ensures
            r.inv(),
            r.vtype() == self.vtype(),
            r.bits() == self.bits().update(i as int, x),
    {
        let mut lanes = self.lanes;
        lanes[i] = x;
        Vector { ty: self.ty, lanes }
    }

    /// Structural equality: same catalog type and same lane patterns.
    pub fn equal(&self, other: &Vector) -> (r: bool)
        requires
            self.inv(),
            other.inv(),
        ensures
            r <==> (self.vtype() == other.vtype() && self.bits() == other.bits()),
    {
        if !(self.ty == other.ty) {
            assert(self.vtype() != other.vtype());
            return false;
        }
        let n = self.lanes.len();
        let mut i: usize = 0;
        while i < n
            invariant
                n == self.bits().len(),
                n == other.bits().len(),
                i <= n,
                forall|j: int| 0 <= j < i ==> self.bits()[j] == other.bits()[j],
            decreases n - i,
        {
            if self.lanes[i] != other.lanes[i] {
                return false;
            }
            i = i + 1;
        }
        proof {
            assert(self.bits() =~= other.bits());
        }
        true
    }

    /// The lane patterns as a plain list, low lane first.
    pub fn to_lanes(&self) -> (r: Vec<u128>)
        requires
            self.inv(),
        ensures
            r@ == self.bits(),
    {
        let mut out: Vec<u128> = Vec::new();
        let mut i: usize = 0;
        while i < self.lanes.len()
            invariant
                i <= self.bits().len(),
                out@ == self.bits().subrange(0, i as int),
            decreases self.bits().len() - i,
        {
            out.push(self.lanes[i]);
            proof {
                assert(out@ =~= self.bits().subrange(0, i + 1));
            }
            i = i + 1;
        }
        proof {
            assert(out@ =~= self.bits());
        }
        out
    }

    /// Mask construction from per-lane booleans: a true lane becomes all
    /// bits set at `width`, a false lane all bits clear.
    pub fn mask_from_bools(width: u32, flags: &Vec<bool>) -> (r: Vector)
        requires
            (VectorType { kind: ElemKind::Mask, width, lanes: flags@.len() as usize }).wf(),
        ensures
            r.inv(),
            r.vtype() == (VectorType { kind: ElemKind::Mask, width, lanes: flags@.len() as usize }),
            forall|i: int|
                0 <= i < flags@.len() ==> #[trigger] r.bits()[i] == (if flags@[i] {
                    all_ones(width) as u128
                } else {
                    0u128
                }),
    {
        let ty = VectorType { kind: ElemKind::Mask, width, lanes: flags.len() };
        let ones = ones_of_width(width);
        let mut lanes: Vec<u128> = Vec::new();
        let mut i: usize = 0;
        while i < flags.len()
            invariant
                valid_width(width),
                ones as int == all_ones(width),
                i <= flags@.len(),
                lanes@.len() == i,
                forall|j: int|
                    0 <= j < i ==> #[trigger] lanes@[j] == (if flags@[j] {
                        all_ones(width) as u128
                    } else {
                        0u128
                    }),
            decreases flags@.len() - i,
        {
            if flags[i] {
                lanes.push(ones);
            } else {
                lanes.push(0);
            }
            i = i + 1;
        }
        Vector { ty, lanes }
    }

    /// Lane-wise choice steered by a mask: lane `i` of the result is
    /// lane `i` of `a` where the mask lane is true, of `b` where false.
    pub fn select(&self, a: &Vector, b: &Vector) -> (r: Vector)
        requires
            self.inv(),
            a.inv(),
            b.inv(),
            self.vtype().kind is Mask,
            a.vtype() == b.vtype(),
            a.vtype().lanes == self.vtype().lanes,
        ensures
            r.inv(),
            r.vtype() == a.vtype(),
            forall|i: int|
                0 <= i < r.bits().len() ==> #[trigger] r.bits()[i] == (if self.bits()[i] != 0 {
                    a.bits()[i]
                } else {
                    b.bits()[i]
                }),
    {
        let n = self.lanes.len();
        let mut lanes: Vec<u128> = Vec::new();
        let mut i: usize = 0;
        while i < n
            invariant
                a.inv(),
                b.inv(),
                n == self.bits().len(),
                n == a.bits().len(),
                n == b.bits().len(),
                i <= n,
                lanes@.len() == i,
                forall|j: int|
                    0 <= j < i ==> #[trigger] lanes@[j] == (if self.bits()[j] != 0 {
                        a.bits()[j]
                    } else {
                        b.bits()[j]
                    }),
            decreases n - i,
        {
            if self.lanes[i] != 0 {
                lanes.push(a.lanes[i]);
            } else {
                lanes.push(b.lanes[i]);
            }
            i = i + 1;
        }
        Vector { ty: a.ty, lanes }
    }
}

} // verus!
