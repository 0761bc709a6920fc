//! The shuffle engine: arbitrary lane permutation and combination over
//! one or two same-type source vectors.
//!
//! An index list of length `m` (a power of two below 64, at most twice
//! the source lane count) produces a result of `m` lanes and the
//! sources' element kind and width.  Index `k` below the source lane
//! count `n` selects lane `k` of the first source; index `k` in
//! `[n, 2n)` selects lane `k - n` of the second.  Because `m` is free of
//! the source lane count, shuffling is the mechanism for both widening
//! and narrowing reshapes.

use vstd::prelude::*;
use crate::catalog::{elem_bytes, valid_lane, VectorType};
use crate::vector::Vector;

verus! {

/// The index-list lengths the engine admits: powers of two in [1, 64).
pub open spec fn shuffle_len_ok(n: int) -> bool {
    n == 1 || n == 2 || n == 4 || n == 8 || n == 16 || n == 32
}

/// Lane selection: result lane `j` is the lane of `b0 + b1` that
/// `idx[j]` names.
pub open spec fn shuffle_sel(b0: Seq<u128>, b1: Seq<u128>, idx: Seq<usize>) -> Seq<u128> {
    Seq::new(
        idx.len(),
        |j: int|
            if (idx[j] as int) < b0.len() {
                b0[idx[j] as int]
            } else {
                b1[idx[j] - b0.len()]
            },
    )
}

/// The catalog type of a shuffle's result: the sources' element kind
/// and width, one lane per index.
pub open spec fn shuffle_result_type(src: VectorType, m: int) -> VectorType {
    VectorType { kind: src.kind, width: src.width, lanes: m as usize }
}

/// Everything a shuffle demands of its inputs: same-type sources, an
/// admissible index count no greater than twice the source lane count,
/// every index inside the two-source range, and a result shape the
/// catalog registers.
pub open spec fn shuffle_args_ok(v0: Vector, v1: Vector, idx: Seq<usize>) -> bool {
    &&& v0.vtype() == v1.vtype()
    &&& shuffle_len_ok(idx.len() as int)
    &&& idx.len() <= 2 * v0.vtype().lanes
    &&& forall|j: int| 0 <= j < idx.len() ==> (#[trigger] idx[j]) < 2 * v0.vtype().lanes
    &&& shuffle_result_type(v0.vtype(), idx.len() as int).wf()
}

/// Runtime test for [`shuffle_len_ok`].
pub fn is_shuffle_len(n: usize) -> (r: bool)
    ensures
        r == shuffle_len_ok(n as int),
{
    n == 1 || n == 2 || n == 4 || n == 8 || n == 16 || n == 32
}

/// Two-vector shuffle whose preconditions the caller has established.
pub fn shuffle2(v0: &Vector, v1: &Vector, indices: &Vec<usize>) -> (r: Vector)
    requires
        v0.inv(),
        v1.inv(),
        shuffle_args_ok(*v0, *v1, indices@),
    ensures
        r.inv(),
        r.vtype() == shuffle_result_type(v0.vtype(), indices@.len() as int),
        r.bits() == shuffle_sel(v0.bits(), v1.bits(), indices@),
        forall|j: int|
            0 <= j < indices@.len() ==> #[trigger] r.bits()[j] == (if (indices@[j] as int)
                < v0.vtype().lanes {
                v0.bits()[indices@[j] as int]
            } else {
                v1.bits()[indices@[j] - v0.vtype().lanes]
            }),
{
    let src = v0.get_type();
    let n = v0.lane_count();
    let m = indices.len();
    let ty = VectorType { kind: src.kind, width: src.width, lanes: m };
    let mut lanes: Vec<u128> = Vec::new();
    let mut j: usize = 0;
    while j < m
        invariant
            v0.inv(),
            v1.inv(),
            shuffle_args_ok(*v0, *v1, indices@),
            src == v0.vtype(),
            n == v0.vtype().lanes,
            m == indices@.len(),
            j <= m,
            lanes@.len() == j,
            forall|k: int| 0 <= k < j ==> #[trigger] lanes@[k] == shuffle_sel(
                v0.bits(),
                v1.bits(),
                indices@,
            )[k],
        decreases m - j,
    {
        let sel = indices[j];
        if sel < n {
            lanes.push(v0.extract(sel));
        } else {
            lanes.push(v1.extract(sel - n));
        }
        j = j + 1;
    }
    proof {
        assert(lanes@ =~= shuffle_sel(v0.bits(), v1.bits(), indices@));
        assert forall|i: int| 0 <= i < lanes@.len() implies valid_lane(
            ty.kind,
            ty.width,
            #[trigger] lanes@[i],
        ) by {
            assert(lanes@[i] == shuffle_sel(v0.bits(), v1.bits(), indices@)[i]);
        }
    }
    Vector::from_parts(ty, lanes)
}

/// One-vector shuffle: defined as the two-vector shuffle of the vector
/// with itself, so indices in `[n, 2n)` wrap to the same source.
pub fn shuffle1(v: &Vector, indices: &Vec<usize>) -> (r: Vector)
    requires
        v.inv(),
        shuffle_args_ok(*v, *v, indices@),
    ensures
        r.inv(),
        r.vtype() == shuffle_result_type(v.vtype(), indices@.len() as int),
        r.bits() == shuffle_sel(v.bits(), v.bits(), indices@),
{
    shuffle2(v, v, indices)
}

/// Checked two-vector shuffle: `Some` exactly when the index list is an
/// admissible shuffle of the two sources; the out-of-range cases are
/// rejected before any result is produced.
pub fn try_shuffle2(v0: &Vector, v1: &Vector, indices: &Vec<usize>) -> (r: Option<Vector>)
    requires
        v0.inv(),
        v1.inv(),
    ensures
        r is Some <==> shuffle_args_ok(*v0, *v1, indices@),
        r is Some ==> {
            &&& r->Some_0.inv()
            &&& r->Some_0.vtype() == shuffle_result_type(v0.vtype(), indices@.len() as int)
            &&& r->Some_0.bits() == shuffle_sel(v0.bits(), v1.bits(), indices@)
        },
{
    let t0 = v0.get_type();
    let t1 = v1.get_type();
    if !(t0 == t1) {
        return None;
    }
    let m = indices.len();
    if !is_shuffle_len(m) {
        return None;
    }
    let n = v0.lane_count();
    if m > 2 * n {
        return None;
    }
    if ((t0.width / 8) as usize) * m > 64 {
        proof {
            assert(elem_bytes(t0.width) * m > 64);
        }
        return None;
    }
    let mut j: usize = 0;
    while j < m
        invariant
            v0.inv(),
            m == indices@.len(),
            n == v0.vtype().lanes,
            2 * n <= 128,
            j <= m,
            forall|k: int| 0 <= k < j ==> (#[trigger] indices@[k]) < 2 * n,
        decreases m - j,
    {
        if indices[j] >= 2 * n {
            return None;
        }
        j = j + 1;
    }
    Some(shuffle2(v0, v1, indices))
}

/// The identity index list shuffles a vector to itself.
pub proof fn lemma_identity_shuffle(b: Seq<u128>, idx: Seq<usize>)
    requires
        idx.len() == b.len(),
        forall|j: int| 0 <= j < idx.len() ==> #[trigger] idx[j] == j,
    ensures
        shuffle_sel(b, b, idx) == b,
{
    assert(shuffle_sel(b, b, idx) =~= b);
}

/// The index list `[0, 2n)` concatenates the two sources: result lane
/// `i` is `b0[i]` below `n` and `b1[i - n]` from `n` on.
pub proof fn lemma_concat_shuffle(b0: Seq<u128>, b1: Seq<u128>, idx: Seq<usize>)
    requires
        b0.len() == b1.len(),
        idx.len() == 2 * b0.len(),
        forall|j: int| 0 <= j < idx.len() ==> #[trigger] idx[j] == j,
    ensures
        shuffle_sel(b0, b1, idx) == b0 + b1,
        forall|i: int|
            0 <= i < b0.len() ==> #[trigger] shuffle_sel(b0, b1, idx)[i] == b0[i],
        forall|i: int|
            b0.len() <= i < 2 * b0.len() ==> #[trigger] shuffle_sel(b0, b1, idx)[i] == b1[
                i - b0.len()
            ],
{
    assert(shuffle_sel(b0, b1, idx) =~= b0 + b1);
}

} // verus!
