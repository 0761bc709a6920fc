//! The memory access layer: aligned and unaligned loads and stores
//! between a vector value and a caller-owned raw element buffer.

use vstd::prelude::*;
use crate::catalog::{elem_bytes, is_valid_lane, valid_lane, valid_width, ElemKind, VectorType};
use crate::vector::Vector;
use vstd::arithmetic::div_mod::{lemma_add_mod_noop, lemma_small_mod};
use vstd::arithmetic::mul::lemma_mul_inequality;

verus! {

/// A caller-owned contiguous run of elements of one kind and width,
/// together with the byte address of its first element.  The layer only
/// ever reads or writes inside the stated length.
pub struct Buffer {
    addr: usize,
    kind: ElemKind,
    width: u32,
    elems: Vec<u128>,
}

impl Buffer {
    /// Byte address of element 0.
    pub closed spec fn addr_spec(self) -> int {
        self.addr as int
    }

    /// Element kind of the buffer.
    pub closed spec fn kind(self) -> ElemKind {
        self.kind
    }

    /// Element width of the buffer, in bits.
    pub closed spec fn width(self) -> u32 {
        self.width
    }

    /// The element patterns held by the buffer.
    pub closed spec fn elems(self) -> Seq<u128> {
        self.elems@
    }

    /// Byte address of element `off`.
    pub open spec fn elem_addr(self, off: int) -> int {
        self.addr_spec() + off * elem_bytes(self.width())
    }

    /// Well-formedness: a valid width, a base address on an element
    /// boundary, no wrap-around past the address space, and every
    /// element pattern valid for the kind and width.
    pub open spec fn inv(self) -> bool {
        &&& valid_width(self.width())
        &&& self.addr_spec() % elem_bytes(self.width()) == 0
        &&& self.addr_spec() + self.elems().len() * elem_bytes(self.width()) <= usize::MAX as int
        &&& forall|i: int|
            0 <= i < self.elems().len() ==> valid_lane(
                self.kind(),
                self.width(),
                #[trigger] self.elems()[i],
            )
    }

    /// Checked constructor; `Some` exactly when the pieces satisfy
    /// [`Buffer::inv`].
    pub fn try_new(addr: usize, kind: ElemKind, width: u32, elems: Vec<u128>) -> (r: Option<
        Buffer,
    >)
        ensures
            r is Some <==> {
                &&& valid_width(width)
                &&& addr as int % elem_bytes(width) == 0
                &&& addr as int + elems@.len() * elem_bytes(width) <= usize::MAX as int
                &&& forall|i: int|
                    0 <= i < elems@.len() ==> valid_lane(kind, width, #[trigger] elems@[i])
            },
            r is Some ==> {
                &&& r->Some_0.inv()
                &&& r->Some_0.addr_spec() == addr as int
                &&& r->Some_0.kind() == kind
                &&& r->Some_0.width() == width
                &&& r->Some_0.elems() == elems@
            },
    {
        if !crate::catalog::is_valid_width(width) {
            return None;
        }
        let eb = (width / 8) as usize;
        if addr % eb != 0 {
            return None;
        }
        let len = elems.len();
        proof {
            assert((len as int) * (eb as int) <= 0x10_0000_0000_0000_0000int) by (nonlinear_arith)
                requires
                    len <= usize::MAX as int,
                    0 <= eb <= 16,
            ;
        }
        if (addr as u128) + (len as u128) * (eb as u128) > usize::MAX as u128 {
            proof {
                assert(addr as int + elems@.len() * elem_bytes(width) > usize::MAX as int);
            }
            return None;
        }
        let mut i: usize = 0;
        while i < elems.len()
            invariant
                valid_width(width),
                i <= elems@.len(),
                forall|j: int| 0 <= j < i ==> valid_lane(kind, width, #[trigger] elems@[j]),
            decreases elems@.len() - i,
        {
            if !is_valid_lane(kind, width, elems[i]) {
                return None;
            }
            i = i + 1;
        }
        Some(Buffer { addr, kind, width, elems })
    }

    /// Number of elements.
    pub fn len(&self) -> (n: usize)
        ensures
            n == self.elems().len(),
    {
        self.elems.len()
    }

    /// Byte address of element 0.
    pub fn base_addr(&self) -> (a: usize)
        ensures
            a as int == self.addr_spec(),
    {
        self.addr
    }

    /// Element kind.
    pub fn elem_kind(&self) -> (k: ElemKind)
        ensures
            k == self.kind(),
    {
        self.kind
    }

    /// Element width in bits.
    pub fn elem_width(&self) -> (w: u32)
        ensures
            w == self.width(),
    {
        self.width
    }

    /// Reads the pattern of element `i`.
    pub fn get(&self, i: usize) -> (x: u128)
        requires
            i < self.elems().len(),
        ensures
            x == self.elems()[i as int],
    {
        self.elems[i]
    }
}

/// What a load of `n` elements at `off` returns.
pub open spec fn load_spec(elems: Seq<u128>, off: int, n: int) -> Seq<u128> {
    elems.subrange(off, off + n)
}

/// What a buffer holds after `bits` is stored at `off`: the stored run
/// replaced, everything else untouched.
pub open spec fn store_spec(elems: Seq<u128>, off: int, bits: Seq<u128>) -> Seq<u128> {
    Seq::new(
        elems.len(),
        |i: int|
            if off <= i < off + bits.len() {
                bits[i - off]
            } else {
                elems[i]
            },
    )
}

/// Whether a whole vector of type `ty` starting at element `off` of the
/// buffer lies on the type's natural alignment boundary.
pub open spec fn aligned_at(buf: Buffer, off: int, ty: VectorType) -> bool {
    buf.elem_addr(off) % ty.align_bytes_spec() == 0
}

/// The length precondition shared by every load at `off`.
pub open spec fn load_len_ok(buf: Buffer, off: int, ty: VectorType) -> bool {
    off + ty.lanes <= buf.elems().len()
}

/// A buffer and a vector type that agree on element kind and width.
pub open spec fn buffer_matches(buf: Buffer, ty: VectorType) -> bool {
    buf.kind() == ty.kind && buf.width() == ty.width
}

impl Vector {
    /// Unaligned load whose length precondition the caller has already
    /// established: reads elements `offset .. offset + ty.lanes`.
    pub fn from_slice_unaligned_unchecked(ty: VectorType, buf: &Buffer, offset: usize) -> (r:
        Vector)
        requires
            ty.wf(),
            buf.inv(),
            buffer_matches(*buf, ty),
            load_len_ok(*buf, offset as int, ty),
        ensures
            r.inv(),
            r.vtype() == ty,
            r.bits() == load_spec(buf.elems(), offset as int, ty.lanes as int),
    {
        let blen = buf.len();
        let mut lanes: Vec<u128> = Vec::new();
        let mut i: usize = 0;
        while i < ty.lanes
            invariant
                buf.inv(),
                buffer_matches(*buf, ty),
                offset + ty.lanes <= buf.elems().len(),
                blen == buf.elems().len(),
                i <= ty.lanes,
                lanes@.len() == i,
                forall|j: int| 0 <= j < i ==> #[trigger] lanes@[j] == buf.elems()[offset + j],
            decreases ty.lanes - i,
        {
            lanes.push(buf.get(offset + i));
            i = i + 1;
        }
        proof {
            assert(lanes@ =~= load_spec(buf.elems(), offset as int, ty.lanes as int));
        }
        Vector::from_parts(ty, lanes)
    }

    /// Checked unaligned load: `Some` exactly when the buffer holds
    /// `ty.lanes` elements at `offset`.
    pub fn from_slice_unaligned(ty: VectorType, buf: &Buffer, offset: usize) -> (r: Option<
        Vector,
    >)
        requires
            ty.wf(),
            buf.inv(),
            buffer_matches(*buf, ty),
        ensures
            r is Some <==> load_len_ok(*buf, offset as int, ty),
            r is Some ==> {
                &&& r->Some_0.inv()
                &&& r->Some_0.vtype() == ty
                &&& r->Some_0.bits() == load_spec(buf.elems(), offset as int, ty.lanes as int)
            },
    {
        if offset <= buf.len() && buf.len() - offset >= ty.lanes {
            Some(Vector::from_slice_unaligned_unchecked(ty, buf, offset))
        } else {
            None
        }
    }

    /// Aligned load whose length and alignment preconditions the caller
    /// has already established.
    pub fn from_slice_aligned_unchecked(ty: VectorType, buf: &Buffer, offset: usize) -> (r:
        Vector)
        requires
            ty.wf(),
            buf.inv(),
            buffer_matches(*buf, ty),
            load_len_ok(*buf, offset as int, ty),
            aligned_at(*buf, offset as int, ty),
        ensures
            r.inv(),
            r.vtype() == ty,
            r.bits() == load_spec(buf.elems(), offset as int, ty.lanes as int),
    {
        Vector::from_slice_unaligned_unchecked(ty, buf, offset)
    }

    /// Checked aligned load: `Some` exactly when the buffer holds
    /// `ty.lanes` elements at `offset` *and* their first byte lies on
    /// the type's natural alignment boundary.
    pub fn from_slice_aligned(ty: VectorType, buf: &Buffer, offset: usize) -> (r: Option<Vector>)
        requires
            ty.wf(),
            buf.inv(),
            buffer_matches(*buf, ty),
        ensures
            r is Some <==> (load_len_ok(*buf, offset as int, ty) && aligned_at(
                *buf,
                offset as int,
                ty,
            )),
            r is Some ==> {
                &&& r->Some_0.inv()
                &&& r->Some_0.vtype() == ty
                &&& r->Some_0.bits() == load_spec(buf.elems(), offset as int, ty.lanes as int)
            },
    {
        if offset > buf.len() || buf.len() - offset < ty.lanes {
            return None;
        }
        let eb = (ty.width / 8) as usize;
        proof {
            lemma_mul_inequality(offset as int, buf.elems().len() as int, eb as int);
        }
        let target = buf.base_addr() + offset * eb;
        if target % ty.align_bytes() == 0 {
            Some(Vector::from_slice_aligned_unchecked(ty, buf, offset))
        } else {
            None
        }
    }

    /// Unaligned store whose length precondition the caller has already
    /// established: writes this vector's lanes to elements
    /// `offset .. offset + lanes`, touching nothing else.
    pub fn write_to_slice_unaligned_unchecked(&self, buf: &mut Buffer, offset: usize)
        requires
            self.inv(),
            old(buf).inv(),
            buffer_matches(*old(buf), self.vtype()),
            load_len_ok(*old(buf), offset as int, self.vtype()),
        ensures
            final(buf).inv(),
            final(buf).addr_spec() == old(buf).addr_spec(),
            final(buf).kind() == old(buf).kind(),
            final(buf).width() == old(buf).width(),
            final(buf).elems() == store_spec(old(buf).elems(), offset as int, self.bits()),
    {
        let ghost orig: Seq<u128> = buf.elems@;
        let n = self.lane_count();
        let blen = buf.len();
        let mut i: usize = 0;
        while i < n
            invariant
                self.inv(),
                n == self.vtype().lanes,
                offset + n <= orig.len(),
                blen == orig.len(),
                i <= n,
                buf.addr == old(buf).addr,
                buf.kind == old(buf).kind,
                buf.width == old(buf).width,
                buf.elems@.len() == orig.len(),
                forall|j: int| 0 <= j < i ==> buf.elems@[offset + j] == self.bits()[j],
                forall|k: int|
                    0 <= k < orig.len() && !(offset <= k < offset + i) ==> buf.elems@[k]
                        == orig[k],
            decreases n - i,
        {
            let x = self.extract(i);
            buf.elems[offset + i] = x;
            i = i + 1;
        }
        proof {
            assert(buf.elems@ =~= store_spec(orig, offset as int, self.bits()));
        }
    }

    /// Checked unaligned store: writes and returns true exactly when the
    /// buffer holds `lanes` elements at `offset`; otherwise leaves the
    /// buffer untouched.
    pub fn write_to_slice_unaligned(&self, buf: &mut Buffer, offset: usize) -> (ok: bool)
        requires
            self.inv(),
            old(buf).inv(),
            buffer_matches(*old(buf), self.vtype()),
        ensures
            ok <==> load_len_ok(*old(buf), offset as int, self.vtype()),
            final(buf).inv(),
            final(buf).addr_spec() == old(buf).addr_spec(),
            final(buf).kind() == old(buf).kind(),
            final(buf).width() == old(buf).width(),
            ok ==> final(buf).elems() == store_spec(
                old(buf).elems(),
                offset as int,
                self.bits(),
            ),
            !ok ==> final(buf).elems() == old(buf).elems(),
    {
        if offset <= buf.len() && buf.len() - offset >= self.lane_count() {
            self.write_to_slice_unaligned_unchecked(buf, offset);
            true
        } else {
            false
        }
    }

    /// Aligned store whose length and alignment preconditions the caller
    /// has already established.
    pub fn write_to_slice_aligned_unchecked(&self, buf: &mut Buffer, offset: usize)
        requires
            self.inv(),
            old(buf).inv(),
            buffer_matches(*old(buf), self.vtype()),
            load_len_ok(*old(buf), offset as int, self.vtype()),
            aligned_at(*old(buf), offset as int, self.vtype()),
        ensures
            final(buf).inv(),
            final(buf).addr_spec() == old(buf).addr_spec(),
            final(buf).kind() == old(buf).kind(),
            final(buf).width() == old(buf).width(),
            final(buf).elems() == store_spec(old(buf).elems(), offset as int, self.bits()),
    {
        self.write_to_slice_unaligned_unchecked(buf, offset);
    }

    /// Checked aligned store: writes and returns true exactly when the
    /// length and alignment preconditions hold; otherwise leaves the
    /// buffer untouched.
    pub fn write_to_slice_aligned(&self, buf: &mut Buffer, offset: usize) -> (ok: bool)
        requires
            self.inv(),
            old(buf).inv(),
            buffer_matches(*old(buf), self.vtype()),
        ensures
            ok <==> (load_len_ok(*old(buf), offset as int, self.vtype()) && aligned_at(
                *old(buf),
                offset as int,
                self.vtype(),
            )),
            final(buf).inv(),
            final(buf).addr_spec() == old(buf).addr_spec(),
            final(buf).kind() == old(buf).kind(),
            final(buf).width() == old(buf).width(),
            ok ==> final(buf).elems() == store_spec(
                old(buf).elems(),
                offset as int,
                self.bits(),
            ),
            !ok ==> final(buf).elems() == old(buf).elems(),
    {
        if offset > buf.len() || buf.len() - offset < self.lane_count() {
            return false;
        }
        let ty = self.get_type();
        let eb = (ty.width / 8) as usize;
        proof {
            lemma_mul_inequality(offset as int, buf.elems().len() as int, eb as int);
        }
        let target = buf.base_addr() + offset * eb;
        if target % ty.align_bytes() == 0 {
            self.write_to_slice_aligned_unchecked(buf, offset);
            true
        } else {
            false
        }
    }
}

/// Storing lane patterns and loading from the same offset hands the
/// very patterns back.
pub proof fn lemma_store_load_round_trip(elems: Seq<u128>, off: int, bits: Seq<u128>)
    requires
        0 <= off,
        off + bits.len() <= elems.len(),
    ensures
        load_spec(store_spec(elems, off, bits), off, bits.len() as int) == bits,
{
    assert(load_spec(store_spec(elems, off, bits), off, bits.len() as int) =~= bits);
}

/// An address one element past a boundary of a type's natural alignment
/// is misaligned for every type wider than one element.
pub proof fn lemma_misaligned_one_element(ty: VectorType, addr: int)
    requires
        ty.wf(),
        ty.lanes >= 2,
        addr >= 0,
        addr % ty.align_bytes_spec() == 0,
    ensures
        (addr + elem_bytes(ty.width)) % ty.align_bytes_spec() != 0,
{
    let eb = elem_bytes(ty.width);
    let al = ty.align_bytes_spec();
    assert(1 <= eb <= 16);
    lemma_mul_inequality(2, ty.lanes as int, eb);
    assert(eb * ty.lanes == ty.lanes as int * eb) by (nonlinear_arith);
    assert(0 < eb < al);
    lemma_add_mod_noop(addr, eb, al);
    lemma_small_mod(eb as nat, al as nat);
    assert((addr + eb) % al == eb);
}

} // verus!
