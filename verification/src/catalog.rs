//! The vector type catalog: the closed set of (element kind, element
//! width, lane count) shapes that every other component works over.

use vstd::prelude::*;

verus! {

/// The kind of scalar held by each lane of a vector.
#[derive(Clone, Copy, Debug, PartialEq, Eq, Structural)]
pub enum ElemKind {
    /// Two's-complement signed integers.
    SignedInt,
    /// Unsigned integers.
    UnsignedInt,
    /// Floating-point values, carried as opaque bit patterns.
    Float,
    /// Per-lane booleans in canonical encoding: true is all bits set,
    /// false is all bits clear.
    Mask,
}

/// A catalog entry: one vector shape.
#[derive(Clone, Copy, Debug, PartialEq, Eq, Structural)]
pub struct VectorType {
    pub kind: ElemKind,
    /// Element width in bits.
    pub width: u32,
    /// Number of lanes.
    pub lanes: usize,
}

/// The element widths the catalog admits, in bits.
pub open spec fn valid_width(w: u32) -> bool {
    w == 8 || w == 16 || w == 32 || w == 64 || w == 128
}

/// Number of bit patterns of an element width: `2^w`.
pub open spec fn width_modulus(w: u32) -> int {
    if w == 8 {
        0x100
    } else if w == 16 {
        0x1_0000
    } else if w == 32 {
        0x1_0000_0000
    } else if w == 64 {
        0x1_0000_0000_0000_0000
    } else {
        0x1_0000_0000_0000_0000_0000_0000_0000_0000int
    }
}

/// The all-bits-set pattern of an element width.
pub open spec fn all_ones(w: u32) -> int {
    width_modulus(w) - 1
}

/// Bytes per element of a valid width.
pub open spec fn elem_bytes(w: u32) -> int {
    w as int / 8
}

/// The lane counts the catalog admits: powers of two up to 64.
pub open spec fn valid_lane_count(n: usize) -> bool {
    n == 1 || n == 2 || n == 4 || n == 8 || n == 16 || n == 32 || n == 64
}

/// A lane pattern that fits its element width.
pub open spec fn lane_fits(x: u128, w: u32) -> bool {
    (x as int) < width_modulus(w)
}

/// The canonical boolean encodings at a width: all clear or all set.
pub open spec fn canonical_mask_lane(x: u128, w: u32) -> bool {
    x == 0 || x as int == all_ones(w)
}

/// What every stored lane of a given kind and width satisfies.
pub open spec fn valid_lane(kind: ElemKind, w: u32, x: u128) -> bool {
    &&& lane_fits(x, w)
    &&& kind is Mask ==> canonical_mask_lane(x, w)
}

impl VectorType {
    /// Catalog membership: valid width and lane count, and a total size
    /// of at most 64 bytes (512 bits).
    pub open spec fn wf(self) -> bool {
        &&& valid_width(self.width)
        &&& valid_lane_count(self.lanes)
        &&& elem_bytes(self.width) * self.lanes <= 64
    }

    /// Total size in bytes; also the type's required memory alignment.
    pub open spec fn align_bytes_spec(self) -> int {
        elem_bytes(self.width) * self.lanes
    }

    /// Checked constructor: `Some` exactly for catalog-registered shapes.
    pub fn try_new(kind: ElemKind, width: u32, lanes: usize) -> (r: Option<VectorType>)
        ensures
            r is Some <==> (VectorType { kind, width, lanes }).wf(),
            r is Some ==> r->Some_0 == (VectorType { kind, width, lanes }),
    {
        if is_valid_width(width) && is_valid_lane_count(lanes)
            && ((width / 8) as usize) * lanes <= 64
        {
            Some(VectorType { kind, width, lanes })
        } else {
            None
        }
    }

    /// Required alignment in bytes, equal to the total byte size.
    pub fn align_bytes(&self) -> (r: usize)
        requires
            self.wf(),
        ensures
            r as int == self.align_bytes_spec(),
            1 <= r <= 64,
    {
        ((self.width / 8) as usize) * self.lanes
    }
}

/// Runtime test for [`valid_width`].
pub fn is_valid_width(w: u32) -> (r: bool)
    ensures
        r == valid_width(w),
{
    w == 8 || w == 16 || w == 32 || w == 64 || w == 128
}

/// Runtime test for [`valid_lane_count`].
pub fn is_valid_lane_count(n: usize) -> (r: bool)
    ensures
        r == valid_lane_count(n),
{
    n == 1 || n == 2 || n == 4 || n == 8 || n == 16 || n == 32 || n == 64
}

/// The all-bits-set pattern of a valid width.
pub fn ones_of_width(w: u32) -> (r: u128)
    requires
        valid_width(w),
    ensures
        r as int == all_ones(w),
{
    if w == 8 {
        0xFF
    } else if w == 16 {
        0xFFFF
    } else if w == 32 {
        0xFFFF_FFFF
    } else if w == 64 {
        0xFFFF_FFFF_FFFF_FFFF
    } else {
        0xFFFF_FFFF_FFFF_FFFF_FFFF_FFFF_FFFF_FFFF
    }
}

/// The smallest pattern whose sign bit is set at a valid width: `2^(w-1)`.
pub fn sign_threshold(w: u32) -> (r: u128)
    requires
        valid_width(w),
    ensures
        r as int == width_modulus(w) / 2,
{
    if w == 8 {
        0x80
    } else if w == 16 {
        0x8000
    } else if w == 32 {
        0x8000_0000
    } else if w == 64 {
        0x8000_0000_0000_0000
    } else {
        0x8000_0000_0000_0000_0000_0000_0000_0000
    }
}

/// Keep the low `w` bits of a lane pattern.
pub fn truncate_lane(x: u128, w: u32) -> (r: u128)
    requires
        valid_width(w),
    ensures
        r as int == (x as int) % width_modulus(w),
{
    if w == 8 {
        x % 0x100
    } else if w == 16 {
        x % 0x1_0000
    } else if w == 32 {
        x % 0x1_0000_0000
    } else if w == 64 {
        x % 0x1_0000_0000_0000_0000
    } else {
        proof {
            vstd::arithmetic::div_mod::lemma_small_mod(x as nat, width_modulus(128) as nat);
        }
        x
    }
}

/// Runtime test for [`valid_lane`].
pub fn is_valid_lane(kind: ElemKind, w: u32, x: u128) -> (r: bool)
    requires
        valid_width(w),
    ensures
        r == valid_lane(kind, w, x),
{
    let ones = ones_of_width(w);
    if x > ones {
        false
    } else {
        match kind {
            ElemKind::Mask => x == 0 || x == ones,
            _ => true,
        }
    }
}

} // verus!
