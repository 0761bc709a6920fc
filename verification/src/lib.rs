//! Portable packed SIMD vectors.
//!
//! A family of fixed-width vector values, identified by an element kind,
//! an element width in bits, and a power-of-two lane count.  The crate
//! provides the cross-type data-movement core of such a library:
//!
//! * same-lane-count casts between element representations, including
//!   canonical mask reinterpretation ([`vector::Vector::cast`]);
//! * lane-count-reducing truncating casts ([`vector::Vector::trunc_cast`]);
//! * arbitrary lane shuffles over one or two source vectors
//!   ([`shuffle`]);
//! * aligned and unaligned loads and stores between vectors and raw
//!   element buffers ([`memory`]);
//! * backend selection for the math-approximation layer ([`math`]).
//!
//! Lanes are carried as raw bit patterns (`u128` holds every supported
//! width), so the same verified engines serve integer, mask and
//! floating-point vectors alike; floating-point *arithmetic* is left to
//! the caller, which owns the element interpretation.

pub mod catalog;
pub mod vector;
pub mod memory;
pub mod cast;
pub mod trunc;
pub mod shuffle;
pub mod math;
