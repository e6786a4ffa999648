//! Bounds bookkeeping for the external SDRAM region.
//!
//! The memory itself is hardware: a statically mapped 64 MB region that the
//! rest of the system hands out as a slice. What is verified here is the
//! arithmetic that decides whether a typed slice of `len` elements at
//! `offset` fits inside the region; the unsafe slice construction stays
//! with the hardware layer, which consults `fits` first.
use vstd::prelude::*;

use vstd::arithmetic::mul::lemma_mul_inequality;
use vstd::arithmetic::mul::lemma_mul_is_commutative;

verus! {

/// Size of the SDRAM region, in bytes: 64 MB.
pub const SDRAM_SIZE: usize = 0x4000000;

/// `value` elements of type `T`, measured in bytes.
pub fn sized<T>(value: usize) -> (r: usize)
    requires
        value * vstd::layout::size_of::<T>() <= usize::MAX,
    ensures
        r == value * vstd::layout::size_of::<T>(),
{
    value * core::mem::size_of::<T>()
}

/// Whether `len` elements of type `T` at element offset `offset` end
/// strictly inside the SDRAM region.
pub fn fits<T>(offset: usize, len: usize) -> (r: bool)
    ensures
        r == ((offset + len) * vstd::layout::size_of::<T>() < SDRAM_SIZE),
{
    let size: usize = core::mem::size_of::<T>();
    if size == 0 {
        proof {
            vstd::arithmetic::mul::lemma_mul_by_zero_is_zero(offset + len);
        }
        return true;
    }
    match offset.checked_add(len) {
        Option::None => {
            proof {
                lemma_mul_inequality(1, size as int, offset + len);
                lemma_mul_is_commutative(size as int, offset + len);
            }
            false
        },
        Option::Some(total) => {
            match total.checked_mul(size) {
                Option::None => {
                    proof {
                        lemma_mul_is_commutative(size as int, offset + len);
                    }
                    false
                },
                Option::Some(bytes) => bytes < SDRAM_SIZE,
            }
        },
    }
}

} // verus!
