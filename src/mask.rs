//! The bit masks by which a search names the database indices it includes
//! or excludes.

use vstd::prelude::*;

verus! {

/// The largest database index that has a bit in a mask.
pub const MAX_MASK_INDEX: u32 = 64;

/// The bit position of database index `m`. The server counts the indices from
/// 18 on one place lower than their number.
pub open spec fn bit_position(m: u32) -> u32 {
    if m >= 18 {
        (m - 1) as u32
    } else {
        m
    }
}

/// Whether database index `m` has a bit in a mask.
pub open spec fn has_mask_bit(m: u32) -> bool {
    m <= MAX_MASK_INDEX
}

/// Whether every index of `s` has a bit in a mask.
pub open spec fn all_have_mask_bits(s: Seq<u32>) -> bool {
    forall|i: int| 0 <= i < s.len() ==> has_mask_bit(#[trigger] s[i])
}

/// The mask of the indices in `s`: each index toggles its bit, so an index that
/// occurs twice cancels out.
pub open spec fn bitmask(s: Seq<u32>) -> u64
    decreases s.len(),
{
    if s.len() == 0 {
        0
    } else {
        bitmask(s.drop_last()) ^ (1u64 << (bit_position(s.last()) as u64))
    }
}

/// Returns the mask of the database indices in `mask`.
pub fn generate_bitmask(mask: &Vec<u32>) -> (r: u64)
    requires
        all_have_mask_bits(mask@),
    ensures
        r == bitmask(mask@),
{
    let mut res: u64 = 0;
    let mut i: usize = 0;
    while i < mask.len()
        invariant
            i <= mask@.len(),
            all_have_mask_bits(mask@),
            res == bitmask(mask@.take(i as int)),
        decreases mask@.len() - i,
    {
        let m = mask[i];
        assert(has_mask_bit(mask@[i as int]));
        let offset: u32 = if m >= 18 {
            1
        } else {
            0
        };
        let shift: u64 = (m - offset) as u64;
        res = res ^ (1u64 << shift);
        assert(mask@.take(i as int + 1).drop_last() =~= mask@.take(i as int));
        i = i + 1;
    }
    assert(mask@.take(i as int) =~= mask@);
    res
}

/// Returns whether every index of `mask` has a bit in a mask.
pub fn mask_in_range(mask: &Vec<u32>) -> (r: bool)
    ensures
        r == all_have_mask_bits(mask@),
{
    let mut i: usize = 0;
    while i < mask.len()
        invariant
            i <= mask@.len(),
            forall|j: int| 0 <= j < i ==> has_mask_bit(#[trigger] mask@[j]),
        decreases mask@.len() - i,
    {
        if mask[i] > MAX_MASK_INDEX {
            return false;
        }
        i = i + 1;
    }
    true
}

} // verus!
