//! The tunables that a caller hands to a segmentation run.

use vstd::prelude::*;

verus! {

/// The parameters of one segmentation run.
///
/// The voxel size is a single-precision number. It is held as the 32 bits of
/// that number, so that two parameter sets are equal exactly when their bits are.
#[derive(Clone, Copy, Debug, PartialEq, Eq, Structural)]
pub struct SegmentationParams {
    voxel_size: u32,
}

impl SegmentationParams {
    /// Parameters with the voxel size whose bits are `bits`.
    pub fn from_voxel_bits(bits: u32) -> (params: SegmentationParams)
        ensures
            params == params_with_bits(bits),
            params.voxel_bits() == bits,
    {
        SegmentationParams { voxel_size: bits }
    }

    /// The bits of the voxel size.
    pub closed spec fn voxel_bits(&self) -> u32 {
        self.voxel_size
    }

    /// The bits of the voxel size.
    pub fn voxel_size_bits(&self) -> (bits: u32)
        ensures
            bits == self.voxel_bits(),
    {
        self.voxel_size
    }
}

impl Default for SegmentationParams {
    /// The default voxel size is zero, whose bits are all clear.
    fn default() -> (params: SegmentationParams)
        ensures
            params == params_with_bits(0),
            params.voxel_bits() == 0,
    {
        SegmentationParams { voxel_size: 0 }
    }
}

/// The parameter set whose voxel size has the given bits.
pub closed spec fn params_with_bits(bits: u32) -> SegmentationParams {
    SegmentationParams { voxel_size: bits }
}

/// The parameter set made for given bits has those bits.
pub broadcast proof fn lemma_params_with_bits(bits: u32)
    ensures
        (#[trigger] params_with_bits(bits)).voxel_bits() == bits,
{
}

/// Two parameter sets with the same voxel bits are the same parameter set.
pub proof fn lemma_params_by_bits(a: SegmentationParams, b: SegmentationParams)
    requires
        a.voxel_bits() == b.voxel_bits(),
    ensures
        a == b,
{
}

} // verus!
