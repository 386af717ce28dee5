//! Floating-point settings, carried as bits and as formulas.

use vstd::prelude::*;

verus! {

/// An IEEE single, by its bits. The library carries such numbers to the tensor runtime and
/// never computes with them.
#[derive(Clone, Copy, PartialEq, Eq, Structural, Debug)]
pub struct F32 {
    pub bits: u32,
}

/// The bits of `1.0`.
pub const ONE_BITS: u32 = 0x3f80_0000;

/// The bits of `2.0`.
pub const TWO_BITS: u32 = 0x4000_0000;

/// A factor, as the formula that the runtime evaluates.
#[derive(Clone, Copy, PartialEq, Eq, Structural, Debug)]
pub enum Scale {
    /// `alpha / rank`.
    AlphaOverRank { alpha: F32, rank: i32 },
    /// `alpha / sqrt(rank)`: rank-stabilized scaling.
    AlphaOverSqrtRank { alpha: F32, rank: i32 },
    /// `1 / sqrt(n)`.
    InverseSqrt { n: i32 },
    /// The square of `1 / sqrt(n)`.
    InverseSqrtSquared { n: i32 },
    /// The number itself.
    Value { value: F32 },
}

/// The factor of an adapter: `alpha / sqrt(rank)` when rank-stabilized, else `alpha / rank`.
pub open spec fn adapter_scale(alpha: F32, rank: i32, use_rslora: bool) -> Scale {
    if use_rslora {
        Scale::AlphaOverSqrtRank { alpha, rank }
    } else {
        Scale::AlphaOverRank { alpha, rank }
    }
}

pub(crate) fn make_adapter_scale(alpha: F32, rank: i32, use_rslora: bool) -> (r: Scale)
    ensures
        r == adapter_scale(alpha, rank, use_rslora),
{
    if use_rslora {
        Scale::AlphaOverSqrtRank { alpha, rank }
    } else {
        Scale::AlphaOverRank { alpha, rank }
    }
}

} // verus!
