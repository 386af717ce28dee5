//! Weights in few bits an element.

use crate::array::{Array, Function, NF4Config, apply, dequantize};
use crate::error::{LoraError, misfit};
use crate::shape::Shape;
use vstd::prelude::*;

verus! {

/// How a quantized weight is stored: in four bits an element, with levels that suit normally
/// distributed weights or that are small floating-point numbers, or in eight bits as integers.
#[derive(Clone, Copy, PartialEq, Eq, Structural, Debug)]
pub enum QuantScheme {
    NF4,
    FP4,
    Int8,
}

/// A quantized weight: what was quantized, how, and the sizes of what is stored: elements of four
/// bits two to a byte, elements of eight bits one to a byte, and one scale in single precision to
/// each block. What storing the scales in fewer bits saves is not counted.
#[derive(Debug)]
pub struct QuantizedTensor {
    /// The weight in single precision.
    pub weight: Array,
    pub config: NF4Config,
    pub scheme: QuantScheme,
    /// The number of bytes of the elements.
    pub data_len: usize,
    /// The number of scales, one to a block.
    pub absmax_len: usize,
}

/// Two elements to a byte.
pub open spec fn packed_len(n: int) -> int {
    n / 2 + n % 2
}

/// The number of bytes that `n` elements take.
pub open spec fn stored_len(n: int, scheme: QuantScheme) -> int {
    match scheme {
        QuantScheme::NF4 => packed_len(n),
        QuantScheme::FP4 => packed_len(n),
        QuantScheme::Int8 => n,
    }
}

/// The number of blocks, the last of which may be short.
pub open spec fn blocks(n: int, block_size: int) -> int {
    n / block_size + if n % block_size == 0 {
        0int
    } else {
        1int
    }
}

/// The weight is a matrix whose elements a machine word counts, and a block holds an element.
pub open spec fn quantizable(weight: Array, config: NF4Config) -> bool {
    &&& weight.fits
    &&& weight.shape is D2
    &&& weight.shape.countable()
    &&& weight.shape.count() <= usize::MAX
    &&& config.block_size > 0
}

/// The weight, in single precision and then quantized under the scheme.
pub open spec fn quantized(
    weight: Array,
    config: NF4Config,
    scheme: QuantScheme,
) -> QuantizedTensor {
    QuantizedTensor {
        weight: apply(Function::ToFloat32, weight),
        config,
        scheme,
        data_len: stored_len(weight.shape.count(), scheme) as usize,
        absmax_len: blocks(weight.shape.count(), config.block_size as int) as usize,
    }
}

/// The weight, in single precision and then quantized under the scheme. Refused for what is no
/// matrix, and for empty blocks.
pub(crate) fn quantize(weight: &Array, config: NF4Config, scheme: QuantScheme) -> (r: Result<
    QuantizedTensor,
    LoraError,
>)
    ensures
        match r {
            Ok(q) => quantizable(*weight, config) && q == quantized(*weight, config, scheme),
            Err(e) => e is Mlx && !quantizable(*weight, config),
        },
{
    let is_matrix = match weight.shape {
        Shape::D2(_, _) => true,
        _ => false,
    };
    if !weight.fits || !is_matrix || config.block_size == 0 {
        return Err(misfit());
    }
    match weight.shape.num_elements() {
        Some(n) => {
            if n > usize::MAX as u64 {
                return Err(misfit());
            }
            let n: usize = n as usize;
            let short: usize = if n % config.block_size == 0 {
                0
            } else {
                1
            };
            proof {
                let b = config.block_size as int;
                let q = n as int / b;
                if n as int % b != 0 {
                    assert(q + 1 <= n) by (nonlinear_arith)
                        requires
                            q == n as int / b,
                            b >= 1,
                            n as int % b != 0,
                            n as int >= 0,
                    ;
                }
            }
            let data_len: usize = match scheme {
                QuantScheme::NF4 => n / 2 + n % 2,
                QuantScheme::FP4 => n / 2 + n % 2,
                QuantScheme::Int8 => n,
            };
            Ok(
                QuantizedTensor {
                    weight: weight.apply(Function::ToFloat32),
                    config,
                    scheme,
                    data_len,
                    absmax_len: n / config.block_size + short,
                },
            )
        },
        None => Err(misfit()),
    }
}

impl QuantizedTensor {
    /// The weight as it comes back.
    pub open spec fn restored(self, rows: i32, columns: i32) -> Array {
        dequantize(self.weight, self.config, self.scheme, rows, columns)
    }

    /// The bytes of the elements and of the scales.
    pub open spec fn bytes(self) -> nat {
        (self.data_len + self.absmax_len * 4) as nat
    }
}

} // verus!
