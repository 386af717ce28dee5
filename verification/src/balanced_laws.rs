//! What a quantized layer with projections around its adapter starts from.

use crate::array::{Array, Function, Node, Source};
use crate::config::LoraConfig;
use crate::lora::lemma_matrix_count;
use crate::qblora::{QBLoraConfig, QBLoraLinear};
use crate::qlora::QLoraConfig;
use crate::reading::{first_of, group_nodes, is_function, is_quotient, second_of};
use crate::shape::Shape;
use crate::starting_laws::{is_alpha_over, is_idle_pair, is_matrix};
use vstd::prelude::*;

verus! {

/// The width between a projection and an adapter: that of the settings, else that of the layer.
pub open spec fn is_width(w: int, given: Option<usize>, n: int) -> bool {
    match given {
        Some(m) => w == m,
        None => w == n,
    }
}

/// A drawn matrix divided by the root of the sums of its squares, along the axis that has so many
/// behind it.
pub open spec fn is_unit_length(x: Array, behind: int) -> bool {
    let drawn = first_of(x);
    &&& is_quotient(x, drawn, second_of(x))
    &&& *drawn.node == Node::Source(Source::Normal)
    &&& is_function(second_of(x), Function::Sqrt, first_of(second_of(x)))
    &&& *first_of(second_of(x)).node matches Node::SumAxis { x: squares, depth } && depth == behind
        && is_function(squares, Function::Square, drawn)
}

/// A projection of so many rows and columns: trainable ones are drawn evenly, others have columns
/// or rows of unit length.
pub open spec fn projection_starts(
    x: Array,
    rows: int,
    columns: int,
    learnable: bool,
    behind: int,
) -> bool {
    if learnable {
        &&& is_matrix(x, rows, columns)
        &&& *x.node matches Node::Source(Source::Uniform { fan_in: n }) && n == rows
    } else {
        &&& is_matrix(first_of(x), rows, columns)
        &&& is_unit_length(x, behind)
    }
}

/// The settings where none but those of the adapters are given.
pub proof fn law_quantized_defaults(lora: LoraConfig)
    ensures
        QLoraConfig::of(lora).lora == lora,
        QLoraConfig::of(lora).quant_scheme is NF4,
        QLoraConfig::of(lora).block_size == 64,
        QLoraConfig::of(lora).double_quant,
        QLoraConfig::of(lora).compute_in_half,
        QBLoraConfig::of(lora).lora == lora,
        QBLoraConfig::of(lora).quant_scheme is NF4,
        QBLoraConfig::of(lora).block_size == 64,
        QBLoraConfig::of(lora).double_quant,
        QBLoraConfig::of(lora).input_proj_dim is None,
        QBLoraConfig::of(lora).output_proj_dim is None,
        QBLoraConfig::of(lora).rank_multiplier.bits == 0x4000_0000,
        lora.valid() ==> QBLoraConfig::of(lora).multiplied_rank == 2 * lora.r,
        QBLoraConfig::of(lora).learnable_projections,
        QBLoraConfig::of(lora).gradient_scale.bits == 0x3f80_0000,
{
}

/// A layer made on a weight keeps it quantized, and between the projections of the settings has an
/// adapter of the multiplied rank that adds nothing yet.
pub proof fn law_balanced_starts(
    weight: Array,
    bias: Option<Array>,
    config: QBLoraConfig,
    inner: i32,
    outer: i32,
)
    requires
        config.valid(),
        weight.shape == Shape::D2(outer, inner),
    ensures
        ({
            let l = QBLoraLinear::on(weight, bias, config);
            let r = config.multiplied_rank as int;
            &&& l.in_features == inner && l.out_features == outer && l.rank == r
            &&& is_function(l.quantized_weight.weight, Function::ToFloat32, weight)
            &&& l.quantized_weight.scheme == config.quant_scheme
            &&& l.quantized_weight.config.block_size == config.block_size
            &&& l.quantized_weight.config.double_quant == config.double_quant
            &&& l.bias == bias && (l.use_bias <==> bias is Some)
            &&& is_alpha_over(l.scale, config.lora.alpha, r, config.lora.use_rslora)
            &&& l.input_proj is Some <==> config.input_proj_dim is Some
            &&& l.output_proj is Some <==> config.output_proj_dim is Some
            &&& l.lora_a.shape matches Shape::D2(m, n) && m == r && is_width(
                n as int,
                config.input_proj_dim,
                inner as int,
            )
            &&& l.lora_b.shape matches Shape::D2(m, n) && n == r && is_width(
                m as int,
                config.output_proj_dim,
                outer as int,
            )
            &&& is_idle_pair(
                l.lora_a,
                l.lora_b,
                l.lora_a.shape.dims()[1] as int,
                l.lora_b.shape.dims()[0] as int,
                r,
            )
            &&& l.input_proj matches Some(p) ==> projection_starts(
                p,
                inner as int,
                config.input_proj_dim->0 as int,
                config.learnable_projections,
                1,
            )
            &&& l.output_proj matches Some(p) ==> projection_starts(
                p,
                config.output_proj_dim->0 as int,
                outer as int,
                config.learnable_projections,
                0,
            )
            &&& l.learnable_projections == config.learnable_projections
            &&& l.gradient_scale == config.gradient_scale
            &&& l.weight_cache is None
        }),
{
    broadcast use group_nodes;

}

/// The trainable elements of such a layer: those of the two matrices and, where they are
/// trainable, those of the projections.
pub proof fn law_balanced_count(
    weight: Array,
    bias: Option<Array>,
    config: QBLoraConfig,
    inner: i32,
    outer: i32,
    narrow: i32,
    wide: i32,
)
    requires
        config.valid(),
        weight.shape == Shape::D2(outer, inner),
        inner >= 0,
        outer >= 0,
        config.input_proj_dim == Some(narrow as usize),
        config.output_proj_dim == Some(wide as usize),
        narrow >= 0,
        wide >= 0,
        config.learnable_projections,
    ensures
        ({
            let l = QBLoraLinear::on(weight, bias, config);
            let r = config.multiplied_rank as int;
            l.trainable() == r * narrow + wide * r + inner * narrow + wide * outer
        }),
{
    let r = config.multiplied_rank as i32;
    lemma_matrix_count(r, narrow);
    lemma_matrix_count(wide, r);
    lemma_matrix_count(inner, narrow);
    lemma_matrix_count(wide, outer);
    vstd::arithmetic::mul::lemma_mul_nonnegative(r as int, narrow as int);
    vstd::arithmetic::mul::lemma_mul_nonnegative(wide as int, r as int);
    vstd::arithmetic::mul::lemma_mul_nonnegative(inner as int, narrow as int);
    vstd::arithmetic::mul::lemma_mul_nonnegative(wide as int, outer as int);
}

} // verus!
