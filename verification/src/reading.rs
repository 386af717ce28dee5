//! What arrays are made from, read off their nodes.
//!
//! The functions here take nodes apart. They know nothing of the layers that build them, so what
//! is stated over them holds of the nodes and not of the way in which a layer describes itself.

use crate::array::{
    Args, Arithmetic, Array, Function, FusedAttentionConfig, Kernel, NF4Config, Node, RopeConfig,
    Source, apply, args_fit, attend, broadcast_to, combine, concat, dequantize, embed, flash_attend,
    kernel, matmul, reshape, reshape_rest, rms_norm, rope, rope_at, slice, stack_onto, sum_axis,
    swap_inner, swap_middle, transpose,
};
use crate::dora::{DoraLinear, LinearAdapter};
use crate::lora::LoraLinear;
use crate::nn::Linear;
use crate::qblora::QBLoraLinear;
use crate::qlora::{QLoraConfig, QLoraLinear};
use crate::quantization::{QuantScheme, QuantizedTensor};
use crate::scalar::{F32, Scale};
use crate::shape::Shape;
use vstd::prelude::*;

verus! {

/// What an array is made from in the first place: its only operand, or the first of several.
pub open spec fn first_of(y: Array) -> Array {
    match *y.node {
        Node::Source(_) => y,
        Node::Apply(_, x) => x,
        Node::Combine(_, a, _) => a,
        Node::Matmul(a, _) => a,
        Node::Transpose(x) => x,
        Node::SwapMiddle(x) => x,
        Node::SwapInner(x) => x,
        Node::Reshape(x) => x,
        Node::BroadcastTo(x) => x,
        Node::Slice { x, .. } => x,
        Node::Concat { a, .. } => a,
        Node::Dequantize { weight, .. } => weight,
        Node::SumAxis { x, .. } => x,
        Node::StackOnto(a, _) => a,
        Node::Kernel(_, _) => y,
        Node::RmsNorm { x, .. } => x,
        Node::Embed { ids, .. } => ids,
        Node::Rope { x, .. } => x,
        Node::RopeAt { x, .. } => x,
        Node::Attend { q, .. } => q,
        Node::FlashAttend { q, .. } => q,
    }
}

/// The second operand; the array itself where there is none.
pub open spec fn second_of(y: Array) -> Array {
    match *y.node {
        Node::Combine(_, _, b) => b,
        Node::Matmul(_, b) => b,
        Node::Concat { b, .. } => b,
        Node::StackOnto(_, b) => b,
        Node::RmsNorm { weight, .. } => weight,
        Node::Embed { table, .. } => table,
        Node::RopeAt { positions, .. } => positions,
        Node::Attend { k, .. } => k,
        Node::FlashAttend { k, .. } => k,
        _ => y,
    }
}

/// The third operand; the array itself where there is none.
pub open spec fn third_of(y: Array) -> Array {
    match *y.node {
        Node::Attend { v, .. } => v,
        Node::FlashAttend { v, .. } => v,
        _ => y,
    }
}

/// The argument at a place of a list; none behind its end.
pub open spec fn argument(args: Args, n: nat) -> Option<Array>
    decreases n,
{
    match args {
        Args::Nil => None,
        Args::Cons(x, rest) => if n == 0 {
            x
        } else {
            argument(*rest, (n - 1) as nat)
        },
    }
}

/// How many arguments there are.
pub open spec fn argument_count(args: Args) -> nat
    decreases args,
{
    match args {
        Args::Nil => 0,
        Args::Cons(_, rest) => 1 + argument_count(*rest),
    }
}

/// What a kernel is given at a place.
pub open spec fn given_at(y: Array, n: nat) -> Option<Array> {
    match *y.node {
        Node::Kernel(_, args) => argument(args, n),
        _ => None,
    }
}

/// How many arguments a kernel is given.
pub open spec fn given_count(y: Array) -> nat {
    match *y.node {
        Node::Kernel(_, args) => argument_count(args),
        _ => 0,
    }
}

/// The array is what this kernel gives.
pub open spec fn is_kernel(y: Array, k: Kernel) -> bool {
    *y.node matches Node::Kernel(j, _) && j == k
}

pub open spec fn is_sum(y: Array, a: Array, b: Array) -> bool {
    *y.node == Node::Combine(Arithmetic::Add, a, b)
}

pub open spec fn is_product(y: Array, a: Array, b: Array) -> bool {
    *y.node == Node::Combine(Arithmetic::Multiply, a, b)
}

pub open spec fn is_quotient(y: Array, a: Array, b: Array) -> bool {
    *y.node == Node::Combine(Arithmetic::Divide, a, b)
}

pub open spec fn is_function(y: Array, f: Function, x: Array) -> bool {
    *y.node == Node::Apply(f, x)
}

/// The rows of `x`, normalized and scaled by the weight.
pub open spec fn is_normed(y: Array, x: Array, weight: Array, eps: F32) -> bool {
    *y.node == (Node::RmsNorm { x, weight, eps })
}

/// `x @ w.T`.
pub open spec fn is_linear(y: Array, x: Array, w: Array) -> bool {
    &&& *y.node == Node::Matmul(x, second_of(y))
    &&& *second_of(y).node == Node::Transpose(w)
}

/// `x @ w.T + scale * (x @ a.T) @ b.T`.
pub open spec fn is_low_rank_sum(
    y: Array,
    x: Array,
    w: Array,
    a: Array,
    b: Array,
    scale: Scale,
) -> bool {
    let low = second_of(y);
    &&& is_sum(y, first_of(y), low)
    &&& is_linear(first_of(y), x, w)
    &&& is_function(low, Function::Scaled(scale), first_of(low))
    &&& is_linear(first_of(low), first_of(first_of(low)), b)
    &&& is_linear(first_of(first_of(low)), x, a)
}

/// What a bias was added to, where one was.
pub open spec fn without_bias(y: Array, bias: Option<Array>) -> Array {
    if bias is Some {
        first_of(y)
    } else {
        y
    }
}

/// The bias stands on top, where there is one.
pub open spec fn has_bias(y: Array, bias: Option<Array>) -> bool {
    bias matches Some(b) ==> is_sum(y, first_of(y), b)
}

/// `b @ a`, scaled, on top of `w`.
pub open spec fn is_full_rank_sum(y: Array, w: Array, a: Array, b: Array, scale: Scale) -> bool {
    &&& is_sum(y, w, second_of(y))
    &&& is_function(second_of(y), Function::Scaled(scale), first_of(second_of(y)))
    &&& *first_of(second_of(y)).node == Node::Matmul(b, a)
}

/// The square roots of the sums of squares along the innermost axis.
pub open spec fn is_row_norms(y: Array, w: Array) -> bool {
    &&& is_function(y, Function::Sqrt, first_of(y))
    &&& *first_of(y).node == (Node::SumAxis { x: first_of(first_of(y)), depth: 0 })
    &&& is_function(first_of(first_of(y)), Function::Square, w)
}

/// The direction of each row times its magnitude over its norm.
pub open spec fn is_rescaled(y: Array, direction: Array, magnitude: Array) -> bool {
    let factor = second_of(y);
    &&& is_product(y, direction, factor)
    &&& is_quotient(factor, first_of(factor), second_of(factor))
    &&& *first_of(factor).node == Node::Reshape(magnitude)
    &&& is_row_norms(second_of(factor), direction)
}

/// A layer that maps the innermost axis.
pub trait Projection: Sized {
    /// The array is what the layer makes of `x`.
    spec fn makes(self, x: Array, y: Array) -> bool;

    /// What an array that the layer made was made of.
    spec fn fed(self, y: Array) -> Array;
}

impl Projection for Linear {
    open spec fn makes(self, x: Array, y: Array) -> bool {
        has_bias(y, self.bias) && is_linear(without_bias(y, self.bias), x, self.weight)
    }

    open spec fn fed(self, y: Array) -> Array {
        first_of(without_bias(y, self.bias))
    }
}

impl Projection for LoraLinear {
    open spec fn makes(self, x: Array, y: Array) -> bool {
        let z = without_bias(y, self.bias);
        &&& has_bias(y, self.bias)
        &&& if self.merged {
            is_linear(z, x, self.weight)
        } else {
            is_low_rank_sum(z, x, self.weight, self.lora_a, self.lora_b, self.scale)
        }
    }

    open spec fn fed(self, y: Array) -> Array {
        let z = without_bias(y, self.bias);
        if self.merged {
            first_of(z)
        } else {
            first_of(first_of(z))
        }
    }
}

impl Projection for DoraLinear {
    open spec fn makes(self, x: Array, y: Array) -> bool {
        let z = without_bias(y, self.bias);
        let w = first_of(second_of(z));
        &&& has_bias(y, self.bias)
        &&& is_linear(z, x, w)
        &&& if self.merged {
            w == self.weight
        } else {
            &&& is_rescaled(w, first_of(w), self.magnitude)
            &&& is_full_rank_sum(first_of(w), self.weight, self.lora_a, self.lora_b, self.scale)
        }
    }

    open spec fn fed(self, y: Array) -> Array {
        first_of(without_bias(y, self.bias))
    }
}

impl Projection for LinearAdapter {
    open spec fn makes(self, x: Array, y: Array) -> bool {
        match self {
            LinearAdapter::Lora(l) => l.makes(x, y),
            LinearAdapter::Dora(d) => d.makes(x, y),
        }
    }

    open spec fn fed(self, y: Array) -> Array {
        match self {
            LinearAdapter::Lora(l) => l.fed(y),
            LinearAdapter::Dora(d) => d.fed(y),
        }
    }
}

/// The weight that was kept, where keeping is switched on and there is one; else the quantized
/// weight as it comes back.
pub open spec fn is_restored(
    w: Array,
    q: QuantizedTensor,
    cache: Option<Array>,
    keeps: bool,
) -> bool {
    if keeps && cache is Some {
        Some(w) == cache
    } else {
        *w.node == (Node::Dequantize { weight: q.weight, config: q.config, scheme: q.scheme })
    }
}

impl Projection for QLoraLinear {
    open spec fn makes(self, x: Array, y: Array) -> bool {
        let z = without_bias(y, self.bias);
        let w = first_of(second_of(first_of(z)));
        &&& has_bias(y, self.bias)
        &&& is_low_rank_sum(z, x, w, self.lora_a, self.lora_b, self.scale)
        &&& is_restored(w, self.quantized_weight, self.weight_cache, self.cache_enabled)
    }

    open spec fn fed(self, y: Array) -> Array {
        first_of(first_of(without_bias(y, self.bias)))
    }
}

/// The product of `x` and the projection, where there is one.
pub open spec fn is_projected(y: Array, x: Array, p: Option<Array>) -> bool {
    match p {
        Some(p) => *y.node == Node::Matmul(x, p),
        None => y == x,
    }
}

/// What a projection was given, where there is one.
pub open spec fn before_projection(y: Array, p: Option<Array>) -> Array {
    if p is Some {
        first_of(y)
    } else {
        y
    }
}

impl Projection for QBLoraLinear {
    open spec fn makes(self, x: Array, y: Array) -> bool {
        let z = without_bias(y, self.bias);
        let w = first_of(second_of(first_of(z)));
        let wide = first_of(second_of(z));
        let up = before_projection(wide, self.output_proj);
        let down = first_of(up);
        &&& has_bias(y, self.bias)
        &&& is_sum(z, first_of(z), second_of(z))
        &&& is_linear(first_of(z), x, w)
        &&& is_restored(w, self.quantized_weight, self.weight_cache, self.cache_enabled)
        &&& is_function(second_of(z), Function::Scaled(self.scale), wide)
        &&& is_projected(wide, up, self.output_proj)
        &&& is_linear(up, down, self.lora_b)
        &&& is_linear(down, first_of(down), self.lora_a)
        &&& is_projected(first_of(down), x, self.input_proj)
    }

    open spec fn fed(self, y: Array) -> Array {
        first_of(first_of(without_bias(y, self.bias)))
    }
}

pub broadcast proof fn lemma_apply_node(f: Function, x: Array)
    ensures
        *(#[trigger] apply(f, x)).node == Node::Apply(f, x),
        apply(f, x).fits ==> x.fits,
        apply(f, x).shape == x.shape,
{
    reveal(apply);
}

pub broadcast proof fn lemma_combine_node(f: Arithmetic, a: Array, b: Array)
    ensures
        *(#[trigger] combine(f, a, b)).node == Node::Combine(f, a, b),
        combine(f, a, b).fits ==> a.fits && b.fits,
{
    reveal(combine);
}

pub broadcast proof fn lemma_matmul_node(a: Array, b: Array)
    ensures
        *(#[trigger] matmul(a, b)).node == Node::Matmul(a, b),
        matmul(a, b).fits ==> a.fits && b.fits,
{
    reveal(matmul);
}

pub broadcast proof fn lemma_transpose_node(x: Array)
    ensures
        *(#[trigger] transpose(x)).node == Node::Transpose(x),
        transpose(x).fits ==> x.fits,
{
    reveal(transpose);
}

pub broadcast proof fn lemma_swap_middle_node(x: Array)
    ensures
        *(#[trigger] swap_middle(x)).node == Node::SwapMiddle(x),
        swap_middle(x).fits ==> x.fits && x.shape is D4,
{
    reveal(swap_middle);
}

pub broadcast proof fn lemma_swap_inner_node(x: Array)
    ensures
        *(#[trigger] swap_inner(x)).node == Node::SwapInner(x),
        swap_inner(x).fits ==> x.fits,
{
    reveal(swap_inner);
}

pub broadcast proof fn lemma_reshape_node(x: Array, shape: Shape)
    ensures
        *(#[trigger] reshape(x, shape)).node == Node::Reshape(x),
        reshape(x, shape).fits ==> x.fits,
        reshape(x, shape).shape == shape,
{
    reveal(reshape);
}

pub broadcast proof fn lemma_reshape_rest_node(x: Array, a: i32, b: i32)
    ensures
        *(#[trigger] reshape_rest(x, a, b)).node == Node::Reshape(x),
        reshape_rest(x, a, b).fits ==> x.fits,
{
    reveal(reshape_rest);
}

pub broadcast proof fn lemma_broadcast_to_node(x: Array, shape: Shape)
    ensures
        *(#[trigger] broadcast_to(x, shape)).node == Node::BroadcastTo(x),
        broadcast_to(x, shape).fits ==> x.fits,
        broadcast_to(x, shape).shape == shape,
{
    reveal(broadcast_to);
}

pub broadcast proof fn lemma_slice_node(x: Array, depth: u8, from: i32, to: i32)
    ensures
        *(#[trigger] slice(x, depth, from, to)).node == (Node::Slice { x, depth, from, to }),
        slice(x, depth, from, to).fits ==> x.fits,
{
    reveal(slice);
}

pub broadcast proof fn lemma_concat_node(a: Array, b: Array, depth: u8)
    ensures
        *(#[trigger] concat(a, b, depth)).node == (Node::Concat { a, b, depth }),
        concat(a, b, depth).fits ==> a.fits && b.fits,
{
    reveal(concat);
}

pub broadcast proof fn lemma_dequantize_node(
    weight: Array,
    config: NF4Config,
    scheme: QuantScheme,
    rows: i32,
    columns: i32,
)
    ensures
        *(
            #[trigger] dequantize(weight, config, scheme, rows, columns)
        ).node == (Node::Dequantize { weight, config, scheme }),
        dequantize(weight, config, scheme, rows, columns).fits ==> weight.fits,
{
    reveal(dequantize);
}

pub broadcast proof fn lemma_sum_axis_node(x: Array, depth: u8)
    ensures
        *(#[trigger] sum_axis(x, depth)).node == (Node::SumAxis { x, depth }),
        sum_axis(x, depth).fits ==> x.fits,
{
    reveal(sum_axis);
}

pub broadcast proof fn lemma_stack_onto_node(a: Array, b: Array)
    ensures
        *(#[trigger] stack_onto(a, b)).node == Node::StackOnto(a, b),
        stack_onto(a, b).fits ==> a.fits && b.fits,
{
    reveal(stack_onto);
}

pub broadcast proof fn lemma_kernel_node(k: Kernel, args: Args, shape: Shape, fits: bool)
    ensures
        *(#[trigger] kernel(k, args, shape, fits)).node == Node::Kernel(k, args),
        kernel(k, args, shape, fits).fits ==> args_fit(args) && fits,
        kernel(k, args, shape, fits).shape == shape,
{
    reveal(kernel);
}

pub broadcast proof fn lemma_rms_norm_node(x: Array, weight: Array, eps: F32)
    ensures
        *(#[trigger] rms_norm(x, weight, eps)).node == (Node::RmsNorm { x, weight, eps }),
        rms_norm(x, weight, eps).fits ==> x.fits && weight.fits,
        rms_norm(x, weight, eps).shape == x.shape,
{
    reveal(rms_norm);
}

pub broadcast proof fn lemma_embed_node(ids: Array, table: Array)
    ensures
        *(#[trigger] embed(ids, table)).node == (Node::Embed { ids, table }),
        embed(ids, table).fits ==> ids.fits && table.fits,
{
    reveal(embed);
}

pub broadcast proof fn lemma_rope_node(x: Array, config: RopeConfig, offset: i32)
    ensures
        *(#[trigger] rope(x, config, offset)).node == (Node::Rope { x, config, offset }),
        rope(x, config, offset).fits ==> x.fits,
        rope(x, config, offset).shape == x.shape,
{
    reveal(rope);
}

pub broadcast proof fn lemma_rope_at_node(x: Array, config: RopeConfig, positions: Array)
    ensures
        *(#[trigger] rope_at(x, config, positions)).node == (Node::RopeAt { x, config, positions }),
        rope_at(x, config, positions).fits ==> x.fits && positions.fits,
        rope_at(x, config, positions).shape == x.shape,
{
    reveal(rope_at);
}

pub broadcast proof fn lemma_attend_node(
    q: Array,
    k: Array,
    v: Array,
    config: FusedAttentionConfig,
    mask: Option<Array>,
)
    ensures
        *(
            #[trigger] attend(q, k, v, config, mask)
        ).node == (Node::Attend { q, k, v, config, mask }),
        attend(q, k, v, config, mask).fits ==> q.fits && k.fits && v.fits,
{
    reveal(attend);
}

pub broadcast proof fn lemma_flash_attend_node(
    layer: usize,
    q: Array,
    k: Array,
    v: Array,
    config: FusedAttentionConfig,
)
    ensures
        *(
            #[trigger] flash_attend(layer, q, k, v, config)
        ).node == (Node::FlashAttend { layer, q, k, v, config }),
        flash_attend(layer, q, k, v, config).fits ==> q.fits && k.fits && v.fits,
{
    reveal(flash_attend);
}

/// Each operation is a node of its own, made of what it was given; it fits only where that does.
pub broadcast group group_nodes {
    lemma_apply_node,
    lemma_combine_node,
    lemma_matmul_node,
    lemma_transpose_node,
    lemma_swap_middle_node,
    lemma_swap_inner_node,
    lemma_reshape_node,
    lemma_reshape_rest_node,
    lemma_broadcast_to_node,
    lemma_slice_node,
    lemma_concat_node,
    lemma_dequantize_node,
    lemma_sum_axis_node,
    lemma_stack_onto_node,
    lemma_kernel_node,
    lemma_rms_norm_node,
    lemma_embed_node,
    lemma_rope_node,
    lemma_rope_at_node,
    lemma_attend_node,
    lemma_flash_attend_node,
}

/// A linear layer gives `x @ w.T` and its bias, and the input can be read off the output.
pub broadcast proof fn law_linear_reads(l: Linear, x: Array)
    ensures
        l.makes(x, #[trigger] l.output(x)),
        l.fed(l.output(x)) == x,
        l.output(x).fits ==> x.fits,
{
    broadcast use group_nodes;

}

/// A layer with an adapter gives `x @ w.T + scale * (x @ a.T) @ b.T` and its bias, or `x @ w.T`
/// and its bias once it is merged; the input can be read off the output.
pub broadcast proof fn law_lora_reads(l: LoraLinear, x: Array)
    ensures
        l.makes(x, #[trigger] l.output(x)),
        l.fed(l.output(x)) == x,
        l.output(x).fits ==> x.fits,
{
    broadcast use group_nodes;

}

/// A layer with magnitudes gives `x @ w.T` and its bias, where each row of `w` is the row of the
/// weight with the adapter's product on top, times the row's magnitude over its norm.
pub broadcast proof fn law_dora_reads(l: DoraLinear, x: Array)
    ensures
        l.makes(x, #[trigger] l.output(x)),
        l.fed(l.output(x)) == x,
        l.output(x).fits ==> x.fits,
{
    broadcast use group_nodes;

}

/// An adapter of either kind gives what that kind gives.
pub broadcast proof fn law_adapter_reads(l: LinearAdapter, x: Array)
    ensures
        l.makes(x, #[trigger] l.output(x)),
        l.fed(l.output(x)) == x,
        l.output(x).fits ==> x.fits,
{
    match l {
        LinearAdapter::Lora(d) => {
            law_lora_reads(d, x);
        },
        LinearAdapter::Dora(d) => {
            law_dora_reads(d, x);
        },
    }
}

/// A layer on a quantized weight gives `x @ w.T + scale * (x @ a.T) @ b.T` and its bias, where
/// `w` is the weight as it comes back under the layer's scheme and settings.
pub broadcast proof fn law_qlora_reads(l: QLoraLinear, x: Array)
    ensures
        l.makes(x, #[trigger] l.output(x)),
        l.fed(l.output(x)) == x,
        l.output(x).fits ==> x.fits,
{
    broadcast use group_nodes;

}

/// A balanced layer gives `x @ w.T + scale * ((x @ p_in) @ a.T) @ b.T @ p_out` and its bias.
pub proof fn law_qblora_reads(l: QBLoraLinear, x: Array)
    ensures
        l.makes(x, l.output(x)),
        l.fed(l.output(x)) == x,
        l.output(x).fits ==> x.fits,
{
    broadcast use group_nodes;

}

/// What is quantized is the given matrix in single precision, under the settings.
pub proof fn law_quantized_reads(weight: Array, bias: Option<Array>, config: QLoraConfig)
    ensures
        ({
            let l = QLoraLinear::on(weight, bias, config);
            &&& is_function(l.quantized_weight.weight, Function::ToFloat32, weight)
            &&& l.quantized_weight.config.block_size == config.block_size
            &&& l.quantized_weight.config.double_quant == config.double_quant
            &&& l.quantized_weight.scheme == config.quant_scheme
            &&& l.bias == bias
            &&& l.rank == config.lora.r as i32
            &&& *l.lora_b.node == Node::Source(Source::Zeros)
            &&& *l.lora_a.node matches Node::Source(Source::Uniform { fan_in })
            &&& fan_in == weight.shape.inner()
        }),
{
    broadcast use group_nodes;

}

/// Merging puts `scale * b @ a` on top of the weight, once; the adapter then adds nothing more.
pub proof fn law_merge_reads(l: LoraLinear, x: Array)
    requires
        !l.merged,
    ensures
        ({
            let m = l.merge_result();
            &&& is_full_rank_sum(m.weight, l.weight, l.lora_a, l.lora_b, l.scale)
            &&& has_bias(m.output(x), l.bias)
            &&& is_linear(without_bias(m.output(x), l.bias), x, m.weight)
            &&& m.merge_result() == m
            &&& m.bias == l.bias && m.lora_a == l.lora_a && m.lora_b == l.lora_b
        }),
{
    broadcast use group_nodes;

}

/// Merging rescales the rows, once: the merged weight is the one that the layer used before.
pub proof fn law_dora_merge_reads(l: DoraLinear, x: Array)
    requires
        !l.merged,
    ensures
        ({
            let m = l.merge_result();
            &&& is_rescaled(m.weight, first_of(m.weight), l.magnitude)
            &&& is_full_rank_sum(first_of(m.weight), l.weight, l.lora_a, l.lora_b, l.scale)
            &&& m.output(x) == l.output(x)
            &&& m.merge_result() == m
        }),
{
    broadcast use group_nodes;

}

/// Merging a quantized layer puts `scale * b @ a` on top of the weight as it came back, quantizes
/// the sum in single precision, and lets the adapter start from nothing.
pub proof fn law_qlora_merge_reads(l: QLoraLinear)
    ensures
        ({
            let m = l.merge_result();
            let sum = first_of(m.quantized_weight.weight);
            &&& is_function(m.quantized_weight.weight, Function::ToFloat32, sum)
            &&& is_full_rank_sum(sum, first_of(sum), l.lora_a, l.lora_b, l.scale)
            &&& is_restored(first_of(sum), l.quantized_weight, l.weight_cache, l.cache_enabled)
            &&& *m.lora_b.node == Node::Source(Source::Zeros)
            &&& m.lora_a == l.lora_a && m.weight_cache is None && m.bias == l.bias
        }),
{
    broadcast use group_nodes;

}

/// The factor on an adapter: `alpha / rank`, or `alpha / sqrt(rank)` where ranks are stabilized.
pub proof fn law_adapter_factor(
    weight: Array,
    bias: Option<Array>,
    inputs: i32,
    outputs: i32,
    rank: i32,
    alpha: F32,
    stabilized: bool,
)
    ensures
        ({
            let l = LoraLinear::on(weight, bias, inputs, outputs, rank, alpha, stabilized);
            &&& stabilized ==> l.scale == (Scale::AlphaOverSqrtRank { alpha, rank })
            &&& !stabilized ==> l.scale == (Scale::AlphaOverRank { alpha, rank })
            &&& l.weight == weight && l.bias == bias && !l.merged
            &&& *l.lora_b.node == Node::Source(Source::Zeros)
            &&& l.lora_b.shape == Shape::D2(outputs, rank)
            &&& *l.lora_a.node == Node::Source(Source::Uniform { fan_in: inputs })
            &&& l.lora_a.shape == Shape::D2(rank, inputs)
        }),
{
}

} // verus!
