//! What Qwen3-Next layers compute, read off the nodes that they build.

use crate::array::{
    Array, AttentionMaskType, Function, Kernel, Node, RopeConfig, Source, apply, args_fit, kernel,
    rope, slice,
};
use crate::attention_reading::{
    Heads, cache_gained, is_behind, is_fused, is_joined, is_repeated, is_turned, is_written_out,
    keys_of, lemma_gained, lemma_match_heads_reads, newest, past_keys, past_values, plain_heads,
    queries_of, turned_heads, unrepeated,
};
use crate::kv_cache::{KVCacheState, MambaCacheEntry};
use crate::loaded_name_laws::law_qwen3_next_linear_loaded_by_name;
use crate::naming_laws::spelled;
use crate::nn::Linear;
use crate::qwen3_next_lora::{Qwen3NextLoraAttention, Qwen3NextLoraDecoderLayer, Qwen3NextLoraGDN};
use crate::reading::{
    Projection, argument, argument_count, first_of, given_at, given_count, group_nodes, has_bias,
    is_function, is_kernel, is_linear, is_normed, is_product, law_linear_reads, law_lora_reads,
    second_of, third_of, without_bias,
};
use crate::scalar::Scale;
use crate::shape::Shape;
use vstd::prelude::*;
use vstd::string::*;

verus! {

/// The part between two places along the innermost axis.
pub open spec fn is_cut(y: Array, x: Array, from: int, to: int) -> bool {
    *y.node == (Node::Slice { x, depth: 0, from: from as i32, to: to as i32 })
}

/// The last `n` of the steps of `x`, which is `[batch, steps, features]`.
pub open spec fn is_tail(y: Array, x: Array, n: int) -> bool {
    *y.node matches Node::Slice { x: p, depth, from, to } && p == x && depth == 1 && {
        x.shape matches Shape::D3(_, end, _) && to == end && (0 <= n <= end ==> from == end - n)
    }
}

/// Queries, or keys, of a gated delta rule: some features of the last steps of the convolution,
/// head by head, over their root mean square and scaled.
pub open spec fn is_delta_side(
    y: Array,
    conv: Array,
    from: int,
    to: int,
    steps: int,
    heads: i32,
    d: i32,
    scale: Scale,
) -> bool {
    let n = first_of(y);
    let r = first_of(n);
    let t = first_of(r);
    &&& is_function(y, Function::Scaled(scale), n)
    &&& *n.node matches Node::RmsNorm { x: _, weight, eps: _ } && *weight.node == Node::Source(
        Source::Ones,
    )
    &&& *r.node == Node::Reshape(t)
    &&& r.shape matches Shape::D4(_, _, rh, rd) && rh == heads && rd == d
    &&& is_tail(t, first_of(t), steps)
    &&& is_cut(first_of(t), conv, from, to)
}

/// What the recurrence below a layer's output is: the array under the gated normalization.
pub open spec fn recurrence_of(g: Qwen3NextLoraGDN, y: Array) -> Array {
    first_of(second_of(first_of(g.out_proj.fed(y))))
}

/// The convolution that the values of a recurrence are cut from.
pub open spec fn convolution_of(core: Array) -> Array {
    first_of(first_of(first_of(given_at(core, 2)->0)))
}

/// A layer with a gated delta rule gives the projection of its recurrence, normalized and times
/// the SiLU of a gate that it makes of the input. The recurrence is the gated-delta kernel: its
/// fourth operand, the decay, is what `in_proj_a` makes of the input, its fifth, the rate of
/// writing, what `in_proj_b` makes of it. In use of a state it takes the kept one; without one it
/// goes step by step, as in training.
pub proof fn law_gdn_reads(
    g: Qwen3NextLoraGDN,
    x: Array,
    mask: Option<Array>,
    state: Option<MambaCacheEntry>,
)
    ensures
        ({
            let y = g.output(x, mask, state);
            let h = g.out_proj.fed(y);
            let n = first_of(h);
            let z = first_of(first_of(n));
            let core = recurrence_of(g, y);
            &&& g.out_proj.makes(h, y)
            &&& *h.node == Node::Reshape(n)
            &&& is_product(n, first_of(n), second_of(n))
            &&& is_function(first_of(n), Function::Silu, z)
            &&& *z.node == Node::Reshape(first_of(z))
            &&& z.shape matches Shape::D4(_, _, zh, zd) && zh == g.num_v_heads && zd == g.head_v_dim
            &&& g.in_proj_z.makes(x, first_of(z))
            &&& is_normed(second_of(n), core, g.norm.weight, g.norm.eps)
            &&& is_kernel(core, Kernel::GatedDelta { training: state is None })
            &&& given_count(core) == 9
            &&& given_at(core, 3) is Some && g.in_proj_a.makes(x, given_at(core, 3)->0)
            &&& given_at(core, 4) is Some && g.in_proj_b.makes(x, given_at(core, 4)->0)
            &&& given_at(core, 5) == Some(g.a_log)
            &&& given_at(core, 6) == Some(g.dt_bias)
            &&& given_at(core, 7) == (match state {
                Some(e) => e.ssm_state,
                None => None,
            })
            &&& given_at(core, 8) == mask
        }),
{
    broadcast use {group_nodes, law_lora_reads, law_linear_reads};

    reveal_with_fuel(argument, 10);
    reveal_with_fuel(argument_count, 10);
}

/// Queries, keys and values of the recurrence are the first, the second and the last features of
/// the SiLU of the convolution, of the last steps only. The convolution goes over the kept steps
/// and, behind them, over what `in_proj_qkv` makes of the input, zero where the mask says so.
pub proof fn law_gdn_parts_read(
    g: Qwen3NextLoraGDN,
    x: Array,
    mask: Option<Array>,
    state: Option<MambaCacheEntry>,
)
    requires
        g.output(x, mask, state).fits,
        g.key_dim >= 0,
        2 * g.key_dim <= convolution_of(recurrence_of(g, g.output(x, mask, state))).shape.inner(),
    ensures
        ({
            let core = recurrence_of(g, g.output(x, mask, state));
            let conv = convolution_of(core);
            let raw = first_of(conv);
            let input = given_at(raw, 0)->0;
            let steps = x.shape.dims()[1] as int;
            let k = g.key_dim as int;
            let values = given_at(core, 2)->0;
            &&& is_delta_side(
                given_at(core, 0)->0,
                conv,
                0,
                k,
                steps,
                g.num_k_heads,
                g.head_k_dim,
                Scale::InverseSqrtSquared { n: g.head_k_dim },
            )
            &&& is_delta_side(
                given_at(core, 1)->0,
                conv,
                k,
                2 * k,
                steps,
                g.num_k_heads,
                g.head_k_dim,
                Scale::InverseSqrt { n: g.head_k_dim },
            )
            &&& *values.node == Node::Reshape(first_of(values))
            &&& values.shape matches Shape::D4(_, _, vh, vd) && vh == g.num_v_heads && vd
                == g.head_v_dim
            &&& is_tail(first_of(values), first_of(first_of(values)), steps)
            &&& is_cut(first_of(first_of(values)), conv, 2 * k, conv.shape.inner() as int)
            &&& is_function(conv, Function::Silu, raw)
            &&& is_kernel(raw, Kernel::Conv1d { groups: g.conv_dim })
            &&& given_at(raw, 1) == Some(g.conv1d.weight)
            &&& given_at(raw, 2) == g.conv1d.bias
            &&& given_at(raw, 0) is Some
            &&& is_conv_input(input, g, x, mask, state)
        }),
{
    broadcast use {group_nodes, law_lora_reads, law_linear_reads};

    reveal_with_fuel(argument, 10);
    reveal_with_fuel(args_fit, 10);
    let conv = g.conv_out(x, mask, state);
    lemma_gdn_core(g, x, mask, state);
    lemma_gdn_steps(g, x, conv);
    lemma_gdn_convolution(g, x, mask, state);
}

/// The kept steps and, behind them, what `in_proj_qkv` makes of the input.
pub open spec fn is_conv_input(
    input: Array,
    g: Qwen3NextLoraGDN,
    x: Array,
    mask: Option<Array>,
    state: Option<MambaCacheEntry>,
) -> bool {
    let kept = first_of(input);
    let all = second_of(input);
    &&& *input.node == (Node::Concat { a: kept, b: all, depth: 1 })
    &&& match state {
        Some(e) => match e.conv_state {
            Some(c) => kept == c,
            None => *kept.node == Node::Source(Source::Zeros),
        },
        None => *kept.node == Node::Source(Source::Zeros),
    }
    &&& match mask {
        Some(m) => {
            &&& is_kernel(all, Kernel::KeepWhere)
            &&& given_at(all, 0) is Some && *(given_at(all, 0)->0).node == Node::Reshape(m)
            &&& given_at(all, 1) is Some && g.in_proj_qkv.makes(x, given_at(all, 1)->0)
        },
        None => g.in_proj_qkv.makes(x, all),
    }
}

proof fn lemma_gdn_core(
    g: Qwen3NextLoraGDN,
    x: Array,
    mask: Option<Array>,
    state: Option<MambaCacheEntry>,
)
    ensures
        ({
            let y = g.output(x, mask, state);
            let core = recurrence_of(g, y);
            let conv = g.conv_out(x, mask, state);
            &&& y.fits ==> core.fits
            &&& core.fits ==> g.queries(x, conv).fits && g.keys(x, conv).fits && g.values(
                x,
                conv,
            ).fits
            &&& given_at(core, 0) == Some(g.queries(x, conv))
            &&& given_at(core, 1) == Some(g.keys(x, conv))
            &&& given_at(core, 2) == Some(g.values(x, conv))
        }),
{
    broadcast use {group_nodes, law_lora_reads};

    reveal_with_fuel(argument, 10);
    reveal_with_fuel(args_fit, 10);
}

proof fn lemma_gdn_steps(g: Qwen3NextLoraGDN, x: Array, conv: Array)
    requires
        g.queries(x, conv).fits,
        g.keys(x, conv).fits,
        g.values(x, conv).fits,
        conv.shape is D3,
        g.key_dim >= 0,
        2 * g.key_dim <= conv.shape.inner(),
    ensures
        ({
            let k = g.key_dim as int;
            let steps = x.shape.dims()[1] as int;
            let values = g.values(x, conv);
            &&& is_delta_side(
                g.queries(x, conv),
                conv,
                0,
                k,
                steps,
                g.num_k_heads,
                g.head_k_dim,
                Scale::InverseSqrtSquared { n: g.head_k_dim },
            )
            &&& is_delta_side(
                g.keys(x, conv),
                conv,
                k,
                2 * k,
                steps,
                g.num_k_heads,
                g.head_k_dim,
                Scale::InverseSqrt { n: g.head_k_dim },
            )
            &&& *values.node == Node::Reshape(first_of(values))
            &&& values.shape matches Shape::D4(_, _, vh, vd) && vh == g.num_v_heads && vd
                == g.head_v_dim
            &&& is_tail(first_of(values), first_of(first_of(values)), steps)
            &&& is_cut(first_of(first_of(values)), conv, 2 * k, conv.shape.inner() as int)
        }),
{
    broadcast use group_nodes;

    reveal(slice);
}

proof fn lemma_gdn_convolution(
    g: Qwen3NextLoraGDN,
    x: Array,
    mask: Option<Array>,
    state: Option<MambaCacheEntry>,
)
    ensures
        ({
            let conv = g.conv_out(x, mask, state);
            let raw = first_of(conv);
            &&& is_function(conv, Function::Silu, raw)
            &&& conv.fits ==> conv.shape is D3
            &&& is_kernel(raw, Kernel::Conv1d { groups: g.conv_dim })
            &&& given_at(raw, 0) == Some(g.conv_input(x, mask, state))
            &&& given_at(raw, 1) == Some(g.conv1d.weight)
            &&& given_at(raw, 2) == g.conv1d.bias
            &&& is_conv_input(g.conv_input(x, mask, state), g, x, mask, state)
        }),
{
    broadcast use {group_nodes, law_lora_reads};

    reveal_with_fuel(argument, 4);
    reveal(apply);
}

/// What a layer keeps is the state that the same recurrence leaves behind, with the same operands,
/// and the last steps that the convolution went over.
pub proof fn law_gdn_keeps(
    g: Qwen3NextLoraGDN,
    x: Array,
    mask: Option<Array>,
    state: MambaCacheEntry,
)
    ensures
        ({
            let core = recurrence_of(g, g.output(x, mask, Some(state)));
            let after = g.after(x, mask, state);
            let input = g.conv_input(x, mask, Some(state));
            &&& after.ssm_state == state.ssm_state || {
                &&& after.ssm_state is Some
                &&& is_kernel(after.ssm_state->0, Kernel::GatedDeltaState { training: false })
                &&& given_count(after.ssm_state->0) == 9
                &&& forall|n: nat| #[trigger]
                    given_at(after.ssm_state->0, n) == given_at(core, n)
            }
            &&& core.fits && first_of(
                first_of(first_of(g.out_proj.fed(g.output(x, mask, Some(state))))),
            ).fits ==> after.ssm_state is Some && is_kernel(
                after.ssm_state->0,
                Kernel::GatedDeltaState { training: false },
            )
            &&& after.conv_state == state.conv_state || {
                &&& after.conv_state is Some
                &&& input.shape is D3 && after.conv_state->0.fits ==> is_tail(
                    after.conv_state->0,
                    input,
                    g.conv_kernel_size - 1,
                )
                &&& is_conv_input(input, g, x, mask, Some(state))
            }
        }),
{
    broadcast use {group_nodes, law_lora_reads, law_linear_reads};

    reveal_with_fuel(argument, 10);
    reveal_with_fuel(argument_count, 10);
    reveal_with_fuel(args_fit, 10);
    lemma_gdn_convolution(g, x, mask, Some(state));
    lemma_gdn_core(g, x, mask, Some(state));
    reveal(kernel);
}

/// Decay and rate are told apart: another `in_proj_b` leaves the decay of the recurrence as it
/// was, another `in_proj_a` leaves the rate as it was, and either leaves the queries, the keys
/// and the values as they were.
pub proof fn law_decay_and_rate_apart(
    g: Qwen3NextLoraGDN,
    other: Linear,
    x: Array,
    mask: Option<Array>,
    state: Option<MambaCacheEntry>,
)
    ensures
        ({
            let core = recurrence_of(g, g.output(x, mask, state));
            let gb = Qwen3NextLoraGDN { in_proj_b: other, ..g };
            let ga = Qwen3NextLoraGDN { in_proj_a: other, ..g };
            let b = recurrence_of(gb, gb.output(x, mask, state));
            let a = recurrence_of(ga, ga.output(x, mask, state));
            &&& forall|n: nat| n != 4 ==> #[trigger] given_at(b, n) == given_at(core, n)
            &&& given_at(b, 4) is Some && other.makes(x, given_at(b, 4)->0)
            &&& forall|n: nat| n != 3 ==> #[trigger] given_at(a, n) == given_at(core, n)
            &&& given_at(a, 3) is Some && other.makes(x, given_at(a, 3)->0)
        }),
{
    broadcast use {group_nodes, law_lora_reads, law_linear_reads};

    reveal_with_fuel(argument, 10);
}

/// Behind loading, the decay is what the weight of `linear_attn.in_proj_a.weight` makes of the
/// input, and the rate what that of `linear_attn.in_proj_b.weight` makes of it.
pub proof fn law_loaded_decay_and_rate(
    layer: Qwen3NextLoraDecoderLayer,
    i: nat,
    weights: Map<Seq<char>, Array>,
    x: Array,
    mask: Option<Array>,
    state: Option<MambaCacheEntry>,
)
    requires
        layer.linear_attn is Some,
        weights.contains_key(spelled("model.layers."@, i, "linear_attn.in_proj_a.weight"@)),
        weights.contains_key(spelled("model.layers."@, i, "linear_attn.in_proj_b.weight"@)),
    ensures
        ({
            let g = layer.loaded(i, weights).linear_attn->0;
            let was = layer.linear_attn->0;
            let core = recurrence_of(g, g.output(x, mask, state));
            let a = given_at(core, 3)->0;
            let b = given_at(core, 4)->0;
            &&& is_kernel(core, Kernel::GatedDelta { training: state is None })
            &&& has_bias(a, was.in_proj_a.bias)
            &&& is_linear(
                without_bias(a, was.in_proj_a.bias),
                x,
                weights[spelled("model.layers."@, i, "linear_attn.in_proj_a.weight"@)],
            )
            &&& has_bias(b, was.in_proj_b.bias)
            &&& is_linear(
                without_bias(b, was.in_proj_b.bias),
                x,
                weights[spelled("model.layers."@, i, "linear_attn.in_proj_b.weight"@)],
            )
        }),
{
    law_qwen3_next_linear_loaded_by_name(layer, i, weights);
    law_gdn_reads(layer.loaded(i, weights).linear_attn->0, x, mask, state);
}

/// What queries and gates are cut from: `[batch, length, heads, 2 * features]`.
pub open spec fn is_doubled(y: Array, x: Array, a: Qwen3NextLoraAttention) -> bool {
    &&& *y.node == Node::Reshape(first_of(y))
    &&& y.shape matches Shape::D4(_, _, n, d) && n == a.n_heads && d == 2 * a.head_dim
    &&& a.q_proj.makes(x, first_of(y))
}

/// Rotated queries: the first half of what `q_proj` makes of each head, normalized.
pub open spec fn is_gated_query(
    y: Array,
    x: Array,
    a: Qwen3NextLoraAttention,
    offset: i32,
) -> bool {
    let h = first_of(y);
    let n = first_of(h);
    let s = first_of(n);
    let rope = RopeConfig { dims: a.rope_dims, base: a.effective_base, scale: a.rope_scale };
    &&& is_turned(y, h, rope, offset, None)
    &&& *h.node == Node::SwapMiddle(n)
    &&& is_normed(n, s, a.q_norm.weight, a.q_norm.eps)
    &&& is_cut(s, first_of(s), 0, a.head_dim as int)
    &&& is_doubled(first_of(s), x, a)
}

/// What gates: the second half of what `q_proj` makes of each head, side by side.
pub open spec fn is_gate(y: Array, x: Array, a: Qwen3NextLoraAttention) -> bool {
    let s = first_of(y);
    &&& *y.node == Node::Reshape(s)
    &&& is_cut(s, first_of(s), a.head_dim as int, 2 * a.head_dim)
    &&& is_doubled(first_of(s), x, a)
}

impl Qwen3NextLoraAttention {
    /// The extents and settings of the heads.
    pub open spec fn heads_read(self) -> Heads {
        Heads {
            n: self.n_heads,
            kv: self.n_kv_heads,
            d: self.head_dim,
            scale: self.scale,
            rope: RopeConfig {
                dims: self.rope_dims,
                base: self.effective_base,
                scale: self.rope_scale,
            },
            q_norm: Some(self.q_norm),
            k_norm: Some(self.k_norm),
        }
    }
}

/// The mixed heads side by side times the sigmoid of their gate, projected.
pub open spec fn is_gated_end(y: Array, x: Array, mixed: Array, a: Qwen3NextLoraAttention) -> bool {
    let f = a.o_proj.fed(y);
    &&& a.o_proj.makes(f, y)
    &&& is_product(f, first_of(f), second_of(f))
    &&& is_joined(first_of(f), mixed)
    &&& is_function(second_of(f), Function::Sigmoid, first_of(second_of(f)))
    &&& is_gate(first_of(second_of(f)), x, a)
}

/// The mixed heads below the output of an attention layer.
pub open spec fn gated_mix(y: Array, a: Qwen3NextLoraAttention) -> Array {
    first_of(first_of(first_of(a.o_proj.fed(y))))
}

proof fn lemma_next_parts(a: Qwen3NextLoraAttention, x: Array, offset: i32)
    requires
        a.head_dim >= 0,
        2 * a.head_dim <= i32::MAX,
    ensures
        is_gated_query(rope(a.queries(x), a.rope(), offset), x, a, offset),
        is_gate(a.gate(x), x, a),
        turned_heads(
            rope(a.keys(x), a.rope(), offset),
            x,
            a.k_proj,
            a.n_kv_heads,
            Some(a.k_norm),
            a.heads_read(),
            offset,
            None,
        ),
        plain_heads(a.values(x), x, a.v_proj, a.n_kv_heads, a.heads_read()),
{
    broadcast use {group_nodes, law_lora_reads};

}

/// Full attention, read off its nodes: queries and gates from the two halves of one projection,
/// and the mixed heads times the sigmoid of their gate. In training on long inputs by the kernel
/// that keeps what a backward pass needs, else written out.
pub proof fn law_qwen3_next_attention_reads(
    a: Qwen3NextLoraAttention,
    x: Array,
    mask: Option<Array>,
    training: bool,
)
    requires
        a.n_kv_heads > 0,
        a.head_dim >= 0,
        2 * a.head_dim <= i32::MAX,
        a.output(x, mask, training).fits,
    ensures
        ({
            let y = a.output(x, mask, training);
            let mixed = gated_mix(y, a);
            let s = a.heads_read();
            let keys = keys_of(mixed, mask);
            let values = second_of(mixed);
            &&& is_gated_end(y, x, mixed, a)
            &&& if training && x.shape.dims()[1] >= 2048 {
                &&& *mixed.node matches Node::FlashAttend { layer, q, k, v, config }
                &&& layer == a.layer_id
                &&& config.num_heads == s.n && config.num_kv_heads == s.kv
                &&& config.head_dim == s.d && config.scale == s.scale
                &&& config.mask_type == AttentionMaskType::Causal
                &&& is_gated_query(q, x, a, 0)
                &&& turned_heads(k, x, a.k_proj, s.kv, s.k_norm, s, 0, None)
                &&& plain_heads(v, x, a.v_proj, s.kv, s)
            } else {
                &&& is_written_out(mixed, queries_of(mixed, mask), keys, values, s.scale, mask)
                &&& is_gated_query(queries_of(mixed, mask), x, a, 0)
                &&& is_repeated(keys, unrepeated(keys, s.n, s.kv), s.n, s.kv)
                &&& turned_heads(
                    unrepeated(keys, s.n, s.kv),
                    x,
                    a.k_proj,
                    s.kv,
                    s.k_norm,
                    s,
                    0,
                    None,
                )
                &&& is_repeated(values, unrepeated(values, s.n, s.kv), s.n, s.kv)
                &&& plain_heads(unrepeated(values, s.n, s.kv), x, a.v_proj, s.kv, s)
            }
        }),
{
    broadcast use {group_nodes, law_lora_reads};

    lemma_next_parts(a, x, 0);
    if !(training && x.shape.dims()[1] >= 2048) {
        lemma_match_heads_reads(rope(a.keys(x), a.rope(), 0), a.n_heads, a.n_kv_heads);
        lemma_match_heads_reads(a.values(x), a.n_heads, a.n_kv_heads);
    }
}

/// Fused full attention over the input alone, read off its nodes.
pub proof fn law_qwen3_next_fused_reads(
    a: Qwen3NextLoraAttention,
    x: Array,
    mask: Option<Array>,
)
    requires
        a.head_dim >= 0,
        2 * a.head_dim <= i32::MAX,
    ensures
        ({
            let y = a.fused_output(x, mask);
            let mixed = gated_mix(y, a);
            let s = a.heads_read();
            &&& is_gated_end(y, x, mixed, a)
            &&& is_fused(mixed, s, AttentionMaskType::Causal, mask)
            &&& is_gated_query(first_of(mixed), x, a, 0)
            &&& turned_heads(second_of(mixed), x, a.k_proj, s.kv, s.k_norm, s, 0, None)
            &&& plain_heads(third_of(mixed), x, a.v_proj, s.kv, s)
        }),
{
    broadcast use {group_nodes, law_lora_reads};

    lemma_next_parts(a, x, 0);
}

/// Full attention over a cache, read off its nodes: behind the steps that the cache counts,
/// queries and new keys are rotated by the positions from that count on.
pub proof fn law_qwen3_next_cached_reads(
    a: Qwen3NextLoraAttention,
    x: Array,
    mask: Option<Array>,
    cache: KVCacheState,
    layer: int,
)
    requires
        a.head_dim >= 0,
        2 * a.head_dim <= i32::MAX,
        a.cached_output(x, mask, cache, layer).0.fits,
    ensures
        ({
            let end = a.cached_output(x, mask, cache, layer);
            let mixed = gated_mix(end.0, a);
            let s = a.heads_read();
            let k = second_of(mixed);
            let v = third_of(mixed);
            let past_k = past_keys(cache, layer);
            let past_v = past_values(cache, layer);
            &&& is_gated_end(end.0, x, mixed, a)
            &&& is_fused(mixed, s, AttentionMaskType::Causal, mask)
            &&& is_gated_query(first_of(mixed), x, a, cache.offset)
            &&& is_behind(k, past_k, newest(k, past_k))
            &&& turned_heads(
                newest(k, past_k),
                x,
                a.k_proj,
                s.kv,
                s.k_norm,
                s,
                cache.offset,
                None,
            )
            &&& is_behind(v, past_v, newest(v, past_v))
            &&& plain_heads(newest(v, past_v), x, a.v_proj, s.kv, s)
            &&& cache_gained(cache, end.1, layer, k, v)
        }),
{
    broadcast use {group_nodes, law_lora_reads};

    lemma_next_parts(a, x, cache.offset);
    lemma_gained(cache, layer, rope(a.keys(x), a.rope(), cache.offset), a.values(x));
}

} // verus!
