//! What attention layers compute, read off the nodes that they build.

use crate::array::{Array, AttentionMaskType, Function, Node, RopeConfig, rope, rope_at};
use crate::attention::match_heads;
use crate::kv_cache::KVCacheState;
use crate::mistral_lora::MistralLoraAttention;
use crate::mllama_lora::MllamaLoraSelfAttention;
use crate::nemotron_h_lora::NemotronHLoraAttention;
use crate::nemotron_h_qlora::NemotronHQloraAttention;
use crate::nn::RmsNorm;
use crate::qwen3_lora::Qwen3LoraAttention;
use crate::qwen3_moe_lora::Qwen3MoELoraAttention;
use crate::qwen3_moe_qlora::Qwen3MoEQLoraAttention;
use crate::reading::{
    Projection, first_of, group_nodes, is_function, is_normed, is_sum, law_adapter_reads,
    law_lora_reads, law_qlora_reads, second_of, third_of,
};
use crate::scalar::{F32, ONE_BITS, Scale};
use crate::shape::Shape;
use vstd::prelude::*;

verus! {

/// What heads were split from: behind their normalization, where there is one.
pub open spec fn unsplit(h: Array, norm: Option<RmsNorm>) -> Array {
    if norm is Some {
        first_of(first_of(first_of(h)))
    } else {
        first_of(first_of(h))
    }
}

/// `[batch, heads, length, features]` from the `[batch, length, heads * features]` of `p`, each
/// head normalized where there is a normalization.
pub open spec fn is_heads(h: Array, p: Array, n: i32, d: i32, norm: Option<RmsNorm>) -> bool {
    let split = if norm is Some {
        first_of(first_of(h))
    } else {
        first_of(h)
    };
    &&& *h.node == Node::SwapMiddle(first_of(h))
    &&& norm matches Some(m) ==> is_normed(first_of(h), split, m.weight, m.eps)
    &&& *split.node == Node::Reshape(p)
    &&& split.shape matches Shape::D4(_, _, heads, features) && heads == n && features == d
}

/// Heads rotated by the given positions; without such, by the positions from `offset` on.
pub open spec fn is_turned(
    y: Array,
    h: Array,
    config: RopeConfig,
    offset: i32,
    positions: Option<Array>,
) -> bool {
    match positions {
        Some(p) => *y.node == (Node::RopeAt { x: h, config, positions: p }),
        None => *y.node == (Node::Rope { x: h, config, offset }),
    }
}

/// Heads whose first `n` features are rotated by the positions from `offset` on, and whose others
/// are as they were.
pub open spec fn is_partly_turned(
    y: Array,
    h: Array,
    n: i32,
    config: RopeConfig,
    offset: i32,
) -> bool {
    let turned = first_of(y);
    &&& *y.node == (Node::Concat { a: turned, b: second_of(y), depth: 0 })
    &&& *turned.node == (Node::Rope { x: first_of(turned), config, offset })
    &&& *first_of(turned).node == (Node::Slice { x: h, depth: 0, from: 0, to: n })
    &&& *second_of(y).node == (Node::Slice { x: h, depth: 0, from: n, to: h.shape.inner() })
}

/// What heads were repeated from, where there are fewer of them than of queries.
pub open spec fn unrepeated(y: Array, n: i32, kv: i32) -> Array {
    if kv < n {
        first_of(first_of(first_of(y)))
    } else {
        y
    }
}

/// Each of the `kv` heads as often as it takes for `n` heads, side by side with itself.
pub open spec fn is_repeated(y: Array, x: Array, n: i32, kv: i32) -> bool {
    let wide = first_of(y);
    let one = first_of(wide);
    if kv < n {
        &&& *y.node == Node::Reshape(wide)
        &&& *wide.node == Node::BroadcastTo(one)
        &&& *one.node == Node::Reshape(x)
        &&& x.shape matches Shape::D4(b, h, l, d) && {
            &&& one.shape == Shape::D5(b, h, 1, l, d)
            &&& wide.shape == Shape::D5(b, h, (n as int / kv as int) as i32, l, d)
            &&& y.shape matches Shape::D4(yb, yh, yl, yd) && yb == b && yl == l && yd == d
                && yh == h * (
            n as int / kv as int)
        }
    } else {
        y == x
    }
}

/// The scores before the softmax and before the mask.
pub open spec fn scores_of(mixed: Array, mask: Option<Array>) -> Array {
    let masked = first_of(first_of(mixed));
    if mask is Some {
        first_of(masked)
    } else {
        masked
    }
}

/// `softmax(scale * q @ k.T + mask) @ v`.
pub open spec fn is_written_out(
    mixed: Array,
    q: Array,
    k: Array,
    v: Array,
    scale: Scale,
    mask: Option<Array>,
) -> bool {
    let weights = first_of(mixed);
    let scores = scores_of(mixed, mask);
    &&& *mixed.node == Node::Matmul(weights, v)
    &&& is_function(weights, Function::Softmax, first_of(weights))
    &&& mask matches Some(m) ==> is_sum(first_of(weights), scores, m)
    &&& is_function(scores, Function::Scaled(scale), first_of(scores))
    &&& *first_of(scores).node == Node::Matmul(q, second_of(first_of(scores)))
    &&& *second_of(first_of(scores)).node == Node::SwapInner(k)
}

/// The queries that were mixed, written out.
pub open spec fn queries_of(mixed: Array, mask: Option<Array>) -> Array {
    first_of(first_of(scores_of(mixed, mask)))
}

/// The keys that were mixed, written out.
pub open spec fn keys_of(mixed: Array, mask: Option<Array>) -> Array {
    first_of(second_of(first_of(scores_of(mixed, mask))))
}

/// Heads side by side again.
pub open spec fn is_joined(y: Array, mixed: Array) -> bool {
    &&& *y.node == Node::Reshape(first_of(y))
    &&& *first_of(y).node == Node::SwapMiddle(mixed)
}

/// What a cache held of a layer, with the new steps behind it.
pub open spec fn is_behind(y: Array, past: Option<Array>, new: Array) -> bool {
    match past {
        Some(p) => *y.node == (Node::Concat { a: p, b: new, depth: 1 }),
        None => y == new,
    }
}

/// The new steps behind what a cache held.
pub open spec fn newest(y: Array, past: Option<Array>) -> Array {
    if past is Some {
        second_of(y)
    } else {
        y
    }
}

pub open spec fn past_keys(cache: KVCacheState, layer: int) -> Option<Array> {
    match cache.entries[layer] {
        Some(e) => Some(e.0),
        None => None,
    }
}

pub open spec fn past_values(cache: KVCacheState, layer: int) -> Option<Array> {
    match cache.entries[layer] {
        Some(e) => Some(e.1),
        None => None,
    }
}

/// The cache gained these keys and values of the layer and nothing else; behind the last layer it
/// counts the steps that it holds.
pub open spec fn cache_gained(
    before: KVCacheState,
    after: KVCacheState,
    layer: int,
    k: Array,
    v: Array,
) -> bool {
    &&& 0 <= layer < before.entries.len()
    &&& after.config == before.config
    &&& after.entries.len() == before.entries.len()
    &&& after.entries[layer] == Some((k, v))
    &&& forall|j: int|
        0 <= j < before.entries.len() && j != layer ==> #[trigger] after.entries[j]
            == before.entries[j]
    &&& layer != before.entries.len() - 1 ==> after.offset == before.offset
    &&& layer == before.entries.len() - 1 ==> (k.shape matches Shape::D4(_, _, s, _)
        ==> after.offset == s)
}

/// Extents and settings of attention.
pub struct Heads {
    pub n: i32,
    pub kv: i32,
    pub d: i32,
    pub scale: Scale,
    pub rope: RopeConfig,
    pub q_norm: Option<RmsNorm>,
    pub k_norm: Option<RmsNorm>,
}

/// Rotated heads of what a layer makes of `x`.
pub open spec fn turned_heads<P: Projection>(
    y: Array,
    x: Array,
    p: P,
    n: i32,
    norm: Option<RmsNorm>,
    s: Heads,
    offset: i32,
    positions: Option<Array>,
) -> bool {
    let h = first_of(y);
    &&& is_turned(y, h, s.rope, offset, positions)
    &&& is_heads(h, unsplit(h, norm), n, s.d, norm)
    &&& p.makes(x, unsplit(h, norm))
}

/// Heads of what a layer makes of `x`, as they are.
pub open spec fn plain_heads<P: Projection>(y: Array, x: Array, p: P, n: i32, s: Heads) -> bool {
    is_heads(y, unsplit(y, None), n, s.d, None) && p.makes(x, unsplit(y, None))
}

/// Attention of the steps of `x` to each other: queries and keys rotated by position, values as
/// they are, mixed by the softmax of the scaled and masked scores, side by side and projected.
pub open spec fn attends<P: Projection>(
    y: Array,
    x: Array,
    q: P,
    k: P,
    v: P,
    o: P,
    s: Heads,
    mask: Option<Array>,
    positions: Option<Array>,
) -> bool {
    let h = o.fed(y);
    let mixed = first_of(first_of(h));
    let keys = keys_of(mixed, mask);
    let values = second_of(mixed);
    &&& o.makes(h, y)
    &&& is_joined(h, mixed)
    &&& is_written_out(mixed, queries_of(mixed, mask), keys, values, s.scale, mask)
    &&& turned_heads(queries_of(mixed, mask), x, q, s.n, s.q_norm, s, 0, positions)
    &&& is_repeated(keys, unrepeated(keys, s.n, s.kv), s.n, s.kv)
    &&& turned_heads(unrepeated(keys, s.n, s.kv), x, k, s.kv, s.k_norm, s, 0, positions)
    &&& is_repeated(values, unrepeated(values, s.n, s.kv), s.n, s.kv)
    &&& plain_heads(unrepeated(values, s.n, s.kv), x, v, s.kv, s)
}

/// One node of fused attention with these heads.
pub open spec fn is_fused(
    mixed: Array,
    s: Heads,
    mask_type: AttentionMaskType,
    mask: Option<Array>,
) -> bool {
    *mixed.node matches Node::Attend { q: _, k: _, v: _, config, mask: m } && {
        &&& m == mask
        &&& config.num_heads == s.n && config.num_kv_heads == s.kv && config.head_dim == s.d
        &&& config.scale == s.scale && config.mask_type == mask_type
    }
}

/// Fused attention of the steps of `x` to themselves and to those before them: queries and new
/// keys rotated by the positions from `offset` on, keys and values behind those that are past.
pub open spec fn attends_fused<P: Projection>(
    y: Array,
    mixed: Array,
    x: Array,
    q: P,
    k: P,
    v: P,
    s: Heads,
    mask_type: AttentionMaskType,
    mask: Option<Array>,
    offset: i32,
    past_k: Option<Array>,
    past_v: Option<Array>,
) -> bool {
    let keys = second_of(mixed);
    let values = third_of(mixed);
    &&& is_joined(y, mixed)
    &&& is_fused(mixed, s, mask_type, mask)
    &&& turned_heads(first_of(mixed), x, q, s.n, s.q_norm, s, offset, None)
    &&& is_behind(keys, past_k, newest(keys, past_k))
    &&& turned_heads(newest(keys, past_k), x, k, s.kv, s.k_norm, s, offset, None)
    &&& is_behind(values, past_v, newest(values, past_v))
    &&& plain_heads(newest(values, past_v), x, v, s.kv, s)
}

/// Fused attention of the steps of `x` to each other, projected.
pub open spec fn attends_alone<P: Projection>(
    y: Array,
    x: Array,
    q: P,
    k: P,
    v: P,
    o: P,
    s: Heads,
    mask_type: AttentionMaskType,
    mask: Option<Array>,
) -> bool {
    let h = o.fed(y);
    &&& o.makes(h, y)
    &&& attends_fused(h, first_of(first_of(h)), x, q, k, v, s, mask_type, mask, 0, None, None)
}

/// Fused attention of the steps of `x` to themselves and to those that the cache holds of the
/// layer: rotated by the positions behind the steps that the cache counts. The cache gains the
/// keys and values that were attended to.
pub open spec fn attends_cached<P: Projection>(
    end: (Array, KVCacheState),
    x: Array,
    q: P,
    k: P,
    v: P,
    o: P,
    s: Heads,
    mask_type: AttentionMaskType,
    mask: Option<Array>,
    cache: KVCacheState,
    layer: int,
) -> bool {
    let h = o.fed(end.0);
    let mixed = first_of(first_of(h));
    &&& o.makes(h, end.0)
    &&& attends_fused(
        h,
        mixed,
        x,
        q,
        k,
        v,
        s,
        mask_type,
        mask,
        cache.offset,
        past_keys(cache, layer),
        past_values(cache, layer),
    )
    &&& cache_gained(cache, end.1, layer, second_of(mixed), third_of(mixed))
}

/// Repeating heads repeats each of them, where the result fits.
pub proof fn lemma_match_heads_reads(x: Array, n: i32, kv: i32)
    requires
        kv > 0,
        match_heads(x, n, kv).fits,
    ensures
        is_repeated(match_heads(x, n, kv), x, n, kv),
        unrepeated(match_heads(x, n, kv), n, kv) == x,
        x.fits,
{
    broadcast use group_nodes;

}

pub proof fn lemma_gained(cache: KVCacheState, layer: int, k: Array, v: Array)
    requires
        cache.accepts(layer, k, v),
    ensures
        ({
            let both = cache.joined(layer, k, v);
            &&& is_behind(both.0, past_keys(cache, layer), k)
            &&& newest(both.0, past_keys(cache, layer)) == k
            &&& is_behind(both.1, past_values(cache, layer), v)
            &&& newest(both.1, past_values(cache, layer)) == v
            &&& cache_gained(cache, cache.extended(layer, k, v), layer, both.0, both.1)
        }),
{
    broadcast use group_nodes;

}

impl MistralLoraAttention {
    /// The extents and settings of the heads.
    pub open spec fn heads_read(self) -> Heads {
        Heads {
            n: self.n_heads,
            kv: self.n_kv_heads,
            d: self.head_dim,
            scale: self.scale,
            rope: self.rope,
            q_norm: None,
            k_norm: None,
        }
    }
}

/// Attention of a Mistral layer, read off its nodes.
pub proof fn law_mistral_attention_reads(a: MistralLoraAttention, x: Array, mask: Option<Array>)
    requires
        a.n_kv_heads > 0,
        a.output(x, mask).fits,
    ensures
        attends(
            a.output(x, mask),
            x,
            a.q_proj,
            a.k_proj,
            a.v_proj,
            a.o_proj,
            a.heads_read(),
            mask,
            None,
        ),
{
    broadcast use {group_nodes, law_lora_reads};

    lemma_match_heads_reads(rope(a.keys(x), a.rope, 0), a.n_heads, a.n_kv_heads);
    lemma_match_heads_reads(a.values(x), a.n_heads, a.n_kv_heads);
}

/// Fused attention of a Mistral layer over the input alone, read off its nodes.
pub proof fn law_mistral_fused_reads(a: MistralLoraAttention, x: Array, mask: Option<Array>)
    requires
        a.fused_output(x, mask).fits,
    ensures
        attends_alone(
            a.fused_output(x, mask),
            x,
            a.q_proj,
            a.k_proj,
            a.v_proj,
            a.o_proj,
            a.heads_read(),
            match a.sliding_window {
                Some(w) => AttentionMaskType::SlidingWindow(w),
                None => AttentionMaskType::Causal,
            },
            mask,
        ),
{
    broadcast use {group_nodes, law_lora_reads};

}

/// Attention of a Mistral layer over a cache, read off its nodes: behind the steps that the cache
/// counts, queries and new keys are rotated by the positions from that count on.
pub proof fn law_mistral_cached_reads(
    a: MistralLoraAttention,
    x: Array,
    mask: Option<Array>,
    cache: KVCacheState,
    layer: int,
)
    requires
        a.cached_output(x, mask, cache, layer).0.fits,
    ensures
        attends_cached(
            a.cached_output(x, mask, cache, layer),
            x,
            a.q_proj,
            a.k_proj,
            a.v_proj,
            a.o_proj,
            a.heads_read(),
            match a.sliding_window {
                Some(w) => AttentionMaskType::SlidingWindow(w),
                None => AttentionMaskType::Causal,
            },
            mask,
            cache,
            layer,
        ),
{
    broadcast use {group_nodes, law_lora_reads};

    lemma_gained(cache, layer, rope(a.keys(x), a.rope, cache.offset), a.values(x));
}

impl Qwen3LoraAttention {
    /// The extents and settings of the heads.
    pub open spec fn heads_read(self) -> Heads {
        Heads {
            n: self.n_heads,
            kv: self.n_kv_heads,
            d: self.head_dim,
            scale: self.scale,
            rope: self.rope,
            q_norm: Some(self.q_norm),
            k_norm: Some(self.k_norm),
        }
    }
}

/// Attention of a Qwen3 layer, read off its nodes: written out, but in training on long inputs by
/// the kernel that keeps what a backward pass needs, under the number of the layer.
pub proof fn law_qwen3_attention_reads(
    a: Qwen3LoraAttention,
    x: Array,
    mask: Option<Array>,
    positions: Option<Array>,
    training: bool,
)
    requires
        a.n_kv_heads > 0,
        a.output(x, mask, positions, training).fits,
    ensures
        ({
            let y = a.output(x, mask, positions, training);
            let h = a.o_proj.fed(y);
            let mixed = first_of(first_of(h));
            let s = a.heads_read();
            if training && x.shape.dims()[1] >= 2048 {
                &&& a.o_proj.makes(h, y)
                &&& is_joined(h, mixed)
                &&& *mixed.node matches Node::FlashAttend { layer, q, k, v, config }
                &&& layer == a.layer_id
                &&& config.num_heads == s.n && config.num_kv_heads == s.kv
                &&& config.head_dim == s.d && config.scale == s.scale
                &&& config.mask_type == AttentionMaskType::Causal
                &&& turned_heads(q, x, a.q_proj, s.n, s.q_norm, s, 0, positions)
                &&& turned_heads(k, x, a.k_proj, s.kv, s.k_norm, s, 0, positions)
                &&& plain_heads(v, x, a.v_proj, s.kv, s)
            } else {
                attends(y, x, a.q_proj, a.k_proj, a.v_proj, a.o_proj, s, mask, positions)
            }
        }),
{
    broadcast use {group_nodes, law_lora_reads};

    if !(training && x.shape.dims()[1] >= 2048) {
        lemma_match_heads_reads(a.rotated(a.keys(x), positions), a.n_heads, a.n_kv_heads);
        lemma_match_heads_reads(a.values(x), a.n_heads, a.n_kv_heads);
    }
}

/// Fused attention of a Qwen3 layer over the input alone, read off its nodes.
pub proof fn law_qwen3_fused_reads(a: Qwen3LoraAttention, x: Array, mask: Option<Array>)
    requires
        a.fused_output(x, mask).fits,
    ensures
        attends_alone(
            a.fused_output(x, mask),
            x,
            a.q_proj,
            a.k_proj,
            a.v_proj,
            a.o_proj,
            a.heads_read(),
            AttentionMaskType::Causal,
            mask,
        ),
{
    broadcast use {group_nodes, law_lora_reads};

}

/// Attention of a Qwen3 layer over a cache, read off its nodes: behind the steps that the cache
/// counts, queries and new keys are rotated by the positions from that count on.
pub proof fn law_qwen3_cached_reads(
    a: Qwen3LoraAttention,
    x: Array,
    mask: Option<Array>,
    cache: KVCacheState,
    layer: int,
)
    requires
        a.cached_output(x, mask, cache, layer).0.fits,
    ensures
        attends_cached(
            a.cached_output(x, mask, cache, layer),
            x,
            a.q_proj,
            a.k_proj,
            a.v_proj,
            a.o_proj,
            a.heads_read(),
            AttentionMaskType::Causal,
            mask,
            cache,
            layer,
        ),
{
    broadcast use {group_nodes, law_lora_reads};

    lemma_gained(cache, layer, rope(a.keys(x), a.rope, cache.offset), a.values(x));
}

impl MllamaLoraSelfAttention {
    /// The extents and settings of the heads.
    pub open spec fn heads_read(self) -> Heads {
        Heads {
            n: self.n_heads,
            kv: self.n_kv_heads,
            d: self.head_dim,
            scale: self.scale,
            rope: self.rope,
            q_norm: None,
            k_norm: None,
        }
    }
}

/// Attention of an MLlama layer, read off its nodes.
pub proof fn law_mllama_attention_reads(a: MllamaLoraSelfAttention, x: Array, mask: Option<Array>)
    requires
        a.n_kv_heads > 0,
        a.output(x, mask).fits,
    ensures
        attends(
            a.output(x, mask),
            x,
            a.q_proj,
            a.k_proj,
            a.v_proj,
            a.o_proj,
            a.heads_read(),
            mask,
            None,
        ),
{
    broadcast use {group_nodes, law_adapter_reads};

    lemma_match_heads_reads(rope(a.keys(x), a.rope, 0), a.n_heads, a.n_kv_heads);
    lemma_match_heads_reads(a.values(x), a.n_heads, a.n_kv_heads);
}

/// Attention of an MLlama layer with positions given, read off its nodes.
pub proof fn law_mllama_positioned_attention_reads(
    a: MllamaLoraSelfAttention,
    x: Array,
    mask: Option<Array>,
    positions: Array,
)
    requires
        a.n_kv_heads > 0,
        a.positioned_output(x, mask, positions).fits,
    ensures
        attends(
            a.positioned_output(x, mask, positions),
            x,
            a.q_proj,
            a.k_proj,
            a.v_proj,
            a.o_proj,
            a.heads_read(),
            mask,
            Some(positions),
        ),
{
    broadcast use {group_nodes, law_adapter_reads};

    lemma_match_heads_reads(rope_at(a.keys(x), a.rope, positions), a.n_heads, a.n_kv_heads);
    lemma_match_heads_reads(a.values(x), a.n_heads, a.n_kv_heads);
}

/// Fused attention of an MLlama layer over the input alone, read off its nodes.
pub proof fn law_mllama_fused_reads(a: MllamaLoraSelfAttention, x: Array, mask: Option<Array>)
    requires
        a.fused_output(x, mask).fits,
    ensures
        attends_alone(
            a.fused_output(x, mask),
            x,
            a.q_proj,
            a.k_proj,
            a.v_proj,
            a.o_proj,
            a.heads_read(),
            AttentionMaskType::Causal,
            mask,
        ),
{
    broadcast use {group_nodes, law_adapter_reads};

}

/// Attention of an MLlama layer over a cache, read off its nodes: behind the steps that the cache
/// counts, queries and new keys are rotated by the positions from that count on.
pub proof fn law_mllama_cached_reads(
    a: MllamaLoraSelfAttention,
    x: Array,
    mask: Option<Array>,
    cache: KVCacheState,
    layer: int,
)
    requires
        a.cached_output(x, mask, cache, layer).0.fits,
    ensures
        attends_cached(
            a.cached_output(x, mask, cache, layer),
            x,
            a.q_proj,
            a.k_proj,
            a.v_proj,
            a.o_proj,
            a.heads_read(),
            AttentionMaskType::Causal,
            mask,
            cache,
            layer,
        ),
{
    broadcast use {group_nodes, law_adapter_reads};

    lemma_gained(cache, layer, rope(a.keys(x), a.rope, cache.offset), a.values(x));
}

impl NemotronHLoraAttention {
    /// The extents and settings of the heads.
    pub open spec fn heads_read(self) -> Heads {
        Heads {
            n: self.num_heads,
            kv: self.num_kv_heads,
            d: self.head_dim,
            scale: self.scale,
            rope: RopeConfig {
                dims: self.head_dim,
                base: self.rope_theta,
                scale: F32 { bits: ONE_BITS },
            },
            q_norm: None,
            k_norm: None,
        }
    }
}

/// Fused attention of a Nemotron-H block over the input alone, read off its nodes.
pub proof fn law_nemotron_fused_reads(a: NemotronHLoraAttention, x: Array, mask: Option<Array>)
    requires
        a.output(x, mask).fits,
    ensures
        attends_alone(
            a.output(x, mask),
            x,
            a.q_proj,
            a.k_proj,
            a.v_proj,
            a.o_proj,
            a.heads_read(),
            AttentionMaskType::Causal,
            mask,
        ),
{
    broadcast use {group_nodes, law_lora_reads};

}

/// Attention of a Nemotron-H block over a cache, read off its nodes: behind the steps that the
/// cache counts, queries and new keys are rotated by the positions from that count on.
pub proof fn law_nemotron_cached_reads(
    a: NemotronHLoraAttention,
    x: Array,
    mask: Option<Array>,
    cache: KVCacheState,
    layer: int,
)
    requires
        a.cached_output(x, mask, cache, layer).0.fits,
    ensures
        attends_cached(
            a.cached_output(x, mask, cache, layer),
            x,
            a.q_proj,
            a.k_proj,
            a.v_proj,
            a.o_proj,
            a.heads_read(),
            AttentionMaskType::Causal,
            mask,
            cache,
            layer,
        ),
{
    broadcast use {group_nodes, law_lora_reads};

    lemma_gained(cache, layer, a.parts(x, cache.offset).1, a.parts(x, cache.offset).2);
}

impl NemotronHQloraAttention {
    /// The extents and settings of the heads.
    pub open spec fn heads_read(self) -> Heads {
        Heads {
            n: self.num_heads,
            kv: self.num_kv_heads,
            d: self.head_dim,
            scale: self.scale,
            rope: RopeConfig {
                dims: self.head_dim,
                base: self.rope_theta,
                scale: F32 { bits: ONE_BITS },
            },
            q_norm: None,
            k_norm: None,
        }
    }
}

/// Fused attention of a quantized Nemotron-H block over the input alone, read off its nodes.
pub proof fn law_nemotron_qlora_fused_reads(
    a: NemotronHQloraAttention,
    x: Array,
    mask: Option<Array>,
)
    requires
        a.output(x, mask).fits,
    ensures
        attends_alone(
            a.output(x, mask),
            x,
            a.q_proj,
            a.k_proj,
            a.v_proj,
            a.o_proj,
            a.heads_read(),
            AttentionMaskType::Causal,
            mask,
        ),
{
    broadcast use {group_nodes, law_qlora_reads};

}

/// Attention of a quantized Nemotron-H block over a cache, read off its nodes: behind the steps
/// that the cache counts, queries and new keys are rotated by the positions from that count on.
pub proof fn law_nemotron_qlora_cached_reads(
    a: NemotronHQloraAttention,
    x: Array,
    mask: Option<Array>,
    cache: KVCacheState,
    layer: int,
)
    requires
        a.cached_output(x, mask, cache, layer).0.fits,
    ensures
        attends_cached(
            a.cached_output(x, mask, cache, layer),
            x,
            a.q_proj,
            a.k_proj,
            a.v_proj,
            a.o_proj,
            a.heads_read(),
            AttentionMaskType::Causal,
            mask,
            cache,
            layer,
        ),
{
    broadcast use {group_nodes, law_qlora_reads};

    lemma_gained(cache, layer, a.parts(x, cache.offset).1, a.parts(x, cache.offset).2);
}

impl Qwen3MoELoraAttention {
    /// The extents and settings of the heads.
    pub open spec fn heads_read(self) -> Heads {
        Heads {
            n: self.n_heads,
            kv: self.n_kv_heads,
            d: self.head_dim,
            scale: self.scale,
            rope: RopeConfig {
                dims: self.head_dim,
                base: self.effective_base,
                scale: self.rope_scale,
            },
            q_norm: Some(self.q_norm),
            k_norm: Some(self.k_norm),
        }
    }
}

/// Fused attention of a Qwen3-MoE layer over the input alone, read off its nodes.
pub proof fn law_moe_lora_fused_reads(a: Qwen3MoELoraAttention, x: Array, mask: Option<Array>)
    requires
        a.output(x, mask).fits,
    ensures
        attends_alone(
            a.output(x, mask),
            x,
            a.q_proj,
            a.k_proj,
            a.v_proj,
            a.o_proj,
            a.heads_read(),
            if mask is Some {
                AttentionMaskType::Unmasked
            } else {
                AttentionMaskType::Causal
            },
            mask,
        ),
{
    broadcast use {group_nodes, law_lora_reads};

}

/// Attention of a Qwen3-MoE layer over a cache, read off its nodes: behind the steps that the cache
/// counts, queries and new keys are rotated by the positions from that count on.
pub proof fn law_moe_lora_cached_reads(
    a: Qwen3MoELoraAttention,
    x: Array,
    mask: Option<Array>,
    cache: KVCacheState,
    layer: int,
)
    requires
        a.cached_output(x, mask, cache, layer).0.fits,
    ensures
        attends_cached(
            a.cached_output(x, mask, cache, layer),
            x,
            a.q_proj,
            a.k_proj,
            a.v_proj,
            a.o_proj,
            a.heads_read(),
            if mask is Some {
                AttentionMaskType::Unmasked
            } else {
                AttentionMaskType::Causal
            },
            mask,
            cache,
            layer,
        ),
{
    broadcast use {group_nodes, law_lora_reads};

    lemma_gained(cache, layer, rope(a.keys(x), a.rope(), cache.offset), a.values(x));
}

impl Qwen3MoEQLoraAttention {
    /// The extents and settings of the heads.
    pub open spec fn heads_read(self) -> Heads {
        Heads {
            n: self.n_heads,
            kv: self.n_kv_heads,
            d: self.head_dim,
            scale: self.scale,
            rope: RopeConfig {
                dims: self.head_dim,
                base: self.effective_base,
                scale: self.rope_scale,
            },
            q_norm: Some(self.q_norm),
            k_norm: Some(self.k_norm),
        }
    }
}

/// Fused attention of a quantized Qwen3-MoE layer over the input alone, read off its nodes.
pub proof fn law_moe_qlora_fused_reads(a: Qwen3MoEQLoraAttention, x: Array, mask: Option<Array>)
    requires
        a.output(x, mask).fits,
    ensures
        attends_alone(
            a.output(x, mask),
            x,
            a.q_proj,
            a.k_proj,
            a.v_proj,
            a.o_proj,
            a.heads_read(),
            if mask is Some {
                AttentionMaskType::Unmasked
            } else {
                AttentionMaskType::Causal
            },
            mask,
        ),
{
    broadcast use {group_nodes, law_qlora_reads};

}

/// Attention of a quantized Qwen3-MoE layer over a cache, read off its nodes: behind the steps that
/// the cache counts, queries and new keys are rotated by the positions from that count on.
pub proof fn law_moe_qlora_cached_reads(
    a: Qwen3MoEQLoraAttention,
    x: Array,
    mask: Option<Array>,
    cache: KVCacheState,
    layer: int,
)
    requires
        a.cached_output(x, mask, cache, layer).0.fits,
    ensures
        attends_cached(
            a.cached_output(x, mask, cache, layer),
            x,
            a.q_proj,
            a.k_proj,
            a.v_proj,
            a.o_proj,
            a.heads_read(),
            if mask is Some {
                AttentionMaskType::Unmasked
            } else {
                AttentionMaskType::Causal
            },
            mask,
            cache,
            layer,
        ),
{
    broadcast use {group_nodes, law_qlora_reads};

    lemma_gained(cache, layer, rope(a.keys(x), a.rope(), cache.offset), a.values(x));
}

} // verus!
