//! What partly rotated attention computes, read off the nodes that it builds.

use crate::array::{Array, AttentionMaskType, RopeConfig};
use crate::attention_reading::{
    Heads, cache_gained, is_behind, is_fused, is_heads, is_joined, is_partly_turned, is_repeated,
    is_written_out, keys_of, lemma_gained, lemma_match_heads_reads, newest, past_keys, past_values,
    plain_heads, queries_of, unrepeated, unsplit,
};
use crate::kv_cache::KVCacheState;
use crate::phi_lora::PhiLoraAttention;
use crate::phi_qlora::PhiQLoraAttention;
use crate::reading::{
    Projection, first_of, group_nodes, law_lora_reads, law_qlora_reads, second_of, third_of,
};
use crate::shapes::lemma_swap_middle_shape;
use vstd::prelude::*;

verus! {

/// Heads of what a layer makes of `x`, the first `n` features of each rotated by the positions
/// from `offset` on.
pub open spec fn partly_turned_heads<P: Projection>(
    y: Array,
    x: Array,
    p: P,
    heads: i32,
    d: i32,
    n: i32,
    rope: RopeConfig,
    offset: i32,
) -> bool {
    let h = first_of(first_of(first_of(y)));
    &&& is_partly_turned(y, h, n, rope, offset)
    &&& is_heads(h, unsplit(h, None), heads, d, None)
    &&& p.makes(x, unsplit(h, None))
}

impl PhiLoraAttention {
    /// The extents and settings of the heads.
    pub open spec fn heads_read(self) -> Heads {
        Heads {
            n: self.n_heads,
            kv: self.n_kv_heads,
            d: self.head_dim,
            scale: self.scale,
            rope: self.rope,
            q_norm: None,
            k_norm: None,
        }
    }

    /// Queries of this layer.
    pub open spec fn query_read(self, y: Array, x: Array, offset: i32) -> bool {
        partly_turned_heads(
            y,
            x,
            self.q_proj,
            self.n_heads,
            self.head_dim,
            self.rope_dim,
            self.rope,
            offset,
        )
    }

    /// Keys of this layer.
    pub open spec fn key_read(self, y: Array, x: Array, offset: i32) -> bool {
        partly_turned_heads(
            y,
            x,
            self.k_proj,
            self.n_kv_heads,
            self.head_dim,
            self.rope_dim,
            self.rope,
            offset,
        )
    }
}

proof fn lemma_phi_parts_read(a: PhiLoraAttention, x: Array, offset: i32)
    requires
        0 <= a.rope_dim <= a.head_dim,
    ensures
        a.query_read(a.parts(x, offset).0, x, offset),
        a.key_read(a.parts(x, offset).1, x, offset),
        plain_heads(a.parts(x, offset).2, x, a.v_proj, a.n_kv_heads, a.heads_read()),
{
    broadcast use {group_nodes, law_lora_reads, lemma_swap_middle_shape};

}

/// Attention of a Phi layer, read off its nodes: the first features of each head rotated by
/// position, the others as they are, mixed by the softmax of the scaled and masked scores.
pub proof fn law_phi_attention_reads(a: PhiLoraAttention, x: Array, mask: Option<Array>)
    requires
        a.n_kv_heads > 0,
        0 <= a.rope_dim <= a.head_dim,
        a.output(x, mask).fits,
    ensures
        ({
            let y = a.output(x, mask);
            let s = a.heads_read();
            let h = a.o_proj.fed(y);
            let mixed = first_of(first_of(h));
            let keys = keys_of(mixed, mask);
            let values = second_of(mixed);
            &&& a.o_proj.makes(h, y)
            &&& is_joined(h, mixed)
            &&& is_written_out(mixed, queries_of(mixed, mask), keys, values, s.scale, mask)
            &&& a.query_read(queries_of(mixed, mask), x, 0)
            &&& is_repeated(keys, unrepeated(keys, s.n, s.kv), s.n, s.kv)
            &&& a.key_read(unrepeated(keys, s.n, s.kv), x, 0)
            &&& is_repeated(values, unrepeated(values, s.n, s.kv), s.n, s.kv)
            &&& plain_heads(unrepeated(values, s.n, s.kv), x, a.v_proj, s.kv, s)
        }),
{
    broadcast use {group_nodes, law_lora_reads};

    lemma_phi_parts_read(a, x, 0);
    lemma_match_heads_reads(a.parts(x, 0).1, a.n_heads, a.n_kv_heads);
    lemma_match_heads_reads(a.parts(x, 0).2, a.n_heads, a.n_kv_heads);
}

/// Fused attention of a Phi layer over the input alone, read off its nodes.
pub proof fn law_phi_fused_reads(a: PhiLoraAttention, x: Array, mask: Option<Array>)
    requires
        0 <= a.rope_dim <= a.head_dim,
    ensures
        ({
            let y = a.fused_output(x, mask);
            let s = a.heads_read();
            let h = a.o_proj.fed(y);
            let mixed = first_of(first_of(h));
            &&& a.o_proj.makes(h, y)
            &&& is_joined(h, mixed)
            &&& is_fused(mixed, s, AttentionMaskType::Causal, mask)
            &&& a.query_read(first_of(mixed), x, 0)
            &&& a.key_read(second_of(mixed), x, 0)
            &&& plain_heads(third_of(mixed), x, a.v_proj, s.kv, s)
        }),
{
    broadcast use {group_nodes, law_lora_reads};

    lemma_phi_parts_read(a, x, 0);
}

/// Attention of a Phi layer over a cache, read off its nodes: behind the steps that the cache
/// counts, queries and new keys are rotated by the positions from that count on.
pub proof fn law_phi_cached_reads(
    a: PhiLoraAttention,
    x: Array,
    mask: Option<Array>,
    cache: KVCacheState,
    layer: int,
)
    requires
        0 <= a.rope_dim <= a.head_dim,
        a.cached_output(x, mask, cache, layer).0.fits,
    ensures
        ({
            let end = a.cached_output(x, mask, cache, layer);
            let s = a.heads_read();
            let h = a.o_proj.fed(end.0);
            let mixed = first_of(first_of(h));
            let k = second_of(mixed);
            let v = third_of(mixed);
            let past_k = past_keys(cache, layer);
            let past_v = past_values(cache, layer);
            &&& a.o_proj.makes(h, end.0)
            &&& is_joined(h, mixed)
            &&& is_fused(mixed, s, AttentionMaskType::Causal, mask)
            &&& a.query_read(first_of(mixed), x, cache.offset)
            &&& is_behind(k, past_k, newest(k, past_k))
            &&& a.key_read(newest(k, past_k), x, cache.offset)
            &&& is_behind(v, past_v, newest(v, past_v))
            &&& plain_heads(newest(v, past_v), x, a.v_proj, s.kv, s)
            &&& cache_gained(cache, end.1, layer, k, v)
        }),
{
    broadcast use {group_nodes, law_lora_reads};

    lemma_phi_parts_read(a, x, cache.offset);
    lemma_gained(cache, layer, a.parts(x, cache.offset).1, a.parts(x, cache.offset).2);
}

impl PhiQLoraAttention {
    /// The extents and settings of the heads.
    pub open spec fn heads_read(self) -> Heads {
        Heads {
            n: self.n_heads,
            kv: self.n_kv_heads,
            d: self.head_dim,
            scale: self.scale,
            rope: self.rope,
            q_norm: None,
            k_norm: None,
        }
    }

    /// Queries of this layer.
    pub open spec fn query_read(self, y: Array, x: Array, offset: i32) -> bool {
        partly_turned_heads(
            y,
            x,
            self.q_proj,
            self.n_heads,
            self.head_dim,
            self.rope_dim,
            self.rope,
            offset,
        )
    }

    /// Keys of this layer.
    pub open spec fn key_read(self, y: Array, x: Array, offset: i32) -> bool {
        partly_turned_heads(
            y,
            x,
            self.k_proj,
            self.n_kv_heads,
            self.head_dim,
            self.rope_dim,
            self.rope,
            offset,
        )
    }
}

proof fn lemma_phi_qlora_parts_read(a: PhiQLoraAttention, x: Array, offset: i32)
    requires
        0 <= a.rope_dim <= a.head_dim,
    ensures
        a.query_read(a.parts(x, offset).0, x, offset),
        a.key_read(a.parts(x, offset).1, x, offset),
        plain_heads(a.parts(x, offset).2, x, a.v_proj, a.n_kv_heads, a.heads_read()),
{
    broadcast use {group_nodes, law_qlora_reads, lemma_swap_middle_shape};

}

/// Attention of a quantized Phi layer, read off its nodes: the first features of each head rotated
/// by position, the others as they are, mixed by the softmax of the scaled and masked scores.
pub proof fn law_phi_qlora_attention_reads(a: PhiQLoraAttention, x: Array, mask: Option<Array>)
    requires
        a.n_kv_heads > 0,
        0 <= a.rope_dim <= a.head_dim,
        a.output(x, mask).fits,
    ensures
        ({
            let y = a.output(x, mask);
            let s = a.heads_read();
            let h = a.o_proj.fed(y);
            let mixed = first_of(first_of(h));
            let keys = keys_of(mixed, mask);
            let values = second_of(mixed);
            &&& a.o_proj.makes(h, y)
            &&& is_joined(h, mixed)
            &&& is_written_out(mixed, queries_of(mixed, mask), keys, values, s.scale, mask)
            &&& a.query_read(queries_of(mixed, mask), x, 0)
            &&& is_repeated(keys, unrepeated(keys, s.n, s.kv), s.n, s.kv)
            &&& a.key_read(unrepeated(keys, s.n, s.kv), x, 0)
            &&& is_repeated(values, unrepeated(values, s.n, s.kv), s.n, s.kv)
            &&& plain_heads(unrepeated(values, s.n, s.kv), x, a.v_proj, s.kv, s)
        }),
{
    broadcast use {group_nodes, law_qlora_reads};

    lemma_phi_qlora_parts_read(a, x, 0);
    lemma_match_heads_reads(a.parts(x, 0).1, a.n_heads, a.n_kv_heads);
    lemma_match_heads_reads(a.parts(x, 0).2, a.n_heads, a.n_kv_heads);
}

/// Fused attention of a quantized Phi layer over the input alone, read off its nodes.
pub proof fn law_phi_qlora_fused_reads(a: PhiQLoraAttention, x: Array, mask: Option<Array>)
    requires
        0 <= a.rope_dim <= a.head_dim,
    ensures
        ({
            let y = a.fused_output(x, mask);
            let s = a.heads_read();
            let h = a.o_proj.fed(y);
            let mixed = first_of(first_of(h));
            &&& a.o_proj.makes(h, y)
            &&& is_joined(h, mixed)
            &&& is_fused(mixed, s, AttentionMaskType::Causal, mask)
            &&& a.query_read(first_of(mixed), x, 0)
            &&& a.key_read(second_of(mixed), x, 0)
            &&& plain_heads(third_of(mixed), x, a.v_proj, s.kv, s)
        }),
{
    broadcast use {group_nodes, law_qlora_reads};

    lemma_phi_qlora_parts_read(a, x, 0);
}

/// Attention of a quantized Phi layer over a cache, read off its nodes: behind the steps that the
/// cache counts, queries and new keys are rotated by the positions from that count on.
pub proof fn law_phi_qlora_cached_reads(
    a: PhiQLoraAttention,
    x: Array,
    mask: Option<Array>,
    cache: KVCacheState,
    layer: int,
)
    requires
        0 <= a.rope_dim <= a.head_dim,
        a.cached_output(x, mask, cache, layer).0.fits,
    ensures
        ({
            let end = a.cached_output(x, mask, cache, layer);
            let s = a.heads_read();
            let h = a.o_proj.fed(end.0);
            let mixed = first_of(first_of(h));
            let k = second_of(mixed);
            let v = third_of(mixed);
            let past_k = past_keys(cache, layer);
            let past_v = past_values(cache, layer);
            &&& a.o_proj.makes(h, end.0)
            &&& is_joined(h, mixed)
            &&& is_fused(mixed, s, AttentionMaskType::Causal, mask)
            &&& a.query_read(first_of(mixed), x, cache.offset)
            &&& is_behind(k, past_k, newest(k, past_k))
            &&& a.key_read(newest(k, past_k), x, cache.offset)
            &&& is_behind(v, past_v, newest(v, past_v))
            &&& plain_heads(newest(v, past_v), x, a.v_proj, s.kv, s)
            &&& cache_gained(cache, end.1, layer, k, v)
        }),
{
    broadcast use {group_nodes, law_qlora_reads};

    lemma_phi_qlora_parts_read(a, x, cache.offset);
    lemma_gained(cache, layer, a.parts(x, cache.offset).1, a.parts(x, cache.offset).2);
}

} // verus!
