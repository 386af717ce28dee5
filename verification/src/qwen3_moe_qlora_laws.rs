//! What a Qwen3 mixture of experts with quantized weights gives for inputs of fitting shapes.

use crate::array::{Array, attend, mask_fits, plus, reshape, rope};
use crate::attention::rows_of;
use crate::kv_cache::KVCacheState;
use crate::nn::logits;
use crate::qlora::QLoraConfig;
use crate::qwen3_moe::{in_step, law_stacks_follow_weights};
use crate::qwen3_moe_lora::{Qwen3MoELoraDecoderLayer, Qwen3MoELoraFeedForward};
use crate::qwen3_moe_lora_laws::{experts_shaped, lemma_routed_shape, lemma_rows_shape};
use crate::qwen3_moe_qlora::{
    Qwen3MoEQLoraAttention, Qwen3MoEQLoraDecoderLayer, Qwen3MoEQLoraDenseMLP,
    Qwen3MoEQLoraFeedForward, Qwen3MoEQLoraForCausalLM, Qwen3MoEQLoraMoEBlock,
    moe_qlora_cached_stack, moe_qlora_stack,
};
use crate::shape::Shape;
use crate::shapes::{
    batch, cache_at, cache_holds, grouped, is_of, layer_holds, lemma_attend_shape, lemma_cache_step,
    lemma_causal_covers, lemma_combine_same, lemma_embed_shape, lemma_gated_shape,
    lemma_heads_shape, lemma_kv_width, lemma_logits_shape, lemma_merge_shape, lemma_qlora_shape,
    lemma_quantized_maps, lemma_rms_norm_fits, lemma_rope_shape, lemma_split_shape,
    lemma_swap_middle_shape, mask_covers, steps_at,
};
use vstd::prelude::*;

verus! {

impl Qwen3MoEQLoraAttention {
    /// The extents of the projections are those of the heads.
    pub open spec fn shaped(self, hidden: i32) -> bool {
        let q = (self.n_heads * self.head_dim) as i32;
        let kv = (self.n_kv_heads * self.head_dim) as i32;
        &&& grouped(self.n_heads, self.n_kv_heads, self.head_dim)
        &&& self.q_proj.maps(hidden, q) && self.k_proj.maps(hidden, kv)
        &&& self.v_proj.maps(hidden, kv) && self.o_proj.maps(q, hidden)
        &&& self.q_norm.well_formed(self.head_dim) && self.k_norm.well_formed(self.head_dim)
    }
}

pub proof fn lemma_moe_qlora_parts(a: Qwen3MoEQLoraAttention, x: Array, b: i32, l: i32, hidden: i32)
    requires
        a.shaped(hidden),
        batch(b, l),
        is_of(x, Shape::D3(b, l, hidden)),
    ensures
        is_of(a.queries(x), Shape::D4(b, a.n_heads, l, a.head_dim)),
        is_of(a.keys(x), Shape::D4(b, a.n_kv_heads, l, a.head_dim)),
        is_of(a.values(x), Shape::D4(b, a.n_kv_heads, l, a.head_dim)),
{
    broadcast use {lemma_qlora_shape, lemma_rms_norm_fits};

    lemma_kv_width(a.n_heads, a.n_kv_heads, a.head_dim);
    lemma_heads_shape(a.q_proj.output(x), b, l, a.n_heads, a.head_dim);
    lemma_heads_shape(a.k_proj.output(x), b, l, a.n_kv_heads, a.head_dim);
    lemma_swap_middle_shape(
        a.q_norm.output(reshape(a.q_proj.output(x), Shape::D4(b, l, a.n_heads, a.head_dim))),
    );
    lemma_swap_middle_shape(
        a.k_norm.output(reshape(a.k_proj.output(x), Shape::D4(b, l, a.n_kv_heads, a.head_dim))),
    );
    lemma_split_shape(a.v_proj.output(x), b, l, a.n_kv_heads, a.head_dim);
}

proof fn lemma_moe_qlora_attention(
    a: Qwen3MoEQLoraAttention,
    x: Array,
    mask: Option<Array>,
    b: i32,
    l: i32,
    hidden: i32,
)
    requires
        a.shaped(hidden),
        batch(b, l),
        is_of(x, Shape::D3(b, l, hidden)),
        mask_covers(mask, b, a.n_heads, l),
    ensures
        is_of(a.output(x, mask), Shape::D3(b, l, hidden)),
{
    broadcast use {lemma_qlora_shape, lemma_rope_shape};

    lemma_moe_qlora_parts(a, x, b, l, hidden);
    let q = rope(a.queries(x), a.rope(), 0);
    let k = rope(a.keys(x), a.rope(), 0);
    let v = a.values(x);
    lemma_attend_shape(q, k, v, a.fused_config(mask), mask, b, l, l);
    lemma_merge_shape(
        attend(q, k, v, a.fused_config(mask), mask),
        b,
        l,
        a.n_heads,
        a.head_dim,
    );
}

pub proof fn lemma_moe_qlora_cached_attention(
    a: Qwen3MoEQLoraAttention,
    x: Array,
    mask: Option<Array>,
    cache: KVCacheState,
    n: nat,
    i: int,
    b: i32,
    l: i32,
    s: int,
    hidden: i32,
)
    requires
        a.shaped(hidden),
        batch(b, l),
        0 <= i < n,
        0 <= s,
        s + l <= i32::MAX,
        is_of(x, Shape::D3(b, l, hidden)),
        mask_fits(mask),
        cache_at(cache, n, i, b, a.n_kv_heads, a.head_dim, s, l),
    ensures
        is_of(a.cached_output(x, mask, cache, i).0, Shape::D3(b, l, hidden)),
        cache_at(
            a.cached_output(x, mask, cache, i).1,
            n,
            i + 1,
            b,
            a.n_kv_heads,
            a.head_dim,
            s,
            l,
        ),
{
    broadcast use {lemma_qlora_shape, lemma_rope_shape};

    lemma_moe_qlora_parts(a, x, b, l, hidden);
    let q = rope(a.queries(x), a.rope(), cache.offset);
    let k = rope(a.keys(x), a.rope(), cache.offset);
    let v = a.values(x);
    lemma_cache_step(cache, n, i, b, a.n_kv_heads, a.head_dim, s, l, k, v);
    let both = cache.joined(i, k, v);
    lemma_attend_shape(q, both.0, both.1, a.fused_config(mask), mask, b, l, (s + l) as i32);
    lemma_merge_shape(
        attend(q, both.0, both.1, a.fused_config(mask), mask),
        b,
        l,
        a.n_heads,
        a.head_dim,
    );
}

impl Qwen3MoEQLoraDenseMLP {
    /// The extents of the projections go together.
    pub open spec fn shaped(self, hidden: i32) -> bool {
        let n = self.gate_proj.out_features;
        self.gate_proj.maps(hidden, n) && self.up_proj.maps(hidden, n) && self.down_proj.maps(
            n,
            hidden,
        )
    }
}

proof fn lemma_moe_qlora_mlp(m: Qwen3MoEQLoraDenseMLP, x: Array, shape: Shape, hidden: i32)
    requires
        m.shaped(hidden),
        is_of(x, shape),
        shape.rank() >= 2,
        shape.inner() == hidden,
    ensures
        is_of(m.output(x), shape),
{
    broadcast use lemma_qlora_shape;

    lemma_gated_shape(
        m.gate_proj.output(x),
        m.up_proj.output(x),
        shape.with_inner(m.gate_proj.out_features),
    );
}

impl Qwen3MoEQLoraMoEBlock {
    /// The router and the experts go together, and the stacks say truly what they were made from.
    pub open spec fn shaped(self, hidden: i32) -> bool {
        &&& experts_shaped(
            self.experts@,
            hidden,
            self.experts@[0].w1.weight.shape.outer(),
        )
        &&& self.gate.maps(hidden, self.experts@.len() as i32)
        &&& self.top_k <= self.experts@.len()
        &&& in_step(self.stacks())
    }
}

impl Qwen3MoEQLoraFeedForward {
    /// The extents go together.
    pub open spec fn shaped(self, hidden: i32) -> bool {
        match self {
            Qwen3MoEQLoraFeedForward::Dense(m) => m.shaped(hidden),
            Qwen3MoEQLoraFeedForward::MoE(e) => e.shaped(hidden),
        }
    }
}

proof fn lemma_moe_qlora_ffn(f: Qwen3MoEQLoraFeedForward, x: Array, b: i32, l: i32, hidden: i32)
    requires
        f.shaped(hidden),
        batch(b, l),
        b * l <= i32::MAX,
        is_of(x, Shape::D3(b, l, hidden)),
    ensures
        is_of(f.output(x), Shape::D3(b, l, hidden)),
{
    match f {
        Qwen3MoEQLoraFeedForward::Dense(m) => {
            lemma_moe_qlora_mlp(m, x, Shape::D3(b, l, hidden), hidden);
        },
        Qwen3MoEQLoraFeedForward::MoE(e) => {
            let experts = e.experts@;
            let inner = experts[0].w1.weight.shape.outer();
            lemma_rows_shape(x, b, l, hidden);
            lemma_qlora_shape(e.gate, rows_of(x));
            law_stacks_follow_weights(e.stacks(), experts);
            lemma_routed_shape(
                x,
                e.gate.output(rows_of(x)),
                e.top_k as i32,
                e.norm_topk_prob,
                experts,
                b,
                l,
                hidden,
                inner,
            );
        },
    }
}

impl Qwen3MoEQLoraDecoderLayer {
    /// All parts have the extents of the given hidden states and heads.
    pub open spec fn shaped(self, hidden: i32, heads: i32, kv: i32, d: i32) -> bool {
        &&& self.self_attn.shaped(hidden)
        &&& self.self_attn.n_heads == heads && self.self_attn.n_kv_heads == kv
        &&& self.self_attn.head_dim == d
        &&& self.ffn.shaped(hidden)
        &&& self.input_layernorm.well_formed(hidden)
        &&& self.post_attention_layernorm.well_formed(hidden)
    }
}

impl Qwen3MoEQLoraForCausalLM {
    /// All parts have the extents of the given vocabulary, hidden states and heads.
    pub open spec fn shaped(self, vocab: i32, hidden: i32, heads: i32, kv: i32, d: i32) -> bool {
        &&& self.model.embed_tokens.well_formed(vocab, hidden)
        &&& self.model.norm.well_formed(hidden)
        &&& self.lm_head matches Some(h) ==> h.well_formed(hidden, vocab)
        &&& forall|i: int|
            0 <= i < self.model.layers@.len() ==> (#[trigger] self.model.layers@[i]).shaped(
                hidden,
                heads,
                kv,
                d,
            )
    }
}

proof fn lemma_moe_qlora_finish(
    layer: Qwen3MoEQLoraDecoderLayer,
    h: Array,
    b: i32,
    l: i32,
    hidden: i32,
    heads: i32,
    kv: i32,
    d: i32,
)
    requires
        layer.shaped(hidden, heads, kv, d),
        batch(b, l),
        b * l <= i32::MAX,
        is_of(h, Shape::D3(b, l, hidden)),
    ensures
        is_of(layer.finish(h), Shape::D3(b, l, hidden)),
{
    broadcast use {lemma_combine_same, lemma_rms_norm_fits};

    let normed2 = layer.post_attention_layernorm.output(h);
    lemma_moe_qlora_ffn(layer.ffn, normed2, b, l, hidden);
}

proof fn lemma_moe_qlora_layer(
    layer: Qwen3MoEQLoraDecoderLayer,
    x: Array,
    mask: Option<Array>,
    b: i32,
    l: i32,
    hidden: i32,
    heads: i32,
    kv: i32,
    d: i32,
)
    requires
        layer.shaped(hidden, heads, kv, d),
        batch(b, l),
        b * l <= i32::MAX,
        is_of(x, Shape::D3(b, l, hidden)),
        mask_covers(mask, b, heads, l),
    ensures
        is_of(layer.output(x, mask), Shape::D3(b, l, hidden)),
{
    broadcast use {lemma_combine_same, lemma_rms_norm_fits};

    let normed = layer.input_layernorm.output(x);
    lemma_moe_qlora_attention(layer.self_attn, normed, mask, b, l, hidden);
    let mixed = layer.self_attn.output(normed, mask);
    lemma_moe_qlora_finish(layer, plus(x, mixed), b, l, hidden, heads, kv, d);
}

proof fn lemma_moe_qlora_stack(
    layers: Seq<Qwen3MoEQLoraDecoderLayer>,
    n: nat,
    x: Array,
    mask: Option<Array>,
    b: i32,
    l: i32,
    hidden: i32,
    heads: i32,
    kv: i32,
    d: i32,
)
    requires
        n <= layers.len(),
        forall|i: int|
            0 <= i < layers.len() ==> (#[trigger] layers[i]).shaped(hidden, heads, kv, d),
        batch(b, l),
        b * l <= i32::MAX,
        is_of(x, Shape::D3(b, l, hidden)),
        mask_covers(mask, b, heads, l),
    ensures
        is_of(moe_qlora_stack(layers, n, x, mask), Shape::D3(b, l, hidden)),
    decreases n,
{
    if n > 0 {
        lemma_moe_qlora_stack(layers, (n - 1) as nat, x, mask, b, l, hidden, heads, kv, d);
        lemma_moe_qlora_layer(
            layers[n - 1],
            moe_qlora_stack(layers, (n - 1) as nat, x, mask),
            mask,
            b,
            l,
            hidden,
            heads,
            kv,
            d,
        );
    }
}

/// Token indices `[b, l]` give logits `[b, l, vocab]`: nothing in a model of fitting extents is
/// refused.
pub proof fn law_moe_qlora_forward_shape(
    m: Qwen3MoEQLoraForCausalLM,
    ids: Array,
    mask: Option<Array>,
    b: i32,
    l: i32,
    vocab: i32,
    hidden: i32,
    heads: i32,
    kv: i32,
    d: i32,
)
    requires
        m.shaped(vocab, hidden, heads, kv, d),
        batch(b, l),
        b * l <= i32::MAX,
        is_of(ids, Shape::D2(b, l)),
        mask_covers(mask, b, heads, l),
    ensures
        is_of(m.output(ids, mask), Shape::D3(b, l, vocab)),
{
    broadcast use lemma_rms_norm_fits;

    lemma_embed_shape(m.model.embed_tokens, ids, b, l, vocab, hidden);
    lemma_causal_covers(b, heads, l);
    let x = m.model.embed_tokens.output(ids);
    let layers = m.model.layers@;
    lemma_moe_qlora_stack(layers, layers.len(), x, mask, b, l, hidden, heads, kv, d);
    let h = m.model.output(ids, mask);
    lemma_logits_shape(m.lm_head, m.model.embed_tokens, h, b, l, vocab, hidden);
}

pub proof fn lemma_moe_qlora_cached_stack(
    layers: Seq<Qwen3MoEQLoraDecoderLayer>,
    n: nat,
    x: Array,
    mask: Option<Array>,
    cache: KVCacheState,
    b: i32,
    l: i32,
    s: int,
    hidden: i32,
    heads: i32,
    kv: i32,
    d: i32,
)
    requires
        n <= layers.len(),
        forall|i: int|
            0 <= i < layers.len() ==> (#[trigger] layers[i]).shaped(hidden, heads, kv, d),
        batch(b, l),
        b * l <= i32::MAX,
        0 <= s,
        s + l <= i32::MAX,
        is_of(x, Shape::D3(b, l, hidden)),
        mask_fits(mask),
        cache_at(cache, layers.len(), 0, b, kv, d, s, l),
    ensures
        is_of(moe_qlora_cached_stack(layers, n, x, mask, cache).0, Shape::D3(b, l, hidden)),
        cache_at(
            moe_qlora_cached_stack(layers, n, x, mask, cache).1,
            layers.len(),
            n as int,
            b,
            kv,
            d,
            s,
            l,
        ),
    decreases n,
{
    broadcast use {lemma_combine_same, lemma_rms_norm_fits};

    if n > 0 {
        lemma_moe_qlora_cached_stack(
            layers,
            (n - 1) as nat,
            x,
            mask,
            cache,
            b,
            l,
            s,
            hidden,
            heads,
            kv,
            d,
        );
        let before = moe_qlora_cached_stack(layers, (n - 1) as nat, x, mask, cache);
        let layer = layers[n - 1];
        let normed = layer.input_layernorm.output(before.0);
        lemma_moe_qlora_cached_attention(
            layer.self_attn,
            normed,
            mask,
            before.1,
            layers.len(),
            n - 1,
            b,
            l,
            s,
            hidden,
        );
        let end = layer.self_attn.cached_output(normed, mask, before.1, n - 1);
        lemma_moe_qlora_finish(layer, plus(before.0, end.0), b, l, hidden, heads, kv, d);
    }
}

/// Step by step over a cache: token indices `[b, l]` behind `s` steps give logits `[b, l, vocab]`,
/// and the cache then holds `s + l` steps. An empty cache holds none.
pub proof fn law_moe_qlora_cached_shape(
    m: Qwen3MoEQLoraForCausalLM,
    ids: Array,
    mask: Option<Array>,
    cache: KVCacheState,
    b: i32,
    l: i32,
    s: int,
    vocab: i32,
    hidden: i32,
    heads: i32,
    kv: i32,
    d: i32,
)
    requires
        m.shaped(vocab, hidden, heads, kv, d),
        m.model.layers@.len() > 0,
        batch(b, l),
        b * l <= i32::MAX,
        0 <= s,
        s + l <= i32::MAX,
        is_of(ids, Shape::D2(b, l)),
        mask_fits(mask),
        cache_holds(cache, m.model.layers@.len(), b, kv, d, s),
    ensures
        ({
            let end = m.model.cached_output(ids, mask, cache);
            &&& is_of(logits(m.lm_head, m.model.embed_tokens, end.0), Shape::D3(b, l, vocab))
            &&& cache_holds(end.1, m.model.layers@.len(), b, kv, d, s + l)
        }),
{
    broadcast use lemma_rms_norm_fits;

    lemma_embed_shape(m.model.embed_tokens, ids, b, l, vocab, hidden);
    let x = m.model.embed_tokens.output(ids);
    let layers = m.model.layers@;
    let n = layers.len();
    assert forall|j: int| 0 <= j < n implies #[trigger] layer_holds(
        cache,
        j,
        b,
        kv,
        d,
        steps_at(0, s, l, j),
    ) by {
        assert(layer_holds(cache, j, b, kv, d, s));
    }
    lemma_moe_qlora_cached_stack(layers, n, x, mask, cache, b, l, s, hidden, heads, kv, d);
    let end = m.model.cached_output(ids, mask, cache);
    lemma_logits_shape(m.lm_head, m.model.embed_tokens, end.0, b, l, vocab, hidden);
    assert forall|j: int| 0 <= j < n implies #[trigger] layer_holds(end.1, j, b, kv, d, s + l) by {
        assert(layer_holds(end.1, j, b, kv, d, steps_at(n as int, s, l, j)));
    }
}

/// Quantizing a layer keeps its extents.
pub proof fn law_moe_quantizing_keeps_shape(
    layer: Qwen3MoELoraDecoderLayer,
    config: QLoraConfig,
    hidden: i32,
    heads: i32,
    kv: i32,
    d: i32,
)
    requires
        config.lora.valid(),
        layer.shaped(hidden, heads, kv, d),
    ensures
        Qwen3MoEQLoraDecoderLayer::of(layer, config).shaped(hidden, heads, kv, d),
{
    let a = layer.self_attn;
    lemma_quantized_maps(
        a.q_proj.weight,
        a.q_proj.bias,
        config,
        a.q_proj.in_features,
        a.q_proj.out_features,
    );
    lemma_quantized_maps(
        a.k_proj.weight,
        a.k_proj.bias,
        config,
        a.k_proj.in_features,
        a.k_proj.out_features,
    );
    lemma_quantized_maps(
        a.v_proj.weight,
        a.v_proj.bias,
        config,
        a.v_proj.in_features,
        a.v_proj.out_features,
    );
    lemma_quantized_maps(
        a.o_proj.weight,
        a.o_proj.bias,
        config,
        a.o_proj.in_features,
        a.o_proj.out_features,
    );
    match layer.ffn {
        Qwen3MoELoraFeedForward::Dense(m) => {
            lemma_quantized_maps(
                m.gate_proj.weight,
                m.gate_proj.bias,
                config,
                m.gate_proj.in_features,
                m.gate_proj.out_features,
            );
            lemma_quantized_maps(
                m.up_proj.weight,
                m.up_proj.bias,
                config,
                m.up_proj.in_features,
                m.up_proj.out_features,
            );
            lemma_quantized_maps(
                m.down_proj.weight,
                m.down_proj.bias,
                config,
                m.down_proj.in_features,
                m.down_proj.out_features,
            );
        },
        Qwen3MoELoraFeedForward::MoE(e) => {
            lemma_quantized_maps(
                e.gate.weight,
                e.gate.bias,
                config,
                e.gate.in_features,
                e.gate.out_features,
            );
        },
    }
}

} // verus!
