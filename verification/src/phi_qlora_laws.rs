//! What a Phi model with quantized weights gives for inputs of fitting shapes.

use crate::array::{Array, Function, attend, mask_fits, plus, reshape, reshape_rest, swap_middle};
use crate::attention::{
    causal_mask, mask_or_causal, match_heads, merge_heads, merge_heads_to, plain_attention,
    third_first, third_last,
};
use crate::kv_cache::KVCacheState;
use crate::names::Proj;
use crate::phi_lora::{PhiActivation, PhiConfig};
use crate::phi_qlora::{
    PhiQLoraAttention, PhiQloraDecoderLayer, PhiQloraForCausalLM, PhiQloraMLP,
    phi_qlora_cached_stack, phi_qlora_stack, ranked,
};
use crate::qlora::QLoraConfig;
use crate::shape::Shape;
use crate::shapes::{
    batch, cache_at, cache_holds, grouped, is_of, layer_holds, lemma_apply_shape,
    lemma_attend_shape, lemma_cache_step, lemma_causal_covers, lemma_combine_same,
    lemma_embed_shape, lemma_fresh_qlora, lemma_gated_shape, lemma_halves, lemma_heads_shape,
    lemma_kv_width, lemma_linear_shape, lemma_match_shape, lemma_merge_shape, lemma_partly_rotated,
    lemma_plain_shape, lemma_qlora_shape, lemma_rms_norm_fits, lemma_swap_middle_shape, mask_covers,
    steps_at,
};
use vstd::prelude::*;

verus! {

impl PhiQLoraAttention {
    /// The extents of the projections are those of the heads.
    pub open spec fn shaped(self, hidden: i32) -> bool {
        let q = (self.n_heads * self.head_dim) as i32;
        let kv = (self.n_kv_heads * self.head_dim) as i32;
        &&& grouped(self.n_heads, self.n_kv_heads, self.head_dim)
        &&& self.q_proj.maps(hidden, q) && self.k_proj.maps(hidden, kv)
        &&& self.v_proj.maps(hidden, kv) && self.o_proj.maps(q, hidden)
    }
}

pub proof fn lemma_phi_qlora_heads(a: PhiQLoraAttention, x: Array, b: i32, l: i32, hidden: i32)
    requires
        a.shaped(hidden),
        batch(b, l),
        is_of(x, Shape::D3(b, l, hidden)),
    ensures
        is_of(a.heads(a.q_proj.output(x), x, a.n_heads), Shape::D4(b, l, a.n_heads, a.head_dim)),
        is_of(
            a.heads(a.k_proj.output(x), x, a.n_kv_heads),
            Shape::D4(b, l, a.n_kv_heads, a.head_dim),
        ),
        is_of(
            a.heads(a.v_proj.output(x), x, a.n_kv_heads),
            Shape::D4(b, l, a.n_kv_heads, a.head_dim),
        ),
{
    broadcast use lemma_qlora_shape;

    lemma_kv_width(a.n_heads, a.n_kv_heads, a.head_dim);
    lemma_heads_shape(a.q_proj.output(x), b, l, a.n_heads, a.head_dim);
    lemma_heads_shape(a.k_proj.output(x), b, l, a.n_kv_heads, a.head_dim);
    lemma_heads_shape(a.v_proj.output(x), b, l, a.n_kv_heads, a.head_dim);
}

proof fn lemma_phi_qlora_attention(
    a: PhiQLoraAttention,
    x: Array,
    mask: Option<Array>,
    b: i32,
    l: i32,
    hidden: i32,
)
    requires
        a.shaped(hidden),
        batch(b, l),
        is_of(x, Shape::D3(b, l, hidden)),
        mask_covers(mask, b, a.n_heads, l),
    ensures
        is_of(a.output(x, mask), Shape::D3(b, l, hidden)),
{
    broadcast use {lemma_qlora_shape, lemma_swap_middle_shape};

    lemma_phi_qlora_heads(a, x, b, l, hidden);
    lemma_partly_rotated(
        swap_middle(a.heads(a.q_proj.output(x), x, a.n_heads)),
        a.rope_dim,
        a.rope,
        0,
    );
    lemma_partly_rotated(
        swap_middle(a.heads(a.k_proj.output(x), x, a.n_kv_heads)),
        a.rope_dim,
        a.rope,
        0,
    );
    let p = a.parts(x, 0);
    let q = p.0;
    let k = p.1;
    let v = p.2;
    lemma_match_shape(k, b, l, a.n_heads, a.n_kv_heads, a.head_dim);
    lemma_match_shape(v, b, l, a.n_heads, a.n_kv_heads, a.head_dim);
    let mk = match_heads(k, a.n_heads, a.n_kv_heads);
    let mv = match_heads(v, a.n_heads, a.n_kv_heads);
    lemma_plain_shape(q, mk, mv, a.scale, mask, b, a.n_heads, l, a.head_dim);
    lemma_merge_shape(plain_attention(q, mk, mv, a.scale, mask), b, l, a.n_heads, a.head_dim);
}

pub proof fn lemma_phi_qlora_cached_attention(
    a: PhiQLoraAttention,
    x: Array,
    mask: Option<Array>,
    cache: KVCacheState,
    n: nat,
    i: int,
    b: i32,
    l: i32,
    s: int,
    hidden: i32,
)
    requires
        a.shaped(hidden),
        batch(b, l),
        0 <= i < n,
        0 <= s,
        s + l <= i32::MAX,
        is_of(x, Shape::D3(b, l, hidden)),
        mask_fits(mask),
        cache_at(cache, n, i, b, a.n_kv_heads, a.head_dim, s, l),
    ensures
        is_of(a.cached_output(x, mask, cache, i).0, Shape::D3(b, l, hidden)),
        cache_at(
            a.cached_output(x, mask, cache, i).1,
            n,
            i + 1,
            b,
            a.n_kv_heads,
            a.head_dim,
            s,
            l,
        ),
{
    broadcast use {lemma_qlora_shape, lemma_swap_middle_shape};

    lemma_phi_qlora_heads(a, x, b, l, hidden);
    lemma_partly_rotated(
        swap_middle(a.heads(a.q_proj.output(x), x, a.n_heads)),
        a.rope_dim,
        a.rope,
        cache.offset,
    );
    lemma_partly_rotated(
        swap_middle(a.heads(a.k_proj.output(x), x, a.n_kv_heads)),
        a.rope_dim,
        a.rope,
        cache.offset,
    );
    let p = a.parts(x, cache.offset);
    let q = p.0;
    let k = p.1;
    let v = p.2;
    lemma_cache_step(cache, n, i, b, a.n_kv_heads, a.head_dim, s, l, k, v);
    let both = cache.joined(i, k, v);
    lemma_attend_shape(q, both.0, both.1, a.fused_config(), mask, b, l, (s + l) as i32);
    lemma_merge_shape(
        attend(q, both.0, both.1, a.fused_config(), mask),
        b,
        l,
        a.n_heads,
        a.head_dim,
    );
}

impl PhiQloraMLP {
    /// The extents of the projections go together.
    pub open spec fn shaped(self, hidden: i32) -> bool {
        let n = self.intermediate_size;
        &&& self.down_proj.maps(n, hidden)
        &&& match self.activation {
            PhiActivation::SwiGLU => 2 * n <= i32::MAX && self.gate_up_proj.maps(
                hidden,
                (2 * n) as i32,
            ),
            _ => self.gate_up_proj.maps(hidden, n),
        }
    }
}

proof fn lemma_phi_qlora_mlp(m: PhiQloraMLP, x: Array, b: i32, l: i32, hidden: i32)
    requires
        m.shaped(hidden),
        is_of(x, Shape::D3(b, l, hidden)),
    ensures
        is_of(m.output(x), Shape::D3(b, l, hidden)),
{
    broadcast use lemma_qlora_shape;

    let n = m.intermediate_size;
    let y = m.gate_up_proj.output(x);
    if m.activation is SwiGLU {
        lemma_halves(y, b, l, n);
        lemma_gated_shape(third_first(y, n), third_last(y, n), Shape::D3(b, l, n));
    } else {
        lemma_apply_shape(Function::Gelu, y);
    }
}

impl PhiQloraDecoderLayer {
    /// All parts have the extents of the given hidden states and heads.
    pub open spec fn shaped(self, hidden: i32, heads: i32, kv: i32, d: i32) -> bool {
        &&& self.self_attn.shaped(hidden)
        &&& self.self_attn.n_heads == heads && self.self_attn.n_kv_heads == kv
        &&& self.self_attn.head_dim == d
        &&& self.mlp.shaped(hidden)
        &&& self.input_layernorm.well_formed(hidden)
        &&& self.post_attention_layernorm.well_formed(hidden)
    }
}

impl PhiQloraForCausalLM {
    /// All parts have the extents of the given vocabulary, hidden states and heads.
    pub open spec fn shaped(self, vocab: i32, hidden: i32, heads: i32, kv: i32, d: i32) -> bool {
        &&& self.model.embed_tokens.well_formed(vocab, hidden)
        &&& self.model.norm.well_formed(hidden)
        &&& self.lm_head.well_formed(hidden, vocab)
        &&& forall|i: int|
            0 <= i < self.model.layers@.len() ==> (#[trigger] self.model.layers@[i]).shaped(
                hidden,
                heads,
                kv,
                d,
            )
    }
}

proof fn lemma_phi_qlora_finish(
    layer: PhiQloraDecoderLayer,
    h: Array,
    b: i32,
    l: i32,
    hidden: i32,
    heads: i32,
    kv: i32,
    d: i32,
)
    requires
        layer.shaped(hidden, heads, kv, d),
        batch(b, l),
        is_of(h, Shape::D3(b, l, hidden)),
    ensures
        is_of(layer.finish(h), Shape::D3(b, l, hidden)),
{
    broadcast use {lemma_combine_same, lemma_rms_norm_fits};

    let normed2 = layer.post_attention_layernorm.output(h);
    lemma_phi_qlora_mlp(layer.mlp, normed2, b, l, hidden);
}

proof fn lemma_phi_qlora_layer(
    layer: PhiQloraDecoderLayer,
    x: Array,
    mask: Option<Array>,
    b: i32,
    l: i32,
    hidden: i32,
    heads: i32,
    kv: i32,
    d: i32,
)
    requires
        layer.shaped(hidden, heads, kv, d),
        batch(b, l),
        is_of(x, Shape::D3(b, l, hidden)),
        mask_covers(mask, b, heads, l),
    ensures
        is_of(layer.output(x, mask), Shape::D3(b, l, hidden)),
{
    broadcast use {lemma_combine_same, lemma_rms_norm_fits};

    let normed = layer.input_layernorm.output(x);
    lemma_phi_qlora_attention(layer.self_attn, normed, mask, b, l, hidden);
    let mixed = layer.self_attn.output(normed, mask);
    lemma_phi_qlora_finish(layer, plus(x, mixed), b, l, hidden, heads, kv, d);
}

proof fn lemma_phi_qlora_stack(
    layers: Seq<PhiQloraDecoderLayer>,
    n: nat,
    x: Array,
    mask: Option<Array>,
    b: i32,
    l: i32,
    hidden: i32,
    heads: i32,
    kv: i32,
    d: i32,
)
    requires
        n <= layers.len(),
        forall|i: int|
            0 <= i < layers.len() ==> (#[trigger] layers[i]).shaped(hidden, heads, kv, d),
        batch(b, l),
        is_of(x, Shape::D3(b, l, hidden)),
        mask_covers(mask, b, heads, l),
    ensures
        is_of(phi_qlora_stack(layers, n, x, mask), Shape::D3(b, l, hidden)),
    decreases n,
{
    if n > 0 {
        lemma_phi_qlora_stack(layers, (n - 1) as nat, x, mask, b, l, hidden, heads, kv, d);
        lemma_phi_qlora_layer(
            layers[n - 1],
            phi_qlora_stack(layers, (n - 1) as nat, x, mask),
            mask,
            b,
            l,
            hidden,
            heads,
            kv,
            d,
        );
    }
}

/// Token indices `[b, l]` give logits `[b, l, vocab]`: nothing in a model of fitting extents is
/// refused.
pub proof fn law_phi_qlora_forward_shape(
    m: PhiQloraForCausalLM,
    ids: Array,
    mask: Option<Array>,
    b: i32,
    l: i32,
    vocab: i32,
    hidden: i32,
    heads: i32,
    kv: i32,
    d: i32,
)
    requires
        m.shaped(vocab, hidden, heads, kv, d),
        batch(b, l),
        is_of(ids, Shape::D2(b, l)),
        mask_covers(mask, b, heads, l),
    ensures
        is_of(m.output(ids, mask), Shape::D3(b, l, vocab)),
{
    broadcast use lemma_rms_norm_fits;

    lemma_embed_shape(m.model.embed_tokens, ids, b, l, vocab, hidden);
    lemma_causal_covers(b, heads, l);
    let x = m.model.embed_tokens.output(ids);
    let layers = m.model.layers@;
    lemma_phi_qlora_stack(
        layers,
        layers.len(),
        x,
        mask_or_causal(mask, ids),
        b,
        l,
        hidden,
        heads,
        kv,
        d,
    );
    let h = m.model.output(ids, mask);
    lemma_linear_shape(m.lm_head, h);
}

pub proof fn lemma_phi_qlora_cached_stack(
    layers: Seq<PhiQloraDecoderLayer>,
    n: nat,
    x: Array,
    mask: Option<Array>,
    cache: KVCacheState,
    b: i32,
    l: i32,
    s: int,
    hidden: i32,
    heads: i32,
    kv: i32,
    d: i32,
)
    requires
        n <= layers.len(),
        forall|i: int|
            0 <= i < layers.len() ==> (#[trigger] layers[i]).shaped(hidden, heads, kv, d),
        batch(b, l),
        0 <= s,
        s + l <= i32::MAX,
        is_of(x, Shape::D3(b, l, hidden)),
        mask_fits(mask),
        cache_at(cache, layers.len(), 0, b, kv, d, s, l),
    ensures
        is_of(phi_qlora_cached_stack(layers, n, x, mask, cache).0, Shape::D3(b, l, hidden)),
        cache_at(
            phi_qlora_cached_stack(layers, n, x, mask, cache).1,
            layers.len(),
            n as int,
            b,
            kv,
            d,
            s,
            l,
        ),
    decreases n,
{
    broadcast use {lemma_combine_same, lemma_rms_norm_fits};

    if n > 0 {
        lemma_phi_qlora_cached_stack(
            layers,
            (n - 1) as nat,
            x,
            mask,
            cache,
            b,
            l,
            s,
            hidden,
            heads,
            kv,
            d,
        );
        let before = phi_qlora_cached_stack(layers, (n - 1) as nat, x, mask, cache);
        let layer = layers[n - 1];
        let normed = layer.input_layernorm.output(before.0);
        lemma_phi_qlora_cached_attention(
            layer.self_attn,
            normed,
            mask,
            before.1,
            layers.len(),
            n - 1,
            b,
            l,
            s,
            hidden,
        );
        let end = layer.self_attn.cached_output(normed, mask, before.1, n - 1);
        lemma_phi_qlora_finish(layer, plus(before.0, end.0), b, l, hidden, heads, kv, d);
    }
}

/// Step by step over a cache: token indices `[b, l]` behind `s` steps give logits `[b, l, vocab]`,
/// and the cache then holds `s + l` steps. An empty cache holds none.
pub proof fn law_phi_qlora_cached_shape(
    m: PhiQloraForCausalLM,
    ids: Array,
    mask: Option<Array>,
    cache: KVCacheState,
    b: i32,
    l: i32,
    s: int,
    vocab: i32,
    hidden: i32,
    heads: i32,
    kv: i32,
    d: i32,
)
    requires
        m.shaped(vocab, hidden, heads, kv, d),
        m.model.layers@.len() > 0,
        batch(b, l),
        0 <= s,
        s + l <= i32::MAX,
        is_of(ids, Shape::D2(b, l)),
        mask_fits(mask),
        cache_holds(cache, m.model.layers@.len(), b, kv, d, s),
    ensures
        ({
            let end = m.model.cached_output(ids, mask, cache);
            &&& is_of(m.lm_head.output(end.0), Shape::D3(b, l, vocab))
            &&& cache_holds(end.1, m.model.layers@.len(), b, kv, d, s + l)
        }),
{
    broadcast use lemma_rms_norm_fits;

    lemma_embed_shape(m.model.embed_tokens, ids, b, l, vocab, hidden);
    let x = m.model.embed_tokens.output(ids);
    let layers = m.model.layers@;
    let n = layers.len();
    assert forall|j: int| 0 <= j < n implies #[trigger] layer_holds(
        cache,
        j,
        b,
        kv,
        d,
        steps_at(0, s, l, j),
    ) by {
        assert(layer_holds(cache, j, b, kv, d, s));
    }
    lemma_phi_qlora_cached_stack(layers, n, x, mask, cache, b, l, s, hidden, heads, kv, d);
    let end = m.model.cached_output(ids, mask, cache);
    lemma_linear_shape(m.lm_head, end.0);
    assert forall|j: int| 0 <= j < n implies #[trigger] layer_holds(end.1, j, b, kv, d, s + l) by {
        assert(layer_holds(end.1, j, b, kv, d, steps_at(n as int, s, l, j)));
    }
}

/// A fresh layer has fitting extents, where the heads of the settings group evenly.
pub proof fn law_phi_qlora_fresh_shaped(config: PhiConfig, qlora: QLoraConfig)
    requires
        config.valid(),
        config.intermediate_size >= 0,
        qlora.lora.valid(),
        grouped(config.num_attention_heads, config.num_key_value_heads, config.head_size()),
    ensures
        PhiQloraDecoderLayer::fresh(config, qlora).shaped(
            config.hidden_size,
            config.num_attention_heads,
            config.num_key_value_heads,
            config.head_size(),
        ),
{
    let h = config.hidden_size;
    let d = config.head_size();
    lemma_kv_width(config.num_attention_heads, config.num_key_value_heads, d);
    let q = (config.num_attention_heads * d) as i32;
    let kv = (config.num_key_value_heads * d) as i32;
    let bias = config.qkv_bias;
    lemma_fresh_qlora(h, q, ranked(qlora, Proj::Q), bias);
    lemma_fresh_qlora(h, kv, ranked(qlora, Proj::K), bias);
    lemma_fresh_qlora(h, kv, ranked(qlora, Proj::V), bias);
    lemma_fresh_qlora(q, h, ranked(qlora, Proj::O), false);
    let p = config.proj_size() as i32;
    lemma_fresh_qlora(h, p, ranked(qlora, Proj::Gate), false);
    lemma_fresh_qlora(config.intermediate_size, h, ranked(qlora, Proj::Down), false);
}

/// With and without a cache, the same queries and keys are compared: the first features of each
/// head, rotated by the position of the token, and the others as they are. The first step over an
/// empty cache is the step over the input alone.
pub proof fn law_phi_qlora_positions_agree(
    a: PhiQLoraAttention,
    x: Array,
    mask: Option<Array>,
    cache: KVCacheState,
    layer: int,
)
    requires
        0 <= layer < cache.entries.len(),
        cache.entries[layer] is None,
        cache.offset == 0,
        a.parts(x, 0).0.fits,
        a.parts(x, 0).1.fits,
        a.parts(x, 0).2.fits,
    ensures
        a.output(x, mask) == a.o_proj.output(
            merge_heads_to(
                plain_attention(
                    a.parts(x, 0).0,
                    match_heads(a.parts(x, 0).1, a.n_heads, a.n_kv_heads),
                    match_heads(a.parts(x, 0).2, a.n_heads, a.n_kv_heads),
                    a.scale,
                    mask,
                ),
                x.shape.outer(),
                x.shape.second(),
                (a.n_heads * a.head_dim) as i32,
            ),
        ),
        a.fused_output(x, mask) == a.fused(
            x,
            a.parts(x, 0).0,
            a.parts(x, 0).1,
            a.parts(x, 0).2,
            mask,
        ),
        a.cached_output(x, mask, cache, layer).0 == a.fused_output(x, mask),
{
}

impl PhiQLoraAttention {
    /// The heads written out under the causal mask over `l` steps.
    pub open spec fn mixed(self, x: Array, l: i32) -> Array {
        let p = self.parts(x, 0);
        plain_attention(
            p.0,
            match_heads(p.1, self.n_heads, self.n_kv_heads),
            match_heads(p.2, self.n_heads, self.n_kv_heads),
            self.scale,
            Some(causal_mask(l)),
        )
    }

    /// The heads mixed by fused attention, which is causal by itself.
    pub open spec fn fused_mixed(self, x: Array) -> Array {
        let p = self.parts(x, 0);
        attend(p.0, p.1, p.2, self.fused_config(), None)
    }

    /// Mixed heads side by side, projected.
    pub open spec fn joined(self, mixed: Array, x: Array) -> Array {
        self.o_proj.output(merge_heads(mixed, x.shape.outer(), x.shape.second()))
    }
}

/// Attention under the causal mask and fused attention without a mask agree: they mix heads of one
/// shape from the same queries, keys and values, join them alike and give the input's shape. So
/// two results are the same up to rounding, or in whatever other sense, once the mixed heads are
/// and joining keeps it so.
pub proof fn law_phi_qlora_attention_agrees(
    a: PhiQLoraAttention,
    x: Array,
    b: i32,
    l: i32,
    hidden: i32,
    agree: spec_fn(Array, Array) -> bool,
)
    requires
        a.shaped(hidden),
        batch(b, l),
        is_of(x, Shape::D3(b, l, hidden)),
    ensures
        a.output(x, Some(causal_mask(l))) == a.joined(a.mixed(x, l), x),
        a.fused_output(x, None) == a.joined(a.fused_mixed(x), x),
        is_of(a.mixed(x, l), Shape::D4(b, a.n_heads, l, a.head_dim)),
        is_of(a.fused_mixed(x), Shape::D4(b, a.n_heads, l, a.head_dim)),
        is_of(a.output(x, Some(causal_mask(l))), x.shape),
        is_of(a.fused_output(x, None), x.shape),
        agree(a.mixed(x, l), a.fused_mixed(x)) && (forall|m: Array, n: Array|
            m.shape == n.shape && #[trigger] agree(m, n) ==> agree(a.joined(m, x), a.joined(n, x)))
            ==> agree(a.output(x, Some(causal_mask(l))), a.fused_output(x, None)),
{
    broadcast use {lemma_qlora_shape, lemma_swap_middle_shape};

    reveal(reshape);
    reveal(reshape_rest);
    lemma_causal_covers(b, a.n_heads, l);
    lemma_phi_qlora_heads(a, x, b, l, hidden);
    lemma_partly_rotated(
        swap_middle(a.heads(a.q_proj.output(x), x, a.n_heads)),
        a.rope_dim,
        a.rope,
        0,
    );
    lemma_partly_rotated(
        swap_middle(a.heads(a.k_proj.output(x), x, a.n_kv_heads)),
        a.rope_dim,
        a.rope,
        0,
    );
    let p = a.parts(x, 0);
    lemma_match_shape(p.1, b, l, a.n_heads, a.n_kv_heads, a.head_dim);
    lemma_match_shape(p.2, b, l, a.n_heads, a.n_kv_heads, a.head_dim);
    let k = match_heads(p.1, a.n_heads, a.n_kv_heads);
    let v = match_heads(p.2, a.n_heads, a.n_kv_heads);
    let mask = Some(causal_mask(l));
    lemma_plain_shape(p.0, k, v, a.scale, mask, b, a.n_heads, l, a.head_dim);
    lemma_attend_shape(p.0, p.1, p.2, a.fused_config(), None, b, l, l);
    lemma_merge_shape(a.mixed(x, l), b, l, a.n_heads, a.head_dim);
    lemma_merge_shape(a.fused_mixed(x), b, l, a.n_heads, a.head_dim);
}

} // verus!
