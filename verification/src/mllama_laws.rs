//! What an MLlama text decoder gives for inputs of fitting shapes.

use crate::array::{Array, attend, mask_fits, plus, rope, rope_at};
use crate::attention::{mask_or_causal, match_heads, merge_heads, plain_attention, split_heads};
use crate::config::LoraConfig;
use crate::dora::{LinearAdapter, tensor_half};
use crate::kv_cache::KVCacheState;
use crate::lora::{Adapter, LoraLinear};
use crate::mllama_lora::{
    LlamaConfig, MllamaLoraCrossAttention, MllamaLoraDecoderLayer, MllamaLoraForCausalLM,
    MllamaLoraMLP, MllamaLoraSelfAttention, mllama_cached_stack, mllama_positioned_stack,
    mllama_stack,
};
use crate::names::{NameStyle, Proj, lora_name};
use crate::nn::logits;
use crate::params::{LoraLayer, parameter_map};
use crate::params_laws::{law_write_one_leaf, lemma_same_map};
use crate::shape::Shape;
use crate::shapes::{
    batch, cache_at, cache_holds, grouped, is_of, layer_holds, lemma_adapter_shape,
    lemma_attend_shape, lemma_cache_step, lemma_causal_covers, lemma_combine_same,
    lemma_cross_shape, lemma_embed_shape, lemma_fresh_adapter, lemma_gated_shape, lemma_kv_width,
    lemma_logits_shape, lemma_lora_shape, lemma_match_shape, lemma_merge_shape, lemma_plain_shape,
    lemma_rms_norm_fits, lemma_rope_at_shape, lemma_rope_shape, lemma_split_shape, mask_covers,
    steps_at,
};
use vstd::prelude::*;

verus! {

impl MllamaLoraSelfAttention {
    /// The extents of the projections are those of the heads.
    pub open spec fn shaped(self, hidden: i32) -> bool {
        let q = (self.n_heads * self.head_dim) as i32;
        let kv = (self.n_kv_heads * self.head_dim) as i32;
        &&& grouped(self.n_heads, self.n_kv_heads, self.head_dim)
        &&& self.q_proj.maps(hidden, q) && self.k_proj.maps(hidden, kv)
        &&& self.v_proj.maps(hidden, kv) && self.o_proj.maps(q, hidden)
    }
}

pub proof fn lemma_mllama_parts(a: MllamaLoraSelfAttention, x: Array, b: i32, l: i32, hidden: i32)
    requires
        a.shaped(hidden),
        batch(b, l),
        is_of(x, Shape::D3(b, l, hidden)),
    ensures
        is_of(a.queries(x), Shape::D4(b, a.n_heads, l, a.head_dim)),
        is_of(a.keys(x), Shape::D4(b, a.n_kv_heads, l, a.head_dim)),
        is_of(a.values(x), Shape::D4(b, a.n_kv_heads, l, a.head_dim)),
{
    lemma_kv_width(a.n_heads, a.n_kv_heads, a.head_dim);
    let q = (a.n_heads * a.head_dim) as i32;
    let kv = (a.n_kv_heads * a.head_dim) as i32;
    lemma_adapter_shape(a.q_proj, x, hidden, q);
    lemma_adapter_shape(a.k_proj, x, hidden, kv);
    lemma_adapter_shape(a.v_proj, x, hidden, kv);
    lemma_split_shape(a.q_proj.output(x), b, l, a.n_heads, a.head_dim);
    lemma_split_shape(a.k_proj.output(x), b, l, a.n_kv_heads, a.head_dim);
    lemma_split_shape(a.v_proj.output(x), b, l, a.n_kv_heads, a.head_dim);
}

proof fn lemma_mllama_attention(
    a: MllamaLoraSelfAttention,
    x: Array,
    mask: Option<Array>,
    b: i32,
    l: i32,
    hidden: i32,
)
    requires
        a.shaped(hidden),
        batch(b, l),
        is_of(x, Shape::D3(b, l, hidden)),
        mask_covers(mask, b, a.n_heads, l),
    ensures
        is_of(a.output(x, mask), Shape::D3(b, l, hidden)),
{
    broadcast use lemma_rope_shape;

    lemma_mllama_parts(a, x, b, l, hidden);
    let q = rope(a.queries(x), a.rope, 0);
    let k = rope(a.keys(x), a.rope, 0);
    let v = a.values(x);
    lemma_match_shape(k, b, l, a.n_heads, a.n_kv_heads, a.head_dim);
    lemma_match_shape(v, b, l, a.n_heads, a.n_kv_heads, a.head_dim);
    let mk = match_heads(k, a.n_heads, a.n_kv_heads);
    let mv = match_heads(v, a.n_heads, a.n_kv_heads);
    lemma_plain_shape(q, mk, mv, a.scale, mask, b, a.n_heads, l, a.head_dim);
    lemma_merge_shape(plain_attention(q, mk, mv, a.scale, mask), b, l, a.n_heads, a.head_dim);
    lemma_adapter_shape(
        a.o_proj,
        merge_heads(plain_attention(q, mk, mv, a.scale, mask), b, l),
        (a.n_heads * a.head_dim) as i32,
        hidden,
    );
}

proof fn lemma_mllama_positioned_attention(
    a: MllamaLoraSelfAttention,
    x: Array,
    mask: Option<Array>,
    positions: Array,
    b: i32,
    l: i32,
    hidden: i32,
)
    requires
        a.shaped(hidden),
        batch(b, l),
        is_of(x, Shape::D3(b, l, hidden)),
        positions.fits,
        mask_covers(mask, b, a.n_heads, l),
    ensures
        is_of(a.positioned_output(x, mask, positions), Shape::D3(b, l, hidden)),
{
    broadcast use lemma_rope_at_shape;

    lemma_mllama_parts(a, x, b, l, hidden);
    let q = rope_at(a.queries(x), a.rope, positions);
    let k = rope_at(a.keys(x), a.rope, positions);
    let v = a.values(x);
    lemma_match_shape(k, b, l, a.n_heads, a.n_kv_heads, a.head_dim);
    lemma_match_shape(v, b, l, a.n_heads, a.n_kv_heads, a.head_dim);
    let mk = match_heads(k, a.n_heads, a.n_kv_heads);
    let mv = match_heads(v, a.n_heads, a.n_kv_heads);
    lemma_plain_shape(q, mk, mv, a.scale, mask, b, a.n_heads, l, a.head_dim);
    lemma_merge_shape(plain_attention(q, mk, mv, a.scale, mask), b, l, a.n_heads, a.head_dim);
    lemma_adapter_shape(
        a.o_proj,
        merge_heads(plain_attention(q, mk, mv, a.scale, mask), b, l),
        (a.n_heads * a.head_dim) as i32,
        hidden,
    );
}

pub proof fn lemma_mllama_cached_attention(
    a: MllamaLoraSelfAttention,
    x: Array,
    mask: Option<Array>,
    cache: KVCacheState,
    n: nat,
    i: int,
    b: i32,
    l: i32,
    s: int,
    hidden: i32,
)
    requires
        a.shaped(hidden),
        batch(b, l),
        0 <= i < n,
        0 <= s,
        s + l <= i32::MAX,
        is_of(x, Shape::D3(b, l, hidden)),
        mask_fits(mask),
        cache_at(cache, n, i, b, a.n_kv_heads, a.head_dim, s, l),
    ensures
        is_of(a.cached_output(x, mask, cache, i).0, Shape::D3(b, l, hidden)),
        cache_at(
            a.cached_output(x, mask, cache, i).1,
            n,
            i + 1,
            b,
            a.n_kv_heads,
            a.head_dim,
            s,
            l,
        ),
{
    broadcast use lemma_rope_shape;

    lemma_mllama_parts(a, x, b, l, hidden);
    let q = rope(a.queries(x), a.rope, cache.offset);
    let k = rope(a.keys(x), a.rope, cache.offset);
    let v = a.values(x);
    lemma_cache_step(cache, n, i, b, a.n_kv_heads, a.head_dim, s, l, k, v);
    let both = cache.joined(i, k, v);
    lemma_attend_shape(q, both.0, both.1, a.fused_config(), mask, b, l, (s + l) as i32);
    lemma_merge_shape(
        attend(q, both.0, both.1, a.fused_config(), mask),
        b,
        l,
        a.n_heads,
        a.head_dim,
    );
    lemma_adapter_shape(
        a.o_proj,
        merge_heads(attend(q, both.0, both.1, a.fused_config(), mask), b, l),
        (a.n_heads * a.head_dim) as i32,
        hidden,
    );
}

impl MllamaLoraCrossAttention {
    /// The extents of the projections are those of the heads.
    pub open spec fn shaped(self, hidden: i32) -> bool {
        let q = (self.n_heads * self.head_dim) as i32;
        let kv = (self.n_kv_heads * self.head_dim) as i32;
        &&& grouped(self.n_heads, self.n_kv_heads, self.head_dim)
        &&& self.q_proj.maps(hidden, q) && self.k_proj.maps(hidden, kv)
        &&& self.v_proj.maps(hidden, kv) && self.o_proj.maps(q, hidden)
    }
}

proof fn lemma_mllama_cross(
    a: MllamaLoraCrossAttention,
    x: Array,
    features: Array,
    b: i32,
    l: i32,
    s: i32,
    hidden: i32,
)
    requires
        a.shaped(hidden),
        batch(b, l),
        batch(b, s),
        is_of(x, Shape::D3(b, l, hidden)),
        is_of(features, Shape::D3(b, s, hidden)),
    ensures
        is_of(a.output(x, features), Shape::D3(b, l, hidden)),
{
    lemma_kv_width(a.n_heads, a.n_kv_heads, a.head_dim);
    let qw = (a.n_heads * a.head_dim) as i32;
    let kvw = (a.n_kv_heads * a.head_dim) as i32;
    lemma_adapter_shape(a.q_proj, x, hidden, qw);
    lemma_adapter_shape(a.k_proj, features, hidden, kvw);
    lemma_adapter_shape(a.v_proj, features, hidden, kvw);
    lemma_split_shape(a.q_proj.output(x), b, l, a.n_heads, a.head_dim);
    lemma_split_shape(a.k_proj.output(features), b, s, a.n_kv_heads, a.head_dim);
    lemma_split_shape(a.v_proj.output(features), b, s, a.n_kv_heads, a.head_dim);
    let q = split_heads(a.q_proj.output(x), b, l, a.n_heads, a.head_dim);
    let k = split_heads(a.k_proj.output(features), b, s, a.n_kv_heads, a.head_dim);
    let v = split_heads(a.v_proj.output(features), b, s, a.n_kv_heads, a.head_dim);
    lemma_match_shape(k, b, s, a.n_heads, a.n_kv_heads, a.head_dim);
    lemma_match_shape(v, b, s, a.n_heads, a.n_kv_heads, a.head_dim);
    let mk = match_heads(k, a.n_heads, a.n_kv_heads);
    let mv = match_heads(v, a.n_heads, a.n_kv_heads);
    lemma_cross_shape(q, mk, mv, a.scale, b, a.n_heads, l, s, a.head_dim);
    let mixed = plain_attention(q, mk, mv, a.scale, None);
    lemma_merge_shape(mixed, b, l, a.n_heads, a.head_dim);
    lemma_adapter_shape(a.o_proj, merge_heads(mixed, b, l), qw, hidden);
}

/// Where there are vision features, they are a batch `[b, s, hidden]` of some length.
pub open spec fn features_fit(features: Option<Array>, b: i32, hidden: i32) -> bool {
    features matches Some(f) ==> {
        &&& f.shape matches Shape::D3(fb, s, fh) && fb == b && fh == hidden && batch(b, s)
        &&& f.fits
    }
}

impl MllamaLoraMLP {
    /// The extents of the projections go together.
    pub open spec fn shaped(self, hidden: i32) -> bool {
        let n = self.gate_proj.out_features;
        self.gate_proj.maps(hidden, n) && self.up_proj.maps(hidden, n) && self.down_proj.maps(
            n,
            hidden,
        )
    }
}

proof fn lemma_mllama_mlp(m: MllamaLoraMLP, x: Array, shape: Shape, hidden: i32)
    requires
        m.shaped(hidden),
        is_of(x, shape),
        shape.rank() >= 2,
        shape.inner() == hidden,
    ensures
        is_of(m.output(x), shape),
{
    broadcast use lemma_lora_shape;

    lemma_gated_shape(
        m.gate_proj.output(x),
        m.up_proj.output(x),
        shape.with_inner(m.gate_proj.out_features),
    );
}

impl MllamaLoraDecoderLayer {
    /// All parts have the extents of the given hidden states and heads.
    pub open spec fn shaped(self, hidden: i32, heads: i32, kv: i32, d: i32) -> bool {
        &&& self.self_attn.shaped(hidden)
        &&& self.self_attn.n_heads == heads && self.self_attn.n_kv_heads == kv
        &&& self.self_attn.head_dim == d
        &&& self.mlp.shaped(hidden)
        &&& self.input_layernorm.well_formed(hidden)
        &&& self.post_attention_layernorm.well_formed(hidden)
        &&& self.cross_attn matches Some(ca) ==> ca.shaped(hidden)
        &&& self.cross_attention_layernorm matches Some(cn) ==> cn.well_formed(hidden)
    }
}

impl MllamaLoraForCausalLM {
    /// All parts have the extents of the given vocabulary, hidden states and heads.
    pub open spec fn shaped(self, vocab: i32, hidden: i32, heads: i32, kv: i32, d: i32) -> bool {
        &&& self.model.embed_tokens.well_formed(vocab, hidden)
        &&& self.model.norm.well_formed(hidden)
        &&& self.lm_head matches Some(h) ==> h.well_formed(hidden, vocab)
        &&& forall|i: int|
            0 <= i < self.model.layers@.len() ==> (#[trigger] self.model.layers@[i]).shaped(
                hidden,
                heads,
                kv,
                d,
            )
    }
}

proof fn lemma_mllama_finish(
    layer: MllamaLoraDecoderLayer,
    h: Array,
    features: Option<Array>,
    b: i32,
    l: i32,
    hidden: i32,
    heads: i32,
    kv: i32,
    d: i32,
)
    requires
        layer.shaped(hidden, heads, kv, d),
        batch(b, l),
        is_of(h, Shape::D3(b, l, hidden)),
        features_fit(features, b, hidden),
    ensures
        is_of(layer.finish(h, features), Shape::D3(b, l, hidden)),
{
    broadcast use {lemma_combine_same, lemma_rms_norm_fits};

    match (layer.cross_attn, features, layer.cross_attention_layernorm) {
        (Some(ca), Some(f), Some(cn)) => {
            lemma_mllama_cross(ca, cn.output(h), f, b, l, f.shape.second(), hidden);
        },
        _ => {},
    }
    let normed2 = layer.post_attention_layernorm.output(layer.crossed(h, features));
    lemma_mllama_mlp(layer.mlp, normed2, Shape::D3(b, l, hidden), hidden);
}

proof fn lemma_mllama_layer(
    layer: MllamaLoraDecoderLayer,
    x: Array,
    mask: Option<Array>,
    features: Option<Array>,
    b: i32,
    l: i32,
    hidden: i32,
    heads: i32,
    kv: i32,
    d: i32,
)
    requires
        layer.shaped(hidden, heads, kv, d),
        batch(b, l),
        is_of(x, Shape::D3(b, l, hidden)),
        mask_covers(mask, b, heads, l),
        features_fit(features, b, hidden),
    ensures
        is_of(layer.output(x, mask, features), Shape::D3(b, l, hidden)),
{
    broadcast use {lemma_combine_same, lemma_rms_norm_fits};

    let normed = layer.input_layernorm.output(x);
    lemma_mllama_attention(layer.self_attn, normed, mask, b, l, hidden);
    let mixed = layer.self_attn.output(normed, mask);
    lemma_mllama_finish(layer, plus(x, mixed), features, b, l, hidden, heads, kv, d);
}

proof fn lemma_mllama_stack(
    layers: Seq<MllamaLoraDecoderLayer>,
    n: nat,
    x: Array,
    mask: Option<Array>,
    features: Option<Array>,
    b: i32,
    l: i32,
    hidden: i32,
    heads: i32,
    kv: i32,
    d: i32,
)
    requires
        n <= layers.len(),
        forall|i: int|
            0 <= i < layers.len() ==> (#[trigger] layers[i]).shaped(hidden, heads, kv, d),
        batch(b, l),
        is_of(x, Shape::D3(b, l, hidden)),
        mask_covers(mask, b, heads, l),
        features_fit(features, b, hidden),
    ensures
        is_of(mllama_stack(layers, n, x, mask, features), Shape::D3(b, l, hidden)),
    decreases n,
{
    if n > 0 {
        lemma_mllama_stack(layers, (n - 1) as nat, x, mask, features, b, l, hidden, heads, kv, d);
        lemma_mllama_layer(
            layers[n - 1],
            mllama_stack(layers, (n - 1) as nat, x, mask, features),
            mask, features,
            b,
            l,
            hidden,
            heads,
            kv,
            d,
        );
    }
}

/// Token indices `[b, l]` give logits `[b, l, vocab]`: nothing in a model of fitting extents is
/// refused.
pub proof fn law_mllama_forward_shape(
    m: MllamaLoraForCausalLM,
    ids: Array,
    mask: Option<Array>,
    features: Option<Array>,
    b: i32,
    l: i32,
    vocab: i32,
    hidden: i32,
    heads: i32,
    kv: i32,
    d: i32,
)
    requires
        m.shaped(vocab, hidden, heads, kv, d),
        batch(b, l),
        is_of(ids, Shape::D2(b, l)),
        mask_covers(mask, b, heads, l),
        features_fit(features, b, hidden),
    ensures
        is_of(m.output(ids, mask, features), Shape::D3(b, l, vocab)),
{
    broadcast use lemma_rms_norm_fits;

    lemma_embed_shape(m.model.embed_tokens, ids, b, l, vocab, hidden);
    lemma_causal_covers(b, heads, l);
    let x = m.model.embed_tokens.output(ids);
    let layers = m.model.layers@;
    lemma_mllama_stack(
        layers,
        layers.len(),
        x,
        mask_or_causal(mask, ids),
        features,
        b,
        l,
        hidden,
        heads,
        kv,
        d,
    );
    let h = m.model.output(ids, mask, features);
    lemma_logits_shape(m.lm_head, m.model.embed_tokens, h, b, l, vocab, hidden);
}

pub proof fn lemma_mllama_cached_stack(
    layers: Seq<MllamaLoraDecoderLayer>,
    n: nat,
    x: Array,
    mask: Option<Array>,
    features: Option<Array>,
    cache: KVCacheState,
    b: i32,
    l: i32,
    s: int,
    hidden: i32,
    heads: i32,
    kv: i32,
    d: i32,
)
    requires
        n <= layers.len(),
        forall|i: int|
            0 <= i < layers.len() ==> (#[trigger] layers[i]).shaped(hidden, heads, kv, d),
        batch(b, l),
        0 <= s,
        s + l <= i32::MAX,
        is_of(x, Shape::D3(b, l, hidden)),
        mask_fits(mask),
        features_fit(features, b, hidden),
        cache_at(cache, layers.len(), 0, b, kv, d, s, l),
    ensures
        is_of(mllama_cached_stack(layers, n, x, mask, features, cache).0, Shape::D3(b, l, hidden)),
        cache_at(
            mllama_cached_stack(layers, n, x, mask, features, cache).1,
            layers.len(),
            n as int,
            b,
            kv,
            d,
            s,
            l,
        ),
    decreases n,
{
    broadcast use {lemma_combine_same, lemma_rms_norm_fits};

    if n > 0 {
        lemma_mllama_cached_stack(
            layers,
            (n - 1) as nat,
            x,
            mask,
            features,
            cache,
            b,
            l,
            s,
            hidden,
            heads,
            kv,
            d,
        );
        let before = mllama_cached_stack(layers, (n - 1) as nat, x, mask, features, cache);
        let layer = layers[n - 1];
        let normed = layer.input_layernorm.output(before.0);
        lemma_mllama_cached_attention(
            layer.self_attn,
            normed,
            mask,
            before.1,
            layers.len(),
            n - 1,
            b,
            l,
            s,
            hidden,
        );
        let end = layer.self_attn.cached_output(normed, mask, before.1, n - 1);
        lemma_mllama_finish(layer, plus(before.0, end.0), features, b, l, hidden, heads, kv, d);
    }
}

/// Step by step over a cache: token indices `[b, l]` behind `s` steps give logits `[b, l, vocab]`,
/// and the cache then holds `s + l` steps. An empty cache holds none.
pub proof fn law_mllama_cached_shape(
    m: MllamaLoraForCausalLM,
    ids: Array,
    mask: Option<Array>,
    features: Option<Array>,
    cache: KVCacheState,
    b: i32,
    l: i32,
    s: int,
    vocab: i32,
    hidden: i32,
    heads: i32,
    kv: i32,
    d: i32,
)
    requires
        m.shaped(vocab, hidden, heads, kv, d),
        m.model.layers@.len() > 0,
        batch(b, l),
        0 <= s,
        s + l <= i32::MAX,
        is_of(ids, Shape::D2(b, l)),
        mask_fits(mask),
        features_fit(features, b, hidden),
        cache_holds(cache, m.model.layers@.len(), b, kv, d, s),
    ensures
        ({
            let end = m.model.cached_output(ids, mask, features, cache);
            &&& is_of(logits(m.lm_head, m.model.embed_tokens, end.0), Shape::D3(b, l, vocab))
            &&& cache_holds(end.1, m.model.layers@.len(), b, kv, d, s + l)
        }),
{
    broadcast use lemma_rms_norm_fits;

    lemma_embed_shape(m.model.embed_tokens, ids, b, l, vocab, hidden);
    let x = m.model.embed_tokens.output(ids);
    let layers = m.model.layers@;
    let n = layers.len();
    assert forall|j: int| 0 <= j < n implies #[trigger] layer_holds(
        cache,
        j,
        b,
        kv,
        d,
        steps_at(0, s, l, j),
    ) by {
        assert(layer_holds(cache, j, b, kv, d, s));
    }
    lemma_mllama_cached_stack(layers, n, x, mask, features, cache, b, l, s, hidden, heads, kv, d);
    let end = m.model.cached_output(ids, mask, features, cache);
    lemma_logits_shape(m.lm_head, m.model.embed_tokens, end.0, b, l, vocab, hidden);
    assert forall|j: int| 0 <= j < n implies #[trigger] layer_holds(end.1, j, b, kv, d, s + l) by {
        assert(layer_holds(end.1, j, b, kv, d, steps_at(n as int, s, l, j)));
    }
}

proof fn lemma_mllama_positioned_stack(
    layers: Seq<MllamaLoraDecoderLayer>,
    n: nat,
    x: Array,
    mask: Option<Array>,
    features: Option<Array>,
    positions: Array,
    b: i32,
    l: i32,
    hidden: i32,
    heads: i32,
    kv: i32,
    d: i32,
)
    requires
        n <= layers.len(),
        forall|i: int|
            0 <= i < layers.len() ==> (#[trigger] layers[i]).shaped(hidden, heads, kv, d),
        batch(b, l),
        is_of(x, Shape::D3(b, l, hidden)),
        mask_covers(mask, b, heads, l),
        positions.fits,
        features_fit(features, b, hidden),
    ensures
        is_of(
            mllama_positioned_stack(layers, n, x, mask, features, positions),
            Shape::D3(b, l, hidden),
        ),
    decreases n,
{
    broadcast use {lemma_combine_same, lemma_rms_norm_fits};

    if n > 0 {
        let m = (n - 1) as nat;
        lemma_mllama_positioned_stack(
            layers,
            m,
            x,
            mask,
            features,
            positions,
            b,
            l,
            hidden,
            heads,
            kv,
            d,
        );
        let y = mllama_positioned_stack(layers, m, x, mask, features, positions);
        let layer = layers[n - 1];
        let normed = layer.input_layernorm.output(y);
        lemma_mllama_positioned_attention(layer.self_attn, normed, mask, positions, b, l, hidden);
        let mixed = layer.self_attn.positioned_output(normed, mask, positions);
        lemma_mllama_finish(layer, plus(y, mixed), features, b, l, hidden, heads, kv, d);
    }
}

/// Token indices `[b, l]` at given positions give logits `[b, l, vocab]` too.
pub proof fn law_mllama_positioned_shape(
    m: MllamaLoraForCausalLM,
    ids: Array,
    mask: Option<Array>,
    positions: Array,
    b: i32,
    l: i32,
    vocab: i32,
    hidden: i32,
    heads: i32,
    kv: i32,
    d: i32,
)
    requires
        m.shaped(vocab, hidden, heads, kv, d),
        batch(b, l),
        is_of(ids, Shape::D2(b, l)),
        mask_covers(mask, b, heads, l),
        positions.fits,
    ensures
        is_of(
            logits(
                m.lm_head,
                m.model.embed_tokens,
                m.model.positioned_output(ids, mask, None, positions),
            ),
            Shape::D3(b, l, vocab),
        ),
{
    broadcast use lemma_rms_norm_fits;

    lemma_embed_shape(m.model.embed_tokens, ids, b, l, vocab, hidden);
    let x = m.model.embed_tokens.output(ids);
    let layers = m.model.layers@;
    lemma_mllama_positioned_stack(
        layers,
        layers.len(),
        x,
        mask,
        None,
        positions,
        b,
        l,
        hidden,
        heads,
        kv,
        d,
    );
    let h = m.model.positioned_output(ids, mask, None, positions);
    lemma_logits_shape(m.lm_head, m.model.embed_tokens, h, b, l, vocab, hidden);
}

/// A fresh layer has fitting extents, where the heads of the settings group evenly.
pub proof fn law_mllama_fresh_shaped(config: LlamaConfig, lora: LoraConfig, cross: bool)
    requires
        config.valid(),
        config.buildable(),
        lora.valid(),
        grouped(config.num_attention_heads, config.kv_heads(), config.head_size()),
    ensures
        MllamaLoraDecoderLayer::fresh(config, lora, cross).shaped(
            config.hidden_size,
            config.num_attention_heads,
            config.kv_heads(),
            config.head_size(),
        ),
{
    let h = config.hidden_size;
    lemma_kv_width(config.num_attention_heads, config.kv_heads(), config.head_size());
    let q = (config.num_attention_heads * config.head_size()) as i32;
    let kv = (config.kv_heads() * config.head_size()) as i32;
    let rs = lora.use_rslora;
    lemma_fresh_adapter(h, q, lora.rank_of(Proj::Q), lora.alpha, rs, false, lora.use_dora);
    lemma_fresh_adapter(h, kv, lora.rank_of(Proj::K), lora.alpha, rs, false, lora.use_dora);
    lemma_fresh_adapter(h, kv, lora.rank_of(Proj::V), lora.alpha, rs, false, lora.use_dora);
    lemma_fresh_adapter(q, h, lora.rank_of(Proj::O), lora.alpha, rs, false, lora.use_dora);
}

/// The arrays of an adapter with one of them replaced, where the condition holds.
pub open spec fn replaced_where(t: Seq<Array>, condition: bool, j: int, v: Array) -> Seq<Array> {
    if condition {
        t.update(j, v)
    } else {
        t
    }
}

/// The matrices of an adapter with one of them replaced, where the condition holds: the magnitudes
/// are no matrix.
pub open spec fn pair_where(a: Array, b: Array, condition: bool, j: int, v: Array) -> (
    Array,
    Array,
) {
    (
        if condition && j == 0 {
            v
        } else {
            a
        },
        if condition && j == 1 {
            v
        } else {
            b
        },
    )
}

proof fn lemma_adapter_write(l: LinearAdapter, t: Seq<Array>, condition: bool, j: int, v: Array)
    requires
        condition ==> 0 <= j < l.tensors().len(),
        t == replaced_where(l.tensors(), condition, j, v),
    ensures
        l.with_tensors(t).a() == pair_where(l.a(), l.b(), condition, j, v).0,
        l.with_tensors(t).b() == pair_where(l.a(), l.b(), condition, j, v).1,
        l.with_tensors(t).with_tensors(l.tensors()) == l,
        !condition || j < 2 ==> l.with_tensors(t) == l.with(
            pair_where(l.a(), l.b(), condition, j, v).0,
            pair_where(l.a(), l.b(), condition, j, v).1,
        ),
{
}

proof fn lemma_lora_write(l: LoraLinear, t: Seq<Array>, condition: bool, j: int, v: Array)
    requires
        condition ==> 0 <= j < 2,
        t == replaced_where(seq![l.lora_a, l.lora_b], condition, j, v),
    ensures
        t[0] == pair_where(l.lora_a, l.lora_b, condition, j, v).0,
        t[1] == pair_where(l.lora_a, l.lora_b, condition, j, v).1,
{
}

/// The matrices of a layer with matrix `j` of adapter `k` replaced.
pub open spec fn with_one_matrix(layer: MllamaLoraDecoderLayer, k: int, j: int, v: Array) -> Seq<
    Array,
> {
    if j < 2 {
        layer.matrices().update(2 * k + j, v)
    } else {
        layer.matrices()
    }
}

/// The layer with array `j` of adapter `k` replaced.
pub open spec fn with_one_tensor(
    layer: MllamaLoraDecoderLayer,
    k: int,
    j: int,
    v: Array,
) -> MllamaLoraDecoderLayer {
    layer.with_tensors(layer.tensors().update(k, layer.tensors()[k].update(j, v)))
}

#[verifier::rlimit(80)]
proof fn lemma_one_tensor(layer: MllamaLoraDecoderLayer, k: int, j: int, v: Array)
    requires
        0 <= k < layer.tensors().len(),
        0 <= j < layer.tensors()[k].len(),
    ensures
        with_one_tensor(layer, k, j, v).matrices() == with_one_matrix(layer, k, j, v),
        with_one_tensor(layer, k, j, v).places() == layer.places(),
        with_one_tensor(layer, k, j, v).with_tensors(layer.tensors()) == layer,
{
    let t = layer.tensors().update(k, layer.tensors()[k].update(j, v));
    let w = layer.with_tensors(t);
    let s = layer.self_attn;
    let m = layer.mlp;
    lemma_adapter_write(s.q_proj, t[0], k == 0, j, v);
    lemma_adapter_write(s.k_proj, t[1], k == 1, j, v);
    lemma_adapter_write(s.v_proj, t[2], k == 2, j, v);
    lemma_adapter_write(s.o_proj, t[3], k == 3, j, v);
    lemma_lora_write(m.gate_proj, t[4], k == 4, j, v);
    lemma_lora_write(m.up_proj, t[5], k == 5, j, v);
    lemma_lora_write(m.down_proj, t[6], k == 6, j, v);
    match layer.cross_attn {
        Some(ca) => {
            lemma_adapter_write(ca.q_proj, t[7], k == 7, j, v);
            lemma_adapter_write(ca.k_proj, t[8], k == 8, j, v);
            lemma_adapter_write(ca.v_proj, t[9], k == 9, j, v);
            lemma_adapter_write(ca.o_proj, t[10], k == 10, j, v);
            assert(w.matrices() =~= with_one_matrix(layer, k, j, v));
        },
        None => {
            assert(w.matrices() =~= with_one_matrix(layer, k, j, v));
        },
    }
}

/// Writing one trainable array of an MLlama text decoder changes the parameter map under that
/// matrix's name and nowhere else; writing magnitudes changes no name. Nothing else of the model
/// is changed.
pub proof fn law_mllama_write_one_leaf(
    layers: Seq<MllamaLoraDecoderLayer>,
    i: int,
    k: int,
    j: int,
    v: Array,
)
    requires
        0 <= i < layers.len(),
        0 <= k < layers[i].tensors().len(),
        0 <= j < layers[i].tensors()[k].len(),
    ensures
        ({
            let after = layers.update(i, with_one_tensor(layers[i], k, j, v));
            let p = layers[i].places()[k];
            let name = lora_name(NameStyle::Plain, i as nat, p.section, p.proj, tensor_half(j));
            &&& parameter_map(NameStyle::Plain, after) == (if j < 2 {
                parameter_map(NameStyle::Plain, layers).insert(name, v)
            } else {
                parameter_map(NameStyle::Plain, layers)
            })
            &&& after[i].with_tensors(layers[i].tensors()) == layers[i]
        }),
{
    lemma_one_tensor(layers[i], k, j, v);
    let style = NameStyle::Plain;
    let after = layers.update(i, with_one_tensor(layers[i], k, j, v));
    let leaves = Seq::new(
        layers.len(),
        |l: int|
            if l == i {
                with_one_matrix(layers[i], k, j, v)
            } else {
                layers[l].matrices()
            },
    );
    let through = Seq::new(layers.len(), |l: int| layers[l].with_matrices(leaves[l]));
    assert forall|l: int| 0 <= l < layers.len() implies (#[trigger] through[l]).matrices()
        == after[l].matrices() && through[l].places() == after[l].places() by {
        layers[l].lemma_layer(leaves[l]);
    }
    lemma_same_map(style, through, after);
    layers[i].lemma_layer(layers[i].matrices());
    if j < 2 {
        law_write_one_leaf(style, layers, through, leaves, i, 2 * k + j, v);
        assert((2 * k + j) / 2 == k);
    } else {
        lemma_same_map(style, layers, after);
    }
}

} // verus!
