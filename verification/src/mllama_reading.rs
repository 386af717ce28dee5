//! What MLlama layers make of images, read off the nodes that they build.

use crate::array::{Array, RopeConfig, plus};
use crate::attention::{mask_or_causal, split_heads};
use crate::attention_reading::{
    Heads, is_joined, is_repeated, is_written_out, keys_of, lemma_match_heads_reads, plain_heads,
    queries_of, unrepeated, unsplit,
};
use crate::kv_cache::KVCacheState;
use crate::mllama_lora::{
    MllamaLoraCrossAttention, MllamaLoraDecoderLayer, MllamaLoraForCausalLM, mllama_cached_stack,
    mllama_positioned_stack, mllama_ready, mllama_stack, usable_features,
};
use crate::reading::{
    Projection, first_of, group_nodes, is_normed, is_sum, law_adapter_reads, law_linear_reads,
    second_of,
};
use crate::scalar::F32;
use vstd::prelude::*;

verus! {

impl MllamaLoraCrossAttention {
    /// The extents and settings of the heads. Nothing is rotated.
    pub open spec fn heads_read(self) -> Heads {
        Heads {
            n: self.n_heads,
            kv: self.n_kv_heads,
            d: self.head_dim,
            scale: self.scale,
            rope: RopeConfig { dims: 0, base: F32 { bits: 0 }, scale: F32 { bits: 0 } },
            q_norm: None,
            k_norm: None,
        }
    }
}

/// Attention of the steps of `x` to the features: queries from the one, keys and values from the
/// other, nothing rotated and nothing masked.
pub open spec fn attends_across(
    y: Array,
    x: Array,
    features: Array,
    ca: MllamaLoraCrossAttention,
) -> bool {
    let s = ca.heads_read();
    let h = ca.o_proj.fed(y);
    let mixed = first_of(first_of(h));
    let keys = keys_of(mixed, None);
    let values = second_of(mixed);
    &&& ca.o_proj.makes(h, y)
    &&& is_joined(h, mixed)
    &&& is_written_out(mixed, queries_of(mixed, None), keys, values, s.scale, None)
    &&& plain_heads(queries_of(mixed, None), x, ca.q_proj, s.n, s)
    &&& is_repeated(keys, unrepeated(keys, s.n, s.kv), s.n, s.kv)
    &&& plain_heads(unrepeated(keys, s.n, s.kv), features, ca.k_proj, s.kv, s)
    &&& is_repeated(values, unrepeated(values, s.n, s.kv), s.n, s.kv)
    &&& plain_heads(unrepeated(values, s.n, s.kv), features, ca.v_proj, s.kv, s)
}

/// The features that a cross-attention attended to, read off its output.
pub open spec fn features_of(y: Array, ca: MllamaLoraCrossAttention) -> Array {
    let mixed = first_of(first_of(ca.o_proj.fed(y)));
    ca.k_proj.fed(unsplit(unrepeated(keys_of(mixed, None), ca.n_heads, ca.n_kv_heads), None))
}

/// Cross-attention, read off its nodes. The features can be read off the output.
pub proof fn law_mllama_cross_reads(ca: MllamaLoraCrossAttention, x: Array, features: Array)
    requires
        ca.n_kv_heads > 0,
        ca.output(x, features).fits,
    ensures
        attends_across(ca.output(x, features), x, features, ca),
        features_of(ca.output(x, features), ca) == features,
{
    broadcast use {group_nodes, law_adapter_reads};

    let b = x.shape.outer();
    let n = features.shape.second();
    let k = split_heads(ca.k_proj.output(features), b, n, ca.n_kv_heads, ca.head_dim);
    let v = split_heads(ca.v_proj.output(features), b, n, ca.n_kv_heads, ca.head_dim);
    lemma_match_heads_reads(k, ca.n_heads, ca.n_kv_heads);
    lemma_match_heads_reads(v, ca.n_heads, ca.n_kv_heads);
}

/// A layer whose residual stream is `h` behind its attention, with the features, where it has
/// cross-attention and features are given: the stream goes on as `h` and the cross-attention of
/// its normalized self to the features; without either it goes on as `h`. On top of that comes
/// the MLP of its normalized self.
pub open spec fn goes_on(
    y: Array,
    h: Array,
    layer: MllamaLoraDecoderLayer,
    features: Option<Array>,
) -> bool {
    let c = first_of(y);
    &&& is_sum(y, c, second_of(y))
    &&& exists|n: Array|
        is_normed(
            n,
            c,
            layer.post_attention_layernorm.weight,
            layer.post_attention_layernorm.eps,
        ) && second_of(y) == #[trigger] layer.mlp.output(n)
    &&& if layer.cross_attn is Some && layer.cross_attention_layernorm is Some && features is Some {
        let ca = layer.cross_attn->0;
        let cn = layer.cross_attention_layernorm->0;
        &&& is_sum(c, h, second_of(c))
        &&& exists|n: Array|
            is_normed(n, h, cn.weight, cn.eps) && #[trigger] attends_across(
                second_of(c),
                n,
                features->0,
                ca,
            )
    } else {
        c == h
    }
}

/// The residual stream of a layer behind its attention, read off its output.
pub open spec fn stream_of(
    y: Array,
    layer: MllamaLoraDecoderLayer,
    features: Option<Array>,
) -> Array {
    if layer.cross_attn is Some && layer.cross_attention_layernorm is Some && features is Some {
        first_of(first_of(y))
    } else {
        first_of(y)
    }
}

proof fn lemma_goes_on(layer: MllamaLoraDecoderLayer, h: Array, features: Option<Array>)
    requires
        layer.ready(),
        layer.finish(h, features).fits,
    ensures
        goes_on(layer.finish(h, features), h, layer, features),
        stream_of(layer.finish(h, features), layer, features) == h,
        layer.cross_attn is Some && layer.cross_attention_layernorm is Some && features is Some
            ==> features_of(second_of(first_of(layer.finish(h, features))), layer.cross_attn->0)
            == features->0,
        h.fits,
{
    broadcast use group_nodes;

    let y = layer.finish(h, features);
    let c = first_of(y);
    let n = layer.post_attention_layernorm.output(c);
    assert(second_of(y) == layer.mlp.output(n));
    if layer.cross_attn is Some && layer.cross_attention_layernorm is Some && features is Some {
        let ca = layer.cross_attn->0;
        let m = layer.cross_attention_layernorm->0.output(h);
        law_mllama_cross_reads(ca, m, features->0);
        assert(attends_across(second_of(c), m, features->0, ca));
    }
}

/// A layer, read off its nodes: its input and the attention of its normalized input, then the
/// cross-attention to the features where there are both, then the MLP; by whichever attention.
pub proof fn law_mllama_layer_reads(
    layer: MllamaLoraDecoderLayer,
    x: Array,
    mask: Option<Array>,
    features: Option<Array>,
    positions: Array,
    cache: KVCacheState,
    i: int,
)
    requires
        layer.ready(),
    ensures
        ({
            let n = layer.input_layernorm.output(x);
            let w = layer.input_layernorm.weight;
            let plain = layer.output(x, mask, features);
            let placed = layer.positioned_output(x, mask, features, positions);
            let fused = layer.fused_output(x, mask, features);
            let cached = layer.cached_output(x, mask, features, cache, i);
            let end = layer.self_attn.cached_output(n, mask, cache, i);
            &&& is_normed(n, x, w, layer.input_layernorm.eps)
            &&& plain.fits ==> layer_made(
                plain,
                x,
                layer.self_attn.output(n, mask),
                layer,
                features,
            )
            &&& placed.fits ==> layer_made(
                placed,
                x,
                layer.self_attn.positioned_output(n, mask, positions),
                layer,
                features,
            )
            &&& fused.fits ==> layer_made(
                fused,
                x,
                layer.self_attn.fused_output(n, mask),
                layer,
                features,
            )
            &&& cached.0.fits ==> layer_made(cached.0, x, end.0, layer, features)
            &&& cached.1 == end.1
        }),
{
    broadcast use group_nodes;

    let n = layer.input_layernorm.output(x);
    let plain = plus(x, layer.self_attn.output(n, mask));
    let placed = plus(x, layer.self_attn.positioned_output(n, mask, positions));
    let fused = plus(x, layer.self_attn.fused_output(n, mask));
    let cached = plus(x, layer.self_attn.cached_output(n, mask, cache, i).0);
    if layer.finish(plain, features).fits {
        lemma_goes_on(layer, plain, features);
    }
    if layer.finish(placed, features).fits {
        lemma_goes_on(layer, placed, features);
    }
    if layer.finish(fused, features).fits {
        lemma_goes_on(layer, fused, features);
    }
    if layer.finish(cached, features).fits {
        lemma_goes_on(layer, cached, features);
    }
}

/// The layer went on from its input and this attention.
pub open spec fn layer_made(
    y: Array,
    x: Array,
    attended: Array,
    layer: MllamaLoraDecoderLayer,
    features: Option<Array>,
) -> bool {
    let h = stream_of(y, layer, features);
    is_sum(h, x, attended) && goes_on(y, h, layer, features)
}

proof fn lemma_layers_apart(
    layer: MllamaLoraDecoderLayer,
    h1: Array,
    h2: Array,
    f1: Array,
    f2: Array,
)
    requires
        layer.ready(),
        layer.finish(h1, Some(f1)).fits,
        layer.finish(h1, Some(f1)) == layer.finish(h2, Some(f2)),
    ensures
        h1 == h2,
        layer.cross_attn is Some && layer.cross_attention_layernorm is Some ==> f1 == f2,
{
    lemma_goes_on(layer, h1, Some(f1));
    lemma_goes_on(layer, h2, Some(f2));
}

/// Some layer before `n` has cross-attention.
pub open spec fn has_cross(layers: Seq<MllamaLoraDecoderLayer>, n: nat) -> bool {
    exists|i: int|
        0 <= i < n && (#[trigger] layers[i]).cross_attn is Some
            && layers[i].cross_attention_layernorm is Some
}

proof fn lemma_stack_apart(
    layers: Seq<MllamaLoraDecoderLayer>,
    n: nat,
    x: Array,
    mask: Option<Array>,
    positions: Array,
    cache: KVCacheState,
    f1: Array,
    f2: Array,
)
    requires
        n <= layers.len(),
        mllama_ready(layers),
        has_cross(layers, n),
        f1 != f2,
    ensures
        mllama_stack(layers, n, x, mask, Some(f1)).fits ==> mllama_stack(
            layers,
            n,
            x,
            mask,
            Some(f1),
        ) != mllama_stack(layers, n, x, mask, Some(f2)),
        mllama_positioned_stack(layers, n, x, mask, Some(f1), positions).fits
            ==> mllama_positioned_stack(layers, n, x, mask, Some(f1), positions)
            != mllama_positioned_stack(layers, n, x, mask, Some(f2), positions),
        mllama_cached_stack(layers, n, x, mask, Some(f1), cache).0.fits ==> mllama_cached_stack(
            layers,
            n,
            x,
            mask,
            Some(f1),
            cache,
        ).0 != mllama_cached_stack(layers, n, x, mask, Some(f2), cache).0,
    decreases n,
{
    broadcast use group_nodes;

    let m = (n - 1) as nat;
    let layer = layers[n - 1];
    let here = layer.cross_attn is Some && layer.cross_attention_layernorm is Some;
    if !here {
        let i = choose|i: int|
            0 <= i < n && (#[trigger] layers[i]).cross_attn is Some
                && layers[i].cross_attention_layernorm is Some;
        assert(0 <= i < m);
        assert(has_cross(layers, m));
        lemma_stack_apart(layers, m, x, mask, positions, cache, f1, f2);
    }
    let a1 = mllama_stack(layers, m, x, mask, Some(f1));
    let a2 = mllama_stack(layers, m, x, mask, Some(f2));
    let h1 = plus(a1, layer.self_attn.output(layer.input_layernorm.output(a1), mask));
    let h2 = plus(a2, layer.self_attn.output(layer.input_layernorm.output(a2), mask));
    if layer.finish(h1, Some(f1)).fits && layer.finish(h1, Some(f1)) == layer.finish(
        h2,
        Some(f2),
    ) {
        lemma_layers_apart(layer, h1, h2, f1, f2);
        lemma_goes_on(layer, h1, Some(f1));
        assert(first_of(h1) == a1 && first_of(h2) == a2);
    }
    let b1 = mllama_positioned_stack(layers, m, x, mask, Some(f1), positions);
    let b2 = mllama_positioned_stack(layers, m, x, mask, Some(f2), positions);
    let p1 = plus(
        b1,
        layer.self_attn.positioned_output(layer.input_layernorm.output(b1), mask, positions),
    );
    let p2 = plus(
        b2,
        layer.self_attn.positioned_output(layer.input_layernorm.output(b2), mask, positions),
    );
    if layer.finish(p1, Some(f1)).fits && layer.finish(p1, Some(f1)) == layer.finish(
        p2,
        Some(f2),
    ) {
        lemma_layers_apart(layer, p1, p2, f1, f2);
        lemma_goes_on(layer, p1, Some(f1));
        assert(first_of(p1) == b1 && first_of(p2) == b2);
    }
    let c1 = mllama_cached_stack(layers, m, x, mask, Some(f1), cache);
    let c2 = mllama_cached_stack(layers, m, x, mask, Some(f2), cache);
    let q1 = plus(
        c1.0,
        layer.self_attn.cached_output(layer.input_layernorm.output(c1.0), mask, c1.1, n - 1).0,
    );
    let q2 = plus(
        c2.0,
        layer.self_attn.cached_output(layer.input_layernorm.output(c2.0), mask, c2.1, n - 1).0,
    );
    if layer.finish(q1, Some(f1)).fits && layer.finish(q1, Some(f1)) == layer.finish(
        q2,
        Some(f2),
    ) {
        lemma_layers_apart(layer, q1, q2, f1, f2);
        lemma_goes_on(layer, q1, Some(f1));
        assert(first_of(q1) == c1.0 && first_of(q2) == c2.0);
    }
}

/// Images move the result: in a model with cross-attention, the hidden states for different
/// features are made differently, by whichever attention, and so are the logits.
pub proof fn law_mllama_features_matter(
    m: MllamaLoraForCausalLM,
    ids: Array,
    mask: Option<Array>,
    positions: Array,
    cache: KVCacheState,
    f1: Array,
    f2: Array,
)
    requires
        mllama_ready(m.model.layers@),
        has_cross(m.model.layers@, m.model.layers@.len()),
        f1 != f2,
    ensures
        m.output(ids, mask, Some(f1)).fits ==> m.output(ids, mask, Some(f1)) != m.output(
            ids,
            mask,
            Some(f2),
        ),
        ({
            let one = m.model.positioned_output(ids, mask, Some(f1), positions);
            one.fits ==> one != m.model.positioned_output(ids, mask, Some(f2), positions)
        }),
        ({
            let one = m.model.cached_output(ids, mask, Some(f1), cache).0;
            one.fits ==> one != m.model.cached_output(ids, mask, Some(f2), cache).0
        }),
{
    broadcast use {group_nodes, law_linear_reads};

    let x = m.model.embed_tokens.output(ids);
    let layers = m.model.layers@;
    let full = mask_or_causal(mask, ids);
    lemma_stack_apart(layers, layers.len(), x, full, positions, cache, f1, f2);
    lemma_stack_apart(layers, layers.len(), x, mask, positions, cache, f1, f2);
    let a = m.model.output(ids, mask, Some(f1));
    let b = m.model.output(ids, mask, Some(f2));
    assert(a.fits ==> first_of(a) != first_of(b));
    match m.lm_head {
        Some(h) => {
            assert(h.fed(h.output(a)) == a);
            assert(h.fed(h.output(b)) == b);
        },
        None => {},
    }
    let p = m.model.positioned_output(ids, mask, Some(f1), positions);
    let q = m.model.positioned_output(ids, mask, Some(f2), positions);
    assert(p.fits ==> first_of(p) != first_of(q));
    let c = m.model.cached_output(ids, mask, Some(f1), cache).0;
    let d = m.model.cached_output(ids, mask, Some(f2), cache).0;
    assert(c.fits ==> first_of(c) != first_of(d));
}

/// Features are used where their width is that of the hidden states, and only there.
pub proof fn law_features_used(features: Array, hidden: i32)
    ensures
        features.shape.rank() >= 1 && features.shape.inner() == hidden ==> usable_features(
            Some(features),
            hidden,
        ) == Some(features),
        features.shape.rank() >= 1 && features.shape.inner() != hidden ==> usable_features(
            Some(features),
            hidden,
        ) is None,
        usable_features(None, hidden) is None,
{
}

} // verus!
