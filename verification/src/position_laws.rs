//! Which positions the steps of a sequence are rotated by.

use crate::array::{Array, Node, mask_fits, rope, slice, swap_middle};
use crate::kv_cache::{KVCacheConfig, KVCacheState};
use crate::mistral_laws::{
    law_mistral_cached_shape, lemma_mistral_cached_attention, lemma_mistral_cached_stack,
    lemma_mistral_parts,
};
use crate::mistral_lora::{
    MistralLoraAttention, MistralLoraDecoderLayer, MistralLoraForCausalLM, mistral_cached_stack,
};
use crate::mllama_laws::{
    features_fit, law_mllama_cached_shape, lemma_mllama_cached_attention, lemma_mllama_cached_stack,
    lemma_mllama_parts,
};
use crate::mllama_lora::{
    MllamaLoraDecoderLayer, MllamaLoraForCausalLM, MllamaLoraSelfAttention, mllama_cached_stack,
};
use crate::phi_laws::{
    law_phi_cached_shape, lemma_phi_cached_attention, lemma_phi_cached_stack, lemma_phi_heads,
};
use crate::phi_lora::{PhiLoraAttention, PhiLoraDecoderLayer, PhiLoraForCausalLM, phi_cached_stack};
use crate::phi_qlora::{
    PhiQLoraAttention, PhiQloraDecoderLayer, PhiQloraForCausalLM, phi_qlora_cached_stack,
};
use crate::phi_qlora_laws::{
    law_phi_qlora_cached_shape, lemma_phi_qlora_cached_attention, lemma_phi_qlora_cached_stack,
    lemma_phi_qlora_heads,
};
use crate::qwen3_laws::{
    law_qwen3_cached_shape, lemma_qwen3_cached_attention, lemma_qwen3_cached_stack,
    lemma_qwen3_parts,
};
use crate::qwen3_lora::{
    Qwen3LoraAttention, Qwen3LoraDecoderLayer, Qwen3LoraForCausalLM, qwen3_cached_stack,
};
use crate::qwen3_moe_lora::{
    Qwen3MoELoraAttention, Qwen3MoELoraDecoderLayer, Qwen3MoELoraForCausalLM, moe_lora_cached_stack,
};
use crate::qwen3_moe_lora_laws::{
    law_moe_lora_cached_shape, lemma_moe_lora_cached_attention, lemma_moe_lora_cached_stack,
    lemma_moe_lora_parts,
};
use crate::qwen3_moe_qlora::{
    Qwen3MoEQLoraAttention, Qwen3MoEQLoraDecoderLayer, Qwen3MoEQLoraForCausalLM,
    moe_qlora_cached_stack,
};
use crate::qwen3_moe_qlora_laws::{
    law_moe_qlora_cached_shape, lemma_moe_qlora_cached_attention, lemma_moe_qlora_cached_stack,
    lemma_moe_qlora_parts,
};
use crate::reading::{
    Projection, first_of, group_nodes, law_adapter_reads, law_lora_reads, law_qlora_reads,
    second_of,
};
use crate::shape::Shape;
use crate::shapes::{
    batch, cache_at, cache_holds, is_of, law_fresh_cache_holds, layer_holds, lemma_cache_step,
    lemma_combine_same, lemma_embed_shape, lemma_partly_rotated, lemma_rms_norm_fits,
    lemma_rope_shape, lemma_swap_middle_shape, steps_at,
};
use vstd::prelude::*;

verus! {

/// The numbers from `from` on, `n` of them.
pub open spec fn numbers_from(from: int, n: int) -> Seq<int> {
    Seq::new(n as nat, |j: int| from + j)
}

/// The positions that the steps of heads `[batch, heads, length, features]` were rotated by, read
/// off the nodes: those of the earlier steps and then those of the later ones, where steps were
/// put behind steps, and those of the rotated features, where only some were rotated.
pub open spec fn positions_of(x: Array) -> Seq<int>
    decreases x,
{
    match *x.node {
        Node::Rope { x: _, config: _, offset } => match x.shape {
            Shape::D4(_, _, l, _) => numbers_from(offset as int, l as int),
            _ => seq![],
        },
        Node::Concat { a, b, depth } => if depth == 0 {
            positions_of(a)
        } else {
            positions_of(a) + positions_of(b)
        },
        _ => seq![],
    }
}

/// The positions of the keys that a cache holds of a layer.
pub open spec fn key_positions(cache: KVCacheState, layer: int) -> Seq<int> {
    match cache.entries[layer] {
        Some(e) => positions_of(e.0),
        None => seq![],
    }
}

/// In each of the `n` layers, the `s` keys stand at the positions from nought on.
pub open spec fn cache_numbered(cache: KVCacheState, n: nat, s: int) -> bool {
    forall|j: int| 0 <= j < n ==> #[trigger] key_positions(cache, j) == numbers_from(0, s)
}

/// The same in the middle of a pass of `l` steps that has come to layer `i`.
pub open spec fn numbered_at(cache: KVCacheState, n: nat, i: int, s: int, l: i32) -> bool {
    forall|j: int|
        0 <= j < n ==> #[trigger] key_positions(cache, j) == numbers_from(0, steps_at(i, s, l, j))
}

/// A fresh cache holds no keys.
pub proof fn law_fresh_cache_numbered(config: KVCacheConfig)
    ensures
        cache_numbered(KVCacheState::fresh(config), config.num_layers as nat, 0),
{
    assert(numbers_from(0, 0) =~= seq![]);
}

proof fn lemma_numbered_step(
    cache: KVCacheState,
    n: nat,
    i: int,
    b: i32,
    kv: i32,
    d: i32,
    s: int,
    l: i32,
    k: Array,
    v: Array,
)
    requires
        0 <= i < n,
        0 <= s,
        0 < l,
        s + l <= i32::MAX,
        cache_at(cache, n, i, b, kv, d, s, l),
        numbered_at(cache, n, i, s, l),
        is_of(k, Shape::D4(b, kv, l, d)),
        is_of(v, Shape::D4(b, kv, l, d)),
        positions_of(k) == numbers_from(s, l as int),
    ensures
        numbered_at(cache.extended(i, k, v), n, i + 1, s, l),
{
    broadcast use group_nodes;

    lemma_cache_step(cache, n, i, b, kv, d, s, l, k, v);
    let after = cache.extended(i, k, v);
    assert forall|j: int| 0 <= j < n implies #[trigger] key_positions(after, j) == numbers_from(
        0,
        steps_at(i + 1, s, l, j),
    ) by {
        assert(key_positions(cache, j) == numbers_from(0, steps_at(i, s, l, j)));
        if j == i {
            assert(numbers_from(0, s) + numbers_from(s, l as int) =~= numbers_from(0, s + l));
            assert(layer_holds(cache, i, b, kv, d, steps_at(i, s, l, i)));
        }
    }
}

proof fn lemma_mistral_numbered_attention(
    a: MistralLoraAttention,
    x: Array,
    mask: Option<Array>,
    cache: KVCacheState,
    n: nat,
    i: int,
    b: i32,
    l: i32,
    s: int,
    hidden: i32,
)
    requires
        a.shaped(hidden),
        batch(b, l),
        0 <= i < n,
        0 <= s,
        s + l <= i32::MAX,
        is_of(x, Shape::D3(b, l, hidden)),
        mask_fits(mask),
        cache_at(cache, n, i, b, a.n_kv_heads, a.head_dim, s, l),
        numbered_at(cache, n, i, s, l),
    ensures
        ({
            let end = a.cached_output(x, mask, cache, i);
            let mixed = first_of(first_of(a.o_proj.fed(end.0)));
            &&& numbered_at(end.1, n, i + 1, s, l)
            &&& positions_of(first_of(mixed)) == numbers_from(s, l as int)
            &&& positions_of(second_of(mixed)) == numbers_from(0, s + l)
        }),
{
    broadcast use law_lora_reads;
    broadcast use {group_nodes, lemma_rope_shape};

    lemma_mistral_parts(a, x, b, l, hidden);
    let q = rope(a.queries(x), a.rope, cache.offset);
    let k = rope(a.keys(x), a.rope, cache.offset);
    let v = a.values(x);
    lemma_mistral_cached_attention(a, x, mask, cache, n, i, b, l, s, hidden);
    lemma_cache_step(cache, n, i, b, a.n_kv_heads, a.head_dim, s, l, k, v);
    lemma_numbered_step(cache, n, i, b, a.n_kv_heads, a.head_dim, s, l, k, v);
    let end = a.cached_output(x, mask, cache, i);
    assert(key_positions(end.1, i) == numbers_from(0, steps_at(i + 1, s, l, i)));
}

proof fn lemma_mistral_numbered(
    layers: Seq<MistralLoraDecoderLayer>,
    n: nat,
    x: Array,
    mask: Option<Array>,
    cache: KVCacheState,
    b: i32,
    l: i32,
    s: int,
    hidden: i32,
    heads: i32,
    kv: i32,
    d: i32,
)
    requires
        n <= layers.len(),
        forall|i: int|
            0 <= i < layers.len() ==> (#[trigger] layers[i]).shaped(hidden, heads, kv, d),
        batch(b, l),
        0 <= s,
        s + l <= i32::MAX,
        is_of(x, Shape::D3(b, l, hidden)),
        mask_fits(mask),
        cache_at(cache, layers.len(), 0, b, kv, d, s, l),
        numbered_at(cache, layers.len(), 0, s, l),
    ensures
        numbered_at(
            mistral_cached_stack(layers, n, x, mask, cache).1,
            layers.len(),
            n as int,
            s,
            l,
        ),
    decreases n,
{
    broadcast use {lemma_combine_same, lemma_rms_norm_fits};

    if n > 0 {
        lemma_mistral_numbered(
            layers,
            (n - 1) as nat,
            x,
            mask,
            cache,
            b,
            l,
            s,
            hidden,
            heads,
            kv,
            d,
        );
        lemma_mistral_cached_stack(
            layers,
            (n - 1) as nat,
            x,
            mask,
            cache,
            b,
            l,
            s,
            hidden,
            heads,
            kv,
            d,
        );
        let before = mistral_cached_stack(layers, (n - 1) as nat, x, mask, cache);
        let layer = layers[n - 1];
        lemma_mistral_numbered_attention(
            layer.self_attn,
            layer.input_layernorm.output(before.0),
            mask,
            before.1,
            layers.len(),
            n - 1,
            b,
            l,
            s,
            hidden,
        );
    }
}

/// Behind `s` steps that stand at the positions from nought on, the `l` steps of a call on a
/// Mistral model stand at the positions from `s` on, queries and new keys alike, in every layer;
/// they are compared with keys at all positions so far, and so it is in the cache that the call
/// leaves.
pub proof fn law_mistral_positions(
    m: MistralLoraForCausalLM,
    ids: Array,
    mask: Option<Array>,
    cache: KVCacheState,
    b: i32,
    l: i32,
    s: int,
    vocab: i32,
    hidden: i32,
    heads: i32,
    kv: i32,
    d: i32,
    i: int,
)
    requires
        m.shaped(vocab, hidden, heads, kv, d),
        0 <= i < m.model.layers@.len(),
        batch(b, l),
        0 <= s,
        s + l <= i32::MAX,
        is_of(ids, Shape::D2(b, l)),
        mask_fits(mask),
        cache_holds(cache, m.model.layers@.len(), b, kv, d, s),
        cache_numbered(cache, m.model.layers@.len(), s),
    ensures
        ({
            let layers = m.model.layers@;
            let e = m.model.embed_tokens.output(ids);
            let end = m.model.cached_output(ids, mask, cache);
            let before = mistral_cached_stack(layers, i as nat, e, mask, cache);
            let n = layers[i].input_layernorm.output(before.0);
            let y = layers[i].self_attn.cached_output(n, mask, before.1, i).0;
            let mixed = first_of(first_of(layers[i].self_attn.o_proj.fed(y)));
            &&& cache_numbered(end.1, layers.len(), s + l)
            &&& end.1.offset == s + l
            &&& positions_of(first_of(mixed)) == numbers_from(s, l as int)
            &&& positions_of(second_of(mixed)) == numbers_from(0, s + l)
        }),
{
    broadcast use {lemma_combine_same, lemma_rms_norm_fits};

    lemma_embed_shape(m.model.embed_tokens, ids, b, l, vocab, hidden);
    let x = m.model.embed_tokens.output(ids);
    let layers = m.model.layers@;
    let n = layers.len();
    assert forall|j: int| 0 <= j < n implies #[trigger] layer_holds(
        cache,
        j,
        b,
        kv,
        d,
        steps_at(0, s, l, j),
    ) by {
        assert(layer_holds(cache, j, b, kv, d, s));
    }
    assert forall|j: int| 0 <= j < n implies #[trigger] key_positions(cache, j) == numbers_from(
        0,
        steps_at(0, s, l, j),
    ) by {
        assert(key_positions(cache, j) == numbers_from(0, s));
    }
    lemma_mistral_numbered(layers, n, x, mask, cache, b, l, s, hidden, heads, kv, d);
    lemma_mistral_cached_stack(layers, n, x, mask, cache, b, l, s, hidden, heads, kv, d);
    lemma_mistral_numbered(layers, i as nat, x, mask, cache, b, l, s, hidden, heads, kv, d);
    lemma_mistral_cached_stack(layers, i as nat, x, mask, cache, b, l, s, hidden, heads, kv, d);
    let before = mistral_cached_stack(layers, i as nat, x, mask, cache);
    lemma_mistral_numbered_attention(
        layers[i].self_attn,
        layers[i].input_layernorm.output(before.0),
        mask,
        before.1,
        n,
        i,
        b,
        l,
        s,
        hidden,
    );
    let end = m.model.cached_output(ids, mask, cache);
    assert forall|j: int| 0 <= j < n implies #[trigger] key_positions(end.1, j) == numbers_from(
        0,
        s + l,
    ) by {
        assert(key_positions(end.1, j) == numbers_from(0, steps_at(n as int, s, l, j)));
    }
}

/// A prompt that is fed to a Mistral model in two calls leaves keys at the same positions as the
/// prompt fed in one, in every layer.
pub proof fn law_mistral_prompt_in_two_calls(
    m: MistralLoraForCausalLM,
    first: Array,
    rest: Array,
    whole: Array,
    mask: Option<Array>,
    config: KVCacheConfig,
    b: i32,
    l1: i32,
    l2: i32,
    vocab: i32,
    hidden: i32,
    heads: i32,
    kv: i32,
    d: i32,
)
    requires
        m.shaped(vocab, hidden, heads, kv, d),
        m.model.layers@.len() > 0,
        config.num_layers == m.model.layers@.len(),
        l1 + l2 <= i32::MAX,
        batch(b, l1),
        batch(b, l2),
        batch(b, (l1 + l2) as i32),
        is_of(first, Shape::D2(b, l1)),
        is_of(rest, Shape::D2(b, l2)),
        is_of(whole, Shape::D2(b, (l1 + l2) as i32)),
        mask_fits(mask),
    ensures
        ({
            let n = m.model.layers@.len();
            let fresh = KVCacheState::fresh(config);
            let one = m.model.cached_output(first, mask, fresh);
            let two = m.model.cached_output(rest, mask, one.1);
            let all = m.model.cached_output(whole, mask, fresh);
            &&& two.1.offset == all.1.offset
            &&& forall|j: int|
                0 <= j < n ==> #[trigger] key_positions(two.1, j) == key_positions(all.1, j)
        }),
{
    let n = m.model.layers@.len();
    let fresh = KVCacheState::fresh(config);
    let l = (l1 + l2) as i32;
    law_fresh_cache_holds(config, b, kv, d);
    law_fresh_cache_numbered(config);
    law_mistral_cached_shape(m, first, mask, fresh, b, l1, 0, vocab, hidden, heads, kv, d);
    law_mistral_positions(m, first, mask, fresh, b, l1, 0, vocab, hidden, heads, kv, d, 0);
    let one = m.model.cached_output(first, mask, fresh);
    law_mistral_positions(
        m,
        rest,
        mask,
        one.1,
        b,
        l2,
        l1 as int,
        vocab,
        hidden,
        heads,
        kv,
        d,
        0,
    );
    law_mistral_positions(m, whole, mask, fresh, b, l, 0, vocab, hidden, heads, kv, d, 0);
    let two = m.model.cached_output(rest, mask, one.1);
    let all = m.model.cached_output(whole, mask, fresh);
    assert forall|j: int| 0 <= j < n implies #[trigger] key_positions(two.1, j) == key_positions(
        all.1,
        j,
    ) by {
        assert(key_positions(all.1, j) == numbers_from(0, l as int));
    }
}

proof fn lemma_qwen3_numbered_attention(
    a: Qwen3LoraAttention,
    x: Array,
    mask: Option<Array>,
    cache: KVCacheState,
    n: nat,
    i: int,
    b: i32,
    l: i32,
    s: int,
    hidden: i32,
)
    requires
        a.shaped(hidden),
        batch(b, l),
        0 <= i < n,
        0 <= s,
        s + l <= i32::MAX,
        is_of(x, Shape::D3(b, l, hidden)),
        mask_fits(mask),
        cache_at(cache, n, i, b, a.n_kv_heads, a.head_dim, s, l),
        numbered_at(cache, n, i, s, l),
    ensures
        ({
            let end = a.cached_output(x, mask, cache, i);
            let mixed = first_of(first_of(a.o_proj.fed(end.0)));
            &&& numbered_at(end.1, n, i + 1, s, l)
            &&& positions_of(first_of(mixed)) == numbers_from(s, l as int)
            &&& positions_of(second_of(mixed)) == numbers_from(0, s + l)
        }),
{
    broadcast use law_lora_reads;
    broadcast use {group_nodes, lemma_rope_shape};

    lemma_qwen3_parts(a, x, b, l, hidden);
    let q = rope(a.queries(x), a.rope, cache.offset);
    let k = rope(a.keys(x), a.rope, cache.offset);
    let v = a.values(x);
    lemma_qwen3_cached_attention(a, x, mask, cache, n, i, b, l, s, hidden);
    lemma_cache_step(cache, n, i, b, a.n_kv_heads, a.head_dim, s, l, k, v);
    lemma_numbered_step(cache, n, i, b, a.n_kv_heads, a.head_dim, s, l, k, v);
    let end = a.cached_output(x, mask, cache, i);
    assert(key_positions(end.1, i) == numbers_from(0, steps_at(i + 1, s, l, i)));
}

proof fn lemma_qwen3_numbered(
    layers: Seq<Qwen3LoraDecoderLayer>,
    n: nat,
    x: Array,
    mask: Option<Array>,
    cache: KVCacheState,
    b: i32,
    l: i32,
    s: int,
    hidden: i32,
    heads: i32,
    kv: i32,
    d: i32,
)
    requires
        n <= layers.len(),
        forall|i: int|
            0 <= i < layers.len() ==> (#[trigger] layers[i]).shaped(hidden, heads, kv, d),
        batch(b, l),
        0 <= s,
        s + l <= i32::MAX,
        is_of(x, Shape::D3(b, l, hidden)),
        mask_fits(mask),
        cache_at(cache, layers.len(), 0, b, kv, d, s, l),
        numbered_at(cache, layers.len(), 0, s, l),
    ensures
        numbered_at(
            qwen3_cached_stack(layers, n, x, mask, cache).1,
            layers.len(),
            n as int,
            s,
            l,
        ),
    decreases n,
{
    broadcast use {lemma_combine_same, lemma_rms_norm_fits};

    if n > 0 {
        lemma_qwen3_numbered(
            layers,
            (n - 1) as nat,
            x,
            mask,
            cache,
            b,
            l,
            s,
            hidden,
            heads,
            kv,
            d,
        );
        lemma_qwen3_cached_stack(
            layers,
            (n - 1) as nat,
            x,
            mask,
            cache,
            b,
            l,
            s,
            hidden,
            heads,
            kv,
            d,
        );
        let before = qwen3_cached_stack(layers, (n - 1) as nat, x, mask, cache);
        let layer = layers[n - 1];
        lemma_qwen3_numbered_attention(
            layer.self_attn,
            layer.input_layernorm.output(before.0),
            mask,
            before.1,
            layers.len(),
            n - 1,
            b,
            l,
            s,
            hidden,
        );
    }
}

/// Behind `s` steps that stand at the positions from nought on, the `l` steps of a call on a Qwen3
/// model stand at the positions from `s` on, queries and new keys alike, in every layer; they are
/// compared with keys at all positions so far, and so it is in the cache that the call leaves.
pub proof fn law_qwen3_positions(
    m: Qwen3LoraForCausalLM,
    ids: Array,
    mask: Option<Array>,
    cache: KVCacheState,
    b: i32,
    l: i32,
    s: int,
    vocab: i32,
    hidden: i32,
    heads: i32,
    kv: i32,
    d: i32,
    i: int,
)
    requires
        m.shaped(vocab, hidden, heads, kv, d),
        0 <= i < m.model.layers@.len(),
        batch(b, l),
        0 <= s,
        s + l <= i32::MAX,
        is_of(ids, Shape::D2(b, l)),
        mask_fits(mask),
        cache_holds(cache, m.model.layers@.len(), b, kv, d, s),
        cache_numbered(cache, m.model.layers@.len(), s),
    ensures
        ({
            let layers = m.model.layers@;
            let e = m.model.embed_tokens.output(ids);
            let end = m.model.cached_output(ids, mask, cache);
            let before = qwen3_cached_stack(layers, i as nat, e, mask, cache);
            let n = layers[i].input_layernorm.output(before.0);
            let y = layers[i].self_attn.cached_output(n, mask, before.1, i).0;
            let mixed = first_of(first_of(layers[i].self_attn.o_proj.fed(y)));
            &&& cache_numbered(end.1, layers.len(), s + l)
            &&& end.1.offset == s + l
            &&& positions_of(first_of(mixed)) == numbers_from(s, l as int)
            &&& positions_of(second_of(mixed)) == numbers_from(0, s + l)
        }),
{
    broadcast use {lemma_combine_same, lemma_rms_norm_fits};

    lemma_embed_shape(m.model.embed_tokens, ids, b, l, vocab, hidden);
    let x = m.model.embed_tokens.output(ids);
    let layers = m.model.layers@;
    let n = layers.len();
    assert forall|j: int| 0 <= j < n implies #[trigger] layer_holds(
        cache,
        j,
        b,
        kv,
        d,
        steps_at(0, s, l, j),
    ) by {
        assert(layer_holds(cache, j, b, kv, d, s));
    }
    assert forall|j: int| 0 <= j < n implies #[trigger] key_positions(cache, j) == numbers_from(
        0,
        steps_at(0, s, l, j),
    ) by {
        assert(key_positions(cache, j) == numbers_from(0, s));
    }
    lemma_qwen3_numbered(layers, n, x, mask, cache, b, l, s, hidden, heads, kv, d);
    lemma_qwen3_cached_stack(layers, n, x, mask, cache, b, l, s, hidden, heads, kv, d);
    lemma_qwen3_numbered(layers, i as nat, x, mask, cache, b, l, s, hidden, heads, kv, d);
    lemma_qwen3_cached_stack(layers, i as nat, x, mask, cache, b, l, s, hidden, heads, kv, d);
    let before = qwen3_cached_stack(layers, i as nat, x, mask, cache);
    lemma_qwen3_numbered_attention(
        layers[i].self_attn,
        layers[i].input_layernorm.output(before.0),
        mask,
        before.1,
        n,
        i,
        b,
        l,
        s,
        hidden,
    );
    let end = m.model.cached_output(ids, mask, cache);
    assert forall|j: int| 0 <= j < n implies #[trigger] key_positions(end.1, j) == numbers_from(
        0,
        s + l,
    ) by {
        assert(key_positions(end.1, j) == numbers_from(0, steps_at(n as int, s, l, j)));
    }
}

/// A prompt that is fed to a Qwen3 model in two calls leaves keys at the same positions as the
/// prompt fed in one, in every layer.
pub proof fn law_qwen3_prompt_in_two_calls(
    m: Qwen3LoraForCausalLM,
    first: Array,
    rest: Array,
    whole: Array,
    mask: Option<Array>,
    config: KVCacheConfig,
    b: i32,
    l1: i32,
    l2: i32,
    vocab: i32,
    hidden: i32,
    heads: i32,
    kv: i32,
    d: i32,
)
    requires
        m.shaped(vocab, hidden, heads, kv, d),
        m.model.layers@.len() > 0,
        config.num_layers == m.model.layers@.len(),
        l1 + l2 <= i32::MAX,
        batch(b, l1),
        batch(b, l2),
        batch(b, (l1 + l2) as i32),
        is_of(first, Shape::D2(b, l1)),
        is_of(rest, Shape::D2(b, l2)),
        is_of(whole, Shape::D2(b, (l1 + l2) as i32)),
        mask_fits(mask),
    ensures
        ({
            let n = m.model.layers@.len();
            let fresh = KVCacheState::fresh(config);
            let one = m.model.cached_output(first, mask, fresh);
            let two = m.model.cached_output(rest, mask, one.1);
            let all = m.model.cached_output(whole, mask, fresh);
            &&& two.1.offset == all.1.offset
            &&& forall|j: int|
                0 <= j < n ==> #[trigger] key_positions(two.1, j) == key_positions(all.1, j)
        }),
{
    let n = m.model.layers@.len();
    let fresh = KVCacheState::fresh(config);
    let l = (l1 + l2) as i32;
    law_fresh_cache_holds(config, b, kv, d);
    law_fresh_cache_numbered(config);
    law_qwen3_cached_shape(m, first, mask, fresh, b, l1, 0, vocab, hidden, heads, kv, d);
    law_qwen3_positions(m, first, mask, fresh, b, l1, 0, vocab, hidden, heads, kv, d, 0);
    let one = m.model.cached_output(first, mask, fresh);
    law_qwen3_positions(
        m,
        rest,
        mask,
        one.1,
        b,
        l2,
        l1 as int,
        vocab,
        hidden,
        heads,
        kv,
        d,
        0,
    );
    law_qwen3_positions(m, whole, mask, fresh, b, l, 0, vocab, hidden, heads, kv, d, 0);
    let two = m.model.cached_output(rest, mask, one.1);
    let all = m.model.cached_output(whole, mask, fresh);
    assert forall|j: int| 0 <= j < n implies #[trigger] key_positions(two.1, j) == key_positions(
        all.1,
        j,
    ) by {
        assert(key_positions(all.1, j) == numbers_from(0, l as int));
    }
}

proof fn lemma_phi_numbered_attention(
    a: PhiLoraAttention,
    x: Array,
    mask: Option<Array>,
    cache: KVCacheState,
    n: nat,
    i: int,
    b: i32,
    l: i32,
    s: int,
    hidden: i32,
)
    requires
        a.shaped(hidden),
        batch(b, l),
        0 <= i < n,
        0 <= s,
        s + l <= i32::MAX,
        is_of(x, Shape::D3(b, l, hidden)),
        mask_fits(mask),
        cache_at(cache, n, i, b, a.n_kv_heads, a.head_dim, s, l),
        numbered_at(cache, n, i, s, l),
        0 < a.rope_dim <= a.head_dim,
    ensures
        ({
            let end = a.cached_output(x, mask, cache, i);
            let mixed = first_of(first_of(a.o_proj.fed(end.0)));
            &&& numbered_at(end.1, n, i + 1, s, l)
            &&& positions_of(first_of(mixed)) == numbers_from(s, l as int)
            &&& positions_of(second_of(mixed)) == numbers_from(0, s + l)
        }),
{
    broadcast use law_lora_reads;
    broadcast use {lemma_swap_middle_shape, group_nodes};

    lemma_phi_heads(a, x, b, l, hidden);
    let q0 = swap_middle(a.heads(a.q_proj.output(x), x, a.n_heads));
    let k0 = swap_middle(a.heads(a.k_proj.output(x), x, a.n_kv_heads));
    lemma_partly_rotated(q0, a.rope_dim, a.rope, cache.offset);
    lemma_partly_rotated(k0, a.rope_dim, a.rope, cache.offset);
    reveal(slice);
    let k = a.parts(x, cache.offset).1;
    let v = a.parts(x, cache.offset).2;
    let q = a.parts(x, cache.offset).0;
    assert(positions_of(first_of(k)) == numbers_from(s, l as int));
    assert(positions_of(first_of(q)) == numbers_from(s, l as int));
    lemma_phi_cached_attention(a, x, mask, cache, n, i, b, l, s, hidden);
    lemma_cache_step(cache, n, i, b, a.n_kv_heads, a.head_dim, s, l, k, v);
    lemma_numbered_step(cache, n, i, b, a.n_kv_heads, a.head_dim, s, l, k, v);
    let end = a.cached_output(x, mask, cache, i);
    assert(key_positions(end.1, i) == numbers_from(0, steps_at(i + 1, s, l, i)));
}

proof fn lemma_phi_numbered(
    layers: Seq<PhiLoraDecoderLayer>,
    n: nat,
    x: Array,
    mask: Option<Array>,
    cache: KVCacheState,
    b: i32,
    l: i32,
    s: int,
    hidden: i32,
    heads: i32,
    kv: i32,
    d: i32,
)
    requires
        n <= layers.len(),
        forall|i: int|
            0 <= i < layers.len() ==> (#[trigger] layers[i]).shaped(hidden, heads, kv, d),
        forall|i: int| 0 <= i < layers.len() ==> 0 < (#[trigger] layers[i]).self_attn.rope_dim <= d,
        batch(b, l),
        0 <= s,
        s + l <= i32::MAX,
        is_of(x, Shape::D3(b, l, hidden)),
        mask_fits(mask),
        cache_at(cache, layers.len(), 0, b, kv, d, s, l),
        numbered_at(cache, layers.len(), 0, s, l),
    ensures
        numbered_at(
            phi_cached_stack(layers, n, x, mask, cache).1,
            layers.len(),
            n as int,
            s,
            l,
        ),
    decreases n,
{
    broadcast use {lemma_combine_same, lemma_rms_norm_fits};

    if n > 0 {
        lemma_phi_numbered(
            layers,
            (n - 1) as nat,
            x,
            mask,
            cache,
            b,
            l,
            s,
            hidden,
            heads,
            kv,
            d,
        );
        lemma_phi_cached_stack(
            layers,
            (n - 1) as nat,
            x,
            mask,
            cache,
            b,
            l,
            s,
            hidden,
            heads,
            kv,
            d,
        );
        let before = phi_cached_stack(layers, (n - 1) as nat, x, mask, cache);
        let layer = layers[n - 1];
        lemma_phi_numbered_attention(
            layer.self_attn,
            layer.input_layernorm.output(before.0),
            mask,
            before.1,
            layers.len(),
            n - 1,
            b,
            l,
            s,
            hidden,
        );
    }
}

/// Behind `s` steps that stand at the positions from nought on, the `l` steps of a call on a Phi
/// model stand at the positions from `s` on, queries and new keys alike, in every layer; they are
/// compared with keys at all positions so far, and so it is in the cache that the call leaves.
pub proof fn law_phi_positions(
    m: PhiLoraForCausalLM,
    ids: Array,
    mask: Option<Array>,
    cache: KVCacheState,
    b: i32,
    l: i32,
    s: int,
    vocab: i32,
    hidden: i32,
    heads: i32,
    kv: i32,
    d: i32,
    i: int,
)
    requires
        m.shaped(vocab, hidden, heads, kv, d),
        0 <= i < m.model.layers@.len(),
        forall|i: int| 0 <= i < m.model.layers@.len() ==> 0 < (
            #[trigger] m.model.layers@[i]
        ).self_attn.rope_dim <= d,
        batch(b, l),
        0 <= s,
        s + l <= i32::MAX,
        is_of(ids, Shape::D2(b, l)),
        mask_fits(mask),
        cache_holds(cache, m.model.layers@.len(), b, kv, d, s),
        cache_numbered(cache, m.model.layers@.len(), s),
    ensures
        ({
            let layers = m.model.layers@;
            let e = m.model.embed_tokens.output(ids);
            let end = m.model.cached_output(ids, mask, cache);
            let before = phi_cached_stack(layers, i as nat, e, mask, cache);
            let n = layers[i].input_layernorm.output(before.0);
            let y = layers[i].self_attn.cached_output(n, mask, before.1, i).0;
            let mixed = first_of(first_of(layers[i].self_attn.o_proj.fed(y)));
            &&& cache_numbered(end.1, layers.len(), s + l)
            &&& end.1.offset == s + l
            &&& positions_of(first_of(mixed)) == numbers_from(s, l as int)
            &&& positions_of(second_of(mixed)) == numbers_from(0, s + l)
        }),
{
    broadcast use {lemma_combine_same, lemma_rms_norm_fits};

    lemma_embed_shape(m.model.embed_tokens, ids, b, l, vocab, hidden);
    let x = m.model.embed_tokens.output(ids);
    let layers = m.model.layers@;
    let n = layers.len();
    assert forall|j: int| 0 <= j < n implies #[trigger] layer_holds(
        cache,
        j,
        b,
        kv,
        d,
        steps_at(0, s, l, j),
    ) by {
        assert(layer_holds(cache, j, b, kv, d, s));
    }
    assert forall|j: int| 0 <= j < n implies #[trigger] key_positions(cache, j) == numbers_from(
        0,
        steps_at(0, s, l, j),
    ) by {
        assert(key_positions(cache, j) == numbers_from(0, s));
    }
    lemma_phi_numbered(layers, n, x, mask, cache, b, l, s, hidden, heads, kv, d);
    lemma_phi_cached_stack(layers, n, x, mask, cache, b, l, s, hidden, heads, kv, d);
    lemma_phi_numbered(layers, i as nat, x, mask, cache, b, l, s, hidden, heads, kv, d);
    lemma_phi_cached_stack(layers, i as nat, x, mask, cache, b, l, s, hidden, heads, kv, d);
    let before = phi_cached_stack(layers, i as nat, x, mask, cache);
    lemma_phi_numbered_attention(
        layers[i].self_attn,
        layers[i].input_layernorm.output(before.0),
        mask,
        before.1,
        n,
        i,
        b,
        l,
        s,
        hidden,
    );
    let end = m.model.cached_output(ids, mask, cache);
    assert forall|j: int| 0 <= j < n implies #[trigger] key_positions(end.1, j) == numbers_from(
        0,
        s + l,
    ) by {
        assert(key_positions(end.1, j) == numbers_from(0, steps_at(n as int, s, l, j)));
    }
}

/// A prompt that is fed to a Phi model in two calls leaves keys at the same positions as the
/// prompt fed in one, in every layer.
pub proof fn law_phi_prompt_in_two_calls(
    m: PhiLoraForCausalLM,
    first: Array,
    rest: Array,
    whole: Array,
    mask: Option<Array>,
    config: KVCacheConfig,
    b: i32,
    l1: i32,
    l2: i32,
    vocab: i32,
    hidden: i32,
    heads: i32,
    kv: i32,
    d: i32,
)
    requires
        m.shaped(vocab, hidden, heads, kv, d),
        m.model.layers@.len() > 0,
        config.num_layers == m.model.layers@.len(),
        forall|i: int| 0 <= i < m.model.layers@.len() ==> 0 < (
            #[trigger] m.model.layers@[i]
        ).self_attn.rope_dim <= d,
        l1 + l2 <= i32::MAX,
        batch(b, l1),
        batch(b, l2),
        batch(b, (l1 + l2) as i32),
        is_of(first, Shape::D2(b, l1)),
        is_of(rest, Shape::D2(b, l2)),
        is_of(whole, Shape::D2(b, (l1 + l2) as i32)),
        mask_fits(mask),
    ensures
        ({
            let n = m.model.layers@.len();
            let fresh = KVCacheState::fresh(config);
            let one = m.model.cached_output(first, mask, fresh);
            let two = m.model.cached_output(rest, mask, one.1);
            let all = m.model.cached_output(whole, mask, fresh);
            &&& two.1.offset == all.1.offset
            &&& forall|j: int|
                0 <= j < n ==> #[trigger] key_positions(two.1, j) == key_positions(all.1, j)
        }),
{
    let n = m.model.layers@.len();
    let fresh = KVCacheState::fresh(config);
    let l = (l1 + l2) as i32;
    law_fresh_cache_holds(config, b, kv, d);
    law_fresh_cache_numbered(config);
    law_phi_cached_shape(m, first, mask, fresh, b, l1, 0, vocab, hidden, heads, kv, d);
    law_phi_positions(m, first, mask, fresh, b, l1, 0, vocab, hidden, heads, kv, d, 0);
    let one = m.model.cached_output(first, mask, fresh);
    law_phi_positions(
        m,
        rest,
        mask,
        one.1,
        b,
        l2,
        l1 as int,
        vocab,
        hidden,
        heads,
        kv,
        d,
        0,
    );
    law_phi_positions(m, whole, mask, fresh, b, l, 0, vocab, hidden, heads, kv, d, 0);
    let two = m.model.cached_output(rest, mask, one.1);
    let all = m.model.cached_output(whole, mask, fresh);
    assert forall|j: int| 0 <= j < n implies #[trigger] key_positions(two.1, j) == key_positions(
        all.1,
        j,
    ) by {
        assert(key_positions(all.1, j) == numbers_from(0, l as int));
    }
}

proof fn lemma_phi_qlora_numbered_attention(
    a: PhiQLoraAttention,
    x: Array,
    mask: Option<Array>,
    cache: KVCacheState,
    n: nat,
    i: int,
    b: i32,
    l: i32,
    s: int,
    hidden: i32,
)
    requires
        a.shaped(hidden),
        batch(b, l),
        0 <= i < n,
        0 <= s,
        s + l <= i32::MAX,
        is_of(x, Shape::D3(b, l, hidden)),
        mask_fits(mask),
        cache_at(cache, n, i, b, a.n_kv_heads, a.head_dim, s, l),
        numbered_at(cache, n, i, s, l),
        0 < a.rope_dim <= a.head_dim,
    ensures
        ({
            let end = a.cached_output(x, mask, cache, i);
            let mixed = first_of(first_of(a.o_proj.fed(end.0)));
            &&& numbered_at(end.1, n, i + 1, s, l)
            &&& positions_of(first_of(mixed)) == numbers_from(s, l as int)
            &&& positions_of(second_of(mixed)) == numbers_from(0, s + l)
        }),
{
    broadcast use law_qlora_reads;
    broadcast use {lemma_swap_middle_shape, group_nodes};

    lemma_phi_qlora_heads(a, x, b, l, hidden);
    let q0 = swap_middle(a.heads(a.q_proj.output(x), x, a.n_heads));
    let k0 = swap_middle(a.heads(a.k_proj.output(x), x, a.n_kv_heads));
    lemma_partly_rotated(q0, a.rope_dim, a.rope, cache.offset);
    lemma_partly_rotated(k0, a.rope_dim, a.rope, cache.offset);
    reveal(slice);
    let k = a.parts(x, cache.offset).1;
    let v = a.parts(x, cache.offset).2;
    let q = a.parts(x, cache.offset).0;
    assert(positions_of(first_of(k)) == numbers_from(s, l as int));
    assert(positions_of(first_of(q)) == numbers_from(s, l as int));
    lemma_phi_qlora_cached_attention(a, x, mask, cache, n, i, b, l, s, hidden);
    lemma_cache_step(cache, n, i, b, a.n_kv_heads, a.head_dim, s, l, k, v);
    lemma_numbered_step(cache, n, i, b, a.n_kv_heads, a.head_dim, s, l, k, v);
    let end = a.cached_output(x, mask, cache, i);
    assert(key_positions(end.1, i) == numbers_from(0, steps_at(i + 1, s, l, i)));
}

proof fn lemma_phi_qlora_numbered(
    layers: Seq<PhiQloraDecoderLayer>,
    n: nat,
    x: Array,
    mask: Option<Array>,
    cache: KVCacheState,
    b: i32,
    l: i32,
    s: int,
    hidden: i32,
    heads: i32,
    kv: i32,
    d: i32,
)
    requires
        n <= layers.len(),
        forall|i: int|
            0 <= i < layers.len() ==> (#[trigger] layers[i]).shaped(hidden, heads, kv, d),
        forall|i: int| 0 <= i < layers.len() ==> 0 < (#[trigger] layers[i]).self_attn.rope_dim <= d,
        batch(b, l),
        0 <= s,
        s + l <= i32::MAX,
        is_of(x, Shape::D3(b, l, hidden)),
        mask_fits(mask),
        cache_at(cache, layers.len(), 0, b, kv, d, s, l),
        numbered_at(cache, layers.len(), 0, s, l),
    ensures
        numbered_at(
            phi_qlora_cached_stack(layers, n, x, mask, cache).1,
            layers.len(),
            n as int,
            s,
            l,
        ),
    decreases n,
{
    broadcast use {lemma_combine_same, lemma_rms_norm_fits};

    if n > 0 {
        lemma_phi_qlora_numbered(
            layers,
            (n - 1) as nat,
            x,
            mask,
            cache,
            b,
            l,
            s,
            hidden,
            heads,
            kv,
            d,
        );
        lemma_phi_qlora_cached_stack(
            layers,
            (n - 1) as nat,
            x,
            mask,
            cache,
            b,
            l,
            s,
            hidden,
            heads,
            kv,
            d,
        );
        let before = phi_qlora_cached_stack(layers, (n - 1) as nat, x, mask, cache);
        let layer = layers[n - 1];
        lemma_phi_qlora_numbered_attention(
            layer.self_attn,
            layer.input_layernorm.output(before.0),
            mask,
            before.1,
            layers.len(),
            n - 1,
            b,
            l,
            s,
            hidden,
        );
    }
}

/// Behind `s` steps that stand at the positions from nought on, the `l` steps of a call on a
/// quantized Phi model stand at the positions from `s` on, queries and new keys alike, in every
/// layer; they are compared with keys at all positions so far, and so it is in the cache that the
/// call leaves.
pub proof fn law_phi_qlora_positions(
    m: PhiQloraForCausalLM,
    ids: Array,
    mask: Option<Array>,
    cache: KVCacheState,
    b: i32,
    l: i32,
    s: int,
    vocab: i32,
    hidden: i32,
    heads: i32,
    kv: i32,
    d: i32,
    i: int,
)
    requires
        m.shaped(vocab, hidden, heads, kv, d),
        0 <= i < m.model.layers@.len(),
        forall|i: int| 0 <= i < m.model.layers@.len() ==> 0 < (
            #[trigger] m.model.layers@[i]
        ).self_attn.rope_dim <= d,
        batch(b, l),
        0 <= s,
        s + l <= i32::MAX,
        is_of(ids, Shape::D2(b, l)),
        mask_fits(mask),
        cache_holds(cache, m.model.layers@.len(), b, kv, d, s),
        cache_numbered(cache, m.model.layers@.len(), s),
    ensures
        ({
            let layers = m.model.layers@;
            let e = m.model.embed_tokens.output(ids);
            let end = m.model.cached_output(ids, mask, cache);
            let before = phi_qlora_cached_stack(layers, i as nat, e, mask, cache);
            let n = layers[i].input_layernorm.output(before.0);
            let y = layers[i].self_attn.cached_output(n, mask, before.1, i).0;
            let mixed = first_of(first_of(layers[i].self_attn.o_proj.fed(y)));
            &&& cache_numbered(end.1, layers.len(), s + l)
            &&& end.1.offset == s + l
            &&& positions_of(first_of(mixed)) == numbers_from(s, l as int)
            &&& positions_of(second_of(mixed)) == numbers_from(0, s + l)
        }),
{
    broadcast use {lemma_combine_same, lemma_rms_norm_fits};

    lemma_embed_shape(m.model.embed_tokens, ids, b, l, vocab, hidden);
    let x = m.model.embed_tokens.output(ids);
    let layers = m.model.layers@;
    let n = layers.len();
    assert forall|j: int| 0 <= j < n implies #[trigger] layer_holds(
        cache,
        j,
        b,
        kv,
        d,
        steps_at(0, s, l, j),
    ) by {
        assert(layer_holds(cache, j, b, kv, d, s));
    }
    assert forall|j: int| 0 <= j < n implies #[trigger] key_positions(cache, j) == numbers_from(
        0,
        steps_at(0, s, l, j),
    ) by {
        assert(key_positions(cache, j) == numbers_from(0, s));
    }
    lemma_phi_qlora_numbered(layers, n, x, mask, cache, b, l, s, hidden, heads, kv, d);
    lemma_phi_qlora_cached_stack(layers, n, x, mask, cache, b, l, s, hidden, heads, kv, d);
    lemma_phi_qlora_numbered(layers, i as nat, x, mask, cache, b, l, s, hidden, heads, kv, d);
    lemma_phi_qlora_cached_stack(layers, i as nat, x, mask, cache, b, l, s, hidden, heads, kv, d);
    let before = phi_qlora_cached_stack(layers, i as nat, x, mask, cache);
    lemma_phi_qlora_numbered_attention(
        layers[i].self_attn,
        layers[i].input_layernorm.output(before.0),
        mask,
        before.1,
        n,
        i,
        b,
        l,
        s,
        hidden,
    );
    let end = m.model.cached_output(ids, mask, cache);
    assert forall|j: int| 0 <= j < n implies #[trigger] key_positions(end.1, j) == numbers_from(
        0,
        s + l,
    ) by {
        assert(key_positions(end.1, j) == numbers_from(0, steps_at(n as int, s, l, j)));
    }
}

/// A prompt that is fed to a quantized Phi model in two calls leaves keys at the same positions as
/// the prompt fed in one, in every layer.
pub proof fn law_phi_qlora_prompt_in_two_calls(
    m: PhiQloraForCausalLM,
    first: Array,
    rest: Array,
    whole: Array,
    mask: Option<Array>,
    config: KVCacheConfig,
    b: i32,
    l1: i32,
    l2: i32,
    vocab: i32,
    hidden: i32,
    heads: i32,
    kv: i32,
    d: i32,
)
    requires
        m.shaped(vocab, hidden, heads, kv, d),
        m.model.layers@.len() > 0,
        config.num_layers == m.model.layers@.len(),
        forall|i: int| 0 <= i < m.model.layers@.len() ==> 0 < (
            #[trigger] m.model.layers@[i]
        ).self_attn.rope_dim <= d,
        l1 + l2 <= i32::MAX,
        batch(b, l1),
        batch(b, l2),
        batch(b, (l1 + l2) as i32),
        is_of(first, Shape::D2(b, l1)),
        is_of(rest, Shape::D2(b, l2)),
        is_of(whole, Shape::D2(b, (l1 + l2) as i32)),
        mask_fits(mask),
    ensures
        ({
            let n = m.model.layers@.len();
            let fresh = KVCacheState::fresh(config);
            let one = m.model.cached_output(first, mask, fresh);
            let two = m.model.cached_output(rest, mask, one.1);
            let all = m.model.cached_output(whole, mask, fresh);
            &&& two.1.offset == all.1.offset
            &&& forall|j: int|
                0 <= j < n ==> #[trigger] key_positions(two.1, j) == key_positions(all.1, j)
        }),
{
    let n = m.model.layers@.len();
    let fresh = KVCacheState::fresh(config);
    let l = (l1 + l2) as i32;
    law_fresh_cache_holds(config, b, kv, d);
    law_fresh_cache_numbered(config);
    law_phi_qlora_cached_shape(m, first, mask, fresh, b, l1, 0, vocab, hidden, heads, kv, d);
    law_phi_qlora_positions(m, first, mask, fresh, b, l1, 0, vocab, hidden, heads, kv, d, 0);
    let one = m.model.cached_output(first, mask, fresh);
    law_phi_qlora_positions(
        m,
        rest,
        mask,
        one.1,
        b,
        l2,
        l1 as int,
        vocab,
        hidden,
        heads,
        kv,
        d,
        0,
    );
    law_phi_qlora_positions(m, whole, mask, fresh, b, l, 0, vocab, hidden, heads, kv, d, 0);
    let two = m.model.cached_output(rest, mask, one.1);
    let all = m.model.cached_output(whole, mask, fresh);
    assert forall|j: int| 0 <= j < n implies #[trigger] key_positions(two.1, j) == key_positions(
        all.1,
        j,
    ) by {
        assert(key_positions(all.1, j) == numbers_from(0, l as int));
    }
}

proof fn lemma_mllama_numbered_attention(
    a: MllamaLoraSelfAttention,
    x: Array,
    mask: Option<Array>,
    cache: KVCacheState,
    n: nat,
    i: int,
    b: i32,
    l: i32,
    s: int,
    hidden: i32,
)
    requires
        a.shaped(hidden),
        batch(b, l),
        0 <= i < n,
        0 <= s,
        s + l <= i32::MAX,
        is_of(x, Shape::D3(b, l, hidden)),
        mask_fits(mask),
        cache_at(cache, n, i, b, a.n_kv_heads, a.head_dim, s, l),
        numbered_at(cache, n, i, s, l),
    ensures
        ({
            let end = a.cached_output(x, mask, cache, i);
            let mixed = first_of(first_of(a.o_proj.fed(end.0)));
            &&& numbered_at(end.1, n, i + 1, s, l)
            &&& positions_of(first_of(mixed)) == numbers_from(s, l as int)
            &&& positions_of(second_of(mixed)) == numbers_from(0, s + l)
        }),
{
    broadcast use law_adapter_reads;
    broadcast use {group_nodes, lemma_rope_shape};

    lemma_mllama_parts(a, x, b, l, hidden);
    let q = rope(a.queries(x), a.rope, cache.offset);
    let k = rope(a.keys(x), a.rope, cache.offset);
    let v = a.values(x);
    lemma_mllama_cached_attention(a, x, mask, cache, n, i, b, l, s, hidden);
    lemma_cache_step(cache, n, i, b, a.n_kv_heads, a.head_dim, s, l, k, v);
    lemma_numbered_step(cache, n, i, b, a.n_kv_heads, a.head_dim, s, l, k, v);
    let end = a.cached_output(x, mask, cache, i);
    assert(key_positions(end.1, i) == numbers_from(0, steps_at(i + 1, s, l, i)));
}

proof fn lemma_mllama_numbered(
    layers: Seq<MllamaLoraDecoderLayer>,
    n: nat,
    x: Array,
    mask: Option<Array>,
    features: Option<Array>,
    cache: KVCacheState,
    b: i32,
    l: i32,
    s: int,
    hidden: i32,
    heads: i32,
    kv: i32,
    d: i32,
)
    requires
        n <= layers.len(),
        forall|i: int|
            0 <= i < layers.len() ==> (#[trigger] layers[i]).shaped(hidden, heads, kv, d),
        batch(b, l),
        0 <= s,
        s + l <= i32::MAX,
        is_of(x, Shape::D3(b, l, hidden)),
        mask_fits(mask),
        features_fit(features, b, hidden),
        cache_at(cache, layers.len(), 0, b, kv, d, s, l),
        numbered_at(cache, layers.len(), 0, s, l),
    ensures
        numbered_at(
            mllama_cached_stack(layers, n, x, mask, features, cache).1,
            layers.len(),
            n as int,
            s,
            l,
        ),
    decreases n,
{
    broadcast use {lemma_combine_same, lemma_rms_norm_fits};

    if n > 0 {
        lemma_mllama_numbered(
            layers,
            (n - 1) as nat,
            x,
            mask, features,
            cache,
            b,
            l,
            s,
            hidden,
            heads,
            kv,
            d,
        );
        lemma_mllama_cached_stack(
            layers,
            (n - 1) as nat,
            x,
            mask, features,
            cache,
            b,
            l,
            s,
            hidden,
            heads,
            kv,
            d,
        );
        let before = mllama_cached_stack(layers, (n - 1) as nat, x, mask, features, cache);
        let layer = layers[n - 1];
        lemma_mllama_numbered_attention(
            layer.self_attn,
            layer.input_layernorm.output(before.0),
            mask,
            before.1,
            layers.len(),
            n - 1,
            b,
            l,
            s,
            hidden,
        );
    }
}

/// Behind `s` steps that stand at the positions from nought on, the `l` steps of a call on a MLlama
/// model stand at the positions from `s` on, queries and new keys alike, in every layer; they are
/// compared with keys at all positions so far, and so it is in the cache that the call leaves.
pub proof fn law_mllama_positions(
    m: MllamaLoraForCausalLM,
    ids: Array,
    mask: Option<Array>,
    features: Option<Array>,
    cache: KVCacheState,
    b: i32,
    l: i32,
    s: int,
    vocab: i32,
    hidden: i32,
    heads: i32,
    kv: i32,
    d: i32,
    i: int,
)
    requires
        m.shaped(vocab, hidden, heads, kv, d),
        0 <= i < m.model.layers@.len(),
        batch(b, l),
        0 <= s,
        s + l <= i32::MAX,
        is_of(ids, Shape::D2(b, l)),
        mask_fits(mask),
        features_fit(features, b, hidden),
        cache_holds(cache, m.model.layers@.len(), b, kv, d, s),
        cache_numbered(cache, m.model.layers@.len(), s),
    ensures
        ({
            let layers = m.model.layers@;
            let e = m.model.embed_tokens.output(ids);
            let end = m.model.cached_output(ids, mask, features, cache);
            let before = mllama_cached_stack(layers, i as nat, e, mask, features, cache);
            let n = layers[i].input_layernorm.output(before.0);
            let y = layers[i].self_attn.cached_output(n, mask, before.1, i).0;
            let mixed = first_of(first_of(layers[i].self_attn.o_proj.fed(y)));
            &&& cache_numbered(end.1, layers.len(), s + l)
            &&& end.1.offset == s + l
            &&& positions_of(first_of(mixed)) == numbers_from(s, l as int)
            &&& positions_of(second_of(mixed)) == numbers_from(0, s + l)
        }),
{
    broadcast use {lemma_combine_same, lemma_rms_norm_fits};

    lemma_embed_shape(m.model.embed_tokens, ids, b, l, vocab, hidden);
    let x = m.model.embed_tokens.output(ids);
    let layers = m.model.layers@;
    let n = layers.len();
    assert forall|j: int| 0 <= j < n implies #[trigger] layer_holds(
        cache,
        j,
        b,
        kv,
        d,
        steps_at(0, s, l, j),
    ) by {
        assert(layer_holds(cache, j, b, kv, d, s));
    }
    assert forall|j: int| 0 <= j < n implies #[trigger] key_positions(cache, j) == numbers_from(
        0,
        steps_at(0, s, l, j),
    ) by {
        assert(key_positions(cache, j) == numbers_from(0, s));
    }
    lemma_mllama_numbered(layers, n, x, mask, features, cache, b, l, s, hidden, heads, kv, d);
    lemma_mllama_cached_stack(layers, n, x, mask, features, cache, b, l, s, hidden, heads, kv, d);
    lemma_mllama_numbered(
        layers,
        i as nat,
        x,
        mask,
        features,
        cache,
        b,
        l,
        s,
        hidden,
        heads,
        kv,
        d,
    );
    lemma_mllama_cached_stack(
        layers,
        i as nat,
        x,
        mask,
        features,
        cache,
        b,
        l,
        s,
        hidden,
        heads,
        kv,
        d,
    );
    let before = mllama_cached_stack(layers, i as nat, x, mask, features, cache);
    lemma_mllama_numbered_attention(
        layers[i].self_attn,
        layers[i].input_layernorm.output(before.0),
        mask,
        before.1,
        n,
        i,
        b,
        l,
        s,
        hidden,
    );
    let end = m.model.cached_output(ids, mask, features, cache);
    assert forall|j: int| 0 <= j < n implies #[trigger] key_positions(end.1, j) == numbers_from(
        0,
        s + l,
    ) by {
        assert(key_positions(end.1, j) == numbers_from(0, steps_at(n as int, s, l, j)));
    }
}

/// A prompt that is fed to a MLlama model in two calls leaves keys at the same positions as the
/// prompt fed in one, in every layer.
pub proof fn law_mllama_prompt_in_two_calls(
    m: MllamaLoraForCausalLM,
    first: Array,
    rest: Array,
    whole: Array,
    mask: Option<Array>,
    features: Option<Array>,
    config: KVCacheConfig,
    b: i32,
    l1: i32,
    l2: i32,
    vocab: i32,
    hidden: i32,
    heads: i32,
    kv: i32,
    d: i32,
)
    requires
        m.shaped(vocab, hidden, heads, kv, d),
        m.model.layers@.len() > 0,
        config.num_layers == m.model.layers@.len(),
        l1 + l2 <= i32::MAX,
        batch(b, l1),
        batch(b, l2),
        batch(b, (l1 + l2) as i32),
        is_of(first, Shape::D2(b, l1)),
        is_of(rest, Shape::D2(b, l2)),
        is_of(whole, Shape::D2(b, (l1 + l2) as i32)),
        mask_fits(mask),
        features_fit(features, b, hidden),
    ensures
        ({
            let n = m.model.layers@.len();
            let fresh = KVCacheState::fresh(config);
            let one = m.model.cached_output(first, mask, features, fresh);
            let two = m.model.cached_output(rest, mask, features, one.1);
            let all = m.model.cached_output(whole, mask, features, fresh);
            &&& two.1.offset == all.1.offset
            &&& forall|j: int|
                0 <= j < n ==> #[trigger] key_positions(two.1, j) == key_positions(all.1, j)
        }),
{
    let n = m.model.layers@.len();
    let fresh = KVCacheState::fresh(config);
    let l = (l1 + l2) as i32;
    law_fresh_cache_holds(config, b, kv, d);
    law_fresh_cache_numbered(config);
    law_mllama_cached_shape(m, first, mask, features, fresh, b, l1, 0, vocab, hidden, heads, kv, d);
    law_mllama_positions(m, first, mask, features, fresh, b, l1, 0, vocab, hidden, heads, kv, d, 0);
    let one = m.model.cached_output(first, mask, features, fresh);
    law_mllama_positions(
        m,
        rest,
        mask, features,
        one.1,
        b,
        l2,
        l1 as int,
        vocab,
        hidden,
        heads,
        kv,
        d,
        0,
    );
    law_mllama_positions(m, whole, mask, features, fresh, b, l, 0, vocab, hidden, heads, kv, d, 0);
    let two = m.model.cached_output(rest, mask, features, one.1);
    let all = m.model.cached_output(whole, mask, features, fresh);
    assert forall|j: int| 0 <= j < n implies #[trigger] key_positions(two.1, j) == key_positions(
        all.1,
        j,
    ) by {
        assert(key_positions(all.1, j) == numbers_from(0, l as int));
    }
}

proof fn lemma_moe_lora_numbered_attention(
    a: Qwen3MoELoraAttention,
    x: Array,
    mask: Option<Array>,
    cache: KVCacheState,
    n: nat,
    i: int,
    b: i32,
    l: i32,
    s: int,
    hidden: i32,
)
    requires
        a.shaped(hidden),
        batch(b, l),
        0 <= i < n,
        0 <= s,
        s + l <= i32::MAX,
        is_of(x, Shape::D3(b, l, hidden)),
        mask_fits(mask),
        cache_at(cache, n, i, b, a.n_kv_heads, a.head_dim, s, l),
        numbered_at(cache, n, i, s, l),
    ensures
        ({
            let end = a.cached_output(x, mask, cache, i);
            let mixed = first_of(first_of(a.o_proj.fed(end.0)));
            &&& numbered_at(end.1, n, i + 1, s, l)
            &&& positions_of(first_of(mixed)) == numbers_from(s, l as int)
            &&& positions_of(second_of(mixed)) == numbers_from(0, s + l)
        }),
{
    broadcast use law_lora_reads;
    broadcast use {group_nodes, lemma_rope_shape};

    lemma_moe_lora_parts(a, x, b, l, hidden);
    let q = rope(a.queries(x), a.rope(), cache.offset);
    let k = rope(a.keys(x), a.rope(), cache.offset);
    let v = a.values(x);
    lemma_moe_lora_cached_attention(a, x, mask, cache, n, i, b, l, s, hidden);
    lemma_cache_step(cache, n, i, b, a.n_kv_heads, a.head_dim, s, l, k, v);
    lemma_numbered_step(cache, n, i, b, a.n_kv_heads, a.head_dim, s, l, k, v);
    let end = a.cached_output(x, mask, cache, i);
    assert(key_positions(end.1, i) == numbers_from(0, steps_at(i + 1, s, l, i)));
}

proof fn lemma_moe_lora_numbered(
    layers: Seq<Qwen3MoELoraDecoderLayer>,
    n: nat,
    x: Array,
    mask: Option<Array>,
    cache: KVCacheState,
    b: i32,
    l: i32,
    s: int,
    hidden: i32,
    heads: i32,
    kv: i32,
    d: i32,
)
    requires
        n <= layers.len(),
        forall|i: int|
            0 <= i < layers.len() ==> (#[trigger] layers[i]).shaped(hidden, heads, kv, d),
        batch(b, l),
        b * l <= i32::MAX,
        0 <= s,
        s + l <= i32::MAX,
        is_of(x, Shape::D3(b, l, hidden)),
        mask_fits(mask),
        cache_at(cache, layers.len(), 0, b, kv, d, s, l),
        numbered_at(cache, layers.len(), 0, s, l),
    ensures
        numbered_at(
            moe_lora_cached_stack(layers, n, x, mask, cache).1,
            layers.len(),
            n as int,
            s,
            l,
        ),
    decreases n,
{
    broadcast use {lemma_combine_same, lemma_rms_norm_fits};

    if n > 0 {
        lemma_moe_lora_numbered(
            layers,
            (n - 1) as nat,
            x,
            mask,
            cache,
            b,
            l,
            s,
            hidden,
            heads,
            kv,
            d,
        );
        lemma_moe_lora_cached_stack(
            layers,
            (n - 1) as nat,
            x,
            mask,
            cache,
            b,
            l,
            s,
            hidden,
            heads,
            kv,
            d,
        );
        let before = moe_lora_cached_stack(layers, (n - 1) as nat, x, mask, cache);
        let layer = layers[n - 1];
        lemma_moe_lora_numbered_attention(
            layer.self_attn,
            layer.input_layernorm.output(before.0),
            mask,
            before.1,
            layers.len(),
            n - 1,
            b,
            l,
            s,
            hidden,
        );
    }
}

/// Behind `s` steps that stand at the positions from nought on, the `l` steps of a call on a
/// Qwen3-MoE model stand at the positions from `s` on, queries and new keys alike, in every layer;
/// they are compared with keys at all positions so far, and so it is in the cache that the call
/// leaves.
pub proof fn law_moe_lora_positions(
    m: Qwen3MoELoraForCausalLM,
    ids: Array,
    mask: Option<Array>,
    cache: KVCacheState,
    b: i32,
    l: i32,
    s: int,
    vocab: i32,
    hidden: i32,
    heads: i32,
    kv: i32,
    d: i32,
    i: int,
)
    requires
        m.shaped(vocab, hidden, heads, kv, d),
        0 <= i < m.model.layers@.len(),
        batch(b, l),
        b * l <= i32::MAX,
        0 <= s,
        s + l <= i32::MAX,
        is_of(ids, Shape::D2(b, l)),
        mask_fits(mask),
        cache_holds(cache, m.model.layers@.len(), b, kv, d, s),
        cache_numbered(cache, m.model.layers@.len(), s),
    ensures
        ({
            let layers = m.model.layers@;
            let e = m.model.embed_tokens.output(ids);
            let end = m.model.cached_output(ids, mask, cache);
            let before = moe_lora_cached_stack(layers, i as nat, e, mask, cache);
            let n = layers[i].input_layernorm.output(before.0);
            let y = layers[i].self_attn.cached_output(n, mask, before.1, i).0;
            let mixed = first_of(first_of(layers[i].self_attn.o_proj.fed(y)));
            &&& cache_numbered(end.1, layers.len(), s + l)
            &&& end.1.offset == s + l
            &&& positions_of(first_of(mixed)) == numbers_from(s, l as int)
            &&& positions_of(second_of(mixed)) == numbers_from(0, s + l)
        }),
{
    broadcast use {lemma_combine_same, lemma_rms_norm_fits};

    lemma_embed_shape(m.model.embed_tokens, ids, b, l, vocab, hidden);
    let x = m.model.embed_tokens.output(ids);
    let layers = m.model.layers@;
    let n = layers.len();
    assert forall|j: int| 0 <= j < n implies #[trigger] layer_holds(
        cache,
        j,
        b,
        kv,
        d,
        steps_at(0, s, l, j),
    ) by {
        assert(layer_holds(cache, j, b, kv, d, s));
    }
    assert forall|j: int| 0 <= j < n implies #[trigger] key_positions(cache, j) == numbers_from(
        0,
        steps_at(0, s, l, j),
    ) by {
        assert(key_positions(cache, j) == numbers_from(0, s));
    }
    lemma_moe_lora_numbered(layers, n, x, mask, cache, b, l, s, hidden, heads, kv, d);
    lemma_moe_lora_cached_stack(layers, n, x, mask, cache, b, l, s, hidden, heads, kv, d);
    lemma_moe_lora_numbered(layers, i as nat, x, mask, cache, b, l, s, hidden, heads, kv, d);
    lemma_moe_lora_cached_stack(layers, i as nat, x, mask, cache, b, l, s, hidden, heads, kv, d);
    let before = moe_lora_cached_stack(layers, i as nat, x, mask, cache);
    lemma_moe_lora_numbered_attention(
        layers[i].self_attn,
        layers[i].input_layernorm.output(before.0),
        mask,
        before.1,
        n,
        i,
        b,
        l,
        s,
        hidden,
    );
    let end = m.model.cached_output(ids, mask, cache);
    assert forall|j: int| 0 <= j < n implies #[trigger] key_positions(end.1, j) == numbers_from(
        0,
        s + l,
    ) by {
        assert(key_positions(end.1, j) == numbers_from(0, steps_at(n as int, s, l, j)));
    }
}

/// A prompt that is fed to a Qwen3-MoE model in two calls leaves keys at the same positions as the
/// prompt fed in one, in every layer.
pub proof fn law_moe_lora_prompt_in_two_calls(
    m: Qwen3MoELoraForCausalLM,
    first: Array,
    rest: Array,
    whole: Array,
    mask: Option<Array>,
    config: KVCacheConfig,
    b: i32,
    l1: i32,
    l2: i32,
    vocab: i32,
    hidden: i32,
    heads: i32,
    kv: i32,
    d: i32,
)
    requires
        m.shaped(vocab, hidden, heads, kv, d),
        m.model.layers@.len() > 0,
        config.num_layers == m.model.layers@.len(),
        l1 + l2 <= i32::MAX,
        batch(b, l1),
        batch(b, l2),
        batch(b, (l1 + l2) as i32),
        b * (l1 + l2) <= i32::MAX,
        is_of(first, Shape::D2(b, l1)),
        is_of(rest, Shape::D2(b, l2)),
        is_of(whole, Shape::D2(b, (l1 + l2) as i32)),
        mask_fits(mask),
    ensures
        ({
            let n = m.model.layers@.len();
            let fresh = KVCacheState::fresh(config);
            let one = m.model.cached_output(first, mask, fresh);
            let two = m.model.cached_output(rest, mask, one.1);
            let all = m.model.cached_output(whole, mask, fresh);
            &&& two.1.offset == all.1.offset
            &&& forall|j: int|
                0 <= j < n ==> #[trigger] key_positions(two.1, j) == key_positions(all.1, j)
        }),
{
    let n = m.model.layers@.len();
    let fresh = KVCacheState::fresh(config);
    let l = (l1 + l2) as i32;
    assert(b * l1 <= b * (l1 + l2) && b * l2 <= b * (l1 + l2)) by (nonlinear_arith)
        requires
            b > 0,
            l1 > 0,
            l2 > 0,
    ;
    law_fresh_cache_holds(config, b, kv, d);
    law_fresh_cache_numbered(config);
    law_moe_lora_cached_shape(m, first, mask, fresh, b, l1, 0, vocab, hidden, heads, kv, d);
    law_moe_lora_positions(m, first, mask, fresh, b, l1, 0, vocab, hidden, heads, kv, d, 0);
    let one = m.model.cached_output(first, mask, fresh);
    law_moe_lora_positions(
        m,
        rest,
        mask,
        one.1,
        b,
        l2,
        l1 as int,
        vocab,
        hidden,
        heads,
        kv,
        d,
        0,
    );
    law_moe_lora_positions(m, whole, mask, fresh, b, l, 0, vocab, hidden, heads, kv, d, 0);
    let two = m.model.cached_output(rest, mask, one.1);
    let all = m.model.cached_output(whole, mask, fresh);
    assert forall|j: int| 0 <= j < n implies #[trigger] key_positions(two.1, j) == key_positions(
        all.1,
        j,
    ) by {
        assert(key_positions(all.1, j) == numbers_from(0, l as int));
    }
}

proof fn lemma_moe_qlora_numbered_attention(
    a: Qwen3MoEQLoraAttention,
    x: Array,
    mask: Option<Array>,
    cache: KVCacheState,
    n: nat,
    i: int,
    b: i32,
    l: i32,
    s: int,
    hidden: i32,
)
    requires
        a.shaped(hidden),
        batch(b, l),
        0 <= i < n,
        0 <= s,
        s + l <= i32::MAX,
        is_of(x, Shape::D3(b, l, hidden)),
        mask_fits(mask),
        cache_at(cache, n, i, b, a.n_kv_heads, a.head_dim, s, l),
        numbered_at(cache, n, i, s, l),
    ensures
        ({
            let end = a.cached_output(x, mask, cache, i);
            let mixed = first_of(first_of(a.o_proj.fed(end.0)));
            &&& numbered_at(end.1, n, i + 1, s, l)
            &&& positions_of(first_of(mixed)) == numbers_from(s, l as int)
            &&& positions_of(second_of(mixed)) == numbers_from(0, s + l)
        }),
{
    broadcast use law_qlora_reads;
    broadcast use {group_nodes, lemma_rope_shape};

    lemma_moe_qlora_parts(a, x, b, l, hidden);
    let q = rope(a.queries(x), a.rope(), cache.offset);
    let k = rope(a.keys(x), a.rope(), cache.offset);
    let v = a.values(x);
    lemma_moe_qlora_cached_attention(a, x, mask, cache, n, i, b, l, s, hidden);
    lemma_cache_step(cache, n, i, b, a.n_kv_heads, a.head_dim, s, l, k, v);
    lemma_numbered_step(cache, n, i, b, a.n_kv_heads, a.head_dim, s, l, k, v);
    let end = a.cached_output(x, mask, cache, i);
    assert(key_positions(end.1, i) == numbers_from(0, steps_at(i + 1, s, l, i)));
}

proof fn lemma_moe_qlora_numbered(
    layers: Seq<Qwen3MoEQLoraDecoderLayer>,
    n: nat,
    x: Array,
    mask: Option<Array>,
    cache: KVCacheState,
    b: i32,
    l: i32,
    s: int,
    hidden: i32,
    heads: i32,
    kv: i32,
    d: i32,
)
    requires
        n <= layers.len(),
        forall|i: int|
            0 <= i < layers.len() ==> (#[trigger] layers[i]).shaped(hidden, heads, kv, d),
        batch(b, l),
        b * l <= i32::MAX,
        0 <= s,
        s + l <= i32::MAX,
        is_of(x, Shape::D3(b, l, hidden)),
        mask_fits(mask),
        cache_at(cache, layers.len(), 0, b, kv, d, s, l),
        numbered_at(cache, layers.len(), 0, s, l),
    ensures
        numbered_at(
            moe_qlora_cached_stack(layers, n, x, mask, cache).1,
            layers.len(),
            n as int,
            s,
            l,
        ),
    decreases n,
{
    broadcast use {lemma_combine_same, lemma_rms_norm_fits};

    if n > 0 {
        lemma_moe_qlora_numbered(
            layers,
            (n - 1) as nat,
            x,
            mask,
            cache,
            b,
            l,
            s,
            hidden,
            heads,
            kv,
            d,
        );
        lemma_moe_qlora_cached_stack(
            layers,
            (n - 1) as nat,
            x,
            mask,
            cache,
            b,
            l,
            s,
            hidden,
            heads,
            kv,
            d,
        );
        let before = moe_qlora_cached_stack(layers, (n - 1) as nat, x, mask, cache);
        let layer = layers[n - 1];
        lemma_moe_qlora_numbered_attention(
            layer.self_attn,
            layer.input_layernorm.output(before.0),
            mask,
            before.1,
            layers.len(),
            n - 1,
            b,
            l,
            s,
            hidden,
        );
    }
}

/// Behind `s` steps that stand at the positions from nought on, the `l` steps of a call on a
/// quantized Qwen3-MoE model stand at the positions from `s` on, queries and new keys alike, in
/// every layer; they are compared with keys at all positions so far, and so it is in the cache that
/// the call leaves.
pub proof fn law_moe_qlora_positions(
    m: Qwen3MoEQLoraForCausalLM,
    ids: Array,
    mask: Option<Array>,
    cache: KVCacheState,
    b: i32,
    l: i32,
    s: int,
    vocab: i32,
    hidden: i32,
    heads: i32,
    kv: i32,
    d: i32,
    i: int,
)
    requires
        m.shaped(vocab, hidden, heads, kv, d),
        0 <= i < m.model.layers@.len(),
        batch(b, l),
        b * l <= i32::MAX,
        0 <= s,
        s + l <= i32::MAX,
        is_of(ids, Shape::D2(b, l)),
        mask_fits(mask),
        cache_holds(cache, m.model.layers@.len(), b, kv, d, s),
        cache_numbered(cache, m.model.layers@.len(), s),
    ensures
        ({
            let layers = m.model.layers@;
            let e = m.model.embed_tokens.output(ids);
            let end = m.model.cached_output(ids, mask, cache);
            let before = moe_qlora_cached_stack(layers, i as nat, e, mask, cache);
            let n = layers[i].input_layernorm.output(before.0);
            let y = layers[i].self_attn.cached_output(n, mask, before.1, i).0;
            let mixed = first_of(first_of(layers[i].self_attn.o_proj.fed(y)));
            &&& cache_numbered(end.1, layers.len(), s + l)
            &&& end.1.offset == s + l
            &&& positions_of(first_of(mixed)) == numbers_from(s, l as int)
            &&& positions_of(second_of(mixed)) == numbers_from(0, s + l)
        }),
{
    broadcast use {lemma_combine_same, lemma_rms_norm_fits};

    lemma_embed_shape(m.model.embed_tokens, ids, b, l, vocab, hidden);
    let x = m.model.embed_tokens.output(ids);
    let layers = m.model.layers@;
    let n = layers.len();
    assert forall|j: int| 0 <= j < n implies #[trigger] layer_holds(
        cache,
        j,
        b,
        kv,
        d,
        steps_at(0, s, l, j),
    ) by {
        assert(layer_holds(cache, j, b, kv, d, s));
    }
    assert forall|j: int| 0 <= j < n implies #[trigger] key_positions(cache, j) == numbers_from(
        0,
        steps_at(0, s, l, j),
    ) by {
        assert(key_positions(cache, j) == numbers_from(0, s));
    }
    lemma_moe_qlora_numbered(layers, n, x, mask, cache, b, l, s, hidden, heads, kv, d);
    lemma_moe_qlora_cached_stack(layers, n, x, mask, cache, b, l, s, hidden, heads, kv, d);
    lemma_moe_qlora_numbered(layers, i as nat, x, mask, cache, b, l, s, hidden, heads, kv, d);
    lemma_moe_qlora_cached_stack(layers, i as nat, x, mask, cache, b, l, s, hidden, heads, kv, d);
    let before = moe_qlora_cached_stack(layers, i as nat, x, mask, cache);
    lemma_moe_qlora_numbered_attention(
        layers[i].self_attn,
        layers[i].input_layernorm.output(before.0),
        mask,
        before.1,
        n,
        i,
        b,
        l,
        s,
        hidden,
    );
    let end = m.model.cached_output(ids, mask, cache);
    assert forall|j: int| 0 <= j < n implies #[trigger] key_positions(end.1, j) == numbers_from(
        0,
        s + l,
    ) by {
        assert(key_positions(end.1, j) == numbers_from(0, steps_at(n as int, s, l, j)));
    }
}

/// A prompt that is fed to a quantized Qwen3-MoE model in two calls leaves keys at the same
/// positions as the prompt fed in one, in every layer.
pub proof fn law_moe_qlora_prompt_in_two_calls(
    m: Qwen3MoEQLoraForCausalLM,
    first: Array,
    rest: Array,
    whole: Array,
    mask: Option<Array>,
    config: KVCacheConfig,
    b: i32,
    l1: i32,
    l2: i32,
    vocab: i32,
    hidden: i32,
    heads: i32,
    kv: i32,
    d: i32,
)
    requires
        m.shaped(vocab, hidden, heads, kv, d),
        m.model.layers@.len() > 0,
        config.num_layers == m.model.layers@.len(),
        l1 + l2 <= i32::MAX,
        batch(b, l1),
        batch(b, l2),
        batch(b, (l1 + l2) as i32),
        b * (l1 + l2) <= i32::MAX,
        is_of(first, Shape::D2(b, l1)),
        is_of(rest, Shape::D2(b, l2)),
        is_of(whole, Shape::D2(b, (l1 + l2) as i32)),
        mask_fits(mask),
    ensures
        ({
            let n = m.model.layers@.len();
            let fresh = KVCacheState::fresh(config);
            let one = m.model.cached_output(first, mask, fresh);
            let two = m.model.cached_output(rest, mask, one.1);
            let all = m.model.cached_output(whole, mask, fresh);
            &&& two.1.offset == all.1.offset
            &&& forall|j: int|
                0 <= j < n ==> #[trigger] key_positions(two.1, j) == key_positions(all.1, j)
        }),
{
    let n = m.model.layers@.len();
    let fresh = KVCacheState::fresh(config);
    let l = (l1 + l2) as i32;
    assert(b * l1 <= b * (l1 + l2) && b * l2 <= b * (l1 + l2)) by (nonlinear_arith)
        requires
            b > 0,
            l1 > 0,
            l2 > 0,
    ;
    law_fresh_cache_holds(config, b, kv, d);
    law_fresh_cache_numbered(config);
    law_moe_qlora_cached_shape(m, first, mask, fresh, b, l1, 0, vocab, hidden, heads, kv, d);
    law_moe_qlora_positions(m, first, mask, fresh, b, l1, 0, vocab, hidden, heads, kv, d, 0);
    let one = m.model.cached_output(first, mask, fresh);
    law_moe_qlora_positions(
        m,
        rest,
        mask,
        one.1,
        b,
        l2,
        l1 as int,
        vocab,
        hidden,
        heads,
        kv,
        d,
        0,
    );
    law_moe_qlora_positions(m, whole, mask, fresh, b, l, 0, vocab, hidden, heads, kv, d, 0);
    let two = m.model.cached_output(rest, mask, one.1);
    let all = m.model.cached_output(whole, mask, fresh);
    assert forall|j: int| 0 <= j < n implies #[trigger] key_positions(two.1, j) == key_positions(
        all.1,
        j,
    ) by {
        assert(key_positions(all.1, j) == numbers_from(0, l as int));
    }
}

} // verus!
