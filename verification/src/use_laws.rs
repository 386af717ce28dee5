//! A use of a model changes nothing that it gives.

use crate::array::Array;
use crate::attention::mask_or_causal;
use crate::kv_cache::{KVCacheState, MambaCacheEntry};
use crate::nemotron_h_qlora::{
    NemotronHQloraBlock, NemotronHQloraForCausalLM, nemotron_qlora_entry, nemotron_qlora_layer_mask,
    nemotron_qlora_stack, nemotron_qlora_steps,
};
use crate::phi_qlora::{
    PhiQloraDecoderLayer, PhiQloraForCausalLM, phi_qlora_cached_stack, phi_qlora_stack,
};
use crate::qlora::QLoraLinear;
use crate::qwen3_moe::{GatedExpert, StackState, restacked};
use crate::qwen3_moe_lora::{
    Qwen3MoELoraDecoderLayer, Qwen3MoELoraForCausalLM, moe_lora_cached_stack, moe_lora_stack,
};
use crate::qwen3_moe_qlora::{
    Qwen3MoEQLoraDecoderLayer, Qwen3MoEQLoraForCausalLM, moe_qlora_cached_stack, moe_qlora_stack,
};
use vstd::prelude::*;

verus! {

broadcast proof fn lemma_warmed_output(l: QLoraLinear, x: Array)
    ensures
        #[trigger] l.warmed().output(x) == l.output(x),
{
}

broadcast proof fn lemma_restacked_again(s: StackState, e: Seq<GatedExpert>)
    ensures
        #[trigger] restacked(restacked(s, e), e) == restacked(s, e),
{
}

proof fn lemma_phi_qlora_layer_again(
    layer: PhiQloraDecoderLayer,
    x: Array,
    mask: Option<Array>,
    cache: KVCacheState,
    i: int,
)
    ensures
        layer.warmed().output(x, mask) == layer.output(x, mask),
        layer.warmed().cached_output(x, mask, cache, i) == layer.cached_output(x, mask, cache, i),
{
    broadcast use lemma_warmed_output;

}

proof fn lemma_phi_qlora_stack_again(
    a: Seq<PhiQloraDecoderLayer>,
    b: Seq<PhiQloraDecoderLayer>,
    n: nat,
    x: Array,
    mask: Option<Array>,
    cache: KVCacheState,
)
    requires
        n <= a.len(),
        a.len() == b.len(),
        forall|i: int| 0 <= i < a.len() ==> #[trigger] b[i] == a[i].warmed(),
    ensures
        phi_qlora_stack(b, n, x, mask) == phi_qlora_stack(a, n, x, mask),
        phi_qlora_cached_stack(b, n, x, mask, cache) == phi_qlora_cached_stack(
            a,
            n,
            x,
            mask,
            cache,
        ),
    decreases n,
{
    if n > 0 {
        lemma_phi_qlora_stack_again(a, b, (n - 1) as nat, x, mask, cache);
        let before = phi_qlora_cached_stack(a, (n - 1) as nat, x, mask, cache);
        assert(b[n - 1] == a[n - 1].warmed());
        lemma_phi_qlora_layer_again(
            a[n - 1],
            phi_qlora_stack(a, (n - 1) as nat, x, mask),
            mask,
            cache,
            n - 1,
        );
        lemma_phi_qlora_layer_again(a[n - 1], before.0, mask, before.1, n - 1);
    }
}

/// A use of the model changes nothing that it gives: the next call on the same input gives the
/// same.
pub proof fn law_phi_qlora_use_keeps_output(
    m: PhiQloraForCausalLM,
    after: PhiQloraForCausalLM,
    ids: Array,
    mask: Option<Array>,
    cache: KVCacheState,
)
    requires
        m.only_warmed(after),
    ensures
        after.output(ids, mask) == m.output(ids, mask),
        after.model.cached_output(ids, mask, cache) == m.model.cached_output(ids, mask, cache),
{
    let x = m.model.embed_tokens.output(ids);
    let layers = m.model.layers@;
    let n = layers.len();
    lemma_phi_qlora_stack_again(layers, after.model.layers@, n, x, mask, cache);
    lemma_phi_qlora_stack_again(
        layers,
        after.model.layers@,
        n,
        x,
        mask_or_causal(mask, ids),
        cache,
    );
}

proof fn lemma_moe_lora_layer_again(
    layer: Qwen3MoELoraDecoderLayer,
    x: Array,
    mask: Option<Array>,
    cache: KVCacheState,
    i: int,
)
    ensures
        layer.ready_made().output(x, mask) == layer.output(x, mask),
        layer.ready_made().cached_output(x, mask, cache, i) == layer.cached_output(
            x,
            mask,
            cache,
            i,
        ),
{
    broadcast use lemma_restacked_again;

}

proof fn lemma_moe_lora_stack_again(
    a: Seq<Qwen3MoELoraDecoderLayer>,
    b: Seq<Qwen3MoELoraDecoderLayer>,
    n: nat,
    x: Array,
    mask: Option<Array>,
    cache: KVCacheState,
)
    requires
        n <= a.len(),
        a.len() == b.len(),
        forall|i: int| 0 <= i < a.len() ==> #[trigger] b[i] == a[i].ready_made(),
    ensures
        moe_lora_stack(b, n, x, mask) == moe_lora_stack(a, n, x, mask),
        moe_lora_cached_stack(b, n, x, mask, cache) == moe_lora_cached_stack(a, n, x, mask, cache),
    decreases n,
{
    if n > 0 {
        lemma_moe_lora_stack_again(a, b, (n - 1) as nat, x, mask, cache);
        let before = moe_lora_cached_stack(a, (n - 1) as nat, x, mask, cache);
        assert(b[n - 1] == a[n - 1].ready_made());
        lemma_moe_lora_layer_again(
            a[n - 1],
            moe_lora_stack(a, (n - 1) as nat, x, mask),
            mask,
            cache,
            n - 1,
        );
        lemma_moe_lora_layer_again(a[n - 1], before.0, mask, before.1, n - 1);
    }
}

/// A use of the model changes nothing that it gives: the next call on the same input gives the
/// same.
pub proof fn law_moe_lora_use_keeps_output(
    m: Qwen3MoELoraForCausalLM,
    after: Qwen3MoELoraForCausalLM,
    ids: Array,
    mask: Option<Array>,
    cache: KVCacheState,
)
    requires
        m.only_readied(after),
    ensures
        after.output(ids, mask) == m.output(ids, mask),
        after.model.cached_output(ids, mask, cache) == m.model.cached_output(ids, mask, cache),
{
    let x = m.model.embed_tokens.output(ids);
    let layers = m.model.layers@;
    let n = layers.len();
    lemma_moe_lora_stack_again(layers, after.model.layers@, n, x, mask, cache);
}

proof fn lemma_moe_qlora_layer_again(
    layer: Qwen3MoEQLoraDecoderLayer,
    x: Array,
    mask: Option<Array>,
    cache: KVCacheState,
    i: int,
)
    ensures
        layer.ready_made().output(x, mask) == layer.output(x, mask),
        layer.ready_made().cached_output(x, mask, cache, i) == layer.cached_output(
            x,
            mask,
            cache,
            i,
        ),
{
    broadcast use {lemma_warmed_output, lemma_restacked_again};

}

proof fn lemma_moe_qlora_stack_again(
    a: Seq<Qwen3MoEQLoraDecoderLayer>,
    b: Seq<Qwen3MoEQLoraDecoderLayer>,
    n: nat,
    x: Array,
    mask: Option<Array>,
    cache: KVCacheState,
)
    requires
        n <= a.len(),
        a.len() == b.len(),
        forall|i: int| 0 <= i < a.len() ==> #[trigger] b[i] == a[i].ready_made(),
    ensures
        moe_qlora_stack(b, n, x, mask) == moe_qlora_stack(a, n, x, mask),
        moe_qlora_cached_stack(b, n, x, mask, cache) == moe_qlora_cached_stack(
            a,
            n,
            x,
            mask,
            cache,
        ),
    decreases n,
{
    if n > 0 {
        lemma_moe_qlora_stack_again(a, b, (n - 1) as nat, x, mask, cache);
        let before = moe_qlora_cached_stack(a, (n - 1) as nat, x, mask, cache);
        assert(b[n - 1] == a[n - 1].ready_made());
        lemma_moe_qlora_layer_again(
            a[n - 1],
            moe_qlora_stack(a, (n - 1) as nat, x, mask),
            mask,
            cache,
            n - 1,
        );
        lemma_moe_qlora_layer_again(a[n - 1], before.0, mask, before.1, n - 1);
    }
}

/// A use of the model changes nothing that it gives: the next call on the same input gives the
/// same.
pub proof fn law_moe_qlora_use_keeps_output(
    m: Qwen3MoEQLoraForCausalLM,
    after: Qwen3MoEQLoraForCausalLM,
    ids: Array,
    mask: Option<Array>,
    cache: KVCacheState,
)
    requires
        m.only_readied(after),
    ensures
        after.output(ids, mask) == m.output(ids, mask),
        after.model.cached_output(ids, mask, cache) == m.model.cached_output(ids, mask, cache),
{
    let x = m.model.embed_tokens.output(ids);
    let layers = m.model.layers@;
    let n = layers.len();
    lemma_moe_qlora_stack_again(layers, after.model.layers@, n, x, mask, cache);
}

proof fn lemma_nemotron_qlora_block_again(
    block: NemotronHQloraBlock,
    x: Array,
    mask: Option<Array>,
    kv: Option<(KVCacheState, int)>,
    state: Option<MambaCacheEntry>,
)
    ensures
        block.warmed().output(x, mask) == block.output(x, mask),
        block.warmed().step(x, mask, kv, state) == block.step(x, mask, kv, state),
        block.warmed().mixer.mamba() == block.mixer.mamba(),
{
    broadcast use lemma_warmed_output;

}

proof fn lemma_nemotron_qlora_stack_again(
    a: Seq<NemotronHQloraBlock>,
    b: Seq<NemotronHQloraBlock>,
    n: nat,
    x: Array,
    mask: Option<Array>,
)
    requires
        n <= a.len(),
        a.len() == b.len(),
        forall|i: int| 0 <= i < a.len() ==> #[trigger] b[i] == a[i].warmed(),
    ensures
        nemotron_qlora_stack(b, n, x, mask) == nemotron_qlora_stack(a, n, x, mask),
    decreases n,
{
    if n > 0 {
        lemma_nemotron_qlora_stack_again(a, b, (n - 1) as nat, x, mask);
        assert(b[n - 1] == a[n - 1].warmed());
        lemma_nemotron_qlora_block_again(
            a[n - 1],
            nemotron_qlora_stack(a, (n - 1) as nat, x, mask),
            nemotron_qlora_layer_mask(a[n - 1], mask),
            None,
            None,
        );
    }
}

proof fn lemma_nemotron_qlora_steps_again(
    a: Seq<NemotronHQloraBlock>,
    b: Seq<NemotronHQloraBlock>,
    i: int,
    x: Array,
    mask: Option<Array>,
    kv: Option<KVCacheState>,
    states: Option<Seq<MambaCacheEntry>>,
)
    requires
        0 <= i,
        a.len() == b.len(),
        forall|j: int| 0 <= j < a.len() ==> #[trigger] b[j] == a[j].warmed(),
    ensures
        nemotron_qlora_steps(b, i, x, mask, kv, states) == nemotron_qlora_steps(
            a,
            i,
            x,
            mask,
            kv,
            states,
        ),
    decreases a.len() - i,
{
    if i < a.len() {
        assert(b[i] == a[i].warmed());
        let layer_mask = nemotron_qlora_layer_mask(a[i], mask);
        let c = match kv {
            Some(c) => Some((c, i)),
            None => None,
        };
        let entry = nemotron_qlora_entry(states, i);
        lemma_nemotron_qlora_block_again(a[i], x, layer_mask, c, entry);
        let end = a[i].step(x, layer_mask, c, entry);
        let kept = match (states, end.2) {
            (Some(s), Some(e)) => Some(s.update(i, e)),
            _ => states,
        };
        lemma_nemotron_qlora_steps_again(a, b, i + 1, end.0, mask, end.1, kept);
    }
}

/// A use of the model changes nothing that it gives: the next call on the same input gives the
/// same.
pub proof fn law_nemotron_qlora_use_keeps_output(
    m: NemotronHQloraForCausalLM,
    after: NemotronHQloraForCausalLM,
    ids: Array,
    mask: Option<Array>,
    kv: Option<KVCacheState>,
    states: Option<Seq<MambaCacheEntry>>,
)
    requires
        m.only_warmed(after),
    ensures
        after.output(ids, mask) == m.output(ids, mask),
        after.model.cached_output(ids, mask, kv, states) == m.model.cached_output(
            ids,
            mask,
            kv,
            states,
        ),
{
    let x = m.model.embeddings.output(ids);
    let a = m.model.layers@;
    let b = after.model.layers@;
    lemma_nemotron_qlora_stack_again(a, b, a.len(), x, mask);
    lemma_nemotron_qlora_steps_again(a, b, 0, x, mask, kv, states);
}

} // verus!
