//! The names under which a model as a whole loads its frozen weights.

use crate::array::Array;
use crate::mistral_lora::MistralLoraForCausalLM;
use crate::mllama_lora::MllamaLoraForCausalLM;
use crate::naming_laws::held_under;
use crate::nemotron_h_lora::NemotronHLoraForCausalLM;
use crate::nemotron_h_qlora::loads;
use crate::nn::{Embedding, Linear, RmsNorm};
use crate::phi_lora::PhiLoraForCausalLM;
use crate::qwen3_lora::Qwen3LoraForCausalLM;
use crate::qwen3_next_lora::Qwen3NextLoraForCausalLM;
use vstd::prelude::*;
use vstd::string::*;

verus! {

/// The table, the last norm and the head have the weights of these names, where they are held.
pub open spec fn ends_loaded(
    weights: Map<Seq<char>, Array>,
    table: (Embedding, Embedding, Seq<char>),
    norm: (RmsNorm, RmsNorm, Seq<char>),
    head: (Option<Linear>, Option<Linear>, Seq<char>),
) -> bool {
    &&& table.1.weight == held_under(weights, table.2, table.0.weight)
    &&& norm.1.weight == held_under(weights, norm.2, norm.0.weight)
    &&& norm.1.eps == norm.0.eps
    &&& head.1 is Some <==> head.0 is Some
    &&& head.0 matches Some(h) ==> head.1->0.weight == held_under(weights, head.2, h.weight)
        && head.1->0.bias == h.bias
}

/// A Mistral model loads its table, its last norm and its head under these names, and each layer
/// under its number.
pub proof fn law_mistral_ends_by_name(
    before: MistralLoraForCausalLM,
    after: MistralLoraForCausalLM,
    weights: Map<Seq<char>, Array>,
)
    requires
        before.loads_to(after, weights),
    ensures
        ends_loaded(
            weights,
            (before.model.embed_tokens, after.model.embed_tokens, "model.embed_tokens.weight"@),
            (before.model.norm, after.model.norm, "model.norm.weight"@),
            (before.lm_head, after.lm_head, "lm_head.weight"@),
        ),
        after.model.layers@.len() == before.model.layers@.len(),
        forall|i: int|
            0 <= i < before.model.layers@.len() ==> #[trigger] after.model.layers@[i]
                == before.model.layers@[i].loaded(i as nat, weights),
        after.model.config == before.model.config,
        after.checkpoint_config == before.checkpoint_config,
{
}

/// A Qwen3 model loads its table, its last norm and its head under these names, and each layer
/// under its number.
pub proof fn law_qwen3_ends_by_name(
    before: Qwen3LoraForCausalLM,
    after: Qwen3LoraForCausalLM,
    weights: Map<Seq<char>, Array>,
)
    requires
        before.loads_to(after, weights),
    ensures
        ends_loaded(
            weights,
            (before.model.embed_tokens, after.model.embed_tokens, "model.embed_tokens.weight"@),
            (before.model.norm, after.model.norm, "model.norm.weight"@),
            (before.lm_head, after.lm_head, "lm_head.weight"@),
        ),
        after.model.layers@.len() == before.model.layers@.len(),
        forall|i: int|
            0 <= i < before.model.layers@.len() ==> #[trigger] after.model.layers@[i]
                == before.model.layers@[i].loaded(i as nat, weights),
        after.model.config == before.model.config,
        after.checkpoint_config == before.checkpoint_config,
{
}

/// A Phi model loads its table, its last norm and its head under these names, and each layer
/// under its number.
pub proof fn law_phi_ends_by_name(
    before: PhiLoraForCausalLM,
    after: PhiLoraForCausalLM,
    weights: Map<Seq<char>, Array>,
)
    requires
        before.loads_to(after, weights),
    ensures
        ends_loaded(
            weights,
            (before.model.embed_tokens, after.model.embed_tokens, "model.embed_tokens.weight"@),
            (before.model.norm, after.model.norm, "model.norm.weight"@),
            (Some(before.lm_head), Some(after.lm_head), "lm_head.weight"@),
        ),
        after.model.layers@.len() == before.model.layers@.len(),
        forall|i: int|
            0 <= i < before.model.layers@.len() ==> #[trigger] after.model.layers@[i]
                == before.model.layers@[i].loaded(i as nat, weights),
        after.model.config == before.model.config,
        after.checkpoint_config == before.checkpoint_config,
{
}

/// An MLlama model loads its table, its last norm and its head under these names, and each layer
/// under its number.
pub proof fn law_mllama_ends_by_name(
    before: MllamaLoraForCausalLM,
    after: MllamaLoraForCausalLM,
    weights: Map<Seq<char>, Array>,
)
    requires
        before.loads_to(after, weights),
    ensures
        ends_loaded(
            weights,
            (
                before.model.embed_tokens,
                after.model.embed_tokens,
                "language_model.model.embed_tokens.weight"@,
            ),
            (before.model.norm, after.model.norm, "language_model.model.norm.weight"@),
            (before.lm_head, after.lm_head, "language_model.lm_head.weight"@),
        ),
        after.model.layers@.len() == before.model.layers@.len(),
        forall|i: int|
            0 <= i < before.model.layers@.len() ==> #[trigger] after.model.layers@[i]
                == before.model.layers@[i].loaded(i as nat, weights),
        after.model.config == before.model.config,
        after.checkpoint_config == before.checkpoint_config,
{
}

/// A Qwen3-Next model loads its table, its last norm and its head under these names, and each layer
/// under its number.
pub proof fn law_qwen3_next_ends_by_name(
    before: Qwen3NextLoraForCausalLM,
    after: Qwen3NextLoraForCausalLM,
    weights: Map<Seq<char>, Array>,
)
    requires
        before.loads_to(after, weights),
    ensures
        ends_loaded(
            weights,
            (before.model.embed_tokens, after.model.embed_tokens, "model.embed_tokens.weight"@),
            (before.model.norm, after.model.norm, "model.norm.weight"@),
            (before.lm_head, after.lm_head, "lm_head.weight"@),
        ),
        after.model.layers@.len() == before.model.layers@.len(),
        forall|i: int|
            0 <= i < before.model.layers@.len() ==> #[trigger] after.model.layers@[i]
                == before.model.layers@[i].loaded(i as nat, weights),
        after.model.config == before.model.config,
        after.checkpoint_config == before.checkpoint_config,
{
}

/// A Nemotron-H model loads its table and its last norm under names of either kind, those of the
/// backbone first, and its head under its own name.
pub proof fn law_nemotron_ends_by_name(
    before: NemotronHLoraForCausalLM,
    after: NemotronHLoraForCausalLM,
    weights: Map<Seq<char>, Array>,
)
    requires
        loads(before, after, weights),
    ensures
        ({
            let own = "backbone.embeddings.weight"@;
            let other = "model.embed_tokens.weight"@;
            after.model.embeddings.weight == (if weights.contains_key(own) {
                weights[own]
            } else {
                held_under(weights, other, before.model.embeddings.weight)
            })
        }),
        ({
            let own = "backbone.norm_f.weight"@;
            let other = "model.norm.weight"@;
            after.model.norm_f.weight == (if weights.contains_key(own) {
                weights[own]
            } else {
                held_under(weights, other, before.model.norm_f.weight)
            })
        }),
        after.model.norm_f.eps == before.model.norm_f.eps,
        after.lm_head is Some <==> before.lm_head is Some,
        before.lm_head matches Some(h) ==> after.lm_head->0.weight == held_under(
            weights,
            "lm_head.weight"@,
            h.weight,
        ),
        after.model.layers@.len() == before.model.layers@.len(),
{
}

} // verus!
