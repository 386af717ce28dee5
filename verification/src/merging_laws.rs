//! What merging leaves in the weights of a layer.

use crate::array::{Function, Node, Source};
use crate::dora::LinearAdapter;
use crate::lora::LoraLinear;
use crate::merging::{
    MergeSteps, is_merged, merge_stopped, merged, stack_merge_stopped, stack_merged,
};
use crate::mistral_lora::MistralLoraDecoderLayer;
use crate::mllama_lora::MllamaLoraDecoderLayer;
use crate::nemotron_h_lora::NemotronHLoraBlock;
use crate::nemotron_h_qlora::NemotronHQloraBlock;
use crate::qlora::QLoraLinear;
use crate::qwen3_moe_lora::Qwen3MoELoraDecoderLayer;
use crate::qwen3_next_lora::Qwen3NextLoraDecoderLayer;
use crate::reading::{
    first_of, group_nodes, is_full_rank_sum, is_function, is_rescaled, is_restored,
};
use vstd::prelude::*;

verus! {

/// The weight has `scale * b @ a` on top, and the layer is merged; one that was merged is as it
/// was.
pub open spec fn was_merged(before: LoraLinear, after: LoraLinear) -> bool {
    if before.merged {
        after == before
    } else {
        &&& after.merged
        &&& is_full_rank_sum(
            after.weight,
            before.weight,
            before.lora_a,
            before.lora_b,
            before.scale,
        )
        &&& after.bias == before.bias
    }
}

/// The same of an adapter of either kind; with magnitudes, the rows are rescaled.
pub open spec fn adapter_was_merged(before: LinearAdapter, after: LinearAdapter) -> bool {
    match (before, after) {
        (LinearAdapter::Lora(b), LinearAdapter::Lora(a)) => was_merged(b, a),
        (LinearAdapter::Dora(b), LinearAdapter::Dora(a)) => {
            &&& a.merged && a.bias == b.bias
            &&& b.merged ==> a.weight == b.weight
            &&& !b.merged ==> {
                &&& is_rescaled(a.weight, first_of(a.weight), b.magnitude)
                &&& is_full_rank_sum(first_of(a.weight), b.weight, b.lora_a, b.lora_b, b.scale)
            }
        },
        _ => false,
    }
}

/// The same of a layer on a quantized weight: the sum with the weight as it came back is
/// quantized anew, and the adapter starts from nothing.
pub open spec fn quantized_was_merged(before: QLoraLinear, after: QLoraLinear) -> bool {
    let sum = first_of(after.quantized_weight.weight);
    &&& is_function(after.quantized_weight.weight, Function::ToFloat32, sum)
    &&& is_full_rank_sum(sum, first_of(sum), before.lora_a, before.lora_b, before.scale)
    &&& is_restored(
        first_of(sum),
        before.quantized_weight,
        before.weight_cache,
        before.cache_enabled,
    )
    &&& after.quantized_weight.scheme == before.quantized_weight.scheme
    &&& *after.lora_b.node == Node::Source(Source::Zeros)
    &&& after.bias == before.bias
}

/// Merging a Mistral layer merges every one of its adapters and changes nothing else.
pub proof fn law_mistral_merged(layer: MistralLoraDecoderLayer)
    ensures
        ({
            let after = merged(layer);
            &&& was_merged(layer.self_attn.q_proj, after.self_attn.q_proj)
            &&& was_merged(layer.self_attn.k_proj, after.self_attn.k_proj)
            &&& was_merged(layer.self_attn.v_proj, after.self_attn.v_proj)
            &&& was_merged(layer.self_attn.o_proj, after.self_attn.o_proj)
            &&& was_merged(layer.mlp.gate_proj, after.mlp.gate_proj)
            &&& was_merged(layer.mlp.up_proj, after.mlp.up_proj)
            &&& was_merged(layer.mlp.down_proj, after.mlp.down_proj)
            &&& after.input_layernorm == layer.input_layernorm
            &&& after.post_attention_layernorm == layer.post_attention_layernorm
        }),
{
    broadcast use group_nodes;

}

/// Merging an MLlama layer merges every one of its adapters and changes nothing else.
pub proof fn law_mllama_merged(layer: MllamaLoraDecoderLayer)
    ensures
        ({
            let after = merged(layer);
            &&& adapter_was_merged(layer.self_attn.q_proj, after.self_attn.q_proj)
            &&& adapter_was_merged(layer.self_attn.k_proj, after.self_attn.k_proj)
            &&& adapter_was_merged(layer.self_attn.v_proj, after.self_attn.v_proj)
            &&& adapter_was_merged(layer.self_attn.o_proj, after.self_attn.o_proj)
            &&& was_merged(layer.mlp.gate_proj, after.mlp.gate_proj)
            &&& was_merged(layer.mlp.up_proj, after.mlp.up_proj)
            &&& was_merged(layer.mlp.down_proj, after.mlp.down_proj)
            &&& after.input_layernorm == layer.input_layernorm
            &&& after.post_attention_layernorm == layer.post_attention_layernorm
            &&& after.cross_attention_layernorm == layer.cross_attention_layernorm
        }),
{
    broadcast use group_nodes;

}

/// Merging an MLlama layer with cross-attention merges every one of its adapters and changes
/// nothing else.
pub proof fn law_mllama_cross_merged(layer: MllamaLoraDecoderLayer)
    requires
        layer.cross_attn is Some,
    ensures
        ({
            let after = merged(layer);
            &&& adapter_was_merged(layer.cross_attn->0.q_proj, after.cross_attn->0.q_proj)
            &&& adapter_was_merged(layer.cross_attn->0.k_proj, after.cross_attn->0.k_proj)
            &&& adapter_was_merged(layer.cross_attn->0.v_proj, after.cross_attn->0.v_proj)
            &&& adapter_was_merged(layer.cross_attn->0.o_proj, after.cross_attn->0.o_proj)
        }),
{
    broadcast use group_nodes;

}

/// Merging a Qwen3-Next layer with full attention merges every one of its adapters and changes
/// nothing else.
#[verifier::rlimit(40)]
pub proof fn law_qwen3_next_full_merged(layer: Qwen3NextLoraDecoderLayer)
    requires
        layer.self_attn is Some,
    ensures
        ({
            let after = merged(layer);
            &&& was_merged(layer.self_attn->0.q_proj, after.self_attn->0.q_proj)
            &&& was_merged(layer.self_attn->0.k_proj, after.self_attn->0.k_proj)
            &&& was_merged(layer.self_attn->0.v_proj, after.self_attn->0.v_proj)
            &&& was_merged(layer.self_attn->0.o_proj, after.self_attn->0.o_proj)
            &&& after.input_layernorm == layer.input_layernorm
            &&& after.post_attention_layernorm == layer.post_attention_layernorm
        }),
{
    broadcast use group_nodes;

}

/// Merging a Qwen3-Next layer with a gated delta rule merges every one of its adapters and changes
/// nothing else.
#[verifier::rlimit(40)]
pub proof fn law_qwen3_next_linear_merged(layer: Qwen3NextLoraDecoderLayer)
    requires
        layer.linear_attn is Some,
    ensures
        ({
            let after = merged(layer);
            &&& was_merged(layer.linear_attn->0.in_proj_qkv, after.linear_attn->0.in_proj_qkv)
            &&& was_merged(layer.linear_attn->0.in_proj_z, after.linear_attn->0.in_proj_z)
            &&& was_merged(layer.linear_attn->0.out_proj, after.linear_attn->0.out_proj)
            &&& after.input_layernorm == layer.input_layernorm
            &&& after.post_attention_layernorm == layer.post_attention_layernorm
            &&& after.linear_attn->0.in_proj_a == layer.linear_attn->0.in_proj_a
            &&& after.linear_attn->0.in_proj_b == layer.linear_attn->0.in_proj_b
        }),
{
    broadcast use group_nodes;

}

/// Merging a Qwen3-Next layer with one MLP merges every one of its adapters and changes nothing
/// else.
#[verifier::rlimit(40)]
pub proof fn law_qwen3_next_dense_merged(layer: Qwen3NextLoraDecoderLayer)
    requires
        layer.mlp is Dense,
    ensures
        ({
            let after = merged(layer);
            &&& was_merged(layer.mlp->Dense_0.gate_proj, after.mlp->Dense_0.gate_proj)
            &&& was_merged(layer.mlp->Dense_0.up_proj, after.mlp->Dense_0.up_proj)
            &&& was_merged(layer.mlp->Dense_0.down_proj, after.mlp->Dense_0.down_proj)
        }),
{
    broadcast use group_nodes;

}

/// Merging a Qwen3-Next layer with experts merges every one of its adapters and changes nothing
/// else.
#[verifier::rlimit(40)]
pub proof fn law_qwen3_next_sparse_merged(layer: Qwen3NextLoraDecoderLayer)
    requires
        layer.mlp is MoE,
    ensures
        ({
            let after = merged(layer);
            &&& was_merged(
                layer.mlp->MoE_0.shared_expert.gate_proj,
                after.mlp->MoE_0.shared_expert.gate_proj,
            )
            &&& was_merged(
                layer.mlp->MoE_0.shared_expert.up_proj,
                after.mlp->MoE_0.shared_expert.up_proj,
            )
            &&& was_merged(
                layer.mlp->MoE_0.shared_expert.down_proj,
                after.mlp->MoE_0.shared_expert.down_proj,
            )
            &&& after.mlp->MoE_0.gate == layer.mlp->MoE_0.gate
        }),
{
    broadcast use group_nodes;

}

/// Merging a Qwen3-MoE layer with one MLP merges every one of its adapters and changes nothing
/// else.
pub proof fn law_moe_lora_dense_merged(layer: Qwen3MoELoraDecoderLayer)
    requires
        layer.ffn is Dense,
    ensures
        ({
            let after = merged(layer);
            &&& was_merged(layer.self_attn.q_proj, after.self_attn.q_proj)
            &&& was_merged(layer.self_attn.k_proj, after.self_attn.k_proj)
            &&& was_merged(layer.self_attn.v_proj, after.self_attn.v_proj)
            &&& was_merged(layer.self_attn.o_proj, after.self_attn.o_proj)
            &&& was_merged(layer.ffn->Dense_0.gate_proj, after.ffn->Dense_0.gate_proj)
            &&& was_merged(layer.ffn->Dense_0.up_proj, after.ffn->Dense_0.up_proj)
            &&& was_merged(layer.ffn->Dense_0.down_proj, after.ffn->Dense_0.down_proj)
            &&& after.input_layernorm == layer.input_layernorm
            &&& after.post_attention_layernorm == layer.post_attention_layernorm
        }),
{
    broadcast use group_nodes;

}

/// Merging a Qwen3-MoE layer with experts merges every one of its adapters and changes nothing
/// else.
pub proof fn law_moe_lora_sparse_merged(layer: Qwen3MoELoraDecoderLayer)
    requires
        layer.ffn is MoE,
    ensures
        ({
            let after = merged(layer);
            &&& was_merged(layer.self_attn.q_proj, after.self_attn.q_proj)
            &&& was_merged(layer.self_attn.k_proj, after.self_attn.k_proj)
            &&& was_merged(layer.self_attn.v_proj, after.self_attn.v_proj)
            &&& was_merged(layer.self_attn.o_proj, after.self_attn.o_proj)
            &&& was_merged(layer.ffn->MoE_0.gate, after.ffn->MoE_0.gate)
            &&& after.input_layernorm == layer.input_layernorm
            &&& after.post_attention_layernorm == layer.post_attention_layernorm
        }),
{
    broadcast use group_nodes;

}

/// Merging a Nemotron-H block with attention merges every one of its adapters and changes nothing
/// else.
pub proof fn law_nemotron_attention_merged(layer: NemotronHLoraBlock)
    requires
        layer.mixer is Attention,
    ensures
        ({
            let after = merged(layer);
            &&& was_merged(layer.mixer->Attention_0.q_proj, after.mixer->Attention_0.q_proj)
            &&& was_merged(layer.mixer->Attention_0.k_proj, after.mixer->Attention_0.k_proj)
            &&& was_merged(layer.mixer->Attention_0.v_proj, after.mixer->Attention_0.v_proj)
            &&& was_merged(layer.mixer->Attention_0.o_proj, after.mixer->Attention_0.o_proj)
            &&& after.norm == layer.norm
        }),
{
    broadcast use group_nodes;

}

/// Merging a Nemotron-H block with an MLP merges every one of its adapters and changes nothing
/// else.
pub proof fn law_nemotron_mlp_merged(layer: NemotronHLoraBlock)
    requires
        layer.mixer is Mlp,
    ensures
        ({
            let after = merged(layer);
            &&& was_merged(layer.mixer->Mlp_0.up_proj, after.mixer->Mlp_0.up_proj)
            &&& was_merged(layer.mixer->Mlp_0.down_proj, after.mixer->Mlp_0.down_proj)
            &&& after.norm == layer.norm
        }),
{
    broadcast use group_nodes;

}

/// Merging a Nemotron-H block with a shared expert merges every one of its adapters and changes
/// nothing else.
pub proof fn law_nemotron_shared_merged(layer: NemotronHLoraBlock)
    requires
        layer.mixer is MoE,
        layer.mixer->MoE_0.shared_expert is Some,
    ensures
        ({
            let after = merged(layer);
            &&& was_merged(
                layer.mixer->MoE_0.shared_expert->0.up_proj,
                after.mixer->MoE_0.shared_expert->0.up_proj,
            )
            &&& was_merged(
                layer.mixer->MoE_0.shared_expert->0.down_proj,
                after.mixer->MoE_0.shared_expert->0.down_proj,
            )
            &&& after.norm == layer.norm
        }),
{
    broadcast use group_nodes;

}

/// Merging a quantized Nemotron-H block with attention merges every one of its adapters and changes
/// nothing else.
pub proof fn law_nemotron_qlora_attention_merged(layer: NemotronHQloraBlock)
    requires
        layer.mixer is Attention,
    ensures
        ({
            let after = merged(layer);
            &&& quantized_was_merged(
                layer.mixer->Attention_0.q_proj,
                after.mixer->Attention_0.q_proj,
            )
            &&& quantized_was_merged(
                layer.mixer->Attention_0.k_proj,
                after.mixer->Attention_0.k_proj,
            )
            &&& quantized_was_merged(
                layer.mixer->Attention_0.v_proj,
                after.mixer->Attention_0.v_proj,
            )
            &&& quantized_was_merged(
                layer.mixer->Attention_0.o_proj,
                after.mixer->Attention_0.o_proj,
            )
            &&& after.norm == layer.norm
        }),
{
    broadcast use group_nodes;

}

/// Merging a quantized Nemotron-H block with an MLP merges every one of its adapters and changes
/// nothing else.
pub proof fn law_nemotron_qlora_mlp_merged(layer: NemotronHQloraBlock)
    requires
        layer.mixer is Mlp,
    ensures
        ({
            let after = merged(layer);
            &&& quantized_was_merged(layer.mixer->Mlp_0.up_proj, after.mixer->Mlp_0.up_proj)
            &&& quantized_was_merged(layer.mixer->Mlp_0.down_proj, after.mixer->Mlp_0.down_proj)
            &&& after.norm == layer.norm
        }),
{
    broadcast use group_nodes;

}

/// Merging a quantized Nemotron-H block with a shared expert merges every one of its adapters and
/// changes nothing else.
pub proof fn law_nemotron_qlora_shared_merged(layer: NemotronHQloraBlock)
    requires
        layer.mixer is MoE,
        layer.mixer->MoE_0.shared_expert is Some,
    ensures
        ({
            let after = merged(layer);
            &&& quantized_was_merged(
                layer.mixer->MoE_0.shared_expert->0.up_proj,
                after.mixer->MoE_0.shared_expert->0.up_proj,
            )
            &&& quantized_was_merged(
                layer.mixer->MoE_0.shared_expert->0.down_proj,
                after.mixer->MoE_0.shared_expert->0.down_proj,
            )
            &&& after.norm == layer.norm
        }),
{
    broadcast use group_nodes;

}

/// Where merging a Mistral layer stops, the adapters before that place are merged and the others
/// are as they were; an adapter can be merged at its own place.
pub proof fn law_mistral_merge_order(layer: MistralLoraDecoderLayer, k: int)
    ensures
        ({
            let after = layer.merged_first(k);
            &&& if k > 0 {
                was_merged(layer.self_attn.q_proj, after.self_attn.q_proj)
            } else {
                after.self_attn.q_proj == layer.self_attn.q_proj
            }
            &&& layer.can_merge(0) <==> layer.self_attn.q_proj.mergeable()
            &&& if k > 1 {
                was_merged(layer.self_attn.k_proj, after.self_attn.k_proj)
            } else {
                after.self_attn.k_proj == layer.self_attn.k_proj
            }
            &&& layer.can_merge(1) <==> layer.self_attn.k_proj.mergeable()
            &&& if k > 2 {
                was_merged(layer.self_attn.v_proj, after.self_attn.v_proj)
            } else {
                after.self_attn.v_proj == layer.self_attn.v_proj
            }
            &&& layer.can_merge(2) <==> layer.self_attn.v_proj.mergeable()
            &&& if k > 3 {
                was_merged(layer.self_attn.o_proj, after.self_attn.o_proj)
            } else {
                after.self_attn.o_proj == layer.self_attn.o_proj
            }
            &&& layer.can_merge(3) <==> layer.self_attn.o_proj.mergeable()
            &&& if k > 4 {
                was_merged(layer.mlp.gate_proj, after.mlp.gate_proj)
            } else {
                after.mlp.gate_proj == layer.mlp.gate_proj
            }
            &&& layer.can_merge(4) <==> layer.mlp.gate_proj.mergeable()
            &&& if k > 5 {
                was_merged(layer.mlp.up_proj, after.mlp.up_proj)
            } else {
                after.mlp.up_proj == layer.mlp.up_proj
            }
            &&& layer.can_merge(5) <==> layer.mlp.up_proj.mergeable()
            &&& if k > 6 {
                was_merged(layer.mlp.down_proj, after.mlp.down_proj)
            } else {
                after.mlp.down_proj == layer.mlp.down_proj
            }
            &&& layer.can_merge(6) <==> layer.mlp.down_proj.mergeable()
        }),
{
    broadcast use group_nodes;

}

/// Where merging an MLlama layer stops, the adapters before that place are merged and the others
/// are as they were; an adapter can be merged at its own place.
pub proof fn law_mllama_merge_order(layer: MllamaLoraDecoderLayer, k: int)
    ensures
        ({
            let after = layer.merged_first(k);
            &&& if k > 0 {
                adapter_was_merged(layer.self_attn.q_proj, after.self_attn.q_proj)
            } else {
                after.self_attn.q_proj == layer.self_attn.q_proj
            }
            &&& layer.can_merge(0) <==> layer.self_attn.q_proj.mergeable()
            &&& if k > 1 {
                adapter_was_merged(layer.self_attn.k_proj, after.self_attn.k_proj)
            } else {
                after.self_attn.k_proj == layer.self_attn.k_proj
            }
            &&& layer.can_merge(1) <==> layer.self_attn.k_proj.mergeable()
            &&& if k > 2 {
                adapter_was_merged(layer.self_attn.v_proj, after.self_attn.v_proj)
            } else {
                after.self_attn.v_proj == layer.self_attn.v_proj
            }
            &&& layer.can_merge(2) <==> layer.self_attn.v_proj.mergeable()
            &&& if k > 3 {
                adapter_was_merged(layer.self_attn.o_proj, after.self_attn.o_proj)
            } else {
                after.self_attn.o_proj == layer.self_attn.o_proj
            }
            &&& layer.can_merge(3) <==> layer.self_attn.o_proj.mergeable()
            &&& if k > 4 {
                was_merged(layer.mlp.gate_proj, after.mlp.gate_proj)
            } else {
                after.mlp.gate_proj == layer.mlp.gate_proj
            }
            &&& layer.can_merge(4) <==> layer.mlp.gate_proj.mergeable()
            &&& if k > 5 {
                was_merged(layer.mlp.up_proj, after.mlp.up_proj)
            } else {
                after.mlp.up_proj == layer.mlp.up_proj
            }
            &&& layer.can_merge(5) <==> layer.mlp.up_proj.mergeable()
            &&& if k > 6 {
                was_merged(layer.mlp.down_proj, after.mlp.down_proj)
            } else {
                after.mlp.down_proj == layer.mlp.down_proj
            }
            &&& layer.can_merge(6) <==> layer.mlp.down_proj.mergeable()
        }),
{
    broadcast use group_nodes;

}

/// Where merging an MLlama layer with cross-attention stops, the adapters before that place are
/// merged and the others are as they were; an adapter can be merged at its own place.
pub proof fn law_mllama_cross_merge_order(layer: MllamaLoraDecoderLayer, k: int)
    requires
        layer.cross_attn is Some,
    ensures
        ({
            let after = layer.merged_first(k);
            &&& if k > 7 {
                adapter_was_merged(layer.cross_attn->0.q_proj, after.cross_attn->0.q_proj)
            } else {
                after.cross_attn->0.q_proj == layer.cross_attn->0.q_proj
            }
            &&& layer.can_merge(7) <==> layer.cross_attn->0.q_proj.mergeable()
            &&& if k > 8 {
                adapter_was_merged(layer.cross_attn->0.k_proj, after.cross_attn->0.k_proj)
            } else {
                after.cross_attn->0.k_proj == layer.cross_attn->0.k_proj
            }
            &&& layer.can_merge(8) <==> layer.cross_attn->0.k_proj.mergeable()
            &&& if k > 9 {
                adapter_was_merged(layer.cross_attn->0.v_proj, after.cross_attn->0.v_proj)
            } else {
                after.cross_attn->0.v_proj == layer.cross_attn->0.v_proj
            }
            &&& layer.can_merge(9) <==> layer.cross_attn->0.v_proj.mergeable()
            &&& if k > 10 {
                adapter_was_merged(layer.cross_attn->0.o_proj, after.cross_attn->0.o_proj)
            } else {
                after.cross_attn->0.o_proj == layer.cross_attn->0.o_proj
            }
            &&& layer.can_merge(10) <==> layer.cross_attn->0.o_proj.mergeable()
        }),
{
    broadcast use group_nodes;

}

/// Where merging a Qwen3-MoE layer with one MLP stops, the adapters before that place are merged
/// and the others are as they were; an adapter can be merged at its own place.
pub proof fn law_moe_lora_dense_merge_order(layer: Qwen3MoELoraDecoderLayer, k: int)
    requires
        layer.ffn is Dense,
    ensures
        ({
            let after = layer.merged_first(k);
            &&& if k > 0 {
                was_merged(layer.self_attn.q_proj, after.self_attn.q_proj)
            } else {
                after.self_attn.q_proj == layer.self_attn.q_proj
            }
            &&& layer.can_merge(0) <==> layer.self_attn.q_proj.mergeable()
            &&& if k > 1 {
                was_merged(layer.self_attn.k_proj, after.self_attn.k_proj)
            } else {
                after.self_attn.k_proj == layer.self_attn.k_proj
            }
            &&& layer.can_merge(1) <==> layer.self_attn.k_proj.mergeable()
            &&& if k > 2 {
                was_merged(layer.self_attn.v_proj, after.self_attn.v_proj)
            } else {
                after.self_attn.v_proj == layer.self_attn.v_proj
            }
            &&& layer.can_merge(2) <==> layer.self_attn.v_proj.mergeable()
            &&& if k > 3 {
                was_merged(layer.self_attn.o_proj, after.self_attn.o_proj)
            } else {
                after.self_attn.o_proj == layer.self_attn.o_proj
            }
            &&& layer.can_merge(3) <==> layer.self_attn.o_proj.mergeable()
            &&& if k > 4 {
                was_merged(layer.ffn->Dense_0.gate_proj, after.ffn->Dense_0.gate_proj)
            } else {
                after.ffn->Dense_0.gate_proj == layer.ffn->Dense_0.gate_proj
            }
            &&& layer.can_merge(4) <==> layer.ffn->Dense_0.gate_proj.mergeable()
            &&& if k > 5 {
                was_merged(layer.ffn->Dense_0.up_proj, after.ffn->Dense_0.up_proj)
            } else {
                after.ffn->Dense_0.up_proj == layer.ffn->Dense_0.up_proj
            }
            &&& layer.can_merge(5) <==> layer.ffn->Dense_0.up_proj.mergeable()
            &&& if k > 6 {
                was_merged(layer.ffn->Dense_0.down_proj, after.ffn->Dense_0.down_proj)
            } else {
                after.ffn->Dense_0.down_proj == layer.ffn->Dense_0.down_proj
            }
            &&& layer.can_merge(6) <==> layer.ffn->Dense_0.down_proj.mergeable()
        }),
{
    broadcast use group_nodes;

}

/// Where merging a Qwen3-MoE layer with experts stops, the adapters before that place are merged
/// and the others are as they were; an adapter can be merged at its own place.
pub proof fn law_moe_lora_sparse_merge_order(layer: Qwen3MoELoraDecoderLayer, k: int)
    requires
        layer.ffn is MoE,
    ensures
        ({
            let after = layer.merged_first(k);
            &&& if k > 0 {
                was_merged(layer.self_attn.q_proj, after.self_attn.q_proj)
            } else {
                after.self_attn.q_proj == layer.self_attn.q_proj
            }
            &&& layer.can_merge(0) <==> layer.self_attn.q_proj.mergeable()
            &&& if k > 1 {
                was_merged(layer.self_attn.k_proj, after.self_attn.k_proj)
            } else {
                after.self_attn.k_proj == layer.self_attn.k_proj
            }
            &&& layer.can_merge(1) <==> layer.self_attn.k_proj.mergeable()
            &&& if k > 2 {
                was_merged(layer.self_attn.v_proj, after.self_attn.v_proj)
            } else {
                after.self_attn.v_proj == layer.self_attn.v_proj
            }
            &&& layer.can_merge(2) <==> layer.self_attn.v_proj.mergeable()
            &&& if k > 3 {
                was_merged(layer.self_attn.o_proj, after.self_attn.o_proj)
            } else {
                after.self_attn.o_proj == layer.self_attn.o_proj
            }
            &&& layer.can_merge(3) <==> layer.self_attn.o_proj.mergeable()
            &&& if k > 4 {
                was_merged(layer.ffn->MoE_0.gate, after.ffn->MoE_0.gate)
            } else {
                after.ffn->MoE_0.gate == layer.ffn->MoE_0.gate
            }
            &&& layer.can_merge(4) <==> layer.ffn->MoE_0.gate.mergeable()
        }),
{
    broadcast use group_nodes;

}

/// Where merging a Qwen3-Next layer with full attention stops, the adapters before that place are
/// merged and the others are as they were; an adapter can be merged at its own place.
#[verifier::rlimit(60)]
pub proof fn law_qwen3_next_full_merge_order(layer: Qwen3NextLoraDecoderLayer, k: int)
    requires
        layer.self_attn is Some,
    ensures
        ({
            let after = layer.merged_first(k);
            &&& if k > 0 {
                was_merged(layer.self_attn->0.q_proj, after.self_attn->0.q_proj)
            } else {
                after.self_attn->0.q_proj == layer.self_attn->0.q_proj
            }
            &&& layer.can_merge(0) <==> layer.self_attn->0.q_proj.mergeable()
            &&& if k > 1 {
                was_merged(layer.self_attn->0.k_proj, after.self_attn->0.k_proj)
            } else {
                after.self_attn->0.k_proj == layer.self_attn->0.k_proj
            }
            &&& layer.can_merge(1) <==> layer.self_attn->0.k_proj.mergeable()
            &&& if k > 2 {
                was_merged(layer.self_attn->0.v_proj, after.self_attn->0.v_proj)
            } else {
                after.self_attn->0.v_proj == layer.self_attn->0.v_proj
            }
            &&& layer.can_merge(2) <==> layer.self_attn->0.v_proj.mergeable()
            &&& if k > 3 {
                was_merged(layer.self_attn->0.o_proj, after.self_attn->0.o_proj)
            } else {
                after.self_attn->0.o_proj == layer.self_attn->0.o_proj
            }
            &&& layer.can_merge(3) <==> layer.self_attn->0.o_proj.mergeable()
        }),
{
    broadcast use group_nodes;

}

/// Where merging a Qwen3-Next layer with a gated delta rule stops, the adapters before that place
/// are merged and the others are as they were; an adapter can be merged at its own place.
#[verifier::rlimit(60)]
pub proof fn law_qwen3_next_linear_merge_order(layer: Qwen3NextLoraDecoderLayer, k: int)
    requires
        layer.linear_attn is Some,
    ensures
        ({
            let after = layer.merged_first(k);
            let full = if layer.self_attn is Some { 4int } else { 0int };
            &&& if k > full {
                was_merged(layer.linear_attn->0.in_proj_qkv, after.linear_attn->0.in_proj_qkv)
            } else {
                after.linear_attn->0.in_proj_qkv == layer.linear_attn->0.in_proj_qkv
            }
            &&& layer.can_merge(full) <==> layer.linear_attn->0.in_proj_qkv.mergeable()
            &&& if k > full + 1 {
                was_merged(layer.linear_attn->0.in_proj_z, after.linear_attn->0.in_proj_z)
            } else {
                after.linear_attn->0.in_proj_z == layer.linear_attn->0.in_proj_z
            }
            &&& layer.can_merge(full + 1) <==> layer.linear_attn->0.in_proj_z.mergeable()
            &&& if k > full + 2 {
                was_merged(layer.linear_attn->0.out_proj, after.linear_attn->0.out_proj)
            } else {
                after.linear_attn->0.out_proj == layer.linear_attn->0.out_proj
            }
            &&& layer.can_merge(full + 2) <==> layer.linear_attn->0.out_proj.mergeable()
        }),
{
    broadcast use group_nodes;

}

/// Where merging a Qwen3-Next layer with one MLP stops, the adapters before that place are merged
/// and the others are as they were; an adapter can be merged at its own place.
#[verifier::rlimit(60)]
pub proof fn law_qwen3_next_dense_merge_order(layer: Qwen3NextLoraDecoderLayer, k: int)
    requires
        layer.mlp is Dense,
    ensures
        ({
            let after = layer.merged_first(k);
            let full = if layer.self_attn is Some { 4int } else { 0int };
            let mixer = full + if layer.linear_attn is Some { 3int } else { 0int };
            &&& if k > mixer {
                was_merged(layer.mlp->Dense_0.gate_proj, after.mlp->Dense_0.gate_proj)
            } else {
                after.mlp->Dense_0.gate_proj == layer.mlp->Dense_0.gate_proj
            }
            &&& layer.can_merge(mixer) <==> layer.mlp->Dense_0.gate_proj.mergeable()
            &&& if k > mixer + 1 {
                was_merged(layer.mlp->Dense_0.up_proj, after.mlp->Dense_0.up_proj)
            } else {
                after.mlp->Dense_0.up_proj == layer.mlp->Dense_0.up_proj
            }
            &&& layer.can_merge(mixer + 1) <==> layer.mlp->Dense_0.up_proj.mergeable()
            &&& if k > mixer + 2 {
                was_merged(layer.mlp->Dense_0.down_proj, after.mlp->Dense_0.down_proj)
            } else {
                after.mlp->Dense_0.down_proj == layer.mlp->Dense_0.down_proj
            }
            &&& layer.can_merge(mixer + 2) <==> layer.mlp->Dense_0.down_proj.mergeable()
        }),
{
    broadcast use group_nodes;

}

/// Where merging a Qwen3-Next layer with experts stops, the adapters before that place are merged
/// and the others are as they were; an adapter can be merged at its own place.
#[verifier::rlimit(60)]
pub proof fn law_qwen3_next_sparse_merge_order(layer: Qwen3NextLoraDecoderLayer, k: int)
    requires
        layer.mlp is MoE,
    ensures
        ({
            let after = layer.merged_first(k);
            let full = if layer.self_attn is Some { 4int } else { 0int };
            let mixer = full + if layer.linear_attn is Some { 3int } else { 0int };
            &&& if k > mixer {
                was_merged(
                    layer.mlp->MoE_0.shared_expert.gate_proj,
                    after.mlp->MoE_0.shared_expert.gate_proj,
                )
            } else {
                after.mlp->MoE_0.shared_expert.gate_proj == layer.mlp->MoE_0.shared_expert.gate_proj
            }
            &&& layer.can_merge(mixer) <==> layer.mlp->MoE_0.shared_expert.gate_proj.mergeable()
            &&& if k > mixer + 1 {
                was_merged(
                    layer.mlp->MoE_0.shared_expert.up_proj,
                    after.mlp->MoE_0.shared_expert.up_proj,
                )
            } else {
                after.mlp->MoE_0.shared_expert.up_proj == layer.mlp->MoE_0.shared_expert.up_proj
            }
            &&& layer.can_merge(mixer + 1) <==> layer.mlp->MoE_0.shared_expert.up_proj.mergeable()
            &&& if k > mixer + 2 {
                was_merged(
                    layer.mlp->MoE_0.shared_expert.down_proj,
                    after.mlp->MoE_0.shared_expert.down_proj,
                )
            } else {
                after.mlp->MoE_0.shared_expert.down_proj == layer.mlp->MoE_0.shared_expert.down_proj
            }
            &&& layer.can_merge(mixer + 2) <==> layer.mlp->MoE_0.shared_expert.down_proj.mergeable()
        }),
{
    broadcast use group_nodes;

}

/// Where merging a Nemotron-H block with attention stops, the adapters before that place are merged
/// and the others are as they were; an adapter can be merged at its own place.
pub proof fn law_nemotron_attention_merge_order(layer: NemotronHLoraBlock, k: int)
    requires
        layer.mixer is Attention,
    ensures
        ({
            let after = layer.merged_first(k);
            &&& if k > 0 {
                was_merged(layer.mixer->Attention_0.q_proj, after.mixer->Attention_0.q_proj)
            } else {
                after.mixer->Attention_0.q_proj == layer.mixer->Attention_0.q_proj
            }
            &&& layer.can_merge(0) <==> layer.mixer->Attention_0.q_proj.mergeable()
            &&& if k > 1 {
                was_merged(layer.mixer->Attention_0.k_proj, after.mixer->Attention_0.k_proj)
            } else {
                after.mixer->Attention_0.k_proj == layer.mixer->Attention_0.k_proj
            }
            &&& layer.can_merge(1) <==> layer.mixer->Attention_0.k_proj.mergeable()
            &&& if k > 2 {
                was_merged(layer.mixer->Attention_0.v_proj, after.mixer->Attention_0.v_proj)
            } else {
                after.mixer->Attention_0.v_proj == layer.mixer->Attention_0.v_proj
            }
            &&& layer.can_merge(2) <==> layer.mixer->Attention_0.v_proj.mergeable()
            &&& if k > 3 {
                was_merged(layer.mixer->Attention_0.o_proj, after.mixer->Attention_0.o_proj)
            } else {
                after.mixer->Attention_0.o_proj == layer.mixer->Attention_0.o_proj
            }
            &&& layer.can_merge(3) <==> layer.mixer->Attention_0.o_proj.mergeable()
        }),
{
    broadcast use group_nodes;

}

/// Where merging a Nemotron-H block with an MLP stops, the adapters before that place are merged
/// and the others are as they were; an adapter can be merged at its own place.
pub proof fn law_nemotron_mlp_merge_order(layer: NemotronHLoraBlock, k: int)
    requires
        layer.mixer is Mlp,
    ensures
        ({
            let after = layer.merged_first(k);
            &&& if k > 0 {
                was_merged(layer.mixer->Mlp_0.up_proj, after.mixer->Mlp_0.up_proj)
            } else {
                after.mixer->Mlp_0.up_proj == layer.mixer->Mlp_0.up_proj
            }
            &&& layer.can_merge(0) <==> layer.mixer->Mlp_0.up_proj.mergeable()
            &&& if k > 1 {
                was_merged(layer.mixer->Mlp_0.down_proj, after.mixer->Mlp_0.down_proj)
            } else {
                after.mixer->Mlp_0.down_proj == layer.mixer->Mlp_0.down_proj
            }
            &&& layer.can_merge(1) <==> layer.mixer->Mlp_0.down_proj.mergeable()
        }),
{
    broadcast use group_nodes;

}

/// Where merging a Nemotron-H block with a shared expert stops, the adapters before that place are
/// merged and the others are as they were; an adapter can be merged at its own place.
pub proof fn law_nemotron_shared_merge_order(layer: NemotronHLoraBlock, k: int)
    requires
        layer.mixer is MoE,
        layer.mixer->MoE_0.shared_expert is Some,
    ensures
        ({
            let after = layer.merged_first(k);
            &&& if k > 0 {
                was_merged(
                    layer.mixer->MoE_0.shared_expert->0.up_proj,
                    after.mixer->MoE_0.shared_expert->0.up_proj,
                )
            } else {
                after.mixer->MoE_0.shared_expert->0.up_proj
                    == layer.mixer->MoE_0.shared_expert->0.up_proj
            }
            &&& layer.can_merge(0) <==> layer.mixer->MoE_0.shared_expert->0.up_proj.mergeable()
            &&& if k > 1 {
                was_merged(
                    layer.mixer->MoE_0.shared_expert->0.down_proj,
                    after.mixer->MoE_0.shared_expert->0.down_proj,
                )
            } else {
                after.mixer->MoE_0.shared_expert->0.down_proj
                    == layer.mixer->MoE_0.shared_expert->0.down_proj
            }
            &&& layer.can_merge(1) <==> layer.mixer->MoE_0.shared_expert->0.down_proj.mergeable()
        }),
{
    broadcast use group_nodes;

}

/// Where merging a quantized Nemotron-H block with attention stops, the adapters before that place
/// are merged and the others are as they were; an adapter can be merged at its own place.
pub proof fn law_nemotron_qlora_attention_merge_order(layer: NemotronHQloraBlock, k: int)
    requires
        layer.mixer is Attention,
    ensures
        ({
            let after = layer.merged_first(k);
            &&& if k > 0 {
                quantized_was_merged(
                    layer.mixer->Attention_0.q_proj,
                    after.mixer->Attention_0.q_proj,
                )
            } else {
                after.mixer->Attention_0.q_proj == layer.mixer->Attention_0.q_proj
            }
            &&& layer.can_merge(0) <==> layer.mixer->Attention_0.q_proj.mergeable()
            &&& if k > 1 {
                quantized_was_merged(
                    layer.mixer->Attention_0.k_proj,
                    after.mixer->Attention_0.k_proj,
                )
            } else {
                after.mixer->Attention_0.k_proj == layer.mixer->Attention_0.k_proj
            }
            &&& layer.can_merge(1) <==> layer.mixer->Attention_0.k_proj.mergeable()
            &&& if k > 2 {
                quantized_was_merged(
                    layer.mixer->Attention_0.v_proj,
                    after.mixer->Attention_0.v_proj,
                )
            } else {
                after.mixer->Attention_0.v_proj == layer.mixer->Attention_0.v_proj
            }
            &&& layer.can_merge(2) <==> layer.mixer->Attention_0.v_proj.mergeable()
            &&& if k > 3 {
                quantized_was_merged(
                    layer.mixer->Attention_0.o_proj,
                    after.mixer->Attention_0.o_proj,
                )
            } else {
                after.mixer->Attention_0.o_proj == layer.mixer->Attention_0.o_proj
            }
            &&& layer.can_merge(3) <==> layer.mixer->Attention_0.o_proj.mergeable()
        }),
{
    broadcast use group_nodes;

}

/// Where merging a quantized Nemotron-H block with an MLP stops, the adapters before that place are
/// merged and the others are as they were; an adapter can be merged at its own place.
pub proof fn law_nemotron_qlora_mlp_merge_order(layer: NemotronHQloraBlock, k: int)
    requires
        layer.mixer is Mlp,
    ensures
        ({
            let after = layer.merged_first(k);
            &&& if k > 0 {
                quantized_was_merged(layer.mixer->Mlp_0.up_proj, after.mixer->Mlp_0.up_proj)
            } else {
                after.mixer->Mlp_0.up_proj == layer.mixer->Mlp_0.up_proj
            }
            &&& layer.can_merge(0) <==> layer.mixer->Mlp_0.up_proj.mergeable()
            &&& if k > 1 {
                quantized_was_merged(layer.mixer->Mlp_0.down_proj, after.mixer->Mlp_0.down_proj)
            } else {
                after.mixer->Mlp_0.down_proj == layer.mixer->Mlp_0.down_proj
            }
            &&& layer.can_merge(1) <==> layer.mixer->Mlp_0.down_proj.mergeable()
        }),
{
    broadcast use group_nodes;

}

/// Where merging a quantized Nemotron-H block with a shared expert stops, the adapters before that
/// place are merged and the others are as they were; an adapter can be merged at its own place.
pub proof fn law_nemotron_qlora_shared_merge_order(layer: NemotronHQloraBlock, k: int)
    requires
        layer.mixer is MoE,
        layer.mixer->MoE_0.shared_expert is Some,
    ensures
        ({
            let after = layer.merged_first(k);
            &&& if k > 0 {
                quantized_was_merged(
                    layer.mixer->MoE_0.shared_expert->0.up_proj,
                    after.mixer->MoE_0.shared_expert->0.up_proj,
                )
            } else {
                after.mixer->MoE_0.shared_expert->0.up_proj
                    == layer.mixer->MoE_0.shared_expert->0.up_proj
            }
            &&& layer.can_merge(0) <==> layer.mixer->MoE_0.shared_expert->0.up_proj.mergeable()
            &&& if k > 1 {
                quantized_was_merged(
                    layer.mixer->MoE_0.shared_expert->0.down_proj,
                    after.mixer->MoE_0.shared_expert->0.down_proj,
                )
            } else {
                after.mixer->MoE_0.shared_expert->0.down_proj
                    == layer.mixer->MoE_0.shared_expert->0.down_proj
            }
            &&& layer.can_merge(1) <==> layer.mixer->MoE_0.shared_expert->0.down_proj.mergeable()
        }),
{
    broadcast use group_nodes;

}

/// Merging a stack has one outcome: it does not both succeed and stop.
pub proof fn law_merge_stops_or_not<T: MergeSteps>(before: Seq<T>, after: Seq<T>, stopped: Seq<T>)
    requires
        stack_merged(before, after),
    ensures
        !stack_merge_stopped(before, stopped),
{
    if stack_merge_stopped(before, stopped) {
        let (i, k) = choose|i: int, k: int| merge_stopped(before, stopped, i, k);
        assert(is_merged(before[i], after[i]));
        assert(before[i].can_merge(k));
    }
}

/// Where merging stops, and what it leaves, follows from the stack.
pub proof fn law_merge_stops_once<T: MergeSteps>(
    before: Seq<T>,
    a: Seq<T>,
    b: Seq<T>,
    i: int,
    k: int,
    j: int,
    l: int,
)
    requires
        merge_stopped(before, a, i, k),
        merge_stopped(before, b, j, l),
    ensures
        i == j,
        k == l,
        a == b,
{
    if i < j {
        assert(is_merged(before[i], b[i]));
        assert(before[i].can_merge(k));
    }
    if j < i {
        assert(is_merged(before[j], a[j]));
        assert(before[j].can_merge(l));
    }
    if k < l {
        assert(before[i].can_merge(k));
    }
    if l < k {
        assert(before[i].can_merge(l));
    }
    assert forall|n: int| 0 <= n < before.len() implies a[n] == b[n] by {
        if n < i {
            assert(is_merged(before[n], a[n]) && is_merged(before[n], b[n]));
        }
    }
    assert(a =~= b);
}

} // verus!
