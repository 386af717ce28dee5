//! Which arrays of a model are evaluated.

use crate::array::Array;
use crate::evaluation::{EvalLayer, model_evaluated, stack_evaluated};
use crate::lora::Adapter;
use crate::mistral_lora::MistralLoraDecoderLayer;
use crate::mllama_lora::MllamaLoraDecoderLayer;
use crate::nemotron_h_lora::NemotronHLoraBlock;
use crate::nemotron_h_qlora::NemotronHQloraBlock;
use crate::nn::{Embedding, Linear, RmsNorm};
use crate::phi_lora::PhiLoraDecoderLayer;
use crate::phi_qlora::PhiQloraDecoderLayer;
use crate::qwen3_lora::Qwen3LoraDecoderLayer;
use crate::qwen3_moe_lora::Qwen3MoELoraDecoderLayer;
use crate::qwen3_next_lora::Qwen3NextLoraDecoderLayer;
use vstd::prelude::*;

verus! {

broadcast use {
    vstd::seq_lib::lemma_seq_concat_contains_all_elements,
    vstd::seq_lib::lemma_seq_contains_after_push,
};

/// Both matrices of an adapter are among the arrays.
pub open spec fn holds_pair<L: Adapter>(s: Seq<Array>, l: L) -> bool {
    s.contains(l.a()) && s.contains(l.b())
}

proof fn lemma_stack_evaluated<T: EvalLayer>(layers: Seq<T>, n: nat, i: int, x: Array)
    requires
        0 <= i < n <= layers.len(),
        layers[i].evaluated().contains(x),
    ensures
        stack_evaluated(layers, n).contains(x),
    decreases n,
{
    if i < n - 1 {
        lemma_stack_evaluated(layers, (n - 1) as nat, i, x);
    }
}

/// A model evaluates its embeddings, its last norm, its head where it has one, and whatever any of
/// its layers evaluates.
pub proof fn law_model_evaluates<T: EvalLayer>(
    embeddings: Embedding,
    layers: Seq<T>,
    norm: RmsNorm,
    head: Option<Linear>,
)
    ensures
        ({
            let s = model_evaluated(embeddings, layers, norm, head);
            &&& s.contains(embeddings.weight)
            &&& s.contains(norm.weight)
            &&& head matches Some(l) ==> s.contains(l.weight)
            &&& forall|i: int, x: Array|
                0 <= i < layers.len() && #[trigger] layers[i].evaluated().contains(x)
                    ==> s.contains(x)
        }),
{
    let s = model_evaluated(embeddings, layers, norm, head);
    assert forall|i: int, x: Array|
        0 <= i < layers.len() && #[trigger] layers[i].evaluated().contains(x) implies s.contains(
        x,
    ) by {
        lemma_stack_evaluated(layers, layers.len(), i, x);
    }
}

/// A Mistral layer leaves no adapter unevaluated.
pub proof fn law_mistral_evaluates(layer: MistralLoraDecoderLayer)
    ensures
        ({
            let s = layer.evaluated();
            &&& holds_pair(s, layer.self_attn.q_proj)
            &&& holds_pair(s, layer.self_attn.k_proj)
            &&& holds_pair(s, layer.self_attn.v_proj)
            &&& holds_pair(s, layer.self_attn.o_proj)
            &&& holds_pair(s, layer.mlp.gate_proj)
            &&& holds_pair(s, layer.mlp.up_proj)
            &&& holds_pair(s, layer.mlp.down_proj)
        }),
{
}

/// A Qwen3 layer leaves no adapter unevaluated.
pub proof fn law_qwen3_evaluates(layer: Qwen3LoraDecoderLayer)
    ensures
        ({
            let s = layer.evaluated();
            &&& holds_pair(s, layer.self_attn.q_proj)
            &&& holds_pair(s, layer.self_attn.k_proj)
            &&& holds_pair(s, layer.self_attn.v_proj)
            &&& holds_pair(s, layer.self_attn.o_proj)
            &&& holds_pair(s, layer.mlp.gate_proj)
            &&& holds_pair(s, layer.mlp.up_proj)
            &&& holds_pair(s, layer.mlp.down_proj)
            &&& s.contains(layer.self_attn.q_proj.weight)
            &&& s.contains(layer.self_attn.k_proj.weight)
            &&& s.contains(layer.self_attn.v_proj.weight)
            &&& s.contains(layer.self_attn.o_proj.weight)
            &&& s.contains(layer.mlp.gate_proj.weight)
            &&& s.contains(layer.mlp.up_proj.weight)
            &&& s.contains(layer.mlp.down_proj.weight)
            &&& s.contains(layer.input_layernorm.weight)
            &&& s.contains(layer.post_attention_layernorm.weight)
            &&& s.contains(layer.self_attn.q_norm.weight)
            &&& s.contains(layer.self_attn.k_norm.weight)
        }),
{
}

/// A Phi layer leaves no adapter unevaluated.
pub proof fn law_phi_evaluates(layer: PhiLoraDecoderLayer)
    ensures
        ({
            let s = layer.evaluated();
            &&& holds_pair(s, layer.self_attn.q_proj)
            &&& holds_pair(s, layer.self_attn.k_proj)
            &&& holds_pair(s, layer.self_attn.v_proj)
            &&& holds_pair(s, layer.self_attn.o_proj)
            &&& holds_pair(s, layer.mlp.gate_up_proj)
            &&& holds_pair(s, layer.mlp.down_proj)
            &&& s.contains(layer.self_attn.q_proj.weight)
            &&& s.contains(layer.self_attn.k_proj.weight)
            &&& s.contains(layer.self_attn.v_proj.weight)
            &&& s.contains(layer.self_attn.o_proj.weight)
            &&& s.contains(layer.mlp.gate_up_proj.weight)
            &&& s.contains(layer.mlp.down_proj.weight)
            &&& s.contains(layer.input_layernorm.weight)
            &&& s.contains(layer.post_attention_layernorm.weight)
        }),
{
}

/// A quantized Phi layer leaves no adapter unevaluated.
pub proof fn law_phi_qlora_evaluates(layer: PhiQloraDecoderLayer)
    ensures
        ({
            let s = layer.evaluated();
            &&& holds_pair(s, layer.self_attn.q_proj)
            &&& holds_pair(s, layer.self_attn.k_proj)
            &&& holds_pair(s, layer.self_attn.v_proj)
            &&& holds_pair(s, layer.self_attn.o_proj)
            &&& holds_pair(s, layer.mlp.gate_up_proj)
            &&& holds_pair(s, layer.mlp.down_proj)
        }),
{
}

/// An MLlama layer leaves no adapter unevaluated.
pub proof fn law_mllama_evaluates(layer: MllamaLoraDecoderLayer)
    ensures
        ({
            let s = layer.evaluated();
            &&& holds_pair(s, layer.self_attn.q_proj)
            &&& holds_pair(s, layer.self_attn.k_proj)
            &&& holds_pair(s, layer.self_attn.v_proj)
            &&& holds_pair(s, layer.self_attn.o_proj)
            &&& holds_pair(s, layer.mlp.gate_proj)
            &&& holds_pair(s, layer.mlp.up_proj)
            &&& holds_pair(s, layer.mlp.down_proj)
            &&& s.contains(layer.mlp.gate_proj.weight)
            &&& s.contains(layer.mlp.up_proj.weight)
            &&& s.contains(layer.mlp.down_proj.weight)
            &&& s.contains(layer.input_layernorm.weight)
            &&& s.contains(layer.post_attention_layernorm.weight)
        }),
{
}

/// An MLlama layer with cross-attention leaves no adapter unevaluated.
pub proof fn law_mllama_cross_evaluates(layer: MllamaLoraDecoderLayer)
    requires
        layer.cross_attn is Some,
    ensures
        ({
            let s = layer.evaluated();
            &&& holds_pair(s, layer.cross_attn->0.q_proj)
            &&& holds_pair(s, layer.cross_attn->0.k_proj)
            &&& holds_pair(s, layer.cross_attn->0.v_proj)
            &&& holds_pair(s, layer.cross_attn->0.o_proj)
        }),
{
}

/// A Nemotron-H block with attention leaves no adapter unevaluated.
pub proof fn law_nemotron_attention_evaluates(layer: NemotronHLoraBlock)
    requires
        layer.mixer is Attention,
    ensures
        ({
            let s = layer.evaluated();
            &&& holds_pair(s, layer.mixer->Attention_0.q_proj)
            &&& holds_pair(s, layer.mixer->Attention_0.k_proj)
            &&& holds_pair(s, layer.mixer->Attention_0.v_proj)
            &&& holds_pair(s, layer.mixer->Attention_0.o_proj)
            &&& s.contains(layer.mixer->Attention_0.q_proj.weight)
            &&& s.contains(layer.mixer->Attention_0.k_proj.weight)
            &&& s.contains(layer.mixer->Attention_0.v_proj.weight)
            &&& s.contains(layer.mixer->Attention_0.o_proj.weight)
            &&& s.contains(layer.norm.weight)
        }),
{
}

/// A Nemotron-H block with an MLP leaves no adapter unevaluated.
pub proof fn law_nemotron_mlp_evaluates(layer: NemotronHLoraBlock)
    requires
        layer.mixer is Mlp,
    ensures
        ({
            let s = layer.evaluated();
            &&& holds_pair(s, layer.mixer->Mlp_0.up_proj)
            &&& holds_pair(s, layer.mixer->Mlp_0.down_proj)
            &&& s.contains(layer.mixer->Mlp_0.up_proj.weight)
            &&& s.contains(layer.mixer->Mlp_0.down_proj.weight)
            &&& s.contains(layer.norm.weight)
        }),
{
}

/// A Nemotron-H block with a shared expert leaves no adapter unevaluated.
pub proof fn law_nemotron_shared_evaluates(layer: NemotronHLoraBlock)
    requires
        layer.mixer is MoE && layer.mixer->MoE_0.shared_expert is Some,
    ensures
        ({
            let s = layer.evaluated();
            &&& holds_pair(s, layer.mixer->MoE_0.shared_expert->0.up_proj)
            &&& holds_pair(s, layer.mixer->MoE_0.shared_expert->0.down_proj)
            &&& s.contains(layer.mixer->MoE_0.shared_expert->0.up_proj.weight)
            &&& s.contains(layer.mixer->MoE_0.shared_expert->0.down_proj.weight)
            &&& s.contains(layer.norm.weight)
        }),
{
}

/// A quantized Nemotron-H block with attention leaves no adapter unevaluated.
pub proof fn law_nemotron_qlora_attention_evaluates(layer: NemotronHQloraBlock)
    requires
        layer.mixer is Attention,
    ensures
        ({
            let s = layer.evaluated();
            &&& holds_pair(s, layer.mixer->Attention_0.q_proj)
            &&& holds_pair(s, layer.mixer->Attention_0.k_proj)
            &&& holds_pair(s, layer.mixer->Attention_0.v_proj)
            &&& holds_pair(s, layer.mixer->Attention_0.o_proj)
            &&& s.contains(layer.norm.weight)
        }),
{
}

/// A quantized Nemotron-H block with an MLP leaves no adapter unevaluated.
pub proof fn law_nemotron_qlora_mlp_evaluates(layer: NemotronHQloraBlock)
    requires
        layer.mixer is Mlp,
    ensures
        ({
            let s = layer.evaluated();
            &&& holds_pair(s, layer.mixer->Mlp_0.up_proj)
            &&& holds_pair(s, layer.mixer->Mlp_0.down_proj)
            &&& s.contains(layer.norm.weight)
        }),
{
}

/// A quantized Nemotron-H block with a shared expert leaves no adapter unevaluated.
pub proof fn law_nemotron_qlora_shared_evaluates(layer: NemotronHQloraBlock)
    requires
        layer.mixer is MoE && layer.mixer->MoE_0.shared_expert is Some,
    ensures
        ({
            let s = layer.evaluated();
            &&& holds_pair(s, layer.mixer->MoE_0.shared_expert->0.up_proj)
            &&& holds_pair(s, layer.mixer->MoE_0.shared_expert->0.down_proj)
            &&& s.contains(layer.norm.weight)
        }),
{
}

/// A Qwen3-Next layer with full attention leaves no adapter unevaluated.
pub proof fn law_qwen3_next_full_evaluates(layer: Qwen3NextLoraDecoderLayer)
    requires
        layer.self_attn is Some,
    ensures
        ({
            let s = layer.evaluated();
            &&& holds_pair(s, layer.self_attn->0.q_proj)
            &&& holds_pair(s, layer.self_attn->0.k_proj)
            &&& holds_pair(s, layer.self_attn->0.v_proj)
            &&& holds_pair(s, layer.self_attn->0.o_proj)
            &&& s.contains(layer.self_attn->0.q_proj.weight)
            &&& s.contains(layer.self_attn->0.k_proj.weight)
            &&& s.contains(layer.self_attn->0.v_proj.weight)
            &&& s.contains(layer.self_attn->0.o_proj.weight)
            &&& s.contains(layer.input_layernorm.weight)
            &&& s.contains(layer.post_attention_layernorm.weight)
        }),
{
}

/// A Qwen3-Next layer with a gated delta rule leaves no adapter unevaluated.
pub proof fn law_qwen3_next_linear_evaluates(layer: Qwen3NextLoraDecoderLayer)
    requires
        layer.linear_attn is Some,
    ensures
        ({
            let s = layer.evaluated();
            &&& holds_pair(s, layer.linear_attn->0.in_proj_qkv)
            &&& holds_pair(s, layer.linear_attn->0.in_proj_z)
            &&& holds_pair(s, layer.linear_attn->0.out_proj)
            &&& s.contains(layer.linear_attn->0.in_proj_qkv.weight)
            &&& s.contains(layer.linear_attn->0.in_proj_z.weight)
            &&& s.contains(layer.linear_attn->0.out_proj.weight)
            &&& s.contains(layer.linear_attn->0.in_proj_a.weight)
            &&& s.contains(layer.linear_attn->0.in_proj_b.weight)
            &&& s.contains(layer.linear_attn->0.conv1d.weight)
            &&& s.contains(layer.linear_attn->0.dt_bias)
            &&& s.contains(layer.linear_attn->0.a_log)
            &&& s.contains(layer.linear_attn->0.norm.weight)
        }),
{
}

/// A Qwen3-Next layer with one MLP leaves no adapter unevaluated.
pub proof fn law_qwen3_next_dense_evaluates(layer: Qwen3NextLoraDecoderLayer)
    requires
        layer.mlp is Dense,
    ensures
        ({
            let s = layer.evaluated();
            &&& holds_pair(s, layer.mlp->Dense_0.gate_proj)
            &&& holds_pair(s, layer.mlp->Dense_0.up_proj)
            &&& holds_pair(s, layer.mlp->Dense_0.down_proj)
            &&& s.contains(layer.mlp->Dense_0.gate_proj.weight)
            &&& s.contains(layer.mlp->Dense_0.up_proj.weight)
            &&& s.contains(layer.mlp->Dense_0.down_proj.weight)
        }),
{
}

/// A Qwen3-Next layer with experts leaves no adapter unevaluated.
pub proof fn law_qwen3_next_sparse_evaluates(layer: Qwen3NextLoraDecoderLayer)
    requires
        layer.mlp is MoE,
    ensures
        ({
            let s = layer.evaluated();
            &&& holds_pair(s, layer.mlp->MoE_0.shared_expert.gate_proj)
            &&& holds_pair(s, layer.mlp->MoE_0.shared_expert.up_proj)
            &&& holds_pair(s, layer.mlp->MoE_0.shared_expert.down_proj)
            &&& s.contains(layer.mlp->MoE_0.shared_expert.gate_proj.weight)
            &&& s.contains(layer.mlp->MoE_0.shared_expert.up_proj.weight)
            &&& s.contains(layer.mlp->MoE_0.shared_expert.down_proj.weight)
            &&& s.contains(layer.mlp->MoE_0.gate.weight)
            &&& s.contains(layer.mlp->MoE_0.shared_expert_gate.weight)
            &&& s.contains(layer.mlp->MoE_0.switch_mlp_gate_proj)
            &&& s.contains(layer.mlp->MoE_0.switch_mlp_up_proj)
            &&& s.contains(layer.mlp->MoE_0.switch_mlp_down_proj)
        }),
{
}

/// A Qwen3-MoE layer with one MLP leaves no adapter unevaluated.
pub proof fn law_moe_lora_dense_evaluates(layer: Qwen3MoELoraDecoderLayer)
    requires
        layer.ffn is Dense,
    ensures
        ({
            let s = layer.evaluated();
            &&& holds_pair(s, layer.self_attn.q_proj)
            &&& holds_pair(s, layer.self_attn.k_proj)
            &&& holds_pair(s, layer.self_attn.v_proj)
            &&& holds_pair(s, layer.self_attn.o_proj)
            &&& holds_pair(s, layer.ffn->Dense_0.gate_proj)
            &&& holds_pair(s, layer.ffn->Dense_0.up_proj)
            &&& holds_pair(s, layer.ffn->Dense_0.down_proj)
            &&& s.contains(layer.self_attn.q_proj.weight)
            &&& s.contains(layer.self_attn.k_proj.weight)
            &&& s.contains(layer.self_attn.v_proj.weight)
            &&& s.contains(layer.self_attn.o_proj.weight)
            &&& s.contains(layer.ffn->Dense_0.gate_proj.weight)
            &&& s.contains(layer.ffn->Dense_0.up_proj.weight)
            &&& s.contains(layer.ffn->Dense_0.down_proj.weight)
            &&& s.contains(layer.input_layernorm.weight)
            &&& s.contains(layer.post_attention_layernorm.weight)
        }),
{
}

/// A Qwen3-MoE layer with experts leaves no adapter unevaluated.
pub proof fn law_moe_lora_sparse_evaluates(layer: Qwen3MoELoraDecoderLayer)
    requires
        layer.ffn is MoE,
    ensures
        ({
            let s = layer.evaluated();
            &&& holds_pair(s, layer.self_attn.q_proj)
            &&& holds_pair(s, layer.self_attn.k_proj)
            &&& holds_pair(s, layer.self_attn.v_proj)
            &&& holds_pair(s, layer.self_attn.o_proj)
            &&& holds_pair(s, layer.ffn->MoE_0.gate)
            &&& s.contains(layer.self_attn.q_proj.weight)
            &&& s.contains(layer.self_attn.k_proj.weight)
            &&& s.contains(layer.self_attn.v_proj.weight)
            &&& s.contains(layer.self_attn.o_proj.weight)
            &&& s.contains(layer.ffn->MoE_0.gate.weight)
            &&& s.contains(layer.input_layernorm.weight)
            &&& s.contains(layer.post_attention_layernorm.weight)
        }),
{
}

} // verus!
