//! Which name a frozen weight is loaded under.

use crate::array::{Array, Function, Node};
use crate::dora::LinearAdapter;
use crate::lora::LoraLinear;
use crate::mistral_lora::MistralLoraDecoderLayer;
use crate::mllama_lora::MllamaLoraDecoderLayer;
use crate::names::{decimal, dotted};
use crate::naming_laws::{
    held_under, law_cross_attn_k_spelled, law_cross_attn_o_spelled, law_cross_attn_q_spelled,
    law_cross_attn_v_spelled, law_linear_attn_in_qkv_spelled, law_linear_attn_in_z_spelled,
    law_linear_attn_out_spelled, law_mixer_down_spelled, law_mixer_k_spelled, law_mixer_o_spelled,
    law_mixer_q_spelled, law_mixer_up_spelled, law_mixer_v_spelled, law_mlp_down_spelled,
    law_mlp_gate_spelled, law_mlp_gate_up_spelled, law_mlp_shared_expert_down_spelled,
    law_mlp_shared_expert_gate_spelled, law_mlp_shared_expert_up_spelled, law_mlp_up_spelled,
    law_part_name_spelled, law_self_attn_k_spelled, law_self_attn_o_spelled,
    law_self_attn_q_spelled, law_self_attn_v_spelled, lemma_roots, spelled,
};
use crate::nemotron_h_lora::{NemotronHLoraBlock, expert_name, loaded_expert};
use crate::nn::{Linear, RmsNorm};
use crate::phi_lora::PhiLoraDecoderLayer;
use crate::phi_qlora::PhiQloraDecoderLayer;
use crate::qlora::{QLoraConfig, QLoraLinear};
use crate::qwen3_lora::Qwen3LoraDecoderLayer;
use crate::qwen3_next_lora::Qwen3NextLoraDecoderLayer;
use crate::reading::{group_nodes, is_function};
use vstd::prelude::*;
use vstd::string::*;

verus! {

/// The layer has the weight of that name, where there is one, and is else as it was; its adapter
/// is as it was in any case, and no longer merged where the weight is new.
pub open spec fn frozen_under(
    before: LoraLinear,
    after: LoraLinear,
    weights: Map<Seq<char>, Array>,
    name: Seq<char>,
) -> bool {
    &&& after.weight == held_under(weights, name, before.weight)
    &&& after.merged == (before.merged && !weights.contains_key(name))
    &&& after.lora_a == before.lora_a && after.lora_b == before.lora_b
    &&& after.scale == before.scale && after.rank == before.rank
    &&& after.in_features == before.in_features && after.out_features == before.out_features
}

/// The same of an adapter of either kind.
pub open spec fn adapter_frozen_under(
    before: LinearAdapter,
    after: LinearAdapter,
    weights: Map<Seq<char>, Array>,
    name: Seq<char>,
) -> bool {
    match (before, after) {
        (LinearAdapter::Lora(b), LinearAdapter::Lora(a)) => frozen_under(b, a, weights, name)
            && a.bias == b.bias,
        (LinearAdapter::Dora(b), LinearAdapter::Dora(a)) => {
            &&& a.weight == held_under(weights, name, b.weight)
            &&& a.merged == (b.merged && !weights.contains_key(name))
            &&& a.lora_a == b.lora_a && a.lora_b == b.lora_b && a.magnitude == b.magnitude
            &&& a.scale == b.scale && a.bias == b.bias
        },
        _ => false,
    }
}

/// The normalization has the weight of that name, where there is one.
pub open spec fn norm_under(
    before: RmsNorm,
    after: RmsNorm,
    weights: Map<Seq<char>, Array>,
    name: Seq<char>,
) -> bool {
    after.weight == held_under(weights, name, before.weight) && after.eps == before.eps
}

/// The linear layer has the weight of that name, where there is one.
pub open spec fn linear_under(
    before: Linear,
    after: Linear,
    weights: Map<Seq<char>, Array>,
    name: Seq<char>,
) -> bool {
    after.weight == held_under(weights, name, before.weight) && after.bias == before.bias
}

/// The array of that name, where there is one; else the other, if any.
pub open spec fn option_under(
    before: Option<Array>,
    after: Option<Array>,
    weights: Map<Seq<char>, Array>,
    name: Seq<char>,
) -> bool {
    after == (if weights.contains_key(name) {
        Some(weights[name])
    } else {
        before
    })
}

/// Each frozen part of a Mistral layer is loaded under its own name, and stays where that is
/// missing.
pub proof fn law_mistral_loaded_by_name(
    before: MistralLoraDecoderLayer,
    i: nat,
    weights: Map<Seq<char>, Array>,
)
    ensures
        ({
            let after = before.loaded(i, weights);
            &&& frozen_under(
                before.self_attn.q_proj,
                after.self_attn.q_proj,
                weights,
                spelled("model.layers."@, i, "self_attn.q_proj.weight"@),
            )
            &&& after.self_attn.q_proj.bias == before.self_attn.q_proj.bias
            &&& frozen_under(
                before.self_attn.k_proj,
                after.self_attn.k_proj,
                weights,
                spelled("model.layers."@, i, "self_attn.k_proj.weight"@),
            )
            &&& after.self_attn.k_proj.bias == before.self_attn.k_proj.bias
            &&& frozen_under(
                before.self_attn.v_proj,
                after.self_attn.v_proj,
                weights,
                spelled("model.layers."@, i, "self_attn.v_proj.weight"@),
            )
            &&& after.self_attn.v_proj.bias == before.self_attn.v_proj.bias
            &&& frozen_under(
                before.self_attn.o_proj,
                after.self_attn.o_proj,
                weights,
                spelled("model.layers."@, i, "self_attn.o_proj.weight"@),
            )
            &&& after.self_attn.o_proj.bias == before.self_attn.o_proj.bias
            &&& frozen_under(
                before.mlp.gate_proj,
                after.mlp.gate_proj,
                weights,
                spelled("model.layers."@, i, "mlp.gate_proj.weight"@),
            )
            &&& after.mlp.gate_proj.bias == before.mlp.gate_proj.bias
            &&& frozen_under(
                before.mlp.up_proj,
                after.mlp.up_proj,
                weights,
                spelled("model.layers."@, i, "mlp.up_proj.weight"@),
            )
            &&& after.mlp.up_proj.bias == before.mlp.up_proj.bias
            &&& frozen_under(
                before.mlp.down_proj,
                after.mlp.down_proj,
                weights,
                spelled("model.layers."@, i, "mlp.down_proj.weight"@),
            )
            &&& after.mlp.down_proj.bias == before.mlp.down_proj.bias
            &&& norm_under(
                before.input_layernorm,
                after.input_layernorm,
                weights,
                spelled("model.layers."@, i, "input_layernorm.weight"@),
            )
            &&& norm_under(
                before.post_attention_layernorm,
                after.post_attention_layernorm,
                weights,
                spelled("model.layers."@, i, "post_attention_layernorm.weight"@),
            )
        }),
{
    lemma_roots();
    law_mlp_down_spelled("model"@, i);
    law_mlp_gate_spelled("model"@, i);
    law_mlp_up_spelled("model"@, i);
    law_part_name_spelled("model"@, i, "input_layernorm.weight"@);
    law_part_name_spelled("model"@, i, "post_attention_layernorm.weight"@);
    law_self_attn_k_spelled("model"@, i);
    law_self_attn_o_spelled("model"@, i);
    law_self_attn_q_spelled("model"@, i);
    law_self_attn_v_spelled("model"@, i);
}

/// Each frozen part of a Qwen3 layer is loaded under its own name, and stays where that is missing.
pub proof fn law_qwen3_loaded_by_name(
    before: Qwen3LoraDecoderLayer,
    i: nat,
    weights: Map<Seq<char>, Array>,
)
    ensures
        ({
            let after = before.loaded(i, weights);
            &&& frozen_under(
                before.self_attn.q_proj,
                after.self_attn.q_proj,
                weights,
                spelled("model.layers."@, i, "self_attn.q_proj.weight"@),
            )
            &&& after.self_attn.q_proj.bias == before.self_attn.q_proj.bias
            &&& frozen_under(
                before.self_attn.k_proj,
                after.self_attn.k_proj,
                weights,
                spelled("model.layers."@, i, "self_attn.k_proj.weight"@),
            )
            &&& after.self_attn.k_proj.bias == before.self_attn.k_proj.bias
            &&& frozen_under(
                before.self_attn.v_proj,
                after.self_attn.v_proj,
                weights,
                spelled("model.layers."@, i, "self_attn.v_proj.weight"@),
            )
            &&& after.self_attn.v_proj.bias == before.self_attn.v_proj.bias
            &&& frozen_under(
                before.self_attn.o_proj,
                after.self_attn.o_proj,
                weights,
                spelled("model.layers."@, i, "self_attn.o_proj.weight"@),
            )
            &&& after.self_attn.o_proj.bias == before.self_attn.o_proj.bias
            &&& norm_under(
                before.self_attn.q_norm,
                after.self_attn.q_norm,
                weights,
                spelled("model.layers."@, i, "self_attn.q_norm.weight"@),
            )
            &&& norm_under(
                before.self_attn.k_norm,
                after.self_attn.k_norm,
                weights,
                spelled("model.layers."@, i, "self_attn.k_norm.weight"@),
            )
            &&& frozen_under(
                before.mlp.gate_proj,
                after.mlp.gate_proj,
                weights,
                spelled("model.layers."@, i, "mlp.gate_proj.weight"@),
            )
            &&& after.mlp.gate_proj.bias == before.mlp.gate_proj.bias
            &&& frozen_under(
                before.mlp.up_proj,
                after.mlp.up_proj,
                weights,
                spelled("model.layers."@, i, "mlp.up_proj.weight"@),
            )
            &&& after.mlp.up_proj.bias == before.mlp.up_proj.bias
            &&& frozen_under(
                before.mlp.down_proj,
                after.mlp.down_proj,
                weights,
                spelled("model.layers."@, i, "mlp.down_proj.weight"@),
            )
            &&& after.mlp.down_proj.bias == before.mlp.down_proj.bias
            &&& norm_under(
                before.input_layernorm,
                after.input_layernorm,
                weights,
                spelled("model.layers."@, i, "input_layernorm.weight"@),
            )
            &&& norm_under(
                before.post_attention_layernorm,
                after.post_attention_layernorm,
                weights,
                spelled("model.layers."@, i, "post_attention_layernorm.weight"@),
            )
        }),
{
    lemma_roots();
    law_mlp_down_spelled("model"@, i);
    law_mlp_gate_spelled("model"@, i);
    law_mlp_up_spelled("model"@, i);
    law_part_name_spelled("model"@, i, "input_layernorm.weight"@);
    law_part_name_spelled("model"@, i, "post_attention_layernorm.weight"@);
    law_part_name_spelled("model"@, i, "self_attn.k_norm.weight"@);
    law_part_name_spelled("model"@, i, "self_attn.q_norm.weight"@);
    law_self_attn_k_spelled("model"@, i);
    law_self_attn_o_spelled("model"@, i);
    law_self_attn_q_spelled("model"@, i);
    law_self_attn_v_spelled("model"@, i);
}

/// Each frozen part of a Phi layer is loaded under its own name, and stays where that is missing.
pub proof fn law_phi_loaded_by_name(
    before: PhiLoraDecoderLayer,
    i: nat,
    weights: Map<Seq<char>, Array>,
)
    ensures
        ({
            let after = before.loaded(i, weights);
            &&& frozen_under(
                before.self_attn.q_proj,
                after.self_attn.q_proj,
                weights,
                spelled("model.layers."@, i, "self_attn.q_proj.weight"@),
            )
            &&& frozen_under(
                before.self_attn.k_proj,
                after.self_attn.k_proj,
                weights,
                spelled("model.layers."@, i, "self_attn.k_proj.weight"@),
            )
            &&& frozen_under(
                before.self_attn.v_proj,
                after.self_attn.v_proj,
                weights,
                spelled("model.layers."@, i, "self_attn.v_proj.weight"@),
            )
            &&& frozen_under(
                before.self_attn.o_proj,
                after.self_attn.o_proj,
                weights,
                spelled("model.layers."@, i, "self_attn.o_proj.weight"@),
            )
            &&& frozen_under(
                before.mlp.gate_up_proj,
                after.mlp.gate_up_proj,
                weights,
                spelled("model.layers."@, i, "mlp.gate_up_proj.weight"@),
            )
            &&& frozen_under(
                before.mlp.down_proj,
                after.mlp.down_proj,
                weights,
                spelled("model.layers."@, i, "mlp.down_proj.weight"@),
            )
            &&& norm_under(
                before.input_layernorm,
                after.input_layernorm,
                weights,
                spelled("model.layers."@, i, "input_layernorm.weight"@),
            )
            &&& norm_under(
                before.post_attention_layernorm,
                after.post_attention_layernorm,
                weights,
                spelled("model.layers."@, i, "post_attention_layernorm.weight"@),
            )
            &&& option_under(
                before.self_attn.q_proj.bias,
                after.self_attn.q_proj.bias,
                weights,
                spelled("model.layers."@, i, "self_attn.q_proj.bias"@),
            )
            &&& option_under(
                before.self_attn.k_proj.bias,
                after.self_attn.k_proj.bias,
                weights,
                spelled("model.layers."@, i, "self_attn.k_proj.bias"@),
            )
            &&& option_under(
                before.self_attn.v_proj.bias,
                after.self_attn.v_proj.bias,
                weights,
                spelled("model.layers."@, i, "self_attn.v_proj.bias"@),
            )
            &&& after.self_attn.o_proj.bias == before.self_attn.o_proj.bias
            &&& after.mlp.gate_up_proj.bias == before.mlp.gate_up_proj.bias
            &&& after.mlp.down_proj.bias == before.mlp.down_proj.bias
        }),
{
    lemma_roots();
    law_mlp_down_spelled("model"@, i);
    law_mlp_gate_up_spelled("model"@, i);
    law_part_name_spelled("model"@, i, "input_layernorm.weight"@);
    law_part_name_spelled("model"@, i, "post_attention_layernorm.weight"@);
    law_part_name_spelled("model"@, i, "self_attn.k_proj.bias"@);
    law_part_name_spelled("model"@, i, "self_attn.q_proj.bias"@);
    law_part_name_spelled("model"@, i, "self_attn.v_proj.bias"@);
    law_self_attn_k_spelled("model"@, i);
    law_self_attn_o_spelled("model"@, i);
    law_self_attn_q_spelled("model"@, i);
    law_self_attn_v_spelled("model"@, i);
}

/// Each frozen part of an MLlama layer is loaded under its own name, and stays where that is
/// missing.
pub proof fn law_mllama_loaded_by_name(
    before: MllamaLoraDecoderLayer,
    i: nat,
    weights: Map<Seq<char>, Array>,
)
    ensures
        ({
            let after = before.loaded(i, weights);
            &&& adapter_frozen_under(
                before.self_attn.q_proj,
                after.self_attn.q_proj,
                weights,
                spelled("language_model.model.layers."@, i, "self_attn.q_proj.weight"@),
            )
            &&& adapter_frozen_under(
                before.self_attn.k_proj,
                after.self_attn.k_proj,
                weights,
                spelled("language_model.model.layers."@, i, "self_attn.k_proj.weight"@),
            )
            &&& adapter_frozen_under(
                before.self_attn.v_proj,
                after.self_attn.v_proj,
                weights,
                spelled("language_model.model.layers."@, i, "self_attn.v_proj.weight"@),
            )
            &&& adapter_frozen_under(
                before.self_attn.o_proj,
                after.self_attn.o_proj,
                weights,
                spelled("language_model.model.layers."@, i, "self_attn.o_proj.weight"@),
            )
            &&& frozen_under(
                before.mlp.gate_proj,
                after.mlp.gate_proj,
                weights,
                spelled("language_model.model.layers."@, i, "mlp.gate_proj.weight"@),
            )
            &&& after.mlp.gate_proj.bias == before.mlp.gate_proj.bias
            &&& frozen_under(
                before.mlp.up_proj,
                after.mlp.up_proj,
                weights,
                spelled("language_model.model.layers."@, i, "mlp.up_proj.weight"@),
            )
            &&& after.mlp.up_proj.bias == before.mlp.up_proj.bias
            &&& frozen_under(
                before.mlp.down_proj,
                after.mlp.down_proj,
                weights,
                spelled("language_model.model.layers."@, i, "mlp.down_proj.weight"@),
            )
            &&& after.mlp.down_proj.bias == before.mlp.down_proj.bias
            &&& norm_under(
                before.input_layernorm,
                after.input_layernorm,
                weights,
                spelled("language_model.model.layers."@, i, "input_layernorm.weight"@),
            )
            &&& norm_under(
                before.post_attention_layernorm,
                after.post_attention_layernorm,
                weights,
                spelled("language_model.model.layers."@, i, "post_attention_layernorm.weight"@),
            )
        }),
{
    lemma_roots();
    law_mlp_down_spelled("language_model.model"@, i);
    law_mlp_gate_spelled("language_model.model"@, i);
    law_mlp_up_spelled("language_model.model"@, i);
    law_part_name_spelled("language_model.model"@, i, "input_layernorm.weight"@);
    law_part_name_spelled("language_model.model"@, i, "post_attention_layernorm.weight"@);
    law_self_attn_k_spelled("language_model.model"@, i);
    law_self_attn_o_spelled("language_model.model"@, i);
    law_self_attn_q_spelled("language_model.model"@, i);
    law_self_attn_v_spelled("language_model.model"@, i);
}

/// Each frozen part of an MLlama layer with cross-attention is loaded under its own name, and stays
/// where that is missing.
pub proof fn law_mllama_cross_loaded_by_name(
    before: MllamaLoraDecoderLayer,
    i: nat,
    weights: Map<Seq<char>, Array>,
)
    requires
        before.cross_attn is Some,
        before.cross_attention_layernorm is Some,
    ensures
        before.loaded(i, weights).cross_attn is Some,
        before.loaded(i, weights).cross_attention_layernorm is Some,
        ({
            let after = before.loaded(i, weights);
            &&& adapter_frozen_under(
                before.cross_attn->0.q_proj,
                after.cross_attn->0.q_proj,
                weights,
                spelled("language_model.model.layers."@, i, "cross_attn.q_proj.weight"@),
            )
            &&& adapter_frozen_under(
                before.cross_attn->0.k_proj,
                after.cross_attn->0.k_proj,
                weights,
                spelled("language_model.model.layers."@, i, "cross_attn.k_proj.weight"@),
            )
            &&& adapter_frozen_under(
                before.cross_attn->0.v_proj,
                after.cross_attn->0.v_proj,
                weights,
                spelled("language_model.model.layers."@, i, "cross_attn.v_proj.weight"@),
            )
            &&& adapter_frozen_under(
                before.cross_attn->0.o_proj,
                after.cross_attn->0.o_proj,
                weights,
                spelled("language_model.model.layers."@, i, "cross_attn.o_proj.weight"@),
            )
            &&& norm_under(
                before.cross_attention_layernorm->0,
                after.cross_attention_layernorm->0,
                weights,
                spelled("language_model.model.layers."@, i, "cross_attention_layernorm.weight"@),
            )
        }),
{
    lemma_roots();
    law_cross_attn_k_spelled("language_model.model"@, i);
    law_cross_attn_o_spelled("language_model.model"@, i);
    law_cross_attn_q_spelled("language_model.model"@, i);
    law_cross_attn_v_spelled("language_model.model"@, i);
    law_part_name_spelled("language_model.model"@, i, "cross_attention_layernorm.weight"@);
}

/// Each frozen part of a Qwen3-Next layer is loaded under its own name, and stays where that is
/// missing.
pub proof fn law_qwen3_next_norms_loaded_by_name(
    before: Qwen3NextLoraDecoderLayer,
    i: nat,
    weights: Map<Seq<char>, Array>,
)
    ensures
        ({
            let after = before.loaded(i, weights);
            &&& norm_under(
                before.input_layernorm,
                after.input_layernorm,
                weights,
                spelled("model.layers."@, i, "input_layernorm.weight"@),
            )
            &&& norm_under(
                before.post_attention_layernorm,
                after.post_attention_layernorm,
                weights,
                spelled("model.layers."@, i, "post_attention_layernorm.weight"@),
            )
            &&& after.is_linear == before.is_linear
        }),
{
    lemma_roots();
    law_part_name_spelled("model"@, i, "input_layernorm.weight"@);
    law_part_name_spelled("model"@, i, "post_attention_layernorm.weight"@);
}

/// Each frozen part of a Qwen3-Next layer with full attention is loaded under its own name, and
/// stays where that is missing.
pub proof fn law_qwen3_next_full_loaded_by_name(
    before: Qwen3NextLoraDecoderLayer,
    i: nat,
    weights: Map<Seq<char>, Array>,
)
    requires
        before.self_attn is Some,
    ensures
        before.loaded(i, weights).self_attn is Some,
        ({
            let after = before.loaded(i, weights);
            &&& frozen_under(
                before.self_attn->0.q_proj,
                after.self_attn->0.q_proj,
                weights,
                spelled("model.layers."@, i, "self_attn.q_proj.weight"@),
            )
            &&& after.self_attn->0.q_proj.bias == before.self_attn->0.q_proj.bias
            &&& frozen_under(
                before.self_attn->0.k_proj,
                after.self_attn->0.k_proj,
                weights,
                spelled("model.layers."@, i, "self_attn.k_proj.weight"@),
            )
            &&& after.self_attn->0.k_proj.bias == before.self_attn->0.k_proj.bias
            &&& frozen_under(
                before.self_attn->0.v_proj,
                after.self_attn->0.v_proj,
                weights,
                spelled("model.layers."@, i, "self_attn.v_proj.weight"@),
            )
            &&& after.self_attn->0.v_proj.bias == before.self_attn->0.v_proj.bias
            &&& frozen_under(
                before.self_attn->0.o_proj,
                after.self_attn->0.o_proj,
                weights,
                spelled("model.layers."@, i, "self_attn.o_proj.weight"@),
            )
            &&& after.self_attn->0.o_proj.bias == before.self_attn->0.o_proj.bias
            &&& norm_under(
                before.self_attn->0.q_norm,
                after.self_attn->0.q_norm,
                weights,
                spelled("model.layers."@, i, "self_attn.q_norm.weight"@),
            )
            &&& norm_under(
                before.self_attn->0.k_norm,
                after.self_attn->0.k_norm,
                weights,
                spelled("model.layers."@, i, "self_attn.k_norm.weight"@),
            )
        }),
{
    lemma_roots();
    law_part_name_spelled("model"@, i, "self_attn.k_norm.weight"@);
    law_part_name_spelled("model"@, i, "self_attn.q_norm.weight"@);
    law_self_attn_k_spelled("model"@, i);
    law_self_attn_o_spelled("model"@, i);
    law_self_attn_q_spelled("model"@, i);
    law_self_attn_v_spelled("model"@, i);
}

/// Each frozen part of a Qwen3-Next layer with a gated delta rule is loaded under its own name, and
/// stays where that is missing.
pub proof fn law_qwen3_next_linear_loaded_by_name(
    before: Qwen3NextLoraDecoderLayer,
    i: nat,
    weights: Map<Seq<char>, Array>,
)
    requires
        before.linear_attn is Some,
    ensures
        before.loaded(i, weights).linear_attn is Some,
        ({
            let after = before.loaded(i, weights);
            &&& frozen_under(
                before.linear_attn->0.in_proj_qkv,
                after.linear_attn->0.in_proj_qkv,
                weights,
                spelled("model.layers."@, i, "linear_attn.in_proj_qkv.weight"@),
            )
            &&& after.linear_attn->0.in_proj_qkv.bias == before.linear_attn->0.in_proj_qkv.bias
            &&& frozen_under(
                before.linear_attn->0.in_proj_z,
                after.linear_attn->0.in_proj_z,
                weights,
                spelled("model.layers."@, i, "linear_attn.in_proj_z.weight"@),
            )
            &&& after.linear_attn->0.in_proj_z.bias == before.linear_attn->0.in_proj_z.bias
            &&& frozen_under(
                before.linear_attn->0.out_proj,
                after.linear_attn->0.out_proj,
                weights,
                spelled("model.layers."@, i, "linear_attn.out_proj.weight"@),
            )
            &&& after.linear_attn->0.out_proj.bias == before.linear_attn->0.out_proj.bias
            &&& linear_under(
                before.linear_attn->0.in_proj_a,
                after.linear_attn->0.in_proj_a,
                weights,
                spelled("model.layers."@, i, "linear_attn.in_proj_a.weight"@),
            )
            &&& linear_under(
                before.linear_attn->0.in_proj_b,
                after.linear_attn->0.in_proj_b,
                weights,
                spelled("model.layers."@, i, "linear_attn.in_proj_b.weight"@),
            )
            &&& after.linear_attn->0.conv1d.weight == held_under(
                weights,
                spelled("model.layers."@, i, "linear_attn.conv1d.weight"@),
                before.linear_attn->0.conv1d.weight,
            )
            &&& after.linear_attn->0.conv1d.bias == before.linear_attn->0.conv1d.bias
            &&& after.linear_attn->0.dt_bias == held_under(
                weights,
                spelled("model.layers."@, i, "linear_attn.dt_bias"@),
                before.linear_attn->0.dt_bias,
            )
            &&& after.linear_attn->0.a_log == held_under(
                weights,
                spelled("model.layers."@, i, "linear_attn.a_log"@),
                before.linear_attn->0.a_log,
            )
            &&& after.linear_attn->0.norm.weight == held_under(
                weights,
                spelled("model.layers."@, i, "linear_attn.norm.weight"@),
                before.linear_attn->0.norm.weight,
            )
            &&& after.linear_attn->0.norm.eps == before.linear_attn->0.norm.eps
        }),
{
    lemma_roots();
    law_linear_attn_in_qkv_spelled("model"@, i);
    law_linear_attn_in_z_spelled("model"@, i);
    law_linear_attn_out_spelled("model"@, i);
    law_part_name_spelled("model"@, i, "linear_attn.a_log"@);
    law_part_name_spelled("model"@, i, "linear_attn.conv1d.weight"@);
    law_part_name_spelled("model"@, i, "linear_attn.dt_bias"@);
    law_part_name_spelled("model"@, i, "linear_attn.in_proj_a.weight"@);
    law_part_name_spelled("model"@, i, "linear_attn.in_proj_b.weight"@);
    law_part_name_spelled("model"@, i, "linear_attn.norm.weight"@);
}

/// Each frozen part of a Qwen3-Next layer with one MLP is loaded under its own name, and stays
/// where that is missing.
pub proof fn law_qwen3_next_dense_loaded_by_name(
    before: Qwen3NextLoraDecoderLayer,
    i: nat,
    weights: Map<Seq<char>, Array>,
)
    requires
        before.mlp is Dense,
    ensures
        before.loaded(i, weights).mlp is Dense,
        ({
            let after = before.loaded(i, weights);
            &&& frozen_under(
                before.mlp->Dense_0.gate_proj,
                after.mlp->Dense_0.gate_proj,
                weights,
                spelled("model.layers."@, i, "mlp.gate_proj.weight"@),
            )
            &&& after.mlp->Dense_0.gate_proj.bias == before.mlp->Dense_0.gate_proj.bias
            &&& frozen_under(
                before.mlp->Dense_0.up_proj,
                after.mlp->Dense_0.up_proj,
                weights,
                spelled("model.layers."@, i, "mlp.up_proj.weight"@),
            )
            &&& after.mlp->Dense_0.up_proj.bias == before.mlp->Dense_0.up_proj.bias
            &&& frozen_under(
                before.mlp->Dense_0.down_proj,
                after.mlp->Dense_0.down_proj,
                weights,
                spelled("model.layers."@, i, "mlp.down_proj.weight"@),
            )
            &&& after.mlp->Dense_0.down_proj.bias == before.mlp->Dense_0.down_proj.bias
        }),
{
    lemma_roots();
    law_mlp_down_spelled("model"@, i);
    law_mlp_gate_spelled("model"@, i);
    law_mlp_up_spelled("model"@, i);
}

/// Each frozen part of a Qwen3-Next layer with experts is loaded under its own name, and stays
/// where that is missing.
pub proof fn law_qwen3_next_sparse_loaded_by_name(
    before: Qwen3NextLoraDecoderLayer,
    i: nat,
    weights: Map<Seq<char>, Array>,
)
    requires
        before.mlp is MoE,
    ensures
        before.loaded(i, weights).mlp is MoE,
        ({
            let after = before.loaded(i, weights);
            &&& frozen_under(
                before.mlp->MoE_0.shared_expert.gate_proj,
                after.mlp->MoE_0.shared_expert.gate_proj,
                weights,
                spelled("model.layers."@, i, "mlp.shared_expert.gate_proj.weight"@),
            )
            &&& after.mlp->MoE_0.shared_expert.gate_proj.bias
                == before.mlp->MoE_0.shared_expert.gate_proj.bias
            &&& frozen_under(
                before.mlp->MoE_0.shared_expert.up_proj,
                after.mlp->MoE_0.shared_expert.up_proj,
                weights,
                spelled("model.layers."@, i, "mlp.shared_expert.up_proj.weight"@),
            )
            &&& after.mlp->MoE_0.shared_expert.up_proj.bias
                == before.mlp->MoE_0.shared_expert.up_proj.bias
            &&& frozen_under(
                before.mlp->MoE_0.shared_expert.down_proj,
                after.mlp->MoE_0.shared_expert.down_proj,
                weights,
                spelled("model.layers."@, i, "mlp.shared_expert.down_proj.weight"@),
            )
            &&& after.mlp->MoE_0.shared_expert.down_proj.bias
                == before.mlp->MoE_0.shared_expert.down_proj.bias
            &&& linear_under(
                before.mlp->MoE_0.gate,
                after.mlp->MoE_0.gate,
                weights,
                spelled("model.layers."@, i, "mlp.gate.weight"@),
            )
            &&& linear_under(
                before.mlp->MoE_0.shared_expert_gate,
                after.mlp->MoE_0.shared_expert_gate,
                weights,
                spelled("model.layers."@, i, "mlp.shared_expert_gate.weight"@),
            )
            &&& after.mlp->MoE_0.switch_mlp_gate_proj == held_under(
                weights,
                spelled("model.layers."@, i, "mlp.switch_mlp.gate_proj.weight"@),
                before.mlp->MoE_0.switch_mlp_gate_proj,
            )
            &&& after.mlp->MoE_0.switch_mlp_up_proj == held_under(
                weights,
                spelled("model.layers."@, i, "mlp.switch_mlp.up_proj.weight"@),
                before.mlp->MoE_0.switch_mlp_up_proj,
            )
            &&& after.mlp->MoE_0.switch_mlp_down_proj == held_under(
                weights,
                spelled("model.layers."@, i, "mlp.switch_mlp.down_proj.weight"@),
                before.mlp->MoE_0.switch_mlp_down_proj,
            )
            &&& after.mlp->MoE_0.top_k == before.mlp->MoE_0.top_k
            &&& after.mlp->MoE_0.norm_topk_prob == before.mlp->MoE_0.norm_topk_prob
        }),
{
    lemma_roots();
    law_mlp_shared_expert_down_spelled("model"@, i);
    law_mlp_shared_expert_gate_spelled("model"@, i);
    law_mlp_shared_expert_up_spelled("model"@, i);
    law_part_name_spelled("model"@, i, "mlp.gate.weight"@);
    law_part_name_spelled("model"@, i, "mlp.shared_expert_gate.weight"@);
    law_part_name_spelled("model"@, i, "mlp.switch_mlp.down_proj.weight"@);
    law_part_name_spelled("model"@, i, "mlp.switch_mlp.gate_proj.weight"@);
    law_part_name_spelled("model"@, i, "mlp.switch_mlp.up_proj.weight"@);
}

/// Each frozen part of a Nemotron-H block is loaded under its own name, where the block is of the
/// listed kind, and stays where that is missing. A block of another kind keeps its mixer.
pub proof fn law_nemotron_loaded_by_name(
    before: NemotronHLoraBlock,
    after: NemotronHLoraBlock,
    i: nat,
    listed: char,
    weights: Map<Seq<char>, Array>,
)
    requires
        before.loaded_to(after, i, listed, weights),
    ensures
        norm_under(
            before.norm,
            after.norm,
            weights,
            spelled("backbone.layers."@, i, "norm.weight"@),
        ),
        before.mixer is Attention && listed != 'M' && listed != '-' && listed != 'E' ==> {
            let b = before.mixer->Attention_0;
            let a = after.mixer->Attention_0;
            &&& after.mixer is Attention
            &&& frozen_under(
                b.q_proj,
                a.q_proj,
                weights,
                spelled("backbone.layers."@, i, "mixer.q_proj.weight"@),
            )
            &&& a.q_proj.bias == b.q_proj.bias
            &&& frozen_under(
                b.k_proj,
                a.k_proj,
                weights,
                spelled("backbone.layers."@, i, "mixer.k_proj.weight"@),
            )
            &&& a.k_proj.bias == b.k_proj.bias
            &&& frozen_under(
                b.v_proj,
                a.v_proj,
                weights,
                spelled("backbone.layers."@, i, "mixer.v_proj.weight"@),
            )
            &&& a.v_proj.bias == b.v_proj.bias
            &&& frozen_under(
                b.o_proj,
                a.o_proj,
                weights,
                spelled("backbone.layers."@, i, "mixer.o_proj.weight"@),
            )
            &&& a.o_proj.bias == b.o_proj.bias
            &&& a.num_heads == b.num_heads && a.num_kv_heads == b.num_kv_heads
            &&& a.head_dim == b.head_dim && a.scale == b.scale && a.rope_theta == b.rope_theta
        },
        before.mixer is Mlp && listed == '-' ==> {
            let b = before.mixer->Mlp_0;
            let a = after.mixer->Mlp_0;
            &&& after.mixer is Mlp
            &&& frozen_under(
                b.up_proj,
                a.up_proj,
                weights,
                spelled("backbone.layers."@, i, "mixer.up_proj.weight"@),
            )
            &&& a.up_proj.bias == b.up_proj.bias
            &&& frozen_under(
                b.down_proj,
                a.down_proj,
                weights,
                spelled("backbone.layers."@, i, "mixer.down_proj.weight"@),
            )
            &&& a.down_proj.bias == b.down_proj.bias
        },
        before.mixer is MoE && listed == 'E' ==> {
            let b = before.mixer->MoE_0;
            let a = after.mixer->MoE_0;
            &&& after.mixer is MoE
            &&& linear_under(
                b.moe_layer.router.gate,
                a.moe_layer.router.gate,
                weights,
                spelled("backbone.layers."@, i, "mixer.gate.weight"@),
            )
            &&& a.moe_layer.router.e_score_correction_bias == held_under(
                weights,
                spelled("backbone.layers."@, i, "mixer.gate.e_score_correction_bias"@),
                b.moe_layer.router.e_score_correction_bias,
            )
            &&& b.shared_expert is Some ==> {
                &&& a.shared_expert is Some
                &&& frozen_under(
                    b.shared_expert->0.up_proj,
                    a.shared_expert->0.up_proj,
                    weights,
                    spelled("backbone.layers."@, i, "mixer.shared_experts.up_proj.weight"@),
                )
                &&& frozen_under(
                    b.shared_expert->0.down_proj,
                    a.shared_expert->0.down_proj,
                    weights,
                    spelled("backbone.layers."@, i, "mixer.shared_experts.down_proj.weight"@),
                )
            }
            &&& a.moe_layer.experts@.len() == b.moe_layer.experts@.len()
        },
        before.mixer is Mamba && listed == 'M' ==> {
            let b = before.mixer->Mamba_0;
            let a = after.mixer->Mamba_0;
            &&& after.mixer is Mamba
            &&& option_under(
                b.a_log,
                a.a_log,
                weights,
                spelled("backbone.layers."@, i, "mixer.A_log"@),
            )
            &&& option_under(b.d, a.d, weights, spelled("backbone.layers."@, i, "mixer.D"@))
            &&& option_under(
                b.dt_bias,
                a.dt_bias,
                weights,
                spelled("backbone.layers."@, i, "mixer.dt_bias"@),
            )
            &&& b.in_proj is Some ==> a.in_proj is Some && linear_under(
                b.in_proj->0,
                a.in_proj->0,
                weights,
                spelled("backbone.layers."@, i, "mixer.in_proj.weight"@),
            )
            &&& b.out_proj is Some ==> a.out_proj is Some && linear_under(
                b.out_proj->0,
                a.out_proj->0,
                weights,
                spelled("backbone.layers."@, i, "mixer.out_proj.weight"@),
            )
            &&& b.gated_norm is Some ==> a.gated_norm is Some && norm_under(
                b.gated_norm->0,
                a.gated_norm->0,
                weights,
                spelled("backbone.layers."@, i, "mixer.norm.weight"@),
            )
            &&& b.conv1d is Some ==> {
                let name = spelled("backbone.layers."@, i, "mixer.conv1d.weight"@);
                &&& a.conv1d is Some
                &&& option_under(
                    b.conv1d->0.bias,
                    a.conv1d->0.bias,
                    weights,
                    spelled("backbone.layers."@, i, "mixer.conv1d.bias"@),
                )
                &&& !weights.contains_key(name) ==> a.conv1d->0.weight == b.conv1d->0.weight
                &&& weights.contains_key(name) && weights[name].shape is D3
                    ==> *a.conv1d->0.weight.node == Node::SwapInner(weights[name])
            }
            &&& a.config == b.config
        },
{
    broadcast use group_nodes;

    lemma_roots();
    law_mixer_q_spelled("backbone"@, i);
    law_mixer_k_spelled("backbone"@, i);
    law_mixer_v_spelled("backbone"@, i);
    law_mixer_o_spelled("backbone"@, i);
    law_mixer_up_spelled("backbone"@, i);
    law_mixer_down_spelled("backbone"@, i);
    law_part_name_spelled("backbone"@, i, "norm.weight"@);
    law_part_name_spelled("backbone"@, i, "mixer.gate.weight"@);
    law_part_name_spelled("backbone"@, i, "mixer.gate.e_score_correction_bias"@);
    law_part_name_spelled("backbone"@, i, "mixer.shared_experts.up_proj.weight"@);
    law_part_name_spelled("backbone"@, i, "mixer.shared_experts.down_proj.weight"@);
    law_part_name_spelled("backbone"@, i, "mixer.A_log"@);
    law_part_name_spelled("backbone"@, i, "mixer.D"@);
    law_part_name_spelled("backbone"@, i, "mixer.dt_bias"@);
    law_part_name_spelled("backbone"@, i, "mixer.in_proj.weight"@);
    law_part_name_spelled("backbone"@, i, "mixer.out_proj.weight"@);
    law_part_name_spelled("backbone"@, i, "mixer.norm.weight"@);
    law_part_name_spelled("backbone"@, i, "mixer.conv1d.weight"@);
    law_part_name_spelled("backbone"@, i, "mixer.conv1d.bias"@);
}

/// Each expert of a Nemotron-H block is loaded under its own number.
pub proof fn law_nemotron_experts_loaded_by_name(
    before: NemotronHLoraBlock,
    after: NemotronHLoraBlock,
    i: nat,
    weights: Map<Seq<char>, Array>,
    k: int,
)
    requires
        before.loaded_to(after, i, 'E', weights),
        before.mixer is MoE,
        0 <= k < before.mixer->MoE_0.moe_layer.experts@.len(),
    ensures
        after.mixer is MoE,
        ({
            let b = before.mixer->MoE_0.moe_layer.experts@[k];
            let a = after.mixer->MoE_0.moe_layer.experts@[k];
            let root = "backbone.layers."@ + decimal(i) + ".mixer.experts."@;
            &&& linear_under(
                b.up_proj,
                a.up_proj,
                weights,
                spelled(root, k as nat, "up_proj.weight"@),
            )
            &&& linear_under(
                b.down_proj,
                a.down_proj,
                weights,
                spelled(root, k as nat, "down_proj.weight"@),
            )
        }),
{
    lemma_roots();
    lemma_expert_spelled(i, k as nat, "up_proj.weight"@);
    lemma_expert_spelled(i, k as nat, "down_proj.weight"@);
    assert(after.mixer->MoE_0.moe_layer.experts@[k] == loaded_expert(
        before.mixer->MoE_0.moe_layer.experts@[k],
        i,
        k as nat,
        weights,
    ));
}

proof fn lemma_expert_spelled(i: nat, k: nat, part: Seq<char>)
    ensures
        expert_name(i, k, part) == spelled(
            "backbone.layers."@ + decimal(i) + ".mixer.experts."@,
            k,
            part,
        ),
{
    lemma_roots();
    law_part_name_spelled("backbone"@, i, dotted("mixer.experts"@, dotted(decimal(k), part)));
    reveal_strlit(".");
    reveal_strlit("mixer.experts");
    reveal_strlit(".mixer.experts.");
    assert("."@ + "mixer.experts"@ + "."@ =~= ".mixer.experts."@);
    assert(expert_name(i, k, part) =~= "backbone.layers."@ + decimal(i) + ("."@ + "mixer.experts"@
        + "."@) + decimal(k) + "."@ + part);
}

/// A layer on a quantized weight is made anew on the weight and the bias of those names, where
/// there is such a weight, and is else as it was.
pub open spec fn quantized_under(
    before: QLoraLinear,
    after: QLoraLinear,
    weights: Map<Seq<char>, Array>,
    name: Seq<char>,
    bias: Option<Array>,
    config: QLoraConfig,
) -> bool {
    if weights.contains_key(name) {
        &&& is_function(after.quantized_weight.weight, Function::ToFloat32, weights[name])
        &&& after.quantized_weight.scheme == config.quant_scheme
        &&& after.quantized_weight.config.block_size == config.block_size
        &&& after.bias == bias
        &&& after.weight_cache is None
    } else {
        after == before
    }
}

pub open spec fn map_entry(weights: Map<Seq<char>, Array>, name: Seq<char>) -> Option<Array> {
    if weights.contains_key(name) {
        Some(weights[name])
    } else {
        None
    }
}

/// Each frozen part of a Phi layer is quantized from the weight of its own name.
pub proof fn law_phi_qlora_loaded_by_name(
    before: PhiQloraDecoderLayer,
    i: nat,
    weights: Map<Seq<char>, Array>,
    config: QLoraConfig,
)
    ensures
        ({
            let after = before.loaded(i, weights, config);
            &&& quantized_under(
                before.self_attn.q_proj,
                after.self_attn.q_proj,
                weights,
                spelled("model.layers."@, i, "self_attn.q_proj.weight"@),
                map_entry(weights, spelled("model.layers."@, i, "self_attn.q_proj.bias"@)),
                config,
            )
            &&& quantized_under(
                before.self_attn.k_proj,
                after.self_attn.k_proj,
                weights,
                spelled("model.layers."@, i, "self_attn.k_proj.weight"@),
                map_entry(weights, spelled("model.layers."@, i, "self_attn.k_proj.bias"@)),
                config,
            )
            &&& quantized_under(
                before.self_attn.v_proj,
                after.self_attn.v_proj,
                weights,
                spelled("model.layers."@, i, "self_attn.v_proj.weight"@),
                map_entry(weights, spelled("model.layers."@, i, "self_attn.v_proj.bias"@)),
                config,
            )
            &&& quantized_under(
                before.self_attn.o_proj,
                after.self_attn.o_proj,
                weights,
                spelled("model.layers."@, i, "self_attn.o_proj.weight"@),
                None,
                config,
            )
            &&& quantized_under(
                before.mlp.gate_up_proj,
                after.mlp.gate_up_proj,
                weights,
                spelled("model.layers."@, i, "mlp.gate_up_proj.weight"@),
                None,
                config,
            )
            &&& quantized_under(
                before.mlp.down_proj,
                after.mlp.down_proj,
                weights,
                spelled("model.layers."@, i, "mlp.down_proj.weight"@),
                None,
                config,
            )
            &&& norm_under(
                before.input_layernorm,
                after.input_layernorm,
                weights,
                spelled("model.layers."@, i, "input_layernorm.weight"@),
            )
            &&& norm_under(
                before.post_attention_layernorm,
                after.post_attention_layernorm,
                weights,
                spelled("model.layers."@, i, "post_attention_layernorm.weight"@),
            )
        }),
{
    broadcast use group_nodes;

    lemma_roots();
    law_self_attn_q_spelled("model"@, i);
    law_self_attn_k_spelled("model"@, i);
    law_self_attn_v_spelled("model"@, i);
    law_self_attn_o_spelled("model"@, i);
    law_mlp_gate_up_spelled("model"@, i);
    law_mlp_down_spelled("model"@, i);
    law_part_name_spelled("model"@, i, "self_attn.q_proj.bias"@);
    law_part_name_spelled("model"@, i, "self_attn.k_proj.bias"@);
    law_part_name_spelled("model"@, i, "self_attn.v_proj.bias"@);
    law_part_name_spelled("model"@, i, "input_layernorm.weight"@);
    law_part_name_spelled("model"@, i, "post_attention_layernorm.weight"@);
}

} // verus!
