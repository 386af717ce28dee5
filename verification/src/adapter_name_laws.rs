//! Which name an adapter is saved and set under.

use crate::array::Array;
use crate::dora::LinearAdapter;
use crate::mistral_lora::MistralLoraDecoderLayer;
use crate::mllama_lora::MllamaLoraDecoderLayer;
use crate::names::{Half, NameStyle, Proj, Section, lora_name};
use crate::naming_laws::{
    held_under, law_cross_attn_k_spelled, law_cross_attn_o_spelled, law_cross_attn_q_spelled,
    law_cross_attn_v_spelled, law_linear_attn_in_qkv_spelled, law_linear_attn_in_z_spelled,
    law_linear_attn_out_spelled, law_mixer_down_spelled, law_mixer_k_spelled, law_mixer_o_spelled,
    law_mixer_q_spelled, law_mixer_shared_expert_down_spelled, law_mixer_shared_expert_up_spelled,
    law_mixer_up_spelled, law_mixer_v_spelled, law_mlp_down_spelled, law_mlp_gate_spelled,
    law_mlp_gate_up_spelled, law_mlp_router_spelled, law_mlp_shared_expert_down_spelled,
    law_mlp_shared_expert_gate_spelled, law_mlp_shared_expert_up_spelled, law_mlp_up_spelled,
    law_self_attn_k_spelled, law_self_attn_o_spelled, law_self_attn_q_spelled,
    law_self_attn_v_spelled, spelled,
};
use crate::nemotron_h_lora::NemotronHLoraBlock;
use crate::nemotron_h_qlora::NemotronHQloraBlock;
use crate::params::{LoraLayer, assigned, name_at, parameter_map};
use crate::params_laws::law_parameter_lookup;
use crate::phi_lora::PhiLoraDecoderLayer;
use crate::phi_qlora::PhiQloraDecoderLayer;
use crate::qwen3_lora::Qwen3LoraDecoderLayer;
use crate::qwen3_moe_lora::Qwen3MoELoraDecoderLayer;
use crate::qwen3_moe_qlora::Qwen3MoEQLoraDecoderLayer;
use crate::qwen3_next_lora::Qwen3NextLoraDecoderLayer;
use vstd::prelude::*;

verus! {

/// The map holds the array under that name.
pub open spec fn saved_under(m: Map<Seq<char>, Array>, name: Seq<char>, x: Array) -> bool {
    m.contains_key(name) && m[name] == x
}

/// The first matrix of an adapter of either kind.
pub open spec fn adapter_a(l: LinearAdapter) -> Array {
    match l {
        LinearAdapter::Lora(x) => x.lora_a,
        LinearAdapter::Dora(x) => x.lora_a,
    }
}

/// The second matrix of an adapter of either kind.
pub open spec fn adapter_b(l: LinearAdapter) -> Array {
    match l {
        LinearAdapter::Lora(x) => x.lora_b,
        LinearAdapter::Dora(x) => x.lora_b,
    }
}

/// Each matrix of the adapters of Mistral layers is saved under its own name, and set from it.
#[verifier::rlimit(60)]
pub proof fn law_mistral_adapters_by_name(
    layers: Seq<MistralLoraDecoderLayer>,
    i: int,
    params: Map<Seq<char>,
    Array>,
)
    requires
        0 <= i < layers.len(),
    ensures
        ({
            let saved = parameter_map(NameStyle::Prefixed, layers);
            let l = layers[i];
            let after = assigned(NameStyle::Prefixed, layers, params)[i];
            &&& saved_under(
                saved,
                spelled("model.layers."@, i as nat, "self_attn.q_proj.lora_A.weight"@),
                l.self_attn.q_proj.lora_a,
            )
            &&& after.self_attn.q_proj.lora_a == held_under(
                params,
                spelled("model.layers."@, i as nat, "self_attn.q_proj.lora_A.weight"@),
                l.self_attn.q_proj.lora_a,
            )
            &&& saved_under(
                saved,
                spelled("model.layers."@, i as nat, "self_attn.q_proj.lora_B.weight"@),
                l.self_attn.q_proj.lora_b,
            )
            &&& after.self_attn.q_proj.lora_b == held_under(
                params,
                spelled("model.layers."@, i as nat, "self_attn.q_proj.lora_B.weight"@),
                l.self_attn.q_proj.lora_b,
            )
            &&& saved_under(
                saved,
                spelled("model.layers."@, i as nat, "self_attn.k_proj.lora_A.weight"@),
                l.self_attn.k_proj.lora_a,
            )
            &&& after.self_attn.k_proj.lora_a == held_under(
                params,
                spelled("model.layers."@, i as nat, "self_attn.k_proj.lora_A.weight"@),
                l.self_attn.k_proj.lora_a,
            )
            &&& saved_under(
                saved,
                spelled("model.layers."@, i as nat, "self_attn.k_proj.lora_B.weight"@),
                l.self_attn.k_proj.lora_b,
            )
            &&& after.self_attn.k_proj.lora_b == held_under(
                params,
                spelled("model.layers."@, i as nat, "self_attn.k_proj.lora_B.weight"@),
                l.self_attn.k_proj.lora_b,
            )
            &&& saved_under(
                saved,
                spelled("model.layers."@, i as nat, "self_attn.v_proj.lora_A.weight"@),
                l.self_attn.v_proj.lora_a,
            )
            &&& after.self_attn.v_proj.lora_a == held_under(
                params,
                spelled("model.layers."@, i as nat, "self_attn.v_proj.lora_A.weight"@),
                l.self_attn.v_proj.lora_a,
            )
            &&& saved_under(
                saved,
                spelled("model.layers."@, i as nat, "self_attn.v_proj.lora_B.weight"@),
                l.self_attn.v_proj.lora_b,
            )
            &&& after.self_attn.v_proj.lora_b == held_under(
                params,
                spelled("model.layers."@, i as nat, "self_attn.v_proj.lora_B.weight"@),
                l.self_attn.v_proj.lora_b,
            )
            &&& saved_under(
                saved,
                spelled("model.layers."@, i as nat, "self_attn.o_proj.lora_A.weight"@),
                l.self_attn.o_proj.lora_a,
            )
            &&& after.self_attn.o_proj.lora_a == held_under(
                params,
                spelled("model.layers."@, i as nat, "self_attn.o_proj.lora_A.weight"@),
                l.self_attn.o_proj.lora_a,
            )
            &&& saved_under(
                saved,
                spelled("model.layers."@, i as nat, "self_attn.o_proj.lora_B.weight"@),
                l.self_attn.o_proj.lora_b,
            )
            &&& after.self_attn.o_proj.lora_b == held_under(
                params,
                spelled("model.layers."@, i as nat, "self_attn.o_proj.lora_B.weight"@),
                l.self_attn.o_proj.lora_b,
            )
            &&& saved_under(
                saved,
                spelled("model.layers."@, i as nat, "mlp.gate_proj.lora_A.weight"@),
                l.mlp.gate_proj.lora_a,
            )
            &&& after.mlp.gate_proj.lora_a == held_under(
                params,
                spelled("model.layers."@, i as nat, "mlp.gate_proj.lora_A.weight"@),
                l.mlp.gate_proj.lora_a,
            )
            &&& saved_under(
                saved,
                spelled("model.layers."@, i as nat, "mlp.gate_proj.lora_B.weight"@),
                l.mlp.gate_proj.lora_b,
            )
            &&& after.mlp.gate_proj.lora_b == held_under(
                params,
                spelled("model.layers."@, i as nat, "mlp.gate_proj.lora_B.weight"@),
                l.mlp.gate_proj.lora_b,
            )
            &&& saved_under(
                saved,
                spelled("model.layers."@, i as nat, "mlp.up_proj.lora_A.weight"@),
                l.mlp.up_proj.lora_a,
            )
            &&& after.mlp.up_proj.lora_a == held_under(
                params,
                spelled("model.layers."@, i as nat, "mlp.up_proj.lora_A.weight"@),
                l.mlp.up_proj.lora_a,
            )
            &&& saved_under(
                saved,
                spelled("model.layers."@, i as nat, "mlp.up_proj.lora_B.weight"@),
                l.mlp.up_proj.lora_b,
            )
            &&& after.mlp.up_proj.lora_b == held_under(
                params,
                spelled("model.layers."@, i as nat, "mlp.up_proj.lora_B.weight"@),
                l.mlp.up_proj.lora_b,
            )
            &&& saved_under(
                saved,
                spelled("model.layers."@, i as nat, "mlp.down_proj.lora_A.weight"@),
                l.mlp.down_proj.lora_a,
            )
            &&& after.mlp.down_proj.lora_a == held_under(
                params,
                spelled("model.layers."@, i as nat, "mlp.down_proj.lora_A.weight"@),
                l.mlp.down_proj.lora_a,
            )
            &&& saved_under(
                saved,
                spelled("model.layers."@, i as nat, "mlp.down_proj.lora_B.weight"@),
                l.mlp.down_proj.lora_b,
            )
            &&& after.mlp.down_proj.lora_b == held_under(
                params,
                spelled("model.layers."@, i as nat, "mlp.down_proj.lora_B.weight"@),
                l.mlp.down_proj.lora_b,
            )
        }),
{
    law_self_attn_q_spelled("model"@, i as nat);
    law_parameter_lookup(NameStyle::Prefixed, layers, i, 0);
    assert(
        name_at(NameStyle::Prefixed, i as nat, layers[i].places(), 0) == lora_name(
            NameStyle::Prefixed,
            i as nat,
            Section::SelfAttn,
            Proj::Q,
            Half::A,
        )
    );
    law_parameter_lookup(NameStyle::Prefixed, layers, i, 1);
    assert(
        name_at(NameStyle::Prefixed, i as nat, layers[i].places(), 1) == lora_name(
            NameStyle::Prefixed,
            i as nat,
            Section::SelfAttn,
            Proj::Q,
            Half::B,
        )
    );
    law_self_attn_k_spelled("model"@, i as nat);
    law_parameter_lookup(NameStyle::Prefixed, layers, i, 2);
    assert(
        name_at(NameStyle::Prefixed, i as nat, layers[i].places(), 2) == lora_name(
            NameStyle::Prefixed,
            i as nat,
            Section::SelfAttn,
            Proj::K,
            Half::A,
        )
    );
    law_parameter_lookup(NameStyle::Prefixed, layers, i, 3);
    assert(
        name_at(NameStyle::Prefixed, i as nat, layers[i].places(), 3) == lora_name(
            NameStyle::Prefixed,
            i as nat,
            Section::SelfAttn,
            Proj::K,
            Half::B,
        )
    );
    law_self_attn_v_spelled("model"@, i as nat);
    law_parameter_lookup(NameStyle::Prefixed, layers, i, 4);
    assert(
        name_at(NameStyle::Prefixed, i as nat, layers[i].places(), 4) == lora_name(
            NameStyle::Prefixed,
            i as nat,
            Section::SelfAttn,
            Proj::V,
            Half::A,
        )
    );
    law_parameter_lookup(NameStyle::Prefixed, layers, i, 5);
    assert(
        name_at(NameStyle::Prefixed, i as nat, layers[i].places(), 5) == lora_name(
            NameStyle::Prefixed,
            i as nat,
            Section::SelfAttn,
            Proj::V,
            Half::B,
        )
    );
    law_self_attn_o_spelled("model"@, i as nat);
    law_parameter_lookup(NameStyle::Prefixed, layers, i, 6);
    assert(
        name_at(NameStyle::Prefixed, i as nat, layers[i].places(), 6) == lora_name(
            NameStyle::Prefixed,
            i as nat,
            Section::SelfAttn,
            Proj::O,
            Half::A,
        )
    );
    law_parameter_lookup(NameStyle::Prefixed, layers, i, 7);
    assert(
        name_at(NameStyle::Prefixed, i as nat, layers[i].places(), 7) == lora_name(
            NameStyle::Prefixed,
            i as nat,
            Section::SelfAttn,
            Proj::O,
            Half::B,
        )
    );
    law_mlp_gate_spelled("model"@, i as nat);
    law_parameter_lookup(NameStyle::Prefixed, layers, i, 8);
    assert(
        name_at(NameStyle::Prefixed, i as nat, layers[i].places(), 8) == lora_name(
            NameStyle::Prefixed,
            i as nat,
            Section::Mlp,
            Proj::Gate,
            Half::A,
        )
    );
    law_parameter_lookup(NameStyle::Prefixed, layers, i, 9);
    assert(
        name_at(NameStyle::Prefixed, i as nat, layers[i].places(), 9) == lora_name(
            NameStyle::Prefixed,
            i as nat,
            Section::Mlp,
            Proj::Gate,
            Half::B,
        )
    );
    law_mlp_up_spelled("model"@, i as nat);
    law_parameter_lookup(NameStyle::Prefixed, layers, i, 10);
    assert(
        name_at(NameStyle::Prefixed, i as nat, layers[i].places(), 10) == lora_name(
            NameStyle::Prefixed,
            i as nat,
            Section::Mlp,
            Proj::Up,
            Half::A,
        )
    );
    law_parameter_lookup(NameStyle::Prefixed, layers, i, 11);
    assert(
        name_at(NameStyle::Prefixed, i as nat, layers[i].places(), 11) == lora_name(
            NameStyle::Prefixed,
            i as nat,
            Section::Mlp,
            Proj::Up,
            Half::B,
        )
    );
    law_mlp_down_spelled("model"@, i as nat);
    law_parameter_lookup(NameStyle::Prefixed, layers, i, 12);
    assert(
        name_at(NameStyle::Prefixed, i as nat, layers[i].places(), 12) == lora_name(
            NameStyle::Prefixed,
            i as nat,
            Section::Mlp,
            Proj::Down,
            Half::A,
        )
    );
    law_parameter_lookup(NameStyle::Prefixed, layers, i, 13);
    assert(
        name_at(NameStyle::Prefixed, i as nat, layers[i].places(), 13) == lora_name(
            NameStyle::Prefixed,
            i as nat,
            Section::Mlp,
            Proj::Down,
            Half::B,
        )
    );
}

/// Each matrix of the adapters of Qwen3 layers is saved under its own name, and set from it.
#[verifier::rlimit(60)]
pub proof fn law_qwen3_adapters_by_name(
    layers: Seq<Qwen3LoraDecoderLayer>,
    i: int,
    params: Map<Seq<char>,
    Array>,
)
    requires
        0 <= i < layers.len(),
    ensures
        ({
            let saved = parameter_map(NameStyle::Plain, layers);
            let l = layers[i];
            let after = assigned(NameStyle::Plain, layers, params)[i];
            &&& saved_under(
                saved,
                spelled("layers."@, i as nat, "self_attn.q_proj.lora_a"@),
                l.self_attn.q_proj.lora_a,
            )
            &&& after.self_attn.q_proj.lora_a == held_under(
                params,
                spelled("layers."@, i as nat, "self_attn.q_proj.lora_a"@),
                l.self_attn.q_proj.lora_a,
            )
            &&& saved_under(
                saved,
                spelled("layers."@, i as nat, "self_attn.q_proj.lora_b"@),
                l.self_attn.q_proj.lora_b,
            )
            &&& after.self_attn.q_proj.lora_b == held_under(
                params,
                spelled("layers."@, i as nat, "self_attn.q_proj.lora_b"@),
                l.self_attn.q_proj.lora_b,
            )
            &&& saved_under(
                saved,
                spelled("layers."@, i as nat, "self_attn.k_proj.lora_a"@),
                l.self_attn.k_proj.lora_a,
            )
            &&& after.self_attn.k_proj.lora_a == held_under(
                params,
                spelled("layers."@, i as nat, "self_attn.k_proj.lora_a"@),
                l.self_attn.k_proj.lora_a,
            )
            &&& saved_under(
                saved,
                spelled("layers."@, i as nat, "self_attn.k_proj.lora_b"@),
                l.self_attn.k_proj.lora_b,
            )
            &&& after.self_attn.k_proj.lora_b == held_under(
                params,
                spelled("layers."@, i as nat, "self_attn.k_proj.lora_b"@),
                l.self_attn.k_proj.lora_b,
            )
            &&& saved_under(
                saved,
                spelled("layers."@, i as nat, "self_attn.v_proj.lora_a"@),
                l.self_attn.v_proj.lora_a,
            )
            &&& after.self_attn.v_proj.lora_a == held_under(
                params,
                spelled("layers."@, i as nat, "self_attn.v_proj.lora_a"@),
                l.self_attn.v_proj.lora_a,
            )
            &&& saved_under(
                saved,
                spelled("layers."@, i as nat, "self_attn.v_proj.lora_b"@),
                l.self_attn.v_proj.lora_b,
            )
            &&& after.self_attn.v_proj.lora_b == held_under(
                params,
                spelled("layers."@, i as nat, "self_attn.v_proj.lora_b"@),
                l.self_attn.v_proj.lora_b,
            )
            &&& saved_under(
                saved,
                spelled("layers."@, i as nat, "self_attn.o_proj.lora_a"@),
                l.self_attn.o_proj.lora_a,
            )
            &&& after.self_attn.o_proj.lora_a == held_under(
                params,
                spelled("layers."@, i as nat, "self_attn.o_proj.lora_a"@),
                l.self_attn.o_proj.lora_a,
            )
            &&& saved_under(
                saved,
                spelled("layers."@, i as nat, "self_attn.o_proj.lora_b"@),
                l.self_attn.o_proj.lora_b,
            )
            &&& after.self_attn.o_proj.lora_b == held_under(
                params,
                spelled("layers."@, i as nat, "self_attn.o_proj.lora_b"@),
                l.self_attn.o_proj.lora_b,
            )
            &&& saved_under(
                saved,
                spelled("layers."@, i as nat, "mlp.gate_proj.lora_a"@),
                l.mlp.gate_proj.lora_a,
            )
            &&& after.mlp.gate_proj.lora_a == held_under(
                params,
                spelled("layers."@, i as nat, "mlp.gate_proj.lora_a"@),
                l.mlp.gate_proj.lora_a,
            )
            &&& saved_under(
                saved,
                spelled("layers."@, i as nat, "mlp.gate_proj.lora_b"@),
                l.mlp.gate_proj.lora_b,
            )
            &&& after.mlp.gate_proj.lora_b == held_under(
                params,
                spelled("layers."@, i as nat, "mlp.gate_proj.lora_b"@),
                l.mlp.gate_proj.lora_b,
            )
            &&& saved_under(
                saved,
                spelled("layers."@, i as nat, "mlp.up_proj.lora_a"@),
                l.mlp.up_proj.lora_a,
            )
            &&& after.mlp.up_proj.lora_a == held_under(
                params,
                spelled("layers."@, i as nat, "mlp.up_proj.lora_a"@),
                l.mlp.up_proj.lora_a,
            )
            &&& saved_under(
                saved,
                spelled("layers."@, i as nat, "mlp.up_proj.lora_b"@),
                l.mlp.up_proj.lora_b,
            )
            &&& after.mlp.up_proj.lora_b == held_under(
                params,
                spelled("layers."@, i as nat, "mlp.up_proj.lora_b"@),
                l.mlp.up_proj.lora_b,
            )
            &&& saved_under(
                saved,
                spelled("layers."@, i as nat, "mlp.down_proj.lora_a"@),
                l.mlp.down_proj.lora_a,
            )
            &&& after.mlp.down_proj.lora_a == held_under(
                params,
                spelled("layers."@, i as nat, "mlp.down_proj.lora_a"@),
                l.mlp.down_proj.lora_a,
            )
            &&& saved_under(
                saved,
                spelled("layers."@, i as nat, "mlp.down_proj.lora_b"@),
                l.mlp.down_proj.lora_b,
            )
            &&& after.mlp.down_proj.lora_b == held_under(
                params,
                spelled("layers."@, i as nat, "mlp.down_proj.lora_b"@),
                l.mlp.down_proj.lora_b,
            )
        }),
{
    law_self_attn_q_spelled("model"@, i as nat);
    law_parameter_lookup(NameStyle::Plain, layers, i, 0);
    assert(
        name_at(NameStyle::Plain, i as nat, layers[i].places(), 0) == lora_name(
            NameStyle::Plain,
            i as nat,
            Section::SelfAttn,
            Proj::Q,
            Half::A,
        )
    );
    law_parameter_lookup(NameStyle::Plain, layers, i, 1);
    assert(
        name_at(NameStyle::Plain, i as nat, layers[i].places(), 1) == lora_name(
            NameStyle::Plain,
            i as nat,
            Section::SelfAttn,
            Proj::Q,
            Half::B,
        )
    );
    law_self_attn_k_spelled("model"@, i as nat);
    law_parameter_lookup(NameStyle::Plain, layers, i, 2);
    assert(
        name_at(NameStyle::Plain, i as nat, layers[i].places(), 2) == lora_name(
            NameStyle::Plain,
            i as nat,
            Section::SelfAttn,
            Proj::K,
            Half::A,
        )
    );
    law_parameter_lookup(NameStyle::Plain, layers, i, 3);
    assert(
        name_at(NameStyle::Plain, i as nat, layers[i].places(), 3) == lora_name(
            NameStyle::Plain,
            i as nat,
            Section::SelfAttn,
            Proj::K,
            Half::B,
        )
    );
    law_self_attn_v_spelled("model"@, i as nat);
    law_parameter_lookup(NameStyle::Plain, layers, i, 4);
    assert(
        name_at(NameStyle::Plain, i as nat, layers[i].places(), 4) == lora_name(
            NameStyle::Plain,
            i as nat,
            Section::SelfAttn,
            Proj::V,
            Half::A,
        )
    );
    law_parameter_lookup(NameStyle::Plain, layers, i, 5);
    assert(
        name_at(NameStyle::Plain, i as nat, layers[i].places(), 5) == lora_name(
            NameStyle::Plain,
            i as nat,
            Section::SelfAttn,
            Proj::V,
            Half::B,
        )
    );
    law_self_attn_o_spelled("model"@, i as nat);
    law_parameter_lookup(NameStyle::Plain, layers, i, 6);
    assert(
        name_at(NameStyle::Plain, i as nat, layers[i].places(), 6) == lora_name(
            NameStyle::Plain,
            i as nat,
            Section::SelfAttn,
            Proj::O,
            Half::A,
        )
    );
    law_parameter_lookup(NameStyle::Plain, layers, i, 7);
    assert(
        name_at(NameStyle::Plain, i as nat, layers[i].places(), 7) == lora_name(
            NameStyle::Plain,
            i as nat,
            Section::SelfAttn,
            Proj::O,
            Half::B,
        )
    );
    law_mlp_gate_spelled("model"@, i as nat);
    law_parameter_lookup(NameStyle::Plain, layers, i, 8);
    assert(
        name_at(NameStyle::Plain, i as nat, layers[i].places(), 8) == lora_name(
            NameStyle::Plain,
            i as nat,
            Section::Mlp,
            Proj::Gate,
            Half::A,
        )
    );
    law_parameter_lookup(NameStyle::Plain, layers, i, 9);
    assert(
        name_at(NameStyle::Plain, i as nat, layers[i].places(), 9) == lora_name(
            NameStyle::Plain,
            i as nat,
            Section::Mlp,
            Proj::Gate,
            Half::B,
        )
    );
    law_mlp_up_spelled("model"@, i as nat);
    law_parameter_lookup(NameStyle::Plain, layers, i, 10);
    assert(
        name_at(NameStyle::Plain, i as nat, layers[i].places(), 10) == lora_name(
            NameStyle::Plain,
            i as nat,
            Section::Mlp,
            Proj::Up,
            Half::A,
        )
    );
    law_parameter_lookup(NameStyle::Plain, layers, i, 11);
    assert(
        name_at(NameStyle::Plain, i as nat, layers[i].places(), 11) == lora_name(
            NameStyle::Plain,
            i as nat,
            Section::Mlp,
            Proj::Up,
            Half::B,
        )
    );
    law_mlp_down_spelled("model"@, i as nat);
    law_parameter_lookup(NameStyle::Plain, layers, i, 12);
    assert(
        name_at(NameStyle::Plain, i as nat, layers[i].places(), 12) == lora_name(
            NameStyle::Plain,
            i as nat,
            Section::Mlp,
            Proj::Down,
            Half::A,
        )
    );
    law_parameter_lookup(NameStyle::Plain, layers, i, 13);
    assert(
        name_at(NameStyle::Plain, i as nat, layers[i].places(), 13) == lora_name(
            NameStyle::Plain,
            i as nat,
            Section::Mlp,
            Proj::Down,
            Half::B,
        )
    );
}

/// Each matrix of the adapters of Phi layers is saved under its own name, and set from it.
#[verifier::rlimit(60)]
pub proof fn law_phi_adapters_by_name(
    layers: Seq<PhiLoraDecoderLayer>,
    i: int,
    params: Map<Seq<char>,
    Array>,
)
    requires
        0 <= i < layers.len(),
    ensures
        ({
            let saved = parameter_map(NameStyle::Plain, layers);
            let l = layers[i];
            let after = assigned(NameStyle::Plain, layers, params)[i];
            &&& saved_under(
                saved,
                spelled("layers."@, i as nat, "self_attn.q_proj.lora_a"@),
                l.self_attn.q_proj.lora_a,
            )
            &&& after.self_attn.q_proj.lora_a == held_under(
                params,
                spelled("layers."@, i as nat, "self_attn.q_proj.lora_a"@),
                l.self_attn.q_proj.lora_a,
            )
            &&& saved_under(
                saved,
                spelled("layers."@, i as nat, "self_attn.q_proj.lora_b"@),
                l.self_attn.q_proj.lora_b,
            )
            &&& after.self_attn.q_proj.lora_b == held_under(
                params,
                spelled("layers."@, i as nat, "self_attn.q_proj.lora_b"@),
                l.self_attn.q_proj.lora_b,
            )
            &&& saved_under(
                saved,
                spelled("layers."@, i as nat, "self_attn.k_proj.lora_a"@),
                l.self_attn.k_proj.lora_a,
            )
            &&& after.self_attn.k_proj.lora_a == held_under(
                params,
                spelled("layers."@, i as nat, "self_attn.k_proj.lora_a"@),
                l.self_attn.k_proj.lora_a,
            )
            &&& saved_under(
                saved,
                spelled("layers."@, i as nat, "self_attn.k_proj.lora_b"@),
                l.self_attn.k_proj.lora_b,
            )
            &&& after.self_attn.k_proj.lora_b == held_under(
                params,
                spelled("layers."@, i as nat, "self_attn.k_proj.lora_b"@),
                l.self_attn.k_proj.lora_b,
            )
            &&& saved_under(
                saved,
                spelled("layers."@, i as nat, "self_attn.v_proj.lora_a"@),
                l.self_attn.v_proj.lora_a,
            )
            &&& after.self_attn.v_proj.lora_a == held_under(
                params,
                spelled("layers."@, i as nat, "self_attn.v_proj.lora_a"@),
                l.self_attn.v_proj.lora_a,
            )
            &&& saved_under(
                saved,
                spelled("layers."@, i as nat, "self_attn.v_proj.lora_b"@),
                l.self_attn.v_proj.lora_b,
            )
            &&& after.self_attn.v_proj.lora_b == held_under(
                params,
                spelled("layers."@, i as nat, "self_attn.v_proj.lora_b"@),
                l.self_attn.v_proj.lora_b,
            )
            &&& saved_under(
                saved,
                spelled("layers."@, i as nat, "self_attn.o_proj.lora_a"@),
                l.self_attn.o_proj.lora_a,
            )
            &&& after.self_attn.o_proj.lora_a == held_under(
                params,
                spelled("layers."@, i as nat, "self_attn.o_proj.lora_a"@),
                l.self_attn.o_proj.lora_a,
            )
            &&& saved_under(
                saved,
                spelled("layers."@, i as nat, "self_attn.o_proj.lora_b"@),
                l.self_attn.o_proj.lora_b,
            )
            &&& after.self_attn.o_proj.lora_b == held_under(
                params,
                spelled("layers."@, i as nat, "self_attn.o_proj.lora_b"@),
                l.self_attn.o_proj.lora_b,
            )
            &&& saved_under(
                saved,
                spelled("layers."@, i as nat, "mlp.gate_up_proj.lora_a"@),
                l.mlp.gate_up_proj.lora_a,
            )
            &&& after.mlp.gate_up_proj.lora_a == held_under(
                params,
                spelled("layers."@, i as nat, "mlp.gate_up_proj.lora_a"@),
                l.mlp.gate_up_proj.lora_a,
            )
            &&& saved_under(
                saved,
                spelled("layers."@, i as nat, "mlp.gate_up_proj.lora_b"@),
                l.mlp.gate_up_proj.lora_b,
            )
            &&& after.mlp.gate_up_proj.lora_b == held_under(
                params,
                spelled("layers."@, i as nat, "mlp.gate_up_proj.lora_b"@),
                l.mlp.gate_up_proj.lora_b,
            )
            &&& saved_under(
                saved,
                spelled("layers."@, i as nat, "mlp.down_proj.lora_a"@),
                l.mlp.down_proj.lora_a,
            )
            &&& after.mlp.down_proj.lora_a == held_under(
                params,
                spelled("layers."@, i as nat, "mlp.down_proj.lora_a"@),
                l.mlp.down_proj.lora_a,
            )
            &&& saved_under(
                saved,
                spelled("layers."@, i as nat, "mlp.down_proj.lora_b"@),
                l.mlp.down_proj.lora_b,
            )
            &&& after.mlp.down_proj.lora_b == held_under(
                params,
                spelled("layers."@, i as nat, "mlp.down_proj.lora_b"@),
                l.mlp.down_proj.lora_b,
            )
        }),
{
    law_self_attn_q_spelled("model"@, i as nat);
    law_parameter_lookup(NameStyle::Plain, layers, i, 0);
    assert(
        name_at(NameStyle::Plain, i as nat, layers[i].places(), 0) == lora_name(
            NameStyle::Plain,
            i as nat,
            Section::SelfAttn,
            Proj::Q,
            Half::A,
        )
    );
    law_parameter_lookup(NameStyle::Plain, layers, i, 1);
    assert(
        name_at(NameStyle::Plain, i as nat, layers[i].places(), 1) == lora_name(
            NameStyle::Plain,
            i as nat,
            Section::SelfAttn,
            Proj::Q,
            Half::B,
        )
    );
    law_self_attn_k_spelled("model"@, i as nat);
    law_parameter_lookup(NameStyle::Plain, layers, i, 2);
    assert(
        name_at(NameStyle::Plain, i as nat, layers[i].places(), 2) == lora_name(
            NameStyle::Plain,
            i as nat,
            Section::SelfAttn,
            Proj::K,
            Half::A,
        )
    );
    law_parameter_lookup(NameStyle::Plain, layers, i, 3);
    assert(
        name_at(NameStyle::Plain, i as nat, layers[i].places(), 3) == lora_name(
            NameStyle::Plain,
            i as nat,
            Section::SelfAttn,
            Proj::K,
            Half::B,
        )
    );
    law_self_attn_v_spelled("model"@, i as nat);
    law_parameter_lookup(NameStyle::Plain, layers, i, 4);
    assert(
        name_at(NameStyle::Plain, i as nat, layers[i].places(), 4) == lora_name(
            NameStyle::Plain,
            i as nat,
            Section::SelfAttn,
            Proj::V,
            Half::A,
        )
    );
    law_parameter_lookup(NameStyle::Plain, layers, i, 5);
    assert(
        name_at(NameStyle::Plain, i as nat, layers[i].places(), 5) == lora_name(
            NameStyle::Plain,
            i as nat,
            Section::SelfAttn,
            Proj::V,
            Half::B,
        )
    );
    law_self_attn_o_spelled("model"@, i as nat);
    law_parameter_lookup(NameStyle::Plain, layers, i, 6);
    assert(
        name_at(NameStyle::Plain, i as nat, layers[i].places(), 6) == lora_name(
            NameStyle::Plain,
            i as nat,
            Section::SelfAttn,
            Proj::O,
            Half::A,
        )
    );
    law_parameter_lookup(NameStyle::Plain, layers, i, 7);
    assert(
        name_at(NameStyle::Plain, i as nat, layers[i].places(), 7) == lora_name(
            NameStyle::Plain,
            i as nat,
            Section::SelfAttn,
            Proj::O,
            Half::B,
        )
    );
    law_mlp_gate_up_spelled("model"@, i as nat);
    law_parameter_lookup(NameStyle::Plain, layers, i, 8);
    assert(
        name_at(NameStyle::Plain, i as nat, layers[i].places(), 8) == lora_name(
            NameStyle::Plain,
            i as nat,
            Section::Mlp,
            Proj::GateUp,
            Half::A,
        )
    );
    law_parameter_lookup(NameStyle::Plain, layers, i, 9);
    assert(
        name_at(NameStyle::Plain, i as nat, layers[i].places(), 9) == lora_name(
            NameStyle::Plain,
            i as nat,
            Section::Mlp,
            Proj::GateUp,
            Half::B,
        )
    );
    law_mlp_down_spelled("model"@, i as nat);
    law_parameter_lookup(NameStyle::Plain, layers, i, 10);
    assert(
        name_at(NameStyle::Plain, i as nat, layers[i].places(), 10) == lora_name(
            NameStyle::Plain,
            i as nat,
            Section::Mlp,
            Proj::Down,
            Half::A,
        )
    );
    law_parameter_lookup(NameStyle::Plain, layers, i, 11);
    assert(
        name_at(NameStyle::Plain, i as nat, layers[i].places(), 11) == lora_name(
            NameStyle::Plain,
            i as nat,
            Section::Mlp,
            Proj::Down,
            Half::B,
        )
    );
}

/// Each matrix of the adapters of quantized Phi layers is saved under its own name, and set from
/// it.
#[verifier::rlimit(60)]
pub proof fn law_phi_qlora_adapters_by_name(
    layers: Seq<PhiQloraDecoderLayer>,
    i: int,
    params: Map<Seq<char>,
    Array>,
)
    requires
        0 <= i < layers.len(),
    ensures
        ({
            let saved = parameter_map(NameStyle::Plain, layers);
            let l = layers[i];
            let after = assigned(NameStyle::Plain, layers, params)[i];
            &&& saved_under(
                saved,
                spelled("layers."@, i as nat, "self_attn.q_proj.lora_a"@),
                l.self_attn.q_proj.lora_a,
            )
            &&& after.self_attn.q_proj.lora_a == held_under(
                params,
                spelled("layers."@, i as nat, "self_attn.q_proj.lora_a"@),
                l.self_attn.q_proj.lora_a,
            )
            &&& saved_under(
                saved,
                spelled("layers."@, i as nat, "self_attn.q_proj.lora_b"@),
                l.self_attn.q_proj.lora_b,
            )
            &&& after.self_attn.q_proj.lora_b == held_under(
                params,
                spelled("layers."@, i as nat, "self_attn.q_proj.lora_b"@),
                l.self_attn.q_proj.lora_b,
            )
            &&& saved_under(
                saved,
                spelled("layers."@, i as nat, "self_attn.k_proj.lora_a"@),
                l.self_attn.k_proj.lora_a,
            )
            &&& after.self_attn.k_proj.lora_a == held_under(
                params,
                spelled("layers."@, i as nat, "self_attn.k_proj.lora_a"@),
                l.self_attn.k_proj.lora_a,
            )
            &&& saved_under(
                saved,
                spelled("layers."@, i as nat, "self_attn.k_proj.lora_b"@),
                l.self_attn.k_proj.lora_b,
            )
            &&& after.self_attn.k_proj.lora_b == held_under(
                params,
                spelled("layers."@, i as nat, "self_attn.k_proj.lora_b"@),
                l.self_attn.k_proj.lora_b,
            )
            &&& saved_under(
                saved,
                spelled("layers."@, i as nat, "self_attn.v_proj.lora_a"@),
                l.self_attn.v_proj.lora_a,
            )
            &&& after.self_attn.v_proj.lora_a == held_under(
                params,
                spelled("layers."@, i as nat, "self_attn.v_proj.lora_a"@),
                l.self_attn.v_proj.lora_a,
            )
            &&& saved_under(
                saved,
                spelled("layers."@, i as nat, "self_attn.v_proj.lora_b"@),
                l.self_attn.v_proj.lora_b,
            )
            &&& after.self_attn.v_proj.lora_b == held_under(
                params,
                spelled("layers."@, i as nat, "self_attn.v_proj.lora_b"@),
                l.self_attn.v_proj.lora_b,
            )
            &&& saved_under(
                saved,
                spelled("layers."@, i as nat, "self_attn.o_proj.lora_a"@),
                l.self_attn.o_proj.lora_a,
            )
            &&& after.self_attn.o_proj.lora_a == held_under(
                params,
                spelled("layers."@, i as nat, "self_attn.o_proj.lora_a"@),
                l.self_attn.o_proj.lora_a,
            )
            &&& saved_under(
                saved,
                spelled("layers."@, i as nat, "self_attn.o_proj.lora_b"@),
                l.self_attn.o_proj.lora_b,
            )
            &&& after.self_attn.o_proj.lora_b == held_under(
                params,
                spelled("layers."@, i as nat, "self_attn.o_proj.lora_b"@),
                l.self_attn.o_proj.lora_b,
            )
            &&& saved_under(
                saved,
                spelled("layers."@, i as nat, "mlp.gate_up_proj.lora_a"@),
                l.mlp.gate_up_proj.lora_a,
            )
            &&& after.mlp.gate_up_proj.lora_a == held_under(
                params,
                spelled("layers."@, i as nat, "mlp.gate_up_proj.lora_a"@),
                l.mlp.gate_up_proj.lora_a,
            )
            &&& saved_under(
                saved,
                spelled("layers."@, i as nat, "mlp.gate_up_proj.lora_b"@),
                l.mlp.gate_up_proj.lora_b,
            )
            &&& after.mlp.gate_up_proj.lora_b == held_under(
                params,
                spelled("layers."@, i as nat, "mlp.gate_up_proj.lora_b"@),
                l.mlp.gate_up_proj.lora_b,
            )
            &&& saved_under(
                saved,
                spelled("layers."@, i as nat, "mlp.down_proj.lora_a"@),
                l.mlp.down_proj.lora_a,
            )
            &&& after.mlp.down_proj.lora_a == held_under(
                params,
                spelled("layers."@, i as nat, "mlp.down_proj.lora_a"@),
                l.mlp.down_proj.lora_a,
            )
            &&& saved_under(
                saved,
                spelled("layers."@, i as nat, "mlp.down_proj.lora_b"@),
                l.mlp.down_proj.lora_b,
            )
            &&& after.mlp.down_proj.lora_b == held_under(
                params,
                spelled("layers."@, i as nat, "mlp.down_proj.lora_b"@),
                l.mlp.down_proj.lora_b,
            )
        }),
{
    law_self_attn_q_spelled("model"@, i as nat);
    law_parameter_lookup(NameStyle::Plain, layers, i, 0);
    assert(
        name_at(NameStyle::Plain, i as nat, layers[i].places(), 0) == lora_name(
            NameStyle::Plain,
            i as nat,
            Section::SelfAttn,
            Proj::Q,
            Half::A,
        )
    );
    law_parameter_lookup(NameStyle::Plain, layers, i, 1);
    assert(
        name_at(NameStyle::Plain, i as nat, layers[i].places(), 1) == lora_name(
            NameStyle::Plain,
            i as nat,
            Section::SelfAttn,
            Proj::Q,
            Half::B,
        )
    );
    law_self_attn_k_spelled("model"@, i as nat);
    law_parameter_lookup(NameStyle::Plain, layers, i, 2);
    assert(
        name_at(NameStyle::Plain, i as nat, layers[i].places(), 2) == lora_name(
            NameStyle::Plain,
            i as nat,
            Section::SelfAttn,
            Proj::K,
            Half::A,
        )
    );
    law_parameter_lookup(NameStyle::Plain, layers, i, 3);
    assert(
        name_at(NameStyle::Plain, i as nat, layers[i].places(), 3) == lora_name(
            NameStyle::Plain,
            i as nat,
            Section::SelfAttn,
            Proj::K,
            Half::B,
        )
    );
    law_self_attn_v_spelled("model"@, i as nat);
    law_parameter_lookup(NameStyle::Plain, layers, i, 4);
    assert(
        name_at(NameStyle::Plain, i as nat, layers[i].places(), 4) == lora_name(
            NameStyle::Plain,
            i as nat,
            Section::SelfAttn,
            Proj::V,
            Half::A,
        )
    );
    law_parameter_lookup(NameStyle::Plain, layers, i, 5);
    assert(
        name_at(NameStyle::Plain, i as nat, layers[i].places(), 5) == lora_name(
            NameStyle::Plain,
            i as nat,
            Section::SelfAttn,
            Proj::V,
            Half::B,
        )
    );
    law_self_attn_o_spelled("model"@, i as nat);
    law_parameter_lookup(NameStyle::Plain, layers, i, 6);
    assert(
        name_at(NameStyle::Plain, i as nat, layers[i].places(), 6) == lora_name(
            NameStyle::Plain,
            i as nat,
            Section::SelfAttn,
            Proj::O,
            Half::A,
        )
    );
    law_parameter_lookup(NameStyle::Plain, layers, i, 7);
    assert(
        name_at(NameStyle::Plain, i as nat, layers[i].places(), 7) == lora_name(
            NameStyle::Plain,
            i as nat,
            Section::SelfAttn,
            Proj::O,
            Half::B,
        )
    );
    law_mlp_gate_up_spelled("model"@, i as nat);
    law_parameter_lookup(NameStyle::Plain, layers, i, 8);
    assert(
        name_at(NameStyle::Plain, i as nat, layers[i].places(), 8) == lora_name(
            NameStyle::Plain,
            i as nat,
            Section::Mlp,
            Proj::GateUp,
            Half::A,
        )
    );
    law_parameter_lookup(NameStyle::Plain, layers, i, 9);
    assert(
        name_at(NameStyle::Plain, i as nat, layers[i].places(), 9) == lora_name(
            NameStyle::Plain,
            i as nat,
            Section::Mlp,
            Proj::GateUp,
            Half::B,
        )
    );
    law_mlp_down_spelled("model"@, i as nat);
    law_parameter_lookup(NameStyle::Plain, layers, i, 10);
    assert(
        name_at(NameStyle::Plain, i as nat, layers[i].places(), 10) == lora_name(
            NameStyle::Plain,
            i as nat,
            Section::Mlp,
            Proj::Down,
            Half::A,
        )
    );
    law_parameter_lookup(NameStyle::Plain, layers, i, 11);
    assert(
        name_at(NameStyle::Plain, i as nat, layers[i].places(), 11) == lora_name(
            NameStyle::Plain,
            i as nat,
            Section::Mlp,
            Proj::Down,
            Half::B,
        )
    );
}

/// Each matrix of the adapters of MLlama layers without cross-attention is saved under its own
/// name, and set from it.
#[verifier::rlimit(60)]
pub proof fn law_mllama_adapters_by_name(
    layers: Seq<MllamaLoraDecoderLayer>,
    i: int,
    params: Map<Seq<char>,
    Array>,
)
    requires
        0 <= i < layers.len(),
        layers[i].cross_attn is None,
    ensures
        ({
            let saved = parameter_map(NameStyle::Plain, layers);
            let l = layers[i];
            let after = assigned(NameStyle::Plain, layers, params)[i];
            &&& saved_under(
                saved,
                spelled("layers."@, i as nat, "self_attn.q_proj.lora_a"@),
                adapter_a(l.self_attn.q_proj),
            )
            &&& adapter_a(after.self_attn.q_proj) == held_under(
                params,
                spelled("layers."@, i as nat, "self_attn.q_proj.lora_a"@),
                adapter_a(l.self_attn.q_proj),
            )
            &&& saved_under(
                saved,
                spelled("layers."@, i as nat, "self_attn.q_proj.lora_b"@),
                adapter_b(l.self_attn.q_proj),
            )
            &&& adapter_b(after.self_attn.q_proj) == held_under(
                params,
                spelled("layers."@, i as nat, "self_attn.q_proj.lora_b"@),
                adapter_b(l.self_attn.q_proj),
            )
            &&& saved_under(
                saved,
                spelled("layers."@, i as nat, "self_attn.k_proj.lora_a"@),
                adapter_a(l.self_attn.k_proj),
            )
            &&& adapter_a(after.self_attn.k_proj) == held_under(
                params,
                spelled("layers."@, i as nat, "self_attn.k_proj.lora_a"@),
                adapter_a(l.self_attn.k_proj),
            )
            &&& saved_under(
                saved,
                spelled("layers."@, i as nat, "self_attn.k_proj.lora_b"@),
                adapter_b(l.self_attn.k_proj),
            )
            &&& adapter_b(after.self_attn.k_proj) == held_under(
                params,
                spelled("layers."@, i as nat, "self_attn.k_proj.lora_b"@),
                adapter_b(l.self_attn.k_proj),
            )
            &&& saved_under(
                saved,
                spelled("layers."@, i as nat, "self_attn.v_proj.lora_a"@),
                adapter_a(l.self_attn.v_proj),
            )
            &&& adapter_a(after.self_attn.v_proj) == held_under(
                params,
                spelled("layers."@, i as nat, "self_attn.v_proj.lora_a"@),
                adapter_a(l.self_attn.v_proj),
            )
            &&& saved_under(
                saved,
                spelled("layers."@, i as nat, "self_attn.v_proj.lora_b"@),
                adapter_b(l.self_attn.v_proj),
            )
            &&& adapter_b(after.self_attn.v_proj) == held_under(
                params,
                spelled("layers."@, i as nat, "self_attn.v_proj.lora_b"@),
                adapter_b(l.self_attn.v_proj),
            )
            &&& saved_under(
                saved,
                spelled("layers."@, i as nat, "self_attn.o_proj.lora_a"@),
                adapter_a(l.self_attn.o_proj),
            )
            &&& adapter_a(after.self_attn.o_proj) == held_under(
                params,
                spelled("layers."@, i as nat, "self_attn.o_proj.lora_a"@),
                adapter_a(l.self_attn.o_proj),
            )
            &&& saved_under(
                saved,
                spelled("layers."@, i as nat, "self_attn.o_proj.lora_b"@),
                adapter_b(l.self_attn.o_proj),
            )
            &&& adapter_b(after.self_attn.o_proj) == held_under(
                params,
                spelled("layers."@, i as nat, "self_attn.o_proj.lora_b"@),
                adapter_b(l.self_attn.o_proj),
            )
            &&& saved_under(
                saved,
                spelled("layers."@, i as nat, "mlp.gate_proj.lora_a"@),
                l.mlp.gate_proj.lora_a,
            )
            &&& after.mlp.gate_proj.lora_a == held_under(
                params,
                spelled("layers."@, i as nat, "mlp.gate_proj.lora_a"@),
                l.mlp.gate_proj.lora_a,
            )
            &&& saved_under(
                saved,
                spelled("layers."@, i as nat, "mlp.gate_proj.lora_b"@),
                l.mlp.gate_proj.lora_b,
            )
            &&& after.mlp.gate_proj.lora_b == held_under(
                params,
                spelled("layers."@, i as nat, "mlp.gate_proj.lora_b"@),
                l.mlp.gate_proj.lora_b,
            )
            &&& saved_under(
                saved,
                spelled("layers."@, i as nat, "mlp.up_proj.lora_a"@),
                l.mlp.up_proj.lora_a,
            )
            &&& after.mlp.up_proj.lora_a == held_under(
                params,
                spelled("layers."@, i as nat, "mlp.up_proj.lora_a"@),
                l.mlp.up_proj.lora_a,
            )
            &&& saved_under(
                saved,
                spelled("layers."@, i as nat, "mlp.up_proj.lora_b"@),
                l.mlp.up_proj.lora_b,
            )
            &&& after.mlp.up_proj.lora_b == held_under(
                params,
                spelled("layers."@, i as nat, "mlp.up_proj.lora_b"@),
                l.mlp.up_proj.lora_b,
            )
            &&& saved_under(
                saved,
                spelled("layers."@, i as nat, "mlp.down_proj.lora_a"@),
                l.mlp.down_proj.lora_a,
            )
            &&& after.mlp.down_proj.lora_a == held_under(
                params,
                spelled("layers."@, i as nat, "mlp.down_proj.lora_a"@),
                l.mlp.down_proj.lora_a,
            )
            &&& saved_under(
                saved,
                spelled("layers."@, i as nat, "mlp.down_proj.lora_b"@),
                l.mlp.down_proj.lora_b,
            )
            &&& after.mlp.down_proj.lora_b == held_under(
                params,
                spelled("layers."@, i as nat, "mlp.down_proj.lora_b"@),
                l.mlp.down_proj.lora_b,
            )
        }),
{
    law_self_attn_q_spelled("model"@, i as nat);
    law_parameter_lookup(NameStyle::Plain, layers, i, 0);
    assert(
        name_at(NameStyle::Plain, i as nat, layers[i].places(), 0) == lora_name(
            NameStyle::Plain,
            i as nat,
            Section::SelfAttn,
            Proj::Q,
            Half::A,
        )
    );
    law_parameter_lookup(NameStyle::Plain, layers, i, 1);
    assert(
        name_at(NameStyle::Plain, i as nat, layers[i].places(), 1) == lora_name(
            NameStyle::Plain,
            i as nat,
            Section::SelfAttn,
            Proj::Q,
            Half::B,
        )
    );
    law_self_attn_k_spelled("model"@, i as nat);
    law_parameter_lookup(NameStyle::Plain, layers, i, 2);
    assert(
        name_at(NameStyle::Plain, i as nat, layers[i].places(), 2) == lora_name(
            NameStyle::Plain,
            i as nat,
            Section::SelfAttn,
            Proj::K,
            Half::A,
        )
    );
    law_parameter_lookup(NameStyle::Plain, layers, i, 3);
    assert(
        name_at(NameStyle::Plain, i as nat, layers[i].places(), 3) == lora_name(
            NameStyle::Plain,
            i as nat,
            Section::SelfAttn,
            Proj::K,
            Half::B,
        )
    );
    law_self_attn_v_spelled("model"@, i as nat);
    law_parameter_lookup(NameStyle::Plain, layers, i, 4);
    assert(
        name_at(NameStyle::Plain, i as nat, layers[i].places(), 4) == lora_name(
            NameStyle::Plain,
            i as nat,
            Section::SelfAttn,
            Proj::V,
            Half::A,
        )
    );
    law_parameter_lookup(NameStyle::Plain, layers, i, 5);
    assert(
        name_at(NameStyle::Plain, i as nat, layers[i].places(), 5) == lora_name(
            NameStyle::Plain,
            i as nat,
            Section::SelfAttn,
            Proj::V,
            Half::B,
        )
    );
    law_self_attn_o_spelled("model"@, i as nat);
    law_parameter_lookup(NameStyle::Plain, layers, i, 6);
    assert(
        name_at(NameStyle::Plain, i as nat, layers[i].places(), 6) == lora_name(
            NameStyle::Plain,
            i as nat,
            Section::SelfAttn,
            Proj::O,
            Half::A,
        )
    );
    law_parameter_lookup(NameStyle::Plain, layers, i, 7);
    assert(
        name_at(NameStyle::Plain, i as nat, layers[i].places(), 7) == lora_name(
            NameStyle::Plain,
            i as nat,
            Section::SelfAttn,
            Proj::O,
            Half::B,
        )
    );
    law_mlp_gate_spelled("model"@, i as nat);
    law_parameter_lookup(NameStyle::Plain, layers, i, 8);
    assert(
        name_at(NameStyle::Plain, i as nat, layers[i].places(), 8) == lora_name(
            NameStyle::Plain,
            i as nat,
            Section::Mlp,
            Proj::Gate,
            Half::A,
        )
    );
    law_parameter_lookup(NameStyle::Plain, layers, i, 9);
    assert(
        name_at(NameStyle::Plain, i as nat, layers[i].places(), 9) == lora_name(
            NameStyle::Plain,
            i as nat,
            Section::Mlp,
            Proj::Gate,
            Half::B,
        )
    );
    law_mlp_up_spelled("model"@, i as nat);
    law_parameter_lookup(NameStyle::Plain, layers, i, 10);
    assert(
        name_at(NameStyle::Plain, i as nat, layers[i].places(), 10) == lora_name(
            NameStyle::Plain,
            i as nat,
            Section::Mlp,
            Proj::Up,
            Half::A,
        )
    );
    law_parameter_lookup(NameStyle::Plain, layers, i, 11);
    assert(
        name_at(NameStyle::Plain, i as nat, layers[i].places(), 11) == lora_name(
            NameStyle::Plain,
            i as nat,
            Section::Mlp,
            Proj::Up,
            Half::B,
        )
    );
    law_mlp_down_spelled("model"@, i as nat);
    law_parameter_lookup(NameStyle::Plain, layers, i, 12);
    assert(
        name_at(NameStyle::Plain, i as nat, layers[i].places(), 12) == lora_name(
            NameStyle::Plain,
            i as nat,
            Section::Mlp,
            Proj::Down,
            Half::A,
        )
    );
    law_parameter_lookup(NameStyle::Plain, layers, i, 13);
    assert(
        name_at(NameStyle::Plain, i as nat, layers[i].places(), 13) == lora_name(
            NameStyle::Plain,
            i as nat,
            Section::Mlp,
            Proj::Down,
            Half::B,
        )
    );
}

/// Each matrix of the adapters of MLlama layers with cross-attention is saved under its own name,
/// and set from it.
#[verifier::rlimit(60)]
pub proof fn law_mllama_cross_adapters_by_name(
    layers: Seq<MllamaLoraDecoderLayer>,
    i: int,
    params: Map<Seq<char>,
    Array>,
)
    requires
        0 <= i < layers.len(),
        layers[i].cross_attn is Some,
    ensures
        ({
            let saved = parameter_map(NameStyle::Plain, layers);
            let l = layers[i];
            let after = assigned(NameStyle::Plain, layers, params)[i];
            &&& saved_under(
                saved,
                spelled("layers."@, i as nat, "self_attn.q_proj.lora_a"@),
                adapter_a(l.self_attn.q_proj),
            )
            &&& adapter_a(after.self_attn.q_proj) == held_under(
                params,
                spelled("layers."@, i as nat, "self_attn.q_proj.lora_a"@),
                adapter_a(l.self_attn.q_proj),
            )
            &&& saved_under(
                saved,
                spelled("layers."@, i as nat, "self_attn.q_proj.lora_b"@),
                adapter_b(l.self_attn.q_proj),
            )
            &&& adapter_b(after.self_attn.q_proj) == held_under(
                params,
                spelled("layers."@, i as nat, "self_attn.q_proj.lora_b"@),
                adapter_b(l.self_attn.q_proj),
            )
            &&& saved_under(
                saved,
                spelled("layers."@, i as nat, "self_attn.k_proj.lora_a"@),
                adapter_a(l.self_attn.k_proj),
            )
            &&& adapter_a(after.self_attn.k_proj) == held_under(
                params,
                spelled("layers."@, i as nat, "self_attn.k_proj.lora_a"@),
                adapter_a(l.self_attn.k_proj),
            )
            &&& saved_under(
                saved,
                spelled("layers."@, i as nat, "self_attn.k_proj.lora_b"@),
                adapter_b(l.self_attn.k_proj),
            )
            &&& adapter_b(after.self_attn.k_proj) == held_under(
                params,
                spelled("layers."@, i as nat, "self_attn.k_proj.lora_b"@),
                adapter_b(l.self_attn.k_proj),
            )
            &&& saved_under(
                saved,
                spelled("layers."@, i as nat, "self_attn.v_proj.lora_a"@),
                adapter_a(l.self_attn.v_proj),
            )
            &&& adapter_a(after.self_attn.v_proj) == held_under(
                params,
                spelled("layers."@, i as nat, "self_attn.v_proj.lora_a"@),
                adapter_a(l.self_attn.v_proj),
            )
            &&& saved_under(
                saved,
                spelled("layers."@, i as nat, "self_attn.v_proj.lora_b"@),
                adapter_b(l.self_attn.v_proj),
            )
            &&& adapter_b(after.self_attn.v_proj) == held_under(
                params,
                spelled("layers."@, i as nat, "self_attn.v_proj.lora_b"@),
                adapter_b(l.self_attn.v_proj),
            )
            &&& saved_under(
                saved,
                spelled("layers."@, i as nat, "self_attn.o_proj.lora_a"@),
                adapter_a(l.self_attn.o_proj),
            )
            &&& adapter_a(after.self_attn.o_proj) == held_under(
                params,
                spelled("layers."@, i as nat, "self_attn.o_proj.lora_a"@),
                adapter_a(l.self_attn.o_proj),
            )
            &&& saved_under(
                saved,
                spelled("layers."@, i as nat, "self_attn.o_proj.lora_b"@),
                adapter_b(l.self_attn.o_proj),
            )
            &&& adapter_b(after.self_attn.o_proj) == held_under(
                params,
                spelled("layers."@, i as nat, "self_attn.o_proj.lora_b"@),
                adapter_b(l.self_attn.o_proj),
            )
            &&& saved_under(
                saved,
                spelled("layers."@, i as nat, "mlp.gate_proj.lora_a"@),
                l.mlp.gate_proj.lora_a,
            )
            &&& after.mlp.gate_proj.lora_a == held_under(
                params,
                spelled("layers."@, i as nat, "mlp.gate_proj.lora_a"@),
                l.mlp.gate_proj.lora_a,
            )
            &&& saved_under(
                saved,
                spelled("layers."@, i as nat, "mlp.gate_proj.lora_b"@),
                l.mlp.gate_proj.lora_b,
            )
            &&& after.mlp.gate_proj.lora_b == held_under(
                params,
                spelled("layers."@, i as nat, "mlp.gate_proj.lora_b"@),
                l.mlp.gate_proj.lora_b,
            )
            &&& saved_under(
                saved,
                spelled("layers."@, i as nat, "mlp.up_proj.lora_a"@),
                l.mlp.up_proj.lora_a,
            )
            &&& after.mlp.up_proj.lora_a == held_under(
                params,
                spelled("layers."@, i as nat, "mlp.up_proj.lora_a"@),
                l.mlp.up_proj.lora_a,
            )
            &&& saved_under(
                saved,
                spelled("layers."@, i as nat, "mlp.up_proj.lora_b"@),
                l.mlp.up_proj.lora_b,
            )
            &&& after.mlp.up_proj.lora_b == held_under(
                params,
                spelled("layers."@, i as nat, "mlp.up_proj.lora_b"@),
                l.mlp.up_proj.lora_b,
            )
            &&& saved_under(
                saved,
                spelled("layers."@, i as nat, "mlp.down_proj.lora_a"@),
                l.mlp.down_proj.lora_a,
            )
            &&& after.mlp.down_proj.lora_a == held_under(
                params,
                spelled("layers."@, i as nat, "mlp.down_proj.lora_a"@),
                l.mlp.down_proj.lora_a,
            )
            &&& saved_under(
                saved,
                spelled("layers."@, i as nat, "mlp.down_proj.lora_b"@),
                l.mlp.down_proj.lora_b,
            )
            &&& after.mlp.down_proj.lora_b == held_under(
                params,
                spelled("layers."@, i as nat, "mlp.down_proj.lora_b"@),
                l.mlp.down_proj.lora_b,
            )
            &&& saved_under(
                saved,
                spelled("layers."@, i as nat, "cross_attn.q_proj.lora_a"@),
                adapter_a(l.cross_attn->0.q_proj),
            )
            &&& adapter_a(after.cross_attn->0.q_proj) == held_under(
                params,
                spelled("layers."@, i as nat, "cross_attn.q_proj.lora_a"@),
                adapter_a(l.cross_attn->0.q_proj),
            )
            &&& saved_under(
                saved,
                spelled("layers."@, i as nat, "cross_attn.q_proj.lora_b"@),
                adapter_b(l.cross_attn->0.q_proj),
            )
            &&& adapter_b(after.cross_attn->0.q_proj) == held_under(
                params,
                spelled("layers."@, i as nat, "cross_attn.q_proj.lora_b"@),
                adapter_b(l.cross_attn->0.q_proj),
            )
            &&& saved_under(
                saved,
                spelled("layers."@, i as nat, "cross_attn.k_proj.lora_a"@),
                adapter_a(l.cross_attn->0.k_proj),
            )
            &&& adapter_a(after.cross_attn->0.k_proj) == held_under(
                params,
                spelled("layers."@, i as nat, "cross_attn.k_proj.lora_a"@),
                adapter_a(l.cross_attn->0.k_proj),
            )
            &&& saved_under(
                saved,
                spelled("layers."@, i as nat, "cross_attn.k_proj.lora_b"@),
                adapter_b(l.cross_attn->0.k_proj),
            )
            &&& adapter_b(after.cross_attn->0.k_proj) == held_under(
                params,
                spelled("layers."@, i as nat, "cross_attn.k_proj.lora_b"@),
                adapter_b(l.cross_attn->0.k_proj),
            )
            &&& saved_under(
                saved,
                spelled("layers."@, i as nat, "cross_attn.v_proj.lora_a"@),
                adapter_a(l.cross_attn->0.v_proj),
            )
            &&& adapter_a(after.cross_attn->0.v_proj) == held_under(
                params,
                spelled("layers."@, i as nat, "cross_attn.v_proj.lora_a"@),
                adapter_a(l.cross_attn->0.v_proj),
            )
            &&& saved_under(
                saved,
                spelled("layers."@, i as nat, "cross_attn.v_proj.lora_b"@),
                adapter_b(l.cross_attn->0.v_proj),
            )
            &&& adapter_b(after.cross_attn->0.v_proj) == held_under(
                params,
                spelled("layers."@, i as nat, "cross_attn.v_proj.lora_b"@),
                adapter_b(l.cross_attn->0.v_proj),
            )
            &&& saved_under(
                saved,
                spelled("layers."@, i as nat, "cross_attn.o_proj.lora_a"@),
                adapter_a(l.cross_attn->0.o_proj),
            )
            &&& adapter_a(after.cross_attn->0.o_proj) == held_under(
                params,
                spelled("layers."@, i as nat, "cross_attn.o_proj.lora_a"@),
                adapter_a(l.cross_attn->0.o_proj),
            )
            &&& saved_under(
                saved,
                spelled("layers."@, i as nat, "cross_attn.o_proj.lora_b"@),
                adapter_b(l.cross_attn->0.o_proj),
            )
            &&& adapter_b(after.cross_attn->0.o_proj) == held_under(
                params,
                spelled("layers."@, i as nat, "cross_attn.o_proj.lora_b"@),
                adapter_b(l.cross_attn->0.o_proj),
            )
        }),
{
    law_self_attn_q_spelled("model"@, i as nat);
    law_parameter_lookup(NameStyle::Plain, layers, i, 0);
    assert(
        name_at(NameStyle::Plain, i as nat, layers[i].places(), 0) == lora_name(
            NameStyle::Plain,
            i as nat,
            Section::SelfAttn,
            Proj::Q,
            Half::A,
        )
    );
    law_parameter_lookup(NameStyle::Plain, layers, i, 1);
    assert(
        name_at(NameStyle::Plain, i as nat, layers[i].places(), 1) == lora_name(
            NameStyle::Plain,
            i as nat,
            Section::SelfAttn,
            Proj::Q,
            Half::B,
        )
    );
    law_self_attn_k_spelled("model"@, i as nat);
    law_parameter_lookup(NameStyle::Plain, layers, i, 2);
    assert(
        name_at(NameStyle::Plain, i as nat, layers[i].places(), 2) == lora_name(
            NameStyle::Plain,
            i as nat,
            Section::SelfAttn,
            Proj::K,
            Half::A,
        )
    );
    law_parameter_lookup(NameStyle::Plain, layers, i, 3);
    assert(
        name_at(NameStyle::Plain, i as nat, layers[i].places(), 3) == lora_name(
            NameStyle::Plain,
            i as nat,
            Section::SelfAttn,
            Proj::K,
            Half::B,
        )
    );
    law_self_attn_v_spelled("model"@, i as nat);
    law_parameter_lookup(NameStyle::Plain, layers, i, 4);
    assert(
        name_at(NameStyle::Plain, i as nat, layers[i].places(), 4) == lora_name(
            NameStyle::Plain,
            i as nat,
            Section::SelfAttn,
            Proj::V,
            Half::A,
        )
    );
    law_parameter_lookup(NameStyle::Plain, layers, i, 5);
    assert(
        name_at(NameStyle::Plain, i as nat, layers[i].places(), 5) == lora_name(
            NameStyle::Plain,
            i as nat,
            Section::SelfAttn,
            Proj::V,
            Half::B,
        )
    );
    law_self_attn_o_spelled("model"@, i as nat);
    law_parameter_lookup(NameStyle::Plain, layers, i, 6);
    assert(
        name_at(NameStyle::Plain, i as nat, layers[i].places(), 6) == lora_name(
            NameStyle::Plain,
            i as nat,
            Section::SelfAttn,
            Proj::O,
            Half::A,
        )
    );
    law_parameter_lookup(NameStyle::Plain, layers, i, 7);
    assert(
        name_at(NameStyle::Plain, i as nat, layers[i].places(), 7) == lora_name(
            NameStyle::Plain,
            i as nat,
            Section::SelfAttn,
            Proj::O,
            Half::B,
        )
    );
    law_mlp_gate_spelled("model"@, i as nat);
    law_parameter_lookup(NameStyle::Plain, layers, i, 8);
    assert(
        name_at(NameStyle::Plain, i as nat, layers[i].places(), 8) == lora_name(
            NameStyle::Plain,
            i as nat,
            Section::Mlp,
            Proj::Gate,
            Half::A,
        )
    );
    law_parameter_lookup(NameStyle::Plain, layers, i, 9);
    assert(
        name_at(NameStyle::Plain, i as nat, layers[i].places(), 9) == lora_name(
            NameStyle::Plain,
            i as nat,
            Section::Mlp,
            Proj::Gate,
            Half::B,
        )
    );
    law_mlp_up_spelled("model"@, i as nat);
    law_parameter_lookup(NameStyle::Plain, layers, i, 10);
    assert(
        name_at(NameStyle::Plain, i as nat, layers[i].places(), 10) == lora_name(
            NameStyle::Plain,
            i as nat,
            Section::Mlp,
            Proj::Up,
            Half::A,
        )
    );
    law_parameter_lookup(NameStyle::Plain, layers, i, 11);
    assert(
        name_at(NameStyle::Plain, i as nat, layers[i].places(), 11) == lora_name(
            NameStyle::Plain,
            i as nat,
            Section::Mlp,
            Proj::Up,
            Half::B,
        )
    );
    law_mlp_down_spelled("model"@, i as nat);
    law_parameter_lookup(NameStyle::Plain, layers, i, 12);
    assert(
        name_at(NameStyle::Plain, i as nat, layers[i].places(), 12) == lora_name(
            NameStyle::Plain,
            i as nat,
            Section::Mlp,
            Proj::Down,
            Half::A,
        )
    );
    law_parameter_lookup(NameStyle::Plain, layers, i, 13);
    assert(
        name_at(NameStyle::Plain, i as nat, layers[i].places(), 13) == lora_name(
            NameStyle::Plain,
            i as nat,
            Section::Mlp,
            Proj::Down,
            Half::B,
        )
    );
    law_cross_attn_q_spelled("model"@, i as nat);
    law_parameter_lookup(NameStyle::Plain, layers, i, 14);
    assert(
        name_at(NameStyle::Plain, i as nat, layers[i].places(), 14) == lora_name(
            NameStyle::Plain,
            i as nat,
            Section::CrossAttn,
            Proj::Q,
            Half::A,
        )
    );
    law_parameter_lookup(NameStyle::Plain, layers, i, 15);
    assert(
        name_at(NameStyle::Plain, i as nat, layers[i].places(), 15) == lora_name(
            NameStyle::Plain,
            i as nat,
            Section::CrossAttn,
            Proj::Q,
            Half::B,
        )
    );
    law_cross_attn_k_spelled("model"@, i as nat);
    law_parameter_lookup(NameStyle::Plain, layers, i, 16);
    assert(
        name_at(NameStyle::Plain, i as nat, layers[i].places(), 16) == lora_name(
            NameStyle::Plain,
            i as nat,
            Section::CrossAttn,
            Proj::K,
            Half::A,
        )
    );
    law_parameter_lookup(NameStyle::Plain, layers, i, 17);
    assert(
        name_at(NameStyle::Plain, i as nat, layers[i].places(), 17) == lora_name(
            NameStyle::Plain,
            i as nat,
            Section::CrossAttn,
            Proj::K,
            Half::B,
        )
    );
    law_cross_attn_v_spelled("model"@, i as nat);
    law_parameter_lookup(NameStyle::Plain, layers, i, 18);
    assert(
        name_at(NameStyle::Plain, i as nat, layers[i].places(), 18) == lora_name(
            NameStyle::Plain,
            i as nat,
            Section::CrossAttn,
            Proj::V,
            Half::A,
        )
    );
    law_parameter_lookup(NameStyle::Plain, layers, i, 19);
    assert(
        name_at(NameStyle::Plain, i as nat, layers[i].places(), 19) == lora_name(
            NameStyle::Plain,
            i as nat,
            Section::CrossAttn,
            Proj::V,
            Half::B,
        )
    );
    law_cross_attn_o_spelled("model"@, i as nat);
    law_parameter_lookup(NameStyle::Plain, layers, i, 20);
    assert(
        name_at(NameStyle::Plain, i as nat, layers[i].places(), 20) == lora_name(
            NameStyle::Plain,
            i as nat,
            Section::CrossAttn,
            Proj::O,
            Half::A,
        )
    );
    law_parameter_lookup(NameStyle::Plain, layers, i, 21);
    assert(
        name_at(NameStyle::Plain, i as nat, layers[i].places(), 21) == lora_name(
            NameStyle::Plain,
            i as nat,
            Section::CrossAttn,
            Proj::O,
            Half::B,
        )
    );
}

/// Each matrix of the adapters of Nemotron-H blocks with attention is saved under its own name, and
/// set from it.
#[verifier::rlimit(60)]
pub proof fn law_nemotron_attention_adapters_by_name(
    layers: Seq<NemotronHLoraBlock>,
    i: int,
    params: Map<Seq<char>,
    Array>,
)
    requires
        0 <= i < layers.len(),
        layers[i].mixer is Attention,
    ensures
        ({
            let saved = parameter_map(NameStyle::Plain, layers);
            let l = layers[i];
            let after = assigned(NameStyle::Plain, layers, params)[i];
            &&& saved_under(
                saved,
                spelled("layers."@, i as nat, "mixer.q_proj.lora_a"@),
                l.mixer->Attention_0.q_proj.lora_a,
            )
            &&& after.mixer->Attention_0.q_proj.lora_a == held_under(
                params,
                spelled("layers."@, i as nat, "mixer.q_proj.lora_a"@),
                l.mixer->Attention_0.q_proj.lora_a,
            )
            &&& saved_under(
                saved,
                spelled("layers."@, i as nat, "mixer.q_proj.lora_b"@),
                l.mixer->Attention_0.q_proj.lora_b,
            )
            &&& after.mixer->Attention_0.q_proj.lora_b == held_under(
                params,
                spelled("layers."@, i as nat, "mixer.q_proj.lora_b"@),
                l.mixer->Attention_0.q_proj.lora_b,
            )
            &&& saved_under(
                saved,
                spelled("layers."@, i as nat, "mixer.k_proj.lora_a"@),
                l.mixer->Attention_0.k_proj.lora_a,
            )
            &&& after.mixer->Attention_0.k_proj.lora_a == held_under(
                params,
                spelled("layers."@, i as nat, "mixer.k_proj.lora_a"@),
                l.mixer->Attention_0.k_proj.lora_a,
            )
            &&& saved_under(
                saved,
                spelled("layers."@, i as nat, "mixer.k_proj.lora_b"@),
                l.mixer->Attention_0.k_proj.lora_b,
            )
            &&& after.mixer->Attention_0.k_proj.lora_b == held_under(
                params,
                spelled("layers."@, i as nat, "mixer.k_proj.lora_b"@),
                l.mixer->Attention_0.k_proj.lora_b,
            )
            &&& saved_under(
                saved,
                spelled("layers."@, i as nat, "mixer.v_proj.lora_a"@),
                l.mixer->Attention_0.v_proj.lora_a,
            )
            &&& after.mixer->Attention_0.v_proj.lora_a == held_under(
                params,
                spelled("layers."@, i as nat, "mixer.v_proj.lora_a"@),
                l.mixer->Attention_0.v_proj.lora_a,
            )
            &&& saved_under(
                saved,
                spelled("layers."@, i as nat, "mixer.v_proj.lora_b"@),
                l.mixer->Attention_0.v_proj.lora_b,
            )
            &&& after.mixer->Attention_0.v_proj.lora_b == held_under(
                params,
                spelled("layers."@, i as nat, "mixer.v_proj.lora_b"@),
                l.mixer->Attention_0.v_proj.lora_b,
            )
            &&& saved_under(
                saved,
                spelled("layers."@, i as nat, "mixer.o_proj.lora_a"@),
                l.mixer->Attention_0.o_proj.lora_a,
            )
            &&& after.mixer->Attention_0.o_proj.lora_a == held_under(
                params,
                spelled("layers."@, i as nat, "mixer.o_proj.lora_a"@),
                l.mixer->Attention_0.o_proj.lora_a,
            )
            &&& saved_under(
                saved,
                spelled("layers."@, i as nat, "mixer.o_proj.lora_b"@),
                l.mixer->Attention_0.o_proj.lora_b,
            )
            &&& after.mixer->Attention_0.o_proj.lora_b == held_under(
                params,
                spelled("layers."@, i as nat, "mixer.o_proj.lora_b"@),
                l.mixer->Attention_0.o_proj.lora_b,
            )
        }),
{
    law_mixer_q_spelled("model"@, i as nat);
    law_parameter_lookup(NameStyle::Plain, layers, i, 0);
    assert(
        name_at(NameStyle::Plain, i as nat, layers[i].places(), 0) == lora_name(
            NameStyle::Plain,
            i as nat,
            Section::Mixer,
            Proj::Q,
            Half::A,
        )
    );
    law_parameter_lookup(NameStyle::Plain, layers, i, 1);
    assert(
        name_at(NameStyle::Plain, i as nat, layers[i].places(), 1) == lora_name(
            NameStyle::Plain,
            i as nat,
            Section::Mixer,
            Proj::Q,
            Half::B,
        )
    );
    law_mixer_k_spelled("model"@, i as nat);
    law_parameter_lookup(NameStyle::Plain, layers, i, 2);
    assert(
        name_at(NameStyle::Plain, i as nat, layers[i].places(), 2) == lora_name(
            NameStyle::Plain,
            i as nat,
            Section::Mixer,
            Proj::K,
            Half::A,
        )
    );
    law_parameter_lookup(NameStyle::Plain, layers, i, 3);
    assert(
        name_at(NameStyle::Plain, i as nat, layers[i].places(), 3) == lora_name(
            NameStyle::Plain,
            i as nat,
            Section::Mixer,
            Proj::K,
            Half::B,
        )
    );
    law_mixer_v_spelled("model"@, i as nat);
    law_parameter_lookup(NameStyle::Plain, layers, i, 4);
    assert(
        name_at(NameStyle::Plain, i as nat, layers[i].places(), 4) == lora_name(
            NameStyle::Plain,
            i as nat,
            Section::Mixer,
            Proj::V,
            Half::A,
        )
    );
    law_parameter_lookup(NameStyle::Plain, layers, i, 5);
    assert(
        name_at(NameStyle::Plain, i as nat, layers[i].places(), 5) == lora_name(
            NameStyle::Plain,
            i as nat,
            Section::Mixer,
            Proj::V,
            Half::B,
        )
    );
    law_mixer_o_spelled("model"@, i as nat);
    law_parameter_lookup(NameStyle::Plain, layers, i, 6);
    assert(
        name_at(NameStyle::Plain, i as nat, layers[i].places(), 6) == lora_name(
            NameStyle::Plain,
            i as nat,
            Section::Mixer,
            Proj::O,
            Half::A,
        )
    );
    law_parameter_lookup(NameStyle::Plain, layers, i, 7);
    assert(
        name_at(NameStyle::Plain, i as nat, layers[i].places(), 7) == lora_name(
            NameStyle::Plain,
            i as nat,
            Section::Mixer,
            Proj::O,
            Half::B,
        )
    );
}

/// Each matrix of the adapters of Nemotron-H blocks with an MLP is saved under its own name, and
/// set from it.
#[verifier::rlimit(60)]
pub proof fn law_nemotron_mlp_adapters_by_name(
    layers: Seq<NemotronHLoraBlock>,
    i: int,
    params: Map<Seq<char>,
    Array>,
)
    requires
        0 <= i < layers.len(),
        layers[i].mixer is Mlp,
    ensures
        ({
            let saved = parameter_map(NameStyle::Plain, layers);
            let l = layers[i];
            let after = assigned(NameStyle::Plain, layers, params)[i];
            &&& saved_under(
                saved,
                spelled("layers."@, i as nat, "mixer.up_proj.lora_a"@),
                l.mixer->Mlp_0.up_proj.lora_a,
            )
            &&& after.mixer->Mlp_0.up_proj.lora_a == held_under(
                params,
                spelled("layers."@, i as nat, "mixer.up_proj.lora_a"@),
                l.mixer->Mlp_0.up_proj.lora_a,
            )
            &&& saved_under(
                saved,
                spelled("layers."@, i as nat, "mixer.up_proj.lora_b"@),
                l.mixer->Mlp_0.up_proj.lora_b,
            )
            &&& after.mixer->Mlp_0.up_proj.lora_b == held_under(
                params,
                spelled("layers."@, i as nat, "mixer.up_proj.lora_b"@),
                l.mixer->Mlp_0.up_proj.lora_b,
            )
            &&& saved_under(
                saved,
                spelled("layers."@, i as nat, "mixer.down_proj.lora_a"@),
                l.mixer->Mlp_0.down_proj.lora_a,
            )
            &&& after.mixer->Mlp_0.down_proj.lora_a == held_under(
                params,
                spelled("layers."@, i as nat, "mixer.down_proj.lora_a"@),
                l.mixer->Mlp_0.down_proj.lora_a,
            )
            &&& saved_under(
                saved,
                spelled("layers."@, i as nat, "mixer.down_proj.lora_b"@),
                l.mixer->Mlp_0.down_proj.lora_b,
            )
            &&& after.mixer->Mlp_0.down_proj.lora_b == held_under(
                params,
                spelled("layers."@, i as nat, "mixer.down_proj.lora_b"@),
                l.mixer->Mlp_0.down_proj.lora_b,
            )
        }),
{
    law_mixer_up_spelled("model"@, i as nat);
    law_parameter_lookup(NameStyle::Plain, layers, i, 0);
    assert(
        name_at(NameStyle::Plain, i as nat, layers[i].places(), 0) == lora_name(
            NameStyle::Plain,
            i as nat,
            Section::Mixer,
            Proj::Up,
            Half::A,
        )
    );
    law_parameter_lookup(NameStyle::Plain, layers, i, 1);
    assert(
        name_at(NameStyle::Plain, i as nat, layers[i].places(), 1) == lora_name(
            NameStyle::Plain,
            i as nat,
            Section::Mixer,
            Proj::Up,
            Half::B,
        )
    );
    law_mixer_down_spelled("model"@, i as nat);
    law_parameter_lookup(NameStyle::Plain, layers, i, 2);
    assert(
        name_at(NameStyle::Plain, i as nat, layers[i].places(), 2) == lora_name(
            NameStyle::Plain,
            i as nat,
            Section::Mixer,
            Proj::Down,
            Half::A,
        )
    );
    law_parameter_lookup(NameStyle::Plain, layers, i, 3);
    assert(
        name_at(NameStyle::Plain, i as nat, layers[i].places(), 3) == lora_name(
            NameStyle::Plain,
            i as nat,
            Section::Mixer,
            Proj::Down,
            Half::B,
        )
    );
}

/// Each matrix of the adapters of Nemotron-H blocks with a shared expert is saved under its own
/// name, and set from it.
#[verifier::rlimit(60)]
pub proof fn law_nemotron_shared_adapters_by_name(
    layers: Seq<NemotronHLoraBlock>,
    i: int,
    params: Map<Seq<char>,
    Array>,
)
    requires
        0 <= i < layers.len(),
        layers[i].mixer is MoE,
        layers[i].mixer->MoE_0.shared_expert is Some,
    ensures
        ({
            let saved = parameter_map(NameStyle::Plain, layers);
            let l = layers[i];
            let after = assigned(NameStyle::Plain, layers, params)[i];
            &&& saved_under(
                saved,
                spelled("layers."@, i as nat, "mixer.shared_expert.up_proj.lora_a"@),
                l.mixer->MoE_0.shared_expert->0.up_proj.lora_a,
            )
            &&& after.mixer->MoE_0.shared_expert->0.up_proj.lora_a == held_under(
                params,
                spelled("layers."@, i as nat, "mixer.shared_expert.up_proj.lora_a"@),
                l.mixer->MoE_0.shared_expert->0.up_proj.lora_a,
            )
            &&& saved_under(
                saved,
                spelled("layers."@, i as nat, "mixer.shared_expert.up_proj.lora_b"@),
                l.mixer->MoE_0.shared_expert->0.up_proj.lora_b,
            )
            &&& after.mixer->MoE_0.shared_expert->0.up_proj.lora_b == held_under(
                params,
                spelled("layers."@, i as nat, "mixer.shared_expert.up_proj.lora_b"@),
                l.mixer->MoE_0.shared_expert->0.up_proj.lora_b,
            )
            &&& saved_under(
                saved,
                spelled("layers."@, i as nat, "mixer.shared_expert.down_proj.lora_a"@),
                l.mixer->MoE_0.shared_expert->0.down_proj.lora_a,
            )
            &&& after.mixer->MoE_0.shared_expert->0.down_proj.lora_a == held_under(
                params,
                spelled("layers."@, i as nat, "mixer.shared_expert.down_proj.lora_a"@),
                l.mixer->MoE_0.shared_expert->0.down_proj.lora_a,
            )
            &&& saved_under(
                saved,
                spelled("layers."@, i as nat, "mixer.shared_expert.down_proj.lora_b"@),
                l.mixer->MoE_0.shared_expert->0.down_proj.lora_b,
            )
            &&& after.mixer->MoE_0.shared_expert->0.down_proj.lora_b == held_under(
                params,
                spelled("layers."@, i as nat, "mixer.shared_expert.down_proj.lora_b"@),
                l.mixer->MoE_0.shared_expert->0.down_proj.lora_b,
            )
        }),
{
    law_mixer_shared_expert_up_spelled("model"@, i as nat);
    law_parameter_lookup(NameStyle::Plain, layers, i, 0);
    assert(
        name_at(NameStyle::Plain, i as nat, layers[i].places(), 0) == lora_name(
            NameStyle::Plain,
            i as nat,
            Section::MixerSharedExpert,
            Proj::Up,
            Half::A,
        )
    );
    law_parameter_lookup(NameStyle::Plain, layers, i, 1);
    assert(
        name_at(NameStyle::Plain, i as nat, layers[i].places(), 1) == lora_name(
            NameStyle::Plain,
            i as nat,
            Section::MixerSharedExpert,
            Proj::Up,
            Half::B,
        )
    );
    law_mixer_shared_expert_down_spelled("model"@, i as nat);
    law_parameter_lookup(NameStyle::Plain, layers, i, 2);
    assert(
        name_at(NameStyle::Plain, i as nat, layers[i].places(), 2) == lora_name(
            NameStyle::Plain,
            i as nat,
            Section::MixerSharedExpert,
            Proj::Down,
            Half::A,
        )
    );
    law_parameter_lookup(NameStyle::Plain, layers, i, 3);
    assert(
        name_at(NameStyle::Plain, i as nat, layers[i].places(), 3) == lora_name(
            NameStyle::Plain,
            i as nat,
            Section::MixerSharedExpert,
            Proj::Down,
            Half::B,
        )
    );
}

/// Each matrix of the adapters of quantized Nemotron-H blocks with attention is saved under its own
/// name, and set from it.
#[verifier::rlimit(60)]
pub proof fn law_nemotron_qlora_attention_adapters_by_name(
    layers: Seq<NemotronHQloraBlock>,
    i: int,
    params: Map<Seq<char>,
    Array>,
)
    requires
        0 <= i < layers.len(),
        layers[i].mixer is Attention,
    ensures
        ({
            let saved = parameter_map(NameStyle::Plain, layers);
            let l = layers[i];
            let after = assigned(NameStyle::Plain, layers, params)[i];
            &&& saved_under(
                saved,
                spelled("layers."@, i as nat, "mixer.q_proj.lora_a"@),
                l.mixer->Attention_0.q_proj.lora_a,
            )
            &&& after.mixer->Attention_0.q_proj.lora_a == held_under(
                params,
                spelled("layers."@, i as nat, "mixer.q_proj.lora_a"@),
                l.mixer->Attention_0.q_proj.lora_a,
            )
            &&& saved_under(
                saved,
                spelled("layers."@, i as nat, "mixer.q_proj.lora_b"@),
                l.mixer->Attention_0.q_proj.lora_b,
            )
            &&& after.mixer->Attention_0.q_proj.lora_b == held_under(
                params,
                spelled("layers."@, i as nat, "mixer.q_proj.lora_b"@),
                l.mixer->Attention_0.q_proj.lora_b,
            )
            &&& saved_under(
                saved,
                spelled("layers."@, i as nat, "mixer.k_proj.lora_a"@),
                l.mixer->Attention_0.k_proj.lora_a,
            )
            &&& after.mixer->Attention_0.k_proj.lora_a == held_under(
                params,
                spelled("layers."@, i as nat, "mixer.k_proj.lora_a"@),
                l.mixer->Attention_0.k_proj.lora_a,
            )
            &&& saved_under(
                saved,
                spelled("layers."@, i as nat, "mixer.k_proj.lora_b"@),
                l.mixer->Attention_0.k_proj.lora_b,
            )
            &&& after.mixer->Attention_0.k_proj.lora_b == held_under(
                params,
                spelled("layers."@, i as nat, "mixer.k_proj.lora_b"@),
                l.mixer->Attention_0.k_proj.lora_b,
            )
            &&& saved_under(
                saved,
                spelled("layers."@, i as nat, "mixer.v_proj.lora_a"@),
                l.mixer->Attention_0.v_proj.lora_a,
            )
            &&& after.mixer->Attention_0.v_proj.lora_a == held_under(
                params,
                spelled("layers."@, i as nat, "mixer.v_proj.lora_a"@),
                l.mixer->Attention_0.v_proj.lora_a,
            )
            &&& saved_under(
                saved,
                spelled("layers."@, i as nat, "mixer.v_proj.lora_b"@),
                l.mixer->Attention_0.v_proj.lora_b,
            )
            &&& after.mixer->Attention_0.v_proj.lora_b == held_under(
                params,
                spelled("layers."@, i as nat, "mixer.v_proj.lora_b"@),
                l.mixer->Attention_0.v_proj.lora_b,
            )
            &&& saved_under(
                saved,
                spelled("layers."@, i as nat, "mixer.o_proj.lora_a"@),
                l.mixer->Attention_0.o_proj.lora_a,
            )
            &&& after.mixer->Attention_0.o_proj.lora_a == held_under(
                params,
                spelled("layers."@, i as nat, "mixer.o_proj.lora_a"@),
                l.mixer->Attention_0.o_proj.lora_a,
            )
            &&& saved_under(
                saved,
                spelled("layers."@, i as nat, "mixer.o_proj.lora_b"@),
                l.mixer->Attention_0.o_proj.lora_b,
            )
            &&& after.mixer->Attention_0.o_proj.lora_b == held_under(
                params,
                spelled("layers."@, i as nat, "mixer.o_proj.lora_b"@),
                l.mixer->Attention_0.o_proj.lora_b,
            )
        }),
{
    law_mixer_q_spelled("model"@, i as nat);
    law_parameter_lookup(NameStyle::Plain, layers, i, 0);
    assert(
        name_at(NameStyle::Plain, i as nat, layers[i].places(), 0) == lora_name(
            NameStyle::Plain,
            i as nat,
            Section::Mixer,
            Proj::Q,
            Half::A,
        )
    );
    law_parameter_lookup(NameStyle::Plain, layers, i, 1);
    assert(
        name_at(NameStyle::Plain, i as nat, layers[i].places(), 1) == lora_name(
            NameStyle::Plain,
            i as nat,
            Section::Mixer,
            Proj::Q,
            Half::B,
        )
    );
    law_mixer_k_spelled("model"@, i as nat);
    law_parameter_lookup(NameStyle::Plain, layers, i, 2);
    assert(
        name_at(NameStyle::Plain, i as nat, layers[i].places(), 2) == lora_name(
            NameStyle::Plain,
            i as nat,
            Section::Mixer,
            Proj::K,
            Half::A,
        )
    );
    law_parameter_lookup(NameStyle::Plain, layers, i, 3);
    assert(
        name_at(NameStyle::Plain, i as nat, layers[i].places(), 3) == lora_name(
            NameStyle::Plain,
            i as nat,
            Section::Mixer,
            Proj::K,
            Half::B,
        )
    );
    law_mixer_v_spelled("model"@, i as nat);
    law_parameter_lookup(NameStyle::Plain, layers, i, 4);
    assert(
        name_at(NameStyle::Plain, i as nat, layers[i].places(), 4) == lora_name(
            NameStyle::Plain,
            i as nat,
            Section::Mixer,
            Proj::V,
            Half::A,
        )
    );
    law_parameter_lookup(NameStyle::Plain, layers, i, 5);
    assert(
        name_at(NameStyle::Plain, i as nat, layers[i].places(), 5) == lora_name(
            NameStyle::Plain,
            i as nat,
            Section::Mixer,
            Proj::V,
            Half::B,
        )
    );
    law_mixer_o_spelled("model"@, i as nat);
    law_parameter_lookup(NameStyle::Plain, layers, i, 6);
    assert(
        name_at(NameStyle::Plain, i as nat, layers[i].places(), 6) == lora_name(
            NameStyle::Plain,
            i as nat,
            Section::Mixer,
            Proj::O,
            Half::A,
        )
    );
    law_parameter_lookup(NameStyle::Plain, layers, i, 7);
    assert(
        name_at(NameStyle::Plain, i as nat, layers[i].places(), 7) == lora_name(
            NameStyle::Plain,
            i as nat,
            Section::Mixer,
            Proj::O,
            Half::B,
        )
    );
}

/// Each matrix of the adapters of quantized Nemotron-H blocks with an MLP is saved under its own
/// name, and set from it.
#[verifier::rlimit(60)]
pub proof fn law_nemotron_qlora_mlp_adapters_by_name(
    layers: Seq<NemotronHQloraBlock>,
    i: int,
    params: Map<Seq<char>,
    Array>,
)
    requires
        0 <= i < layers.len(),
        layers[i].mixer is Mlp,
    ensures
        ({
            let saved = parameter_map(NameStyle::Plain, layers);
            let l = layers[i];
            let after = assigned(NameStyle::Plain, layers, params)[i];
            &&& saved_under(
                saved,
                spelled("layers."@, i as nat, "mixer.up_proj.lora_a"@),
                l.mixer->Mlp_0.up_proj.lora_a,
            )
            &&& after.mixer->Mlp_0.up_proj.lora_a == held_under(
                params,
                spelled("layers."@, i as nat, "mixer.up_proj.lora_a"@),
                l.mixer->Mlp_0.up_proj.lora_a,
            )
            &&& saved_under(
                saved,
                spelled("layers."@, i as nat, "mixer.up_proj.lora_b"@),
                l.mixer->Mlp_0.up_proj.lora_b,
            )
            &&& after.mixer->Mlp_0.up_proj.lora_b == held_under(
                params,
                spelled("layers."@, i as nat, "mixer.up_proj.lora_b"@),
                l.mixer->Mlp_0.up_proj.lora_b,
            )
            &&& saved_under(
                saved,
                spelled("layers."@, i as nat, "mixer.down_proj.lora_a"@),
                l.mixer->Mlp_0.down_proj.lora_a,
            )
            &&& after.mixer->Mlp_0.down_proj.lora_a == held_under(
                params,
                spelled("layers."@, i as nat, "mixer.down_proj.lora_a"@),
                l.mixer->Mlp_0.down_proj.lora_a,
            )
            &&& saved_under(
                saved,
                spelled("layers."@, i as nat, "mixer.down_proj.lora_b"@),
                l.mixer->Mlp_0.down_proj.lora_b,
            )
            &&& after.mixer->Mlp_0.down_proj.lora_b == held_under(
                params,
                spelled("layers."@, i as nat, "mixer.down_proj.lora_b"@),
                l.mixer->Mlp_0.down_proj.lora_b,
            )
        }),
{
    law_mixer_up_spelled("model"@, i as nat);
    law_parameter_lookup(NameStyle::Plain, layers, i, 0);
    assert(
        name_at(NameStyle::Plain, i as nat, layers[i].places(), 0) == lora_name(
            NameStyle::Plain,
            i as nat,
            Section::Mixer,
            Proj::Up,
            Half::A,
        )
    );
    law_parameter_lookup(NameStyle::Plain, layers, i, 1);
    assert(
        name_at(NameStyle::Plain, i as nat, layers[i].places(), 1) == lora_name(
            NameStyle::Plain,
            i as nat,
            Section::Mixer,
            Proj::Up,
            Half::B,
        )
    );
    law_mixer_down_spelled("model"@, i as nat);
    law_parameter_lookup(NameStyle::Plain, layers, i, 2);
    assert(
        name_at(NameStyle::Plain, i as nat, layers[i].places(), 2) == lora_name(
            NameStyle::Plain,
            i as nat,
            Section::Mixer,
            Proj::Down,
            Half::A,
        )
    );
    law_parameter_lookup(NameStyle::Plain, layers, i, 3);
    assert(
        name_at(NameStyle::Plain, i as nat, layers[i].places(), 3) == lora_name(
            NameStyle::Plain,
            i as nat,
            Section::Mixer,
            Proj::Down,
            Half::B,
        )
    );
}

/// Each matrix of the adapters of quantized Nemotron-H blocks with a shared expert is saved under
/// its own name, and set from it.
#[verifier::rlimit(60)]
pub proof fn law_nemotron_qlora_shared_adapters_by_name(
    layers: Seq<NemotronHQloraBlock>,
    i: int,
    params: Map<Seq<char>,
    Array>,
)
    requires
        0 <= i < layers.len(),
        layers[i].mixer is MoE,
        layers[i].mixer->MoE_0.shared_expert is Some,
    ensures
        ({
            let saved = parameter_map(NameStyle::Plain, layers);
            let l = layers[i];
            let after = assigned(NameStyle::Plain, layers, params)[i];
            &&& saved_under(
                saved,
                spelled("layers."@, i as nat, "mixer.shared_expert.up_proj.lora_a"@),
                l.mixer->MoE_0.shared_expert->0.up_proj.lora_a,
            )
            &&& after.mixer->MoE_0.shared_expert->0.up_proj.lora_a == held_under(
                params,
                spelled("layers."@, i as nat, "mixer.shared_expert.up_proj.lora_a"@),
                l.mixer->MoE_0.shared_expert->0.up_proj.lora_a,
            )
            &&& saved_under(
                saved,
                spelled("layers."@, i as nat, "mixer.shared_expert.up_proj.lora_b"@),
                l.mixer->MoE_0.shared_expert->0.up_proj.lora_b,
            )
            &&& after.mixer->MoE_0.shared_expert->0.up_proj.lora_b == held_under(
                params,
                spelled("layers."@, i as nat, "mixer.shared_expert.up_proj.lora_b"@),
                l.mixer->MoE_0.shared_expert->0.up_proj.lora_b,
            )
            &&& saved_under(
                saved,
                spelled("layers."@, i as nat, "mixer.shared_expert.down_proj.lora_a"@),
                l.mixer->MoE_0.shared_expert->0.down_proj.lora_a,
            )
            &&& after.mixer->MoE_0.shared_expert->0.down_proj.lora_a == held_under(
                params,
                spelled("layers."@, i as nat, "mixer.shared_expert.down_proj.lora_a"@),
                l.mixer->MoE_0.shared_expert->0.down_proj.lora_a,
            )
            &&& saved_under(
                saved,
                spelled("layers."@, i as nat, "mixer.shared_expert.down_proj.lora_b"@),
                l.mixer->MoE_0.shared_expert->0.down_proj.lora_b,
            )
            &&& after.mixer->MoE_0.shared_expert->0.down_proj.lora_b == held_under(
                params,
                spelled("layers."@, i as nat, "mixer.shared_expert.down_proj.lora_b"@),
                l.mixer->MoE_0.shared_expert->0.down_proj.lora_b,
            )
        }),
{
    law_mixer_shared_expert_up_spelled("model"@, i as nat);
    law_parameter_lookup(NameStyle::Plain, layers, i, 0);
    assert(
        name_at(NameStyle::Plain, i as nat, layers[i].places(), 0) == lora_name(
            NameStyle::Plain,
            i as nat,
            Section::MixerSharedExpert,
            Proj::Up,
            Half::A,
        )
    );
    law_parameter_lookup(NameStyle::Plain, layers, i, 1);
    assert(
        name_at(NameStyle::Plain, i as nat, layers[i].places(), 1) == lora_name(
            NameStyle::Plain,
            i as nat,
            Section::MixerSharedExpert,
            Proj::Up,
            Half::B,
        )
    );
    law_mixer_shared_expert_down_spelled("model"@, i as nat);
    law_parameter_lookup(NameStyle::Plain, layers, i, 2);
    assert(
        name_at(NameStyle::Plain, i as nat, layers[i].places(), 2) == lora_name(
            NameStyle::Plain,
            i as nat,
            Section::MixerSharedExpert,
            Proj::Down,
            Half::A,
        )
    );
    law_parameter_lookup(NameStyle::Plain, layers, i, 3);
    assert(
        name_at(NameStyle::Plain, i as nat, layers[i].places(), 3) == lora_name(
            NameStyle::Plain,
            i as nat,
            Section::MixerSharedExpert,
            Proj::Down,
            Half::B,
        )
    );
}

/// Each matrix of the adapters of Qwen3-MoE layers with one MLP is saved under its own name, and
/// set from it.
#[verifier::rlimit(60)]
pub proof fn law_moe_lora_dense_adapters_by_name(
    layers: Seq<Qwen3MoELoraDecoderLayer>,
    i: int,
    params: Map<Seq<char>,
    Array>,
)
    requires
        0 <= i < layers.len(),
        layers[i].ffn is Dense,
    ensures
        ({
            let saved = parameter_map(NameStyle::Plain, layers);
            let l = layers[i];
            let after = assigned(NameStyle::Plain, layers, params)[i];
            &&& saved_under(
                saved,
                spelled("layers."@, i as nat, "self_attn.q_proj.lora_a"@),
                l.self_attn.q_proj.lora_a,
            )
            &&& after.self_attn.q_proj.lora_a == held_under(
                params,
                spelled("layers."@, i as nat, "self_attn.q_proj.lora_a"@),
                l.self_attn.q_proj.lora_a,
            )
            &&& saved_under(
                saved,
                spelled("layers."@, i as nat, "self_attn.q_proj.lora_b"@),
                l.self_attn.q_proj.lora_b,
            )
            &&& after.self_attn.q_proj.lora_b == held_under(
                params,
                spelled("layers."@, i as nat, "self_attn.q_proj.lora_b"@),
                l.self_attn.q_proj.lora_b,
            )
            &&& saved_under(
                saved,
                spelled("layers."@, i as nat, "self_attn.k_proj.lora_a"@),
                l.self_attn.k_proj.lora_a,
            )
            &&& after.self_attn.k_proj.lora_a == held_under(
                params,
                spelled("layers."@, i as nat, "self_attn.k_proj.lora_a"@),
                l.self_attn.k_proj.lora_a,
            )
            &&& saved_under(
                saved,
                spelled("layers."@, i as nat, "self_attn.k_proj.lora_b"@),
                l.self_attn.k_proj.lora_b,
            )
            &&& after.self_attn.k_proj.lora_b == held_under(
                params,
                spelled("layers."@, i as nat, "self_attn.k_proj.lora_b"@),
                l.self_attn.k_proj.lora_b,
            )
            &&& saved_under(
                saved,
                spelled("layers."@, i as nat, "self_attn.v_proj.lora_a"@),
                l.self_attn.v_proj.lora_a,
            )
            &&& after.self_attn.v_proj.lora_a == held_under(
                params,
                spelled("layers."@, i as nat, "self_attn.v_proj.lora_a"@),
                l.self_attn.v_proj.lora_a,
            )
            &&& saved_under(
                saved,
                spelled("layers."@, i as nat, "self_attn.v_proj.lora_b"@),
                l.self_attn.v_proj.lora_b,
            )
            &&& after.self_attn.v_proj.lora_b == held_under(
                params,
                spelled("layers."@, i as nat, "self_attn.v_proj.lora_b"@),
                l.self_attn.v_proj.lora_b,
            )
            &&& saved_under(
                saved,
                spelled("layers."@, i as nat, "self_attn.o_proj.lora_a"@),
                l.self_attn.o_proj.lora_a,
            )
            &&& after.self_attn.o_proj.lora_a == held_under(
                params,
                spelled("layers."@, i as nat, "self_attn.o_proj.lora_a"@),
                l.self_attn.o_proj.lora_a,
            )
            &&& saved_under(
                saved,
                spelled("layers."@, i as nat, "self_attn.o_proj.lora_b"@),
                l.self_attn.o_proj.lora_b,
            )
            &&& after.self_attn.o_proj.lora_b == held_under(
                params,
                spelled("layers."@, i as nat, "self_attn.o_proj.lora_b"@),
                l.self_attn.o_proj.lora_b,
            )
            &&& saved_under(
                saved,
                spelled("layers."@, i as nat, "mlp.gate_proj.lora_a"@),
                l.ffn->Dense_0.gate_proj.lora_a,
            )
            &&& after.ffn->Dense_0.gate_proj.lora_a == held_under(
                params,
                spelled("layers."@, i as nat, "mlp.gate_proj.lora_a"@),
                l.ffn->Dense_0.gate_proj.lora_a,
            )
            &&& saved_under(
                saved,
                spelled("layers."@, i as nat, "mlp.gate_proj.lora_b"@),
                l.ffn->Dense_0.gate_proj.lora_b,
            )
            &&& after.ffn->Dense_0.gate_proj.lora_b == held_under(
                params,
                spelled("layers."@, i as nat, "mlp.gate_proj.lora_b"@),
                l.ffn->Dense_0.gate_proj.lora_b,
            )
            &&& saved_under(
                saved,
                spelled("layers."@, i as nat, "mlp.up_proj.lora_a"@),
                l.ffn->Dense_0.up_proj.lora_a,
            )
            &&& after.ffn->Dense_0.up_proj.lora_a == held_under(
                params,
                spelled("layers."@, i as nat, "mlp.up_proj.lora_a"@),
                l.ffn->Dense_0.up_proj.lora_a,
            )
            &&& saved_under(
                saved,
                spelled("layers."@, i as nat, "mlp.up_proj.lora_b"@),
                l.ffn->Dense_0.up_proj.lora_b,
            )
            &&& after.ffn->Dense_0.up_proj.lora_b == held_under(
                params,
                spelled("layers."@, i as nat, "mlp.up_proj.lora_b"@),
                l.ffn->Dense_0.up_proj.lora_b,
            )
            &&& saved_under(
                saved,
                spelled("layers."@, i as nat, "mlp.down_proj.lora_a"@),
                l.ffn->Dense_0.down_proj.lora_a,
            )
            &&& after.ffn->Dense_0.down_proj.lora_a == held_under(
                params,
                spelled("layers."@, i as nat, "mlp.down_proj.lora_a"@),
                l.ffn->Dense_0.down_proj.lora_a,
            )
            &&& saved_under(
                saved,
                spelled("layers."@, i as nat, "mlp.down_proj.lora_b"@),
                l.ffn->Dense_0.down_proj.lora_b,
            )
            &&& after.ffn->Dense_0.down_proj.lora_b == held_under(
                params,
                spelled("layers."@, i as nat, "mlp.down_proj.lora_b"@),
                l.ffn->Dense_0.down_proj.lora_b,
            )
        }),
{
    law_self_attn_q_spelled("model"@, i as nat);
    law_parameter_lookup(NameStyle::Plain, layers, i, 0);
    assert(
        name_at(NameStyle::Plain, i as nat, layers[i].places(), 0) == lora_name(
            NameStyle::Plain,
            i as nat,
            Section::SelfAttn,
            Proj::Q,
            Half::A,
        )
    );
    law_parameter_lookup(NameStyle::Plain, layers, i, 1);
    assert(
        name_at(NameStyle::Plain, i as nat, layers[i].places(), 1) == lora_name(
            NameStyle::Plain,
            i as nat,
            Section::SelfAttn,
            Proj::Q,
            Half::B,
        )
    );
    law_self_attn_k_spelled("model"@, i as nat);
    law_parameter_lookup(NameStyle::Plain, layers, i, 2);
    assert(
        name_at(NameStyle::Plain, i as nat, layers[i].places(), 2) == lora_name(
            NameStyle::Plain,
            i as nat,
            Section::SelfAttn,
            Proj::K,
            Half::A,
        )
    );
    law_parameter_lookup(NameStyle::Plain, layers, i, 3);
    assert(
        name_at(NameStyle::Plain, i as nat, layers[i].places(), 3) == lora_name(
            NameStyle::Plain,
            i as nat,
            Section::SelfAttn,
            Proj::K,
            Half::B,
        )
    );
    law_self_attn_v_spelled("model"@, i as nat);
    law_parameter_lookup(NameStyle::Plain, layers, i, 4);
    assert(
        name_at(NameStyle::Plain, i as nat, layers[i].places(), 4) == lora_name(
            NameStyle::Plain,
            i as nat,
            Section::SelfAttn,
            Proj::V,
            Half::A,
        )
    );
    law_parameter_lookup(NameStyle::Plain, layers, i, 5);
    assert(
        name_at(NameStyle::Plain, i as nat, layers[i].places(), 5) == lora_name(
            NameStyle::Plain,
            i as nat,
            Section::SelfAttn,
            Proj::V,
            Half::B,
        )
    );
    law_self_attn_o_spelled("model"@, i as nat);
    law_parameter_lookup(NameStyle::Plain, layers, i, 6);
    assert(
        name_at(NameStyle::Plain, i as nat, layers[i].places(), 6) == lora_name(
            NameStyle::Plain,
            i as nat,
            Section::SelfAttn,
            Proj::O,
            Half::A,
        )
    );
    law_parameter_lookup(NameStyle::Plain, layers, i, 7);
    assert(
        name_at(NameStyle::Plain, i as nat, layers[i].places(), 7) == lora_name(
            NameStyle::Plain,
            i as nat,
            Section::SelfAttn,
            Proj::O,
            Half::B,
        )
    );
    law_mlp_gate_spelled("model"@, i as nat);
    law_parameter_lookup(NameStyle::Plain, layers, i, 8);
    assert(
        name_at(NameStyle::Plain, i as nat, layers[i].places(), 8) == lora_name(
            NameStyle::Plain,
            i as nat,
            Section::Mlp,
            Proj::Gate,
            Half::A,
        )
    );
    law_parameter_lookup(NameStyle::Plain, layers, i, 9);
    assert(
        name_at(NameStyle::Plain, i as nat, layers[i].places(), 9) == lora_name(
            NameStyle::Plain,
            i as nat,
            Section::Mlp,
            Proj::Gate,
            Half::B,
        )
    );
    law_mlp_up_spelled("model"@, i as nat);
    law_parameter_lookup(NameStyle::Plain, layers, i, 10);
    assert(
        name_at(NameStyle::Plain, i as nat, layers[i].places(), 10) == lora_name(
            NameStyle::Plain,
            i as nat,
            Section::Mlp,
            Proj::Up,
            Half::A,
        )
    );
    law_parameter_lookup(NameStyle::Plain, layers, i, 11);
    assert(
        name_at(NameStyle::Plain, i as nat, layers[i].places(), 11) == lora_name(
            NameStyle::Plain,
            i as nat,
            Section::Mlp,
            Proj::Up,
            Half::B,
        )
    );
    law_mlp_down_spelled("model"@, i as nat);
    law_parameter_lookup(NameStyle::Plain, layers, i, 12);
    assert(
        name_at(NameStyle::Plain, i as nat, layers[i].places(), 12) == lora_name(
            NameStyle::Plain,
            i as nat,
            Section::Mlp,
            Proj::Down,
            Half::A,
        )
    );
    law_parameter_lookup(NameStyle::Plain, layers, i, 13);
    assert(
        name_at(NameStyle::Plain, i as nat, layers[i].places(), 13) == lora_name(
            NameStyle::Plain,
            i as nat,
            Section::Mlp,
            Proj::Down,
            Half::B,
        )
    );
}

/// Each matrix of the adapters of Qwen3-MoE layers with experts is saved under its own name, and
/// set from it.
#[verifier::rlimit(60)]
pub proof fn law_moe_lora_sparse_adapters_by_name(
    layers: Seq<Qwen3MoELoraDecoderLayer>,
    i: int,
    params: Map<Seq<char>,
    Array>,
)
    requires
        0 <= i < layers.len(),
        layers[i].ffn is MoE,
    ensures
        ({
            let saved = parameter_map(NameStyle::Plain, layers);
            let l = layers[i];
            let after = assigned(NameStyle::Plain, layers, params)[i];
            &&& saved_under(
                saved,
                spelled("layers."@, i as nat, "self_attn.q_proj.lora_a"@),
                l.self_attn.q_proj.lora_a,
            )
            &&& after.self_attn.q_proj.lora_a == held_under(
                params,
                spelled("layers."@, i as nat, "self_attn.q_proj.lora_a"@),
                l.self_attn.q_proj.lora_a,
            )
            &&& saved_under(
                saved,
                spelled("layers."@, i as nat, "self_attn.q_proj.lora_b"@),
                l.self_attn.q_proj.lora_b,
            )
            &&& after.self_attn.q_proj.lora_b == held_under(
                params,
                spelled("layers."@, i as nat, "self_attn.q_proj.lora_b"@),
                l.self_attn.q_proj.lora_b,
            )
            &&& saved_under(
                saved,
                spelled("layers."@, i as nat, "self_attn.k_proj.lora_a"@),
                l.self_attn.k_proj.lora_a,
            )
            &&& after.self_attn.k_proj.lora_a == held_under(
                params,
                spelled("layers."@, i as nat, "self_attn.k_proj.lora_a"@),
                l.self_attn.k_proj.lora_a,
            )
            &&& saved_under(
                saved,
                spelled("layers."@, i as nat, "self_attn.k_proj.lora_b"@),
                l.self_attn.k_proj.lora_b,
            )
            &&& after.self_attn.k_proj.lora_b == held_under(
                params,
                spelled("layers."@, i as nat, "self_attn.k_proj.lora_b"@),
                l.self_attn.k_proj.lora_b,
            )
            &&& saved_under(
                saved,
                spelled("layers."@, i as nat, "self_attn.v_proj.lora_a"@),
                l.self_attn.v_proj.lora_a,
            )
            &&& after.self_attn.v_proj.lora_a == held_under(
                params,
                spelled("layers."@, i as nat, "self_attn.v_proj.lora_a"@),
                l.self_attn.v_proj.lora_a,
            )
            &&& saved_under(
                saved,
                spelled("layers."@, i as nat, "self_attn.v_proj.lora_b"@),
                l.self_attn.v_proj.lora_b,
            )
            &&& after.self_attn.v_proj.lora_b == held_under(
                params,
                spelled("layers."@, i as nat, "self_attn.v_proj.lora_b"@),
                l.self_attn.v_proj.lora_b,
            )
            &&& saved_under(
                saved,
                spelled("layers."@, i as nat, "self_attn.o_proj.lora_a"@),
                l.self_attn.o_proj.lora_a,
            )
            &&& after.self_attn.o_proj.lora_a == held_under(
                params,
                spelled("layers."@, i as nat, "self_attn.o_proj.lora_a"@),
                l.self_attn.o_proj.lora_a,
            )
            &&& saved_under(
                saved,
                spelled("layers."@, i as nat, "self_attn.o_proj.lora_b"@),
                l.self_attn.o_proj.lora_b,
            )
            &&& after.self_attn.o_proj.lora_b == held_under(
                params,
                spelled("layers."@, i as nat, "self_attn.o_proj.lora_b"@),
                l.self_attn.o_proj.lora_b,
            )
            &&& saved_under(
                saved,
                spelled("layers."@, i as nat, "mlp.gate.lora_a"@),
                l.ffn->MoE_0.gate.lora_a,
            )
            &&& after.ffn->MoE_0.gate.lora_a == held_under(
                params,
                spelled("layers."@, i as nat, "mlp.gate.lora_a"@),
                l.ffn->MoE_0.gate.lora_a,
            )
            &&& saved_under(
                saved,
                spelled("layers."@, i as nat, "mlp.gate.lora_b"@),
                l.ffn->MoE_0.gate.lora_b,
            )
            &&& after.ffn->MoE_0.gate.lora_b == held_under(
                params,
                spelled("layers."@, i as nat, "mlp.gate.lora_b"@),
                l.ffn->MoE_0.gate.lora_b,
            )
        }),
{
    law_self_attn_q_spelled("model"@, i as nat);
    law_parameter_lookup(NameStyle::Plain, layers, i, 0);
    assert(
        name_at(NameStyle::Plain, i as nat, layers[i].places(), 0) == lora_name(
            NameStyle::Plain,
            i as nat,
            Section::SelfAttn,
            Proj::Q,
            Half::A,
        )
    );
    law_parameter_lookup(NameStyle::Plain, layers, i, 1);
    assert(
        name_at(NameStyle::Plain, i as nat, layers[i].places(), 1) == lora_name(
            NameStyle::Plain,
            i as nat,
            Section::SelfAttn,
            Proj::Q,
            Half::B,
        )
    );
    law_self_attn_k_spelled("model"@, i as nat);
    law_parameter_lookup(NameStyle::Plain, layers, i, 2);
    assert(
        name_at(NameStyle::Plain, i as nat, layers[i].places(), 2) == lora_name(
            NameStyle::Plain,
            i as nat,
            Section::SelfAttn,
            Proj::K,
            Half::A,
        )
    );
    law_parameter_lookup(NameStyle::Plain, layers, i, 3);
    assert(
        name_at(NameStyle::Plain, i as nat, layers[i].places(), 3) == lora_name(
            NameStyle::Plain,
            i as nat,
            Section::SelfAttn,
            Proj::K,
            Half::B,
        )
    );
    law_self_attn_v_spelled("model"@, i as nat);
    law_parameter_lookup(NameStyle::Plain, layers, i, 4);
    assert(
        name_at(NameStyle::Plain, i as nat, layers[i].places(), 4) == lora_name(
            NameStyle::Plain,
            i as nat,
            Section::SelfAttn,
            Proj::V,
            Half::A,
        )
    );
    law_parameter_lookup(NameStyle::Plain, layers, i, 5);
    assert(
        name_at(NameStyle::Plain, i as nat, layers[i].places(), 5) == lora_name(
            NameStyle::Plain,
            i as nat,
            Section::SelfAttn,
            Proj::V,
            Half::B,
        )
    );
    law_self_attn_o_spelled("model"@, i as nat);
    law_parameter_lookup(NameStyle::Plain, layers, i, 6);
    assert(
        name_at(NameStyle::Plain, i as nat, layers[i].places(), 6) == lora_name(
            NameStyle::Plain,
            i as nat,
            Section::SelfAttn,
            Proj::O,
            Half::A,
        )
    );
    law_parameter_lookup(NameStyle::Plain, layers, i, 7);
    assert(
        name_at(NameStyle::Plain, i as nat, layers[i].places(), 7) == lora_name(
            NameStyle::Plain,
            i as nat,
            Section::SelfAttn,
            Proj::O,
            Half::B,
        )
    );
    law_mlp_router_spelled("model"@, i as nat);
    law_parameter_lookup(NameStyle::Plain, layers, i, 8);
    assert(
        name_at(NameStyle::Plain, i as nat, layers[i].places(), 8) == lora_name(
            NameStyle::Plain,
            i as nat,
            Section::Mlp,
            Proj::Router,
            Half::A,
        )
    );
    law_parameter_lookup(NameStyle::Plain, layers, i, 9);
    assert(
        name_at(NameStyle::Plain, i as nat, layers[i].places(), 9) == lora_name(
            NameStyle::Plain,
            i as nat,
            Section::Mlp,
            Proj::Router,
            Half::B,
        )
    );
}

/// Each matrix of the adapters of quantized Qwen3-MoE layers with one MLP is saved under its own
/// name, and set from it.
#[verifier::rlimit(60)]
pub proof fn law_moe_qlora_dense_adapters_by_name(
    layers: Seq<Qwen3MoEQLoraDecoderLayer>,
    i: int,
    params: Map<Seq<char>,
    Array>,
)
    requires
        0 <= i < layers.len(),
        layers[i].ffn is Dense,
    ensures
        ({
            let saved = parameter_map(NameStyle::Plain, layers);
            let l = layers[i];
            let after = assigned(NameStyle::Plain, layers, params)[i];
            &&& saved_under(
                saved,
                spelled("layers."@, i as nat, "self_attn.q_proj.lora_a"@),
                l.self_attn.q_proj.lora_a,
            )
            &&& after.self_attn.q_proj.lora_a == held_under(
                params,
                spelled("layers."@, i as nat, "self_attn.q_proj.lora_a"@),
                l.self_attn.q_proj.lora_a,
            )
            &&& saved_under(
                saved,
                spelled("layers."@, i as nat, "self_attn.q_proj.lora_b"@),
                l.self_attn.q_proj.lora_b,
            )
            &&& after.self_attn.q_proj.lora_b == held_under(
                params,
                spelled("layers."@, i as nat, "self_attn.q_proj.lora_b"@),
                l.self_attn.q_proj.lora_b,
            )
            &&& saved_under(
                saved,
                spelled("layers."@, i as nat, "self_attn.k_proj.lora_a"@),
                l.self_attn.k_proj.lora_a,
            )
            &&& after.self_attn.k_proj.lora_a == held_under(
                params,
                spelled("layers."@, i as nat, "self_attn.k_proj.lora_a"@),
                l.self_attn.k_proj.lora_a,
            )
            &&& saved_under(
                saved,
                spelled("layers."@, i as nat, "self_attn.k_proj.lora_b"@),
                l.self_attn.k_proj.lora_b,
            )
            &&& after.self_attn.k_proj.lora_b == held_under(
                params,
                spelled("layers."@, i as nat, "self_attn.k_proj.lora_b"@),
                l.self_attn.k_proj.lora_b,
            )
            &&& saved_under(
                saved,
                spelled("layers."@, i as nat, "self_attn.v_proj.lora_a"@),
                l.self_attn.v_proj.lora_a,
            )
            &&& after.self_attn.v_proj.lora_a == held_under(
                params,
                spelled("layers."@, i as nat, "self_attn.v_proj.lora_a"@),
                l.self_attn.v_proj.lora_a,
            )
            &&& saved_under(
                saved,
                spelled("layers."@, i as nat, "self_attn.v_proj.lora_b"@),
                l.self_attn.v_proj.lora_b,
            )
            &&& after.self_attn.v_proj.lora_b == held_under(
                params,
                spelled("layers."@, i as nat, "self_attn.v_proj.lora_b"@),
                l.self_attn.v_proj.lora_b,
            )
            &&& saved_under(
                saved,
                spelled("layers."@, i as nat, "self_attn.o_proj.lora_a"@),
                l.self_attn.o_proj.lora_a,
            )
            &&& after.self_attn.o_proj.lora_a == held_under(
                params,
                spelled("layers."@, i as nat, "self_attn.o_proj.lora_a"@),
                l.self_attn.o_proj.lora_a,
            )
            &&& saved_under(
                saved,
                spelled("layers."@, i as nat, "self_attn.o_proj.lora_b"@),
                l.self_attn.o_proj.lora_b,
            )
            &&& after.self_attn.o_proj.lora_b == held_under(
                params,
                spelled("layers."@, i as nat, "self_attn.o_proj.lora_b"@),
                l.self_attn.o_proj.lora_b,
            )
            &&& saved_under(
                saved,
                spelled("layers."@, i as nat, "mlp.gate_proj.lora_a"@),
                l.ffn->Dense_0.gate_proj.lora_a,
            )
            &&& after.ffn->Dense_0.gate_proj.lora_a == held_under(
                params,
                spelled("layers."@, i as nat, "mlp.gate_proj.lora_a"@),
                l.ffn->Dense_0.gate_proj.lora_a,
            )
            &&& saved_under(
                saved,
                spelled("layers."@, i as nat, "mlp.gate_proj.lora_b"@),
                l.ffn->Dense_0.gate_proj.lora_b,
            )
            &&& after.ffn->Dense_0.gate_proj.lora_b == held_under(
                params,
                spelled("layers."@, i as nat, "mlp.gate_proj.lora_b"@),
                l.ffn->Dense_0.gate_proj.lora_b,
            )
            &&& saved_under(
                saved,
                spelled("layers."@, i as nat, "mlp.up_proj.lora_a"@),
                l.ffn->Dense_0.up_proj.lora_a,
            )
            &&& after.ffn->Dense_0.up_proj.lora_a == held_under(
                params,
                spelled("layers."@, i as nat, "mlp.up_proj.lora_a"@),
                l.ffn->Dense_0.up_proj.lora_a,
            )
            &&& saved_under(
                saved,
                spelled("layers."@, i as nat, "mlp.up_proj.lora_b"@),
                l.ffn->Dense_0.up_proj.lora_b,
            )
            &&& after.ffn->Dense_0.up_proj.lora_b == held_under(
                params,
                spelled("layers."@, i as nat, "mlp.up_proj.lora_b"@),
                l.ffn->Dense_0.up_proj.lora_b,
            )
            &&& saved_under(
                saved,
                spelled("layers."@, i as nat, "mlp.down_proj.lora_a"@),
                l.ffn->Dense_0.down_proj.lora_a,
            )
            &&& after.ffn->Dense_0.down_proj.lora_a == held_under(
                params,
                spelled("layers."@, i as nat, "mlp.down_proj.lora_a"@),
                l.ffn->Dense_0.down_proj.lora_a,
            )
            &&& saved_under(
                saved,
                spelled("layers."@, i as nat, "mlp.down_proj.lora_b"@),
                l.ffn->Dense_0.down_proj.lora_b,
            )
            &&& after.ffn->Dense_0.down_proj.lora_b == held_under(
                params,
                spelled("layers."@, i as nat, "mlp.down_proj.lora_b"@),
                l.ffn->Dense_0.down_proj.lora_b,
            )
        }),
{
    law_self_attn_q_spelled("model"@, i as nat);
    law_parameter_lookup(NameStyle::Plain, layers, i, 0);
    assert(
        name_at(NameStyle::Plain, i as nat, layers[i].places(), 0) == lora_name(
            NameStyle::Plain,
            i as nat,
            Section::SelfAttn,
            Proj::Q,
            Half::A,
        )
    );
    law_parameter_lookup(NameStyle::Plain, layers, i, 1);
    assert(
        name_at(NameStyle::Plain, i as nat, layers[i].places(), 1) == lora_name(
            NameStyle::Plain,
            i as nat,
            Section::SelfAttn,
            Proj::Q,
            Half::B,
        )
    );
    law_self_attn_k_spelled("model"@, i as nat);
    law_parameter_lookup(NameStyle::Plain, layers, i, 2);
    assert(
        name_at(NameStyle::Plain, i as nat, layers[i].places(), 2) == lora_name(
            NameStyle::Plain,
            i as nat,
            Section::SelfAttn,
            Proj::K,
            Half::A,
        )
    );
    law_parameter_lookup(NameStyle::Plain, layers, i, 3);
    assert(
        name_at(NameStyle::Plain, i as nat, layers[i].places(), 3) == lora_name(
            NameStyle::Plain,
            i as nat,
            Section::SelfAttn,
            Proj::K,
            Half::B,
        )
    );
    law_self_attn_v_spelled("model"@, i as nat);
    law_parameter_lookup(NameStyle::Plain, layers, i, 4);
    assert(
        name_at(NameStyle::Plain, i as nat, layers[i].places(), 4) == lora_name(
            NameStyle::Plain,
            i as nat,
            Section::SelfAttn,
            Proj::V,
            Half::A,
        )
    );
    law_parameter_lookup(NameStyle::Plain, layers, i, 5);
    assert(
        name_at(NameStyle::Plain, i as nat, layers[i].places(), 5) == lora_name(
            NameStyle::Plain,
            i as nat,
            Section::SelfAttn,
            Proj::V,
            Half::B,
        )
    );
    law_self_attn_o_spelled("model"@, i as nat);
    law_parameter_lookup(NameStyle::Plain, layers, i, 6);
    assert(
        name_at(NameStyle::Plain, i as nat, layers[i].places(), 6) == lora_name(
            NameStyle::Plain,
            i as nat,
            Section::SelfAttn,
            Proj::O,
            Half::A,
        )
    );
    law_parameter_lookup(NameStyle::Plain, layers, i, 7);
    assert(
        name_at(NameStyle::Plain, i as nat, layers[i].places(), 7) == lora_name(
            NameStyle::Plain,
            i as nat,
            Section::SelfAttn,
            Proj::O,
            Half::B,
        )
    );
    law_mlp_gate_spelled("model"@, i as nat);
    law_parameter_lookup(NameStyle::Plain, layers, i, 8);
    assert(
        name_at(NameStyle::Plain, i as nat, layers[i].places(), 8) == lora_name(
            NameStyle::Plain,
            i as nat,
            Section::Mlp,
            Proj::Gate,
            Half::A,
        )
    );
    law_parameter_lookup(NameStyle::Plain, layers, i, 9);
    assert(
        name_at(NameStyle::Plain, i as nat, layers[i].places(), 9) == lora_name(
            NameStyle::Plain,
            i as nat,
            Section::Mlp,
            Proj::Gate,
            Half::B,
        )
    );
    law_mlp_up_spelled("model"@, i as nat);
    law_parameter_lookup(NameStyle::Plain, layers, i, 10);
    assert(
        name_at(NameStyle::Plain, i as nat, layers[i].places(), 10) == lora_name(
            NameStyle::Plain,
            i as nat,
            Section::Mlp,
            Proj::Up,
            Half::A,
        )
    );
    law_parameter_lookup(NameStyle::Plain, layers, i, 11);
    assert(
        name_at(NameStyle::Plain, i as nat, layers[i].places(), 11) == lora_name(
            NameStyle::Plain,
            i as nat,
            Section::Mlp,
            Proj::Up,
            Half::B,
        )
    );
    law_mlp_down_spelled("model"@, i as nat);
    law_parameter_lookup(NameStyle::Plain, layers, i, 12);
    assert(
        name_at(NameStyle::Plain, i as nat, layers[i].places(), 12) == lora_name(
            NameStyle::Plain,
            i as nat,
            Section::Mlp,
            Proj::Down,
            Half::A,
        )
    );
    law_parameter_lookup(NameStyle::Plain, layers, i, 13);
    assert(
        name_at(NameStyle::Plain, i as nat, layers[i].places(), 13) == lora_name(
            NameStyle::Plain,
            i as nat,
            Section::Mlp,
            Proj::Down,
            Half::B,
        )
    );
}

/// Each matrix of the adapters of quantized Qwen3-MoE layers with experts is saved under its own
/// name, and set from it.
#[verifier::rlimit(60)]
pub proof fn law_moe_qlora_sparse_adapters_by_name(
    layers: Seq<Qwen3MoEQLoraDecoderLayer>,
    i: int,
    params: Map<Seq<char>,
    Array>,
)
    requires
        0 <= i < layers.len(),
        layers[i].ffn is MoE,
    ensures
        ({
            let saved = parameter_map(NameStyle::Plain, layers);
            let l = layers[i];
            let after = assigned(NameStyle::Plain, layers, params)[i];
            &&& saved_under(
                saved,
                spelled("layers."@, i as nat, "self_attn.q_proj.lora_a"@),
                l.self_attn.q_proj.lora_a,
            )
            &&& after.self_attn.q_proj.lora_a == held_under(
                params,
                spelled("layers."@, i as nat, "self_attn.q_proj.lora_a"@),
                l.self_attn.q_proj.lora_a,
            )
            &&& saved_under(
                saved,
                spelled("layers."@, i as nat, "self_attn.q_proj.lora_b"@),
                l.self_attn.q_proj.lora_b,
            )
            &&& after.self_attn.q_proj.lora_b == held_under(
                params,
                spelled("layers."@, i as nat, "self_attn.q_proj.lora_b"@),
                l.self_attn.q_proj.lora_b,
            )
            &&& saved_under(
                saved,
                spelled("layers."@, i as nat, "self_attn.k_proj.lora_a"@),
                l.self_attn.k_proj.lora_a,
            )
            &&& after.self_attn.k_proj.lora_a == held_under(
                params,
                spelled("layers."@, i as nat, "self_attn.k_proj.lora_a"@),
                l.self_attn.k_proj.lora_a,
            )
            &&& saved_under(
                saved,
                spelled("layers."@, i as nat, "self_attn.k_proj.lora_b"@),
                l.self_attn.k_proj.lora_b,
            )
            &&& after.self_attn.k_proj.lora_b == held_under(
                params,
                spelled("layers."@, i as nat, "self_attn.k_proj.lora_b"@),
                l.self_attn.k_proj.lora_b,
            )
            &&& saved_under(
                saved,
                spelled("layers."@, i as nat, "self_attn.v_proj.lora_a"@),
                l.self_attn.v_proj.lora_a,
            )
            &&& after.self_attn.v_proj.lora_a == held_under(
                params,
                spelled("layers."@, i as nat, "self_attn.v_proj.lora_a"@),
                l.self_attn.v_proj.lora_a,
            )
            &&& saved_under(
                saved,
                spelled("layers."@, i as nat, "self_attn.v_proj.lora_b"@),
                l.self_attn.v_proj.lora_b,
            )
            &&& after.self_attn.v_proj.lora_b == held_under(
                params,
                spelled("layers."@, i as nat, "self_attn.v_proj.lora_b"@),
                l.self_attn.v_proj.lora_b,
            )
            &&& saved_under(
                saved,
                spelled("layers."@, i as nat, "self_attn.o_proj.lora_a"@),
                l.self_attn.o_proj.lora_a,
            )
            &&& after.self_attn.o_proj.lora_a == held_under(
                params,
                spelled("layers."@, i as nat, "self_attn.o_proj.lora_a"@),
                l.self_attn.o_proj.lora_a,
            )
            &&& saved_under(
                saved,
                spelled("layers."@, i as nat, "self_attn.o_proj.lora_b"@),
                l.self_attn.o_proj.lora_b,
            )
            &&& after.self_attn.o_proj.lora_b == held_under(
                params,
                spelled("layers."@, i as nat, "self_attn.o_proj.lora_b"@),
                l.self_attn.o_proj.lora_b,
            )
            &&& saved_under(
                saved,
                spelled("layers."@, i as nat, "mlp.gate.lora_a"@),
                l.ffn->MoE_0.gate.lora_a,
            )
            &&& after.ffn->MoE_0.gate.lora_a == held_under(
                params,
                spelled("layers."@, i as nat, "mlp.gate.lora_a"@),
                l.ffn->MoE_0.gate.lora_a,
            )
            &&& saved_under(
                saved,
                spelled("layers."@, i as nat, "mlp.gate.lora_b"@),
                l.ffn->MoE_0.gate.lora_b,
            )
            &&& after.ffn->MoE_0.gate.lora_b == held_under(
                params,
                spelled("layers."@, i as nat, "mlp.gate.lora_b"@),
                l.ffn->MoE_0.gate.lora_b,
            )
        }),
{
    law_self_attn_q_spelled("model"@, i as nat);
    law_parameter_lookup(NameStyle::Plain, layers, i, 0);
    assert(
        name_at(NameStyle::Plain, i as nat, layers[i].places(), 0) == lora_name(
            NameStyle::Plain,
            i as nat,
            Section::SelfAttn,
            Proj::Q,
            Half::A,
        )
    );
    law_parameter_lookup(NameStyle::Plain, layers, i, 1);
    assert(
        name_at(NameStyle::Plain, i as nat, layers[i].places(), 1) == lora_name(
            NameStyle::Plain,
            i as nat,
            Section::SelfAttn,
            Proj::Q,
            Half::B,
        )
    );
    law_self_attn_k_spelled("model"@, i as nat);
    law_parameter_lookup(NameStyle::Plain, layers, i, 2);
    assert(
        name_at(NameStyle::Plain, i as nat, layers[i].places(), 2) == lora_name(
            NameStyle::Plain,
            i as nat,
            Section::SelfAttn,
            Proj::K,
            Half::A,
        )
    );
    law_parameter_lookup(NameStyle::Plain, layers, i, 3);
    assert(
        name_at(NameStyle::Plain, i as nat, layers[i].places(), 3) == lora_name(
            NameStyle::Plain,
            i as nat,
            Section::SelfAttn,
            Proj::K,
            Half::B,
        )
    );
    law_self_attn_v_spelled("model"@, i as nat);
    law_parameter_lookup(NameStyle::Plain, layers, i, 4);
    assert(
        name_at(NameStyle::Plain, i as nat, layers[i].places(), 4) == lora_name(
            NameStyle::Plain,
            i as nat,
            Section::SelfAttn,
            Proj::V,
            Half::A,
        )
    );
    law_parameter_lookup(NameStyle::Plain, layers, i, 5);
    assert(
        name_at(NameStyle::Plain, i as nat, layers[i].places(), 5) == lora_name(
            NameStyle::Plain,
            i as nat,
            Section::SelfAttn,
            Proj::V,
            Half::B,
        )
    );
    law_self_attn_o_spelled("model"@, i as nat);
    law_parameter_lookup(NameStyle::Plain, layers, i, 6);
    assert(
        name_at(NameStyle::Plain, i as nat, layers[i].places(), 6) == lora_name(
            NameStyle::Plain,
            i as nat,
            Section::SelfAttn,
            Proj::O,
            Half::A,
        )
    );
    law_parameter_lookup(NameStyle::Plain, layers, i, 7);
    assert(
        name_at(NameStyle::Plain, i as nat, layers[i].places(), 7) == lora_name(
            NameStyle::Plain,
            i as nat,
            Section::SelfAttn,
            Proj::O,
            Half::B,
        )
    );
    law_mlp_router_spelled("model"@, i as nat);
    law_parameter_lookup(NameStyle::Plain, layers, i, 8);
    assert(
        name_at(NameStyle::Plain, i as nat, layers[i].places(), 8) == lora_name(
            NameStyle::Plain,
            i as nat,
            Section::Mlp,
            Proj::Router,
            Half::A,
        )
    );
    law_parameter_lookup(NameStyle::Plain, layers, i, 9);
    assert(
        name_at(NameStyle::Plain, i as nat, layers[i].places(), 9) == lora_name(
            NameStyle::Plain,
            i as nat,
            Section::Mlp,
            Proj::Router,
            Half::B,
        )
    );
}

/// Each matrix of the adapters of Qwen3-Next layers with full attention and one MLP is saved under
/// its own name, and set from it.
#[verifier::rlimit(60)]
pub proof fn law_qwen3_next_full_dense_adapters_by_name(
    layers: Seq<Qwen3NextLoraDecoderLayer>,
    i: int,
    params: Map<Seq<char>,
    Array>,
)
    requires
        0 <= i < layers.len(),
        layers[i].self_attn is Some,
        layers[i].linear_attn is None,
        layers[i].mlp is Dense,
    ensures
        ({
            let saved = parameter_map(NameStyle::Plain, layers);
            let l = layers[i];
            let after = assigned(NameStyle::Plain, layers, params)[i];
            &&& saved_under(
                saved,
                spelled("layers."@, i as nat, "self_attn.q_proj.lora_a"@),
                l.self_attn->0.q_proj.lora_a,
            )
            &&& after.self_attn->0.q_proj.lora_a == held_under(
                params,
                spelled("layers."@, i as nat, "self_attn.q_proj.lora_a"@),
                l.self_attn->0.q_proj.lora_a,
            )
            &&& saved_under(
                saved,
                spelled("layers."@, i as nat, "self_attn.q_proj.lora_b"@),
                l.self_attn->0.q_proj.lora_b,
            )
            &&& after.self_attn->0.q_proj.lora_b == held_under(
                params,
                spelled("layers."@, i as nat, "self_attn.q_proj.lora_b"@),
                l.self_attn->0.q_proj.lora_b,
            )
            &&& saved_under(
                saved,
                spelled("layers."@, i as nat, "self_attn.k_proj.lora_a"@),
                l.self_attn->0.k_proj.lora_a,
            )
            &&& after.self_attn->0.k_proj.lora_a == held_under(
                params,
                spelled("layers."@, i as nat, "self_attn.k_proj.lora_a"@),
                l.self_attn->0.k_proj.lora_a,
            )
            &&& saved_under(
                saved,
                spelled("layers."@, i as nat, "self_attn.k_proj.lora_b"@),
                l.self_attn->0.k_proj.lora_b,
            )
            &&& after.self_attn->0.k_proj.lora_b == held_under(
                params,
                spelled("layers."@, i as nat, "self_attn.k_proj.lora_b"@),
                l.self_attn->0.k_proj.lora_b,
            )
            &&& saved_under(
                saved,
                spelled("layers."@, i as nat, "self_attn.v_proj.lora_a"@),
                l.self_attn->0.v_proj.lora_a,
            )
            &&& after.self_attn->0.v_proj.lora_a == held_under(
                params,
                spelled("layers."@, i as nat, "self_attn.v_proj.lora_a"@),
                l.self_attn->0.v_proj.lora_a,
            )
            &&& saved_under(
                saved,
                spelled("layers."@, i as nat, "self_attn.v_proj.lora_b"@),
                l.self_attn->0.v_proj.lora_b,
            )
            &&& after.self_attn->0.v_proj.lora_b == held_under(
                params,
                spelled("layers."@, i as nat, "self_attn.v_proj.lora_b"@),
                l.self_attn->0.v_proj.lora_b,
            )
            &&& saved_under(
                saved,
                spelled("layers."@, i as nat, "self_attn.o_proj.lora_a"@),
                l.self_attn->0.o_proj.lora_a,
            )
            &&& after.self_attn->0.o_proj.lora_a == held_under(
                params,
                spelled("layers."@, i as nat, "self_attn.o_proj.lora_a"@),
                l.self_attn->0.o_proj.lora_a,
            )
            &&& saved_under(
                saved,
                spelled("layers."@, i as nat, "self_attn.o_proj.lora_b"@),
                l.self_attn->0.o_proj.lora_b,
            )
            &&& after.self_attn->0.o_proj.lora_b == held_under(
                params,
                spelled("layers."@, i as nat, "self_attn.o_proj.lora_b"@),
                l.self_attn->0.o_proj.lora_b,
            )
            &&& saved_under(
                saved,
                spelled("layers."@, i as nat, "mlp.gate_proj.lora_a"@),
                l.mlp->Dense_0.gate_proj.lora_a,
            )
            &&& after.mlp->Dense_0.gate_proj.lora_a == held_under(
                params,
                spelled("layers."@, i as nat, "mlp.gate_proj.lora_a"@),
                l.mlp->Dense_0.gate_proj.lora_a,
            )
            &&& saved_under(
                saved,
                spelled("layers."@, i as nat, "mlp.gate_proj.lora_b"@),
                l.mlp->Dense_0.gate_proj.lora_b,
            )
            &&& after.mlp->Dense_0.gate_proj.lora_b == held_under(
                params,
                spelled("layers."@, i as nat, "mlp.gate_proj.lora_b"@),
                l.mlp->Dense_0.gate_proj.lora_b,
            )
            &&& saved_under(
                saved,
                spelled("layers."@, i as nat, "mlp.up_proj.lora_a"@),
                l.mlp->Dense_0.up_proj.lora_a,
            )
            &&& after.mlp->Dense_0.up_proj.lora_a == held_under(
                params,
                spelled("layers."@, i as nat, "mlp.up_proj.lora_a"@),
                l.mlp->Dense_0.up_proj.lora_a,
            )
            &&& saved_under(
                saved,
                spelled("layers."@, i as nat, "mlp.up_proj.lora_b"@),
                l.mlp->Dense_0.up_proj.lora_b,
            )
            &&& after.mlp->Dense_0.up_proj.lora_b == held_under(
                params,
                spelled("layers."@, i as nat, "mlp.up_proj.lora_b"@),
                l.mlp->Dense_0.up_proj.lora_b,
            )
            &&& saved_under(
                saved,
                spelled("layers."@, i as nat, "mlp.down_proj.lora_a"@),
                l.mlp->Dense_0.down_proj.lora_a,
            )
            &&& after.mlp->Dense_0.down_proj.lora_a == held_under(
                params,
                spelled("layers."@, i as nat, "mlp.down_proj.lora_a"@),
                l.mlp->Dense_0.down_proj.lora_a,
            )
            &&& saved_under(
                saved,
                spelled("layers."@, i as nat, "mlp.down_proj.lora_b"@),
                l.mlp->Dense_0.down_proj.lora_b,
            )
            &&& after.mlp->Dense_0.down_proj.lora_b == held_under(
                params,
                spelled("layers."@, i as nat, "mlp.down_proj.lora_b"@),
                l.mlp->Dense_0.down_proj.lora_b,
            )
        }),
{
    law_self_attn_q_spelled("model"@, i as nat);
    law_parameter_lookup(NameStyle::Plain, layers, i, 0);
    assert(
        name_at(NameStyle::Plain, i as nat, layers[i].places(), 0) == lora_name(
            NameStyle::Plain,
            i as nat,
            Section::SelfAttn,
            Proj::Q,
            Half::A,
        )
    );
    law_parameter_lookup(NameStyle::Plain, layers, i, 1);
    assert(
        name_at(NameStyle::Plain, i as nat, layers[i].places(), 1) == lora_name(
            NameStyle::Plain,
            i as nat,
            Section::SelfAttn,
            Proj::Q,
            Half::B,
        )
    );
    law_self_attn_k_spelled("model"@, i as nat);
    law_parameter_lookup(NameStyle::Plain, layers, i, 2);
    assert(
        name_at(NameStyle::Plain, i as nat, layers[i].places(), 2) == lora_name(
            NameStyle::Plain,
            i as nat,
            Section::SelfAttn,
            Proj::K,
            Half::A,
        )
    );
    law_parameter_lookup(NameStyle::Plain, layers, i, 3);
    assert(
        name_at(NameStyle::Plain, i as nat, layers[i].places(), 3) == lora_name(
            NameStyle::Plain,
            i as nat,
            Section::SelfAttn,
            Proj::K,
            Half::B,
        )
    );
    law_self_attn_v_spelled("model"@, i as nat);
    law_parameter_lookup(NameStyle::Plain, layers, i, 4);
    assert(
        name_at(NameStyle::Plain, i as nat, layers[i].places(), 4) == lora_name(
            NameStyle::Plain,
            i as nat,
            Section::SelfAttn,
            Proj::V,
            Half::A,
        )
    );
    law_parameter_lookup(NameStyle::Plain, layers, i, 5);
    assert(
        name_at(NameStyle::Plain, i as nat, layers[i].places(), 5) == lora_name(
            NameStyle::Plain,
            i as nat,
            Section::SelfAttn,
            Proj::V,
            Half::B,
        )
    );
    law_self_attn_o_spelled("model"@, i as nat);
    law_parameter_lookup(NameStyle::Plain, layers, i, 6);
    assert(
        name_at(NameStyle::Plain, i as nat, layers[i].places(), 6) == lora_name(
            NameStyle::Plain,
            i as nat,
            Section::SelfAttn,
            Proj::O,
            Half::A,
        )
    );
    law_parameter_lookup(NameStyle::Plain, layers, i, 7);
    assert(
        name_at(NameStyle::Plain, i as nat, layers[i].places(), 7) == lora_name(
            NameStyle::Plain,
            i as nat,
            Section::SelfAttn,
            Proj::O,
            Half::B,
        )
    );
    law_mlp_gate_spelled("model"@, i as nat);
    law_parameter_lookup(NameStyle::Plain, layers, i, 8);
    assert(
        name_at(NameStyle::Plain, i as nat, layers[i].places(), 8) == lora_name(
            NameStyle::Plain,
            i as nat,
            Section::Mlp,
            Proj::Gate,
            Half::A,
        )
    );
    law_parameter_lookup(NameStyle::Plain, layers, i, 9);
    assert(
        name_at(NameStyle::Plain, i as nat, layers[i].places(), 9) == lora_name(
            NameStyle::Plain,
            i as nat,
            Section::Mlp,
            Proj::Gate,
            Half::B,
        )
    );
    law_mlp_up_spelled("model"@, i as nat);
    law_parameter_lookup(NameStyle::Plain, layers, i, 10);
    assert(
        name_at(NameStyle::Plain, i as nat, layers[i].places(), 10) == lora_name(
            NameStyle::Plain,
            i as nat,
            Section::Mlp,
            Proj::Up,
            Half::A,
        )
    );
    law_parameter_lookup(NameStyle::Plain, layers, i, 11);
    assert(
        name_at(NameStyle::Plain, i as nat, layers[i].places(), 11) == lora_name(
            NameStyle::Plain,
            i as nat,
            Section::Mlp,
            Proj::Up,
            Half::B,
        )
    );
    law_mlp_down_spelled("model"@, i as nat);
    law_parameter_lookup(NameStyle::Plain, layers, i, 12);
    assert(
        name_at(NameStyle::Plain, i as nat, layers[i].places(), 12) == lora_name(
            NameStyle::Plain,
            i as nat,
            Section::Mlp,
            Proj::Down,
            Half::A,
        )
    );
    law_parameter_lookup(NameStyle::Plain, layers, i, 13);
    assert(
        name_at(NameStyle::Plain, i as nat, layers[i].places(), 13) == lora_name(
            NameStyle::Plain,
            i as nat,
            Section::Mlp,
            Proj::Down,
            Half::B,
        )
    );
}

/// Each matrix of the adapters of Qwen3-Next layers with full attention and experts is saved under
/// its own name, and set from it.
#[verifier::rlimit(60)]
pub proof fn law_qwen3_next_full_sparse_adapters_by_name(
    layers: Seq<Qwen3NextLoraDecoderLayer>,
    i: int,
    params: Map<Seq<char>,
    Array>,
)
    requires
        0 <= i < layers.len(),
        layers[i].self_attn is Some,
        layers[i].linear_attn is None,
        layers[i].mlp is MoE,
    ensures
        ({
            let saved = parameter_map(NameStyle::Plain, layers);
            let l = layers[i];
            let after = assigned(NameStyle::Plain, layers, params)[i];
            &&& saved_under(
                saved,
                spelled("layers."@, i as nat, "self_attn.q_proj.lora_a"@),
                l.self_attn->0.q_proj.lora_a,
            )
            &&& after.self_attn->0.q_proj.lora_a == held_under(
                params,
                spelled("layers."@, i as nat, "self_attn.q_proj.lora_a"@),
                l.self_attn->0.q_proj.lora_a,
            )
            &&& saved_under(
                saved,
                spelled("layers."@, i as nat, "self_attn.q_proj.lora_b"@),
                l.self_attn->0.q_proj.lora_b,
            )
            &&& after.self_attn->0.q_proj.lora_b == held_under(
                params,
                spelled("layers."@, i as nat, "self_attn.q_proj.lora_b"@),
                l.self_attn->0.q_proj.lora_b,
            )
            &&& saved_under(
                saved,
                spelled("layers."@, i as nat, "self_attn.k_proj.lora_a"@),
                l.self_attn->0.k_proj.lora_a,
            )
            &&& after.self_attn->0.k_proj.lora_a == held_under(
                params,
                spelled("layers."@, i as nat, "self_attn.k_proj.lora_a"@),
                l.self_attn->0.k_proj.lora_a,
            )
            &&& saved_under(
                saved,
                spelled("layers."@, i as nat, "self_attn.k_proj.lora_b"@),
                l.self_attn->0.k_proj.lora_b,
            )
            &&& after.self_attn->0.k_proj.lora_b == held_under(
                params,
                spelled("layers."@, i as nat, "self_attn.k_proj.lora_b"@),
                l.self_attn->0.k_proj.lora_b,
            )
            &&& saved_under(
                saved,
                spelled("layers."@, i as nat, "self_attn.v_proj.lora_a"@),
                l.self_attn->0.v_proj.lora_a,
            )
            &&& after.self_attn->0.v_proj.lora_a == held_under(
                params,
                spelled("layers."@, i as nat, "self_attn.v_proj.lora_a"@),
                l.self_attn->0.v_proj.lora_a,
            )
            &&& saved_under(
                saved,
                spelled("layers."@, i as nat, "self_attn.v_proj.lora_b"@),
                l.self_attn->0.v_proj.lora_b,
            )
            &&& after.self_attn->0.v_proj.lora_b == held_under(
                params,
                spelled("layers."@, i as nat, "self_attn.v_proj.lora_b"@),
                l.self_attn->0.v_proj.lora_b,
            )
            &&& saved_under(
                saved,
                spelled("layers."@, i as nat, "self_attn.o_proj.lora_a"@),
                l.self_attn->0.o_proj.lora_a,
            )
            &&& after.self_attn->0.o_proj.lora_a == held_under(
                params,
                spelled("layers."@, i as nat, "self_attn.o_proj.lora_a"@),
                l.self_attn->0.o_proj.lora_a,
            )
            &&& saved_under(
                saved,
                spelled("layers."@, i as nat, "self_attn.o_proj.lora_b"@),
                l.self_attn->0.o_proj.lora_b,
            )
            &&& after.self_attn->0.o_proj.lora_b == held_under(
                params,
                spelled("layers."@, i as nat, "self_attn.o_proj.lora_b"@),
                l.self_attn->0.o_proj.lora_b,
            )
            &&& saved_under(
                saved,
                spelled("layers."@, i as nat, "mlp.shared_expert.gate_proj.lora_a"@),
                l.mlp->MoE_0.shared_expert.gate_proj.lora_a,
            )
            &&& after.mlp->MoE_0.shared_expert.gate_proj.lora_a == held_under(
                params,
                spelled("layers."@, i as nat, "mlp.shared_expert.gate_proj.lora_a"@),
                l.mlp->MoE_0.shared_expert.gate_proj.lora_a,
            )
            &&& saved_under(
                saved,
                spelled("layers."@, i as nat, "mlp.shared_expert.gate_proj.lora_b"@),
                l.mlp->MoE_0.shared_expert.gate_proj.lora_b,
            )
            &&& after.mlp->MoE_0.shared_expert.gate_proj.lora_b == held_under(
                params,
                spelled("layers."@, i as nat, "mlp.shared_expert.gate_proj.lora_b"@),
                l.mlp->MoE_0.shared_expert.gate_proj.lora_b,
            )
            &&& saved_under(
                saved,
                spelled("layers."@, i as nat, "mlp.shared_expert.up_proj.lora_a"@),
                l.mlp->MoE_0.shared_expert.up_proj.lora_a,
            )
            &&& after.mlp->MoE_0.shared_expert.up_proj.lora_a == held_under(
                params,
                spelled("layers."@, i as nat, "mlp.shared_expert.up_proj.lora_a"@),
                l.mlp->MoE_0.shared_expert.up_proj.lora_a,
            )
            &&& saved_under(
                saved,
                spelled("layers."@, i as nat, "mlp.shared_expert.up_proj.lora_b"@),
                l.mlp->MoE_0.shared_expert.up_proj.lora_b,
            )
            &&& after.mlp->MoE_0.shared_expert.up_proj.lora_b == held_under(
                params,
                spelled("layers."@, i as nat, "mlp.shared_expert.up_proj.lora_b"@),
                l.mlp->MoE_0.shared_expert.up_proj.lora_b,
            )
            &&& saved_under(
                saved,
                spelled("layers."@, i as nat, "mlp.shared_expert.down_proj.lora_a"@),
                l.mlp->MoE_0.shared_expert.down_proj.lora_a,
            )
            &&& after.mlp->MoE_0.shared_expert.down_proj.lora_a == held_under(
                params,
                spelled("layers."@, i as nat, "mlp.shared_expert.down_proj.lora_a"@),
                l.mlp->MoE_0.shared_expert.down_proj.lora_a,
            )
            &&& saved_under(
                saved,
                spelled("layers."@, i as nat, "mlp.shared_expert.down_proj.lora_b"@),
                l.mlp->MoE_0.shared_expert.down_proj.lora_b,
            )
            &&& after.mlp->MoE_0.shared_expert.down_proj.lora_b == held_under(
                params,
                spelled("layers."@, i as nat, "mlp.shared_expert.down_proj.lora_b"@),
                l.mlp->MoE_0.shared_expert.down_proj.lora_b,
            )
        }),
{
    law_self_attn_q_spelled("model"@, i as nat);
    law_parameter_lookup(NameStyle::Plain, layers, i, 0);
    assert(
        name_at(NameStyle::Plain, i as nat, layers[i].places(), 0) == lora_name(
            NameStyle::Plain,
            i as nat,
            Section::SelfAttn,
            Proj::Q,
            Half::A,
        )
    );
    law_parameter_lookup(NameStyle::Plain, layers, i, 1);
    assert(
        name_at(NameStyle::Plain, i as nat, layers[i].places(), 1) == lora_name(
            NameStyle::Plain,
            i as nat,
            Section::SelfAttn,
            Proj::Q,
            Half::B,
        )
    );
    law_self_attn_k_spelled("model"@, i as nat);
    law_parameter_lookup(NameStyle::Plain, layers, i, 2);
    assert(
        name_at(NameStyle::Plain, i as nat, layers[i].places(), 2) == lora_name(
            NameStyle::Plain,
            i as nat,
            Section::SelfAttn,
            Proj::K,
            Half::A,
        )
    );
    law_parameter_lookup(NameStyle::Plain, layers, i, 3);
    assert(
        name_at(NameStyle::Plain, i as nat, layers[i].places(), 3) == lora_name(
            NameStyle::Plain,
            i as nat,
            Section::SelfAttn,
            Proj::K,
            Half::B,
        )
    );
    law_self_attn_v_spelled("model"@, i as nat);
    law_parameter_lookup(NameStyle::Plain, layers, i, 4);
    assert(
        name_at(NameStyle::Plain, i as nat, layers[i].places(), 4) == lora_name(
            NameStyle::Plain,
            i as nat,
            Section::SelfAttn,
            Proj::V,
            Half::A,
        )
    );
    law_parameter_lookup(NameStyle::Plain, layers, i, 5);
    assert(
        name_at(NameStyle::Plain, i as nat, layers[i].places(), 5) == lora_name(
            NameStyle::Plain,
            i as nat,
            Section::SelfAttn,
            Proj::V,
            Half::B,
        )
    );
    law_self_attn_o_spelled("model"@, i as nat);
    law_parameter_lookup(NameStyle::Plain, layers, i, 6);
    assert(
        name_at(NameStyle::Plain, i as nat, layers[i].places(), 6) == lora_name(
            NameStyle::Plain,
            i as nat,
            Section::SelfAttn,
            Proj::O,
            Half::A,
        )
    );
    law_parameter_lookup(NameStyle::Plain, layers, i, 7);
    assert(
        name_at(NameStyle::Plain, i as nat, layers[i].places(), 7) == lora_name(
            NameStyle::Plain,
            i as nat,
            Section::SelfAttn,
            Proj::O,
            Half::B,
        )
    );
    law_mlp_shared_expert_gate_spelled("model"@, i as nat);
    law_parameter_lookup(NameStyle::Plain, layers, i, 8);
    assert(
        name_at(NameStyle::Plain, i as nat, layers[i].places(), 8) == lora_name(
            NameStyle::Plain,
            i as nat,
            Section::MlpSharedExpert,
            Proj::Gate,
            Half::A,
        )
    );
    law_parameter_lookup(NameStyle::Plain, layers, i, 9);
    assert(
        name_at(NameStyle::Plain, i as nat, layers[i].places(), 9) == lora_name(
            NameStyle::Plain,
            i as nat,
            Section::MlpSharedExpert,
            Proj::Gate,
            Half::B,
        )
    );
    law_mlp_shared_expert_up_spelled("model"@, i as nat);
    law_parameter_lookup(NameStyle::Plain, layers, i, 10);
    assert(
        name_at(NameStyle::Plain, i as nat, layers[i].places(), 10) == lora_name(
            NameStyle::Plain,
            i as nat,
            Section::MlpSharedExpert,
            Proj::Up,
            Half::A,
        )
    );
    law_parameter_lookup(NameStyle::Plain, layers, i, 11);
    assert(
        name_at(NameStyle::Plain, i as nat, layers[i].places(), 11) == lora_name(
            NameStyle::Plain,
            i as nat,
            Section::MlpSharedExpert,
            Proj::Up,
            Half::B,
        )
    );
    law_mlp_shared_expert_down_spelled("model"@, i as nat);
    law_parameter_lookup(NameStyle::Plain, layers, i, 12);
    assert(
        name_at(NameStyle::Plain, i as nat, layers[i].places(), 12) == lora_name(
            NameStyle::Plain,
            i as nat,
            Section::MlpSharedExpert,
            Proj::Down,
            Half::A,
        )
    );
    law_parameter_lookup(NameStyle::Plain, layers, i, 13);
    assert(
        name_at(NameStyle::Plain, i as nat, layers[i].places(), 13) == lora_name(
            NameStyle::Plain,
            i as nat,
            Section::MlpSharedExpert,
            Proj::Down,
            Half::B,
        )
    );
}

/// Each matrix of the adapters of Qwen3-Next layers with linear attention and one MLP is saved
/// under its own name, and set from it.
#[verifier::rlimit(60)]
pub proof fn law_qwen3_next_linear_dense_adapters_by_name(
    layers: Seq<Qwen3NextLoraDecoderLayer>,
    i: int,
    params: Map<Seq<char>,
    Array>,
)
    requires
        0 <= i < layers.len(),
        layers[i].self_attn is None,
        layers[i].linear_attn is Some,
        layers[i].mlp is Dense,
    ensures
        ({
            let saved = parameter_map(NameStyle::Plain, layers);
            let l = layers[i];
            let after = assigned(NameStyle::Plain, layers, params)[i];
            &&& saved_under(
                saved,
                spelled("layers."@, i as nat, "linear_attn.in_proj_qkv.lora_a"@),
                l.linear_attn->0.in_proj_qkv.lora_a,
            )
            &&& after.linear_attn->0.in_proj_qkv.lora_a == held_under(
                params,
                spelled("layers."@, i as nat, "linear_attn.in_proj_qkv.lora_a"@),
                l.linear_attn->0.in_proj_qkv.lora_a,
            )
            &&& saved_under(
                saved,
                spelled("layers."@, i as nat, "linear_attn.in_proj_qkv.lora_b"@),
                l.linear_attn->0.in_proj_qkv.lora_b,
            )
            &&& after.linear_attn->0.in_proj_qkv.lora_b == held_under(
                params,
                spelled("layers."@, i as nat, "linear_attn.in_proj_qkv.lora_b"@),
                l.linear_attn->0.in_proj_qkv.lora_b,
            )
            &&& saved_under(
                saved,
                spelled("layers."@, i as nat, "linear_attn.in_proj_z.lora_a"@),
                l.linear_attn->0.in_proj_z.lora_a,
            )
            &&& after.linear_attn->0.in_proj_z.lora_a == held_under(
                params,
                spelled("layers."@, i as nat, "linear_attn.in_proj_z.lora_a"@),
                l.linear_attn->0.in_proj_z.lora_a,
            )
            &&& saved_under(
                saved,
                spelled("layers."@, i as nat, "linear_attn.in_proj_z.lora_b"@),
                l.linear_attn->0.in_proj_z.lora_b,
            )
            &&& after.linear_attn->0.in_proj_z.lora_b == held_under(
                params,
                spelled("layers."@, i as nat, "linear_attn.in_proj_z.lora_b"@),
                l.linear_attn->0.in_proj_z.lora_b,
            )
            &&& saved_under(
                saved,
                spelled("layers."@, i as nat, "linear_attn.out_proj.lora_a"@),
                l.linear_attn->0.out_proj.lora_a,
            )
            &&& after.linear_attn->0.out_proj.lora_a == held_under(
                params,
                spelled("layers."@, i as nat, "linear_attn.out_proj.lora_a"@),
                l.linear_attn->0.out_proj.lora_a,
            )
            &&& saved_under(
                saved,
                spelled("layers."@, i as nat, "linear_attn.out_proj.lora_b"@),
                l.linear_attn->0.out_proj.lora_b,
            )
            &&& after.linear_attn->0.out_proj.lora_b == held_under(
                params,
                spelled("layers."@, i as nat, "linear_attn.out_proj.lora_b"@),
                l.linear_attn->0.out_proj.lora_b,
            )
            &&& saved_under(
                saved,
                spelled("layers."@, i as nat, "mlp.gate_proj.lora_a"@),
                l.mlp->Dense_0.gate_proj.lora_a,
            )
            &&& after.mlp->Dense_0.gate_proj.lora_a == held_under(
                params,
                spelled("layers."@, i as nat, "mlp.gate_proj.lora_a"@),
                l.mlp->Dense_0.gate_proj.lora_a,
            )
            &&& saved_under(
                saved,
                spelled("layers."@, i as nat, "mlp.gate_proj.lora_b"@),
                l.mlp->Dense_0.gate_proj.lora_b,
            )
            &&& after.mlp->Dense_0.gate_proj.lora_b == held_under(
                params,
                spelled("layers."@, i as nat, "mlp.gate_proj.lora_b"@),
                l.mlp->Dense_0.gate_proj.lora_b,
            )
            &&& saved_under(
                saved,
                spelled("layers."@, i as nat, "mlp.up_proj.lora_a"@),
                l.mlp->Dense_0.up_proj.lora_a,
            )
            &&& after.mlp->Dense_0.up_proj.lora_a == held_under(
                params,
                spelled("layers."@, i as nat, "mlp.up_proj.lora_a"@),
                l.mlp->Dense_0.up_proj.lora_a,
            )
            &&& saved_under(
                saved,
                spelled("layers."@, i as nat, "mlp.up_proj.lora_b"@),
                l.mlp->Dense_0.up_proj.lora_b,
            )
            &&& after.mlp->Dense_0.up_proj.lora_b == held_under(
                params,
                spelled("layers."@, i as nat, "mlp.up_proj.lora_b"@),
                l.mlp->Dense_0.up_proj.lora_b,
            )
            &&& saved_under(
                saved,
                spelled("layers."@, i as nat, "mlp.down_proj.lora_a"@),
                l.mlp->Dense_0.down_proj.lora_a,
            )
            &&& after.mlp->Dense_0.down_proj.lora_a == held_under(
                params,
                spelled("layers."@, i as nat, "mlp.down_proj.lora_a"@),
                l.mlp->Dense_0.down_proj.lora_a,
            )
            &&& saved_under(
                saved,
                spelled("layers."@, i as nat, "mlp.down_proj.lora_b"@),
                l.mlp->Dense_0.down_proj.lora_b,
            )
            &&& after.mlp->Dense_0.down_proj.lora_b == held_under(
                params,
                spelled("layers."@, i as nat, "mlp.down_proj.lora_b"@),
                l.mlp->Dense_0.down_proj.lora_b,
            )
        }),
{
    law_linear_attn_in_qkv_spelled("model"@, i as nat);
    law_parameter_lookup(NameStyle::Plain, layers, i, 0);
    assert(
        name_at(NameStyle::Plain, i as nat, layers[i].places(), 0) == lora_name(
            NameStyle::Plain,
            i as nat,
            Section::LinearAttn,
            Proj::InQkv,
            Half::A,
        )
    );
    law_parameter_lookup(NameStyle::Plain, layers, i, 1);
    assert(
        name_at(NameStyle::Plain, i as nat, layers[i].places(), 1) == lora_name(
            NameStyle::Plain,
            i as nat,
            Section::LinearAttn,
            Proj::InQkv,
            Half::B,
        )
    );
    law_linear_attn_in_z_spelled("model"@, i as nat);
    law_parameter_lookup(NameStyle::Plain, layers, i, 2);
    assert(
        name_at(NameStyle::Plain, i as nat, layers[i].places(), 2) == lora_name(
            NameStyle::Plain,
            i as nat,
            Section::LinearAttn,
            Proj::InZ,
            Half::A,
        )
    );
    law_parameter_lookup(NameStyle::Plain, layers, i, 3);
    assert(
        name_at(NameStyle::Plain, i as nat, layers[i].places(), 3) == lora_name(
            NameStyle::Plain,
            i as nat,
            Section::LinearAttn,
            Proj::InZ,
            Half::B,
        )
    );
    law_linear_attn_out_spelled("model"@, i as nat);
    law_parameter_lookup(NameStyle::Plain, layers, i, 4);
    assert(
        name_at(NameStyle::Plain, i as nat, layers[i].places(), 4) == lora_name(
            NameStyle::Plain,
            i as nat,
            Section::LinearAttn,
            Proj::Out,
            Half::A,
        )
    );
    law_parameter_lookup(NameStyle::Plain, layers, i, 5);
    assert(
        name_at(NameStyle::Plain, i as nat, layers[i].places(), 5) == lora_name(
            NameStyle::Plain,
            i as nat,
            Section::LinearAttn,
            Proj::Out,
            Half::B,
        )
    );
    law_mlp_gate_spelled("model"@, i as nat);
    law_parameter_lookup(NameStyle::Plain, layers, i, 6);
    assert(
        name_at(NameStyle::Plain, i as nat, layers[i].places(), 6) == lora_name(
            NameStyle::Plain,
            i as nat,
            Section::Mlp,
            Proj::Gate,
            Half::A,
        )
    );
    law_parameter_lookup(NameStyle::Plain, layers, i, 7);
    assert(
        name_at(NameStyle::Plain, i as nat, layers[i].places(), 7) == lora_name(
            NameStyle::Plain,
            i as nat,
            Section::Mlp,
            Proj::Gate,
            Half::B,
        )
    );
    law_mlp_up_spelled("model"@, i as nat);
    law_parameter_lookup(NameStyle::Plain, layers, i, 8);
    assert(
        name_at(NameStyle::Plain, i as nat, layers[i].places(), 8) == lora_name(
            NameStyle::Plain,
            i as nat,
            Section::Mlp,
            Proj::Up,
            Half::A,
        )
    );
    law_parameter_lookup(NameStyle::Plain, layers, i, 9);
    assert(
        name_at(NameStyle::Plain, i as nat, layers[i].places(), 9) == lora_name(
            NameStyle::Plain,
            i as nat,
            Section::Mlp,
            Proj::Up,
            Half::B,
        )
    );
    law_mlp_down_spelled("model"@, i as nat);
    law_parameter_lookup(NameStyle::Plain, layers, i, 10);
    assert(
        name_at(NameStyle::Plain, i as nat, layers[i].places(), 10) == lora_name(
            NameStyle::Plain,
            i as nat,
            Section::Mlp,
            Proj::Down,
            Half::A,
        )
    );
    law_parameter_lookup(NameStyle::Plain, layers, i, 11);
    assert(
        name_at(NameStyle::Plain, i as nat, layers[i].places(), 11) == lora_name(
            NameStyle::Plain,
            i as nat,
            Section::Mlp,
            Proj::Down,
            Half::B,
        )
    );
}

/// Each matrix of the adapters of Qwen3-Next layers with linear attention and experts is saved
/// under its own name, and set from it.
#[verifier::rlimit(60)]
pub proof fn law_qwen3_next_linear_sparse_adapters_by_name(
    layers: Seq<Qwen3NextLoraDecoderLayer>,
    i: int,
    params: Map<Seq<char>,
    Array>,
)
    requires
        0 <= i < layers.len(),
        layers[i].self_attn is None,
        layers[i].linear_attn is Some,
        layers[i].mlp is MoE,
    ensures
        ({
            let saved = parameter_map(NameStyle::Plain, layers);
            let l = layers[i];
            let after = assigned(NameStyle::Plain, layers, params)[i];
            &&& saved_under(
                saved,
                spelled("layers."@, i as nat, "linear_attn.in_proj_qkv.lora_a"@),
                l.linear_attn->0.in_proj_qkv.lora_a,
            )
            &&& after.linear_attn->0.in_proj_qkv.lora_a == held_under(
                params,
                spelled("layers."@, i as nat, "linear_attn.in_proj_qkv.lora_a"@),
                l.linear_attn->0.in_proj_qkv.lora_a,
            )
            &&& saved_under(
                saved,
                spelled("layers."@, i as nat, "linear_attn.in_proj_qkv.lora_b"@),
                l.linear_attn->0.in_proj_qkv.lora_b,
            )
            &&& after.linear_attn->0.in_proj_qkv.lora_b == held_under(
                params,
                spelled("layers."@, i as nat, "linear_attn.in_proj_qkv.lora_b"@),
                l.linear_attn->0.in_proj_qkv.lora_b,
            )
            &&& saved_under(
                saved,
                spelled("layers."@, i as nat, "linear_attn.in_proj_z.lora_a"@),
                l.linear_attn->0.in_proj_z.lora_a,
            )
            &&& after.linear_attn->0.in_proj_z.lora_a == held_under(
                params,
                spelled("layers."@, i as nat, "linear_attn.in_proj_z.lora_a"@),
                l.linear_attn->0.in_proj_z.lora_a,
            )
            &&& saved_under(
                saved,
                spelled("layers."@, i as nat, "linear_attn.in_proj_z.lora_b"@),
                l.linear_attn->0.in_proj_z.lora_b,
            )
            &&& after.linear_attn->0.in_proj_z.lora_b == held_under(
                params,
                spelled("layers."@, i as nat, "linear_attn.in_proj_z.lora_b"@),
                l.linear_attn->0.in_proj_z.lora_b,
            )
            &&& saved_under(
                saved,
                spelled("layers."@, i as nat, "linear_attn.out_proj.lora_a"@),
                l.linear_attn->0.out_proj.lora_a,
            )
            &&& after.linear_attn->0.out_proj.lora_a == held_under(
                params,
                spelled("layers."@, i as nat, "linear_attn.out_proj.lora_a"@),
                l.linear_attn->0.out_proj.lora_a,
            )
            &&& saved_under(
                saved,
                spelled("layers."@, i as nat, "linear_attn.out_proj.lora_b"@),
                l.linear_attn->0.out_proj.lora_b,
            )
            &&& after.linear_attn->0.out_proj.lora_b == held_under(
                params,
                spelled("layers."@, i as nat, "linear_attn.out_proj.lora_b"@),
                l.linear_attn->0.out_proj.lora_b,
            )
            &&& saved_under(
                saved,
                spelled("layers."@, i as nat, "mlp.shared_expert.gate_proj.lora_a"@),
                l.mlp->MoE_0.shared_expert.gate_proj.lora_a,
            )
            &&& after.mlp->MoE_0.shared_expert.gate_proj.lora_a == held_under(
                params,
                spelled("layers."@, i as nat, "mlp.shared_expert.gate_proj.lora_a"@),
                l.mlp->MoE_0.shared_expert.gate_proj.lora_a,
            )
            &&& saved_under(
                saved,
                spelled("layers."@, i as nat, "mlp.shared_expert.gate_proj.lora_b"@),
                l.mlp->MoE_0.shared_expert.gate_proj.lora_b,
            )
            &&& after.mlp->MoE_0.shared_expert.gate_proj.lora_b == held_under(
                params,
                spelled("layers."@, i as nat, "mlp.shared_expert.gate_proj.lora_b"@),
                l.mlp->MoE_0.shared_expert.gate_proj.lora_b,
            )
            &&& saved_under(
                saved,
                spelled("layers."@, i as nat, "mlp.shared_expert.up_proj.lora_a"@),
                l.mlp->MoE_0.shared_expert.up_proj.lora_a,
            )
            &&& after.mlp->MoE_0.shared_expert.up_proj.lora_a == held_under(
                params,
                spelled("layers."@, i as nat, "mlp.shared_expert.up_proj.lora_a"@),
                l.mlp->MoE_0.shared_expert.up_proj.lora_a,
            )
            &&& saved_under(
                saved,
                spelled("layers."@, i as nat, "mlp.shared_expert.up_proj.lora_b"@),
                l.mlp->MoE_0.shared_expert.up_proj.lora_b,
            )
            &&& after.mlp->MoE_0.shared_expert.up_proj.lora_b == held_under(
                params,
                spelled("layers."@, i as nat, "mlp.shared_expert.up_proj.lora_b"@),
                l.mlp->MoE_0.shared_expert.up_proj.lora_b,
            )
            &&& saved_under(
                saved,
                spelled("layers."@, i as nat, "mlp.shared_expert.down_proj.lora_a"@),
                l.mlp->MoE_0.shared_expert.down_proj.lora_a,
            )
            &&& after.mlp->MoE_0.shared_expert.down_proj.lora_a == held_under(
                params,
                spelled("layers."@, i as nat, "mlp.shared_expert.down_proj.lora_a"@),
                l.mlp->MoE_0.shared_expert.down_proj.lora_a,
            )
            &&& saved_under(
                saved,
                spelled("layers."@, i as nat, "mlp.shared_expert.down_proj.lora_b"@),
                l.mlp->MoE_0.shared_expert.down_proj.lora_b,
            )
            &&& after.mlp->MoE_0.shared_expert.down_proj.lora_b == held_under(
                params,
                spelled("layers."@, i as nat, "mlp.shared_expert.down_proj.lora_b"@),
                l.mlp->MoE_0.shared_expert.down_proj.lora_b,
            )
        }),
{
    law_linear_attn_in_qkv_spelled("model"@, i as nat);
    law_parameter_lookup(NameStyle::Plain, layers, i, 0);
    assert(
        name_at(NameStyle::Plain, i as nat, layers[i].places(), 0) == lora_name(
            NameStyle::Plain,
            i as nat,
            Section::LinearAttn,
            Proj::InQkv,
            Half::A,
        )
    );
    law_parameter_lookup(NameStyle::Plain, layers, i, 1);
    assert(
        name_at(NameStyle::Plain, i as nat, layers[i].places(), 1) == lora_name(
            NameStyle::Plain,
            i as nat,
            Section::LinearAttn,
            Proj::InQkv,
            Half::B,
        )
    );
    law_linear_attn_in_z_spelled("model"@, i as nat);
    law_parameter_lookup(NameStyle::Plain, layers, i, 2);
    assert(
        name_at(NameStyle::Plain, i as nat, layers[i].places(), 2) == lora_name(
            NameStyle::Plain,
            i as nat,
            Section::LinearAttn,
            Proj::InZ,
            Half::A,
        )
    );
    law_parameter_lookup(NameStyle::Plain, layers, i, 3);
    assert(
        name_at(NameStyle::Plain, i as nat, layers[i].places(), 3) == lora_name(
            NameStyle::Plain,
            i as nat,
            Section::LinearAttn,
            Proj::InZ,
            Half::B,
        )
    );
    law_linear_attn_out_spelled("model"@, i as nat);
    law_parameter_lookup(NameStyle::Plain, layers, i, 4);
    assert(
        name_at(NameStyle::Plain, i as nat, layers[i].places(), 4) == lora_name(
            NameStyle::Plain,
            i as nat,
            Section::LinearAttn,
            Proj::Out,
            Half::A,
        )
    );
    law_parameter_lookup(NameStyle::Plain, layers, i, 5);
    assert(
        name_at(NameStyle::Plain, i as nat, layers[i].places(), 5) == lora_name(
            NameStyle::Plain,
            i as nat,
            Section::LinearAttn,
            Proj::Out,
            Half::B,
        )
    );
    law_mlp_shared_expert_gate_spelled("model"@, i as nat);
    law_parameter_lookup(NameStyle::Plain, layers, i, 6);
    assert(
        name_at(NameStyle::Plain, i as nat, layers[i].places(), 6) == lora_name(
            NameStyle::Plain,
            i as nat,
            Section::MlpSharedExpert,
            Proj::Gate,
            Half::A,
        )
    );
    law_parameter_lookup(NameStyle::Plain, layers, i, 7);
    assert(
        name_at(NameStyle::Plain, i as nat, layers[i].places(), 7) == lora_name(
            NameStyle::Plain,
            i as nat,
            Section::MlpSharedExpert,
            Proj::Gate,
            Half::B,
        )
    );
    law_mlp_shared_expert_up_spelled("model"@, i as nat);
    law_parameter_lookup(NameStyle::Plain, layers, i, 8);
    assert(
        name_at(NameStyle::Plain, i as nat, layers[i].places(), 8) == lora_name(
            NameStyle::Plain,
            i as nat,
            Section::MlpSharedExpert,
            Proj::Up,
            Half::A,
        )
    );
    law_parameter_lookup(NameStyle::Plain, layers, i, 9);
    assert(
        name_at(NameStyle::Plain, i as nat, layers[i].places(), 9) == lora_name(
            NameStyle::Plain,
            i as nat,
            Section::MlpSharedExpert,
            Proj::Up,
            Half::B,
        )
    );
    law_mlp_shared_expert_down_spelled("model"@, i as nat);
    law_parameter_lookup(NameStyle::Plain, layers, i, 10);
    assert(
        name_at(NameStyle::Plain, i as nat, layers[i].places(), 10) == lora_name(
            NameStyle::Plain,
            i as nat,
            Section::MlpSharedExpert,
            Proj::Down,
            Half::A,
        )
    );
    law_parameter_lookup(NameStyle::Plain, layers, i, 11);
    assert(
        name_at(NameStyle::Plain, i as nat, layers[i].places(), 11) == lora_name(
            NameStyle::Plain,
            i as nat,
            Section::MlpSharedExpert,
            Proj::Down,
            Half::B,
        )
    );
}

} // verus!
