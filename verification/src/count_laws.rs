//! The trainable elements of models are those of the arrays that their parameter maps name.

use crate::array::Array;
use crate::config::{LoraConfig, lists_number};
use crate::dora::LinearAdapter;
use crate::lora::{Adapter, LoraLinear, lemma_matrix_count};
use crate::mistral_lora::{MistralConfig, MistralLoraForCausalLM, mistral_buildable};
use crate::mllama_lora::{
    LlamaConfig, MllamaLoraDecoderLayer, MllamaLoraForCausalLM, MllamaLoraMLP,
    MllamaLoraSelfAttention, mllama_buildable,
};
use crate::names::{NameStyle, Proj, Section};
use crate::nemotron_h_lora::{
    NemotronHDims, NemotronHLoraAttention, NemotronHLoraBlock, NemotronHLoraForCausalLM,
    NemotronHLoraMLP, NemotronHLoraMixer, NemotronHLoraSharedExpert, nemotron_buildable,
};
use crate::nemotron_h_qlora::{
    NemotronHQloraBlock, NemotronHQloraForCausalLM, NemotronHQloraMixer, NemotronHQloraModel,
};
use crate::nn::Linear;
use crate::params::{LoraLayer, parameter_map, trainable_total};
use crate::params_laws::{counts_matrices, elements_upto, law_parameter_elements, map_elements};
use crate::phi_lora::{PhiConfig, PhiLoraForCausalLM, phi_buildable};
use crate::phi_qlora::{PhiQloraForCausalLM, phi_qlora_buildable};
use crate::qlora::{QLoraConfig, QLoraLinear};
use crate::qwen3_lora::{Qwen3Config, Qwen3LoraForCausalLM, qwen3_buildable};
use crate::qwen3_moe::{Qwen3MoE, Qwen3MoEConfig, Qwen3MoEDecoderLayer, Qwen3MoEFeedForward};
use crate::qwen3_moe_lora::{
    Qwen3MoELoraDecoderLayer, Qwen3MoELoraForCausalLM, Qwen3MoELoraModel, adaptable, adapter_on,
};
use crate::qwen3_moe_qlora::{
    Qwen3MoEQLoraDecoderLayer, Qwen3MoEQLoraForCausalLM, Qwen3MoEQLoraModel,
};
use crate::qwen3_next_lora::{
    Qwen3NextConfig, Qwen3NextLoraAttention, Qwen3NextLoraDecoderLayer, Qwen3NextLoraForCausalLM,
    Qwen3NextLoraGDN,
};
use crate::scalar::F32;
use crate::shape::Shape;
use vstd::prelude::*;

verus! {

/// The trainable elements of the layer are those of its two matrices.
pub open spec fn pair_counts<L: Adapter>(l: L) -> bool {
    l.trainable() == l.a().shape.count() + l.b().shape.count()
}

broadcast proof fn lemma_lora_counts(
    weight: Array,
    bias: Option<Array>,
    i: i32,
    o: i32,
    rank: i32,
    alpha: F32,
    rs: bool,
)
    requires
        i >= 0,
        o >= 0,
        rank >= 0,
    ensures
        pair_counts(#[trigger] LoraLinear::on(weight, bias, i, o, rank, alpha, rs)),
{
    lemma_matrix_count(rank, i);
    lemma_matrix_count(o, rank);
    assert(rank * i >= 0 && o * rank >= 0) by (nonlinear_arith)
        requires
            i >= 0,
            o >= 0,
            rank >= 0,
    ;
}

broadcast proof fn lemma_qlora_counts(weight: Array, bias: Option<Array>, config: QLoraConfig)
    requires
        config.lora.valid(),
        weight.shape matches Shape::D2(o, i) && o >= 0 && i >= 0,
    ensures
        pair_counts(#[trigger] QLoraLinear::on(weight, bias, config)),
{
    let l = QLoraLinear::on(weight, bias, config);
    lemma_matrix_count(l.rank, l.in_features);
    lemma_matrix_count(l.out_features, l.rank);
    assert(l.rank * l.in_features >= 0 && l.out_features * l.rank >= 0) by (nonlinear_arith)
        requires
            l.in_features >= 0,
            l.out_features >= 0,
            l.rank >= 0,
    ;
}

broadcast proof fn lemma_adapter_counts(i: i32, o: i32, rank: i32, alpha: F32, rs: bool)
    requires
        i >= 0,
        o >= 0,
        rank >= 0,
    ensures
        pair_counts(#[trigger] LinearAdapter::fresh(i, o, rank, alpha, rs, false, false)),
{
    let l = LoraLinear::fresh(i, o, rank, alpha, rs, false);
    lemma_lora_counts(l.weight, l.bias, i, o, rank, alpha, rs);
}

proof fn lemma_elements_4(s: Seq<Array>)
    ensures
        elements_upto(s, 4) == s[0].shape.count() + s[1].shape.count() + s[2].shape.count()
            + s[3].shape.count(),
{
    reveal_with_fuel(elements_upto, 5);
}

proof fn lemma_elements_8(s: Seq<Array>)
    ensures
        elements_upto(s, 8) == s[0].shape.count() + s[1].shape.count() + s[2].shape.count()
            + s[3].shape.count() + s[4].shape.count() + s[5].shape.count() + s[6].shape.count()
            + s[7].shape.count(),
{
    reveal_with_fuel(elements_upto, 9);
}

proof fn lemma_elements_10(s: Seq<Array>)
    ensures
        elements_upto(s, 10) == s[0].shape.count() + s[1].shape.count() + s[2].shape.count()
            + s[3].shape.count() + s[4].shape.count() + s[5].shape.count() + s[6].shape.count()
            + s[7].shape.count() + s[8].shape.count() + s[9].shape.count(),
{
    reveal_with_fuel(elements_upto, 11);
}

proof fn lemma_elements_12(s: Seq<Array>)
    ensures
        elements_upto(s, 12) == s[0].shape.count() + s[1].shape.count() + s[2].shape.count()
            + s[3].shape.count() + s[4].shape.count() + s[5].shape.count() + s[6].shape.count()
            + s[7].shape.count() + s[8].shape.count() + s[9].shape.count() + s[10].shape.count()
            + s[11].shape.count(),
{
    reveal_with_fuel(elements_upto, 13);
}

proof fn lemma_elements_14(s: Seq<Array>)
    ensures
        elements_upto(s, 14) == s[0].shape.count() + s[1].shape.count() + s[2].shape.count()
            + s[3].shape.count() + s[4].shape.count() + s[5].shape.count() + s[6].shape.count()
            + s[7].shape.count() + s[8].shape.count() + s[9].shape.count() + s[10].shape.count()
            + s[11].shape.count() + s[12].shape.count() + s[13].shape.count(),
{
    reveal_with_fuel(elements_upto, 15);
}

proof fn lemma_elements_22(s: Seq<Array>)
    ensures
        elements_upto(s, 22) == s[0].shape.count() + s[1].shape.count() + s[2].shape.count()
            + s[3].shape.count() + s[4].shape.count() + s[5].shape.count() + s[6].shape.count()
            + s[7].shape.count() + s[8].shape.count() + s[9].shape.count() + s[10].shape.count()
            + s[11].shape.count() + s[12].shape.count() + s[13].shape.count() + s[14].shape.count()
            + s[15].shape.count() + s[16].shape.count() + s[17].shape.count() + s[18].shape.count()
            + s[19].shape.count() + s[20].shape.count() + s[21].shape.count(),
{
    reveal_with_fuel(elements_upto, 23);
}

/// The shapes of the named arrays of a fresh Mistral model give its number of trainable elements.
pub proof fn law_mistral_parameter_elements(
    m: MistralLoraForCausalLM,
    config: MistralConfig,
    lora: LoraConfig,
)
    requires
        config.valid(),
        lora.valid(),
        mistral_buildable(config),
        m.model.is_fresh(config, lora),
    ensures
        map_elements(parameter_map(NameStyle::Prefixed, m.model.layers@)) == trainable_total(
            m.model.layers@,
        ),
{
    assert forall|i: int| 0 <= i < m.model.layers@.len() implies counts_matrices(
        #[trigger] m.model.layers@[i],
    ) by {
        broadcast use lemma_lora_counts;

        reveal_with_fuel(elements_upto, 15);
    }
    law_parameter_elements(NameStyle::Prefixed, m.model.layers@);
}

/// The shapes of the named arrays of a fresh Qwen3 model give its number of trainable elements.
pub proof fn law_qwen3_parameter_elements(
    m: Qwen3LoraForCausalLM,
    config: Qwen3Config,
    lora: LoraConfig,
)
    requires
        config.valid(),
        lora.valid(),
        qwen3_buildable(config),
        m.model.is_fresh(config, lora),
    ensures
        map_elements(parameter_map(NameStyle::Plain, m.model.layers@)) == trainable_total(
            m.model.layers@,
        ),
{
    assert forall|i: int| 0 <= i < m.model.layers@.len() implies counts_matrices(
        #[trigger] m.model.layers@[i],
    ) by {
        broadcast use lemma_lora_counts;

        reveal_with_fuel(elements_upto, 15);
    }
    law_parameter_elements(NameStyle::Plain, m.model.layers@);
}

/// The shapes of the named arrays of a fresh Phi model give its number of trainable elements.
pub proof fn law_phi_parameter_elements(m: PhiLoraForCausalLM, config: PhiConfig, lora: LoraConfig)
    requires
        config.valid(),
        lora.valid(),
        phi_buildable(config, lora),
        m.model.is_fresh(config, lora),
    ensures
        map_elements(parameter_map(NameStyle::Plain, m.model.layers@)) == trainable_total(
            m.model.layers@,
        ),
{
    assert forall|i: int| 0 <= i < m.model.layers@.len() implies counts_matrices(
        #[trigger] m.model.layers@[i],
    ) by {
        broadcast use lemma_lora_counts;

        reveal_with_fuel(elements_upto, 13);
    }
    law_parameter_elements(NameStyle::Plain, m.model.layers@);
}

/// The shapes of the named arrays of a fresh Phi model with quantized weights give its number of
/// trainable elements.
pub proof fn law_phi_qlora_parameter_elements(
    m: PhiQloraForCausalLM,
    config: PhiConfig,
    qlora: QLoraConfig,
)
    requires
        config.valid(),
        qlora.lora.valid(),
        phi_qlora_buildable(config, qlora),
        m.model.is_fresh(config, qlora),
    ensures
        map_elements(parameter_map(NameStyle::Plain, m.model.layers@)) == trainable_total(
            m.model.layers@,
        ),
{
    assert forall|i: int| 0 <= i < m.model.layers@.len() implies counts_matrices(
        #[trigger] m.model.layers@[i],
    ) by {
        broadcast use lemma_qlora_counts;

        reveal_with_fuel(elements_upto, 13);
    }
    law_parameter_elements(NameStyle::Plain, m.model.layers@);
}

proof fn lemma_mllama_self_counts(config: LlamaConfig, lora: LoraConfig)
    requires
        config.valid(),
        config.buildable(),
        lora.valid(),
        !lora.use_dora,
    ensures
        ({
            let a = MllamaLoraSelfAttention::fresh(config, lora);
            pair_counts(a.q_proj) && pair_counts(a.k_proj) && pair_counts(a.v_proj) && pair_counts(
                a.o_proj,
            )
        }),
{
    broadcast use lemma_adapter_counts;

}

proof fn lemma_mllama_mlp_counts(config: LlamaConfig, lora: LoraConfig)
    requires
        config.valid(),
        config.buildable(),
        lora.valid(),
    ensures
        ({
            let m = MllamaLoraMLP::fresh(config, lora);
            pair_counts(m.gate_proj) && pair_counts(m.up_proj) && pair_counts(m.down_proj)
        }),
{
    broadcast use lemma_lora_counts;

}

proof fn lemma_mllama_layer_counts(l: MllamaLoraDecoderLayer)
    requires
        pair_counts(l.self_attn.q_proj) && pair_counts(l.self_attn.k_proj),
        pair_counts(l.self_attn.v_proj) && pair_counts(l.self_attn.o_proj),
        pair_counts(l.mlp.gate_proj) && pair_counts(l.mlp.up_proj) && pair_counts(l.mlp.down_proj),
        l.cross_attn matches Some(c) ==> pair_counts(c.q_proj) && pair_counts(c.k_proj)
            && pair_counts(c.v_proj) && pair_counts(c.o_proj),
    ensures
        counts_matrices(l),
{
    match l.cross_attn {
        Some(_) => {
            lemma_elements_22(l.matrices());
        },
        None => {
            lemma_elements_14(l.matrices());
        },
    }
}

proof fn lemma_mllama_counts(config: LlamaConfig, lora: LoraConfig, cross: bool)
    requires
        config.valid(),
        config.buildable(),
        lora.valid(),
        !lora.use_dora,
    ensures
        counts_matrices(MllamaLoraDecoderLayer::fresh(config, lora, cross)),
{
    lemma_mllama_self_counts(config, lora);
    lemma_mllama_mlp_counts(config, lora);
    lemma_mllama_layer_counts(MllamaLoraDecoderLayer::fresh(config, lora, cross));
}

/// The shapes of the named arrays of a fresh MLlama text decoder without magnitudes give its number
/// of trainable elements, those of attention to vision features among them.
pub proof fn law_mllama_parameter_elements(
    m: MllamaLoraForCausalLM,
    config: LlamaConfig,
    crossing: Seq<i32>,
    lora: LoraConfig,
)
    requires
        config.valid(),
        lora.valid(),
        !lora.use_dora,
        mllama_buildable(config),
        m.model.is_fresh(config, crossing, lora),
    ensures
        map_elements(parameter_map(NameStyle::Plain, m.model.layers@)) == trainable_total(
            m.model.layers@,
        ),
{
    assert forall|i: int| 0 <= i < m.model.layers@.len() implies counts_matrices(
        #[trigger] m.model.layers@[i],
    ) by {
        lemma_mllama_counts(config, lora, lists_number(crossing, i));
    }
    law_parameter_elements(NameStyle::Plain, m.model.layers@);
}

proof fn lemma_nemotron_attention_counts(dims: NemotronHDims, lora: LoraConfig)
    requires
        dims.valid(),
        lora.valid(),
        NemotronHLoraAttention::buildable(dims),
    ensures
        ({
            let a = NemotronHLoraAttention::fresh(dims, lora);
            pair_counts(a.q_proj) && pair_counts(a.k_proj) && pair_counts(a.v_proj) && pair_counts(
                a.o_proj,
            )
        }),
{
    broadcast use lemma_lora_counts;

}

proof fn lemma_nemotron_mlp_counts(dim: i32, hidden_dim: i32, lora: LoraConfig)
    requires
        dim >= 0,
        hidden_dim >= 0,
        lora.valid(),
    ensures
        pair_counts(NemotronHLoraMLP::fresh(dim, hidden_dim, lora).up_proj),
        pair_counts(NemotronHLoraMLP::fresh(dim, hidden_dim, lora).down_proj),
{
    broadcast use lemma_lora_counts;

}

proof fn lemma_nemotron_shared_counts(dim: i32, hidden_dim: i32, lora: LoraConfig)
    requires
        dim >= 0,
        hidden_dim >= 0,
        lora.valid(),
    ensures
        pair_counts(NemotronHLoraSharedExpert::fresh(dim, hidden_dim, lora).up_proj),
        pair_counts(NemotronHLoraSharedExpert::fresh(dim, hidden_dim, lora).down_proj),
{
    broadcast use lemma_lora_counts;

}

proof fn lemma_nemotron_counts(
    block: NemotronHLoraBlock,
    dims: NemotronHDims,
    lora: LoraConfig,
    kind: char,
)
    requires
        dims.valid(),
        lora.valid(),
        NemotronHLoraBlock::buildable(dims, kind),
        block.is_fresh(dims, lora, kind),
    ensures
        counts_matrices(block),
{
    match block.mixer {
        NemotronHLoraMixer::Mamba(_) => {
            assert(block.matrices().len() == 0);
        },
        NemotronHLoraMixer::Attention(a) => {
            lemma_nemotron_attention_counts(dims, lora);
            lemma_elements_8(block.matrices());
        },
        NemotronHLoraMixer::Mlp(m) => {
            lemma_nemotron_mlp_counts(dims.hidden_size, dims.intermediate_size, lora);
            lemma_elements_4(block.matrices());
        },
        NemotronHLoraMixer::MoE(m) => {
            if dims.shared() {
                lemma_nemotron_shared_counts(dims.hidden_size, dims.shared_size(), lora);
                lemma_elements_4(block.matrices());
            }
        },
    }
}

/// The shapes of the named arrays of a fresh Nemotron-H give its number of trainable elements.
pub proof fn law_nemotron_parameter_elements(
    m: NemotronHLoraForCausalLM,
    dims: NemotronHDims,
    kinds: Seq<char>,
    lora: LoraConfig,
)
    requires
        dims.valid(),
        lora.valid(),
        nemotron_buildable(dims, kinds),
        m.model.is_fresh(dims, kinds, lora),
    ensures
        map_elements(parameter_map(NameStyle::Plain, m.model.layers@)) == trainable_total(
            m.model.layers@,
        ),
{
    assert forall|i: int| 0 <= i < m.model.layers@.len() implies counts_matrices(
        #[trigger] m.model.layers@[i],
    ) by {
        assert(m.model.layers@[i].is_fresh(dims, lora, kinds[i]));
        lemma_nemotron_counts(m.model.layers@[i], dims, lora, kinds[i]);
    }
    law_parameter_elements(NameStyle::Plain, m.model.layers@);
}

/// How many matrices a Nemotron-H block has, and where: eight in attention, four in an MLP and in
/// the shared expert of a mixture that has one, none elsewhere.
pub proof fn law_nemotron_names_of_block(block: NemotronHLoraBlock, k: int)
    ensures
        block.matrices().len() == (match block.mixer {
            NemotronHLoraMixer::Mamba(_) => 0nat,
            NemotronHLoraMixer::Attention(_) => 8,
            NemotronHLoraMixer::Mlp(_) => 4,
            NemotronHLoraMixer::MoE(m) => if m.shared_expert is Some {
                4
            } else {
                0
            },
        }),
        0 <= k < block.places().len() ==> block.places()[k].section == (
        if block.mixer is MoE {
            Section::MixerSharedExpert
        } else {
            Section::Mixer
        }),
{
}

proof fn lemma_nemotron_qlora_counts(block: NemotronHLoraBlock, config: QLoraConfig)
    requires
        config.lora.valid(),
        NemotronHQloraMixer::quantizes(block.mixer, config),
    ensures
        counts_matrices(NemotronHQloraBlock::of(block, config)),
{
    broadcast use lemma_qlora_counts;

    reveal_with_fuel(elements_upto, 9);
}

/// The shapes of the named arrays of a freshly quantized Nemotron-H give its number of trainable
/// elements.
pub proof fn law_nemotron_qlora_parameter_elements(
    m: NemotronHQloraForCausalLM,
    l: NemotronHLoraForCausalLM,
    config: QLoraConfig,
)
    requires
        config.lora.valid(),
        NemotronHQloraModel::quantizes(l.model.layers@, config),
        m.is_of(l, config),
    ensures
        map_elements(parameter_map(NameStyle::Plain, m.model.layers@)) == trainable_total(
            m.model.layers@,
        ),
{
    assert forall|i: int| 0 <= i < m.model.layers@.len() implies counts_matrices(
        #[trigger] m.model.layers@[i],
    ) by {
        assert(NemotronHQloraMixer::quantizes(l.model.layers@[i].mixer, config));
        lemma_nemotron_qlora_counts(l.model.layers@[i], config);
    }
    law_parameter_elements(NameStyle::Plain, m.model.layers@);
}

/// How many matrices a Nemotron-H block with quantized weights has, and where.
pub proof fn law_nemotron_qlora_names_of_block(block: NemotronHQloraBlock, k: int)
    ensures
        block.matrices().len() == (match block.mixer {
            NemotronHQloraMixer::Mamba(_) => 0nat,
            NemotronHQloraMixer::Attention(_) => 8,
            NemotronHQloraMixer::Mlp(_) => 4,
            NemotronHQloraMixer::MoE(m) => if m.shared_expert is Some {
                4
            } else {
                0
            },
        }),
        0 <= k < block.places().len() ==> block.places()[k].section == (
        if block.mixer is MoE {
            Section::MixerSharedExpert
        } else {
            Section::Mixer
        }),
{
}

proof fn lemma_over_counts(l: Linear, proj: Proj, lora: LoraConfig)
    requires
        lora.valid(),
        adaptable(l),
    ensures
        pair_counts(adapter_on(l, lora.rank_of(proj), lora)),
{
    broadcast use lemma_lora_counts;

}

proof fn lemma_moe_counts(
    config: Qwen3MoEConfig,
    layer: Qwen3MoEDecoderLayer,
    lora: LoraConfig,
)
    requires
        lora.valid(),
        Qwen3MoELoraDecoderLayer::takes(layer),
    ensures
        counts_matrices(Qwen3MoELoraDecoderLayer::over(config, layer, lora)),
{
    let l = Qwen3MoELoraDecoderLayer::over(config, layer, lora);
    lemma_over_counts(layer.self_attn.q_proj, Proj::Q, lora);
    lemma_over_counts(layer.self_attn.k_proj, Proj::K, lora);
    lemma_over_counts(layer.self_attn.v_proj, Proj::V, lora);
    lemma_over_counts(layer.self_attn.o_proj, Proj::O, lora);
    match layer.ffn {
        Qwen3MoEFeedForward::Dense(m) => {
            lemma_over_counts(m.gate_proj, Proj::Gate, lora);
            lemma_over_counts(m.up_proj, Proj::Up, lora);
            lemma_over_counts(m.down_proj, Proj::Down, lora);
            lemma_elements_14(l.matrices());
        },
        Qwen3MoEFeedForward::MoE(b) => {
            lemma_over_counts(b.gate, Proj::Router, lora);
            lemma_elements_10(l.matrices());
        },
    }
}

/// The shapes of the named arrays of a Qwen3 mixture of experts with fresh adapters give its number
/// of trainable elements.
pub proof fn law_moe_lora_parameter_elements(
    m: Qwen3MoELoraForCausalLM,
    base: Qwen3MoE,
    lora: LoraConfig,
)
    requires
        lora.valid(),
        Qwen3MoELoraModel::takes(base.model.layers@),
        m.is_over(base, lora),
    ensures
        map_elements(parameter_map(NameStyle::Plain, m.model.layers@)) == trainable_total(
            m.model.layers@,
        ),
{
    assert forall|i: int| 0 <= i < m.model.layers@.len() implies counts_matrices(
        #[trigger] m.model.layers@[i],
    ) by {
        assert(Qwen3MoELoraDecoderLayer::takes(base.model.layers@[i]));
        lemma_moe_counts(base.model.config, base.model.layers@[i], lora);
    }
    law_parameter_elements(NameStyle::Plain, m.model.layers@);
}

proof fn lemma_moe_qlora_counts(layer: Qwen3MoELoraDecoderLayer, config: QLoraConfig)
    requires
        config.lora.valid(),
        Qwen3MoEQLoraDecoderLayer::quantizes(layer, config),
    ensures
        counts_matrices(Qwen3MoEQLoraDecoderLayer::of(layer, config)),
{
    broadcast use lemma_qlora_counts;

    reveal_with_fuel(elements_upto, 15);
}

/// The shapes of the named arrays of a freshly quantized Qwen3 mixture of experts give its number
/// of trainable elements.
pub proof fn law_moe_qlora_parameter_elements(
    m: Qwen3MoEQLoraForCausalLM,
    l: Qwen3MoELoraForCausalLM,
    config: QLoraConfig,
)
    requires
        config.lora.valid(),
        Qwen3MoEQLoraModel::quantizes(l.model.layers@, config),
        m.is_of(l, config),
    ensures
        map_elements(parameter_map(NameStyle::Plain, m.model.layers@)) == trainable_total(
            m.model.layers@,
        ),
{
    assert forall|i: int| 0 <= i < m.model.layers@.len() implies counts_matrices(
        #[trigger] m.model.layers@[i],
    ) by {
        assert(Qwen3MoEQLoraDecoderLayer::quantizes(l.model.layers@[i], config));
        lemma_moe_qlora_counts(l.model.layers@[i], config);
    }
    law_parameter_elements(NameStyle::Plain, m.model.layers@);
}

proof fn lemma_next_attention_counts(config: Qwen3NextConfig, lora: LoraConfig, id: usize)
    requires
        config.valid(),
        lora.valid(),
        Qwen3NextLoraAttention::buildable(config),
    ensures
        ({
            let a = Qwen3NextLoraAttention::fresh(config, lora, id);
            pair_counts(a.q_proj) && pair_counts(a.k_proj) && pair_counts(a.v_proj) && pair_counts(
                a.o_proj,
            )
        }),
{
    broadcast use lemma_lora_counts;

}

proof fn lemma_next_gdn_counts(config: Qwen3NextConfig, lora: LoraConfig)
    requires
        config.valid(),
        lora.valid(),
        Qwen3NextLoraGDN::buildable(config),
    ensures
        ({
            let g = Qwen3NextLoraGDN::fresh(config, lora);
            pair_counts(g.in_proj_qkv) && pair_counts(g.in_proj_z) && pair_counts(g.out_proj)
        }),
{
    broadcast use lemma_lora_counts;

}

proof fn lemma_next_ffn_counts(config: Qwen3NextConfig, lora: LoraConfig, i: int)
    requires
        config.valid(),
        lora.valid(),
        config.layer_buildable(i),
    ensures
        ({
            let f = Qwen3NextLoraDecoderLayer::fresh(config, lora, i, 0).mlp;
            pair_counts(f.gate_proj()) && pair_counts(f.up_proj()) && pair_counts(f.down_proj())
        }),
{
    broadcast use lemma_lora_counts;

}

proof fn lemma_next_linear_counts(l: Qwen3NextLoraDecoderLayer)
    requires
        l.self_attn is None,
        l.linear_attn matches Some(g) && pair_counts(g.in_proj_qkv) && pair_counts(g.in_proj_z)
            && pair_counts(g.out_proj),
        pair_counts(l.mlp.gate_proj()),
        pair_counts(l.mlp.up_proj()),
        pair_counts(l.mlp.down_proj()),
    ensures
        counts_matrices(l),
{
    lemma_elements_12(l.matrices());
}

proof fn lemma_next_full_counts(l: Qwen3NextLoraDecoderLayer)
    requires
        l.linear_attn is None,
        l.self_attn matches Some(a) && pair_counts(a.q_proj) && pair_counts(a.k_proj)
            && pair_counts(a.v_proj) && pair_counts(a.o_proj),
        pair_counts(l.mlp.gate_proj()),
        pair_counts(l.mlp.up_proj()),
        pair_counts(l.mlp.down_proj()),
    ensures
        counts_matrices(l),
{
    lemma_elements_14(l.matrices());
}

proof fn lemma_next_counts(config: Qwen3NextConfig, lora: LoraConfig, i: int, id: usize)
    requires
        config.valid(),
        lora.valid(),
        config.layer_buildable(i),
    ensures
        counts_matrices(Qwen3NextLoraDecoderLayer::fresh(config, lora, i, id)),
{
    let l = Qwen3NextLoraDecoderLayer::fresh(config, lora, i, id);
    lemma_next_ffn_counts(config, lora, i);
    assert(l.mlp == Qwen3NextLoraDecoderLayer::fresh(config, lora, i, 0).mlp);
    if config.linear(i) {
        lemma_next_gdn_counts(config, lora);
        lemma_next_linear_counts(l);
    } else {
        lemma_next_attention_counts(config, lora, id);
        lemma_next_full_counts(l);
    }
}

/// The shapes of the named arrays of a fresh Qwen3-Next give its number of trainable elements.
pub proof fn law_qwen3_next_parameter_elements(
    m: Qwen3NextLoraForCausalLM,
    config: Qwen3NextConfig,
    lora: LoraConfig,
)
    requires
        config.valid(),
        lora.valid(),
        config.buildable(),
        m.model.is_fresh(config, lora),
    ensures
        map_elements(parameter_map(NameStyle::Plain, m.model.layers@)) == trainable_total(
            m.model.layers@,
        ),
{
    assert forall|i: int| 0 <= i < m.model.layers@.len() implies counts_matrices(
        #[trigger] m.model.layers@[i],
    ) by {
        assert(config.layer_buildable(i));
        lemma_next_counts(config, lora, i, config.full_before(i as nat) as usize);
    }
    law_parameter_elements(NameStyle::Plain, m.model.layers@);
}

} // verus!
