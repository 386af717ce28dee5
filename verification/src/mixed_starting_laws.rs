//! What a layer of a model with several kinds of layers starts from, and what adapters are put on.

use crate::array::{Array, Function, Node, Source};
use crate::config::LoraConfig;
use crate::mamba::NemotronHMixer;
use crate::nemotron_h_lora::{
    NemotronHDims, NemotronHLoraAttention, NemotronHLoraBlock, NemotronHLoraMixer, NemotronHLoraMoE,
    NemotronHLoraModel,
};
use crate::nemotron_h_qlora::{NemotronHQloraBlock, NemotronHQloraMixer};
use crate::nn::Linear;
use crate::qlora::QLoraConfig;
use crate::qwen3_moe::{Qwen3MoE, Qwen3MoEConfig, Qwen3MoEDecoderLayer, Qwen3MoEFeedForward};
use crate::qwen3_moe_lora::{Qwen3MoELoraDecoderLayer, Qwen3MoELoraFeedForward};
use crate::qwen3_moe_qlora::{Qwen3MoEQLoraDecoderLayer, Qwen3MoEQLoraFeedForward};
use crate::qwen3_next_lora::{
    Qwen3NextConfig, Qwen3NextLoraAttention, Qwen3NextLoraDecoderLayer, Qwen3NextLoraFeedForward,
    Qwen3NextLoraGDN, Qwen3NextLoraModel, Qwen3NextLoraSparseMoE,
};
use crate::reading::{first_of, is_function, lemma_apply_node};
use crate::shape::Shape;
use crate::starting_laws::{
    counts_layers, is_head_size, is_inverse_root, is_key_heads, is_matrix, lemma_share, listed_rank,
    norm_starts, sits_on, sits_on_quantized, starts,
};
use vstd::prelude::*;

verus! {

/// A frozen layer with a random weight.
pub open spec fn linear_starts(l: Linear, inner: int, outer: int, biased: bool) -> bool {
    &&& is_matrix(l.weight, outer, inner)
    &&& l.bias is Some <==> biased
}

/// An array of ones, one for each of so many.
pub open spec fn is_ones(x: Option<Array>, n: int) -> bool {
    x matches Some(x) && {
        &&& *x.node == Node::Source(Source::Ones)
        &&& x.shape matches Shape::D1(m) && m == n
    }
}

/// How a state-space mixer starts.
pub open spec fn mamba_starts(
    m: NemotronHMixer,
    dims: NemotronHDims,
) -> bool {
    let c = dims.mamba;
    let inner = c.num_heads * c.head_dim;
    let channels = inner + 2 * (c.n_groups * c.state_size);
    &&& m.config == c
    &&& m.in_proj matches Some(l) && linear_starts(
        l,
        dims.hidden_size as int,
        inner + channels + c.num_heads,
        dims.mamba_proj_bias,
    )
    &&& m.out_proj matches Some(l)
        && linear_starts(l, inner, dims.hidden_size as int, dims.mamba_proj_bias)
    &&& m.conv1d matches Some(l) && (
        l.weight.shape matches Shape::D3(n, k, one) && n == channels && k == c.conv_kernel
            && one == 1
    )
    &&& m.conv1d matches Some(l) && (l.bias is Some <==> dims.use_conv_bias)
    &&& is_ones(m.a_log, c.num_heads as int) && is_ones(m.d, c.num_heads as int)
        && is_ones(m.dt_bias, c.num_heads as int)
    &&& m.gated_norm matches Some(n) && norm_starts(n, inner, c.eps)
}

/// How attention starts.
pub open spec fn nemotron_attention_starts(
    a: NemotronHLoraAttention,
    dims: NemotronHDims,
    lora: LoraConfig,
) -> bool {
    let h = dims.hidden_size as int;
    let d = a.head_dim as int;
    &&& a.num_heads == dims.num_attention_heads
    &&& a.num_kv_heads == dims.num_key_value_heads
    &&& a.rope_theta == dims.rope_theta
    &&& is_inverse_root(a.scale, d)
    &&& is_head_size(d, dims.head_dim, h, dims.num_attention_heads as int)
    &&& starts(
        a.q_proj,
        h,
        a.num_heads * d,
        listed_rank(lora.target_modules.q_proj, lora.r),
        lora.use_dora,
        lora,
    )
    &&& starts(
        a.k_proj,
        h,
        a.num_kv_heads * d,
        listed_rank(lora.target_modules.k_proj, lora.r),
        lora.use_dora,
        lora,
    )
    &&& starts(
        a.v_proj,
        h,
        a.num_kv_heads * d,
        listed_rank(lora.target_modules.v_proj, lora.r),
        lora.use_dora,
        lora,
    )
    &&& starts(
        a.o_proj,
        a.num_heads * d,
        h,
        listed_rank(lora.target_modules.o_proj, lora.r),
        lora.use_dora,
        lora,
    )
}

/// How a mixture of experts starts; where nothing is said, two of eight experts take part.
pub open spec fn nemotron_experts_start(
    m: NemotronHLoraMoE,
    dims: NemotronHDims,
    lora: LoraConfig,
) -> bool {
    let h = dims.hidden_size as int;
    let inner = m.moe_layer.inner_size as int;
    let c = m.moe_layer.config;
    &&& match dims.moe_intermediate_size {
        Some(n) => inner == n,
        None => inner == dims.intermediate_size,
    }
    &&& match dims.n_routed_experts { Some(n) => c.num_experts == n, None => c.num_experts == 8 }
    &&& match dims.num_experts_per_tok { Some(n) => c.top_k == n, None => c.top_k == 2 }
    &&& match dims.n_group { Some(n) => c.n_group == n, None => c.n_group == 1 }
    &&& match dims.topk_group { Some(n) => c.topk_group == n, None => c.topk_group == 1 }
    &&& c.norm_topk_prob <==> dims.norm_topk_prob == Some(true)
    &&& match dims.routed_scaling_factor {
        Some(f) => c.routed_scaling_factor == f,
        None => c.routed_scaling_factor.bits == 0x3f80_0000,
    }
    &&& m.moe_layer.hidden_size == h
    &&& linear_starts(m.moe_layer.router.gate, h, c.num_experts as int, false)
    &&& *m.moe_layer.router.e_score_correction_bias.node == Node::Source(Source::Zeros)
    &&& counts_layers(m.moe_layer.experts@.len(), c.num_experts as int)
    &&& forall|i: int| 0 <= i < m.moe_layer.experts@.len() ==> {
        &&& linear_starts((#[trigger] m.moe_layer.experts@[i]).up_proj, h, inner, dims.mlp_bias)
        &&& linear_starts(m.moe_layer.experts@[i].down_proj, inner, h, dims.mlp_bias)
    }
    &&& m.stacked_moe_up is None && m.stacked_moe_down is None
    &&& m.shared_expert is Some <==> (dims.n_shared_experts matches Some(n) && n > 0)
    &&& m.shared_expert matches Some(e) ==> {
        let wide = match dims.moe_shared_expert_intermediate_size {
            Some(n) => n as int,
            None => inner,
        };
        &&& starts(
            e.up_proj,
            h,
            wide,
            listed_rank(lora.target_modules.up_proj, lora.r),
            lora.use_dora,
            lora,
        )
        &&& starts(
            e.down_proj,
            wide,
            h,
            listed_rank(lora.target_modules.down_proj, lora.r),
            lora.use_dora,
            lora,
        )
    }
}

/// How a block starts: its letter says what mixes.
pub open spec fn nemotron_block_starts(
    block: NemotronHLoraBlock,
    dims: NemotronHDims,
    kind: char,
    lora: LoraConfig,
) -> bool {
    let h = dims.hidden_size as int;
    &&& norm_starts(block.norm, h, dims.layer_norm_epsilon)
    &&& match block.mixer {
        NemotronHLoraMixer::Mamba(m) => kind == 'M' && mamba_starts(m, dims),
        NemotronHLoraMixer::Mlp(m) => {
            let n = dims.intermediate_size as int;
            &&& kind == '-'
            &&& starts(
                m.up_proj,
                h,
                n,
                listed_rank(lora.target_modules.up_proj, lora.r),
                lora.use_dora,
                lora,
            )
            &&& starts(
                m.down_proj,
                n,
                h,
                listed_rank(lora.target_modules.down_proj, lora.r),
                lora.use_dora,
                lora,
            )
        },
        NemotronHLoraMixer::MoE(m) => kind == 'E' && nemotron_experts_start(m, dims, lora),
        NemotronHLoraMixer::Attention(a) => kind != 'M' && kind != '-' && kind != 'E'
            && nemotron_attention_starts(a, dims, lora),
    }
}

proof fn lemma_mamba_starts(dims: NemotronHDims)
    requires
        dims.valid(),
    ensures
        mamba_starts(
            NemotronHMixer::fresh(
                dims.mamba,
                dims.hidden_size,
                dims.mamba_proj_bias,
                dims.use_conv_bias,
            ),
            dims,
        ),
{
}

proof fn lemma_nemotron_attention_starts(dims: NemotronHDims, lora: LoraConfig)
    requires
        dims.valid(),
        lora.valid(),
    ensures
        nemotron_attention_starts(NemotronHLoraAttention::fresh(dims, lora), dims, lora),
{
    if dims.head_dim is None {
        lemma_share(dims.hidden_size as int, dims.num_attention_heads as int);
    }
}

proof fn lemma_nemotron_experts_start(m: NemotronHLoraMoE, dims: NemotronHDims, lora: LoraConfig)
    requires
        m.is_fresh(dims, lora),
        lora.valid(),
    ensures
        nemotron_experts_start(m, dims, lora),
{
}

proof fn lemma_nemotron_block_starts(
    block: NemotronHLoraBlock,
    dims: NemotronHDims,
    kind: char,
    lora: LoraConfig,
)
    requires
        dims.valid(),
        lora.valid(),
        block.is_fresh(dims, lora, kind),
    ensures
        nemotron_block_starts(block, dims, kind, lora),
{
    match block.mixer {
        NemotronHLoraMixer::Mamba(m) => {
            lemma_mamba_starts(dims);
        },
        NemotronHLoraMixer::Mlp(m) => {},
        NemotronHLoraMixer::MoE(m) => {
            lemma_nemotron_experts_start(m, dims, lora);
        },
        NemotronHLoraMixer::Attention(a) => {
            lemma_nemotron_attention_starts(dims, lora);
        },
    }
}

/// A fresh Nemotron-H model has a block for each letter, with the mixer that the letter says.
pub proof fn law_nemotron_starts(
    m: NemotronHLoraModel,
    dims: NemotronHDims,
    kinds: Seq<char>,
    lora: LoraConfig,
)
    requires
        dims.valid(),
        lora.valid(),
        m.is_fresh(dims, kinds, lora),
    ensures
        m.layers@.len() == kinds.len(),
        forall|i: int|
            0 <= i < kinds.len() ==> nemotron_block_starts(
                #[trigger] m.layers@[i],
                dims,
                kinds[i],
                lora,
            ),
        norm_starts(m.norm_f, dims.hidden_size as int, dims.layer_norm_epsilon),
        m.embeddings.weight.shape == Shape::D2(dims.vocab_size, dims.hidden_size),
{
    broadcast use lemma_apply_node;

    assert forall|i: int| 0 <= i < kinds.len() implies nemotron_block_starts(
        #[trigger] m.layers@[i],
        dims,
        kinds[i],
        lora,
    ) by {
        lemma_nemotron_block_starts(m.layers@[i], dims, kinds[i], lora);
    }
}

/// How full attention starts; its queries come with gates, in twice the width.
pub open spec fn qwen3_next_attention_starts(
    a: Qwen3NextLoraAttention,
    config: Qwen3NextConfig,
    lora: LoraConfig,
) -> bool {
    let h = config.hidden_size as int;
    let d = a.head_dim as int;
    &&& a.n_heads == config.num_attention_heads
    &&& is_key_heads(
        a.n_kv_heads as int,
        config.num_key_value_heads,
        config.num_attention_heads as int,
    )
    &&& is_inverse_root(a.scale, d)
    &&& is_head_size(d, config.head_dim, h, config.num_attention_heads as int)
    &&& a.rope_dims == config.rope_dims && a.effective_base == config.effective_base
        && a.rope_scale == config.rope_scale
    &&& norm_starts(a.q_norm, d, config.rms_norm_eps)
    &&& norm_starts(a.k_norm, d, config.rms_norm_eps)
    &&& starts(
        a.q_proj,
        h,
        a.n_heads * d * 2,
        listed_rank(lora.target_modules.q_proj, lora.r),
        false,
        lora,
    )
    &&& starts(
        a.k_proj,
        h,
        a.n_kv_heads * d,
        listed_rank(lora.target_modules.k_proj, lora.r),
        false,
        lora,
    )
    &&& starts(
        a.v_proj,
        h,
        a.n_kv_heads * d,
        listed_rank(lora.target_modules.v_proj, lora.r),
        false,
        lora,
    )
    &&& starts(
        a.o_proj,
        a.n_heads * d,
        h,
        listed_rank(lora.target_modules.o_proj, lora.r),
        false,
        lora,
    )
}

/// How a gated delta rule starts.
pub open spec fn gdn_starts(
    g: Qwen3NextLoraGDN,
    config: Qwen3NextConfig,
    lora: LoraConfig,
) -> bool {
    let h = config.hidden_size as int;
    let heads = config.linear_num_value_heads as int;
    let key = config.linear_num_key_heads * config.linear_key_head_dim;
    let value = config.linear_num_value_heads * config.linear_value_head_dim;
    &&& g.hidden_size == h && g.num_v_heads == heads && g.num_k_heads == config.linear_num_key_heads
    &&& g.head_k_dim == config.linear_key_head_dim && g.head_v_dim == config.linear_value_head_dim
    &&& g.key_dim == key && g.value_dim == value && g.conv_dim == 2 * key + value
    &&& g.conv_kernel_size == config.linear_conv_kernel_dim
    &&& g.conv1d.bias is None
    &&& g.conv1d.weight.shape matches Shape::D3(n, k, one) && n == 2 * key + value
        && k == config.linear_conv_kernel_dim && one == 1
    &&& linear_starts(g.in_proj_a, h, heads, false)
    &&& linear_starts(g.in_proj_b, h, heads, false)
    &&& is_ones(Some(g.dt_bias), heads)
    &&& is_ones(Some(g.norm.weight), config.linear_value_head_dim as int)
    &&& g.norm.eps == config.rms_norm_eps
    &&& is_function(g.a_log, Function::Log, first_of(g.a_log))
    &&& *first_of(g.a_log).node matches Node::Source(Source::UniformBetween { low, high })
        && low.bits == 0 && high.bits == 0x4180_0000
    &&& starts(
        g.in_proj_qkv,
        h,
        2 * key + value,
        listed_rank(lora.target_modules.in_proj_qkv, lora.r),
        false,
        lora,
    )
    &&& starts(
        g.in_proj_z,
        h,
        value,
        listed_rank(lora.target_modules.in_proj_z, lora.r),
        false,
        lora,
    )
    &&& starts(g.out_proj, value, h, listed_rank(lora.target_modules.out_proj, lora.r), false, lora)
}

/// How a mixture with a shared expert starts.
pub open spec fn qwen3_next_experts_start(
    m: Qwen3NextLoraSparseMoE,
    config: Qwen3NextConfig,
    lora: LoraConfig,
) -> bool {
    let h = config.hidden_size as int;
    let n = config.num_experts as int;
    let e = config.shared_expert_intermediate_size as int;
    &&& m.num_experts == n && m.top_k == config.num_experts_per_tok
        && m.norm_topk_prob == config.norm_topk_prob
    &&& linear_starts(m.gate, h, n, false)
    &&& linear_starts(m.shared_expert_gate, h, 1, false)
    &&& m.switch_mlp_gate_proj.shape == Shape::D3(
        config.num_experts,
        config.moe_intermediate_size,
        config.hidden_size,
    )
    &&& m.switch_mlp_up_proj.shape == Shape::D3(
        config.num_experts,
        config.moe_intermediate_size,
        config.hidden_size,
    )
    &&& m.switch_mlp_down_proj.shape == Shape::D3(
        config.num_experts,
        config.hidden_size,
        config.moe_intermediate_size,
    )
    &&& starts(
        m.shared_expert.gate_proj,
        h,
        e,
        listed_rank(lora.target_modules.gate_proj, lora.r),
        false,
        lora,
    )
    &&& starts(
        m.shared_expert.up_proj,
        h,
        e,
        listed_rank(lora.target_modules.up_proj, lora.r),
        false,
        lora,
    )
    &&& starts(
        m.shared_expert.down_proj,
        e,
        h,
        listed_rank(lora.target_modules.down_proj, lora.r),
        false,
        lora,
    )
}

/// How layer `i` starts: every so many layers have full attention, and experts stand where no
/// listed layer keeps one MLP.
pub open spec fn qwen3_next_layer_starts(
    layer: Qwen3NextLoraDecoderLayer,
    config: Qwen3NextConfig,
    lora: LoraConfig,
    i: int,
) -> bool {
    let h = config.hidden_size as int;
    &&& layer.is_linear <==> (i + 1) % (config.full_attention_interval as int) != 0
    &&& layer.is_moe <==> (
        config.num_experts > 0 && config.decoder_sparse_step > 0
            && (i + 1) % (config.decoder_sparse_step as int) == 0
            && !config.mlp_only_layers@.contains(i as i32)
    )
    &&& layer.linear_attn is Some <==> layer.is_linear
    &&& layer.self_attn is Some <==> !layer.is_linear
    &&& layer.mlp is MoE <==> layer.is_moe
    &&& layer.self_attn matches Some(a) ==> qwen3_next_attention_starts(a, config, lora)
    &&& layer.linear_attn matches Some(g) ==> gdn_starts(g, config, lora)
    &&& match layer.mlp {
        Qwen3NextLoraFeedForward::MoE(m) => qwen3_next_experts_start(m, config, lora),
        Qwen3NextLoraFeedForward::Dense(m) => {
            &&& starts(
                m.gate_proj,
                h,
                config.intermediate_size as int,
                listed_rank(lora.target_modules.gate_proj, lora.r),
                false,
                lora,
            )
            &&& starts(
                m.up_proj,
                h,
                config.intermediate_size as int,
                listed_rank(lora.target_modules.up_proj, lora.r),
                false,
                lora,
            )
            &&& starts(
                m.down_proj,
                config.intermediate_size as int,
                h,
                listed_rank(lora.target_modules.down_proj, lora.r),
                false,
                lora,
            )
        },
    }
    &&& norm_starts(layer.input_layernorm, h, config.rms_norm_eps)
    &&& norm_starts(layer.post_attention_layernorm, h, config.rms_norm_eps)
}

proof fn lemma_qwen3_next_attention_starts(config: Qwen3NextConfig, lora: LoraConfig, id: usize)
    requires
        config.valid(),
        lora.valid(),
    ensures
        qwen3_next_attention_starts(Qwen3NextLoraAttention::fresh(config, lora, id), config, lora),
{
    if config.head_dim is None {
        lemma_share(config.hidden_size as int, config.num_attention_heads as int);
    }
}

proof fn lemma_gdn_starts(config: Qwen3NextConfig, lora: LoraConfig)
    requires
        config.valid(),
        lora.valid(),
    ensures
        gdn_starts(Qwen3NextLoraGDN::fresh(config, lora), config, lora),
{
    broadcast use lemma_apply_node;

    vstd::arithmetic::mul::lemma_mul_is_commutative(
        config.linear_key_head_dim as int,
        config.linear_num_key_heads as int,
    );
    vstd::arithmetic::mul::lemma_mul_is_commutative(
        config.linear_value_head_dim as int,
        config.linear_num_value_heads as int,
    );
}

proof fn lemma_qwen3_next_experts_start(config: Qwen3NextConfig, lora: LoraConfig)
    requires
        lora.valid(),
    ensures
        qwen3_next_experts_start(Qwen3NextLoraSparseMoE::fresh(config, lora), config, lora),
{
}

proof fn lemma_qwen3_next_layer_starts(config: Qwen3NextConfig, lora: LoraConfig, i: int, id: usize)
    requires
        config.valid(),
        lora.valid(),
        0 <= i < config.num_hidden_layers,
    ensures
        qwen3_next_layer_starts(
            Qwen3NextLoraDecoderLayer::fresh(config, lora, i, id),
            config,
            lora,
            i,
        ),
{
    if config.linear(i) {
        lemma_gdn_starts(config, lora);
    } else {
        lemma_qwen3_next_attention_starts(config, lora, id);
    }
    if config.sparse(i) {
        lemma_qwen3_next_experts_start(config, lora);
    }
}

/// A fresh Qwen3-Next model has as many layers as the settings say, each with the mixer and the
/// feed-forward part of its place.
pub proof fn law_qwen3_next_starts(m: Qwen3NextLoraModel, config: Qwen3NextConfig, lora: LoraConfig)
    requires
        config.valid(),
        lora.valid(),
        m.is_fresh(config, lora),
    ensures
        m.layers@.len() == config.num_hidden_layers,
        forall|i: int|
            0 <= i < m.layers@.len() ==> qwen3_next_layer_starts(
                #[trigger] m.layers@[i],
                config,
                lora,
                i,
            ),
        norm_starts(m.norm, config.hidden_size as int, config.rms_norm_eps),
        m.embed_tokens.weight.shape == Shape::D2(config.vocab_size, config.hidden_size),
{
    broadcast use lemma_apply_node;

    assert forall|i: int| 0 <= i < m.layers@.len() implies qwen3_next_layer_starts(
        #[trigger] m.layers@[i],
        config,
        lora,
        i,
    ) by {
        lemma_qwen3_next_layer_starts(config, lora, i, config.full_before(i as nat) as usize);
    }
}

/// How layer `i` of the frozen model starts.
pub open spec fn moe_layer_starts(
    layer: Qwen3MoEDecoderLayer,
    config: Qwen3MoEConfig,
    i: int,
) -> bool {
    let h = config.hidden_size as int;
    let d = config.head_dim as int;
    let a = layer.self_attn;
    let q = config.num_attention_heads * d;
    let kv = (match config.num_key_value_heads {
        Some(n) => n,
        None => config.num_attention_heads,
    }) * d;
    &&& linear_starts(a.q_proj, h, q, false)
    &&& linear_starts(a.k_proj, h, kv, false)
    &&& linear_starts(a.v_proj, h, kv, false)
    &&& linear_starts(a.o_proj, q, h, false)
    &&& norm_starts(a.q_norm, d, config.rms_norm_eps)
    &&& norm_starts(a.k_norm, d, config.rms_norm_eps)
    &&& norm_starts(layer.input_layernorm, h, config.rms_norm_eps)
    &&& norm_starts(layer.post_attention_layernorm, h, config.rms_norm_eps)
    &&& layer.ffn is MoE <==> (
        config.num_experts > 0 && config.decoder_sparse_step > 0
            && (i + 1) % (config.decoder_sparse_step as int) == 0
            && !config.mlp_only_layers@.contains(i as i32)
    )
    &&& match layer.ffn {
        Qwen3MoEFeedForward::Dense(m) => {
            let n = config.intermediate_size as int;
            &&& linear_starts(m.gate_proj, h, n, false)
            &&& linear_starts(m.up_proj, h, n, false)
            &&& linear_starts(m.down_proj, n, h, false)
        },
        Qwen3MoEFeedForward::MoE(b) => {
            let n = match config.moe_intermediate_size {
                Some(n) => n as int,
                None => config.intermediate_size as int,
            };
            &&& b.top_k == config.num_experts_per_tok && b.norm_topk_prob == config.norm_topk_prob
            &&& linear_starts(b.gate, h, config.num_experts as int, false)
            &&& counts_layers(b.experts@.len(), config.num_experts as int)
            &&& forall|j: int| 0 <= j < b.experts@.len() ==> {
                &&& linear_starts((#[trigger] b.experts@[j]).w1, h, n, false)
                &&& linear_starts(b.experts@[j].w2, n, h, false)
                &&& linear_starts(b.experts@[j].w3, h, n, false)
            }
        },
    }
}

/// A fresh Qwen3-MoE model has as many layers as the settings say, with experts where its place
/// asks for them.
pub proof fn law_moe_starts(m: Qwen3MoE, config: Qwen3MoEConfig)
    requires
        config.valid(),
        m.is_fresh(config),
    ensures
        m.model.layers@.len() == config.num_hidden_layers,
        forall|i: int|
            0 <= i < m.model.layers@.len() ==> moe_layer_starts(
                #[trigger] m.model.layers@[i],
                config,
                i,
            ),
        norm_starts(m.model.norm, config.hidden_size as int, config.rms_norm_eps),
        m.lm_head is Some <==> !config.tie_word_embeddings,
        m.lm_head matches Some(l) ==> linear_starts(
            l,
            config.hidden_size as int,
            config.vocab_size as int,
            false,
        ),
{
    assert forall|i: int| 0 <= i < m.model.layers@.len() implies moe_layer_starts(
        #[trigger] m.model.layers@[i],
        config,
        i,
    ) by {
        assert(m.model.layers@[i].is_fresh(config, i));
    }
}

/// Adapters on a frozen layer: each projection stands on the weight of the projection of its name,
/// and nothing else changes.
pub proof fn law_moe_lora_over(
    layer: Qwen3MoEDecoderLayer,
    config: Qwen3MoEConfig,
    lora: LoraConfig,
)
    requires
        lora.valid(),
    ensures
        ({
            let after = Qwen3MoELoraDecoderLayer::over(config, layer, lora);
            &&& sits_on(
                after.self_attn.q_proj,
                layer.self_attn.q_proj,
                listed_rank(lora.target_modules.q_proj, lora.r),
                lora,
            )
            &&& sits_on(
                after.self_attn.k_proj,
                layer.self_attn.k_proj,
                listed_rank(lora.target_modules.k_proj, lora.r),
                lora,
            )
            &&& sits_on(
                after.self_attn.v_proj,
                layer.self_attn.v_proj,
                listed_rank(lora.target_modules.v_proj, lora.r),
                lora,
            )
            &&& sits_on(
                after.self_attn.o_proj,
                layer.self_attn.o_proj,
                listed_rank(lora.target_modules.o_proj, lora.r),
                lora,
            )
            &&& after.self_attn.q_norm == layer.self_attn.q_norm
                && after.self_attn.k_norm == layer.self_attn.k_norm
            &&& after.input_layernorm == layer.input_layernorm
            &&& after.post_attention_layernorm == layer.post_attention_layernorm
            &&& after.self_attn.n_heads == config.num_attention_heads
            &&& is_key_heads(
                after.self_attn.n_kv_heads as int,
                config.num_key_value_heads,
                config.num_attention_heads as int,
            )
            &&& after.self_attn.head_dim == config.head_dim
            &&& is_inverse_root(after.self_attn.scale, config.head_dim as int)
            &&& after.self_attn.rope_scale == config.rope_scale
                && after.self_attn.effective_base == config.effective_base
            &&& match (layer.ffn, after.ffn) {
                (Qwen3MoEFeedForward::Dense(b), Qwen3MoELoraFeedForward::Dense(m)) => {
                    &&& sits_on(
                        m.gate_proj,
                        b.gate_proj,
                        listed_rank(lora.target_modules.gate_proj, lora.r),
                        lora,
                    )
                    &&& sits_on(
                        m.up_proj,
                        b.up_proj,
                        listed_rank(lora.target_modules.up_proj, lora.r),
                        lora,
                    )
                    &&& sits_on(
                        m.down_proj,
                        b.down_proj,
                        listed_rank(lora.target_modules.down_proj, lora.r),
                        lora,
                    )
                },
                (Qwen3MoEFeedForward::MoE(b), Qwen3MoELoraFeedForward::MoE(m)) => {
                    &&& sits_on(m.gate, b.gate, listed_rank(lora.target_modules.gate, lora.r), lora)
                    &&& m.experts == b.experts && m.top_k == b.top_k
                        && m.norm_topk_prob == b.norm_topk_prob
                },
                _ => false,
            }
        }),
{

}

/// A quantized Qwen3-MoE layer: each projection stands on the weight of the projection of its name,
/// and nothing else changes.
pub proof fn law_moe_qlora_of(layer: Qwen3MoELoraDecoderLayer, config: QLoraConfig)
    requires
        config.lora.valid(),
    ensures
        ({
            let after = Qwen3MoEQLoraDecoderLayer::of(layer, config);
            &&& sits_on_quantized(
                after.self_attn.q_proj,
                layer.self_attn.q_proj.weight,
                layer.self_attn.q_proj.bias,
                config.lora.r as int,
                config,
            )
            &&& sits_on_quantized(
                after.self_attn.k_proj,
                layer.self_attn.k_proj.weight,
                layer.self_attn.k_proj.bias,
                config.lora.r as int,
                config,
            )
            &&& sits_on_quantized(
                after.self_attn.v_proj,
                layer.self_attn.v_proj.weight,
                layer.self_attn.v_proj.bias,
                config.lora.r as int,
                config,
            )
            &&& sits_on_quantized(
                after.self_attn.o_proj,
                layer.self_attn.o_proj.weight,
                layer.self_attn.o_proj.bias,
                config.lora.r as int,
                config,
            )
            &&& after.input_layernorm == layer.input_layernorm
            &&& after.post_attention_layernorm == layer.post_attention_layernorm
            &&& after.self_attn.n_heads == layer.self_attn.n_heads
            &&& after.self_attn.n_kv_heads == layer.self_attn.n_kv_heads
            &&& after.self_attn.head_dim == layer.self_attn.head_dim
            &&& after.self_attn.scale == layer.self_attn.scale
            &&& after.self_attn.rope_scale == layer.self_attn.rope_scale
            &&& after.self_attn.effective_base == layer.self_attn.effective_base
            &&& after.self_attn.q_norm == layer.self_attn.q_norm
            &&& after.self_attn.k_norm == layer.self_attn.k_norm
            &&& match (layer.ffn, after.ffn) {
                (Qwen3MoELoraFeedForward::Dense(b), Qwen3MoEQLoraFeedForward::Dense(m)) => {
                    &&& sits_on_quantized(
                        m.gate_proj,
                        b.gate_proj.weight,
                        b.gate_proj.bias,
                        config.lora.r as int,
                        config,
                    )
                    &&& sits_on_quantized(
                        m.up_proj,
                        b.up_proj.weight,
                        b.up_proj.bias,
                        config.lora.r as int,
                        config,
                    )
                    &&& sits_on_quantized(
                        m.down_proj,
                        b.down_proj.weight,
                        b.down_proj.bias,
                        config.lora.r as int,
                        config,
                    )
                },
                (Qwen3MoELoraFeedForward::MoE(b), Qwen3MoEQLoraFeedForward::MoE(m)) => {
                    &&& sits_on_quantized(
                        m.gate,
                        b.gate.weight,
                        b.gate.bias,
                        config.lora.r as int,
                        config,
                    )
                    &&& m.experts == b.experts && m.top_k == b.top_k
                        && m.norm_topk_prob == b.norm_topk_prob
                },
                _ => false,
            }
        }),
{
    broadcast use lemma_apply_node;

}

/// A quantized Nemotron-H block: each projection stands on the weight of the projection of its
/// name, and what is frozen stays.
pub proof fn law_nemotron_qlora_of(layer: NemotronHLoraBlock, config: QLoraConfig)
    requires
        config.lora.valid(),
    ensures
        ({
            let after = NemotronHQloraBlock::of(layer, config);
            &&& after.norm == layer.norm
            &&& match (layer.mixer, after.mixer) {
                (NemotronHLoraMixer::Mamba(b), NemotronHQloraMixer::Mamba(m)) => m == b,
                (NemotronHLoraMixer::Attention(b), NemotronHQloraMixer::Attention(m)) => {
                    &&& sits_on_quantized(
                        m.q_proj,
                        b.q_proj.weight,
                        b.q_proj.bias,
                        config.lora.r as int,
                        config,
                    )
                    &&& sits_on_quantized(
                        m.k_proj,
                        b.k_proj.weight,
                        b.k_proj.bias,
                        config.lora.r as int,
                        config,
                    )
                    &&& sits_on_quantized(
                        m.v_proj,
                        b.v_proj.weight,
                        b.v_proj.bias,
                        config.lora.r as int,
                        config,
                    )
                    &&& sits_on_quantized(
                        m.o_proj,
                        b.o_proj.weight,
                        b.o_proj.bias,
                        config.lora.r as int,
                        config,
                    )
                    &&& m.num_heads == b.num_heads && m.num_kv_heads == b.num_kv_heads
                        && m.head_dim == b.head_dim
                    &&& m.scale == b.scale && m.rope_theta == b.rope_theta
                },
                (NemotronHLoraMixer::Mlp(b), NemotronHQloraMixer::Mlp(m)) => {
                    &&& sits_on_quantized(
                        m.up_proj,
                        b.up_proj.weight,
                        b.up_proj.bias,
                        config.lora.r as int,
                        config,
                    )
                    &&& sits_on_quantized(
                        m.down_proj,
                        b.down_proj.weight,
                        b.down_proj.bias,
                        config.lora.r as int,
                        config,
                    )
                },
                (NemotronHLoraMixer::MoE(b), NemotronHQloraMixer::MoE(m)) => {
                    &&& m.moe_layer == b.moe_layer
                    &&& m.shared_expert is Some <==> b.shared_expert is Some
                    &&& b.shared_expert matches Some(s) ==> (m.shared_expert matches Some(t) && {
                        &&& sits_on_quantized(
                            t.up_proj,
                            s.up_proj.weight,
                            s.up_proj.bias,
                            config.lora.r as int,
                            config,
                        )
                        &&& sits_on_quantized(
                            t.down_proj,
                            s.down_proj.weight,
                            s.down_proj.bias,
                            config.lora.r as int,
                            config,
                        )
                    })
                },
                _ => false,
            }
        }),
{
    broadcast use lemma_apply_node;

}

} // verus!
