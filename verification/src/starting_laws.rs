//! What a layer starts from: the extents, the ranks, the factors and the settings.

use crate::array::{Array, Function, Node, RopeConfig, Source};
use crate::config::{LoraConfig, lists_number};
use crate::dora::LinearAdapter;
use crate::lora::LoraLinear;
use crate::mistral_lora::{MistralConfig, MistralLoraDecoderLayer, MistralLoraModel};
use crate::mllama_lora::{LlamaConfig, MllamaLoraDecoderLayer, MllamaLoraModel};
use crate::nn::{Linear, RmsNorm};
use crate::phi_lora::{PhiActivation, PhiConfig, PhiLoraDecoderLayer, PhiLoraModel};
use crate::phi_qlora::{PhiQloraDecoderLayer, PhiQloraModel};
use crate::qlora::{QLoraConfig, QLoraLinear};
use crate::qwen3_lora::{Qwen3Config, Qwen3LoraDecoderLayer, Qwen3LoraModel};
use crate::qwen3_moe_lora::adapter_on;
use crate::reading::{first_of, group_nodes, is_function, is_row_norms, lemma_apply_node};
use crate::scalar::{F32, Scale};
use crate::shape::Shape;
use vstd::prelude::*;

verus! {

/// The factor of an adapter: alpha over the rank, or over its square root.
pub open spec fn is_alpha_over(s: Scale, alpha: F32, rank: int, rooted: bool) -> bool {
    match s {
        Scale::AlphaOverRank { alpha: a, rank: r } => !rooted && a == alpha && r == rank,
        Scale::AlphaOverSqrtRank { alpha: a, rank: r } => rooted && a == alpha && r == rank,
        _ => false,
    }
}

/// One over the square root of the number.
pub open spec fn is_inverse_root(s: Scale, n: int) -> bool {
    s matches Scale::InverseSqrt { n: m } && m == n
}

/// The rank that the settings give to an adapter: none where its projection is not listed.
pub open spec fn listed_rank(listed: bool, r: usize) -> int {
    if listed {
        r as int
    } else {
        0
    }
}

/// A matrix of so many rows and columns.
pub open spec fn is_matrix(x: Array, rows: int, columns: int) -> bool {
    &&& x.fits
    &&& x.shape matches Shape::D2(m, n) && m == rows && n == columns
}

/// A pair of matrices that adds nothing yet: the second is zero, the first is drawn.
pub open spec fn is_idle_pair(a: Array, b: Array, inner: int, outer: int, rank: int) -> bool {
    &&& is_matrix(a, rank, inner)
    &&& is_matrix(b, outer, rank)
    &&& *a.node matches Node::Source(Source::Uniform { fan_in: n }) && n == inner
    &&& *b.node == Node::Source(Source::Zeros)
}

/// A layer from `inner` to `outer` features whose adapter adds nothing yet.
pub open spec fn starts(
    l: LoraLinear,
    inner: int,
    outer: int,
    rank: int,
    biased: bool,
    lora: LoraConfig,
) -> bool {
    &&& is_matrix(l.weight, outer, inner)
    &&& *l.weight.node matches Node::Source(Source::Uniform { fan_in: n }) && n == inner
    &&& l.bias is Some <==> biased
    &&& l.rank == rank
    &&& is_idle_pair(l.lora_a, l.lora_b, inner, outer, rank)
    &&& is_alpha_over(l.scale, lora.alpha, rank, lora.use_rslora)
    &&& !l.merged
}

/// The same of an adapter of either kind: with magnitudes where the settings ask for them, which
/// are the norms of the rows.
pub open spec fn adapter_starts(
    l: LinearAdapter,
    inner: int,
    outer: int,
    rank: int,
    lora: LoraConfig,
) -> bool {
    match l {
        LinearAdapter::Lora(l) => !lora.use_dora && starts(l, inner, outer, rank, false, lora),
        LinearAdapter::Dora(l) => {
            &&& lora.use_dora
            &&& is_matrix(l.weight, outer, inner)
            &&& l.bias is None
            &&& l.rank == rank
            &&& is_idle_pair(l.lora_a, l.lora_b, inner, outer, rank)
            &&& is_alpha_over(l.scale, lora.alpha, rank, lora.use_rslora)
            &&& is_row_norms(first_of(l.magnitude), l.weight)
            &&& !l.merged
        },
    }
}

/// The same of a layer on a quantized weight.
pub open spec fn quantized_starts(
    l: QLoraLinear,
    inner: int,
    outer: int,
    rank: int,
    biased: bool,
    config: QLoraConfig,
) -> bool {
    &&& is_matrix(first_of(l.quantized_weight.weight), outer, inner)
    &&& l.bias is Some <==> biased
    &&& l.in_features == inner && l.out_features == outer
    &&& sits_on_quantized(l, first_of(l.quantized_weight.weight), l.bias, rank, config)
}

/// The layer has the weight and the bias, with an adapter that adds nothing yet.
pub open spec fn sits_on(l: LoraLinear, under: Linear, rank: int, lora: LoraConfig) -> bool {
    &&& l.weight == under.weight
    &&& l.bias == under.bias
    &&& l.rank == rank
    &&& is_alpha_over(l.scale, lora.alpha, rank, lora.use_rslora)
    &&& *l.lora_b.node == Node::Source(Source::Zeros)
    &&& under.weight.shape matches Shape::D2(m, n) ==> {
        &&& is_matrix(l.lora_a, rank, n as int)
        &&& is_matrix(l.lora_b, m as int, rank)
    }
    &&& !l.merged
}

/// The layer has the weight in single precision, quantized under the scheme, and the bias, with
/// an adapter that adds nothing yet.
pub open spec fn sits_on_quantized(
    l: QLoraLinear,
    weight: Array,
    bias: Option<Array>,
    rank: int,
    config: QLoraConfig,
) -> bool {
    &&& is_function(l.quantized_weight.weight, Function::ToFloat32, weight)
    &&& l.quantized_weight.scheme == config.quant_scheme
    &&& l.quantized_weight.config.block_size == config.block_size
    &&& l.quantized_weight.config.double_quant == config.double_quant
    &&& l.bias == bias
    &&& l.rank == rank
    &&& is_alpha_over(l.scale, config.lora.alpha, rank, config.lora.use_rslora)
    &&& *l.lora_b.node == Node::Source(Source::Zeros)
    &&& weight.shape matches Shape::D2(m, n) ==> {
        &&& is_matrix(l.lora_a, rank, n as int)
        &&& is_matrix(l.lora_b, m as int, rank)
    }
    &&& l.weight_cache is None
}

/// A norm over so many features, with weight one.
pub open spec fn norm_starts(l: RmsNorm, n: int, eps: F32) -> bool {
    &&& l.weight.shape matches Shape::D1(m) && m == n
    &&& *l.weight.node == Node::Source(Source::Ones)
    &&& l.eps == eps
}

/// Rotations over so many features, on this base and with factor one.
pub open spec fn turns(r: RopeConfig, dims: int, base: F32) -> bool {
    r.dims == dims && r.base == base && r.scale.bits == 0x3f80_0000
}

/// The features of a head: those that are given, else an even share of the hidden size.
pub open spec fn is_head_size(d: int, given: Option<i32>, hidden: int, heads: int) -> bool {
    match given {
        Some(n) => d == n,
        None => 0 <= hidden - heads * d < heads,
    }
}

/// Key heads: those that are given, else one for each query head.
pub open spec fn is_key_heads(n: int, given: Option<i32>, heads: int) -> bool {
    match given {
        Some(m) => n == m,
        None => n == heads,
    }
}

/// The width of the first projection of an MLP: twice the inner size where half of it gates.
pub open spec fn gated_width(config: PhiConfig) -> int {
    match config.hidden_act {
        PhiActivation::SwiGLU => 2 * config.intermediate_size,
        _ => config.intermediate_size as int,
    }
}

/// Layers are numbered from zero; a negative number of them stands for none.
pub open spec fn counts_layers(n: nat, asked: int) -> bool {
    &&& asked >= 0 ==> n == asked
    &&& asked < 0 ==> n == 0
}

/// An even share of the hidden size leaves less than one feature for each head.
pub proof fn lemma_share(hidden: int, heads: int)
    requires
        heads > 0,
        hidden >= 0,
    ensures
        0 <= hidden - heads * (hidden / heads) < heads,
{
    vstd::arithmetic::div_mod::lemma_fundamental_div_mod(hidden, heads);
}

/// A fresh layer adds nothing to its random weight, and its extents, rank and factor are those
/// that were asked for.
pub proof fn law_lora_starts(
    inner: i32,
    outer: i32,
    rank: i32,
    biased: bool,
    lora: LoraConfig,
)
    ensures
        starts(
            LoraLinear::fresh(inner, outer, rank, lora.alpha, lora.use_rslora, biased),
            inner as int,
            outer as int,
            rank as int,
            biased,
            lora,
        ),
{
    broadcast use group_nodes;

}

/// A fresh adapter of either kind adds nothing to its random weight.
pub proof fn law_adapter_starts(inner: i32, outer: i32, rank: i32, lora: LoraConfig)
    ensures
        adapter_starts(
            LinearAdapter::fresh(
                inner,
                outer,
                rank,
                lora.alpha,
                lora.use_rslora,
                false,
                lora.use_dora,
            ),
            inner as int,
            outer as int,
            rank as int,
            lora,
        ),
{
    broadcast use group_nodes;

}

/// A fresh layer on a quantized weight adds nothing to it.
pub proof fn law_quantized_starts(inner: i32, outer: i32, biased: bool, config: QLoraConfig)
    requires
        config.lora.valid(),
    ensures
        quantized_starts(
            QLoraLinear::fresh(inner, outer, config, biased),
            inner as int,
            outer as int,
            config.lora.r as int,
            biased,
            config,
        ),
{
    broadcast use group_nodes;

}

/// A layer made on a frozen one keeps its weight and bias and adds nothing yet.
pub proof fn law_lora_sits_on(under: Linear, rank: i32, lora: LoraConfig)
    ensures
        sits_on(adapter_on(under, rank, lora), under, rank as int, lora),
{
    broadcast use group_nodes;

}

/// A layer made on a quantized weight keeps it and the bias, and adds nothing yet.
pub proof fn law_quantized_sits_on(weight: Array, bias: Option<Array>, config: QLoraConfig)
    requires
        config.lora.valid(),
    ensures
        sits_on_quantized(
            QLoraLinear::on(weight, bias, config),
            weight,
            bias,
            config.lora.r as int,
            config,
        ),
{
    broadcast use group_nodes;

}

/// A fresh norm has weight one.
pub proof fn law_norm_starts(n: i32, eps: F32)
    ensures
        norm_starts(RmsNorm::fresh(n, eps), n as int, eps),
{
    broadcast use group_nodes;

}

/// How a layer of the model starts.
pub open spec fn mistral_layer_starts(
    layer: MistralLoraDecoderLayer,
    config: MistralConfig,
    lora: LoraConfig,
) -> bool {
    let h = config.hidden_size as int;
    let d = layer.self_attn.head_dim as int;
    let a = layer.self_attn;
    &&& a.n_heads == config.num_attention_heads
    &&& is_key_heads(
        a.n_kv_heads as int,
        config.num_key_value_heads,
        config.num_attention_heads as int,
    )
    &&& is_inverse_root(a.scale, d)
    &&& is_head_size(d, config.head_dim, h, config.num_attention_heads as int)
    &&& turns(a.rope, d, config.rope_theta)
    &&& a.sliding_window == config.sliding_window
    &&& starts(a.q_proj, h, a.n_heads * d, lora.r as int, false, lora)
    &&& starts(a.k_proj, h, a.n_kv_heads * d, lora.r as int, false, lora)
    &&& starts(a.v_proj, h, a.n_kv_heads * d, lora.r as int, false, lora)
    &&& starts(a.o_proj, a.n_heads * d, h, lora.r as int, false, lora)
    &&& starts(layer.mlp.gate_proj, h, config.intermediate_size as int, lora.r as int, false, lora)
    &&& starts(layer.mlp.up_proj, h, config.intermediate_size as int, lora.r as int, false, lora)
    &&& starts(layer.mlp.down_proj, config.intermediate_size as int, h, lora.r as int, false, lora)
    &&& norm_starts(layer.input_layernorm, h, config.rms_norm_eps)
    &&& norm_starts(layer.post_attention_layernorm, h, config.rms_norm_eps)
}

/// How a layer of the model starts.
pub open spec fn qwen3_layer_starts(
    layer: Qwen3LoraDecoderLayer,
    config: Qwen3Config,
    lora: LoraConfig,
    id: int,
) -> bool {
    let h = config.hidden_size as int;
    let d = layer.self_attn.head_dim as int;
    let a = layer.self_attn;
    &&& a.n_heads == config.num_attention_heads
    &&& is_key_heads(
        a.n_kv_heads as int,
        config.num_key_value_heads,
        config.num_attention_heads as int,
    )
    &&& is_inverse_root(a.scale, d)
    &&& d == config.head_dim
    &&& a.layer_id == id
    &&& turns(a.rope, d, config.rope_theta)
    &&& norm_starts(a.q_norm, d, config.rms_norm_eps)
    &&& norm_starts(a.k_norm, d, config.rms_norm_eps)
    &&& starts(a.q_proj, h, a.n_heads * d, lora.r as int, false, lora)
    &&& starts(a.k_proj, h, a.n_kv_heads * d, lora.r as int, false, lora)
    &&& starts(a.v_proj, h, a.n_kv_heads * d, lora.r as int, false, lora)
    &&& starts(a.o_proj, a.n_heads * d, h, lora.r as int, false, lora)
    &&& starts(layer.mlp.gate_proj, h, config.intermediate_size as int, lora.r as int, false, lora)
    &&& starts(layer.mlp.up_proj, h, config.intermediate_size as int, lora.r as int, false, lora)
    &&& starts(layer.mlp.down_proj, config.intermediate_size as int, h, lora.r as int, false, lora)
    &&& norm_starts(layer.input_layernorm, h, config.rms_norm_eps)
    &&& norm_starts(layer.post_attention_layernorm, h, config.rms_norm_eps)
}

/// How a layer of the model starts.
pub open spec fn phi_layer_starts(
    layer: PhiLoraDecoderLayer,
    config: PhiConfig,
    lora: LoraConfig,
) -> bool {
    let h = config.hidden_size as int;
    let d = layer.self_attn.head_dim as int;
    let a = layer.self_attn;
    &&& a.n_heads == config.num_attention_heads
    &&& a.n_kv_heads == config.num_key_value_heads
    &&& is_inverse_root(a.scale, d)
    &&& is_head_size(d, None, h, config.num_attention_heads as int)
    &&& turns(a.rope, config.rope_dim as int, config.rope_theta)
    &&& a.rope_dim == config.rope_dim
    &&& starts(a.q_proj, h, a.n_heads * d, lora.r as int, config.qkv_bias, lora)
    &&& starts(a.k_proj, h, a.n_kv_heads * d, lora.r as int, config.qkv_bias, lora)
    &&& starts(a.v_proj, h, a.n_kv_heads * d, lora.r as int, config.qkv_bias, lora)
    &&& starts(a.o_proj, a.n_heads * d, h, lora.r as int, false, lora)
    &&& starts(layer.mlp.gate_up_proj, h, gated_width(config), lora.r as int, false, lora)
    &&& starts(layer.mlp.down_proj, config.intermediate_size as int, h, lora.r as int, false, lora)
    &&& layer.mlp.activation == config.hidden_act
    &&& layer.mlp.intermediate_size == config.intermediate_size
    &&& norm_starts(layer.input_layernorm, h, config.rms_norm_eps)
    &&& norm_starts(layer.post_attention_layernorm, h, config.rms_norm_eps)
}

/// How a layer of the model starts.
pub open spec fn phi_qlora_layer_starts(
    layer: PhiQloraDecoderLayer,
    config: PhiConfig,
    lora: QLoraConfig,
) -> bool {
    let h = config.hidden_size as int;
    let d = layer.self_attn.head_dim as int;
    let a = layer.self_attn;
    &&& a.n_heads == config.num_attention_heads
    &&& a.n_kv_heads == config.num_key_value_heads
    &&& is_inverse_root(a.scale, d)
    &&& is_head_size(d, None, h, config.num_attention_heads as int)
    &&& turns(a.rope, config.rope_dim as int, config.rope_theta)
    &&& a.rope_dim == config.rope_dim
    &&& quantized_starts(
        a.q_proj,
        h,
        a.n_heads * d,
        listed_rank(lora.lora.target_modules.q_proj, lora.lora.r),
        config.qkv_bias,
        lora,
    )
    &&& quantized_starts(
        a.k_proj,
        h,
        a.n_kv_heads * d,
        listed_rank(lora.lora.target_modules.k_proj, lora.lora.r),
        config.qkv_bias,
        lora,
    )
    &&& quantized_starts(
        a.v_proj,
        h,
        a.n_kv_heads * d,
        listed_rank(lora.lora.target_modules.v_proj, lora.lora.r),
        config.qkv_bias,
        lora,
    )
    &&& quantized_starts(
        a.o_proj,
        a.n_heads * d,
        h,
        listed_rank(lora.lora.target_modules.o_proj, lora.lora.r),
        false,
        lora,
    )
    &&& quantized_starts(
        layer.mlp.gate_up_proj,
        h,
        gated_width(config),
        listed_rank(lora.lora.target_modules.gate_proj, lora.lora.r),
        false,
        lora,
    )
    &&& quantized_starts(
        layer.mlp.down_proj,
        config.intermediate_size as int,
        h,
        listed_rank(lora.lora.target_modules.down_proj, lora.lora.r),
        false,
        lora,
    )
    &&& layer.mlp.activation == config.hidden_act
    &&& layer.mlp.intermediate_size == config.intermediate_size
    &&& norm_starts(layer.input_layernorm, h, config.rms_norm_eps)
    &&& norm_starts(layer.post_attention_layernorm, h, config.rms_norm_eps)
}

/// How a layer of the model starts.
pub open spec fn mllama_layer_starts(
    layer: MllamaLoraDecoderLayer,
    config: LlamaConfig,
    lora: LoraConfig,
    crossing: bool,
) -> bool {
    let h = config.hidden_size as int;
    let d = layer.self_attn.head_dim as int;
    let a = layer.self_attn;
    &&& a.n_heads == config.num_attention_heads
    &&& is_key_heads(
        a.n_kv_heads as int,
        config.num_key_value_heads,
        config.num_attention_heads as int,
    )
    &&& is_inverse_root(a.scale, d)
    &&& is_head_size(d, config.head_dim, h, config.num_attention_heads as int)
    &&& turns(a.rope, d, config.rope_theta)
    &&& adapter_starts(
        a.q_proj,
        h,
        a.n_heads * d,
        listed_rank(lora.target_modules.q_proj, lora.r),
        lora,
    )
    &&& adapter_starts(
        a.k_proj,
        h,
        a.n_kv_heads * d,
        listed_rank(lora.target_modules.k_proj, lora.r),
        lora,
    )
    &&& adapter_starts(
        a.v_proj,
        h,
        a.n_kv_heads * d,
        listed_rank(lora.target_modules.v_proj, lora.r),
        lora,
    )
    &&& adapter_starts(
        a.o_proj,
        a.n_heads * d,
        h,
        listed_rank(lora.target_modules.o_proj, lora.r),
        lora,
    )
    &&& layer.cross_attn is Some <==> crossing
    &&& layer.cross_attention_layernorm is Some <==> crossing
    &&& layer.cross_attn matches Some(c) ==> {
        &&& c.n_heads == a.n_heads && c.n_kv_heads == a.n_kv_heads && c.head_dim == d
        &&& is_inverse_root(c.scale, d)
        &&& adapter_starts(
            c.q_proj,
            h,
            a.n_heads * d,
            listed_rank(lora.target_modules.q_proj, lora.r),
            lora,
        )
        &&& adapter_starts(
            c.k_proj,
            h,
            a.n_kv_heads * d,
            listed_rank(lora.target_modules.k_proj, lora.r),
            lora,
        )
        &&& adapter_starts(
            c.v_proj,
            h,
            a.n_kv_heads * d,
            listed_rank(lora.target_modules.v_proj, lora.r),
            lora,
        )
        &&& adapter_starts(
            c.o_proj,
            a.n_heads * d,
            h,
            listed_rank(lora.target_modules.o_proj, lora.r),
            lora,
        )
    }
    &&& layer.cross_attention_layernorm matches Some(n) ==> norm_starts(n, h, config.rms_norm_eps)
    &&& starts(
        layer.mlp.gate_proj,
        h,
        config.intermediate_size as int,
        listed_rank(lora.target_modules.gate_proj, lora.r),
        false,
        lora,
    )
    &&& starts(
        layer.mlp.up_proj,
        h,
        config.intermediate_size as int,
        listed_rank(lora.target_modules.up_proj, lora.r),
        false,
        lora,
    )
    &&& starts(
        layer.mlp.down_proj,
        config.intermediate_size as int,
        h,
        listed_rank(lora.target_modules.down_proj, lora.r),
        false,
        lora,
    )
    &&& norm_starts(layer.input_layernorm, h, config.rms_norm_eps)
    &&& norm_starts(layer.post_attention_layernorm, h, config.rms_norm_eps)
}

/// A fresh Mistral model has as many layers as the settings say, each with their extents.
#[verifier::rlimit(60)]
pub proof fn law_mistral_starts(m: MistralLoraModel, config: MistralConfig, lora: LoraConfig)
    requires
        config.valid(),
        lora.valid(),
        m.is_fresh(config, lora),
    ensures
        counts_layers(m.layers@.len(), config.num_hidden_layers as int),
        forall|i: int|
            0 <= i < m.layers@.len() ==> mistral_layer_starts(
                #[trigger] m.layers@[i],
                config,
                lora,
            ),
        norm_starts(m.norm, config.hidden_size as int, config.rms_norm_eps),
        m.embed_tokens.weight.shape == Shape::D2(config.vocab_size, config.hidden_size),
{
    broadcast use lemma_apply_node;

    if config.head_dim is None {
        lemma_share(config.hidden_size as int, config.num_attention_heads as int);
    }
    law_norm_starts(config.hidden_size, config.rms_norm_eps);
    assert forall|i: int| 0 <= i < m.layers@.len() implies mistral_layer_starts(
        #[trigger] m.layers@[i],
        config,
        lora,
    ) by {
        let layer = m.layers@[i];
    }
}

/// A fresh Qwen3 model has as many layers as the settings say, numbered in their order.
#[verifier::rlimit(60)]
pub proof fn law_qwen3_starts(m: Qwen3LoraModel, config: Qwen3Config, lora: LoraConfig)
    requires
        config.valid(),
        lora.valid(),
        m.is_fresh(config, lora),
    ensures
        counts_layers(m.layers@.len(), config.num_hidden_layers as int),
        forall|i: int|
            0 <= i < m.layers@.len() ==> qwen3_layer_starts(
                #[trigger] m.layers@[i],
                config,
                lora,
                i,
            ),
        norm_starts(m.norm, config.hidden_size as int, config.rms_norm_eps),
        m.embed_tokens.weight.shape == Shape::D2(config.vocab_size, config.hidden_size),
{
    broadcast use lemma_apply_node;

    law_norm_starts(config.hidden_size, config.rms_norm_eps);
    assert forall|i: int| 0 <= i < m.layers@.len() implies qwen3_layer_starts(
        #[trigger] m.layers@[i],
        config,
        lora,
        i,
    ) by {
        let layer = m.layers@[i];
    }
}

/// A fresh Phi model has as many layers as the settings say, each with their extents.
#[verifier::rlimit(60)]
pub proof fn law_phi_starts(m: PhiLoraModel, config: PhiConfig, lora: LoraConfig)
    requires
        config.valid(),
        lora.valid(),
        m.is_fresh(config, lora),
    ensures
        counts_layers(m.layers@.len(), config.num_hidden_layers as int),
        forall|i: int|
            0 <= i < m.layers@.len() ==> phi_layer_starts(#[trigger] m.layers@[i], config, lora),
        norm_starts(m.norm, config.hidden_size as int, config.rms_norm_eps),
        m.embed_tokens.weight.shape == Shape::D2(config.vocab_size, config.hidden_size),
{
    broadcast use lemma_apply_node;

    lemma_share(config.hidden_size as int, config.num_attention_heads as int);
    law_norm_starts(config.hidden_size, config.rms_norm_eps);
    assert forall|i: int| 0 <= i < m.layers@.len() implies phi_layer_starts(
        #[trigger] m.layers@[i],
        config,
        lora,
    ) by {
        let layer = m.layers@[i];
    }
}

/// A fresh quantized Phi model has as many layers as the settings say, each with their extents.
#[verifier::rlimit(60)]
pub proof fn law_phi_qlora_starts(m: PhiQloraModel, config: PhiConfig, lora: QLoraConfig)
    requires
        config.valid(),
        lora.lora.valid(),
        m.is_fresh(config, lora),
    ensures
        counts_layers(m.layers@.len(), config.num_hidden_layers as int),
        forall|i: int|
            0 <= i < m.layers@.len() ==> phi_qlora_layer_starts(
                #[trigger] m.layers@[i],
                config,
                lora,
            ),
        norm_starts(m.norm, config.hidden_size as int, config.rms_norm_eps),
        m.embed_tokens.weight.shape == Shape::D2(config.vocab_size, config.hidden_size),
{
    broadcast use lemma_apply_node;

    lemma_share(config.hidden_size as int, config.num_attention_heads as int);
    law_norm_starts(config.hidden_size, config.rms_norm_eps);
    assert forall|i: int| 0 <= i < m.layers@.len() implies phi_qlora_layer_starts(
        #[trigger] m.layers@[i],
        config,
        lora,
    ) by {
        let layer = m.layers@[i];
    }
}

/// A fresh MLlama model has cross-attention in the listed layers and in no other.
#[verifier::rlimit(60)]
pub proof fn law_mllama_starts(
    m: MllamaLoraModel,
    config: LlamaConfig,
    lora: LoraConfig,
    crossing: Seq<i32>,
)
    requires
        config.valid(),
        lora.valid(),
        config.num_hidden_layers >= 0,
        m.is_fresh(config, crossing, lora),
    ensures
        counts_layers(m.layers@.len(), config.num_hidden_layers as int),
        forall|i: int|
            0 <= i < m.layers@.len() ==> mllama_layer_starts(
                #[trigger] m.layers@[i],
                config,
                lora,
                crossing.contains(i as i32),
            ),
        norm_starts(m.norm, config.hidden_size as int, config.rms_norm_eps),
        m.embed_tokens.weight.shape == Shape::D2(config.vocab_size, config.hidden_size),
{
    broadcast use group_nodes;

    if config.head_dim is None {
        lemma_share(config.hidden_size as int, config.num_attention_heads as int);
    }
    law_norm_starts(config.hidden_size, config.rms_norm_eps);
    assert forall|i: int| 0 <= i < m.layers@.len() implies mllama_layer_starts(
        #[trigger] m.layers@[i],
        config,
        lora,
        crossing.contains(i as i32),
    ) by {
        if lists_number(crossing, i) {
            let j = choose|j: int| 0 <= j < crossing.len() && #[trigger] crossing[j] == i;
            assert(crossing[j] == i as i32);
        }
    }
}

} // verus!
