//! What layers and models compute, read off the nodes that they build.

use crate::array::{Array, Function, Kernel, Node, Source};
use crate::attention::mask_or_causal;
use crate::kv_cache::{KVCacheState, MambaCacheEntry};
use crate::mamba::NemotronHMixer;
use crate::mistral_lora::{
    MistralLoraDecoderLayer, MistralLoraForCausalLM, MistralLoraMLP, MistralLoraModel,
    mistral_cached_stack, mistral_stack,
};
use crate::mllama_lora::{
    MllamaLoraDecoderLayer, MllamaLoraForCausalLM, MllamaLoraMLP, MllamaLoraModel,
    mllama_cached_stack, mllama_positioned_stack, mllama_stack,
};
use crate::moe::{MoELayer, down_biases, down_weights, up_biases, up_weights};
use crate::moe_reading::{lemma_stack_item, stack_item};
use crate::nemotron_h_lora::{
    NemotronHLoraBlock, NemotronHLoraForCausalLM, NemotronHLoraMLP, NemotronHLoraMixer,
    NemotronHLoraMoE, NemotronHLoraModel, NemotronHLoraSharedExpert, nemotron_stack, nemotron_steps,
};
use crate::nemotron_h_qlora::{
    NemotronHQloraBlock, NemotronHQloraForCausalLM, NemotronHQloraMLP, NemotronHQloraMixer,
    NemotronHQloraMoE, NemotronHQloraModel, NemotronHQloraSharedExpert, nemotron_qlora_stack,
    nemotron_qlora_steps,
};
use crate::nn::{Embedding, Linear, RmsNorm, logits};
use crate::phi_lora::{
    PhiLoraDecoderLayer, PhiLoraForCausalLM, PhiLoraMLP, PhiLoraModel, phi_cached_stack, phi_stack,
};
use crate::phi_qlora::{
    PhiQloraDecoderLayer, PhiQloraForCausalLM, PhiQloraMLP, PhiQloraModel, phi_qlora_cached_stack,
    phi_qlora_stack,
};
use crate::qwen3_lora::{
    Qwen3LoraDecoderLayer, Qwen3LoraForCausalLM, Qwen3LoraMLP, Qwen3LoraModel, qwen3_cached_stack,
    qwen3_stack,
};
use crate::qwen3_moe_lora::{
    Qwen3MoELoraDecoderLayer, Qwen3MoELoraDenseMLP, Qwen3MoELoraFeedForward,
    Qwen3MoELoraForCausalLM, Qwen3MoELoraModel, moe_lora_cached_stack, moe_lora_stack,
};
use crate::qwen3_moe_qlora::{
    Qwen3MoEQLoraDecoderLayer, Qwen3MoEQLoraDenseMLP, Qwen3MoEQLoraFeedForward,
    Qwen3MoEQLoraForCausalLM, Qwen3MoEQLoraModel, moe_qlora_cached_stack, moe_qlora_stack,
};
use crate::qwen3_next_lora::{
    Qwen3NextLoraDecoderLayer, Qwen3NextLoraFeedForward, Qwen3NextLoraForCausalLM, Qwen3NextLoraMLP,
    Qwen3NextLoraModel, Qwen3NextLoraSharedExpert, qwen3_next_stack, qwen3_next_steps,
};
use crate::reading::{
    Projection, argument, argument_count, first_of, given_at, given_count, group_nodes, is_function,
    is_kernel, is_linear, is_normed, is_product, is_sum, law_linear_reads, law_lora_reads,
    law_qlora_reads, second_of,
};
use crate::shape::Shape;
use vstd::prelude::*;

verus! {

/// `down(silu(gate(x)) * up(x))`.
pub open spec fn is_gated_mlp<P: Projection>(y: Array, x: Array, gate: P, up: P, down: P) -> bool {
    let inner = down.fed(y);
    &&& down.makes(inner, y)
    &&& is_product(inner, first_of(inner), second_of(inner))
    &&& is_function(first_of(inner), Function::Silu, first_of(first_of(inner)))
    &&& gate.makes(x, first_of(first_of(inner)))
    &&& up.makes(x, second_of(inner))
}

/// `down(relu(up(x)) ** 2)`.
pub open spec fn is_squared_mlp<P: Projection>(y: Array, x: Array, up: P, down: P) -> bool {
    let inner = down.fed(y);
    &&& down.makes(inner, y)
    &&& is_function(inner, Function::Square, first_of(inner))
    &&& is_function(first_of(inner), Function::Relu, first_of(first_of(inner)))
    &&& up.makes(x, first_of(first_of(inner)))
}

/// The sum of the residual stream behind attention and of what comes on top of it.
pub open spec fn is_residual(y: Array, x: Array, attended: Array) -> bool {
    &&& is_sum(first_of(y), x, attended)
    &&& is_sum(y, first_of(y), second_of(y))
}

/// What a head made logits of.
pub open spec fn head_fed(y: Array, head: Option<Linear>) -> Array {
    match head {
        Some(h) => h.fed(y),
        None => first_of(y),
    }
}

/// Logits of hidden states: by the head, or without one by the table of the embedding.
pub open spec fn is_logits(y: Array, hidden: Array, head: Option<Linear>, table: Array) -> bool {
    match head {
        Some(h) => h.makes(hidden, y),
        None => is_linear(y, hidden, table),
    }
}

/// The rows of the table that the indices name.
pub open spec fn is_embedded(y: Array, ids: Array, table: Array) -> bool {
    *y.node == (Node::Embed { ids, table })
}

/// The given mask; without one, that under which no step sees a later one.
pub open spec fn is_mask(used: Option<Array>, mask: Option<Array>, length: i32) -> bool {
    match mask {
        Some(m) => used == Some(m),
        None => {
            &&& used is Some
            &&& *(used->0).node == Node::Source(Source::CausalMask)
            &&& (used->0).shape == Shape::D2(length, length)
        },
    }
}

/// A normalization divides by the root mean square and scales by its weight.
pub broadcast proof fn law_norm_reads(n: RmsNorm, x: Array)
    ensures
        is_normed(#[trigger] n.output(x), x, n.weight, n.eps),
{
    broadcast use group_nodes;

}

/// An embedding takes rows of its table; as a head it multiplies by the transposed table.
pub proof fn law_embedding_reads(e: Embedding, ids: Array, x: Array)
    ensures
        is_embedded(e.output(ids), ids, e.weight),
        is_linear(e.linear_output(x), x, e.weight),
{
    broadcast use group_nodes;

}

/// Logits come from the head where there is one, else from the table of the embedding.
pub proof fn law_logits_read(head: Option<Linear>, table: Embedding, hidden: Array)
    ensures
        is_logits(logits(head, table, hidden), hidden, head, table.weight),
        head_fed(logits(head, table, hidden), head) == hidden,
{
    broadcast use {group_nodes, law_linear_reads};

}

/// The MLP of a Mistral layer: `down(silu(gate(x)) * up(x))`.
pub proof fn law_mistral_mlp_reads(m: MistralLoraMLP, x: Array)
    ensures
        is_gated_mlp(m.output(x), x, m.gate_proj, m.up_proj, m.down_proj),
{
    broadcast use {group_nodes, law_lora_reads};

}

/// The MLP of a Qwen3 layer: `down(silu(gate(x)) * up(x))`.
pub proof fn law_qwen3_mlp_reads(m: Qwen3LoraMLP, x: Array)
    ensures
        is_gated_mlp(m.output(x), x, m.gate_proj, m.up_proj, m.down_proj),
{
    broadcast use {group_nodes, law_lora_reads};

}

/// The MLP of an MLlama layer: `down(silu(gate(x)) * up(x))`.
pub proof fn law_mllama_mlp_reads(m: MllamaLoraMLP, x: Array)
    ensures
        is_gated_mlp(m.output(x), x, m.gate_proj, m.up_proj, m.down_proj),
{
    broadcast use {group_nodes, law_lora_reads};

}

/// The MLP of a Qwen3-Next layer: `down(silu(gate(x)) * up(x))`.
pub proof fn law_qwen3_next_mlp_reads(m: Qwen3NextLoraMLP, x: Array)
    ensures
        is_gated_mlp(m.output(x), x, m.gate_proj, m.up_proj, m.down_proj),
{
    broadcast use {group_nodes, law_lora_reads};

}

/// The MLP of the shared expert of a Qwen3-Next layer: `down(silu(gate(x)) * up(x))`.
pub proof fn law_qwen3_next_shared_mlp_reads(m: Qwen3NextLoraSharedExpert, x: Array)
    ensures
        is_gated_mlp(m.output(x), x, m.gate_proj, m.up_proj, m.down_proj),
{
    broadcast use {group_nodes, law_lora_reads};

}

/// The MLP of a Qwen3-MoE layer: `down(silu(gate(x)) * up(x))`.
pub proof fn law_moe_lora_mlp_reads(m: Qwen3MoELoraDenseMLP, x: Array)
    ensures
        is_gated_mlp(m.output(x), x, m.gate_proj, m.up_proj, m.down_proj),
{
    broadcast use {group_nodes, law_lora_reads};

}

/// The MLP of a quantized Qwen3-MoE layer: `down(silu(gate(x)) * up(x))`.
pub proof fn law_moe_qlora_mlp_reads(m: Qwen3MoEQLoraDenseMLP, x: Array)
    ensures
        is_gated_mlp(m.output(x), x, m.gate_proj, m.up_proj, m.down_proj),
{
    broadcast use {group_nodes, law_qlora_reads};

}

/// The MLP of a Nemotron-H block: `down(relu(up(x)) ** 2)`.
pub proof fn law_nemotron_mlp_reads(m: NemotronHLoraMLP, x: Array)
    ensures
        is_squared_mlp(m.output(x), x, m.up_proj, m.down_proj),
{
    broadcast use {group_nodes, law_lora_reads};

}

/// The MLP of the shared expert of a Nemotron-H block: `down(relu(up(x)) ** 2)`.
pub proof fn law_nemotron_shared_mlp_reads(m: NemotronHLoraSharedExpert, x: Array)
    ensures
        is_squared_mlp(m.output(x), x, m.up_proj, m.down_proj),
{
    broadcast use {group_nodes, law_lora_reads};

}

/// The MLP of a quantized Nemotron-H block: `down(relu(up(x)) ** 2)`.
pub proof fn law_nemotron_qlora_mlp_reads(m: NemotronHQloraMLP, x: Array)
    ensures
        is_squared_mlp(m.output(x), x, m.up_proj, m.down_proj),
{
    broadcast use {group_nodes, law_qlora_reads};

}

/// The MLP of the shared expert of a quantized Nemotron-H block: `down(relu(up(x)) ** 2)`.
pub proof fn law_nemotron_qlora_shared_mlp_reads(m: NemotronHQloraSharedExpert, x: Array)
    ensures
        is_squared_mlp(m.output(x), x, m.up_proj, m.down_proj),
{
    broadcast use {group_nodes, law_qlora_reads};

}

/// The MLP of a Phi layer: one projection whose first features gate and whose others are
/// gated, or which goes through GELU.
pub proof fn law_phi_mlp_reads(m: PhiLoraMLP, x: Array)
    requires
        m.gate_up_proj.output(x).shape is D3,
        m.intermediate_size >= 0,
    ensures
        ({
            let y = m.output(x);
            let inner = m.down_proj.fed(y);
            let gate = first_of(first_of(inner));
            let both = first_of(gate);
            let n = m.intermediate_size;
            &&& m.down_proj.makes(inner, y)
            &&& if m.activation is SwiGLU {
                &&& is_product(inner, first_of(inner), second_of(inner))
                &&& is_function(first_of(inner), Function::Silu, gate)
                &&& n <= both.shape.inner() ==> {
                    &&& *gate.node == (Node::Slice { x: both, depth: 0, from: 0, to: n })
                    &&& *second_of(inner).node == (Node::Slice {
                        x: both,
                        depth: 0,
                        from: n,
                        to: both.shape.inner(),
                    })
                }
                &&& m.gate_up_proj.makes(x, both)
            } else {
                &&& is_function(inner, Function::Gelu, first_of(inner))
                &&& m.gate_up_proj.makes(x, first_of(inner))
            }
        }),
{
    broadcast use {group_nodes, law_lora_reads};

}

/// The MLP of a quantized Phi layer: one projection whose first features gate and whose others are
/// gated, or which goes through GELU.
pub proof fn law_phi_qlora_mlp_reads(m: PhiQloraMLP, x: Array)
    requires
        m.gate_up_proj.output(x).shape is D3,
        m.intermediate_size >= 0,
    ensures
        ({
            let y = m.output(x);
            let inner = m.down_proj.fed(y);
            let gate = first_of(first_of(inner));
            let both = first_of(gate);
            let n = m.intermediate_size;
            &&& m.down_proj.makes(inner, y)
            &&& if m.activation is SwiGLU {
                &&& is_product(inner, first_of(inner), second_of(inner))
                &&& is_function(first_of(inner), Function::Silu, gate)
                &&& n <= both.shape.inner() ==> {
                    &&& *gate.node == (Node::Slice { x: both, depth: 0, from: 0, to: n })
                    &&& *second_of(inner).node == (Node::Slice {
                        x: both,
                        depth: 0,
                        from: n,
                        to: both.shape.inner(),
                    })
                }
                &&& m.gate_up_proj.makes(x, both)
            } else {
                &&& is_function(inner, Function::Gelu, first_of(inner))
                &&& m.gate_up_proj.makes(x, first_of(inner))
            }
        }),
{
    broadcast use {group_nodes, law_qlora_reads};

}

/// A Mistral layer, read off its nodes: its input and the attention of its normalized input, and on
/// top the MLP of its normalized self; by whichever attention.
pub proof fn law_mistral_layer_reads(
    layer: MistralLoraDecoderLayer,
    x: Array,
    mask: Option<Array>,
    cache: KVCacheState,
    i: int,
)
    ensures
        ({
            let n = layer.input_layernorm.output(x);
            let post = layer.post_attention_layernorm;
            let y = layer.output(x, mask);
            let cached = layer.cached_output(x, mask, cache, i);
            let end = layer.self_attn.cached_output(n, mask, cache, i);
            &&& is_normed(n, x, layer.input_layernorm.weight, layer.input_layernorm.eps)
            &&& is_residual(y, x, layer.self_attn.output(n, mask))
            &&& second_of(y) == layer.mlp.output(post.output(first_of(y)))
            &&& is_normed(post.output(first_of(y)), first_of(y), post.weight, post.eps)
            &&& is_residual(cached.0, x, end.0)
            &&& second_of(cached.0) == layer.mlp.output(post.output(first_of(cached.0)))
            &&& cached.1 == end.1
            &&& is_residual(
                layer.fused_output(x, mask),
                x,
                layer.self_attn.fused_output(n, mask),
            )
            &&& second_of(layer.fused_output(x, mask)) == layer.mlp.output(
                post.output(first_of(layer.fused_output(x, mask))),
            )
        }),
{
    broadcast use group_nodes;

}

/// A Qwen3 layer, read off its nodes: its input and the attention of its normalized input, and on
/// top the MLP of its normalized self; by whichever attention.
pub proof fn law_qwen3_layer_reads(
    layer: Qwen3LoraDecoderLayer,
    x: Array,
    mask: Option<Array>,
    positions: Option<Array>,
    training: bool,
    cache: KVCacheState,
    i: int,
)
    ensures
        ({
            let n = layer.input_layernorm.output(x);
            let post = layer.post_attention_layernorm;
            let y = layer.output(x, mask, positions, training);
            let cached = layer.cached_output(x, mask, cache, i);
            let end = layer.self_attn.cached_output(n, mask, cache, i);
            &&& is_normed(n, x, layer.input_layernorm.weight, layer.input_layernorm.eps)
            &&& is_residual(y, x, layer.self_attn.output(n, mask, positions, training))
            &&& second_of(y) == layer.mlp.output(post.output(first_of(y)))
            &&& is_normed(post.output(first_of(y)), first_of(y), post.weight, post.eps)
            &&& is_residual(cached.0, x, end.0)
            &&& second_of(cached.0) == layer.mlp.output(post.output(first_of(cached.0)))
            &&& cached.1 == end.1
            &&& is_residual(
                layer.fused_output(x, mask),
                x,
                layer.self_attn.fused_output(n, mask),
            )
            &&& second_of(layer.fused_output(x, mask)) == layer.mlp.output(
                post.output(first_of(layer.fused_output(x, mask))),
            )
        }),
{
    broadcast use group_nodes;

}

/// A Phi layer, read off its nodes: its input and the attention of its normalized input, and on top
/// the MLP of its normalized self; by whichever attention.
pub proof fn law_phi_layer_reads(
    layer: PhiLoraDecoderLayer,
    x: Array,
    mask: Option<Array>,
    cache: KVCacheState,
    i: int,
)
    ensures
        ({
            let n = layer.input_layernorm.output(x);
            let post = layer.post_attention_layernorm;
            let y = layer.output(x, mask);
            let cached = layer.cached_output(x, mask, cache, i);
            let end = layer.self_attn.cached_output(n, mask, cache, i);
            &&& is_normed(n, x, layer.input_layernorm.weight, layer.input_layernorm.eps)
            &&& is_residual(y, x, layer.self_attn.output(n, mask))
            &&& second_of(y) == layer.mlp.output(post.output(first_of(y)))
            &&& is_normed(post.output(first_of(y)), first_of(y), post.weight, post.eps)
            &&& is_residual(cached.0, x, end.0)
            &&& second_of(cached.0) == layer.mlp.output(post.output(first_of(cached.0)))
            &&& cached.1 == end.1
            &&& is_residual(
                layer.fused_output(x, mask),
                x,
                layer.self_attn.fused_output(n, mask),
            )
            &&& second_of(layer.fused_output(x, mask)) == layer.mlp.output(
                post.output(first_of(layer.fused_output(x, mask))),
            )
        }),
{
    broadcast use group_nodes;

}

/// A quantized Phi layer, read off its nodes: its input and the attention of its normalized input,
/// and on top the MLP of its normalized self; by whichever attention.
pub proof fn law_phi_qlora_layer_reads(
    layer: PhiQloraDecoderLayer,
    x: Array,
    mask: Option<Array>,
    cache: KVCacheState,
    i: int,
)
    ensures
        ({
            let n = layer.input_layernorm.output(x);
            let post = layer.post_attention_layernorm;
            let y = layer.output(x, mask);
            let cached = layer.cached_output(x, mask, cache, i);
            let end = layer.self_attn.cached_output(n, mask, cache, i);
            &&& is_normed(n, x, layer.input_layernorm.weight, layer.input_layernorm.eps)
            &&& is_residual(y, x, layer.self_attn.output(n, mask))
            &&& second_of(y) == layer.mlp.output(post.output(first_of(y)))
            &&& is_normed(post.output(first_of(y)), first_of(y), post.weight, post.eps)
            &&& is_residual(cached.0, x, end.0)
            &&& second_of(cached.0) == layer.mlp.output(post.output(first_of(cached.0)))
            &&& cached.1 == end.1
            &&& is_residual(
                layer.fused_output(x, mask),
                x,
                layer.self_attn.fused_output(n, mask),
            )
            &&& second_of(layer.fused_output(x, mask)) == layer.mlp.output(
                post.output(first_of(layer.fused_output(x, mask))),
            )
        }),
{
    broadcast use group_nodes;

}

/// A Qwen3-MoE layer, read off its nodes: its input and the attention of its normalized input, and
/// on top the MLP of its normalized self; by whichever attention.
pub proof fn law_moe_lora_layer_reads(
    layer: Qwen3MoELoraDecoderLayer,
    x: Array,
    mask: Option<Array>,
    cache: KVCacheState,
    i: int,
)
    ensures
        ({
            let n = layer.input_layernorm.output(x);
            let post = layer.post_attention_layernorm;
            let y = layer.output(x, mask);
            let cached = layer.cached_output(x, mask, cache, i);
            let end = layer.self_attn.cached_output(n, mask, cache, i);
            &&& is_normed(n, x, layer.input_layernorm.weight, layer.input_layernorm.eps)
            &&& is_residual(y, x, layer.self_attn.output(n, mask))
            &&& second_of(y) == layer.ffn.output(post.output(first_of(y)))
            &&& is_normed(post.output(first_of(y)), first_of(y), post.weight, post.eps)
            &&& is_residual(cached.0, x, end.0)
            &&& second_of(cached.0) == layer.ffn.output(post.output(first_of(cached.0)))
            &&& cached.1 == end.1
        }),
{
    broadcast use group_nodes;

}

/// A quantized Qwen3-MoE layer, read off its nodes: its input and the attention of its normalized
/// input, and on top the MLP of its normalized self; by whichever attention.
pub proof fn law_moe_qlora_layer_reads(
    layer: Qwen3MoEQLoraDecoderLayer,
    x: Array,
    mask: Option<Array>,
    cache: KVCacheState,
    i: int,
)
    ensures
        ({
            let n = layer.input_layernorm.output(x);
            let post = layer.post_attention_layernorm;
            let y = layer.output(x, mask);
            let cached = layer.cached_output(x, mask, cache, i);
            let end = layer.self_attn.cached_output(n, mask, cache, i);
            &&& is_normed(n, x, layer.input_layernorm.weight, layer.input_layernorm.eps)
            &&& is_residual(y, x, layer.self_attn.output(n, mask))
            &&& second_of(y) == layer.ffn.output(post.output(first_of(y)))
            &&& is_normed(post.output(first_of(y)), first_of(y), post.weight, post.eps)
            &&& is_residual(cached.0, x, end.0)
            &&& second_of(cached.0) == layer.ffn.output(post.output(first_of(cached.0)))
            &&& cached.1 == end.1
        }),
{
    broadcast use group_nodes;

}

/// A layer has one MLP or experts, and gives what these give.
pub proof fn law_moe_lora_feed_forward(f: Qwen3MoELoraFeedForward, x: Array)
    ensures
        f matches Qwen3MoELoraFeedForward::Dense(m) ==> f.output(x) == m.output(x),
        f matches Qwen3MoELoraFeedForward::MoE(m) ==> f.output(x) == m.output(x),
{
}

/// A layer has one MLP or experts, and gives what these give.
pub proof fn law_moe_qlora_feed_forward(f: Qwen3MoEQLoraFeedForward, x: Array)
    ensures
        f matches Qwen3MoEQLoraFeedForward::Dense(m) ==> f.output(x) == m.output(x),
        f matches Qwen3MoEQLoraFeedForward::MoE(m) ==> f.output(x) == m.output(x),
{
}

/// A layer has one MLP or experts, and gives what these give.
pub proof fn law_qwen3_next_feed_forward(f: Qwen3NextLoraFeedForward, x: Array)
    ensures
        f matches Qwen3NextLoraFeedForward::Dense(m) ==> f.output(x) == m.output(x),
        f matches Qwen3NextLoraFeedForward::MoE(m) ==> f.output(x) == m.output(x),
{
}

/// A Qwen3-Next layer, read off its nodes: its input and its gated delta rule or its attention,
/// of its normalized input, and on top the MLP of its normalized self. A gated delta rule leaves
/// the cache of keys alone, attention leaves the kept state alone.
pub proof fn law_qwen3_next_layer_reads(
    layer: Qwen3NextLoraDecoderLayer,
    x: Array,
    mask: Option<Array>,
    kv: Option<(KVCacheState, int)>,
    state: Option<MambaCacheEntry>,
    training: bool,
)
    ensures
        ({
            let n = layer.input_layernorm.output(x);
            let post = layer.post_attention_layernorm;
            let y = layer.output(x, mask, state, training);
            let end = layer.step(x, mask, kv, state);
            &&& is_normed(n, x, layer.input_layernorm.weight, layer.input_layernorm.eps)
            &&& is_residual(
                y,
                x,
                if layer.is_linear {
                    layer.linear_attn->0.output(n, mask, state)
                } else {
                    layer.self_attn->0.output(n, mask, training)
                },
            )
            &&& second_of(y) == layer.mlp.output(post.output(first_of(y)))
            &&& second_of(end.0) == layer.mlp.output(post.output(first_of(end.0)))
            &&& layer.is_linear ==> {
                &&& is_residual(end.0, x, layer.linear_attn->0.output(n, mask, state))
                &&& kv matches Some(c) ==> end.1 == Some(c.0)
                &&& kv is None ==> end.1 is None
                &&& state matches Some(e) ==> end.2 == Some(
                    layer.linear_attn->0.after(n, mask, e),
                )
                &&& state is None ==> end.2 is None
            }
            &&& !layer.is_linear ==> {
                &&& end.2 == state
                &&& kv matches Some(c) ==> {
                    let a = layer.self_attn->0.cached_output(n, mask, c.0, c.1);
                    is_residual(end.0, x, a.0) && end.1 == Some(a.1)
                }
                &&& kv is None ==> {
                    &&& end.1 is None
                    &&& is_residual(end.0, x, layer.self_attn->0.fused_output(n, mask))
                }
            }
        }),
{
    broadcast use group_nodes;

}

/// A Nemotron-H block, read off its nodes: its input and the mixer of its normalized input. A
/// state-space mixer takes and keeps its state, attention takes and extends the cache of keys; the
/// other mixers leave both alone.
pub proof fn law_nemotron_block_reads(
    block: NemotronHLoraBlock,
    x: Array,
    mask: Option<Array>,
    kv: Option<(KVCacheState, int)>,
    state: Option<MambaCacheEntry>,
)
    ensures
        ({
            let n = block.norm.output(x);
            let y = block.output(x, mask);
            let end = block.step(x, mask, kv, state);
            let same = match kv {
                Some(c) => Some(c.0),
                None => None,
            };
            &&& is_normed(n, x, block.norm.weight, block.norm.eps)
            &&& is_sum(y, x, second_of(y))
            &&& is_sum(end.0, x, second_of(end.0))
            &&& match block.mixer {
                NemotronHLoraMixer::Mamba(m) => {
                    &&& second_of(y) == m.output(
                        n,
                        mask,
                        MambaCacheEntry { conv_state: None, ssm_state: None },
                    )
                    &&& end.1 == same
                    &&& state matches Some(e) ==> second_of(end.0) == m.output(n, mask, e) && end.2
                        == Some(m.after(n, mask, e))
                    &&& state is None ==> second_of(end.0) == second_of(y) && end.2 is None
                },
                NemotronHLoraMixer::Attention(a) => {
                    &&& second_of(y) == a.output(n, mask)
                    &&& end.2 == state
                    &&& kv matches Some(c) ==> {
                        let k = a.cached_output(n, mask, c.0, c.1);
                        second_of(end.0) == k.0 && end.1 == Some(k.1)
                    }
                    &&& kv is None ==> second_of(end.0) == second_of(y) && end.1 is None
                },
                NemotronHLoraMixer::Mlp(m) => {
                    &&& second_of(y) == m.output(n)
                    &&& second_of(end.0) == m.output(n) && end.1 == same && end.2 == state
                },
                NemotronHLoraMixer::MoE(m) => {
                    &&& second_of(y) == m.output(n)
                    &&& second_of(end.0) == m.output(n) && end.1 == same && end.2 == state
                },
            }
        }),
{
    broadcast use group_nodes;

}

/// The experts of a Nemotron-H block: what the routed experts give, and what the shared
/// expert gives of the rows, where there is one.
pub proof fn law_nemotron_experts_read(m: NemotronHLoraMoE, x: Array)
    requires
        m.output(x).fits,
    ensures
        ({
            let y = m.output(x);
            let routed = if m.shared_expert is Some {
                first_of(y)
            } else {
                y
            };
            &&& m.shared_expert matches Some(e) ==> {
                let rows = e.up_proj.fed(
                    first_of(first_of(e.down_proj.fed(first_of(second_of(y)))))
                );
                &&& is_sum(y, routed, second_of(y))
                &&& *second_of(y).node == Node::Reshape(first_of(second_of(y)))
                &&& first_of(second_of(y)) == e.output(rows)
                &&& *rows.node == Node::Reshape(x)
            }
            &&& m.stacked_moe_up is Some && m.stacked_moe_down is Some ==> {
                &&& is_kernel(routed, Kernel::RouteStacked(m.moe_layer.config))
                &&& given_at(routed, 3) == m.stacked_moe_up
                &&& given_at(routed, 4) == m.stacked_moe_down
            }
            &&& m.stacked_moe_up is None || m.stacked_moe_down is None ==> is_kernel(
                routed,
                Kernel::RouteEach(m.moe_layer.config),
            )
            &&& given_at(routed, 0) == Some(x)
            &&& given_at(routed, 1) == Some(m.moe_layer.router.gate.weight)
            &&& given_at(routed, 2) == Some(m.moe_layer.router.e_score_correction_bias)
        }),
{
    broadcast use {group_nodes, law_lora_reads};

    reveal_with_fuel(argument, 6);
}

/// A quantized Nemotron-H block, read off its nodes: its input and the mixer of its normalized
/// input. A state-space mixer takes and keeps its state, attention takes and extends the cache of
/// keys; the other mixers leave both alone.
pub proof fn law_nemotron_qlora_block_reads(
    block: NemotronHQloraBlock,
    x: Array,
    mask: Option<Array>,
    kv: Option<(KVCacheState, int)>,
    state: Option<MambaCacheEntry>,
)
    ensures
        ({
            let n = block.norm.output(x);
            let y = block.output(x, mask);
            let end = block.step(x, mask, kv, state);
            let same = match kv {
                Some(c) => Some(c.0),
                None => None,
            };
            &&& is_normed(n, x, block.norm.weight, block.norm.eps)
            &&& is_sum(y, x, second_of(y))
            &&& is_sum(end.0, x, second_of(end.0))
            &&& match block.mixer {
                NemotronHQloraMixer::Mamba(m) => {
                    &&& second_of(y) == m.output(
                        n,
                        mask,
                        MambaCacheEntry { conv_state: None, ssm_state: None },
                    )
                    &&& end.1 == same
                    &&& state matches Some(e) ==> second_of(end.0) == m.output(n, mask, e) && end.2
                        == Some(m.after(n, mask, e))
                    &&& state is None ==> second_of(end.0) == second_of(y) && end.2 is None
                },
                NemotronHQloraMixer::Attention(a) => {
                    &&& second_of(y) == a.output(n, mask)
                    &&& end.2 == state
                    &&& kv matches Some(c) ==> {
                        let k = a.cached_output(n, mask, c.0, c.1);
                        second_of(end.0) == k.0 && end.1 == Some(k.1)
                    }
                    &&& kv is None ==> second_of(end.0) == second_of(y) && end.1 is None
                },
                NemotronHQloraMixer::Mlp(m) => {
                    &&& second_of(y) == m.output(n)
                    &&& second_of(end.0) == m.output(n) && end.1 == same && end.2 == state
                },
                NemotronHQloraMixer::MoE(m) => {
                    &&& second_of(y) == m.output(n)
                    &&& second_of(end.0) == m.output(n) && end.1 == same && end.2 == state
                },
            }
        }),
{
    broadcast use group_nodes;

}

/// The experts of a quantized Nemotron-H block: what the routed experts give, and what the shared
/// expert gives of the rows, where there is one.
pub proof fn law_nemotron_qlora_experts_read(m: NemotronHQloraMoE, x: Array)
    requires
        m.output(x).fits,
    ensures
        ({
            let y = m.output(x);
            let routed = if m.shared_expert is Some {
                first_of(y)
            } else {
                y
            };
            &&& m.shared_expert matches Some(e) ==> {
                let rows = e.up_proj.fed(
                    first_of(first_of(e.down_proj.fed(first_of(second_of(y)))))
                );
                &&& is_sum(y, routed, second_of(y))
                &&& *second_of(y).node == Node::Reshape(first_of(second_of(y)))
                &&& first_of(second_of(y)) == e.output(rows)
                &&& *rows.node == Node::Reshape(x)
            }
            &&& m.stacked_moe_up is Some && m.stacked_moe_down is Some ==> {
                &&& is_kernel(routed, Kernel::RouteStacked(m.moe_layer.config))
                &&& given_at(routed, 3) == m.stacked_moe_up
                &&& given_at(routed, 4) == m.stacked_moe_down
            }
            &&& m.stacked_moe_up is None || m.stacked_moe_down is None ==> is_kernel(
                routed,
                Kernel::RouteEach(m.moe_layer.config),
            )
            &&& given_at(routed, 0) == Some(x)
            &&& given_at(routed, 1) == Some(m.moe_layer.router.gate.weight)
            &&& given_at(routed, 2) == Some(m.moe_layer.router.e_score_correction_bias)
        }),
{
    broadcast use {group_nodes, law_qlora_reads};

    reveal_with_fuel(argument, 6);
}

/// Routed experts, one by one: the stacks that the kernel is given hold the weights and the
/// biases of the experts in their order.
pub proof fn law_experts_read(m: MoELayer, x: Array, e: int)
    requires
        0 <= e < m.experts@.len(),
    ensures
        ({
            let y = m.output(x);
            let n = m.experts@.len();
            &&& is_kernel(y, Kernel::RouteEach(m.config))
            &&& given_count(y) == 7
            &&& given_at(y, 0) == Some(x)
            &&& given_at(y, 1) == Some(m.router.gate.weight)
            &&& given_at(y, 2) == Some(m.router.e_score_correction_bias)
            &&& given_at(y, 3) is Some && stack_item(given_at(y, 3)->0, n, e as nat)
                == m.experts@[e].up_proj.weight
            &&& given_at(y, 4) is Some && stack_item(given_at(y, 4)->0, n, e as nat)
                == m.experts@[e].down_proj.weight
            &&& given_at(y, 5) is Some
                && (m.experts@[e].up_proj.bias matches Some(b) ==> stack_item(
                given_at(y, 5)->0,
                n,
                e as nat,
            ) == b)
            &&& given_at(y, 6) is Some && (m.experts@[e].down_proj.bias matches Some(b)
                ==> stack_item(given_at(y, 6)->0, n, e as nat) == b)
            &&& m.experts@[e].up_proj.bias is None ==> *stack_item(
                given_at(y, 5)->0,
                n,
                e as nat,
            ).node == Node::Source(Source::Zeros)
            &&& m.experts@[e].down_proj.bias is None ==> *stack_item(
                given_at(y, 6)->0,
                n,
                e as nat,
            ).node == Node::Source(Source::Zeros)
        }),
{
    broadcast use group_nodes;

    reveal_with_fuel(argument, 8);
    reveal_with_fuel(argument_count, 8);
    lemma_stack_item(up_weights(m.experts@), Shape::D3(0, m.inner_size, m.hidden_size), e);
    lemma_stack_item(down_weights(m.experts@), Shape::D3(0, m.hidden_size, m.inner_size), e);
    lemma_stack_item(up_biases(m.experts@, m.inner_size), Shape::D2(0, m.inner_size), e);
    lemma_stack_item(down_biases(m.experts@, m.hidden_size), Shape::D2(0, m.hidden_size), e);
}

/// Stacks of the experts hold their weights in their order.
pub proof fn law_expert_stacks_read(m: MoELayer, e: int)
    requires
        0 <= e < m.experts@.len(),
    ensures
        stack_item(m.up_stack(), m.experts@.len(), e as nat) == m.experts@[e].up_proj.weight,
        stack_item(m.down_stack(), m.experts@.len(), e as nat) == m.experts@[e].down_proj.weight,
{
    lemma_stack_item(up_weights(m.experts@), Shape::D3(0, m.inner_size, m.hidden_size), e);
    lemma_stack_item(down_weights(m.experts@), Shape::D3(0, m.hidden_size, m.inner_size), e);
}

/// A state-space mixer is one kernel, given the input, the mask, the kept states and its weights,
/// each at its place; the states behind it come from the same operands.
pub proof fn law_mamba_reads(
    m: NemotronHMixer,
    x: Array,
    mask: Option<Array>,
    state: MambaCacheEntry,
)
    ensures
        ({
            let y = m.output(x, mask, state);
            let after = m.after(x, mask, state);
            &&& is_kernel(y, Kernel::Mamba(m.config))
            &&& given_count(y) == 14
            &&& given_at(y, 0) == Some(x)
            &&& given_at(y, 1) == mask
            &&& given_at(y, 2) == state.conv_state
            &&& given_at(y, 3) == state.ssm_state
            &&& m.in_proj matches Some(l) ==> given_at(y, 4) == Some(l.weight) && given_at(y, 5)
                == l.bias
            &&& m.conv1d matches Some(c) ==> given_at(y, 6) == Some(c.weight) && given_at(y, 7)
                == c.bias
            &&& m.out_proj matches Some(l) ==> given_at(y, 8) == Some(l.weight) && given_at(y, 9)
                == l.bias
            &&& given_at(y, 10) == m.a_log
            &&& given_at(y, 11) == m.d
            &&& given_at(y, 12) == m.dt_bias
            &&& m.gated_norm matches Some(n) ==> given_at(y, 13) == Some(n.weight)
            &&& !y.fits ==> after == state
            &&& y.fits ==> {
                &&& after.conv_state is Some && after.ssm_state is Some
                &&& is_kernel(after.conv_state->0, Kernel::MambaConvState(m.config))
                &&& is_kernel(after.ssm_state->0, Kernel::MambaSsmState(m.config))
                &&& forall|n: nat| #[trigger] given_at(after.conv_state->0, n) == given_at(y, n)
                &&& forall|n: nat| #[trigger] given_at(after.ssm_state->0, n) == given_at(y, n)
            }
        }),
{
    broadcast use group_nodes;

    reveal_with_fuel(argument, 15);
    reveal_with_fuel(argument_count, 15);
}

/// A stack of Mistral layers applies them in order, each to what the one before gave.
pub proof fn law_mistral_stack(
    layers: Seq<MistralLoraDecoderLayer>,
    n: nat,
    x: Array,
    mask: Option<Array>,
)
    ensures
        mistral_stack(layers, 0, x, mask) == x,
        mistral_stack(layers, n + 1, x, mask) == layers[n as int].output(
            mistral_stack(layers, n, x, mask),
            mask,
        ),
{
}

/// A Mistral model, read off its nodes: the logits of the normalized end of the stack that starts
/// from the embedded indices.
pub proof fn law_mistral_model_reads(
    m: MistralLoraForCausalLM,
    ids: Array,
    mask: Option<Array>,
)
    ensures
        ({
            let y = m.output(ids, mask);
            let head = m.lm_head;
            let hidden = head_fed(y, head);
            let e = m.model.embed_tokens.output(ids);
            &&& is_logits(y, hidden, head, m.model.embed_tokens.weight)
            &&& is_embedded(e, ids, m.model.embed_tokens.weight)
            &&& is_normed(
                    hidden,
                    mistral_stack(m.model.layers@, m.model.layers@.len(), e, mask),
                    m.model.norm.weight,
                    m.model.norm.eps,
                )
        }),
{
    broadcast use {group_nodes, law_linear_reads};

}

/// A stack of Qwen3 layers applies them in order, each to what the one before gave.
pub proof fn law_qwen3_stack(
    layers: Seq<Qwen3LoraDecoderLayer>,
    n: nat,
    x: Array,
    mask: Option<Array>,
    positions: Option<Array>,
    training: bool,
)
    ensures
        qwen3_stack(layers, 0, x, mask, positions, training) == x,
        qwen3_stack(layers, n + 1, x, mask, positions, training) == layers[n as int].output(
            qwen3_stack(layers, n, x, mask, positions, training),
            mask,
            positions,
            training,
        ),
{
}

/// A Qwen3 model, read off its nodes: the logits of the normalized end of the stack that starts
/// from the embedded indices, under the given mask or else the causal one.
pub proof fn law_qwen3_model_reads(
    m: Qwen3LoraForCausalLM,
    ids: Array,
    mask: Option<Array>,
    positions: Option<Array>,
    training: bool,
)
    ensures
        ({
            let y = m.output(ids, mask, positions, training);
            let head = m.lm_head;
            let hidden = head_fed(y, head);
            let e = m.model.embed_tokens.output(ids);
            &&& is_logits(y, hidden, head, m.model.embed_tokens.weight)
            &&& is_embedded(e, ids, m.model.embed_tokens.weight)
            &&& exists|used: Option<Array>| #[trigger]
                is_mask(used, mask, ids.shape.dims()[1]) && is_normed(
                    hidden,
                    qwen3_stack(
                        m.model.layers@,
                        m.model.layers@.len(),
                        e,
                        used,
                        positions,
                        training,
                    ),
                    m.model.norm.weight,
                    m.model.norm.eps,
                )
        }),
{
    broadcast use {group_nodes, law_linear_reads};

    let used = mask_or_causal(mask, ids);
    assert(is_mask(used, mask, ids.shape.dims()[1]));
}

/// A stack of Phi layers applies them in order, each to what the one before gave.
pub proof fn law_phi_stack(
    layers: Seq<PhiLoraDecoderLayer>,
    n: nat,
    x: Array,
    mask: Option<Array>,
)
    ensures
        phi_stack(layers, 0, x, mask) == x,
        phi_stack(layers, n + 1, x, mask) == layers[n as int].output(
            phi_stack(layers, n, x, mask),
            mask,
        ),
{
}

/// A Phi model, read off its nodes: the logits of the normalized end of the stack that starts
/// from the embedded indices, under the given mask or else the causal one.
pub proof fn law_phi_model_reads(
    m: PhiLoraForCausalLM,
    ids: Array,
    mask: Option<Array>,
)
    ensures
        ({
            let y = m.output(ids, mask);
            let head = Some(m.lm_head);
            let hidden = head_fed(y, head);
            let e = m.model.embed_tokens.output(ids);
            &&& is_logits(y, hidden, head, m.model.embed_tokens.weight)
            &&& is_embedded(e, ids, m.model.embed_tokens.weight)
            &&& exists|used: Option<Array>| #[trigger]
                is_mask(used, mask, ids.shape.dims()[1]) && is_normed(
                    hidden,
                    phi_stack(m.model.layers@, m.model.layers@.len(), e, used),
                    m.model.norm.weight,
                    m.model.norm.eps,
                )
        }),
{
    broadcast use {group_nodes, law_linear_reads};

    let used = mask_or_causal(mask, ids);
    assert(is_mask(used, mask, ids.shape.dims()[1]));
}

/// A stack of quantized Phi layers applies them in order, each to what the one before gave.
pub proof fn law_phi_qlora_stack(
    layers: Seq<PhiQloraDecoderLayer>,
    n: nat,
    x: Array,
    mask: Option<Array>,
)
    ensures
        phi_qlora_stack(layers, 0, x, mask) == x,
        phi_qlora_stack(layers, n + 1, x, mask) == layers[n as int].output(
            phi_qlora_stack(layers, n, x, mask),
            mask,
        ),
{
}

/// A quantized Phi model, read off its nodes: the logits of the normalized end of the stack that
/// starts from the embedded indices, under the given mask or else the causal one.
pub proof fn law_phi_qlora_model_reads(
    m: PhiQloraForCausalLM,
    ids: Array,
    mask: Option<Array>,
)
    ensures
        ({
            let y = m.output(ids, mask);
            let head = Some(m.lm_head);
            let hidden = head_fed(y, head);
            let e = m.model.embed_tokens.output(ids);
            &&& is_logits(y, hidden, head, m.model.embed_tokens.weight)
            &&& is_embedded(e, ids, m.model.embed_tokens.weight)
            &&& exists|used: Option<Array>| #[trigger]
                is_mask(used, mask, ids.shape.dims()[1]) && is_normed(
                    hidden,
                    phi_qlora_stack(m.model.layers@, m.model.layers@.len(), e, used),
                    m.model.norm.weight,
                    m.model.norm.eps,
                )
        }),
{
    broadcast use {group_nodes, law_linear_reads};

    let used = mask_or_causal(mask, ids);
    assert(is_mask(used, mask, ids.shape.dims()[1]));
}

/// A stack of MLlama layers applies them in order, each to what the one before gave.
pub proof fn law_mllama_stack(
    layers: Seq<MllamaLoraDecoderLayer>,
    n: nat,
    x: Array,
    mask: Option<Array>,
    features: Option<Array>,
)
    ensures
        mllama_stack(layers, 0, x, mask, features) == x,
        mllama_stack(layers, n + 1, x, mask, features) == layers[n as int].output(
            mllama_stack(layers, n, x, mask, features),
            mask,
            features,
        ),
{
}

/// A MLlama model, read off its nodes: the logits of the normalized end of the stack that starts
/// from the embedded indices, under the given mask or else the causal one.
pub proof fn law_mllama_model_reads(
    m: MllamaLoraForCausalLM,
    ids: Array,
    mask: Option<Array>,
    features: Option<Array>,
)
    ensures
        ({
            let y = m.output(ids, mask, features);
            let head = m.lm_head;
            let hidden = head_fed(y, head);
            let e = m.model.embed_tokens.output(ids);
            &&& is_logits(y, hidden, head, m.model.embed_tokens.weight)
            &&& is_embedded(e, ids, m.model.embed_tokens.weight)
            &&& exists|used: Option<Array>| #[trigger]
                is_mask(used, mask, ids.shape.dims()[1]) && is_normed(
                    hidden,
                    mllama_stack(m.model.layers@, m.model.layers@.len(), e, used, features),
                    m.model.norm.weight,
                    m.model.norm.eps,
                )
        }),
{
    broadcast use {group_nodes, law_linear_reads};

    let used = mask_or_causal(mask, ids);
    assert(is_mask(used, mask, ids.shape.dims()[1]));
}

/// With positions of their own, a stack of MLlama layers applies them in order too, each to what
/// the one before gave, at those positions.
pub proof fn law_mllama_positioned_stack(
    layers: Seq<MllamaLoraDecoderLayer>,
    n: nat,
    x: Array,
    mask: Option<Array>,
    features: Option<Array>,
    positions: Array,
)
    ensures
        mllama_positioned_stack(layers, 0, x, mask, features, positions) == x,
        mllama_positioned_stack(layers, n + 1, x, mask, features, positions)
            == layers[n as int].positioned_output(
            mllama_positioned_stack(layers, n, x, mask, features, positions),
            mask,
            features,
            positions,
        ),
{
}

/// With positions of their own, an MLlama model normalizes the end of the stack that starts from
/// the embedded indices.
pub proof fn law_mllama_positioned_model_reads(
    m: MllamaLoraModel,
    ids: Array,
    mask: Option<Array>,
    features: Option<Array>,
    positions: Array,
)
    ensures
        ({
            let e = m.embed_tokens.output(ids);
            &&& is_embedded(e, ids, m.embed_tokens.weight)
            &&& is_normed(
                m.positioned_output(ids, mask, features, positions),
                mllama_positioned_stack(m.layers@, m.layers@.len(), e, mask, features, positions),
                m.norm.weight,
                m.norm.eps,
            )
        }),
{
    broadcast use group_nodes;

}

/// A Qwen3 model over a cache gives the logits of its hidden states, and the cache as they leave it.
pub proof fn law_qwen3_cached_logits(
    m: Qwen3LoraForCausalLM,
    ids: Array,
    mask: Option<Array>,
    cache: KVCacheState,
)
    ensures
        ({
            let end = m.cached_output(ids, mask, cache);
            let hidden = m.model.cached_output(ids, mask, cache);
            &&& is_logits(end.0, hidden.0, m.lm_head, m.model.embed_tokens.weight)
            &&& end.1 == hidden.1
        }),
{
    broadcast use {group_nodes, law_linear_reads};

}

/// A Phi model over a cache gives the logits of its hidden states, and the cache as they leave it.
pub proof fn law_phi_cached_logits(
    m: PhiLoraForCausalLM,
    ids: Array,
    mask: Option<Array>,
    cache: KVCacheState,
)
    ensures
        ({
            let end = m.cached_output(ids, mask, cache);
            let hidden = m.model.cached_output(ids, mask, cache);
            &&& is_logits(end.0, hidden.0, Some(m.lm_head), m.model.embed_tokens.weight)
            &&& end.1 == hidden.1
        }),
{
    broadcast use {group_nodes, law_linear_reads};

}

/// A quantized Phi model over a cache gives the logits of its hidden states, and the cache as they leave it.
pub proof fn law_phi_qlora_cached_logits(
    m: PhiQloraForCausalLM,
    ids: Array,
    mask: Option<Array>,
    cache: KVCacheState,
)
    ensures
        ({
            let end = m.cached_output(ids, mask, cache);
            let hidden = m.model.cached_output(ids, mask, cache);
            &&& is_logits(end.0, hidden.0, Some(m.lm_head), m.model.embed_tokens.weight)
            &&& end.1 == hidden.1
        }),
{
    broadcast use {group_nodes, law_linear_reads};

}

/// A stack of Qwen3-MoE layers applies them in order, each to what the one before gave.
pub proof fn law_moe_lora_stack(
    layers: Seq<Qwen3MoELoraDecoderLayer>,
    n: nat,
    x: Array,
    mask: Option<Array>,
)
    ensures
        moe_lora_stack(layers, 0, x, mask) == x,
        moe_lora_stack(layers, n + 1, x, mask) == layers[n as int].output(
            moe_lora_stack(layers, n, x, mask),
            mask,
        ),
{
}

/// A Qwen3-MoE model, read off its nodes: the logits of the normalized end of the stack that starts
/// from the embedded indices.
pub proof fn law_moe_lora_model_reads(
    m: Qwen3MoELoraForCausalLM,
    ids: Array,
    mask: Option<Array>,
)
    ensures
        ({
            let y = m.output(ids, mask);
            let head = m.lm_head;
            let hidden = head_fed(y, head);
            let e = m.model.embed_tokens.output(ids);
            &&& is_logits(y, hidden, head, m.model.embed_tokens.weight)
            &&& is_embedded(e, ids, m.model.embed_tokens.weight)
            &&& is_normed(
                    hidden,
                    moe_lora_stack(m.model.layers@, m.model.layers@.len(), e, mask),
                    m.model.norm.weight,
                    m.model.norm.eps,
                )
        }),
{
    broadcast use {group_nodes, law_linear_reads};

}

/// A stack of quantized Qwen3-MoE layers applies them in order, each to what the one before gave.
pub proof fn law_moe_qlora_stack(
    layers: Seq<Qwen3MoEQLoraDecoderLayer>,
    n: nat,
    x: Array,
    mask: Option<Array>,
)
    ensures
        moe_qlora_stack(layers, 0, x, mask) == x,
        moe_qlora_stack(layers, n + 1, x, mask) == layers[n as int].output(
            moe_qlora_stack(layers, n, x, mask),
            mask,
        ),
{
}

/// A quantized Qwen3-MoE model, read off its nodes: the logits of the normalized end of the stack
/// that starts from the embedded indices.
pub proof fn law_moe_qlora_model_reads(
    m: Qwen3MoEQLoraForCausalLM,
    ids: Array,
    mask: Option<Array>,
)
    ensures
        ({
            let y = m.output(ids, mask);
            let head = m.lm_head;
            let hidden = head_fed(y, head);
            let e = m.model.embed_tokens.output(ids);
            &&& is_logits(y, hidden, head, m.model.embed_tokens.weight)
            &&& is_embedded(e, ids, m.model.embed_tokens.weight)
            &&& is_normed(
                    hidden,
                    moe_qlora_stack(m.model.layers@, m.model.layers@.len(), e, mask),
                    m.model.norm.weight,
                    m.model.norm.eps,
                )
        }),
{
    broadcast use {group_nodes, law_linear_reads};

}

/// A stack of Nemotron-H layers applies them in order, each to what the one before gave.
pub proof fn law_nemotron_stack(
    layers: Seq<NemotronHLoraBlock>,
    n: nat,
    x: Array,
    mask: Option<Array>,
)
    ensures
        nemotron_stack(layers, 0, x, mask) == x,
        nemotron_stack(layers, n + 1, x, mask) == layers[n as int].output(
            nemotron_stack(layers, n, x, mask),
            if layers[n as int].mixer is Mamba {
                None
            } else {
                mask
            },
        ),
{
}

/// A Nemotron-H model, read off its nodes: the logits of the normalized end of the stack that
/// starts from the embedded indices.
pub proof fn law_nemotron_model_reads(
    m: NemotronHLoraForCausalLM,
    ids: Array,
    mask: Option<Array>,
)
    ensures
        ({
            let y = m.output(ids, mask);
            let head = m.lm_head;
            let hidden = head_fed(y, head);
            let e = m.model.embeddings.output(ids);
            &&& is_logits(y, hidden, head, m.model.embeddings.weight)
            &&& is_embedded(e, ids, m.model.embeddings.weight)
            &&& is_normed(
                    hidden,
                    nemotron_stack(m.model.layers@, m.model.layers@.len(), e, mask),
                    m.model.norm_f.weight,
                    m.model.norm_f.eps,
                )
        }),
{
    broadcast use {group_nodes, law_linear_reads};

}

/// A stack of quantized Nemotron-H layers applies them in order, each to what the one before gave.
pub proof fn law_nemotron_qlora_stack(
    layers: Seq<NemotronHQloraBlock>,
    n: nat,
    x: Array,
    mask: Option<Array>,
)
    ensures
        nemotron_qlora_stack(layers, 0, x, mask) == x,
        nemotron_qlora_stack(layers, n + 1, x, mask) == layers[n as int].output(
            nemotron_qlora_stack(layers, n, x, mask),
            if layers[n as int].mixer is Mamba {
                None
            } else {
                mask
            },
        ),
{
}

/// A quantized Nemotron-H model, read off its nodes: the logits of the normalized end of the stack
/// that starts from the embedded indices.
pub proof fn law_nemotron_qlora_model_reads(
    m: NemotronHQloraForCausalLM,
    ids: Array,
    mask: Option<Array>,
)
    ensures
        ({
            let y = m.output(ids, mask);
            let head = m.lm_head;
            let hidden = head_fed(y, head);
            let e = m.model.embeddings.output(ids);
            &&& is_logits(y, hidden, head, m.model.embeddings.weight)
            &&& is_embedded(e, ids, m.model.embeddings.weight)
            &&& is_normed(
                    hidden,
                    nemotron_qlora_stack(m.model.layers@, m.model.layers@.len(), e, mask),
                    m.model.norm_f.weight,
                    m.model.norm_f.eps,
                )
        }),
{
    broadcast use {group_nodes, law_linear_reads};

}

/// A stack of Qwen3-Next layers applies them in order, each to what the one before gave.
pub proof fn law_qwen3_next_stack(
    layers: Seq<Qwen3NextLoraDecoderLayer>,
    n: nat,
    x: Array,
    mask: Option<Array>,
    training: bool,
)
    ensures
        qwen3_next_stack(layers, 0, x, mask, training) == x,
        qwen3_next_stack(layers, n + 1, x, mask, training) == layers[n as int].output(
            qwen3_next_stack(layers, n, x, mask, training),
            if layers[n as int].is_linear {
                None
            } else {
                mask
            },
            None,
            training,
        ),
{
}

/// A Qwen3-Next model, read off its nodes: the logits of the normalized end of the stack that
/// starts from the embedded indices.
pub proof fn law_qwen3_next_model_reads(
    m: Qwen3NextLoraForCausalLM,
    ids: Array,
    mask: Option<Array>,
    training: bool,
)
    ensures
        ({
            let y = m.output(ids, mask, training);
            let head = m.lm_head;
            let hidden = head_fed(y, head);
            let e = m.model.embed_tokens.output(ids);
            &&& is_logits(y, hidden, head, m.model.embed_tokens.weight)
            &&& is_embedded(e, ids, m.model.embed_tokens.weight)
            &&& is_normed(
                    hidden,
                    qwen3_next_stack(m.model.layers@, m.model.layers@.len(), e, mask, training),
                    m.model.norm.weight,
                    m.model.norm.eps,
                )
        }),
{
    broadcast use {group_nodes, law_linear_reads};

}

/// Over a cache, a stack of Mistral layers applies them in order, each to what the one before gave
/// and to the cache as that one left it, under its own number; the hidden states are the
/// normalized end.
pub proof fn law_mistral_cached_stack(
    m: MistralLoraModel,
    n: nat,
    ids: Array,
    mask: Option<Array>,
    cache: KVCacheState,
)
    ensures
        ({
            let layers = m.layers@;
            let x = m.embed_tokens.output(ids);
            let before = mistral_cached_stack(layers, n, x, mask, cache);
            let end = mistral_cached_stack(layers, layers.len(), x, mask, cache);
            let all = m.cached_output(ids, mask, cache);
            &&& mistral_cached_stack(layers, 0, x, mask, cache) == (x, cache)
            &&& mistral_cached_stack(
                layers,
                n + 1,
                x,
                mask,
                cache,
            ) == layers[n as int].cached_output(
                before.0,
                mask,
                before.1,
                n as int,
            )
            &&& is_embedded(x, ids, m.embed_tokens.weight)
            &&& is_normed(all.0, end.0, m.norm.weight, m.norm.eps)
            &&& all.1 == end.1
        }),
{
    broadcast use group_nodes;

}

/// Over a cache, a stack of Qwen3 layers applies them in order, each to what the one before gave
/// and to the cache as that one left it, under its own number; the hidden states are the
/// normalized end.
pub proof fn law_qwen3_cached_stack(
    m: Qwen3LoraModel,
    n: nat,
    ids: Array,
    mask: Option<Array>,
    cache: KVCacheState,
)
    ensures
        ({
            let layers = m.layers@;
            let x = m.embed_tokens.output(ids);
            let before = qwen3_cached_stack(layers, n, x, mask, cache);
            let end = qwen3_cached_stack(layers, layers.len(), x, mask, cache);
            let all = m.cached_output(ids, mask, cache);
            &&& qwen3_cached_stack(layers, 0, x, mask, cache) == (x, cache)
            &&& qwen3_cached_stack(layers, n + 1, x, mask, cache) == layers[n as int].cached_output(
                before.0,
                mask,
                before.1,
                n as int,
            )
            &&& is_embedded(x, ids, m.embed_tokens.weight)
            &&& is_normed(all.0, end.0, m.norm.weight, m.norm.eps)
            &&& all.1 == end.1
        }),
{
    broadcast use group_nodes;

}

/// Over a cache, a stack of Phi layers applies them in order, each to what the one before gave
/// and to the cache as that one left it, under its own number; the hidden states are the
/// normalized end.
pub proof fn law_phi_cached_stack(
    m: PhiLoraModel,
    n: nat,
    ids: Array,
    mask: Option<Array>,
    cache: KVCacheState,
)
    ensures
        ({
            let layers = m.layers@;
            let x = m.embed_tokens.output(ids);
            let before = phi_cached_stack(layers, n, x, mask, cache);
            let end = phi_cached_stack(layers, layers.len(), x, mask, cache);
            let all = m.cached_output(ids, mask, cache);
            &&& phi_cached_stack(layers, 0, x, mask, cache) == (x, cache)
            &&& phi_cached_stack(layers, n + 1, x, mask, cache) == layers[n as int].cached_output(
                before.0,
                mask,
                before.1,
                n as int,
            )
            &&& is_embedded(x, ids, m.embed_tokens.weight)
            &&& is_normed(all.0, end.0, m.norm.weight, m.norm.eps)
            &&& all.1 == end.1
        }),
{
    broadcast use group_nodes;

}

/// Over a cache, a stack of quantized Phi layers applies them in order, each to what the one before
/// gave and to the cache as that one left it, under its own number; the hidden states are the
/// normalized end.
pub proof fn law_phi_qlora_cached_stack(
    m: PhiQloraModel,
    n: nat,
    ids: Array,
    mask: Option<Array>,
    cache: KVCacheState,
)
    ensures
        ({
            let layers = m.layers@;
            let x = m.embed_tokens.output(ids);
            let before = phi_qlora_cached_stack(layers, n, x, mask, cache);
            let end = phi_qlora_cached_stack(layers, layers.len(), x, mask, cache);
            let all = m.cached_output(ids, mask, cache);
            &&& phi_qlora_cached_stack(layers, 0, x, mask, cache) == (x, cache)
            &&& phi_qlora_cached_stack(
                layers,
                n + 1,
                x,
                mask,
                cache,
            ) == layers[n as int].cached_output(
                before.0,
                mask,
                before.1,
                n as int,
            )
            &&& is_embedded(x, ids, m.embed_tokens.weight)
            &&& is_normed(all.0, end.0, m.norm.weight, m.norm.eps)
            &&& all.1 == end.1
        }),
{
    broadcast use group_nodes;

}

/// Over a cache, a stack of MLlama layers applies them in order, each to what the one before gave
/// and to the cache as that one left it, under its own number; the hidden states are the
/// normalized end.
pub proof fn law_mllama_cached_stack(
    m: MllamaLoraModel,
    n: nat,
    ids: Array,
    mask: Option<Array>,
    features: Option<Array>,
    cache: KVCacheState,
)
    ensures
        ({
            let layers = m.layers@;
            let x = m.embed_tokens.output(ids);
            let before = mllama_cached_stack(layers, n, x, mask, features, cache);
            let end = mllama_cached_stack(layers, layers.len(), x, mask, features, cache);
            let all = m.cached_output(ids, mask, features, cache);
            &&& mllama_cached_stack(layers, 0, x, mask, features, cache) == (x, cache)
            &&& mllama_cached_stack(
                layers,
                n + 1,
                x,
                mask,
                features,
                cache,
            ) == layers[n as int].cached_output(
                before.0,
                mask, features,
                before.1,
                n as int,
            )
            &&& is_embedded(x, ids, m.embed_tokens.weight)
            &&& is_normed(all.0, end.0, m.norm.weight, m.norm.eps)
            &&& all.1 == end.1
        }),
{
    broadcast use group_nodes;

}

/// Over a cache, a stack of Qwen3-MoE layers applies them in order, each to what the one before
/// gave and to the cache as that one left it, under its own number; the hidden states are the
/// normalized end.
pub proof fn law_moe_lora_cached_stack(
    m: Qwen3MoELoraModel,
    n: nat,
    ids: Array,
    mask: Option<Array>,
    cache: KVCacheState,
)
    ensures
        ({
            let layers = m.layers@;
            let x = m.embed_tokens.output(ids);
            let before = moe_lora_cached_stack(layers, n, x, mask, cache);
            let end = moe_lora_cached_stack(layers, layers.len(), x, mask, cache);
            let all = m.cached_output(ids, mask, cache);
            &&& moe_lora_cached_stack(layers, 0, x, mask, cache) == (x, cache)
            &&& moe_lora_cached_stack(
                layers,
                n + 1,
                x,
                mask,
                cache,
            ) == layers[n as int].cached_output(
                before.0,
                mask,
                before.1,
                n as int,
            )
            &&& is_embedded(x, ids, m.embed_tokens.weight)
            &&& is_normed(all.0, end.0, m.norm.weight, m.norm.eps)
            &&& all.1 == end.1
        }),
{
    broadcast use group_nodes;

}

/// Over a cache, a stack of quantized Qwen3-MoE layers applies them in order, each to what the one
/// before gave and to the cache as that one left it, under its own number; the hidden states are
/// the normalized end.
pub proof fn law_moe_qlora_cached_stack(
    m: Qwen3MoEQLoraModel,
    n: nat,
    ids: Array,
    mask: Option<Array>,
    cache: KVCacheState,
)
    ensures
        ({
            let layers = m.layers@;
            let x = m.embed_tokens.output(ids);
            let before = moe_qlora_cached_stack(layers, n, x, mask, cache);
            let end = moe_qlora_cached_stack(layers, layers.len(), x, mask, cache);
            let all = m.cached_output(ids, mask, cache);
            &&& moe_qlora_cached_stack(layers, 0, x, mask, cache) == (x, cache)
            &&& moe_qlora_cached_stack(
                layers,
                n + 1,
                x,
                mask,
                cache,
            ) == layers[n as int].cached_output(
                before.0,
                mask,
                before.1,
                n as int,
            )
            &&& is_embedded(x, ids, m.embed_tokens.weight)
            &&& is_normed(all.0, end.0, m.norm.weight, m.norm.eps)
            &&& all.1 == end.1
        }),
{
    broadcast use group_nodes;

}

/// Over caches, a stack of Qwen3-Next layers applies them in order: each to what the one before
/// gave, to the cache of keys as that one left it, and to the state of its own number, which it
/// replaces.
pub proof fn law_qwen3_next_steps(
    m: Qwen3NextLoraModel,
    i: int,
    x: Array,
    mask: Option<Array>,
    kv: Option<KVCacheState>,
    states: Option<Seq<MambaCacheEntry>>,
)
    requires
        0 <= i < m.layers@.len(),
        states matches Some(s) ==> s.len() == m.layers@.len(),
    ensures
        ({
            let layers = m.layers@;
            let own = match states {
                Some(s) => Some(s[i]),
                None => None,
            };
            let keys = match kv {
                Some(c) => Some((c, i)),
                None => None,
            };
            let used = if layers[i].is_linear {
                None
            } else {
                mask
            };
            let end = layers[i].step(x, used, keys, own);
            let kept = match (states, end.2) {
                (Some(s), Some(e)) => Some(s.update(i, e)),
                _ => states,
            };
            &&& qwen3_next_steps(layers, i, x, mask, kv, states) == qwen3_next_steps(
                layers,
                i + 1,
                end.0,
                mask,
                end.1,
                kept,
            )
            &&& qwen3_next_steps(
                layers,
                layers.len() as int,
                x,
                mask,
                kv,
                states,
            ) == (x, kv, states)
        }),
{
}

/// The hidden states over caches are the normalized end of the stack that starts from the embedded
/// indices.
pub proof fn law_qwen3_next_cached_model_reads(
    m: Qwen3NextLoraModel,
    ids: Array,
    mask: Option<Array>,
    kv: Option<KVCacheState>,
    states: Option<Seq<MambaCacheEntry>>,
)
    ensures
        ({
            let x = m.embed_tokens.output(ids);
            let all = m.cached_output(ids, mask, kv, states);
            let end = qwen3_next_steps(m.layers@, 0, x, mask, kv, states);
            &&& is_embedded(x, ids, m.embed_tokens.weight)
            &&& is_normed(all.0, end.0, m.norm.weight, m.norm.eps)
            &&& all.1 == end.1 && all.2 == end.2
        }),
{
    broadcast use group_nodes;

}

/// Over caches, a stack of Nemotron-H layers applies them in order: each to what the one before
/// gave, to the cache of keys as that one left it, and to the state of its own number, which it
/// replaces.
pub proof fn law_nemotron_steps(
    m: NemotronHLoraModel,
    i: int,
    x: Array,
    mask: Option<Array>,
    kv: Option<KVCacheState>,
    states: Option<Seq<MambaCacheEntry>>,
)
    requires
        0 <= i < m.layers@.len(),
        states matches Some(s) ==> s.len() == m.layers@.len(),
    ensures
        ({
            let layers = m.layers@;
            let own = match states {
                Some(s) => Some(s[i]),
                None => None,
            };
            let keys = match kv {
                Some(c) => Some((c, i)),
                None => None,
            };
            let used = if layers[i].mixer is Mamba {
                None
            } else {
                mask
            };
            let end = layers[i].step(x, used, keys, own);
            let kept = match (states, end.2) {
                (Some(s), Some(e)) => Some(s.update(i, e)),
                _ => states,
            };
            &&& nemotron_steps(layers, i, x, mask, kv, states) == nemotron_steps(
                layers,
                i + 1,
                end.0,
                mask,
                end.1,
                kept,
            )
            &&& nemotron_steps(layers, layers.len() as int, x, mask, kv, states) == (x, kv, states)
        }),
{
}

/// The hidden states over caches are the normalized end of the stack that starts from the embedded
/// indices.
pub proof fn law_nemotron_cached_model_reads(
    m: NemotronHLoraModel,
    ids: Array,
    mask: Option<Array>,
    kv: Option<KVCacheState>,
    states: Option<Seq<MambaCacheEntry>>,
)
    ensures
        ({
            let x = m.embeddings.output(ids);
            let all = m.cached_output(ids, mask, kv, states);
            let end = nemotron_steps(m.layers@, 0, x, mask, kv, states);
            &&& is_embedded(x, ids, m.embeddings.weight)
            &&& is_normed(all.0, end.0, m.norm_f.weight, m.norm_f.eps)
            &&& all.1 == end.1 && all.2 == end.2
        }),
{
    broadcast use group_nodes;

}

/// Over caches, a stack of quantized Nemotron-H layers applies them in order: each to what the one
/// before gave, to the cache of keys as that one left it, and to the state of its own number, which
/// it replaces.
pub proof fn law_nemotron_qlora_steps(
    m: NemotronHQloraModel,
    i: int,
    x: Array,
    mask: Option<Array>,
    kv: Option<KVCacheState>,
    states: Option<Seq<MambaCacheEntry>>,
)
    requires
        0 <= i < m.layers@.len(),
        states matches Some(s) ==> s.len() == m.layers@.len(),
    ensures
        ({
            let layers = m.layers@;
            let own = match states {
                Some(s) => Some(s[i]),
                None => None,
            };
            let keys = match kv {
                Some(c) => Some((c, i)),
                None => None,
            };
            let used = if layers[i].mixer is Mamba {
                None
            } else {
                mask
            };
            let end = layers[i].step(x, used, keys, own);
            let kept = match (states, end.2) {
                (Some(s), Some(e)) => Some(s.update(i, e)),
                _ => states,
            };
            &&& nemotron_qlora_steps(layers, i, x, mask, kv, states) == nemotron_qlora_steps(
                layers,
                i + 1,
                end.0,
                mask,
                end.1,
                kept,
            )
            &&& nemotron_qlora_steps(
                layers,
                layers.len() as int,
                x,
                mask,
                kv,
                states,
            ) == (x, kv, states)
        }),
{
}

/// The hidden states over caches are the normalized end of the stack that starts from the embedded
/// indices.
pub proof fn law_nemotron_qlora_cached_model_reads(
    m: NemotronHQloraModel,
    ids: Array,
    mask: Option<Array>,
    kv: Option<KVCacheState>,
    states: Option<Seq<MambaCacheEntry>>,
)
    ensures
        ({
            let x = m.embeddings.output(ids);
            let all = m.cached_output(ids, mask, kv, states);
            let end = nemotron_qlora_steps(m.layers@, 0, x, mask, kv, states);
            &&& is_embedded(x, ids, m.embeddings.weight)
            &&& is_normed(all.0, end.0, m.norm_f.weight, m.norm_f.eps)
            &&& all.1 == end.1 && all.2 == end.2
        }),
{
    broadcast use group_nodes;

}

} // verus!
