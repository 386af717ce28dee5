//! How the adapters of a stack are listed and counted, and what success and loading leave.

use crate::array::Array;
use crate::config::checkpointing;
use crate::error::{LoraError, outcome};
use crate::lora::{Adapter, LoraLinear};
use crate::mistral_lora::MistralLoraDecoderLayer;
use crate::mixed_starting_laws::linear_starts;
use crate::mllama_lora::MllamaLoraDecoderLayer;
use crate::naming_laws::held_under;
use crate::nemotron_h_lora::NemotronHLoraBlock;
use crate::nemotron_h_qlora::NemotronHQloraBlock;
use crate::nn::{Embedding, Linear, RmsNorm, fresh_head, logits_weight};
use crate::params::{
    LayerParamRef, LoraLayer, adapted_before, half_of, lists_layer, lists_stack, trainable_total,
    trainable_upto,
};
use crate::phi_lora::PhiLoraDecoderLayer;
use crate::phi_qlora::PhiQloraDecoderLayer;
use crate::qlora::{QLoraConfig, QLoraLinear};
use crate::qwen3_lora::Qwen3LoraDecoderLayer;
use crate::qwen3_moe_lora::Qwen3MoELoraDecoderLayer;
use crate::qwen3_moe_qlora::Qwen3MoEQLoraDecoderLayer;
use crate::qwen3_next_lora::Qwen3NextLoraDecoderLayer;
use crate::starting_laws::{law_quantized_sits_on, sits_on_quantized};
use crate::weights::{
    WeightFiles, loaded, loaded_biased, loaded_head, loaded_linear, loaded_norm, loaded_table,
    requantized, weight_files_outcome,
};
use vstd::prelude::*;

verus! {

/// A computation succeeds just where its operands fit, and then with its result.
pub proof fn law_success_owed(out: Array, x: Array, e: LoraError)
    ensures
        outcome(Ok(x), out) <==> out.fits && x == out,
        outcome(Err(e), out) <==> !out.fits && e is Mlx,
{
}

/// Checkpointing that is switched on is on, with as many layers to a block as were asked for, and
/// with arrays evaluated where a block ends.
pub proof fn law_checkpointing_on(n: usize)
    ensures
        checkpointing(n).enabled,
        checkpointing(n).layers_per_block == n,
        checkpointing(n).eval_at_boundaries,
{
}

/// A model has a head of its own just where its embeddings do not serve as one.
pub proof fn law_head_starts(tied: bool, hidden: i32, vocab: i32)
    ensures
        fresh_head(tied, hidden, vocab) is Some <==> !tied,
        fresh_head(tied, hidden, vocab) matches Some(l) ==> linear_starts(
            l,
            hidden as int,
            vocab as int,
            false,
        ),
{
}

/// The weight of the logits is that of the head, or else the embeddings themselves.
pub proof fn law_head_weight(head: Option<Linear>, table: Embedding)
    ensures
        head matches Some(l) ==> logits_weight(head, table) == l.weight,
        head is None ==> logits_weight(head, table) == table.weight,
{
}

/// One file is taken where it is there, else the index; without either the error tells what is
/// missing.
pub proof fn law_weight_files(single: bool, index: bool, what: Seq<char>, e: LoraError)
    ensures
        weight_files_outcome(Ok(WeightFiles::Single), single, index, what) <==> single,
        weight_files_outcome(Ok(WeightFiles::Sharded), single, index, what) <==> !single && index,
        weight_files_outcome(Err(e), single, index, what) <==> !single && !index && (
        e matches LoraError::Mlx(x) && x.what@ == what),
{
}

/// Loading puts a weight in where its name is held, and leaves everything else.
pub proof fn law_loading_leaves(
    weights: Map<Seq<char>, Array>,
    name: Seq<char>,
    bias_name: Seq<char>,
    l: LoraLinear,
    f: Linear,
    n: RmsNorm,
    t: Embedding,
)
    ensures
        ({
            let a = loaded(l, weights, name);
            &&& a.weight == held_under(weights, name, l.weight)
            &&& weights.contains_key(name) ==> !a.merged
            &&& !weights.contains_key(name) ==> a.merged == l.merged
            &&& a.bias == l.bias && a.lora_a == l.lora_a && a.lora_b == l.lora_b
            &&& a.scale == l.scale && a.rank == l.rank
        }),
        ({
            let a = loaded_biased(l, weights, name, bias_name);
            &&& a.weight == held_under(weights, name, l.weight)
            &&& weights.contains_key(bias_name) ==> a.bias == Some(weights[bias_name])
            &&& !weights.contains_key(bias_name) ==> a.bias == l.bias
            &&& weights.contains_key(name) ==> !a.merged
            &&& !weights.contains_key(name) ==> a.merged == l.merged
            &&& a.lora_a == l.lora_a && a.lora_b == l.lora_b
            &&& a.scale == l.scale && a.rank == l.rank
        }),
        loaded_linear(f, weights, name).weight == held_under(weights, name, f.weight),
        loaded_linear(f, weights, name).bias == f.bias,
        loaded_norm(n, weights, name).weight == held_under(weights, name, n.weight),
        loaded_norm(n, weights, name).eps == n.eps,
        loaded_table(t, weights, name).weight == held_under(weights, name, t.weight),
        loaded_head(None, weights, name) is None,
        loaded_head(Some(f), weights, name) == Some(loaded_linear(f, weights, name)),
{
}

/// A weight that is held is quantized under a fresh adapter; without one the layer stays.
pub proof fn law_requantizing_leaves(
    l: QLoraLinear,
    weights: Map<Seq<char>, Array>,
    name: Seq<char>,
    bias: Option<Array>,
    config: QLoraConfig,
)
    requires
        config.lora.valid(),
    ensures
        weights.contains_key(name) ==> sits_on_quantized(
            requantized(l, weights, name, bias, config),
            weights[name],
            bias,
            config.lora.r as int,
            config,
        ),
        !weights.contains_key(name) ==> requantized(l, weights, name, bias, config) == l,
{
    if weights.contains_key(name) {
        law_quantized_sits_on(weights[name], bias, config);
    }
}

/// The trainable elements of a stack are those of its two parts, however it is cut.
pub proof fn law_stack_count<T: LoraLayer>(a: Seq<T>, b: Seq<T>)
    ensures
        trainable_total(a + b) == trainable_total(a) + trainable_total(b),
    decreases b.len(),
{
    if b.len() == 0 {
        assert(a + b =~= a);
    } else {
        law_stack_count(a, b.drop_last());
        assert((a + b).drop_last() =~= a + b.drop_last());
        lemma_trainable_prefix(a + b, (a + b).drop_last(), (a.len() + b.len() - 1) as nat);
        lemma_trainable_prefix(b, b.drop_last(), (b.len() - 1) as nat);
    }
}

/// One layer alone counts its own elements, and an empty stack none.
pub proof fn law_one_layer_count<T: LoraLayer>(l: T)
    ensures
        trainable_total(seq![l]) == l.trainable(),
        trainable_total(Seq::<T>::empty()) == 0,
{
    reveal_with_fuel(trainable_upto, 2);
}

proof fn lemma_trainable_prefix<T: LoraLayer>(s: Seq<T>, t: Seq<T>, n: nat)
    requires
        n <= s.len(),
        n <= t.len(),
        forall|i: int| 0 <= i < n ==> s[i] == t[i],
    ensures
        trainable_upto(s, n) == trainable_upto(t, n),
    decreases n,
{
    if n > 0 {
        lemma_trainable_prefix(s, t, (n - 1) as nat);
    }
}

/// Every layer with adapters has one group, which lists its matrices: at even places those that
/// multiply first, at odd places those that multiply second.
pub proof fn law_layer_listed<T: LoraLayer>(
    groups: Seq<LayerParamRef>,
    layers: Seq<T>,
    i: int,
    p: int,
)
    requires
        lists_stack(groups, layers),
        0 <= i < layers.len(),
        0 <= p,
        2 * p + 1 < layers[i].matrices().len(),
    ensures
        exists|g: int|
            0 <= g < groups.len() && (#[trigger] groups[g]).layer == i && {
                let (a, b) = (groups[g].entries@[2 * p], groups[g].entries@[2 * p + 1]);
                &&& groups[g].entries@.len() == layers[i].matrices().len()
                &&& a.half is A && b.half is B
                &&& a.place == layers[i].places()[p] && b.place == a.place
                &&& *a.value == layers[i].matrices()[2 * p]
                &&& *b.value == layers[i].matrices()[2 * p + 1]
            },
{
    let g = adapted_before(layers, i as nat) as int;
    lemma_adapted_grows(layers, (i + 1) as nat, layers.len());
    assert(lists_layer(groups[g], layers[i], i));
    assert((2 * p) / 2 == p && (2 * p + 1) / 2 == p);
    assert(groups[g].entries@[2 * p].half == half_of(2 * p));
    assert(groups[g].entries@[2 * p + 1].half == half_of(2 * p + 1));
    assert(groups[g].layer == i);
}

/// Groups stand in the order of their layers, and each belongs to a layer with adapters.
pub proof fn law_groups_in_order<T: LoraLayer>(
    groups: Seq<LayerParamRef>,
    layers: Seq<T>,
    g: int,
    h: int,
)
    requires
        lists_stack(groups, layers),
        0 <= g < h < groups.len(),
    ensures
        groups[g].layer < groups[h].layer < layers.len(),
        layers[groups[g].layer as int].matrices().len() > 0,
        layers[groups[h].layer as int].matrices().len() > 0,
{
    let i = lemma_group_has_layer(layers, layers.len(), g);
    let j = lemma_group_has_layer(layers, layers.len(), h);
    assert(lists_layer(groups[g], layers[i], i));
    assert(lists_layer(groups[h], layers[j], j));
    if j <= i {
        lemma_adapted_grows(layers, j as nat, i as nat);
    }
}

proof fn lemma_adapted_grows<T: LoraLayer>(layers: Seq<T>, m: nat, n: nat)
    requires
        m <= n,
    ensures
        adapted_before(layers, m) <= adapted_before(layers, n),
    decreases n,
{
    if m < n {
        lemma_adapted_grows(layers, m, (n - 1) as nat);
    }
}

proof fn lemma_group_has_layer<T: LoraLayer>(layers: Seq<T>, n: nat, g: int) -> (i: int)
    requires
        0 <= g < adapted_before(layers, n),
    ensures
        0 <= i < n,
        layers[i].matrices().len() > 0,
        adapted_before(layers, i as nat) == g,
    decreases n,
{
    if g < adapted_before(layers, (n - 1) as nat) {
        lemma_group_has_layer(layers, (n - 1) as nat, g)
    } else {
        n - 1
    }
}

/// A Mistral layer counts each of its adapters once.
pub proof fn law_mistral_count(layer: MistralLoraDecoderLayer)
    ensures
        LoraLayer::trainable(layer) == layer.self_attn.q_proj.trainable()
            + layer.self_attn.k_proj.trainable()
            + layer.self_attn.v_proj.trainable()
            + layer.self_attn.o_proj.trainable()
            + layer.mlp.gate_proj.trainable()
            + layer.mlp.up_proj.trainable()
            + layer.mlp.down_proj.trainable(),
{
}

/// A Qwen3 layer counts each of its adapters once.
pub proof fn law_qwen3_count(layer: Qwen3LoraDecoderLayer)
    ensures
        LoraLayer::trainable(layer) == layer.self_attn.q_proj.trainable()
            + layer.self_attn.k_proj.trainable()
            + layer.self_attn.v_proj.trainable()
            + layer.self_attn.o_proj.trainable()
            + layer.mlp.gate_proj.trainable()
            + layer.mlp.up_proj.trainable()
            + layer.mlp.down_proj.trainable(),
{
}

/// A Phi layer counts each of its adapters once.
pub proof fn law_phi_count(layer: PhiLoraDecoderLayer)
    ensures
        LoraLayer::trainable(layer) == layer.self_attn.q_proj.trainable()
            + layer.self_attn.k_proj.trainable()
            + layer.self_attn.v_proj.trainable()
            + layer.self_attn.o_proj.trainable()
            + layer.mlp.gate_up_proj.trainable()
            + layer.mlp.down_proj.trainable(),
{
}

/// A quantized Phi layer counts each of its adapters once.
pub proof fn law_phi_qlora_count(layer: PhiQloraDecoderLayer)
    ensures
        LoraLayer::trainable(layer) == layer.self_attn.q_proj.trainable()
            + layer.self_attn.k_proj.trainable()
            + layer.self_attn.v_proj.trainable()
            + layer.self_attn.o_proj.trainable()
            + layer.mlp.gate_up_proj.trainable()
            + layer.mlp.down_proj.trainable(),
{
}

/// An MLlama layer without cross-attention counts each of its adapters once.
pub proof fn law_mllama_count(layer: MllamaLoraDecoderLayer)
    requires
        layer.cross_attn is None,
    ensures
        LoraLayer::trainable(layer) == layer.self_attn.q_proj.trainable()
            + layer.self_attn.k_proj.trainable()
            + layer.self_attn.v_proj.trainable()
            + layer.self_attn.o_proj.trainable()
            + layer.mlp.gate_proj.trainable()
            + layer.mlp.up_proj.trainable()
            + layer.mlp.down_proj.trainable(),
{
}

/// An MLlama layer with cross-attention counts each of its adapters once.
pub proof fn law_mllama_cross_count(layer: MllamaLoraDecoderLayer)
    requires
        layer.cross_attn is Some,
    ensures
        LoraLayer::trainable(layer) == layer.self_attn.q_proj.trainable()
            + layer.self_attn.k_proj.trainable()
            + layer.self_attn.v_proj.trainable()
            + layer.self_attn.o_proj.trainable()
            + layer.mlp.gate_proj.trainable()
            + layer.mlp.up_proj.trainable()
            + layer.mlp.down_proj.trainable()
            + layer.cross_attn->0.q_proj.trainable()
            + layer.cross_attn->0.k_proj.trainable()
            + layer.cross_attn->0.v_proj.trainable()
            + layer.cross_attn->0.o_proj.trainable(),
{
}

/// A Nemotron-H block with attention counts each of its adapters once.
pub proof fn law_nemotron_attention_count(layer: NemotronHLoraBlock)
    requires
        layer.mixer is Attention,
    ensures
        LoraLayer::trainable(layer) == layer.mixer->Attention_0.q_proj.trainable()
            + layer.mixer->Attention_0.k_proj.trainable()
            + layer.mixer->Attention_0.v_proj.trainable()
            + layer.mixer->Attention_0.o_proj.trainable(),
{
}

/// A Nemotron-H block with an MLP counts each of its adapters once.
pub proof fn law_nemotron_mlp_count(layer: NemotronHLoraBlock)
    requires
        layer.mixer is Mlp,
    ensures
        LoraLayer::trainable(layer) == layer.mixer->Mlp_0.up_proj.trainable()
            + layer.mixer->Mlp_0.down_proj.trainable(),
{
}

/// A Nemotron-H block with a shared expert counts each of its adapters once.
pub proof fn law_nemotron_shared_count(layer: NemotronHLoraBlock)
    requires
        layer.mixer is MoE,
        layer.mixer->MoE_0.shared_expert is Some,
    ensures
        LoraLayer::trainable(layer) == layer.mixer->MoE_0.shared_expert->0.up_proj.trainable()
            + layer.mixer->MoE_0.shared_expert->0.down_proj.trainable(),
{
}

/// A Nemotron-H block with a frozen mixer counts each of its adapters once.
pub proof fn law_nemotron_frozen_count(layer: NemotronHLoraBlock)
    requires
        layer.mixer is Mamba || layer.mixer is MoE && layer.mixer->MoE_0.shared_expert is None,
    ensures
        LoraLayer::trainable(layer) == 0,
{
}

/// A quantized Nemotron-H block with attention counts each of its adapters once.
pub proof fn law_nemotron_qlora_attention_count(layer: NemotronHQloraBlock)
    requires
        layer.mixer is Attention,
    ensures
        LoraLayer::trainable(layer) == layer.mixer->Attention_0.q_proj.trainable()
            + layer.mixer->Attention_0.k_proj.trainable()
            + layer.mixer->Attention_0.v_proj.trainable()
            + layer.mixer->Attention_0.o_proj.trainable(),
{
}

/// A quantized Nemotron-H block with an MLP counts each of its adapters once.
pub proof fn law_nemotron_qlora_mlp_count(layer: NemotronHQloraBlock)
    requires
        layer.mixer is Mlp,
    ensures
        LoraLayer::trainable(layer) == layer.mixer->Mlp_0.up_proj.trainable()
            + layer.mixer->Mlp_0.down_proj.trainable(),
{
}

/// A quantized Nemotron-H block with a shared expert counts each of its adapters once.
pub proof fn law_nemotron_qlora_shared_count(layer: NemotronHQloraBlock)
    requires
        layer.mixer is MoE,
        layer.mixer->MoE_0.shared_expert is Some,
    ensures
        LoraLayer::trainable(layer) == layer.mixer->MoE_0.shared_expert->0.up_proj.trainable()
            + layer.mixer->MoE_0.shared_expert->0.down_proj.trainable(),
{
}

/// A quantized Nemotron-H block with a frozen mixer counts each of its adapters once.
pub proof fn law_nemotron_qlora_frozen_count(layer: NemotronHQloraBlock)
    requires
        layer.mixer is Mamba || layer.mixer is MoE && layer.mixer->MoE_0.shared_expert is None,
    ensures
        LoraLayer::trainable(layer) == 0,
{
}

/// A Qwen3-MoE layer with one MLP counts each of its adapters once.
pub proof fn law_moe_lora_dense_count(layer: Qwen3MoELoraDecoderLayer)
    requires
        layer.ffn is Dense,
    ensures
        LoraLayer::trainable(layer) == layer.self_attn.q_proj.trainable()
            + layer.self_attn.k_proj.trainable()
            + layer.self_attn.v_proj.trainable()
            + layer.self_attn.o_proj.trainable()
            + layer.ffn->Dense_0.gate_proj.trainable()
            + layer.ffn->Dense_0.up_proj.trainable()
            + layer.ffn->Dense_0.down_proj.trainable(),
{
}

/// A Qwen3-MoE layer with experts counts each of its adapters once.
pub proof fn law_moe_lora_sparse_count(layer: Qwen3MoELoraDecoderLayer)
    requires
        layer.ffn is MoE,
    ensures
        LoraLayer::trainable(layer) == layer.self_attn.q_proj.trainable()
            + layer.self_attn.k_proj.trainable()
            + layer.self_attn.v_proj.trainable()
            + layer.self_attn.o_proj.trainable()
            + layer.ffn->MoE_0.gate.trainable(),
{
}

/// A quantized Qwen3-MoE layer with one MLP counts each of its adapters once.
pub proof fn law_moe_qlora_dense_count(layer: Qwen3MoEQLoraDecoderLayer)
    requires
        layer.ffn is Dense,
    ensures
        LoraLayer::trainable(layer) == layer.self_attn.q_proj.trainable()
            + layer.self_attn.k_proj.trainable()
            + layer.self_attn.v_proj.trainable()
            + layer.self_attn.o_proj.trainable()
            + layer.ffn->Dense_0.gate_proj.trainable()
            + layer.ffn->Dense_0.up_proj.trainable()
            + layer.ffn->Dense_0.down_proj.trainable(),
{
}

/// A quantized Qwen3-MoE layer with experts counts each of its adapters once.
pub proof fn law_moe_qlora_sparse_count(layer: Qwen3MoEQLoraDecoderLayer)
    requires
        layer.ffn is MoE,
    ensures
        LoraLayer::trainable(layer) == layer.self_attn.q_proj.trainable()
            + layer.self_attn.k_proj.trainable()
            + layer.self_attn.v_proj.trainable()
            + layer.self_attn.o_proj.trainable()
            + layer.ffn->MoE_0.gate.trainable(),
{
}

/// A Qwen3-Next layer with full attention and one MLP counts each of its adapters once.
pub proof fn law_qwen3_next_full_dense_count(layer: Qwen3NextLoraDecoderLayer)
    requires
        layer.self_attn is Some,
        layer.linear_attn is None,
        layer.mlp is Dense,
    ensures
        LoraLayer::trainable(layer) == layer.self_attn->0.q_proj.trainable()
            + layer.self_attn->0.k_proj.trainable()
            + layer.self_attn->0.v_proj.trainable()
            + layer.self_attn->0.o_proj.trainable()
            + layer.mlp->Dense_0.gate_proj.trainable()
            + layer.mlp->Dense_0.up_proj.trainable()
            + layer.mlp->Dense_0.down_proj.trainable(),
{
}

/// A Qwen3-Next layer with full attention and experts counts each of its adapters once.
pub proof fn law_qwen3_next_full_sparse_count(layer: Qwen3NextLoraDecoderLayer)
    requires
        layer.self_attn is Some,
        layer.linear_attn is None,
        layer.mlp is MoE,
    ensures
        LoraLayer::trainable(layer) == layer.self_attn->0.q_proj.trainable()
            + layer.self_attn->0.k_proj.trainable()
            + layer.self_attn->0.v_proj.trainable()
            + layer.self_attn->0.o_proj.trainable()
            + layer.mlp->MoE_0.shared_expert.gate_proj.trainable()
            + layer.mlp->MoE_0.shared_expert.up_proj.trainable()
            + layer.mlp->MoE_0.shared_expert.down_proj.trainable(),
{
}

/// A Qwen3-Next layer with a gated delta rule and one MLP counts each of its adapters once.
pub proof fn law_qwen3_next_linear_dense_count(layer: Qwen3NextLoraDecoderLayer)
    requires
        layer.self_attn is None,
        layer.linear_attn is Some,
        layer.mlp is Dense,
    ensures
        LoraLayer::trainable(layer) == layer.linear_attn->0.in_proj_qkv.trainable()
            + layer.linear_attn->0.in_proj_z.trainable()
            + layer.linear_attn->0.out_proj.trainable()
            + layer.mlp->Dense_0.gate_proj.trainable()
            + layer.mlp->Dense_0.up_proj.trainable()
            + layer.mlp->Dense_0.down_proj.trainable(),
{
}

/// A Qwen3-Next layer with a gated delta rule and experts counts each of its adapters once.
pub proof fn law_qwen3_next_linear_sparse_count(layer: Qwen3NextLoraDecoderLayer)
    requires
        layer.self_attn is None,
        layer.linear_attn is Some,
        layer.mlp is MoE,
    ensures
        LoraLayer::trainable(layer) == layer.linear_attn->0.in_proj_qkv.trainable()
            + layer.linear_attn->0.in_proj_z.trainable()
            + layer.linear_attn->0.out_proj.trainable()
            + layer.mlp->MoE_0.shared_expert.gate_proj.trainable()
            + layer.mlp->MoE_0.shared_expert.up_proj.trainable()
            + layer.mlp->MoE_0.shared_expert.down_proj.trainable(),
{
}

} // verus!
