//! What the bytes of quantized layers come to.

use crate::memory::{MeasuredLayer, Memory, full_bytes_upto, memory_upto, stack_memory};
use crate::nemotron_h_qlora::{NemotronHQloraBlock, NemotronHQloraMixer};
use crate::phi_qlora::PhiQloraDecoderLayer;
use crate::qlora::QLoraLinear;
use crate::quantization::{QuantScheme, blocks, packed_len, stored_len};
use crate::qwen3_moe_qlora::Qwen3MoEQLoraDecoderLayer;
use vstd::prelude::*;

verus! {

/// Two elements share a byte, and at most one half of a byte is left over.
pub proof fn law_half_bytes(n: int)
    requires
        n >= 0,
    ensures
        n <= 2 * packed_len(n) <= n + 1,
        stored_len(n, QuantScheme::NF4) == stored_len(n, QuantScheme::FP4),
        n <= 2 * stored_len(n, QuantScheme::NF4) <= n + 1,
        stored_len(n, QuantScheme::Int8) == n,
{
}

/// Blocks hold every element, and no block is empty.
pub proof fn law_blocks_cover(n: int, k: int)
    requires
        n >= 0,
        k > 0,
    ensures
        n <= blocks(n, k) * k,
        n > 0 ==> (blocks(n, k) - 1) * k < n,
        n == 0 ==> blocks(n, k) == 0,
{
    vstd::arithmetic::div_mod::lemma_fundamental_div_mod(n, k);
    let q = n / k;
    vstd::arithmetic::mul::lemma_mul_is_commutative(k, q);
    vstd::arithmetic::mul::lemma_mul_is_distributive_add_other_way(k, q, 1);
    vstd::arithmetic::mul::lemma_mul_is_distributive_sub_other_way(k, q, 1);
    if n == 0 {
        vstd::arithmetic::div_mod::lemma_div_basics(k);
        vstd::arithmetic::div_mod::lemma_small_mod(0, k as nat);
    }
}

/// The bytes of one layer: its stored elements and four for each scale, four for each element of
/// the two small matrices, and four for each element of the bias.
pub proof fn law_qlora_bytes(l: QLoraLinear)
    requires
        l.rank >= 0,
        l.in_features >= 0,
        l.out_features >= 0,
    ensures
        l.memory().quantized == l.quantized_weight.data_len + 4 * l.quantized_weight.absmax_len,
        l.memory().lora == 4 * (l.rank * (l.in_features + l.out_features)),
        l.memory().total == l.memory().quantized + l.memory().lora + (if l.use_bias {
            4 * l.out_features
        } else {
            0
        }),
        l.frozen() == l.in_features * l.out_features + (if l.use_bias {
            l.out_features as int
        } else {
            0
        }),
{
    let (r, i, o) = (l.rank as int, l.in_features as int, l.out_features as int);
    vstd::arithmetic::mul::lemma_mul_is_distributive_add(r, i, o);
    vstd::arithmetic::mul::lemma_mul_is_commutative(r, o);
    vstd::arithmetic::mul::lemma_mul_is_commutative(i, o);
    vstd::arithmetic::mul::lemma_mul_nonnegative(r, i);
    vstd::arithmetic::mul::lemma_mul_nonnegative(r, o);
    vstd::arithmetic::mul::lemma_mul_nonnegative(i, o);
}

/// The bytes of a stack are those of its two parts, however it is cut.
pub proof fn law_stack_bytes<T: MeasuredLayer>(a: Seq<T>, b: Seq<T>)
    ensures
        ({
            let both = stack_memory(a + b);
            let (x, y) = (stack_memory(a), stack_memory(b));
            &&& both.quantized == x.quantized + y.quantized
            &&& both.lora == x.lora + y.lora
            &&& both.total == x.total + y.total
        }),
        full_bytes_upto(a + b, (a + b).len()) == full_bytes_upto(a, a.len()) + full_bytes_upto(
            b,
            b.len(),
        ),
    decreases b.len(),
{
    if b.len() == 0 {
        assert(a + b =~= a);
    } else {
        law_stack_bytes(a, b.drop_last());
        assert((a + b).drop_last() =~= a + b.drop_last());
        lemma_upto_prefix(a + b, (a + b).drop_last(), (a.len() + b.len() - 1) as nat);
        lemma_upto_prefix(b, b.drop_last(), (b.len() - 1) as nat);
    }
}

/// The bytes of one layer alone are its own, and an empty stack has none.
pub proof fn law_one_layer_bytes<T: MeasuredLayer>(l: T)
    ensures
        stack_memory(seq![l]) == l.memory(),
        full_bytes_upto(seq![l], 1) == l.full_bytes(),
        stack_memory(Seq::<T>::empty()) == (Memory { quantized: 0, lora: 0, total: 0 }),
{
    reveal_with_fuel(memory_upto, 2);
    reveal_with_fuel(full_bytes_upto, 2);
}

proof fn lemma_upto_prefix<T: MeasuredLayer>(s: Seq<T>, t: Seq<T>, n: nat)
    requires
        n <= s.len(),
        n <= t.len(),
        forall|i: int| 0 <= i < n ==> s[i] == t[i],
    ensures
        memory_upto(s, n) == memory_upto(t, n),
        full_bytes_upto(s, n) == full_bytes_upto(t, n),
    decreases n,
{
    if n > 0 {
        lemma_upto_prefix(s, t, (n - 1) as nat);
    }
}

/// The bytes of a quantized Phi layer are those of its adapted projections, each counted once, and
/// in single precision each frozen element would take four.
pub proof fn law_phi_qlora_bytes(layer: PhiQloraDecoderLayer)
    ensures
        MeasuredLayer::memory(layer).quantized
            == layer.self_attn.q_proj.memory().quantized
            + layer.self_attn.k_proj.memory().quantized
            + layer.self_attn.v_proj.memory().quantized
            + layer.self_attn.o_proj.memory().quantized
            + layer.mlp.gate_up_proj.memory().quantized
            + layer.mlp.down_proj.memory().quantized,
        MeasuredLayer::memory(layer).lora
            == layer.self_attn.q_proj.memory().lora
            + layer.self_attn.k_proj.memory().lora
            + layer.self_attn.v_proj.memory().lora
            + layer.self_attn.o_proj.memory().lora
            + layer.mlp.gate_up_proj.memory().lora
            + layer.mlp.down_proj.memory().lora,
        MeasuredLayer::memory(layer).total
            == layer.self_attn.q_proj.memory().total
            + layer.self_attn.k_proj.memory().total
            + layer.self_attn.v_proj.memory().total
            + layer.self_attn.o_proj.memory().total
            + layer.mlp.gate_up_proj.memory().total
            + layer.mlp.down_proj.memory().total,
        MeasuredLayer::full_bytes(layer) == 4 * (
            layer.self_attn.q_proj.frozen() + layer.self_attn.k_proj.frozen()
                + layer.self_attn.v_proj.frozen() + layer.self_attn.o_proj.frozen()
                + layer.mlp.gate_up_proj.frozen() + layer.mlp.down_proj.frozen()
        ),
{
}

/// The bytes of a quantized Qwen3-MoE layer with one MLP are those of its adapted projections, each
/// counted once, and in single precision each frozen element would take four.
pub proof fn law_moe_qlora_dense_bytes(layer: Qwen3MoEQLoraDecoderLayer)
    requires
        layer.ffn is Dense,
    ensures
        MeasuredLayer::memory(layer).quantized
            == layer.self_attn.q_proj.memory().quantized
            + layer.self_attn.k_proj.memory().quantized
            + layer.self_attn.v_proj.memory().quantized
            + layer.self_attn.o_proj.memory().quantized
            + layer.ffn->Dense_0.gate_proj.memory().quantized
            + layer.ffn->Dense_0.up_proj.memory().quantized
            + layer.ffn->Dense_0.down_proj.memory().quantized,
        MeasuredLayer::memory(layer).lora
            == layer.self_attn.q_proj.memory().lora
            + layer.self_attn.k_proj.memory().lora
            + layer.self_attn.v_proj.memory().lora
            + layer.self_attn.o_proj.memory().lora
            + layer.ffn->Dense_0.gate_proj.memory().lora
            + layer.ffn->Dense_0.up_proj.memory().lora
            + layer.ffn->Dense_0.down_proj.memory().lora,
        MeasuredLayer::memory(layer).total
            == layer.self_attn.q_proj.memory().total
            + layer.self_attn.k_proj.memory().total
            + layer.self_attn.v_proj.memory().total
            + layer.self_attn.o_proj.memory().total
            + layer.ffn->Dense_0.gate_proj.memory().total
            + layer.ffn->Dense_0.up_proj.memory().total
            + layer.ffn->Dense_0.down_proj.memory().total,
        MeasuredLayer::full_bytes(layer) == 4 * (
            layer.self_attn.q_proj.frozen() + layer.self_attn.k_proj.frozen()
                + layer.self_attn.v_proj.frozen() + layer.self_attn.o_proj.frozen()
                + layer.ffn->Dense_0.gate_proj.frozen() + layer.ffn->Dense_0.up_proj.frozen()
                + layer.ffn->Dense_0.down_proj.frozen()
        ),
{
}

/// The bytes of a quantized Qwen3-MoE layer with experts are those of its adapted projections, each
/// counted once, and in single precision each frozen element would take four.
pub proof fn law_moe_qlora_sparse_bytes(layer: Qwen3MoEQLoraDecoderLayer)
    requires
        layer.ffn is MoE,
    ensures
        MeasuredLayer::memory(layer).quantized
            == layer.self_attn.q_proj.memory().quantized
            + layer.self_attn.k_proj.memory().quantized
            + layer.self_attn.v_proj.memory().quantized
            + layer.self_attn.o_proj.memory().quantized
            + layer.ffn->MoE_0.gate.memory().quantized,
        MeasuredLayer::memory(layer).lora
            == layer.self_attn.q_proj.memory().lora
            + layer.self_attn.k_proj.memory().lora
            + layer.self_attn.v_proj.memory().lora
            + layer.self_attn.o_proj.memory().lora
            + layer.ffn->MoE_0.gate.memory().lora,
        MeasuredLayer::memory(layer).total
            == layer.self_attn.q_proj.memory().total
            + layer.self_attn.k_proj.memory().total
            + layer.self_attn.v_proj.memory().total
            + layer.self_attn.o_proj.memory().total
            + layer.ffn->MoE_0.gate.memory().total,
        MeasuredLayer::full_bytes(layer) == 4 * (
            layer.self_attn.q_proj.frozen() + layer.self_attn.k_proj.frozen()
                + layer.self_attn.v_proj.frozen() + layer.self_attn.o_proj.frozen()
                + layer.ffn->MoE_0.gate.frozen()
        ),
{
}

/// The bytes of a quantized Nemotron-H block with attention are those of its adapted projections,
/// each counted once, and in single precision each frozen element would take four.
pub proof fn law_nemotron_qlora_attention_bytes(layer: NemotronHQloraBlock)
    requires
        layer.mixer is Attention,
    ensures
        MeasuredLayer::memory(layer).quantized
            == layer.mixer->Attention_0.q_proj.memory().quantized
            + layer.mixer->Attention_0.k_proj.memory().quantized
            + layer.mixer->Attention_0.v_proj.memory().quantized
            + layer.mixer->Attention_0.o_proj.memory().quantized,
        MeasuredLayer::memory(layer).lora
            == layer.mixer->Attention_0.q_proj.memory().lora
            + layer.mixer->Attention_0.k_proj.memory().lora
            + layer.mixer->Attention_0.v_proj.memory().lora
            + layer.mixer->Attention_0.o_proj.memory().lora,
        MeasuredLayer::memory(layer).total
            == layer.mixer->Attention_0.q_proj.memory().total
            + layer.mixer->Attention_0.k_proj.memory().total
            + layer.mixer->Attention_0.v_proj.memory().total
            + layer.mixer->Attention_0.o_proj.memory().total,
        MeasuredLayer::full_bytes(layer) == 4 * (
            layer.mixer->Attention_0.q_proj.frozen() + layer.mixer->Attention_0.k_proj.frozen()
                + layer.mixer->Attention_0.v_proj.frozen()
                + layer.mixer->Attention_0.o_proj.frozen()
        ),
{
}

/// The bytes of a quantized Nemotron-H block with an MLP are those of its adapted projections, each
/// counted once, and in single precision each frozen element would take four.
pub proof fn law_nemotron_qlora_mlp_bytes(layer: NemotronHQloraBlock)
    requires
        layer.mixer is Mlp,
    ensures
        MeasuredLayer::memory(layer).quantized
            == layer.mixer->Mlp_0.up_proj.memory().quantized
            + layer.mixer->Mlp_0.down_proj.memory().quantized,
        MeasuredLayer::memory(layer).lora
            == layer.mixer->Mlp_0.up_proj.memory().lora
            + layer.mixer->Mlp_0.down_proj.memory().lora,
        MeasuredLayer::memory(layer).total
            == layer.mixer->Mlp_0.up_proj.memory().total
            + layer.mixer->Mlp_0.down_proj.memory().total,
        MeasuredLayer::full_bytes(layer) == 4 * (
            layer.mixer->Mlp_0.up_proj.frozen() + layer.mixer->Mlp_0.down_proj.frozen()
        ),
{
}

/// The bytes of a quantized Nemotron-H block with a shared expert are those of its adapted
/// projections, each counted once, and in single precision each frozen element would take four.
pub proof fn law_nemotron_qlora_shared_bytes(layer: NemotronHQloraBlock)
    requires
        layer.mixer is MoE,
        layer.mixer->MoE_0.shared_expert is Some,
    ensures
        MeasuredLayer::memory(layer).quantized
            == layer.mixer->MoE_0.shared_expert->0.up_proj.memory().quantized
            + layer.mixer->MoE_0.shared_expert->0.down_proj.memory().quantized,
        MeasuredLayer::memory(layer).lora
            == layer.mixer->MoE_0.shared_expert->0.up_proj.memory().lora
            + layer.mixer->MoE_0.shared_expert->0.down_proj.memory().lora,
        MeasuredLayer::memory(layer).total
            == layer.mixer->MoE_0.shared_expert->0.up_proj.memory().total
            + layer.mixer->MoE_0.shared_expert->0.down_proj.memory().total,
        MeasuredLayer::full_bytes(layer) == 4 * (
            layer.mixer->MoE_0.shared_expert->0.up_proj.frozen()
                + layer.mixer->MoE_0.shared_expert->0.down_proj.frozen()
        ),
{
}

/// A block whose mixer has no adapter counts no bytes.
pub proof fn law_nemotron_qlora_frozen_bytes(layer: NemotronHQloraBlock)
    requires
        layer.mixer is Mamba || (layer.mixer matches NemotronHQloraMixer::MoE(m)
            && m.shared_expert is None),
    ensures
        MeasuredLayer::memory(layer) == (Memory { quantized: 0, lora: 0, total: 0 }),
        MeasuredLayer::full_bytes(layer) == 0,
{
}

} // verus!
