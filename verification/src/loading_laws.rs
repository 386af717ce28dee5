//! Frozen weights and adapters keep out of each other's way.

use crate::array::Array;
use crate::dora::LinearAdapter;
use crate::lora::Adapter;
use crate::mistral_lora::MistralLoraDecoderLayer;
use crate::mllama_lora::MllamaLoraDecoderLayer;
use crate::nemotron_h_lora::NemotronHLoraBlock;
use crate::params::LoraLayer;
use crate::phi_lora::PhiLoraDecoderLayer;
use crate::qwen3_lora::Qwen3LoraDecoderLayer;
use crate::qwen3_next_lora::Qwen3NextLoraDecoderLayer;
use crate::weights::loaded_adapter;
use vstd::prelude::*;

verus! {

/// Loading frozen weights into a Mistral layer leaves its adapters as they are, setting its
/// adapters leaves the frozen weights as they are, and so the order of the two is of no matter.
pub proof fn law_mistral_loading_apart(
    layer: MistralLoraDecoderLayer,
    i: nat,
    weights: Map<Seq<char>, Array>,
    m: Seq<Array>,
)
    requires
        m.len() == layer.matrices().len(),
    ensures
        layer.loaded(i, weights).matrices() == layer.matrices(),
        layer.loaded(i, weights).places() == layer.places(),
        layer.with_matrices(m).loaded(i, weights) == layer.loaded(i, weights).with_matrices(m),
{
    let both = layer.loaded(i, weights);
    assert(both.matrices() =~= layer.matrices());
    assert(both.places() =~= layer.places());
}

/// Loading frozen weights into a Qwen3 layer leaves its adapters as they are, setting its
/// adapters leaves the frozen weights as they are, and so the order of the two is of no matter.
pub proof fn law_qwen3_loading_apart(
    layer: Qwen3LoraDecoderLayer,
    i: nat,
    weights: Map<Seq<char>, Array>,
    m: Seq<Array>,
)
    requires
        m.len() == layer.matrices().len(),
    ensures
        layer.loaded(i, weights).matrices() == layer.matrices(),
        layer.loaded(i, weights).places() == layer.places(),
        layer.with_matrices(m).loaded(i, weights) == layer.loaded(i, weights).with_matrices(m),
{
    let both = layer.loaded(i, weights);
    assert(both.matrices() =~= layer.matrices());
    assert(both.places() =~= layer.places());
}

/// Loading frozen weights into a Phi layer leaves its adapters as they are, setting its
/// adapters leaves the frozen weights as they are, and so the order of the two is of no matter.
pub proof fn law_phi_loading_apart(
    layer: PhiLoraDecoderLayer,
    i: nat,
    weights: Map<Seq<char>, Array>,
    m: Seq<Array>,
)
    requires
        m.len() == layer.matrices().len(),
    ensures
        layer.loaded(i, weights).matrices() == layer.matrices(),
        layer.loaded(i, weights).places() == layer.places(),
        layer.with_matrices(m).loaded(i, weights) == layer.loaded(i, weights).with_matrices(m),
{
    let both = layer.loaded(i, weights);
    assert(both.matrices() =~= layer.matrices());
    assert(both.places() =~= layer.places());
}

/// Loading frozen weights into an MLlama layer leaves its adapters as they are, setting its
/// adapters leaves the frozen weights as they are, and so the order of the two is of no matter.
pub proof fn law_mllama_loading_apart(
    layer: MllamaLoraDecoderLayer,
    i: nat,
    weights: Map<Seq<char>, Array>,
    m: Seq<Array>,
)
    requires
        m.len() == layer.matrices().len(),
    ensures
        layer.loaded(i, weights).matrices() == layer.matrices(),
        layer.loaded(i, weights).places() == layer.places(),
        layer.with_matrices(m).loaded(i, weights) == layer.loaded(i, weights).with_matrices(m),
{
    lemma_mllama_loaded_matrices(layer, i, weights);
    lemma_mllama_loaded_set(layer, i, weights, m);
}

broadcast proof fn lemma_loaded_halves(
    l: LinearAdapter,
    weights: Map<Seq<char>, Array>,
    name: Seq<char>,
)
    ensures
        (#[trigger] loaded_adapter(l, weights, name)).a() == l.a(),
        loaded_adapter(l, weights, name).b() == l.b(),
{
}

#[verifier::rlimit(80)]
proof fn lemma_mllama_loaded_matrices(
    layer: MllamaLoraDecoderLayer,
    i: nat,
    weights: Map<Seq<char>, Array>,
)
    ensures
        layer.loaded(i, weights).matrices() == layer.matrices(),
        layer.loaded(i, weights).places() == layer.places(),
{
    broadcast use lemma_loaded_halves;

    let after = layer.loaded(i, weights);
    match layer.cross_attn {
        Some(_) => {
            assert(after.places() =~= layer.places());
            assert(after.matrices() =~= layer.matrices());
        },
        None => {
            assert(after.places() =~= layer.places());
            assert(after.matrices() =~= layer.matrices());
        },
    }
}

proof fn lemma_mllama_loaded_set(
    layer: MllamaLoraDecoderLayer,
    i: nat,
    weights: Map<Seq<char>, Array>,
    m: Seq<Array>,
)
    ensures
        layer.with_matrices(m).loaded(i, weights) == layer.loaded(i, weights).with_matrices(m),
{
    let a = layer.with_matrices(m).loaded(i, weights);
    let b = layer.loaded(i, weights).with_matrices(m);
    assert(a.self_attn == b.self_attn);
    assert(a.mlp == b.mlp);
    assert(a.cross_attn == b.cross_attn);
}

/// Loading frozen weights into a Qwen3-Next layer leaves its adapters as they are, setting its
/// adapters leaves the frozen weights as they are, and so the order of the two is of no matter.
pub proof fn law_qwen3_next_loading_apart(
    layer: Qwen3NextLoraDecoderLayer,
    i: nat,
    weights: Map<Seq<char>, Array>,
    m: Seq<Array>,
)
    requires
        m.len() == layer.matrices().len(),
    ensures
        layer.loaded(i, weights).matrices() == layer.matrices(),
        layer.loaded(i, weights).places() == layer.places(),
        layer.with_matrices(m).loaded(i, weights) == layer.loaded(i, weights).with_matrices(m),
{
    lemma_qwen3_next_loaded_matrices(layer, i, weights);
    lemma_qwen3_next_loaded_set(layer, i, weights, m);
}

proof fn lemma_qwen3_next_loaded_matrices(
    layer: Qwen3NextLoraDecoderLayer,
    i: nat,
    weights: Map<Seq<char>, Array>,
)
    ensures
        layer.loaded(i, weights).matrices() == layer.matrices(),
        layer.loaded(i, weights).places() == layer.places(),
{
    let after = layer.loaded(i, weights);
    match (layer.self_attn, layer.linear_attn) {
        (Some(_), Some(_)) => {
            assert(after.places() =~= layer.places());
            assert(after.matrices() =~= layer.matrices());
        },
        (Some(_), None) => {
            assert(after.places() =~= layer.places());
            assert(after.matrices() =~= layer.matrices());
        },
        (None, Some(_)) => {
            assert(after.places() =~= layer.places());
            assert(after.matrices() =~= layer.matrices());
        },
        (None, None) => {
            assert(after.places() =~= layer.places());
            assert(after.matrices() =~= layer.matrices());
        },
    }
}

proof fn lemma_qwen3_next_loaded_set(
    layer: Qwen3NextLoraDecoderLayer,
    i: nat,
    weights: Map<Seq<char>, Array>,
    m: Seq<Array>,
)
    ensures
        layer.with_matrices(m).loaded(i, weights) == layer.loaded(i, weights).with_matrices(m),
{
    let a = layer.with_matrices(m).loaded(i, weights);
    let b = layer.loaded(i, weights).with_matrices(m);
    assert(a.self_attn == b.self_attn);
    assert(a.linear_attn == b.linear_attn);
    assert(a.mlp == b.mlp);
}

/// Loading frozen weights into a Nemotron-H block leaves its adapters as they are.
pub proof fn law_nemotron_loading_apart(
    block: NemotronHLoraBlock,
    after: NemotronHLoraBlock,
    i: nat,
    listed: char,
    weights: Map<Seq<char>, Array>,
)
    requires
        block.loaded_to(after, i, listed, weights),
    ensures
        after.matrices() == block.matrices(),
        after.places() == block.places(),
{
    assert(after.matrices() =~= block.matrices());
    assert(after.places() =~= block.places());
}

} // verus!
