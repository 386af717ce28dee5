//! What a hybrid Nemotron-H with quantized weights gives for inputs of fitting shapes.

use crate::array::{Array, attend, mask_fits, reshape};
use crate::attention::rows_of;
use crate::kv_cache::MambaCacheEntry;
use crate::nemotron_h_lora::{NemotronHLoraBlock, NemotronHLoraMixer};
use crate::nemotron_h_lora_laws::{experts_fit, lemma_experts_shape, lemma_mixer_shape, mixer_fits};
use crate::nemotron_h_qlora::{
    NemotronHQloraAttention, NemotronHQloraBlock, NemotronHQloraForCausalLM, NemotronHQloraMLP,
    NemotronHQloraMixer, NemotronHQloraMoE, NemotronHQloraSharedExpert, nemotron_qlora_stack,
};
use crate::qlora::QLoraConfig;
use crate::qwen3_moe_lora_laws::lemma_rows_shape;
use crate::shape::Shape;
use crate::shapes::{
    batch, grouped, is_of, lemma_apply_shape, lemma_attend_shape, lemma_combine_same,
    lemma_embed_shape, lemma_kv_width, lemma_logits_shape, lemma_merge_shape, lemma_qlora_shape,
    lemma_quantized_maps, lemma_rms_norm_fits, lemma_rope_shape, lemma_split_shape,
};
use vstd::prelude::*;

verus! {

impl NemotronHQloraAttention {
    /// The extents of the projections are those of the heads.
    pub open spec fn shaped(self, hidden: i32) -> bool {
        let q = (self.num_heads * self.head_dim) as i32;
        let kv = (self.num_kv_heads * self.head_dim) as i32;
        &&& grouped(self.num_heads, self.num_kv_heads, self.head_dim)
        &&& self.q_proj.maps(hidden, q) && self.k_proj.maps(hidden, kv)
        &&& self.v_proj.maps(hidden, kv) && self.o_proj.maps(q, hidden)
    }
}

proof fn lemma_nemotron_qlora_attention(
    a: NemotronHQloraAttention,
    x: Array,
    mask: Option<Array>,
    b: i32,
    l: i32,
    hidden: i32,
)
    requires
        a.shaped(hidden),
        batch(b, l),
        is_of(x, Shape::D3(b, l, hidden)),
        mask_fits(mask),
    ensures
        is_of(a.output(x, mask), Shape::D3(b, l, hidden)),
{
    broadcast use {lemma_qlora_shape, lemma_rope_shape};

    lemma_kv_width(a.num_heads, a.num_kv_heads, a.head_dim);
    lemma_split_shape(a.q_proj.output(x), b, l, a.num_heads, a.head_dim);
    lemma_split_shape(a.k_proj.output(x), b, l, a.num_kv_heads, a.head_dim);
    lemma_split_shape(a.v_proj.output(x), b, l, a.num_kv_heads, a.head_dim);
    let p = a.parts(x, 0);
    lemma_attend_shape(p.0, p.1, p.2, a.fused_config(), mask, b, l, l);
    lemma_merge_shape(
        attend(p.0, p.1, p.2, a.fused_config(), mask),
        b,
        l,
        a.num_heads,
        a.head_dim,
    );
}

impl NemotronHQloraMLP {
    /// The extents of the projections go together.
    pub open spec fn shaped(self, hidden: i32) -> bool {
        let n = self.up_proj.out_features;
        self.up_proj.maps(hidden, n) && self.down_proj.maps(n, hidden)
    }
}

proof fn lemma_nemotron_qlora_mlp(m: NemotronHQloraMLP, x: Array, shape: Shape, hidden: i32)
    requires
        m.shaped(hidden),
        is_of(x, shape),
        shape.rank() >= 2,
        shape.inner() == hidden,
    ensures
        is_of(m.output(x), shape),
{
    broadcast use {lemma_qlora_shape, lemma_apply_shape};

}

impl NemotronHQloraSharedExpert {
    /// The extents of the projections go together.
    pub open spec fn shaped(self, hidden: i32) -> bool {
        let n = self.up_proj.out_features;
        self.up_proj.maps(hidden, n) && self.down_proj.maps(n, hidden)
    }
}

proof fn lemma_nemotron_qlora_shared(
    m: NemotronHQloraSharedExpert,
    x: Array,
    shape: Shape,
    hidden: i32,
)
    requires
        m.shaped(hidden),
        is_of(x, shape),
        shape.rank() >= 2,
        shape.inner() == hidden,
    ensures
        is_of(m.output(x), shape),
{
    broadcast use {lemma_qlora_shape, lemma_apply_shape};

}

impl NemotronHQloraMoE {
    /// The weights fit, and the extents go together.
    pub open spec fn shaped(self, hidden: i32) -> bool {
        &&& self.moe_layer.hidden_size == hidden
        &&& hidden >= 0
        &&& match (self.stacked_moe_up, self.stacked_moe_down) {
            (Some(up), Some(down)) => experts_fit(self.moe_layer, up, down),
            _ => experts_fit(
                self.moe_layer,
                self.moe_layer.up_stack(),
                self.moe_layer.down_stack(),
            ),
        }
        &&& self.shared_expert matches Some(e) ==> e.shaped(hidden)
    }
}

proof fn lemma_nemotron_qlora_moe(m: NemotronHQloraMoE, x: Array, b: i32, l: i32, hidden: i32)
    requires
        m.shaped(hidden),
        batch(b, l),
        b * l <= i32::MAX,
        is_of(x, Shape::D3(b, l, hidden)),
    ensures
        is_of(m.output(x), Shape::D3(b, l, hidden)),
{
    broadcast use lemma_combine_same;

    match (m.stacked_moe_up, m.stacked_moe_down) {
        (Some(up), Some(down)) => {
            lemma_experts_shape(m.moe_layer, x, up, down);
        },
        _ => {
            lemma_experts_shape(
                m.moe_layer,
                x,
                m.moe_layer.up_stack(),
                m.moe_layer.down_stack(),
            );
        },
    }
    match m.shared_expert {
        Some(e) => {
            lemma_rows_shape(x, b, l, hidden);
            lemma_nemotron_qlora_shared(e, rows_of(x), Shape::D2((b * l) as i32, hidden), hidden);
            reveal(reshape);
        },
        None => {},
    }
}

impl NemotronHQloraMixer {
    /// The extents go together.
    pub open spec fn shaped(self, hidden: i32) -> bool {
        match self {
            NemotronHQloraMixer::Mamba(m) => mixer_fits(m),
            NemotronHQloraMixer::Attention(a) => a.shaped(hidden),
            NemotronHQloraMixer::Mlp(m) => m.shaped(hidden),
            NemotronHQloraMixer::MoE(m) => m.shaped(hidden),
        }
    }
}

impl NemotronHQloraBlock {
    /// Mixer and normalization have the extents of the given hidden states.
    pub open spec fn shaped(self, hidden: i32) -> bool {
        self.norm.well_formed(hidden) && self.mixer.shaped(hidden)
    }
}

impl NemotronHQloraForCausalLM {
    /// All parts have the extents of the given vocabulary and hidden states.
    pub open spec fn shaped(self, vocab: i32, hidden: i32) -> bool {
        &&& self.model.embeddings.well_formed(vocab, hidden)
        &&& self.model.norm_f.well_formed(hidden)
        &&& self.lm_head matches Some(h) ==> h.well_formed(hidden, vocab)
        &&& forall|i: int|
            0 <= i < self.model.layers@.len() ==> (#[trigger] self.model.layers@[i]).shaped(hidden)
    }
}

proof fn lemma_nemotron_qlora_stack(
    layers: Seq<NemotronHQloraBlock>,
    n: nat,
    x: Array,
    mask: Option<Array>,
    b: i32,
    l: i32,
    hidden: i32,
)
    requires
        n <= layers.len(),
        forall|i: int| 0 <= i < layers.len() ==> (#[trigger] layers[i]).shaped(hidden),
        batch(b, l),
        b * l <= i32::MAX,
        is_of(x, Shape::D3(b, l, hidden)),
        mask_fits(mask),
    ensures
        is_of(nemotron_qlora_stack(layers, n, x, mask), Shape::D3(b, l, hidden)),
    decreases n,
{
    broadcast use {lemma_combine_same, lemma_rms_norm_fits};

    if n > 0 {
        lemma_nemotron_qlora_stack(layers, (n - 1) as nat, x, mask, b, l, hidden);
        let y = nemotron_qlora_stack(layers, (n - 1) as nat, x, mask);
        let layer = layers[n - 1];
        let normed = layer.norm.output(y);
        match layer.mixer {
            NemotronHQloraMixer::Mamba(m) => {
                lemma_mixer_shape(m, normed, MambaCacheEntry::empty());
            },
            NemotronHQloraMixer::Attention(a) => {
                lemma_nemotron_qlora_attention(a, normed, mask, b, l, hidden);
            },
            NemotronHQloraMixer::Mlp(m) => {
                lemma_nemotron_qlora_mlp(m, normed, Shape::D3(b, l, hidden), hidden);
            },
            NemotronHQloraMixer::MoE(m) => {
                lemma_nemotron_qlora_moe(m, normed, b, l, hidden);
            },
        }
    }
}

/// Token indices `[b, l]` give logits `[b, l, vocab]`: nothing in a model of fitting extents is
/// refused.
pub proof fn law_nemotron_qlora_forward_shape(
    m: NemotronHQloraForCausalLM,
    ids: Array,
    mask: Option<Array>,
    b: i32,
    l: i32,
    vocab: i32,
    hidden: i32,
)
    requires
        m.shaped(vocab, hidden),
        batch(b, l),
        b * l <= i32::MAX,
        is_of(ids, Shape::D2(b, l)),
        mask_fits(mask),
    ensures
        is_of(m.output(ids, mask), Shape::D3(b, l, vocab)),
{
    broadcast use lemma_rms_norm_fits;

    lemma_embed_shape(m.model.embeddings, ids, b, l, vocab, hidden);
    let x = m.model.embeddings.output(ids);
    let layers = m.model.layers@;
    lemma_nemotron_qlora_stack(layers, layers.len(), x, mask, b, l, hidden);
    let h = m.model.output(ids, mask);
    lemma_logits_shape(m.lm_head, m.model.embeddings, h, b, l, vocab, hidden);
}

/// Quantizing a block keeps its extents.
pub proof fn law_nemotron_quantizing_keeps_shape(
    block: NemotronHLoraBlock,
    config: QLoraConfig,
    hidden: i32,
)
    requires
        config.lora.valid(),
        block.shaped(hidden),
    ensures
        NemotronHQloraBlock::of(block, config).shaped(hidden),
{
    match block.mixer {
        NemotronHLoraMixer::Mamba(_) => {},
        NemotronHLoraMixer::Attention(a) => {
            lemma_quantized_maps(
                a.q_proj.weight,
                a.q_proj.bias,
                config,
                a.q_proj.in_features,
                a.q_proj.out_features,
            );
            lemma_quantized_maps(
                a.k_proj.weight,
                a.k_proj.bias,
                config,
                a.k_proj.in_features,
                a.k_proj.out_features,
            );
            lemma_quantized_maps(
                a.v_proj.weight,
                a.v_proj.bias,
                config,
                a.v_proj.in_features,
                a.v_proj.out_features,
            );
            lemma_quantized_maps(
                a.o_proj.weight,
                a.o_proj.bias,
                config,
                a.o_proj.in_features,
                a.o_proj.out_features,
            );
        },
        NemotronHLoraMixer::Mlp(m) => {
            lemma_quantized_maps(
                m.up_proj.weight,
                m.up_proj.bias,
                config,
                m.up_proj.in_features,
                m.up_proj.out_features,
            );
            lemma_quantized_maps(
                m.down_proj.weight,
                m.down_proj.bias,
                config,
                m.down_proj.in_features,
                m.down_proj.out_features,
            );
        },
        NemotronHLoraMixer::MoE(m) => match m.shared_expert {
            Some(e) => {
                lemma_quantized_maps(
                    e.up_proj.weight,
                    e.up_proj.bias,
                    config,
                    e.up_proj.in_features,
                    e.up_proj.out_features,
                );
                lemma_quantized_maps(
                    e.down_proj.weight,
                    e.down_proj.bias,
                    config,
                    e.down_proj.in_features,
                    e.down_proj.out_features,
                );
            },
            None => {},
        },
    }
}

} // verus!
