//! What a hybrid Nemotron-H gives for inputs of fitting shapes.

use crate::array::{Array, args_fit, attend, kernel, mask_fits, reshape, stack_onto, stacked};
use crate::attention::rows_of;
use crate::config::LoraConfig;
use crate::kv_cache::MambaCacheEntry;
use crate::mamba::{NemotronHMixer, conv_bias, conv_weight, linear_bias, linear_weight, norm_weight};
use crate::moe::{MoELayer, down_biases, down_weights, up_biases, up_weights};
use crate::nemotron_h_lora::{
    NemotronHDims, NemotronHLoraAttention, NemotronHLoraBlock, NemotronHLoraForCausalLM,
    NemotronHLoraMLP, NemotronHLoraMixer, NemotronHLoraMoE, NemotronHLoraSharedExpert,
    nemotron_stack,
};
use crate::qwen3_moe_lora_laws::{lemma_rows_shape, lemma_stacked_shape};
use crate::shape::Shape;
use crate::shapes::{
    batch, grouped, is_of, lemma_apply_shape, lemma_attend_shape, lemma_combine_same,
    lemma_embed_shape, lemma_kv_width, lemma_logits_shape, lemma_lora_shape, lemma_merge_shape,
    lemma_rms_norm_fits, lemma_rope_shape, lemma_split_shape,
};
use vstd::prelude::*;

verus! {

/// The weights of a state-space mixer that are there are made of fitting operands.
pub open spec fn mixer_fits(m: NemotronHMixer) -> bool {
    &&& mask_fits(linear_weight(m.in_proj)) && mask_fits(linear_bias(m.in_proj))
    &&& mask_fits(conv_weight(m.conv1d)) && mask_fits(conv_bias(m.conv1d))
    &&& mask_fits(linear_weight(m.out_proj)) && mask_fits(linear_bias(m.out_proj))
    &&& mask_fits(m.a_log) && mask_fits(m.d) && mask_fits(m.dt_bias)
    &&& mask_fits(norm_weight(m.gated_norm))
}

/// A state-space mixer keeps the shape.
pub proof fn lemma_mixer_shape(m: NemotronHMixer, x: Array, state: MambaCacheEntry)
    requires
        mixer_fits(m),
        x.fits,
        x.shape.rank() >= 2,
        mask_fits(state.conv_state),
        mask_fits(state.ssm_state),
    ensures
        is_of(m.output(x, None, state), x.shape),
{
    reveal(kernel);
    reveal_with_fuel(args_fit, 16);
}

/// The weights of frozen experts, stacked, are made of fitting operands.
pub open spec fn experts_fit(m: MoELayer, up: Array, down: Array) -> bool {
    &&& m.router.gate.weight.fits && m.router.e_score_correction_bias.fits
    &&& up.fits && down.fits && m.up_bias_stack().fits && m.down_bias_stack().fits
}

/// Routing keeps the shape.
pub proof fn lemma_experts_shape(m: MoELayer, x: Array, up: Array, down: Array)
    requires
        x.fits,
        x.shape.rank() >= 1,
        x.shape.inner() == m.hidden_size,
        experts_fit(m, up, down),
    ensures
        is_of(m.stacked_output(x, up, down), x.shape),
        up == m.up_stack() && down == m.down_stack() ==> is_of(m.output(x), x.shape),
{
    reveal(kernel);
    reveal_with_fuel(args_fit, 8);
}

impl NemotronHLoraAttention {
    /// The extents of the projections are those of the heads.
    pub open spec fn shaped(self, hidden: i32) -> bool {
        let q = (self.num_heads * self.head_dim) as i32;
        let kv = (self.num_kv_heads * self.head_dim) as i32;
        &&& grouped(self.num_heads, self.num_kv_heads, self.head_dim)
        &&& self.q_proj.maps(hidden, q) && self.k_proj.maps(hidden, kv)
        &&& self.v_proj.maps(hidden, kv) && self.o_proj.maps(q, hidden)
    }
}

proof fn lemma_nemotron_attention(
    a: NemotronHLoraAttention,
    x: Array,
    mask: Option<Array>,
    b: i32,
    l: i32,
    hidden: i32,
)
    requires
        a.shaped(hidden),
        batch(b, l),
        is_of(x, Shape::D3(b, l, hidden)),
        mask_fits(mask),
    ensures
        is_of(a.output(x, mask), Shape::D3(b, l, hidden)),
{
    broadcast use {lemma_lora_shape, lemma_rope_shape};

    lemma_kv_width(a.num_heads, a.num_kv_heads, a.head_dim);
    lemma_split_shape(a.q_proj.output(x), b, l, a.num_heads, a.head_dim);
    lemma_split_shape(a.k_proj.output(x), b, l, a.num_kv_heads, a.head_dim);
    lemma_split_shape(a.v_proj.output(x), b, l, a.num_kv_heads, a.head_dim);
    let p = a.parts(x, 0);
    lemma_attend_shape(p.0, p.1, p.2, a.fused_config(), mask, b, l, l);
    lemma_merge_shape(
        attend(p.0, p.1, p.2, a.fused_config(), mask),
        b,
        l,
        a.num_heads,
        a.head_dim,
    );
}

impl NemotronHLoraMLP {
    /// The extents of the projections go together.
    pub open spec fn shaped(self, hidden: i32) -> bool {
        let n = self.up_proj.out_features;
        self.up_proj.maps(hidden, n) && self.down_proj.maps(n, hidden)
    }
}

proof fn lemma_nemotron_mlp(m: NemotronHLoraMLP, x: Array, shape: Shape, hidden: i32)
    requires
        m.shaped(hidden),
        is_of(x, shape),
        shape.rank() >= 2,
        shape.inner() == hidden,
    ensures
        is_of(m.output(x), shape),
{
    broadcast use {lemma_lora_shape, lemma_apply_shape};

}

impl NemotronHLoraSharedExpert {
    /// The extents of the projections go together.
    pub open spec fn shaped(self, hidden: i32) -> bool {
        let n = self.up_proj.out_features;
        self.up_proj.maps(hidden, n) && self.down_proj.maps(n, hidden)
    }
}

proof fn lemma_nemotron_shared(m: NemotronHLoraSharedExpert, x: Array, shape: Shape, hidden: i32)
    requires
        m.shaped(hidden),
        is_of(x, shape),
        shape.rank() >= 2,
        shape.inner() == hidden,
    ensures
        is_of(m.output(x), shape),
{
    broadcast use {lemma_lora_shape, lemma_apply_shape};

}

impl NemotronHLoraMoE {
    /// The weights fit, and the extents go together.
    pub open spec fn shaped(self, hidden: i32) -> bool {
        &&& self.moe_layer.hidden_size == hidden
        &&& hidden >= 0
        &&& match (self.stacked_moe_up, self.stacked_moe_down) {
            (Some(up), Some(down)) => experts_fit(self.moe_layer, up, down),
            _ => experts_fit(
                self.moe_layer,
                self.moe_layer.up_stack(),
                self.moe_layer.down_stack(),
            ),
        }
        &&& self.shared_expert matches Some(e) ==> e.shaped(hidden)
    }
}

proof fn lemma_nemotron_moe(m: NemotronHLoraMoE, x: Array, b: i32, l: i32, hidden: i32)
    requires
        m.shaped(hidden),
        batch(b, l),
        b * l <= i32::MAX,
        is_of(x, Shape::D3(b, l, hidden)),
    ensures
        is_of(m.output(x), Shape::D3(b, l, hidden)),
{
    broadcast use lemma_combine_same;

    match (m.stacked_moe_up, m.stacked_moe_down) {
        (Some(up), Some(down)) => {
            lemma_experts_shape(m.moe_layer, x, up, down);
        },
        _ => {
            lemma_experts_shape(
                m.moe_layer,
                x,
                m.moe_layer.up_stack(),
                m.moe_layer.down_stack(),
            );
        },
    }
    match m.shared_expert {
        Some(e) => {
            lemma_rows_shape(x, b, l, hidden);
            lemma_nemotron_shared(e, rows_of(x), Shape::D2((b * l) as i32, hidden), hidden);
            reveal(reshape);
        },
        None => {},
    }
}

impl NemotronHLoraMixer {
    /// The extents go together.
    pub open spec fn shaped(self, hidden: i32) -> bool {
        match self {
            NemotronHLoraMixer::Mamba(m) => mixer_fits(m),
            NemotronHLoraMixer::Attention(a) => a.shaped(hidden),
            NemotronHLoraMixer::Mlp(m) => m.shaped(hidden),
            NemotronHLoraMixer::MoE(m) => m.shaped(hidden),
        }
    }
}

impl NemotronHLoraBlock {
    /// Mixer and normalization have the extents of the given hidden states.
    pub open spec fn shaped(self, hidden: i32) -> bool {
        self.norm.well_formed(hidden) && self.mixer.shaped(hidden)
    }
}

impl NemotronHLoraForCausalLM {
    /// All parts have the extents of the given vocabulary and hidden states.
    pub open spec fn shaped(self, vocab: i32, hidden: i32) -> bool {
        &&& self.model.embeddings.well_formed(vocab, hidden)
        &&& self.model.norm_f.well_formed(hidden)
        &&& self.lm_head matches Some(h) ==> h.well_formed(hidden, vocab)
        &&& forall|i: int|
            0 <= i < self.model.layers@.len() ==> (#[trigger] self.model.layers@[i]).shaped(hidden)
    }
}

proof fn lemma_nemotron_stack(
    layers: Seq<NemotronHLoraBlock>,
    n: nat,
    x: Array,
    mask: Option<Array>,
    b: i32,
    l: i32,
    hidden: i32,
)
    requires
        n <= layers.len(),
        forall|i: int| 0 <= i < layers.len() ==> (#[trigger] layers[i]).shaped(hidden),
        batch(b, l),
        b * l <= i32::MAX,
        is_of(x, Shape::D3(b, l, hidden)),
        mask_fits(mask),
    ensures
        is_of(nemotron_stack(layers, n, x, mask), Shape::D3(b, l, hidden)),
    decreases n,
{
    broadcast use {lemma_combine_same, lemma_rms_norm_fits};

    if n > 0 {
        lemma_nemotron_stack(layers, (n - 1) as nat, x, mask, b, l, hidden);
        let y = nemotron_stack(layers, (n - 1) as nat, x, mask);
        let layer = layers[n - 1];
        let normed = layer.norm.output(y);
        match layer.mixer {
            NemotronHLoraMixer::Mamba(m) => {
                lemma_mixer_shape(m, normed, MambaCacheEntry::empty());
            },
            NemotronHLoraMixer::Attention(a) => {
                lemma_nemotron_attention(a, normed, mask, b, l, hidden);
            },
            NemotronHLoraMixer::Mlp(m) => {
                lemma_nemotron_mlp(m, normed, Shape::D3(b, l, hidden), hidden);
            },
            NemotronHLoraMixer::MoE(m) => {
                lemma_nemotron_moe(m, normed, b, l, hidden);
            },
        }
    }
}

/// Token indices `[b, l]` give logits `[b, l, vocab]`: nothing in a model of fitting extents is
/// refused.
pub proof fn law_nemotron_forward_shape(
    m: NemotronHLoraForCausalLM,
    ids: Array,
    mask: Option<Array>,
    b: i32,
    l: i32,
    vocab: i32,
    hidden: i32,
)
    requires
        m.shaped(vocab, hidden),
        batch(b, l),
        b * l <= i32::MAX,
        is_of(ids, Shape::D2(b, l)),
        mask_fits(mask),
    ensures
        is_of(m.output(ids, mask), Shape::D3(b, l, vocab)),
{
    broadcast use lemma_rms_norm_fits;

    lemma_embed_shape(m.model.embeddings, ids, b, l, vocab, hidden);
    let x = m.model.embeddings.output(ids);
    let layers = m.model.layers@;
    lemma_nemotron_stack(layers, layers.len(), x, mask, b, l, hidden);
    let h = m.model.output(ids, mask);
    lemma_logits_shape(m.lm_head, m.model.embeddings, h, b, l, vocab, hidden);
}

proof fn lemma_fresh_experts(m: MoELayer, dims: NemotronHDims)
    requires
        m.is_fresh(dims.router(), dims.hidden_size, dims.expert_size(), dims.mlp_bias),
        NemotronHLoraMoE::buildable(dims),
    ensures
        experts_fit(m, m.up_stack(), m.down_stack()),
{
    let h = dims.hidden_size;
    let n = dims.expert_size();
    let experts = m.experts@;
    assert forall|i: int| 0 <= i < experts.len() implies is_of(
        #[trigger] up_weights(experts)[i],
        Shape::D2(n, h),
    ) by {
        assert(experts[i] == MoELayer::fresh_expert(h, n, dims.mlp_bias));
    }
    assert forall|i: int| 0 <= i < experts.len() implies is_of(
        #[trigger] down_weights(experts)[i],
        Shape::D2(h, n),
    ) by {
        assert(experts[i] == MoELayer::fresh_expert(h, n, dims.mlp_bias));
    }
    assert forall|i: int| 0 <= i < experts.len() implies is_of(
        #[trigger] up_biases(experts, n)[i],
        Shape::D1(n),
    ) by {
        assert(experts[i] == MoELayer::fresh_expert(h, n, dims.mlp_bias));
    }
    assert forall|i: int| 0 <= i < experts.len() implies is_of(
        #[trigger] down_biases(experts, h)[i],
        Shape::D1(h),
    ) by {
        assert(experts[i] == MoELayer::fresh_expert(h, n, dims.mlp_bias));
    }
    lemma_stacked_shape(up_weights(experts), n, h);
    lemma_stacked_shape(down_weights(experts), h, n);
    lemma_stacked_rows(up_biases(experts, n), n);
    lemma_stacked_rows(down_biases(experts, h), h);
}

proof fn lemma_stacked_rows(xs: Seq<Array>, c: i32)
    requires
        xs.len() <= i32::MAX,
        forall|i: int| 0 <= i < xs.len() ==> is_of(#[trigger] xs[i], Shape::D1(c)),
    ensures
        is_of(stacked(xs, Shape::D2(0, c)), Shape::D2(xs.len() as i32, c)),
    decreases xs.len(),
{
    reveal(stack_onto);
    if xs.len() > 0 {
        lemma_stacked_rows(xs.drop_last(), c);
    }
}

/// A fresh block of any kind has fitting extents, where the heads of the settings group evenly.
pub proof fn law_nemotron_fresh_shaped(
    block: NemotronHLoraBlock,
    dims: NemotronHDims,
    lora: LoraConfig,
    kind: char,
)
    requires
        dims.valid(),
        lora.valid(),
        NemotronHLoraBlock::buildable(dims, kind),
        block.is_fresh(dims, lora, kind),
        grouped(dims.num_attention_heads, dims.num_key_value_heads, dims.head_size()),
    ensures
        block.shaped(dims.hidden_size),
{
    lemma_kv_width(dims.num_attention_heads, dims.num_key_value_heads, dims.head_size());
    match block.mixer {
        NemotronHLoraMixer::MoE(m) => {
            lemma_fresh_experts(m.moe_layer, dims);
        },
        _ => {},
    }
}

} // verus!
