//! The Qwen3 mixture of experts with adapters: on attention, on dense MLPs, and on the routers of
//! sparse layers. Routed experts stay frozen, which keeps adapters small while training can still
//! move which experts are picked.

use crate::array::{
    Args, Array, AttentionMaskType, FusedAttentionConfig, RopeConfig, attend, lemma_combine_rank,
    lemma_embed_rank, lemma_rms_norm_shape, plus, reshape, rope, swap_middle,
};
use crate::attention::{
    gated, given, make_gated, make_merge_heads_to, make_rows_of, make_split_heads, make_unfit,
    merge_heads_to, rows_of, split_heads, unfit,
};
use crate::config::{
    CheckpointConfig, LoraConfig, checkpointing, effective_rank, make_checkpointing,
};
use crate::error::{LoraError, checked, misfit, outcome};
use crate::evaluation::{EvalLayer, head_evaluated, push_layers, stack_evaluated};
use crate::kv_cache::{KVCache, KVCacheConfig, KVCacheState};
use crate::lora::{Adapter, LoraLinear};
use crate::merging::{
    MergeLayer, MergeSteps, merge_layers, stack_merge_stopped, stack_merged, stops_at,
};
use crate::name_map::NameMap;
use crate::names::{Half, NameStyle, Proj, Section, lemma_lora_name_injective, lora_name};
use crate::nn::{Embedding, Linear, RmsNorm, get_logits_weight, logits, logits_weight, run_logits};
use crate::params::{
    LayerParamMut, LayerParamRef, LoraLayer, ParamMut, ParamRef, Place, adapted_before,
    adapter_refs_mut, assign_adapter, assign_parameters, assigned, at, collect_adapter,
    collect_parameters, count_trainable, half_of, lists_stack, name_at, parameter_map,
    parameter_refs, push_refs, stack_countable, stack_refs_mut, trainable_total, with_named,
};
use crate::params_laws::{law_parameter_lookup, law_parameter_names, names_matrix};
use crate::qwen3_moe::{
    GatedExpert, Qwen3MoE, Qwen3MoEAttention, Qwen3MoEBlock, Qwen3MoEConfig, Qwen3MoEDecoderLayer,
    Qwen3MoEDenseMLP, Qwen3MoEFeedForward, Qwen3MoEModel, StackState, make_routed, restack,
    restacked, routed,
};
use crate::scalar::{F32, Scale};
use crate::shape::Shape;
use vstd::prelude::*;
use vstd::string::*;

verus! {

/// The weight of a linear layer is a matrix, so that an adapter can sit on it.
pub open spec fn adaptable(l: Linear) -> bool {
    l.weight.shape matches Shape::D2(out, inn) && inn >= 0 && out >= 0
}

/// A fresh adapter on a linear layer.
pub open spec fn adapter_on(l: Linear, rank: i32, lora: LoraConfig) -> LoraLinear {
    LoraLinear::on(
        l.weight,
        l.bias,
        l.weight.shape.inner(),
        l.weight.shape.outer(),
        rank,
        lora.alpha,
        lora.use_rslora,
    )
}

pub(crate) fn make_adapter_on(l: &Linear, proj: Proj, lora: &LoraConfig) -> (r: Result<
    LoraLinear,
    LoraError,
>)
    requires
        lora.valid(),
    ensures
        match r {
            Ok(a) => adaptable(*l) && a == adapter_on(*l, lora.rank_of(proj), *lora),
            Err(e) => e is Mlx && !adaptable(*l),
        },
{
    LoraLinear::from_linear(
        &l.weight,
        &l.bias,
        effective_rank(lora, proj),
        lora.alpha,
        lora.use_rslora,
    )
}

/// Attention over normalized queries and keys, with adapters on its four projections.
#[derive(Debug)]
pub struct Qwen3MoELoraAttention {
    pub n_heads: i32,
    pub n_kv_heads: i32,
    pub head_dim: i32,
    pub scale: Scale,
    /// The factor on rotary positions.
    pub rope_scale: F32,
    /// The base of the rotary frequencies.
    pub effective_base: F32,
    pub q_proj: LoraLinear,
    pub k_proj: LoraLinear,
    pub v_proj: LoraLinear,
    pub o_proj: LoraLinear,
    /// Over the features of a head.
    pub q_norm: RmsNorm,
    /// Over the features of a head.
    pub k_norm: RmsNorm,
}

impl Qwen3MoELoraAttention {
    /// Fresh adapters on a frozen layer.
    pub open spec fn over(
        config: Qwen3MoEConfig,
        attn: Qwen3MoEAttention,
        lora: LoraConfig,
    ) -> Qwen3MoELoraAttention {
        Qwen3MoELoraAttention {
            n_heads: config.num_attention_heads,
            n_kv_heads: config.kv_heads(),
            head_dim: config.head_dim,
            scale: Scale::InverseSqrt { n: config.head_dim },
            rope_scale: config.rope_scale,
            effective_base: config.effective_base,
            q_norm: attn.q_norm,
            k_norm: attn.k_norm,
            q_proj: adapter_on(attn.q_proj, lora.rank_of(Proj::Q), lora),
            k_proj: adapter_on(attn.k_proj, lora.rank_of(Proj::K), lora),
            v_proj: adapter_on(attn.v_proj, lora.rank_of(Proj::V), lora),
            o_proj: adapter_on(attn.o_proj, lora.rank_of(Proj::O), lora),
        }
    }

    /// The weights are matrices, so that adapters can sit on them.
    pub open spec fn takes(attn: Qwen3MoEAttention) -> bool {
        adaptable(attn.q_proj) && adaptable(attn.k_proj) && adaptable(attn.v_proj)
            && adaptable(attn.o_proj)
    }

    /// Fresh adapters on a frozen layer. Refused where a weight is no matrix.
    pub fn from_attention(
        config: &Qwen3MoEConfig,
        attn: Qwen3MoEAttention,
        lora_config: &LoraConfig,
    ) -> (r: Result<Qwen3MoELoraAttention, LoraError>)
        requires
            lora_config.valid(),
        ensures
            match r {
                Ok(a) => Qwen3MoELoraAttention::takes(attn)
                    && a == Qwen3MoELoraAttention::over(*config, attn, *lora_config),
                Err(e) => e is Mlx && !Qwen3MoELoraAttention::takes(attn),
            },
    {
        match (
            make_adapter_on(&attn.q_proj, Proj::Q, lora_config),
            make_adapter_on(&attn.k_proj, Proj::K, lora_config),
            make_adapter_on(&attn.v_proj, Proj::V, lora_config),
            make_adapter_on(&attn.o_proj, Proj::O, lora_config),
        ) {
            (Ok(q_proj), Ok(k_proj), Ok(v_proj), Ok(o_proj)) => Ok(
                Qwen3MoELoraAttention {
                    n_heads: config.num_attention_heads,
                    n_kv_heads: config.num_kv_heads(),
                    head_dim: config.head_dim,
                    scale: Scale::InverseSqrt { n: config.head_dim },
                    rope_scale: config.rope_scale,
                    effective_base: config.effective_base,
                    q_norm: attn.q_norm,
                    k_norm: attn.k_norm,
                    q_proj,
                    k_proj,
                    v_proj,
                    o_proj,
                },
            ),
            _ => Err(misfit()),
        }
    }

    pub open spec fn rope(self) -> RopeConfig {
        RopeConfig { dims: self.head_dim, base: self.effective_base, scale: self.rope_scale }
    }

    pub open spec fn queries(self, x: Array) -> Array {
        swap_middle(
            self.q_norm.output(
                reshape(
                    self.q_proj.output(x),
                    Shape::D4(x.shape.outer(), x.shape.second(), self.n_heads, self.head_dim),
                ),
            ),
        )
    }

    pub open spec fn keys(self, x: Array) -> Array {
        swap_middle(
            self.k_norm.output(
                reshape(
                    self.k_proj.output(x),
                    Shape::D4(x.shape.outer(), x.shape.second(), self.n_kv_heads, self.head_dim),
                ),
            ),
        )
    }

    pub open spec fn values(self, x: Array) -> Array {
        split_heads(
            self.v_proj.output(x),
            x.shape.outer(),
            x.shape.second(),
            self.n_kv_heads,
            self.head_dim,
        )
    }

    /// Causal where no mask is given.
    pub open spec fn fused_config(self, mask: Option<Array>) -> FusedAttentionConfig {
        FusedAttentionConfig {
            num_heads: self.n_heads,
            num_kv_heads: self.n_kv_heads,
            head_dim: self.head_dim,
            scale: self.scale,
            mask_type: if mask is Some {
                AttentionMaskType::Unmasked
            } else {
                AttentionMaskType::Causal
            },
        }
    }

    /// The width of all query heads.
    pub open spec fn width(self) -> int {
        self.n_heads * self.head_dim
    }

    /// The width of all query heads fits a machine integer.
    pub open spec fn ready(self) -> bool {
        i32::MIN <= self.width() <= i32::MAX
    }

    /// Fused attention of rotated queries and keys, projected.
    pub open spec fn fused(
        self,
        x: Array,
        q: Array,
        k: Array,
        v: Array,
        mask: Option<Array>,
    ) -> Array {
        let mixed = attend(q, k, v, self.fused_config(mask), mask);
        self.o_proj.output(
            merge_heads_to(mixed, x.shape.outer(), x.shape.second(), self.width() as i32),
        )
    }

    /// Fused attention over the input alone.
    pub open spec fn output(self, x: Array, mask: Option<Array>) -> Array {
        self.fused(
            x,
            rope(self.queries(x), self.rope(), 0),
            rope(self.keys(x), self.rope(), 0),
            self.values(x),
            mask,
        )
    }

    /// Fused attention over what the cache holds and the input, and the cache behind it. An
    /// input that does not fit leaves the cache as it is.
    pub open spec fn cached_output(
        self,
        x: Array,
        mask: Option<Array>,
        cache: KVCacheState,
        layer: int,
    ) -> (Array, KVCacheState) {
        let q = rope(self.queries(x), self.rope(), cache.offset);
        let k = rope(self.keys(x), self.rope(), cache.offset);
        let v = self.values(x);
        if q.fits && k.fits && v.fits && cache.accepts(layer, k, v) {
            let both = cache.joined(layer, k, v);
            (self.fused(x, q, both.0, both.1, mask), cache.extended(layer, k, v))
        } else {
            (self.o_proj.output(unfit(x)), cache)
        }
    }

    pub open spec fn trainable(self) -> nat {
        self.q_proj.trainable() + self.k_proj.trainable() + self.v_proj.trainable()
            + self.o_proj.trainable()
    }

    pub open spec fn countable(self) -> bool {
        self.q_proj.countable() && self.k_proj.countable() && self.v_proj.countable()
            && self.o_proj.countable()
    }

    fn run_queries(&self, x: &Array) -> (r: Array)
        requires
            x.shape.rank() >= 2,
        ensures
            r == self.queries(*x),
    {
        let (batch, length) = x.shape.outer_two();
        let heads = self.q_proj.run(x).reshape(
            Shape::D4(batch, length, self.n_heads, self.head_dim),
        );
        self.q_norm.run(&heads).swap_middle()
    }

    fn run_keys(&self, x: &Array) -> (r: Array)
        requires
            x.shape.rank() >= 2,
        ensures
            r == self.keys(*x),
    {
        let (batch, length) = x.shape.outer_two();
        let heads = self.k_proj.run(x).reshape(
            Shape::D4(batch, length, self.n_kv_heads, self.head_dim),
        );
        self.k_norm.run(&heads).swap_middle()
    }

    fn run_values(&self, x: &Array) -> (r: Array)
        requires
            x.shape.rank() >= 2,
        ensures
            r == self.values(*x),
    {
        let (batch, length) = x.shape.outer_two();
        make_split_heads(&self.v_proj.run(x), batch, length, self.n_kv_heads, self.head_dim)
    }

    fn run_fused(&self, x: &Array, q: &Array, k: &Array, v: &Array, mask: Option<&Array>) -> (r:
        Array)
        requires
            x.shape.rank() >= 2,
            self.ready(),
        ensures
            r == self.fused(*x, *q, *k, *v, given(mask)),
    {
        let (batch, length) = x.shape.outer_two();
        let config = FusedAttentionConfig {
            num_heads: self.n_heads,
            num_kv_heads: self.n_kv_heads,
            head_dim: self.head_dim,
            scale: self.scale,
            mask_type: match mask {
                Some(_) => AttentionMaskType::Unmasked,
                None => AttentionMaskType::Causal,
            },
        };
        let mixed = q.attend(k, v, config, mask);
        let width: i32 = self.n_heads * self.head_dim;
        self.o_proj.run(&make_merge_heads_to(&mixed, batch, length, width))
    }

    fn make_rope(&self) -> (r: RopeConfig)
        ensures
            r == self.rope(),
    {
        RopeConfig { dims: self.head_dim, base: self.effective_base, scale: self.rope_scale }
    }

    pub(crate) fn run(&self, x: &Array, mask: Option<&Array>) -> (r: Array)
        requires
            x.shape.rank() >= 2,
            self.ready(),
        ensures
            r == self.output(*x, given(mask)),
    {
        let rope = self.make_rope();
        let q = self.run_queries(x).rope(rope, 0);
        let k = self.run_keys(x).rope(rope, 0);
        let v = self.run_values(x);
        self.run_fused(x, &q, &k, &v, mask)
    }

    pub(crate) fn run_cached(
        &self,
        x: &Array,
        mask: Option<&Array>,
        cache: &mut KVCache,
        layer: usize,
    ) -> (r: Array)
        requires
            x.shape.rank() >= 2,
            self.ready(),
        ensures
            (r, final(cache)@) == self.cached_output(*x, given(mask), old(cache)@, layer as int),
    {
        let rope = self.make_rope();
        let offset = cache.rope_offset();
        let q = self.run_queries(x).rope(rope, offset);
        let k = self.run_keys(x).rope(rope, offset);
        let v = self.run_values(x);
        if q.fits && k.fits && v.fits {
            match cache.update_and_fetch(layer, &k, &v) {
                Ok((keys, values)) => {
                    return self.run_fused(x, &q, &keys, &values, mask);
                },
                Err(_) => {},
            }
        }
        self.o_proj.run(&make_unfit(x))
    }

    /// Fused attention over what the cache holds for the layer and the input; without a cache,
    /// over the input alone.
    pub fn forward(
        &self,
        x: &Array,
        mask: Option<&Array>,
        cache: Option<(&mut KVCache, usize)>,
    ) -> (r:
        Result<Array, LoraError>)
        requires
            x.shape.rank() >= 2,
            self.ready(),
        ensures
            match cache {
                Some(c) => {
                    let end = self.cached_output(*x, given(mask), c.0@, c.1 as int);
                    outcome(r, end.0) && final(c.0)@ == end.1
                },
                None => outcome(r, self.output(*x, given(mask))),
            },
    {
        match cache {
            Some((c, layer)) => checked(self.run_cached(x, mask, c, layer)),
            None => checked(self.run(x, mask)),
        }
    }

    /// The number of trainable elements.
    pub fn num_trainable_params(&self) -> (r: usize)
        requires
            self.countable(),
            self.trainable() <= usize::MAX,
        ensures
            r == self.trainable(),
    {
        self.q_proj.num_trainable_params() + self.k_proj.num_trainable_params()
            + self.v_proj.num_trainable_params() + self.o_proj.num_trainable_params()
    }
}

/// SwiGLU MLP with adapters on its three projections.
#[derive(Debug)]
pub struct Qwen3MoELoraDenseMLP {
    pub gate_proj: LoraLinear,
    pub up_proj: LoraLinear,
    pub down_proj: LoraLinear,
}

impl Qwen3MoELoraDenseMLP {
    /// Fresh adapters on a frozen layer.
    pub open spec fn over(mlp: Qwen3MoEDenseMLP, lora: LoraConfig) -> Qwen3MoELoraDenseMLP {
        Qwen3MoELoraDenseMLP {
            gate_proj: adapter_on(mlp.gate_proj, lora.rank_of(Proj::Gate), lora),
            up_proj: adapter_on(mlp.up_proj, lora.rank_of(Proj::Up), lora),
            down_proj: adapter_on(mlp.down_proj, lora.rank_of(Proj::Down), lora),
        }
    }

    /// The weights are matrices, so that adapters can sit on them.
    pub open spec fn takes(mlp: Qwen3MoEDenseMLP) -> bool {
        adaptable(mlp.gate_proj) && adaptable(mlp.up_proj) && adaptable(mlp.down_proj)
    }

    /// Fresh adapters on a frozen layer. Refused where a weight is no matrix.
    pub fn from_mlp(
        mlp: Qwen3MoEDenseMLP,
        lora_config: &LoraConfig,
    ) -> (r: Result<Qwen3MoELoraDenseMLP, LoraError>)
        requires
            lora_config.valid(),
        ensures
            match r {
                Ok(a) => Qwen3MoELoraDenseMLP::takes(mlp)
                    && a == Qwen3MoELoraDenseMLP::over(mlp, *lora_config),
                Err(e) => e is Mlx && !Qwen3MoELoraDenseMLP::takes(mlp),
            },
    {
        match (
            make_adapter_on(&mlp.gate_proj, Proj::Gate, lora_config),
            make_adapter_on(&mlp.up_proj, Proj::Up, lora_config),
            make_adapter_on(&mlp.down_proj, Proj::Down, lora_config),
        ) {
            (Ok(gate_proj), Ok(up_proj), Ok(down_proj)) => Ok(
                Qwen3MoELoraDenseMLP {
                    gate_proj,
                    up_proj,
                    down_proj,
                },
            ),
            _ => Err(misfit()),
        }
    }

    pub open spec fn output(self, x: Array) -> Array {
        self.down_proj.output(gated(self.gate_proj.output(x), self.up_proj.output(x)))
    }

    pub open spec fn trainable(self) -> nat {
        self.gate_proj.trainable() + self.up_proj.trainable() + self.down_proj.trainable()
    }

    pub open spec fn countable(self) -> bool {
        self.gate_proj.countable() && self.up_proj.countable() && self.down_proj.countable()
    }

    pub(crate) fn run(&self, x: &Array) -> (r: Array)
        ensures
            r == self.output(*x),
    {
        let gate = self.gate_proj.run(x);
        let up = self.up_proj.run(x);
        self.down_proj.run(&make_gated(&gate, &up))
    }

    /// The layer's output.
    pub fn forward(&self, x: &Array) -> (r: Result<Array, LoraError>)
        ensures
            outcome(r, self.output(*x)),
    {
        checked(self.run(x))
    }

    /// The number of trainable elements.
    pub fn num_trainable_params(&self) -> (r: usize)
        requires
            self.countable(),
            self.trainable() <= usize::MAX,
        ensures
            r == self.trainable(),
    {
        self.gate_proj.num_trainable_params() + self.up_proj.num_trainable_params()
            + self.down_proj.num_trainable_params()
    }
}

/// Frozen experts behind a router with an adapter.
#[derive(Debug)]
pub struct Qwen3MoELoraMoEBlock {
    /// How many experts a token goes to.
    pub top_k: usize,
    /// Whether the weights of the picked experts are made to sum to one.
    pub norm_topk_prob: bool,
    /// The router.
    pub gate: LoraLinear,
    pub experts: Vec<GatedExpert>,
    /// The experts' gate weights, transposed, one behind the other.
    pub stacked_gate_proj: Option<Array>,
    /// The experts' up weights, transposed, one behind the other.
    pub stacked_up_proj: Option<Array>,
    /// The experts' down weights, transposed, one behind the other.
    pub stacked_down_proj: Option<Array>,
    /// The weights that the stacks were made from.
    pub stacked_weight_signature: Option<Args>,
}

impl Qwen3MoELoraMoEBlock {
    /// Fresh adapters on a frozen layer.
    pub open spec fn over(block: Qwen3MoEBlock, lora: LoraConfig) -> Qwen3MoELoraMoEBlock {
        Qwen3MoELoraMoEBlock {
            top_k: block.top_k,
            norm_topk_prob: block.norm_topk_prob,
            experts: block.experts,
            stacked_gate_proj: block.stacked_gate_proj,
            stacked_up_proj: block.stacked_up_proj,
            stacked_down_proj: block.stacked_down_proj,
            stacked_weight_signature: block.stacked_weight_signature,
            gate: adapter_on(block.gate, lora.rank_of(Proj::Router), lora),
        }
    }

    /// The weights are matrices, so that adapters can sit on them.
    pub open spec fn takes(block: Qwen3MoEBlock) -> bool {
        adaptable(block.gate)
    }

    /// Fresh adapters on a frozen layer. Refused where a weight is no matrix.
    pub fn from_block(
        block: Qwen3MoEBlock,
        lora_config: &LoraConfig,
    ) -> (r: Result<Qwen3MoELoraMoEBlock, LoraError>)
        requires
            lora_config.valid(),
        ensures
            match r {
                Ok(a) => Qwen3MoELoraMoEBlock::takes(block)
                    && a == Qwen3MoELoraMoEBlock::over(block, *lora_config),
                Err(e) => e is Mlx && !Qwen3MoELoraMoEBlock::takes(block),
            },
    {
        match make_adapter_on(&block.gate, Proj::Router, lora_config) {
            Ok(gate) => Ok(
                Qwen3MoELoraMoEBlock {
                    top_k: block.top_k,
                    norm_topk_prob: block.norm_topk_prob,
                    experts: block.experts,
                    stacked_gate_proj: block.stacked_gate_proj,
                    stacked_up_proj: block.stacked_up_proj,
                    stacked_down_proj: block.stacked_down_proj,
                    stacked_weight_signature: block.stacked_weight_signature,
                    gate,
                },
            ),
            Err(e) => Err(e),
        }
    }

    pub open spec fn stacks(self) -> StackState {
        (
            self.stacked_gate_proj,
            self.stacked_up_proj,
            self.stacked_down_proj,
            self.stacked_weight_signature,
        )
    }

    pub open spec fn with_stacks(self, s: StackState) -> Qwen3MoELoraMoEBlock {
        Qwen3MoELoraMoEBlock {
            stacked_gate_proj: s.0,
            stacked_up_proj: s.1,
            stacked_down_proj: s.2,
            stacked_weight_signature: s.3,
            ..self
        }
    }

    /// The block with its experts stacked, anew where their weights have changed.
    pub open spec fn stacked_up(self) -> Qwen3MoELoraMoEBlock {
        self.with_stacks(restacked(self.stacks(), self.experts@))
    }

    /// The block behind a use of it: its experts are stacked.
    pub open spec fn ready_made(self) -> Qwen3MoELoraMoEBlock {
        self.stacked_up()
    }

    /// The weighted outputs of the experts that the router picks, from the current stacks.
    pub open spec fn output(self, x: Array) -> Array {
        let s = restacked(self.stacks(), self.experts@);
        routed(
            x,
            self.gate.output(rows_of(x)),
            self.top_k as i32,
            self.norm_topk_prob,
            (s.0->0, s.1->0, s.2->0),
        )
    }

    /// There are experts, and the number of picked ones fits an extent.
    pub open spec fn ready(self) -> bool {
        self.experts@.len() > 0 && self.top_k <= i32::MAX
    }

    pub open spec fn trainable(self) -> nat {
        self.gate.trainable()
    }

    pub open spec fn countable(self) -> bool {
        self.gate.countable()
    }

    /// Stacks the experts' weights where no stack of them is at hand.
    pub fn ensure_stacked_moe(&mut self)
        requires
            old(self).experts@.len() > 0,
        ensures
            *final(self) == old(self).stacked_up(),
    {
        restack(
            &mut self.stacked_gate_proj,
            &mut self.stacked_up_proj,
            &mut self.stacked_down_proj,
            &mut self.stacked_weight_signature,
            &self.experts,
        );
    }

    pub(crate) fn run(&mut self, x: &Array) -> (r: Array)
        requires
            old(self).ready(),
        ensures
            r == old(self).output(*x),
            *final(self) == old(self).ready_made(),
    {
        self.ensure_stacked_moe();
        let rows = make_rows_of(x);
        let scores = self.gate.run(&rows);
        match (&self.stacked_gate_proj, &self.stacked_up_proj, &self.stacked_down_proj) {
            (Some(g), Some(u), Some(d)) => make_routed(
                x,
                &rows,
                &scores,
                self.top_k as i32,
                self.norm_topk_prob,
                g,
                u,
                d,
            ),
            _ => make_unfit(x),
        }
    }

    /// The weighted outputs of the experts that the router picks.
    pub fn forward(&mut self, x: &Array) -> (r: Result<Array, LoraError>)
        requires
            old(self).ready(),
        ensures
            outcome(r, old(self).output(*x)),
            *final(self) == old(self).ready_made(),
    {
        checked(self.run(x))
    }

    /// The number of trainable elements: those of the router's adapter.
    pub fn num_trainable_params(&self) -> (r: usize)
        requires
            self.countable(),
            self.trainable() <= usize::MAX,
        ensures
            r == self.trainable(),
    {
        self.gate.num_trainable_params()
    }
}

/// What follows attention in a layer: an MLP, or routed experts.
#[derive(Debug)]
pub enum Qwen3MoELoraFeedForward {
    Dense(Qwen3MoELoraDenseMLP),
    MoE(Qwen3MoELoraMoEBlock),
}

impl Qwen3MoELoraFeedForward {
    /// Fresh adapters on a frozen layer.
    pub open spec fn over(ffn: Qwen3MoEFeedForward, lora: LoraConfig) -> Qwen3MoELoraFeedForward {
        match ffn {
            Qwen3MoEFeedForward::Dense(m) => Qwen3MoELoraFeedForward::Dense(
                Qwen3MoELoraDenseMLP::over(m, lora)
            ),
            Qwen3MoEFeedForward::MoE(b) => Qwen3MoELoraFeedForward::MoE(
                Qwen3MoELoraMoEBlock::over(b, lora)
            ),
        }
    }

    /// The weights are matrices, so that adapters can sit on them.
    pub open spec fn takes(ffn: Qwen3MoEFeedForward) -> bool {
        match ffn {
            Qwen3MoEFeedForward::Dense(m) => Qwen3MoELoraDenseMLP::takes(m),
            Qwen3MoEFeedForward::MoE(b) => Qwen3MoELoraMoEBlock::takes(b),
        }
    }

    pub open spec fn output(self, x: Array) -> Array {
        match self {
            Qwen3MoELoraFeedForward::Dense(m) => m.output(x),
            Qwen3MoELoraFeedForward::MoE(b) => b.output(x),
        }
    }

    /// The layer behind a use of it.
    pub open spec fn ready_made(self) -> Qwen3MoELoraFeedForward {
        match self {
            Qwen3MoELoraFeedForward::Dense(m) => Qwen3MoELoraFeedForward::Dense(m),
            Qwen3MoELoraFeedForward::MoE(b) => Qwen3MoELoraFeedForward::MoE(b.ready_made()),
        }
    }

    pub open spec fn ready(self) -> bool {
        self matches Qwen3MoELoraFeedForward::MoE(b) ==> b.ready()
    }

    pub open spec fn trainable(self) -> nat {
        match self {
            Qwen3MoELoraFeedForward::Dense(m) => m.trainable(),
            Qwen3MoELoraFeedForward::MoE(b) => b.trainable(),
        }
    }

    pub open spec fn countable(self) -> bool {
        match self {
            Qwen3MoELoraFeedForward::Dense(m) => m.countable(),
            Qwen3MoELoraFeedForward::MoE(b) => b.countable(),
        }
    }

    pub(crate) fn run(&mut self, x: &Array) -> (r: Array)
        requires
            old(self).ready(),
        ensures
            r == old(self).output(*x),
            *final(self) == old(self).ready_made(),
    {
        match self {
            Qwen3MoELoraFeedForward::Dense(m) => m.run(x),
            Qwen3MoELoraFeedForward::MoE(b) => b.run(x),
        }
    }

    /// The layer's output.
    pub fn forward(&mut self, x: &Array) -> (r: Result<Array, LoraError>)
        requires
            old(self).ready(),
        ensures
            outcome(r, old(self).output(*x)),
            *final(self) == old(self).ready_made(),
    {
        checked(self.run(x))
    }

    /// The number of trainable elements.
    pub fn num_trainable_params(&self) -> (r: usize)
        requires
            self.countable(),
            self.trainable() <= usize::MAX,
        ensures
            r == self.trainable(),
    {
        match self {
            Qwen3MoELoraFeedForward::Dense(m) => m.num_trainable_params(),
            Qwen3MoELoraFeedForward::MoE(b) => b.num_trainable_params(),
        }
    }
}

/// Attention and what follows it, each behind a normalization and beside a residual connection.
#[derive(Debug)]
pub struct Qwen3MoELoraDecoderLayer {
    pub self_attn: Qwen3MoELoraAttention,
    pub input_layernorm: RmsNorm,
    pub post_attention_layernorm: RmsNorm,
    pub ffn: Qwen3MoELoraFeedForward,
}

impl Qwen3MoELoraDecoderLayer {
    /// Fresh adapters on a frozen layer.
    pub open spec fn over(
        config: Qwen3MoEConfig,
        layer: Qwen3MoEDecoderLayer,
        lora: LoraConfig,
    ) -> Qwen3MoELoraDecoderLayer {
        Qwen3MoELoraDecoderLayer {
            self_attn: Qwen3MoELoraAttention::over(config, layer.self_attn, lora),
            input_layernorm: layer.input_layernorm,
            post_attention_layernorm: layer.post_attention_layernorm,
            ffn: Qwen3MoELoraFeedForward::over(layer.ffn, lora),
        }
    }

    /// The weights are matrices, so that adapters can sit on them.
    pub open spec fn takes(layer: Qwen3MoEDecoderLayer) -> bool {
        Qwen3MoELoraAttention::takes(layer.self_attn) && Qwen3MoELoraFeedForward::takes(layer.ffn)
    }

    /// Fresh adapters on a frozen layer. Refused where a weight is no matrix.
    pub fn from_layer(
        config: &Qwen3MoEConfig,
        layer: Qwen3MoEDecoderLayer,
        lora_config: &LoraConfig,
    ) -> (r: Result<Qwen3MoELoraDecoderLayer, LoraError>)
        requires
            lora_config.valid(),
        ensures
            match r {
                Ok(l) => Qwen3MoELoraDecoderLayer::takes(layer)
                    && l == Qwen3MoELoraDecoderLayer::over(*config, layer, *lora_config),
                Err(e) => e is Mlx && !Qwen3MoELoraDecoderLayer::takes(layer),
            },
    {
        let ffn = match layer.ffn {
            Qwen3MoEFeedForward::Dense(m) => match Qwen3MoELoraDenseMLP::from_mlp(m, lora_config) {
                Ok(m) => Qwen3MoELoraFeedForward::Dense(m),
                Err(e) => {
                    return Err(e);
                },
            },
            Qwen3MoEFeedForward::MoE(b) => match Qwen3MoELoraMoEBlock::from_block(b, lora_config) {
                Ok(b) => Qwen3MoELoraFeedForward::MoE(b),
                Err(e) => {
                    return Err(e);
                },
            },
        };
        match Qwen3MoELoraAttention::from_attention(config, layer.self_attn, lora_config) {
            Ok(self_attn) => Ok(
                Qwen3MoELoraDecoderLayer {
                    self_attn,
                    input_layernorm: layer.input_layernorm,
                    post_attention_layernorm: layer.post_attention_layernorm,
                    ffn,
                },
            ),
            Err(e) => Err(e),
        }
    }

    /// The layer behind a use of it.
    pub open spec fn ready_made(self) -> Qwen3MoELoraDecoderLayer {
        Qwen3MoELoraDecoderLayer { ffn: self.ffn.ready_made(), ..self }
    }

    /// The rest of the layer, on top of an input to which attention was added.
    pub open spec fn finish(self, h: Array) -> Array {
        plus(h, self.ffn.output(self.post_attention_layernorm.output(h)))
    }

    pub open spec fn output(self, x: Array, mask: Option<Array>) -> Array {
        self.finish(plus(x, self.self_attn.output(self.input_layernorm.output(x), mask)))
    }

    pub open spec fn cached_output(
        self,
        x: Array,
        mask: Option<Array>,
        cache: KVCacheState,
        layer: int,
    ) -> (Array, KVCacheState) {
        let end = self.self_attn.cached_output(self.input_layernorm.output(x), mask, cache, layer);
        (self.finish(plus(x, end.0)), end.1)
    }

    pub open spec fn ready(self) -> bool {
        self.self_attn.ready() && self.ffn.ready()
    }

    fn run_finish(&mut self, h: &Array) -> (r: Array)
        requires
            old(self).ffn.ready(),
        ensures
            r == old(self).finish(*h),
            r.shape.rank() >= h.shape.rank(),
            *final(self) == (
                Qwen3MoELoraDecoderLayer { ffn: old(self).ffn.ready_made(), ..*old(self) }
            ),
    {
        broadcast use lemma_combine_rank;

        let normed = self.post_attention_layernorm.run(h);
        h.add(&self.ffn.run(&normed))
    }

    pub(crate) fn run(&mut self, x: &Array, mask: Option<&Array>) -> (r: Array)
        requires
            x.shape.rank() >= 2,
            old(self).ready(),
        ensures
            r == old(self).output(*x, given(mask)),
            r.shape.rank() >= x.shape.rank(),
            *final(self) == old(self).ready_made(),
    {
        broadcast use {lemma_rms_norm_shape, lemma_combine_rank};

        let normed = self.input_layernorm.run(x);
        let mixed = self.self_attn.run(&normed, mask);
        self.run_finish(&x.add(&mixed))
    }

    pub(crate) fn run_cached(
        &mut self,
        x: &Array,
        mask: Option<&Array>,
        cache: &mut KVCache,
        layer: usize,
    ) -> (r: Array)
        requires
            x.shape.rank() >= 2,
            old(self).ready(),
        ensures
            (r, final(cache)@) == old(self).cached_output(
                *x,
                given(mask),
                old(cache)@,
                layer as int,
            ),
            r.shape.rank() >= x.shape.rank(),
            *final(self) == old(self).ready_made(),
    {
        broadcast use {lemma_rms_norm_shape, lemma_combine_rank};

        let normed = self.input_layernorm.run(x);
        let mixed = self.self_attn.run_cached(&normed, mask, cache, layer);
        self.run_finish(&x.add(&mixed))
    }

    /// The layer's output over what the cache holds for it and the input; without a cache, over
    /// the input alone.
    pub fn forward(
        &mut self,
        x: &Array,
        mask: Option<&Array>,
        cache: Option<(&mut KVCache, usize)>,
    ) -> (r: Result<Array, LoraError>)
        requires
            x.shape.rank() >= 2,
            old(self).ready(),
        ensures
            match cache {
                Some(c) => {
                    let end = old(self).cached_output(*x, given(mask), c.0@, c.1 as int);
                    outcome(r, end.0) && final(c.0)@ == end.1
                },
                None => outcome(r, old(self).output(*x, given(mask))),
            },
            *final(self) == old(self).ready_made(),
    {
        match cache {
            Some((c, layer)) => checked(self.run_cached(x, mask, c, layer)),
            None => checked(self.run(x, mask)),
        }
    }

    /// The number of trainable elements.
    pub fn num_trainable_params(&self) -> (r: usize)
        requires
            self.countable(),
            LoraLayer::trainable(*self) <= usize::MAX,
        ensures
            r == LoraLayer::trainable(*self),
    {
        self.self_attn.num_trainable_params() + self.ffn.num_trainable_params()
    }
}

impl LoraLayer for Qwen3MoELoraDecoderLayer {
    open spec fn places(self) -> Seq<Place> {
        match self.ffn {
            Qwen3MoELoraFeedForward::Dense(_) => seq![
                at(Section::SelfAttn, Proj::Q), at(Section::SelfAttn, Proj::K),
                at(Section::SelfAttn, Proj::V), at(Section::SelfAttn, Proj::O),
                at(Section::Mlp, Proj::Gate), at(Section::Mlp, Proj::Up),
                at(Section::Mlp, Proj::Down)
            ],
            Qwen3MoELoraFeedForward::MoE(_) => seq![
                at(Section::SelfAttn, Proj::Q), at(Section::SelfAttn, Proj::K),
                at(Section::SelfAttn, Proj::V), at(Section::SelfAttn, Proj::O),
                at(Section::Mlp, Proj::Router)
            ],
        }
    }

    open spec fn matrices(self) -> Seq<Array> {
        match self.ffn {
            Qwen3MoELoraFeedForward::Dense(m) => seq![
                self.self_attn.q_proj.a(), self.self_attn.q_proj.b(), self.self_attn.k_proj.a(),
                self.self_attn.k_proj.b(), self.self_attn.v_proj.a(), self.self_attn.v_proj.b(),
                self.self_attn.o_proj.a(), self.self_attn.o_proj.b(), m.gate_proj.a(),
                m.gate_proj.b(), m.up_proj.a(), m.up_proj.b(), m.down_proj.a(), m.down_proj.b()
            ],
            Qwen3MoELoraFeedForward::MoE(b) => seq![
                self.self_attn.q_proj.a(), self.self_attn.q_proj.b(), self.self_attn.k_proj.a(),
                self.self_attn.k_proj.b(), self.self_attn.v_proj.a(), self.self_attn.v_proj.b(),
                self.self_attn.o_proj.a(), self.self_attn.o_proj.b(), b.gate.a(), b.gate.b()
            ],
        }
    }

    open spec fn with_matrices(self, m: Seq<Array>) -> Qwen3MoELoraDecoderLayer {
        let w = m;
        Qwen3MoELoraDecoderLayer {
            self_attn: Qwen3MoELoraAttention {
                q_proj: self.self_attn.q_proj.with(w[0], w[1]),
                k_proj: self.self_attn.k_proj.with(w[2], w[3]),
                v_proj: self.self_attn.v_proj.with(w[4], w[5]),
                o_proj: self.self_attn.o_proj.with(w[6], w[7]),
                ..self.self_attn
            },
            ffn: match self.ffn {
                Qwen3MoELoraFeedForward::Dense(m) => Qwen3MoELoraFeedForward::Dense(
                    Qwen3MoELoraDenseMLP {
                        gate_proj: m.gate_proj.with(w[8], w[9]),
                        up_proj: m.up_proj.with(w[10], w[11]),
                        down_proj: m.down_proj.with(w[12], w[13]),
                    }
                ),
                Qwen3MoELoraFeedForward::MoE(b) => Qwen3MoELoraFeedForward::MoE(
                    Qwen3MoELoraMoEBlock { gate: b.gate.with(w[8], w[9]), ..b }
                ),
            },
            ..self
        }
    }

    open spec fn trainable(self) -> nat {
        self.self_attn.trainable() + self.ffn.trainable()
    }

    open spec fn countable(self) -> bool {
        self.self_attn.countable() && self.ffn.countable()
    }

    #[verifier::rlimit(60)]
    proof fn lemma_layer(self, m: Seq<Array>) {
        match self.ffn {
            Qwen3MoELoraFeedForward::Dense(_) => {
                assert(self.with_matrices(m).matrices() =~= m);
            },
            Qwen3MoELoraFeedForward::MoE(_) => {
                assert(self.with_matrices(m).matrices() =~= m);
            },
        }
    }

    #[verifier::rlimit(60)]
    fn collect(&self, params: &mut NameMap<Array>, style: NameStyle, layer: usize) {
        proof {
            reveal_with_fuel(with_named, 15);
        }
        collect_adapter(&self.self_attn.q_proj, params, style, layer, Section::SelfAttn, Proj::Q);
        collect_adapter(&self.self_attn.k_proj, params, style, layer, Section::SelfAttn, Proj::K);
        collect_adapter(&self.self_attn.v_proj, params, style, layer, Section::SelfAttn, Proj::V);
        collect_adapter(&self.self_attn.o_proj, params, style, layer, Section::SelfAttn, Proj::O);
        match &self.ffn {
            Qwen3MoELoraFeedForward::Dense(m) => {
                collect_adapter(&m.gate_proj, params, style, layer, Section::Mlp, Proj::Gate);
                collect_adapter(&m.up_proj, params, style, layer, Section::Mlp, Proj::Up);
                collect_adapter(&m.down_proj, params, style, layer, Section::Mlp, Proj::Down);
            },
            Qwen3MoELoraFeedForward::MoE(b) => {
                collect_adapter(&b.gate, params, style, layer, Section::Mlp, Proj::Router);
            },
        }
    }

    fn assign(&mut self, params: &NameMap<Array>, style: NameStyle, layer: usize) {
        assign_adapter(
            &mut self.self_attn.q_proj,
            params,
            style,
            layer,
            Section::SelfAttn,
            Proj::Q,
        );
        assign_adapter(
            &mut self.self_attn.k_proj,
            params,
            style,
            layer,
            Section::SelfAttn,
            Proj::K,
        );
        assign_adapter(
            &mut self.self_attn.v_proj,
            params,
            style,
            layer,
            Section::SelfAttn,
            Proj::V,
        );
        assign_adapter(
            &mut self.self_attn.o_proj,
            params,
            style,
            layer,
            Section::SelfAttn,
            Proj::O,
        );
        match &mut self.ffn {
            Qwen3MoELoraFeedForward::Dense(m) => {
                assign_adapter(&mut m.gate_proj, params, style, layer, Section::Mlp, Proj::Gate);
                assign_adapter(&mut m.up_proj, params, style, layer, Section::Mlp, Proj::Up);
                assign_adapter(&mut m.down_proj, params, style, layer, Section::Mlp, Proj::Down);
            },
            Qwen3MoELoraFeedForward::MoE(b) => {
                assign_adapter(&mut b.gate, params, style, layer, Section::Mlp, Proj::Router);
            },
        }
    }

    fn refs<'a>(&'a self) -> (r: Vec<ParamRef<'a>>) {
        let mut r: Vec<ParamRef<'a>> = Vec::new();
        push_refs(&self.self_attn.q_proj, Section::SelfAttn, Proj::Q, &mut r);
        push_refs(&self.self_attn.k_proj, Section::SelfAttn, Proj::K, &mut r);
        push_refs(&self.self_attn.v_proj, Section::SelfAttn, Proj::V, &mut r);
        push_refs(&self.self_attn.o_proj, Section::SelfAttn, Proj::O, &mut r);
        match &self.ffn {
            Qwen3MoELoraFeedForward::Dense(m) => {
                push_refs(&m.gate_proj, Section::Mlp, Proj::Gate, &mut r);
                push_refs(&m.up_proj, Section::Mlp, Proj::Up, &mut r);
                push_refs(&m.down_proj, Section::Mlp, Proj::Down, &mut r);
            },
            Qwen3MoELoraFeedForward::MoE(b) => {
                push_refs(&b.gate, Section::Mlp, Proj::Router, &mut r);
            },
        }
        r
    }

    fn refs_mut<'a>(&'a mut self) -> (r: Vec<ParamMut<'a>>) {
        let mut r: Vec<ParamMut<'a>> = Vec::new();
        let (a, b) = adapter_refs_mut(&mut self.self_attn.q_proj, Section::SelfAttn, Proj::Q);
        r.push(a);
        r.push(b);
        let (a, b) = adapter_refs_mut(&mut self.self_attn.k_proj, Section::SelfAttn, Proj::K);
        r.push(a);
        r.push(b);
        let (a, b) = adapter_refs_mut(&mut self.self_attn.v_proj, Section::SelfAttn, Proj::V);
        r.push(a);
        r.push(b);
        let (a, b) = adapter_refs_mut(&mut self.self_attn.o_proj, Section::SelfAttn, Proj::O);
        r.push(a);
        r.push(b);
        match &mut self.ffn {
            Qwen3MoELoraFeedForward::Dense(m) => {
                let (a, b) = adapter_refs_mut(&mut m.gate_proj, Section::Mlp, Proj::Gate);
                r.push(a);
                r.push(b);
                let (a, b) = adapter_refs_mut(&mut m.up_proj, Section::Mlp, Proj::Up);
                r.push(a);
                r.push(b);
                let (a, b) = adapter_refs_mut(&mut m.down_proj, Section::Mlp, Proj::Down);
                r.push(a);
                r.push(b);
            },
            Qwen3MoELoraFeedForward::MoE(e) => {
                let (a, b) = adapter_refs_mut(&mut e.gate, Section::Mlp, Proj::Router);
                r.push(a);
                r.push(b);
            },
        }
        r
    }

    fn count(&self) -> (r: usize) {
        self.num_trainable_params()
    }
}

impl MergeSteps for Qwen3MoELoraDecoderLayer {
    open spec fn merge_steps(self) -> nat {
        match self.ffn {
            Qwen3MoELoraFeedForward::Dense(_) => 7,
            Qwen3MoELoraFeedForward::MoE(_) => 5,
        }
    }

    open spec fn can_merge(self, k: int) -> bool {
        if k == 0 {
            self.self_attn.q_proj.mergeable()
        } else if k == 1 {
            self.self_attn.k_proj.mergeable()
        } else if k == 2 {
            self.self_attn.v_proj.mergeable()
        } else if k == 3 {
            self.self_attn.o_proj.mergeable()
        } else {
            match self.ffn {
                Qwen3MoELoraFeedForward::Dense(m) => {
                    if k == 4 {
                        m.gate_proj.mergeable()
                    } else if k == 5 {
                        m.up_proj.mergeable()
                    } else {
                        m.down_proj.mergeable()
                    }
                },
                Qwen3MoELoraFeedForward::MoE(b) => b.gate.mergeable(),
            }
        }
    }

    open spec fn merged_first(self, k: int) -> Qwen3MoELoraDecoderLayer {
        Qwen3MoELoraDecoderLayer {
            self_attn: Qwen3MoELoraAttention {
                q_proj: if k > 0 {
                    self.self_attn.q_proj.merge_result()
                } else {
                    self.self_attn.q_proj
                },
                k_proj: if k > 1 {
                    self.self_attn.k_proj.merge_result()
                } else {
                    self.self_attn.k_proj
                },
                v_proj: if k > 2 {
                    self.self_attn.v_proj.merge_result()
                } else {
                    self.self_attn.v_proj
                },
                o_proj: if k > 3 {
                    self.self_attn.o_proj.merge_result()
                } else {
                    self.self_attn.o_proj
                },
                ..self.self_attn
            },
            ffn: match self.ffn {
                Qwen3MoELoraFeedForward::Dense(m) => Qwen3MoELoraFeedForward::Dense(
                    Qwen3MoELoraDenseMLP {
                        gate_proj: if k > 4 { m.gate_proj.merge_result() } else { m.gate_proj },
                        up_proj: if k > 5 { m.up_proj.merge_result() } else { m.up_proj },
                        down_proj: if k > 6 { m.down_proj.merge_result() } else { m.down_proj },
                    }
                ),
                Qwen3MoELoraFeedForward::MoE(b) => Qwen3MoELoraFeedForward::MoE(
                    Qwen3MoELoraMoEBlock {
                        gate: if k > 4 { b.gate.merge_result() } else { b.gate },
                        ..b
                    }
                ),
            },
            ..self
        }
    }
}

impl MergeLayer for Qwen3MoELoraDecoderLayer {
    fn merge_all(&mut self) -> (r: Result<(), LoraError>) {
        let ghost was = *self;
        if self.self_attn.q_proj.merge().is_err() {
            assert(stops_at(was, 0));
            return Err(misfit());
        }
        if self.self_attn.k_proj.merge().is_err() {
            assert(stops_at(was, 1));
            return Err(misfit());
        }
        if self.self_attn.v_proj.merge().is_err() {
            assert(stops_at(was, 2));
            return Err(misfit());
        }
        if self.self_attn.o_proj.merge().is_err() {
            assert(stops_at(was, 3));
            return Err(misfit());
        }
        match &mut self.ffn {
            Qwen3MoELoraFeedForward::Dense(m) => {
                if m.gate_proj.merge().is_err() {
                    assert(stops_at(was, 4));
                    return Err(misfit());
                }
                if m.up_proj.merge().is_err() {
                    assert(stops_at(was, 5));
                    return Err(misfit());
                }
                if m.down_proj.merge().is_err() {
                    assert(stops_at(was, 6));
                    return Err(misfit());
                }
            },
            Qwen3MoELoraFeedForward::MoE(b) => {
                if b.gate.merge().is_err() {
                    assert(stops_at(was, 4));
                    return Err(misfit());
                }
            },
        }
        Ok(())
    }
}

impl EvalLayer for Qwen3MoELoraDecoderLayer {
    open spec fn evaluated(self) -> Seq<Array> {
        seq![
            self.input_layernorm.weight, self.post_attention_layernorm.weight,
            self.self_attn.q_proj.weight, self.self_attn.k_proj.weight,
            self.self_attn.v_proj.weight, self.self_attn.o_proj.weight,
            self.self_attn.q_proj.lora_a, self.self_attn.q_proj.lora_b,
            self.self_attn.k_proj.lora_a, self.self_attn.k_proj.lora_b,
            self.self_attn.v_proj.lora_a, self.self_attn.v_proj.lora_b,
            self.self_attn.o_proj.lora_a, self.self_attn.o_proj.lora_b,
            self.self_attn.q_norm.weight, self.self_attn.k_norm.weight
        ] + match self.ffn {
            Qwen3MoELoraFeedForward::Dense(m) => seq![
                m.gate_proj.weight, m.up_proj.weight, m.down_proj.weight, m.gate_proj.lora_a,
                m.gate_proj.lora_b, m.up_proj.lora_a, m.up_proj.lora_b, m.down_proj.lora_a,
                m.down_proj.lora_b
            ],
            Qwen3MoELoraFeedForward::MoE(b) => present(b.stacked_gate_proj)
                + present(b.stacked_up_proj) + present(
                b.stacked_down_proj,
            ) + seq![b.gate.weight, b.gate.lora_a, b.gate.lora_b],
        }
    }

    fn push_evaluated(&self, out: &mut Vec<Array>) {
        out.push(self.input_layernorm.weight.clone());
        out.push(self.post_attention_layernorm.weight.clone());
        out.push(self.self_attn.q_proj.weight.clone());
        out.push(self.self_attn.k_proj.weight.clone());
        out.push(self.self_attn.v_proj.weight.clone());
        out.push(self.self_attn.o_proj.weight.clone());
        out.push(self.self_attn.q_proj.lora_a.clone());
        out.push(self.self_attn.q_proj.lora_b.clone());
        out.push(self.self_attn.k_proj.lora_a.clone());
        out.push(self.self_attn.k_proj.lora_b.clone());
        out.push(self.self_attn.v_proj.lora_a.clone());
        out.push(self.self_attn.v_proj.lora_b.clone());
        out.push(self.self_attn.o_proj.lora_a.clone());
        out.push(self.self_attn.o_proj.lora_b.clone());
        out.push(self.self_attn.q_norm.weight.clone());
        out.push(self.self_attn.k_norm.weight.clone());
        match &self.ffn {
            Qwen3MoELoraFeedForward::Dense(m) => {
                out.push(m.gate_proj.weight.clone());
                out.push(m.up_proj.weight.clone());
                out.push(m.down_proj.weight.clone());
                out.push(m.gate_proj.lora_a.clone());
                out.push(m.gate_proj.lora_b.clone());
                out.push(m.up_proj.lora_a.clone());
                out.push(m.up_proj.lora_b.clone());
                out.push(m.down_proj.lora_a.clone());
                out.push(m.down_proj.lora_b.clone());
            },
            Qwen3MoELoraFeedForward::MoE(b) => {
                push_present(&b.stacked_gate_proj, out);
                push_present(&b.stacked_up_proj, out);
                push_present(&b.stacked_down_proj, out);
                out.push(b.gate.weight.clone());
                out.push(b.gate.lora_a.clone());
                out.push(b.gate.lora_b.clone());
            },
        }
        assert(out@ =~= old(out)@ + self.evaluated());
    }
}

/// The embeddings, the layers and the last normalization.
#[derive(Debug)]
pub struct Qwen3MoELoraModel {
    pub config: Qwen3MoEConfig,
    pub embed_tokens: Embedding,
    pub layers: Vec<Qwen3MoELoraDecoderLayer>,
    pub norm: RmsNorm,
}

/// The output of the first `n` layers, one behind the other.
pub open spec fn moe_lora_stack(
    layers: Seq<Qwen3MoELoraDecoderLayer>,
    n: nat,
    x: Array,
    mask: Option<Array>,
) -> Array
    decreases n,
{
    if n == 0 {
        x
    } else {
        layers[n - 1].output(moe_lora_stack(layers, (n - 1) as nat, x, mask), mask)
    }
}

/// The output of the first `n` layers over a cache, and the cache behind them.
pub open spec fn moe_lora_cached_stack(
    layers: Seq<Qwen3MoELoraDecoderLayer>,
    n: nat,
    x: Array,
    mask: Option<Array>,
    cache: KVCacheState,
) -> (Array, KVCacheState)
    decreases n,
{
    if n == 0 {
        (x, cache)
    } else {
        let before = moe_lora_cached_stack(layers, (n - 1) as nat, x, mask, cache);
        layers[n - 1].cached_output(before.0, mask, before.1, n - 1)
    }
}

/// Each layer has fitting extents.
pub open spec fn moe_lora_ready(layers: Seq<Qwen3MoELoraDecoderLayer>) -> bool {
    forall|i: int| 0 <= i < layers.len() ==> (#[trigger] layers[i]).ready()
}

impl Qwen3MoELoraModel {
    /// The hidden states behind the last normalization.
    pub open spec fn output(self, ids: Array, mask: Option<Array>) -> Array {
        self.norm.output(
            moe_lora_stack(self.layers@, self.layers@.len(), self.embed_tokens.output(ids), mask),
        )
    }

    pub open spec fn cached_output(self, ids: Array, mask: Option<Array>, cache: KVCacheState) -> (
        Array,
        KVCacheState,
    ) {
        let end = moe_lora_cached_stack(
            self.layers@,
            self.layers@.len(),
            self.embed_tokens.output(ids),
            mask,
            cache,
        );
        (self.norm.output(end.0), end.1)
    }

    /// The model behind a use of it: each layer is, and nothing else is changed.
    pub open spec fn only_readied(self, after: Qwen3MoELoraModel) -> bool {
        &&& after.config == self.config
        &&& after.embed_tokens == self.embed_tokens
        &&& after.norm == self.norm
        &&& after.layers@.len() == self.layers@.len()
        &&& forall|i: int|
            0 <= i < self.layers@.len() ==> #[trigger] after.layers@[i]
                == self.layers@[i].ready_made()
    }

    /// Fresh adapters on a frozen model.
    pub open spec fn is_over(self, base: Qwen3MoEModel, lora: LoraConfig) -> bool {
        &&& self.config == base.config
        &&& self.embed_tokens == base.embed_tokens
        &&& self.norm == base.norm
        &&& self.layers@.len() == base.layers@.len()
        &&& forall|i: int|
            0 <= i < self.layers@.len() ==> #[trigger] self.layers@[i]
                == Qwen3MoELoraDecoderLayer::over(
                base.config,
                base.layers@[i],
                lora,
            )
    }

    /// The weights of all layers are matrices, so that adapters can sit on them.
    pub open spec fn takes(layers: Seq<Qwen3MoEDecoderLayer>) -> bool {
        forall|i: int| 0 <= i < layers.len() ==> Qwen3MoELoraDecoderLayer::takes(
            #[trigger] layers[i]
        )
    }

    /// Fresh adapters on a frozen model. Refused where a weight is no matrix.
    pub fn from_model(
        model: Qwen3MoEModel,
        lora_config: &LoraConfig,
    ) -> (r: Result<Qwen3MoELoraModel, LoraError>)
        requires
            lora_config.valid(),
        ensures
            match r {
                Ok(m) => Qwen3MoELoraModel::takes(model.layers@) && m.is_over(model, *lora_config),
                Err(e) => e is Mlx && !Qwen3MoELoraModel::takes(model.layers@),
            },
    {
        let ghost all = model.layers@;
        let Qwen3MoEModel { config, embed_tokens, layers: mut rest, norm } = model;
        let n = rest.len();
        let mut back: Vec<Qwen3MoELoraDecoderLayer> = Vec::new();
        while rest.len() > 0
            invariant
                n == all.len(),
                all == model.layers@,
                config == model.config,
                lora_config.valid(),
                rest@.len() + back@.len() == n,
                rest@ == all.take(n - back@.len()),
                forall|j: int|
                    0 <= j < back@.len() ==> {
                        &&& #[trigger] back@[j] == Qwen3MoELoraDecoderLayer::over(
                            config,
                            all[n - 1 - j],
                            *lora_config,
                        )
                        &&& Qwen3MoELoraDecoderLayer::takes(all[n - 1 - j])
                    },
            decreases rest.len(),
        {
            let ghost k = rest@.len() - 1;
            match rest.pop() {
                Some(b) => {
                    assert(b == all[k as int]);
                    match Qwen3MoELoraDecoderLayer::from_layer(&config, b, lora_config) {
                        Ok(q) => {
                            back.push(q);
                        },
                        Err(_) => {
                            assert(!Qwen3MoELoraDecoderLayer::takes(all[k as int]));
                            return Err(misfit());
                        },
                    }
                },
                None => {},
            }
            assert(rest@ =~= all.take(n - back@.len()));
        }
        let mut layers: Vec<Qwen3MoELoraDecoderLayer> = Vec::new();
        let ghost done = back@;
        while back.len() > 0
            invariant
                n == all.len(),
                done.len() == n,
                layers@.len() + back@.len() == n,
                back@ == done.take(n - layers@.len()),
                forall|j: int| 0 <= j < layers@.len() ==> #[trigger] layers@[j] == done[n - 1 - j],
            decreases back.len(),
        {
            match back.pop() {
                Some(q) => {
                    layers.push(q);
                },
                None => {},
            }
            assert(back@ =~= done.take(n - layers@.len()));
        }
        proof {
            assert forall|i: int| 0 <= i < all.len() implies Qwen3MoELoraDecoderLayer::takes(
                #[trigger] all[i]
            ) by {
                assert(
                    done[n - 1 - i] == Qwen3MoELoraDecoderLayer::over(
                        config,
                        all[n - 1 - (n - 1 - i)],
                        *lora_config,
                    )
                );
            }
            assert forall|i: int|
                0 <= i < all.len() implies #[trigger] layers@[i] == Qwen3MoELoraDecoderLayer::over(
                config,
                all[i],
                *lora_config,
            ) by {
                assert(
                    done[n - 1 - i] == Qwen3MoELoraDecoderLayer::over(
                        config,
                        all[n - 1 - (n - 1 - i)],
                        *lora_config,
                    )
                );
            }
        }
        Ok(Qwen3MoELoraModel { config, embed_tokens, layers, norm })
    }

    pub(crate) fn run(&mut self, ids: &Array, mask: Option<&Array>) -> (r: Array)
        requires
            ids.shape.rank() >= 1,
            moe_lora_ready(old(self).layers@),
        ensures
            r == old(self).output(*ids, given(mask)),
            old(self).only_readied(*final(self)),
    {
        broadcast use lemma_embed_rank;

        let mut h = self.embed_tokens.run(ids);
        let ghost x = h;
        let ghost was = self.layers@;
        let mut i: usize = 0;
        while i < self.layers.len()
            invariant
                i <= self.layers.len(),
                was == old(self).layers@,
                moe_lora_ready(was),
                h.shape.rank() >= 2,
                h == moe_lora_stack(was, i as nat, x, given(mask)),
                self.layers@.len() == was.len(),
                forall|j: int| 0 <= j < i ==> #[trigger] self.layers@[j] == was[j].ready_made(),
                forall|j: int| i <= j < was.len() ==> #[trigger] self.layers@[j] == was[j],
                self.config == old(self).config,
                self.embed_tokens == old(self).embed_tokens,
                self.norm == old(self).norm,
            decreases self.layers.len() - i,
        {
            h = self.layers[i].run(&h, mask);
            i = i + 1;
        }
        self.norm.run(&h)
    }

    pub(crate) fn run_cached(
        &mut self,
        ids: &Array,
        mask: Option<&Array>,
        cache: &mut KVCache,
    ) -> (r:
        Array)
        requires
            ids.shape.rank() >= 1,
            moe_lora_ready(old(self).layers@),
        ensures
            (r, final(cache)@) == old(self).cached_output(*ids, given(mask), old(cache)@),
            old(self).only_readied(*final(self)),
    {
        broadcast use lemma_embed_rank;

        let mut h = self.embed_tokens.run(ids);
        let ghost x = h;
        let ghost was = self.layers@;
        let mut i: usize = 0;
        while i < self.layers.len()
            invariant
                i <= self.layers.len(),
                was == old(self).layers@,
                moe_lora_ready(was),
                h.shape.rank() >= 2,
                (h, cache@) == moe_lora_cached_stack(was, i as nat, x, given(mask), old(cache)@),
                self.layers@.len() == was.len(),
                forall|j: int| 0 <= j < i ==> #[trigger] self.layers@[j] == was[j].ready_made(),
                forall|j: int| i <= j < was.len() ==> #[trigger] self.layers@[j] == was[j],
                self.config == old(self).config,
                self.embed_tokens == old(self).embed_tokens,
                self.norm == old(self).norm,
            decreases self.layers.len() - i,
        {
            h = self.layers[i].run_cached(&h, mask, cache, i);
            i = i + 1;
        }
        self.norm.run(&h)
    }

    /// The hidden states over what the cache holds and the input; without a cache, over the
    /// input alone.
    pub fn forward(
        &mut self,
        input_ids: &Array,
        mask: Option<&Array>,
        cache: Option<&mut KVCache>,
    ) -> (r:
        Result<Array, LoraError>)
        requires
            input_ids.shape.rank() >= 1,
            moe_lora_ready(old(self).layers@),
        ensures
            match cache {
                Some(c) => {
                    let end = old(self).cached_output(*input_ids, given(mask), c@);
                    outcome(r, end.0) && final(c)@ == end.1
                },
                None => outcome(r, old(self).output(*input_ids, given(mask))),
            },
            old(self).only_readied(*final(self)),
    {
        match cache {
            Some(c) => checked(self.run_cached(input_ids, mask, c)),
            None => checked(self.run(input_ids, mask)),
        }
    }

    /// The number of trainable elements.
    pub fn num_trainable_params(&self) -> (r: usize)
        requires
            stack_countable(self.layers@),
        ensures
            r == trainable_total(self.layers@),
    {
        count_trainable(&self.layers)
    }
}

/// The model with a head for logits.
#[derive(Debug)]
pub struct Qwen3MoELoraForCausalLM {
    pub model: Qwen3MoELoraModel,
    /// Absent where the embeddings serve as head.
    pub lm_head: Option<Linear>,
    pub lora_config: LoraConfig,
    pub checkpoint_config: Option<CheckpointConfig>,
}

impl Qwen3MoELoraForCausalLM {
    /// The logits.
    pub open spec fn output(self, ids: Array, mask: Option<Array>) -> Array {
        logits(self.lm_head, self.model.embed_tokens, self.model.output(ids, mask))
    }

    /// The model behind a use of it: each layer is, and nothing else is changed.
    pub open spec fn only_readied(self, after: Qwen3MoELoraForCausalLM) -> bool {
        &&& self.model.only_readied(after.model)
        &&& after.lm_head == self.lm_head
        &&& after.lora_config == self.lora_config
        &&& after.checkpoint_config == self.checkpoint_config
    }

    /// Fresh adapters on a frozen model.
    pub open spec fn is_over(self, base: Qwen3MoE, lora: LoraConfig) -> bool {
        &&& self.model.is_over(base.model, lora)
        &&& self.lm_head == base.lm_head
        &&& self.lora_config == lora
        &&& self.checkpoint_config is None
    }

    /// Fresh adapters on a fresh model of those settings.
    pub open spec fn is_fresh(self, config: Qwen3MoEConfig, lora: LoraConfig) -> bool {
        exists|base: Qwen3MoE| #[trigger] base.is_fresh(config) && self.is_over(base, lora)
    }

    /// Fresh adapters on a frozen model whose experts are stacked.
    pub open spec fn is_over_stacked(self, base: Qwen3MoE, lora: LoraConfig) -> bool {
        &&& self.model.config == base.model.config
        &&& self.model.embed_tokens == base.model.embed_tokens
        &&& self.model.norm == base.model.norm
        &&& self.model.layers@.len() == base.model.layers@.len()
        &&& forall|i: int|
            0 <= i < self.model.layers@.len() ==> #[trigger] self.model.layers@[i]
                == Qwen3MoELoraDecoderLayer::over(
                base.model.config,
                base.model.layers@[i].restacked(),
                lora,
            )
        &&& self.lm_head == base.lm_head
        &&& self.lora_config == lora
        &&& self.checkpoint_config is None
    }

    /// A fresh model. Refused where an extent is negative.
    pub fn new(
        config: Qwen3MoEConfig,
        lora_config: LoraConfig,
    ) -> (r: Result<Qwen3MoELoraForCausalLM, LoraError>)
        requires
            config.valid(),
            lora_config.valid(),
        ensures
            match r {
                Ok(m) => config.buildable() && m.is_fresh(config, lora_config),
                Err(e) => e is Mlx && !config.buildable(),
            },
    {
        match Qwen3MoE::new(config) {
            Ok(base) => {
                let ghost b = base;
                proof {
                    assert forall|i: int|
                        0 <= i < b.model.layers@.len() implies Qwen3MoELoraDecoderLayer::takes(
                        #[trigger] b.model.layers@[i],
                    ) by {
                        assert(b.model.layers@[i].is_fresh(config, i));
                        assert(config.layer_buildable(i));
                    }
                }
                Qwen3MoELoraForCausalLM::from_base(base, lora_config)
            },
            Err(e) => Err(e),
        }
    }

    /// Fresh adapters on a frozen model. Refused where a weight is no matrix.
    pub fn from_base(
        base: Qwen3MoE,
        lora_config: LoraConfig,
    ) -> (r: Result<Qwen3MoELoraForCausalLM, LoraError>)
        requires
            lora_config.valid(),
        ensures
            match r {
                Ok(m) => Qwen3MoELoraModel::takes(base.model.layers@)
                    && m.is_over(base, lora_config),
                Err(e) => e is Mlx && !Qwen3MoELoraModel::takes(base.model.layers@),
            },
    {
        match Qwen3MoELoraModel::from_model(base.model, &lora_config) {
            Ok(model) => Ok(
                Qwen3MoELoraForCausalLM {
                    model,
                    lm_head: base.lm_head,
                    lora_config,
                    checkpoint_config: None,
                },
            ),
            Err(e) => Err(e),
        }
    }

    /// Fresh adapters on a frozen model, its experts stacked. Refused where a weight is no
    /// matrix.
    pub(crate) fn from_loaded_base(base: Qwen3MoE, lora_config: LoraConfig) -> (r: Result<
        Qwen3MoELoraForCausalLM,
        LoraError,
    >)
        requires
            lora_config.valid(),
            moe_base_ready(base.model.layers@),
        ensures
            match r {
                Ok(m) => Qwen3MoELoraModel::takes(base.model.layers@)
                    && m.is_over_stacked(base, lora_config),
                Err(e) => e is Mlx && !Qwen3MoELoraModel::takes(base.model.layers@),
            },
    {
        let mut base = base;
        let ghost was = base.model.layers@;
        base.init_stacked_moe();
        let ghost now = base.model.layers@;
        proof {
            assert forall|i: int| 0 <= i < was.len() implies Qwen3MoELoraDecoderLayer::takes(
                #[trigger] was[i]
            )
                == Qwen3MoELoraDecoderLayer::takes(now[i]) by {
                assert(now[i] == was[i].restacked());
            }
            if Qwen3MoELoraModel::takes(now) {
                assert forall|i: int| 0 <= i < was.len() implies Qwen3MoELoraDecoderLayer::takes(
                    #[trigger] was[i]
                ) by {
                    assert(Qwen3MoELoraDecoderLayer::takes(now[i]));
                }
            }
            if Qwen3MoELoraModel::takes(was) {
                assert forall|i: int| 0 <= i < now.len() implies Qwen3MoELoraDecoderLayer::takes(
                    #[trigger] now[i]
                ) by {
                    assert(Qwen3MoELoraDecoderLayer::takes(was[i]));
                }
            }
        }
        Qwen3MoELoraForCausalLM::from_base(base, lora_config)
    }

    /// Puts fresh adapters on a frozen model in place of the present one, its experts stacked.
    /// Refused where a weight is no matrix; the model is then as it was.
    pub fn load_base(&mut self, base: Qwen3MoE) -> (r: Result<(), LoraError>)
        requires
            old(self).lora_config.valid(),
            moe_base_ready(base.model.layers@),
        ensures
            match r {
                Ok(_) => Qwen3MoELoraModel::takes(base.model.layers@)
                    && final(self).is_over_stacked(
                    base,
                    old(self).lora_config,
                ),
                Err(e) => e is Mlx && !Qwen3MoELoraModel::takes(base.model.layers@)
                    && *final(self) == *old(
                    self,
                ),
            },
    {
        match Qwen3MoELoraForCausalLM::from_loaded_base(base, self.lora_config) {
            Ok(m) => {
                *self = m;
                Ok(())
            },
            Err(e) => Err(e),
        }
    }

    /// Stacks the experts of each layer that has any, and lists the arrays to evaluate before
    /// the first use of the model, in order.
    pub fn eval_all(&mut self) -> (r: Vec<Array>)
        requires
            moe_lora_ready(old(self).model.layers@),
        ensures
            r@ == seq![old(self).model.embed_tokens.weight, old(self).model.norm.weight]
                + head_evaluated(old(self).lm_head) + stack_evaluated(
                final(self).model.layers@,
                final(self).model.layers@.len(),
            ),
            old(self).model.only_readied(final(self).model),
            final(self).lm_head == old(self).lm_head,
            final(self).lora_config == old(self).lora_config,
            final(self).checkpoint_config == old(self).checkpoint_config,
    {
        let ghost was = self.model.layers@;
        let mut i: usize = 0;
        while i < self.model.layers.len()
            invariant
                i <= self.model.layers.len(),
                was == old(self).model.layers@,
                moe_lora_ready(was),
                self.model.layers@.len() == was.len(),
                forall|j: int|
                    0 <= j < i ==> #[trigger] self.model.layers@[j] == was[j].ready_made(),
                forall|j: int| i <= j < was.len() ==> #[trigger] self.model.layers@[j] == was[j],
                self.model.config == old(self).model.config,
                self.model.embed_tokens == old(self).model.embed_tokens,
                self.model.norm == old(self).model.norm,
                self.lm_head == old(self).lm_head,
                self.lora_config == old(self).lora_config,
                self.checkpoint_config == old(self).checkpoint_config,
            decreases self.model.layers.len() - i,
        {
            self.model.layers[i].make_ready();
            i = i + 1;
        }
        let mut out: Vec<Array> = Vec::new();
        out.push(self.model.embed_tokens.weight.clone());
        out.push(self.model.norm.weight.clone());
        match &self.lm_head {
            Some(h) => {
                out.push(h.weight.clone());
            },
            None => {},
        }
        assert(out@ =~= seq![self.model.embed_tokens.weight, self.model.norm.weight]
            + head_evaluated(self.lm_head));
        push_layers(&self.model.layers, &mut out);
        out
    }

    /// The logits.
    pub fn forward(
        &mut self,
        input_ids: &Array,
        mask: Option<&Array>,
    ) -> (r: Result<Array, LoraError>)
        requires
            input_ids.shape.rank() >= 1,
            moe_lora_ready(old(self).model.layers@),
        ensures
            outcome(r, old(self).output(*input_ids, given(mask))),
            old(self).only_readied(*final(self)),
    {
        let hidden = self.model.run(input_ids, mask);
        checked(run_logits(&self.lm_head, &self.model.embed_tokens, &hidden))
    }

    /// The logits over what the cache holds and the input; without a cache, over the input alone.
    pub fn forward_with_cache(
        &mut self,
        input_ids: &Array,
        mask: Option<&Array>,
        cache: Option<&mut KVCache>,
    ) -> (r: Result<Array, LoraError>)
        requires
            input_ids.shape.rank() >= 1,
            moe_lora_ready(old(self).model.layers@),
        ensures
            match cache {
                Some(c) => {
                    let end = old(self).model.cached_output(*input_ids, given(mask), c@);
                    outcome(
                        r,
                        logits(old(self).lm_head, old(self).model.embed_tokens, end.0),
                    ) && final(c)@ == end.1
                },
                None => outcome(r, old(self).output(*input_ids, given(mask))),
            },
            old(self).only_readied(*final(self)),
    {
        match cache {
            Some(c) => {
                let hidden = self.model.run_cached(input_ids, mask, c);
                checked(run_logits(&self.lm_head, &self.model.embed_tokens, &hidden))
            },
            None => self.forward(input_ids, mask),
        }
    }

    /// The hidden states from which the logits follow.
    pub fn forward_hidden_states(&mut self, input_ids: &Array, mask: Option<&Array>) -> (r: Result<
        Array,
        LoraError,
    >)
        requires
            input_ids.shape.rank() >= 1,
            moe_lora_ready(old(self).model.layers@),
        ensures
            outcome(r, old(self).model.output(*input_ids, given(mask))),
            old(self).only_readied(*final(self)),
    {
        checked(self.model.run(input_ids, mask))
    }

    /// The same as without noise.
    pub fn forward_noised(
        &mut self,
        input_ids: &Array,
        mask: Option<&Array>,
        _noise_alpha: F32,
    ) -> (r:
        Result<Array, LoraError>)
        requires
            input_ids.shape.rank() >= 1,
            moe_lora_ready(old(self).model.layers@),
        ensures
            outcome(r, old(self).output(*input_ids, given(mask))),
            old(self).only_readied(*final(self)),
    {
        self.forward(input_ids, mask)
    }

    /// The hidden states; positions are those of the sequence.
    pub fn forward_hidden_states_with_positions(
        &mut self,
        input_ids: &Array,
        mask: Option<&Array>,
        _position_ids: &Array,
    ) -> (r: Result<Array, LoraError>)
        requires
            input_ids.shape.rank() >= 1,
            moe_lora_ready(old(self).model.layers@),
        ensures
            outcome(r, old(self).model.output(*input_ids, given(mask))),
            old(self).only_readied(*final(self)),
    {
        self.forward_hidden_states(input_ids, mask)
    }

    /// An empty cache of the model's extents.
    pub fn create_cache(&self, max_seq_len: usize) -> (r: KVCache)
        requires
            self.model.config.num_hidden_layers >= 0,
            self.model.config.kv_heads() >= 0,
            self.model.config.head_dim >= 0,
        ensures
            r@ == KVCacheState::fresh(
                KVCacheConfig {
                    num_layers: self.model.config.num_hidden_layers as usize,
                    max_seq_len,
                    num_kv_heads: self.model.config.kv_heads() as usize,
                    head_dim: self.model.config.head_dim as usize,
                },
            ),
    {
        KVCache::new(
            KVCacheConfig::new(
                self.model.config.num_hidden_layers as usize,
                max_seq_len,
                self.model.config.num_kv_heads() as usize,
                self.model.config.head_dim as usize,
            ),
        )
    }

    /// The weight behind the logits.
    pub fn get_lm_head_weight(&self) -> (r: Option<Array>)
        ensures
            r == Some(logits_weight(self.lm_head, self.model.embed_tokens)),
    {
        Some(get_logits_weight(&self.lm_head, &self.model.embed_tokens))
    }

    pub fn supports_kv_cache(&self) -> (r: bool)
        ensures
            r,
    {
        true
    }

    pub fn config(&self) -> (r: &Qwen3MoEConfig)
        ensures
            *r == self.model.config,
    {
        &self.model.config
    }

    pub fn lora_config(&self) -> (r: &LoraConfig)
        ensures
            *r == self.lora_config,
    {
        &self.lora_config
    }

    /// The model with its layers replaced, and nothing else.
    pub open spec fn only_layers_changed(self, after: Qwen3MoELoraForCausalLM) -> bool {
        &&& after.model.config == self.model.config
        &&& after.model.embed_tokens == self.model.embed_tokens
        &&& after.model.norm == self.model.norm
        &&& after.lm_head == self.lm_head
        &&& after.lora_config == self.lora_config
        &&& after.checkpoint_config == self.checkpoint_config
    }

    /// Merges the adapters into the weights, layer by layer, up to the first that cannot be.
    pub fn merge_lora(&mut self) -> (r: Result<(), LoraError>)
        ensures
            r is Ok ==> stack_merged(old(self).model.layers@, final(self).model.layers@),
            r matches Err(e) ==> e is Mlx && stack_merge_stopped(
                old(self).model.layers@,
                final(self).model.layers@,
            ),
            old(self).only_layers_changed(*final(self)),
    {
        merge_layers(&mut self.model.layers)
    }

    /// Refused: a merge is undone by loading the frozen weights again.
    pub fn unmerge_lora(&mut self) -> (r: Result<(), LoraError>)
        ensures
            r matches Err(LoraError::InvalidState(what)) && what@
                == "unmerge_lora is not supported: reload base model weights to undo a merge"@,
            *final(self) == *old(self),
    {
        Err(
            LoraError::InvalidState(
                String::from_str(
                    "unmerge_lora is not supported: reload base model weights to undo a merge",
                ),
            ),
        )
    }

    /// Switches gradient checkpointing on.
    pub fn enable_gradient_checkpointing(&mut self, layers_per_block: usize)
        ensures
            *final(self) == (Qwen3MoELoraForCausalLM {
                checkpoint_config: Some(checkpointing(layers_per_block)),
                ..*old(self)
            }),
    {
        self.checkpoint_config = Some(make_checkpointing(layers_per_block));
    }

    /// Switches gradient checkpointing off.
    pub fn disable_gradient_checkpointing(&mut self)
        ensures
            *final(self) == (Qwen3MoELoraForCausalLM { checkpoint_config: None, ..*old(self) }),
    {
        self.checkpoint_config = None;
    }

    pub fn supports_gradient_checkpointing(&self) -> (r: bool)
        ensures
            r == false,
    {
        false
    }

    /// The number of trainable elements.
    pub fn num_trainable_params(&self) -> (r: usize)
        requires
            stack_countable(self.model.layers@),
        ensures
            r == trainable_total(self.model.layers@),
    {
        self.model.num_trainable_params()
    }

    /// The number of trainable elements.
    pub fn num_parameters(&self) -> (r: usize)
        requires
            stack_countable(self.model.layers@),
        ensures
            r == trainable_total(self.model.layers@),
    {
        self.model.num_trainable_params()
    }

    /// The matrices of all adapters, under their names.
    pub fn lora_parameters(&self) -> (r: NameMap<Array>)
        ensures
            r@ == parameter_map(NameStyle::Plain, self.model.layers@),
    {
        collect_parameters(&self.model.layers, NameStyle::Plain)
    }

    /// Replaces the adapters' matrices that the map names.
    pub fn set_lora_parameters(&mut self, params: &NameMap<Array>)
        ensures
            final(self).model.layers@ == assigned(
                NameStyle::Plain,
                old(self).model.layers@,
                params@,
            ),
            old(self).only_layers_changed(*final(self)),
    {
        assign_parameters(&mut self.model.layers, params, NameStyle::Plain);
    }

    /// The matrices of the adapters, layer by layer.
    pub fn parameters<'a>(&'a self) -> (r: Vec<LayerParamRef<'a>>)
        ensures
            lists_stack(r@, self.model.layers@),
    {
        parameter_refs(&self.model.layers)
    }

    /// The matrices of the adapters: all of them are trainable.
    pub fn trainable_parameters<'a>(&'a self) -> (r: Vec<LayerParamRef<'a>>)
        ensures
            lists_stack(r@, self.model.layers@),
    {
        parameter_refs(&self.model.layers)
    }

    /// The matrices of the adapters, layer by layer, open to replacement.
    pub fn parameters_mut<'a>(&'a mut self) -> (r: Vec<LayerParamMut<'a>>)
        ensures
            r@.len() == adapted_before(old(self).model.layers@, old(self).model.layers@.len()),
            forall|i: int|
                0 <= i < old(self).model.layers@.len() && (#[trigger] old(
                    self,
                ).model.layers@[i]).matrices().len() > 0 ==> {
                    let g = r@[adapted_before(old(self).model.layers@, i as nat) as int];
                    &&& g.layer == i
                    &&& g.entries@.len() == old(self).model.layers@[i].matrices().len()
                    &&& forall|j: int|
                        0 <= j < g.entries@.len() ==> {
                            &&& (#[trigger] g.entries@[j]).place == old(
                                self,
                            ).model.layers@[i].places()[j / 2]
                            &&& g.entries@[j].half == half_of(j)
                            &&& *g.entries@[j].value == old(self).model.layers@[i].matrices()[j]
                        }
                },
            final(self).model.layers@.len() == old(self).model.layers@.len(),
            forall|i: int|
                #![trigger final(self).model.layers@[i]]
                0 <= i < old(self).model.layers@.len() ==> {
                    let was = old(self).model.layers@[i];
                    let k = adapted_before(old(self).model.layers@, i as nat) as int;
                    &&& was.matrices().len() == 0 ==> final(self).model.layers@[i] == was
                    &&& was.matrices().len() > 0 ==> final(self).model.layers@[i]
                        == was.with_matrices(
                        Seq::new(r@[k].entries@.len(), |j: int| *final(r@[k].entries@[j].value)),
                    )
                },
            old(self).only_layers_changed(*final(self)),
    {
        stack_refs_mut(&mut self.model.layers)
    }

    /// Adapters cannot be frozen.
    pub fn freeze_parameters(&mut self, _recursive: bool)
        ensures
            *final(self) == *old(self),
    {
    }

    /// Adapters are never frozen.
    pub fn unfreeze_parameters(&mut self, _recursive: bool)
        ensures
            *final(self) == *old(self),
    {
    }

    pub fn all_frozen(&self) -> (r: Option<bool>)
        ensures
            r == Some(false),
    {
        Some(false)
    }

    pub fn any_frozen(&self) -> (r: Option<bool>)
        ensures
            r == Some(false),
    {
        Some(false)
    }
}

impl Qwen3MoELoraDecoderLayer {
    fn make_ready(&mut self)
        requires
            old(self).ready(),
        ensures
            *final(self) == old(self).ready_made(),
    {
        match &mut self.ffn {
            Qwen3MoELoraFeedForward::Dense(_) => {},
            Qwen3MoELoraFeedForward::MoE(b) => {
                b.ensure_stacked_moe();
            },
        }
    }
}

/// Each frozen layer has experts where it has routed ones.
pub open spec fn moe_base_ready(layers: Seq<Qwen3MoEDecoderLayer>) -> bool {
    forall|i: int| 0 <= i < layers.len() ==> (#[trigger] layers[i]).ready()
}

/// The array, where there is one.
pub open spec fn present(x: Option<Array>) -> Seq<Array> {
    match x {
        Some(a) => seq![a],
        None => seq![],
    }
}

fn push_present(x: &Option<Array>, out: &mut Vec<Array>)
    ensures
        final(out)@ == old(out)@ + present(*x),
{
    match x {
        Some(a) => {
            out.push(a.clone());
        },
        None => {},
    }
    assert(out@ =~= old(out)@ + present(*x));
}

/// Only the router of a sparse layer has an adapter beside attention: no expert's matrix has a
/// name.
pub proof fn law_sparse_layer_names(
    layers: Seq<Qwen3MoELoraDecoderLayer>,
    i: int,
    proj: Proj,
    half: Half,
)
    requires
        0 <= i < layers.len(),
        layers[i].ffn is MoE,
        half != Half::Magnitude,
    ensures
        parameter_map(NameStyle::Plain, layers).contains_key(
            lora_name(NameStyle::Plain, i as nat, Section::Mlp, proj, half),
        ) <==> proj == Proj::Router,
{
    let key = lora_name(NameStyle::Plain, i as nat, Section::Mlp, proj, half);
    if proj == Proj::Router {
        let j: int = 8 + if half == Half::A {
            0int
        } else {
            1int
        };
        assert(layers[i].places()[4] == at(Section::Mlp, Proj::Router));
        assert(name_at(NameStyle::Plain, i as nat, layers[i].places(), j) == key);
        law_parameter_lookup(NameStyle::Plain, layers, i, j);
    } else {
        law_parameter_names(NameStyle::Plain, layers, key);
        if names_matrix(NameStyle::Plain, layers, key) {
            let (l, m) = choose|l: int, m: int|
                0 <= l < layers.len() && 0 <= m < layers[l].matrices().len() && #[trigger] name_at(
                    NameStyle::Plain,
                    l as nat,
                    layers[l].places(),
                    m,
                ) == key;
            let p = layers[l].places()[m / 2];
            lemma_lora_name_injective(
                NameStyle::Plain,
                l as nat,
                p.section,
                p.proj,
                half_of(m),
                i as nat,
                Section::Mlp,
                proj,
                half,
            );
        }
    }
}

} // verus!
