//! The Qwen3 mixture of experts with adapters on quantized weights: attention, dense MLPs and
//! routers. Routed experts stay frozen in full precision.

use crate::array::{
    Args, Array, AttentionMaskType, FusedAttentionConfig, RopeConfig, attend, lemma_combine_rank,
    lemma_embed_rank, lemma_rms_norm_shape, plus, reshape, rope, swap_middle,
};
use crate::attention::{
    gated, given, make_gated, make_merge_heads_to, make_rows_of, make_split_heads, make_unfit,
    merge_heads_to, rows_of, split_heads, unfit,
};
use crate::config::{CheckpointConfig, LoraConfig, checkpointing, make_checkpointing};
use crate::error::{LoraError, checked, misfit, outcome};
use crate::kv_cache::{KVCache, KVCacheConfig, KVCacheState};
use crate::lora::Adapter;
use crate::memory::{
    MeasuredLayer, Memory, compare_layers, full_bytes_upto, measure_layers, stack_comparable,
    stack_measurable, stack_memory,
};
use crate::name_map::NameMap;
use crate::names::{NameStyle, Proj, Section};
use crate::nn::{Embedding, Linear, RmsNorm, get_logits_weight, logits, logits_weight, run_logits};
use crate::params::{
    LayerParamMut, LayerParamRef, LoraLayer, ParamMut, ParamRef, Place, adapted_before,
    adapter_refs_mut, assign_adapter, assign_parameters, assigned, at, collect_adapter,
    collect_parameters, count_trainable, half_of, lists_stack, parameter_map, parameter_refs,
    push_refs, stack_countable, stack_refs_mut, trainable_total, with_named,
};
use crate::qlora::{QLoraConfig, QLoraLinear, quantize_lora_layer};
use crate::quantization::quantizable;
use crate::qwen3_moe::{
    GatedExpert, Qwen3MoE, Qwen3MoEConfig, Qwen3MoEDecoderLayer, Qwen3MoEFeedForward, StackState,
    make_routed, restack, restacked, routed,
};
use crate::qwen3_moe_lora::{
    Qwen3MoELoraAttention, Qwen3MoELoraDecoderLayer, Qwen3MoELoraDenseMLP, Qwen3MoELoraFeedForward,
    Qwen3MoELoraForCausalLM, Qwen3MoELoraMoEBlock, Qwen3MoELoraModel, moe_base_ready,
};
use crate::scalar::{F32, Scale};
use crate::shape::Shape;
use vstd::prelude::*;
use vstd::string::*;

verus! {

/// Attention over normalized queries and keys, with adapters on its four projections.
#[derive(Debug)]
pub struct Qwen3MoEQLoraAttention {
    pub n_heads: i32,
    pub n_kv_heads: i32,
    pub head_dim: i32,
    pub scale: Scale,
    /// The factor on rotary positions.
    pub rope_scale: F32,
    /// The base of the rotary frequencies.
    pub effective_base: F32,
    pub q_proj: QLoraLinear,
    pub k_proj: QLoraLinear,
    pub v_proj: QLoraLinear,
    pub o_proj: QLoraLinear,
    /// Over the features of a head.
    pub q_norm: RmsNorm,
    /// Over the features of a head.
    pub k_norm: RmsNorm,
}

impl Qwen3MoEQLoraAttention {
    /// The layer after its weights were restored.
    pub open spec fn ready_made(self) -> Qwen3MoEQLoraAttention {
        Qwen3MoEQLoraAttention {
            q_proj: self.q_proj.warmed(),
            k_proj: self.k_proj.warmed(),
            v_proj: self.v_proj.warmed(),
            o_proj: self.o_proj.warmed(),
            ..self
        }
    }

    /// The layer with its weights quantized and with fresh adapters.
    pub open spec fn of(l: Qwen3MoELoraAttention, config: QLoraConfig) -> Qwen3MoEQLoraAttention {
        Qwen3MoEQLoraAttention {
            n_heads: l.n_heads,
            n_kv_heads: l.n_kv_heads,
            head_dim: l.head_dim,
            scale: l.scale,
            rope_scale: l.rope_scale,
            effective_base: l.effective_base,
            q_norm: l.q_norm,
            k_norm: l.k_norm,
            q_proj: QLoraLinear::on(l.q_proj.weight, l.q_proj.bias, config),
            k_proj: QLoraLinear::on(l.k_proj.weight, l.k_proj.bias, config),
            v_proj: QLoraLinear::on(l.v_proj.weight, l.v_proj.bias, config),
            o_proj: QLoraLinear::on(l.o_proj.weight, l.o_proj.bias, config),
        }
    }

    /// The weights of the layer can be quantized.
    pub open spec fn quantizes(l: Qwen3MoELoraAttention, config: QLoraConfig) -> bool {
        quantizable(l.q_proj.weight, config.nf4()) && quantizable(l.k_proj.weight, config.nf4())
            && quantizable(l.v_proj.weight, config.nf4())
            && quantizable(l.o_proj.weight, config.nf4())
    }

    pub(crate) fn from_lora(
        l: Qwen3MoELoraAttention,
        config: &QLoraConfig,
    ) -> (r: Result<Qwen3MoEQLoraAttention, LoraError>)
        requires
            config.lora.valid(),
        ensures
            match r {
                Ok(q) => Qwen3MoEQLoraAttention::quantizes(l, *config)
                    && q == Qwen3MoEQLoraAttention::of(l, *config),
                Err(e) => e is Mlx && !Qwen3MoEQLoraAttention::quantizes(l, *config),
            },
    {
        match (
            quantize_lora_layer(&l.q_proj, config),
            quantize_lora_layer(&l.k_proj, config),
            quantize_lora_layer(&l.v_proj, config),
            quantize_lora_layer(&l.o_proj, config),
        ) {
            (Ok(q_proj), Ok(k_proj), Ok(v_proj), Ok(o_proj)) => Ok(
                Qwen3MoEQLoraAttention {
                    n_heads: l.n_heads,
                    n_kv_heads: l.n_kv_heads,
                    head_dim: l.head_dim,
                    scale: l.scale,
                    rope_scale: l.rope_scale,
                    effective_base: l.effective_base,
                    q_norm: l.q_norm,
                    k_norm: l.k_norm,
                    q_proj,
                    k_proj,
                    v_proj,
                    o_proj,
                },
            ),
            _ => Err(misfit()),
        }
    }

    pub open spec fn rope(self) -> RopeConfig {
        RopeConfig { dims: self.head_dim, base: self.effective_base, scale: self.rope_scale }
    }

    pub open spec fn queries(self, x: Array) -> Array {
        swap_middle(
            self.q_norm.output(
                reshape(
                    self.q_proj.output(x),
                    Shape::D4(x.shape.outer(), x.shape.second(), self.n_heads, self.head_dim),
                ),
            ),
        )
    }

    pub open spec fn keys(self, x: Array) -> Array {
        swap_middle(
            self.k_norm.output(
                reshape(
                    self.k_proj.output(x),
                    Shape::D4(x.shape.outer(), x.shape.second(), self.n_kv_heads, self.head_dim),
                ),
            ),
        )
    }

    pub open spec fn values(self, x: Array) -> Array {
        split_heads(
            self.v_proj.output(x),
            x.shape.outer(),
            x.shape.second(),
            self.n_kv_heads,
            self.head_dim,
        )
    }

    /// Causal where no mask is given.
    pub open spec fn fused_config(self, mask: Option<Array>) -> FusedAttentionConfig {
        FusedAttentionConfig {
            num_heads: self.n_heads,
            num_kv_heads: self.n_kv_heads,
            head_dim: self.head_dim,
            scale: self.scale,
            mask_type: if mask is Some {
                AttentionMaskType::Unmasked
            } else {
                AttentionMaskType::Causal
            },
        }
    }

    /// The width of all query heads.
    pub open spec fn width(self) -> int {
        self.n_heads * self.head_dim
    }

    /// The width of all query heads fits a machine integer.
    pub open spec fn ready(self) -> bool {
        i32::MIN <= self.width() <= i32::MAX
    }

    /// Fused attention of rotated queries and keys, projected.
    pub open spec fn fused(
        self,
        x: Array,
        q: Array,
        k: Array,
        v: Array,
        mask: Option<Array>,
    ) -> Array {
        let mixed = attend(q, k, v, self.fused_config(mask), mask);
        self.o_proj.output(
            merge_heads_to(mixed, x.shape.outer(), x.shape.second(), self.width() as i32),
        )
    }

    /// Fused attention over the input alone.
    pub open spec fn output(self, x: Array, mask: Option<Array>) -> Array {
        self.fused(
            x,
            rope(self.queries(x), self.rope(), 0),
            rope(self.keys(x), self.rope(), 0),
            self.values(x),
            mask,
        )
    }

    /// Fused attention over what the cache holds and the input, and the cache behind it. An
    /// input that does not fit leaves the cache as it is.
    pub open spec fn cached_output(
        self,
        x: Array,
        mask: Option<Array>,
        cache: KVCacheState,
        layer: int,
    ) -> (Array, KVCacheState) {
        let q = rope(self.queries(x), self.rope(), cache.offset);
        let k = rope(self.keys(x), self.rope(), cache.offset);
        let v = self.values(x);
        if q.fits && k.fits && v.fits && cache.accepts(layer, k, v) {
            let both = cache.joined(layer, k, v);
            (self.fused(x, q, both.0, both.1, mask), cache.extended(layer, k, v))
        } else {
            (self.o_proj.output(unfit(x)), cache)
        }
    }

    pub open spec fn trainable(self) -> nat {
        self.q_proj.trainable() + self.k_proj.trainable() + self.v_proj.trainable()
            + self.o_proj.trainable()
    }

    pub open spec fn countable(self) -> bool {
        self.q_proj.countable() && self.k_proj.countable() && self.v_proj.countable()
            && self.o_proj.countable()
    }

    fn run_queries(&mut self, x: &Array) -> (r: Array)
        requires
            x.shape.rank() >= 2,
        ensures
            r == old(self).queries(*x),
            *final(self) == (
                Qwen3MoEQLoraAttention { q_proj: old(self).q_proj.warmed(), ..*old(self) }
            ),
    {
        let (batch, length) = x.shape.outer_two();
        let heads = self.q_proj.run(x).reshape(
            Shape::D4(batch, length, self.n_heads, self.head_dim),
        );
        self.q_norm.run(&heads).swap_middle()
    }

    fn run_keys(&mut self, x: &Array) -> (r: Array)
        requires
            x.shape.rank() >= 2,
        ensures
            r == old(self).keys(*x),
            *final(self) == (
                Qwen3MoEQLoraAttention { k_proj: old(self).k_proj.warmed(), ..*old(self) }
            ),
    {
        let (batch, length) = x.shape.outer_two();
        let heads = self.k_proj.run(x).reshape(
            Shape::D4(batch, length, self.n_kv_heads, self.head_dim),
        );
        self.k_norm.run(&heads).swap_middle()
    }

    fn run_values(&mut self, x: &Array) -> (r: Array)
        requires
            x.shape.rank() >= 2,
        ensures
            r == old(self).values(*x),
            *final(self) == (
                Qwen3MoEQLoraAttention { v_proj: old(self).v_proj.warmed(), ..*old(self) }
            ),
    {
        let (batch, length) = x.shape.outer_two();
        make_split_heads(&self.v_proj.run(x), batch, length, self.n_kv_heads, self.head_dim)
    }

    fn run_fused(&mut self, x: &Array, q: &Array, k: &Array, v: &Array, mask: Option<&Array>) -> (r:
        Array)
        requires
            x.shape.rank() >= 2,
            old(self).ready(),
        ensures
            r == old(self).fused(*x, *q, *k, *v, given(mask)),
            *final(self) == (
                Qwen3MoEQLoraAttention { o_proj: old(self).o_proj.warmed(), ..*old(self) }
            ),
    {
        let (batch, length) = x.shape.outer_two();
        let config = FusedAttentionConfig {
            num_heads: self.n_heads,
            num_kv_heads: self.n_kv_heads,
            head_dim: self.head_dim,
            scale: self.scale,
            mask_type: match mask {
                Some(_) => AttentionMaskType::Unmasked,
                None => AttentionMaskType::Causal,
            },
        };
        let mixed = q.attend(k, v, config, mask);
        let width: i32 = self.n_heads * self.head_dim;
        self.o_proj.run(&make_merge_heads_to(&mixed, batch, length, width))
    }

    fn make_rope(&self) -> (r: RopeConfig)
        ensures
            r == self.rope(),
    {
        RopeConfig { dims: self.head_dim, base: self.effective_base, scale: self.rope_scale }
    }

    pub(crate) fn run(&mut self, x: &Array, mask: Option<&Array>) -> (r: Array)
        requires
            x.shape.rank() >= 2,
            old(self).ready(),
        ensures
            r == old(self).output(*x, given(mask)),
            *final(self) == old(self).ready_made(),
    {
        let rope = self.make_rope();
        let q = self.run_queries(x).rope(rope, 0);
        let k = self.run_keys(x).rope(rope, 0);
        let v = self.run_values(x);
        self.run_fused(x, &q, &k, &v, mask)
    }

    pub(crate) fn run_cached(
        &mut self,
        x: &Array,
        mask: Option<&Array>,
        cache: &mut KVCache,
        layer: usize,
    ) -> (r: Array)
        requires
            x.shape.rank() >= 2,
            old(self).ready(),
        ensures
            (r, final(cache)@) == old(self).cached_output(
                *x,
                given(mask),
                old(cache)@,
                layer as int,
            ),
            *final(self) == old(self).ready_made(),
    {
        let rope = self.make_rope();
        let offset = cache.rope_offset();
        let q = self.run_queries(x).rope(rope, offset);
        let k = self.run_keys(x).rope(rope, offset);
        let v = self.run_values(x);
        if q.fits && k.fits && v.fits {
            match cache.update_and_fetch(layer, &k, &v) {
                Ok((keys, values)) => {
                    return self.run_fused(x, &q, &keys, &values, mask);
                },
                Err(_) => {},
            }
        }
        self.o_proj.run(&make_unfit(x))
    }

    /// Fused attention over what the cache holds for the layer and the input; without a cache,
    /// over the input alone.
    pub fn forward(
        &mut self,
        x: &Array,
        mask: Option<&Array>,
        cache: Option<(&mut KVCache, usize)>,
    ) -> (r:
        Result<Array, LoraError>)
        requires
            x.shape.rank() >= 2,
            old(self).ready(),
        ensures
            match cache {
                Some(c) => {
                    let end = old(self).cached_output(*x, given(mask), c.0@, c.1 as int);
                    outcome(r, end.0) && final(c.0)@ == end.1
                },
                None => outcome(r, old(self).output(*x, given(mask))),
            },
            *final(self) == old(self).ready_made(),
    {
        match cache {
            Some((c, layer)) => checked(self.run_cached(x, mask, c, layer)),
            None => checked(self.run(x, mask)),
        }
    }

    /// The number of trainable elements.
    pub fn num_trainable_params(&self) -> (r: usize)
        requires
            self.countable(),
            self.trainable() <= usize::MAX,
        ensures
            r == self.trainable(),
    {
        self.q_proj.num_trainable_params() + self.k_proj.num_trainable_params()
            + self.v_proj.num_trainable_params() + self.o_proj.num_trainable_params()
    }

    /// Bytes of the quantized weights, of the adapters, and of both and the biases.
    pub open spec fn memory(self) -> Memory {
        self.q_proj.memory().plus(self.k_proj.memory()).plus(self.v_proj.memory()).plus(
            self.o_proj.memory()
        )
    }

    /// Bytes that the frozen elements would take in single precision.
    pub open spec fn full_bytes(self) -> nat {
        self.q_proj.frozen() * 4 + self.k_proj.frozen() * 4 + self.v_proj.frozen() * 4
            + self.o_proj.frozen() * 4
    }

    /// The bytes can be counted.
    pub open spec fn measurable(self) -> bool {
        self.q_proj.measurable() && self.k_proj.measurable() && self.v_proj.measurable()
            && self.o_proj.measurable()
    }

    /// Bytes of the quantized weights, of the adapters, and of both and the biases.
    pub fn memory_usage(&self) -> (r: (usize, usize, usize))
        requires
            self.measurable(),
            self.memory().fits(),
        ensures
            self.memory().is(r),
    {
        let m0 = self.q_proj.memory_usage();
        let m1 = self.k_proj.memory_usage();
        let m2 = self.v_proj.memory_usage();
        let m3 = self.o_proj.memory_usage();
        (m0.0 + m1.0 + m2.0 + m3.0, m0.1 + m1.1 + m2.1 + m3.1, m0.2 + m1.2 + m2.2 + m3.2)
    }

    pub(crate) fn count_full_bytes(&self) -> (r: usize)
        requires
            self.measurable(),
            self.full_bytes() <= usize::MAX,
        ensures
            r == self.full_bytes(),
    {
        self.q_proj.num_frozen_params() * 4 + self.k_proj.num_frozen_params() * 4
            + self.v_proj.num_frozen_params() * 4 + self.o_proj.num_frozen_params() * 4
    }
}

/// SwiGLU MLP with adapters on its three projections.
#[derive(Debug)]
pub struct Qwen3MoEQLoraDenseMLP {
    pub gate_proj: QLoraLinear,
    pub up_proj: QLoraLinear,
    pub down_proj: QLoraLinear,
}

impl Qwen3MoEQLoraDenseMLP {
    /// The layer after its weights were restored.
    pub open spec fn ready_made(self) -> Qwen3MoEQLoraDenseMLP {
        Qwen3MoEQLoraDenseMLP {
            gate_proj: self.gate_proj.warmed(),
            up_proj: self.up_proj.warmed(),
            down_proj: self.down_proj.warmed(),
            ..self
        }
    }

    /// The layer with its weights quantized and with fresh adapters.
    pub open spec fn of(l: Qwen3MoELoraDenseMLP, config: QLoraConfig) -> Qwen3MoEQLoraDenseMLP {
        Qwen3MoEQLoraDenseMLP {
            gate_proj: QLoraLinear::on(l.gate_proj.weight, l.gate_proj.bias, config),
            up_proj: QLoraLinear::on(l.up_proj.weight, l.up_proj.bias, config),
            down_proj: QLoraLinear::on(l.down_proj.weight, l.down_proj.bias, config),
        }
    }

    /// The weights of the layer can be quantized.
    pub open spec fn quantizes(l: Qwen3MoELoraDenseMLP, config: QLoraConfig) -> bool {
        quantizable(l.gate_proj.weight, config.nf4()) && quantizable(l.up_proj.weight, config.nf4())
            && quantizable(l.down_proj.weight, config.nf4())
    }

    pub(crate) fn from_lora(
        l: Qwen3MoELoraDenseMLP,
        config: &QLoraConfig,
    ) -> (r: Result<Qwen3MoEQLoraDenseMLP, LoraError>)
        requires
            config.lora.valid(),
        ensures
            match r {
                Ok(q) => Qwen3MoEQLoraDenseMLP::quantizes(l, *config)
                    && q == Qwen3MoEQLoraDenseMLP::of(l, *config),
                Err(e) => e is Mlx && !Qwen3MoEQLoraDenseMLP::quantizes(l, *config),
            },
    {
        match (
            quantize_lora_layer(&l.gate_proj, config),
            quantize_lora_layer(&l.up_proj, config),
            quantize_lora_layer(&l.down_proj, config),
        ) {
            (Ok(gate_proj), Ok(up_proj), Ok(down_proj)) => Ok(
                Qwen3MoEQLoraDenseMLP {
                    gate_proj,
                    up_proj,
                    down_proj,
                },
            ),
            _ => Err(misfit()),
        }
    }

    pub open spec fn output(self, x: Array) -> Array {
        self.down_proj.output(gated(self.gate_proj.output(x), self.up_proj.output(x)))
    }

    pub open spec fn trainable(self) -> nat {
        self.gate_proj.trainable() + self.up_proj.trainable() + self.down_proj.trainable()
    }

    pub open spec fn countable(self) -> bool {
        self.gate_proj.countable() && self.up_proj.countable() && self.down_proj.countable()
    }

    pub(crate) fn run(&mut self, x: &Array) -> (r: Array)
        ensures
            r == old(self).output(*x),
            *final(self) == old(self).ready_made(),
    {
        let gate = self.gate_proj.run(x);
        let up = self.up_proj.run(x);
        self.down_proj.run(&make_gated(&gate, &up))
    }

    /// The layer's output.
    pub fn forward(&mut self, x: &Array) -> (r: Result<Array, LoraError>)
        ensures
            outcome(r, old(self).output(*x)),
            *final(self) == old(self).ready_made(),
    {
        checked(self.run(x))
    }

    /// The number of trainable elements.
    pub fn num_trainable_params(&self) -> (r: usize)
        requires
            self.countable(),
            self.trainable() <= usize::MAX,
        ensures
            r == self.trainable(),
    {
        self.gate_proj.num_trainable_params() + self.up_proj.num_trainable_params()
            + self.down_proj.num_trainable_params()
    }

    /// Bytes of the quantized weights, of the adapters, and of both and the biases.
    pub open spec fn memory(self) -> Memory {
        self.gate_proj.memory().plus(self.up_proj.memory()).plus(self.down_proj.memory())
    }

    /// Bytes that the frozen elements would take in single precision.
    pub open spec fn full_bytes(self) -> nat {
        self.gate_proj.frozen() * 4 + self.up_proj.frozen() * 4 + self.down_proj.frozen() * 4
    }

    /// The bytes can be counted.
    pub open spec fn measurable(self) -> bool {
        self.gate_proj.measurable() && self.up_proj.measurable() && self.down_proj.measurable()
    }

    /// Bytes of the quantized weights, of the adapters, and of both and the biases.
    pub fn memory_usage(&self) -> (r: (usize, usize, usize))
        requires
            self.measurable(),
            self.memory().fits(),
        ensures
            self.memory().is(r),
    {
        let m0 = self.gate_proj.memory_usage();
        let m1 = self.up_proj.memory_usage();
        let m2 = self.down_proj.memory_usage();
        (m0.0 + m1.0 + m2.0, m0.1 + m1.1 + m2.1, m0.2 + m1.2 + m2.2)
    }

    pub(crate) fn count_full_bytes(&self) -> (r: usize)
        requires
            self.measurable(),
            self.full_bytes() <= usize::MAX,
        ensures
            r == self.full_bytes(),
    {
        self.gate_proj.num_frozen_params() * 4 + self.up_proj.num_frozen_params() * 4
            + self.down_proj.num_frozen_params() * 4
    }
}

/// Frozen experts behind a router with an adapter.
#[derive(Debug)]
pub struct Qwen3MoEQLoraMoEBlock {
    /// How many experts a token goes to.
    pub top_k: usize,
    /// Whether the weights of the picked experts are made to sum to one.
    pub norm_topk_prob: bool,
    /// The router.
    pub gate: QLoraLinear,
    pub experts: Vec<GatedExpert>,
    /// The experts' gate weights, transposed, one behind the other.
    pub stacked_gate_proj: Option<Array>,
    /// The experts' up weights, transposed, one behind the other.
    pub stacked_up_proj: Option<Array>,
    /// The experts' down weights, transposed, one behind the other.
    pub stacked_down_proj: Option<Array>,
    /// The weights that the stacks were made from.
    pub stacked_weight_signature: Option<Args>,
}

impl Qwen3MoEQLoraMoEBlock {
    /// The layer with its weights quantized and with fresh adapters.
    pub open spec fn of(l: Qwen3MoELoraMoEBlock, config: QLoraConfig) -> Qwen3MoEQLoraMoEBlock {
        Qwen3MoEQLoraMoEBlock {
            top_k: l.top_k,
            norm_topk_prob: l.norm_topk_prob,
            experts: l.experts,
            stacked_gate_proj: l.stacked_gate_proj,
            stacked_up_proj: l.stacked_up_proj,
            stacked_down_proj: l.stacked_down_proj,
            stacked_weight_signature: l.stacked_weight_signature,
            gate: QLoraLinear::on(l.gate.weight, l.gate.bias, config),
        }
    }

    /// The weights of the layer can be quantized.
    pub open spec fn quantizes(l: Qwen3MoELoraMoEBlock, config: QLoraConfig) -> bool {
        quantizable(l.gate.weight, config.nf4())
    }

    pub(crate) fn from_lora(
        l: Qwen3MoELoraMoEBlock,
        config: &QLoraConfig,
    ) -> (r: Result<Qwen3MoEQLoraMoEBlock, LoraError>)
        requires
            config.lora.valid(),
        ensures
            match r {
                Ok(q) => Qwen3MoEQLoraMoEBlock::quantizes(l, *config)
                    && q == Qwen3MoEQLoraMoEBlock::of(l, *config),
                Err(e) => e is Mlx && !Qwen3MoEQLoraMoEBlock::quantizes(l, *config),
            },
    {
        match quantize_lora_layer(&l.gate, config) {
            Ok(gate) => Ok(
                Qwen3MoEQLoraMoEBlock {
                    top_k: l.top_k,
                    norm_topk_prob: l.norm_topk_prob,
                    experts: l.experts,
                    stacked_gate_proj: l.stacked_gate_proj,
                    stacked_up_proj: l.stacked_up_proj,
                    stacked_down_proj: l.stacked_down_proj,
                    stacked_weight_signature: l.stacked_weight_signature,
                    gate,
                },
            ),
            Err(e) => Err(e),
        }
    }

    pub open spec fn stacks(self) -> StackState {
        (
            self.stacked_gate_proj,
            self.stacked_up_proj,
            self.stacked_down_proj,
            self.stacked_weight_signature,
        )
    }

    pub open spec fn with_stacks(self, s: StackState) -> Qwen3MoEQLoraMoEBlock {
        Qwen3MoEQLoraMoEBlock {
            stacked_gate_proj: s.0,
            stacked_up_proj: s.1,
            stacked_down_proj: s.2,
            stacked_weight_signature: s.3,
            ..self
        }
    }

    /// The block with its experts stacked, anew where their weights have changed.
    pub open spec fn stacked_up(self) -> Qwen3MoEQLoraMoEBlock {
        self.with_stacks(restacked(self.stacks(), self.experts@))
    }

    /// The block behind a use of it: its experts are stacked, and its weight was restored.
    pub open spec fn ready_made(self) -> Qwen3MoEQLoraMoEBlock {
        Qwen3MoEQLoraMoEBlock { gate: self.gate.warmed(), ..self.stacked_up() }
    }

    /// The weighted outputs of the experts that the router picks, from the current stacks.
    pub open spec fn output(self, x: Array) -> Array {
        let s = restacked(self.stacks(), self.experts@);
        routed(
            x,
            self.gate.output(rows_of(x)),
            self.top_k as i32,
            self.norm_topk_prob,
            (s.0->0, s.1->0, s.2->0),
        )
    }

    /// There are experts, and the number of picked ones fits an extent.
    pub open spec fn ready(self) -> bool {
        self.experts@.len() > 0 && self.top_k <= i32::MAX
    }

    pub open spec fn trainable(self) -> nat {
        self.gate.trainable()
    }

    pub open spec fn countable(self) -> bool {
        self.gate.countable()
    }

    /// Stacks the experts' weights where no stack of them is at hand.
    pub fn ensure_stacked_moe(&mut self)
        requires
            old(self).experts@.len() > 0,
        ensures
            *final(self) == old(self).stacked_up(),
    {
        restack(
            &mut self.stacked_gate_proj,
            &mut self.stacked_up_proj,
            &mut self.stacked_down_proj,
            &mut self.stacked_weight_signature,
            &self.experts,
        );
    }

    pub(crate) fn run(&mut self, x: &Array) -> (r: Array)
        requires
            old(self).ready(),
        ensures
            r == old(self).output(*x),
            *final(self) == old(self).ready_made(),
    {
        self.ensure_stacked_moe();
        let rows = make_rows_of(x);
        let scores = self.gate.run(&rows);
        match (&self.stacked_gate_proj, &self.stacked_up_proj, &self.stacked_down_proj) {
            (Some(g), Some(u), Some(d)) => make_routed(
                x,
                &rows,
                &scores,
                self.top_k as i32,
                self.norm_topk_prob,
                g,
                u,
                d,
            ),
            _ => make_unfit(x),
        }
    }

    /// The weighted outputs of the experts that the router picks.
    pub fn forward(&mut self, x: &Array) -> (r: Result<Array, LoraError>)
        requires
            old(self).ready(),
        ensures
            outcome(r, old(self).output(*x)),
            *final(self) == old(self).ready_made(),
    {
        checked(self.run(x))
    }

    /// The number of trainable elements: those of the router's adapter.
    pub fn num_trainable_params(&self) -> (r: usize)
        requires
            self.countable(),
            self.trainable() <= usize::MAX,
        ensures
            r == self.trainable(),
    {
        self.gate.num_trainable_params()
    }

    /// Bytes of the quantized weights, of the adapters, and of both and the biases.
    pub open spec fn memory(self) -> Memory {
        self.gate.memory()
    }

    /// Bytes that the frozen elements would take in single precision.
    pub open spec fn full_bytes(self) -> nat {
        self.gate.frozen() * 4
    }

    /// The bytes can be counted.
    pub open spec fn measurable(self) -> bool {
        self.gate.measurable()
    }

    /// Bytes of the quantized weights, of the adapters, and of both and the biases.
    pub fn memory_usage(&self) -> (r: (usize, usize, usize))
        requires
            self.measurable(),
            self.memory().fits(),
        ensures
            self.memory().is(r),
    {
        let m0 = self.gate.memory_usage();
        (m0.0, m0.1, m0.2)
    }

    pub(crate) fn count_full_bytes(&self) -> (r: usize)
        requires
            self.measurable(),
            self.full_bytes() <= usize::MAX,
        ensures
            r == self.full_bytes(),
    {
        self.gate.num_frozen_params() * 4
    }
}

/// What follows attention in a layer: an MLP, or routed experts.
#[derive(Debug)]
pub enum Qwen3MoEQLoraFeedForward {
    Dense(Qwen3MoEQLoraDenseMLP),
    MoE(Qwen3MoEQLoraMoEBlock),
}

impl Qwen3MoEQLoraFeedForward {
    /// The layer with its weights quantized and with fresh adapters.
    pub open spec fn of(
        l: Qwen3MoELoraFeedForward,
        config: QLoraConfig,
    ) -> Qwen3MoEQLoraFeedForward {
        match l {
            Qwen3MoELoraFeedForward::Dense(m) => Qwen3MoEQLoraFeedForward::Dense(
                Qwen3MoEQLoraDenseMLP::of(m, config)
            ),
            Qwen3MoELoraFeedForward::MoE(b) => Qwen3MoEQLoraFeedForward::MoE(
                Qwen3MoEQLoraMoEBlock::of(b, config)
            ),
        }
    }

    /// The weights of the layer can be quantized.
    pub open spec fn quantizes(l: Qwen3MoELoraFeedForward, config: QLoraConfig) -> bool {
        match l {
            Qwen3MoELoraFeedForward::Dense(m) => Qwen3MoEQLoraDenseMLP::quantizes(m, config),
            Qwen3MoELoraFeedForward::MoE(b) => Qwen3MoEQLoraMoEBlock::quantizes(b, config),
        }
    }

    pub(crate) fn from_lora(l: Qwen3MoELoraFeedForward, config: &QLoraConfig) -> (r: Result<
        Qwen3MoEQLoraFeedForward,
        LoraError,
    >)
        requires
            config.lora.valid(),
        ensures
            match r {
                Ok(q) => Qwen3MoEQLoraFeedForward::quantizes(l, *config)
                    && q == Qwen3MoEQLoraFeedForward::of(l, *config),
                Err(e) => e is Mlx && !Qwen3MoEQLoraFeedForward::quantizes(l, *config),
            },
    {
        match l {
            Qwen3MoELoraFeedForward::Dense(m) => match Qwen3MoEQLoraDenseMLP::from_lora(m, config) {
                Ok(q) => Ok(Qwen3MoEQLoraFeedForward::Dense(q)),
                Err(e) => Err(e),
            },
            Qwen3MoELoraFeedForward::MoE(b) => match Qwen3MoEQLoraMoEBlock::from_lora(b, config) {
                Ok(q) => Ok(Qwen3MoEQLoraFeedForward::MoE(q)),
                Err(e) => Err(e),
            },
        }
    }

    pub open spec fn output(self, x: Array) -> Array {
        match self {
            Qwen3MoEQLoraFeedForward::Dense(m) => m.output(x),
            Qwen3MoEQLoraFeedForward::MoE(b) => b.output(x),
        }
    }

    /// The layer behind a use of it.
    pub open spec fn ready_made(self) -> Qwen3MoEQLoraFeedForward {
        match self {
            Qwen3MoEQLoraFeedForward::Dense(m) => Qwen3MoEQLoraFeedForward::Dense(m.ready_made()),
            Qwen3MoEQLoraFeedForward::MoE(b) => Qwen3MoEQLoraFeedForward::MoE(b.ready_made()),
        }
    }

    pub open spec fn ready(self) -> bool {
        self matches Qwen3MoEQLoraFeedForward::MoE(b) ==> b.ready()
    }

    pub open spec fn trainable(self) -> nat {
        match self {
            Qwen3MoEQLoraFeedForward::Dense(m) => m.trainable(),
            Qwen3MoEQLoraFeedForward::MoE(b) => b.trainable(),
        }
    }

    pub open spec fn countable(self) -> bool {
        match self {
            Qwen3MoEQLoraFeedForward::Dense(m) => m.countable(),
            Qwen3MoEQLoraFeedForward::MoE(b) => b.countable(),
        }
    }

    pub(crate) fn run(&mut self, x: &Array) -> (r: Array)
        requires
            old(self).ready(),
        ensures
            r == old(self).output(*x),
            *final(self) == old(self).ready_made(),
    {
        match self {
            Qwen3MoEQLoraFeedForward::Dense(m) => m.run(x),
            Qwen3MoEQLoraFeedForward::MoE(b) => b.run(x),
        }
    }

    /// The layer's output.
    pub fn forward(&mut self, x: &Array) -> (r: Result<Array, LoraError>)
        requires
            old(self).ready(),
        ensures
            outcome(r, old(self).output(*x)),
            *final(self) == old(self).ready_made(),
    {
        checked(self.run(x))
    }

    /// The number of trainable elements.
    pub fn num_trainable_params(&self) -> (r: usize)
        requires
            self.countable(),
            self.trainable() <= usize::MAX,
        ensures
            r == self.trainable(),
    {
        match self {
            Qwen3MoEQLoraFeedForward::Dense(m) => m.num_trainable_params(),
            Qwen3MoEQLoraFeedForward::MoE(b) => b.num_trainable_params(),
        }
    }

    /// Bytes of the quantized weights, of the adapters, and of both and the biases.
    pub open spec fn memory(self) -> Memory {
        match self {
            Qwen3MoEQLoraFeedForward::Dense(m) => m.memory(),
            Qwen3MoEQLoraFeedForward::MoE(b) => b.memory(),
        }
    }

    /// Bytes that the quantized elements would take in single precision.
    pub open spec fn full_bytes(self) -> nat {
        match self {
            Qwen3MoEQLoraFeedForward::Dense(m) => m.full_bytes(),
            Qwen3MoEQLoraFeedForward::MoE(b) => b.full_bytes(),
        }
    }

    /// The bytes can be counted.
    pub open spec fn measurable(self) -> bool {
        match self {
            Qwen3MoEQLoraFeedForward::Dense(m) => m.measurable(),
            Qwen3MoEQLoraFeedForward::MoE(b) => b.measurable(),
        }
    }

    /// Bytes of the quantized weights, of the adapters, and of both and the biases.
    pub fn memory_usage(&self) -> (r: (usize, usize, usize))
        requires
            self.measurable(),
            self.memory().fits(),
        ensures
            self.memory().is(r),
    {
        match self {
            Qwen3MoEQLoraFeedForward::Dense(m) => m.memory_usage(),
            Qwen3MoEQLoraFeedForward::MoE(b) => b.memory_usage(),
        }
    }

    pub(crate) fn count_full_bytes(&self) -> (r: usize)
        requires
            self.measurable(),
            self.full_bytes() <= usize::MAX,
        ensures
            r == self.full_bytes(),
    {
        match self {
            Qwen3MoEQLoraFeedForward::Dense(m) => m.count_full_bytes(),
            Qwen3MoEQLoraFeedForward::MoE(b) => b.count_full_bytes(),
        }
    }
}

/// Attention and what follows it, each behind a normalization and beside a residual connection.
#[derive(Debug)]
pub struct Qwen3MoEQLoraDecoderLayer {
    pub self_attn: Qwen3MoEQLoraAttention,
    pub input_layernorm: RmsNorm,
    pub post_attention_layernorm: RmsNorm,
    pub ffn: Qwen3MoEQLoraFeedForward,
}

impl Qwen3MoEQLoraDecoderLayer {
    /// The layer with its weights quantized and with fresh adapters.
    pub open spec fn of(
        l: Qwen3MoELoraDecoderLayer,
        config: QLoraConfig,
    ) -> Qwen3MoEQLoraDecoderLayer {
        Qwen3MoEQLoraDecoderLayer {
            self_attn: Qwen3MoEQLoraAttention::of(l.self_attn, config),
            input_layernorm: l.input_layernorm,
            post_attention_layernorm: l.post_attention_layernorm,
            ffn: Qwen3MoEQLoraFeedForward::of(l.ffn, config),
        }
    }

    /// The weights of the layer can be quantized.
    pub open spec fn quantizes(l: Qwen3MoELoraDecoderLayer, config: QLoraConfig) -> bool {
        Qwen3MoEQLoraAttention::quantizes(l.self_attn, config)
            && Qwen3MoEQLoraFeedForward::quantizes(l.ffn, config)
    }

    pub(crate) fn from_lora(l: Qwen3MoELoraDecoderLayer, config: &QLoraConfig) -> (r: Result<
        Qwen3MoEQLoraDecoderLayer,
        LoraError,
    >)
        requires
            config.lora.valid(),
        ensures
            match r {
                Ok(q) => Qwen3MoEQLoraDecoderLayer::quantizes(l, *config)
                    && q == Qwen3MoEQLoraDecoderLayer::of(l, *config),
                Err(e) => e is Mlx && !Qwen3MoEQLoraDecoderLayer::quantizes(l, *config),
            },
    {
        match (
            Qwen3MoEQLoraAttention::from_lora(l.self_attn, config),
            Qwen3MoEQLoraFeedForward::from_lora(l.ffn, config),
        ) {
            (Ok(self_attn), Ok(ffn)) => Ok(
                Qwen3MoEQLoraDecoderLayer {
                    self_attn,
                    input_layernorm: l.input_layernorm,
                    post_attention_layernorm: l.post_attention_layernorm,
                    ffn,
                },
            ),
            _ => Err(misfit()),
        }
    }

    /// The layer behind a use of it.
    pub open spec fn ready_made(self) -> Qwen3MoEQLoraDecoderLayer {
        Qwen3MoEQLoraDecoderLayer {
            self_attn: self.self_attn.ready_made(),
            ffn: self.ffn.ready_made(),
            ..self
        }
    }

    /// The rest of the layer, on top of an input to which attention was added.
    pub open spec fn finish(self, h: Array) -> Array {
        plus(h, self.ffn.output(self.post_attention_layernorm.output(h)))
    }

    pub open spec fn output(self, x: Array, mask: Option<Array>) -> Array {
        self.finish(plus(x, self.self_attn.output(self.input_layernorm.output(x), mask)))
    }

    pub open spec fn cached_output(
        self,
        x: Array,
        mask: Option<Array>,
        cache: KVCacheState,
        layer: int,
    ) -> (Array, KVCacheState) {
        let end = self.self_attn.cached_output(self.input_layernorm.output(x), mask, cache, layer);
        (self.finish(plus(x, end.0)), end.1)
    }

    pub open spec fn ready(self) -> bool {
        self.self_attn.ready() && self.ffn.ready()
    }

    fn run_finish(&mut self, h: &Array) -> (r: Array)
        requires
            old(self).ffn.ready(),
        ensures
            r == old(self).finish(*h),
            r.shape.rank() >= h.shape.rank(),
            *final(self) == (
                Qwen3MoEQLoraDecoderLayer { ffn: old(self).ffn.ready_made(), ..*old(self) }
            ),
    {
        broadcast use lemma_combine_rank;

        let normed = self.post_attention_layernorm.run(h);
        h.add(&self.ffn.run(&normed))
    }

    pub(crate) fn run(&mut self, x: &Array, mask: Option<&Array>) -> (r: Array)
        requires
            x.shape.rank() >= 2,
            old(self).ready(),
        ensures
            r == old(self).output(*x, given(mask)),
            r.shape.rank() >= x.shape.rank(),
            *final(self) == old(self).ready_made(),
    {
        broadcast use {lemma_rms_norm_shape, lemma_combine_rank};

        let normed = self.input_layernorm.run(x);
        let mixed = self.self_attn.run(&normed, mask);
        self.run_finish(&x.add(&mixed))
    }

    pub(crate) fn run_cached(
        &mut self,
        x: &Array,
        mask: Option<&Array>,
        cache: &mut KVCache,
        layer: usize,
    ) -> (r: Array)
        requires
            x.shape.rank() >= 2,
            old(self).ready(),
        ensures
            (r, final(cache)@) == old(self).cached_output(
                *x,
                given(mask),
                old(cache)@,
                layer as int,
            ),
            r.shape.rank() >= x.shape.rank(),
            *final(self) == old(self).ready_made(),
    {
        broadcast use {lemma_rms_norm_shape, lemma_combine_rank};

        let normed = self.input_layernorm.run(x);
        let mixed = self.self_attn.run_cached(&normed, mask, cache, layer);
        self.run_finish(&x.add(&mixed))
    }

    /// The layer's output over what the cache holds for it and the input; without a cache, over
    /// the input alone.
    pub fn forward(
        &mut self,
        x: &Array,
        mask: Option<&Array>,
        cache: Option<(&mut KVCache, usize)>,
    ) -> (r: Result<Array, LoraError>)
        requires
            x.shape.rank() >= 2,
            old(self).ready(),
        ensures
            match cache {
                Some(c) => {
                    let end = old(self).cached_output(*x, given(mask), c.0@, c.1 as int);
                    outcome(r, end.0) && final(c.0)@ == end.1
                },
                None => outcome(r, old(self).output(*x, given(mask))),
            },
            *final(self) == old(self).ready_made(),
    {
        match cache {
            Some((c, layer)) => checked(self.run_cached(x, mask, c, layer)),
            None => checked(self.run(x, mask)),
        }
    }

    /// The number of trainable elements.
    pub fn num_trainable_params(&self) -> (r: usize)
        requires
            self.countable(),
            LoraLayer::trainable(*self) <= usize::MAX,
        ensures
            r == LoraLayer::trainable(*self),
    {
        self.self_attn.num_trainable_params() + self.ffn.num_trainable_params()
    }

    /// Bytes of the quantized weights, of the adapters, and of both and the biases.
    pub fn memory_usage(&self) -> (r: (usize, usize, usize))
        requires
            MeasuredLayer::measurable(*self),
            MeasuredLayer::memory(*self).fits(),
        ensures
            MeasuredLayer::memory(*self).is(r),
    {
        let m0 = self.self_attn.memory_usage();
        let m1 = self.ffn.memory_usage();
        (m0.0 + m1.0, m0.1 + m1.1, m0.2 + m1.2)
    }
}

impl LoraLayer for Qwen3MoEQLoraDecoderLayer {
    open spec fn places(self) -> Seq<Place> {
        match self.ffn {
            Qwen3MoEQLoraFeedForward::Dense(_) => seq![
                at(Section::SelfAttn, Proj::Q), at(Section::SelfAttn, Proj::K),
                at(Section::SelfAttn, Proj::V), at(Section::SelfAttn, Proj::O),
                at(Section::Mlp, Proj::Gate), at(Section::Mlp, Proj::Up),
                at(Section::Mlp, Proj::Down)
            ],
            Qwen3MoEQLoraFeedForward::MoE(_) => seq![
                at(Section::SelfAttn, Proj::Q), at(Section::SelfAttn, Proj::K),
                at(Section::SelfAttn, Proj::V), at(Section::SelfAttn, Proj::O),
                at(Section::Mlp, Proj::Router)
            ],
        }
    }

    open spec fn matrices(self) -> Seq<Array> {
        match self.ffn {
            Qwen3MoEQLoraFeedForward::Dense(m) => seq![
                self.self_attn.q_proj.a(), self.self_attn.q_proj.b(), self.self_attn.k_proj.a(),
                self.self_attn.k_proj.b(), self.self_attn.v_proj.a(), self.self_attn.v_proj.b(),
                self.self_attn.o_proj.a(), self.self_attn.o_proj.b(), m.gate_proj.a(),
                m.gate_proj.b(), m.up_proj.a(), m.up_proj.b(), m.down_proj.a(), m.down_proj.b()
            ],
            Qwen3MoEQLoraFeedForward::MoE(b) => seq![
                self.self_attn.q_proj.a(), self.self_attn.q_proj.b(), self.self_attn.k_proj.a(),
                self.self_attn.k_proj.b(), self.self_attn.v_proj.a(), self.self_attn.v_proj.b(),
                self.self_attn.o_proj.a(), self.self_attn.o_proj.b(), b.gate.a(), b.gate.b()
            ],
        }
    }

    open spec fn with_matrices(self, m: Seq<Array>) -> Qwen3MoEQLoraDecoderLayer {
        let w = m;
        Qwen3MoEQLoraDecoderLayer {
            self_attn: Qwen3MoEQLoraAttention {
                q_proj: self.self_attn.q_proj.with(w[0], w[1]),
                k_proj: self.self_attn.k_proj.with(w[2], w[3]),
                v_proj: self.self_attn.v_proj.with(w[4], w[5]),
                o_proj: self.self_attn.o_proj.with(w[6], w[7]),
                ..self.self_attn
            },
            ffn: match self.ffn {
                Qwen3MoEQLoraFeedForward::Dense(m) => Qwen3MoEQLoraFeedForward::Dense(
                    Qwen3MoEQLoraDenseMLP {
                        gate_proj: m.gate_proj.with(w[8], w[9]),
                        up_proj: m.up_proj.with(w[10], w[11]),
                        down_proj: m.down_proj.with(w[12], w[13]),
                    }
                ),
                Qwen3MoEQLoraFeedForward::MoE(b) => Qwen3MoEQLoraFeedForward::MoE(
                    Qwen3MoEQLoraMoEBlock { gate: b.gate.with(w[8], w[9]), ..b }
                ),
            },
            ..self
        }
    }

    open spec fn trainable(self) -> nat {
        self.self_attn.trainable() + self.ffn.trainable()
    }

    open spec fn countable(self) -> bool {
        self.self_attn.countable() && self.ffn.countable()
    }

    #[verifier::rlimit(60)]
    proof fn lemma_layer(self, m: Seq<Array>) {
        match self.ffn {
            Qwen3MoEQLoraFeedForward::Dense(_) => {
                assert(self.with_matrices(m).matrices() =~= m);
            },
            Qwen3MoEQLoraFeedForward::MoE(_) => {
                assert(self.with_matrices(m).matrices() =~= m);
            },
        }
    }

    #[verifier::rlimit(60)]
    fn collect(&self, params: &mut NameMap<Array>, style: NameStyle, layer: usize) {
        proof {
            reveal_with_fuel(with_named, 15);
        }
        collect_adapter(&self.self_attn.q_proj, params, style, layer, Section::SelfAttn, Proj::Q);
        collect_adapter(&self.self_attn.k_proj, params, style, layer, Section::SelfAttn, Proj::K);
        collect_adapter(&self.self_attn.v_proj, params, style, layer, Section::SelfAttn, Proj::V);
        collect_adapter(&self.self_attn.o_proj, params, style, layer, Section::SelfAttn, Proj::O);
        match &self.ffn {
            Qwen3MoEQLoraFeedForward::Dense(m) => {
                collect_adapter(&m.gate_proj, params, style, layer, Section::Mlp, Proj::Gate);
                collect_adapter(&m.up_proj, params, style, layer, Section::Mlp, Proj::Up);
                collect_adapter(&m.down_proj, params, style, layer, Section::Mlp, Proj::Down);
            },
            Qwen3MoEQLoraFeedForward::MoE(b) => {
                collect_adapter(&b.gate, params, style, layer, Section::Mlp, Proj::Router);
            },
        }
    }

    fn assign(&mut self, params: &NameMap<Array>, style: NameStyle, layer: usize) {
        assign_adapter(
            &mut self.self_attn.q_proj,
            params,
            style,
            layer,
            Section::SelfAttn,
            Proj::Q,
        );
        assign_adapter(
            &mut self.self_attn.k_proj,
            params,
            style,
            layer,
            Section::SelfAttn,
            Proj::K,
        );
        assign_adapter(
            &mut self.self_attn.v_proj,
            params,
            style,
            layer,
            Section::SelfAttn,
            Proj::V,
        );
        assign_adapter(
            &mut self.self_attn.o_proj,
            params,
            style,
            layer,
            Section::SelfAttn,
            Proj::O,
        );
        match &mut self.ffn {
            Qwen3MoEQLoraFeedForward::Dense(m) => {
                assign_adapter(&mut m.gate_proj, params, style, layer, Section::Mlp, Proj::Gate);
                assign_adapter(&mut m.up_proj, params, style, layer, Section::Mlp, Proj::Up);
                assign_adapter(&mut m.down_proj, params, style, layer, Section::Mlp, Proj::Down);
            },
            Qwen3MoEQLoraFeedForward::MoE(b) => {
                assign_adapter(&mut b.gate, params, style, layer, Section::Mlp, Proj::Router);
            },
        }
    }

    fn refs<'a>(&'a self) -> (r: Vec<ParamRef<'a>>) {
        let mut r: Vec<ParamRef<'a>> = Vec::new();
        push_refs(&self.self_attn.q_proj, Section::SelfAttn, Proj::Q, &mut r);
        push_refs(&self.self_attn.k_proj, Section::SelfAttn, Proj::K, &mut r);
        push_refs(&self.self_attn.v_proj, Section::SelfAttn, Proj::V, &mut r);
        push_refs(&self.self_attn.o_proj, Section::SelfAttn, Proj::O, &mut r);
        match &self.ffn {
            Qwen3MoEQLoraFeedForward::Dense(m) => {
                push_refs(&m.gate_proj, Section::Mlp, Proj::Gate, &mut r);
                push_refs(&m.up_proj, Section::Mlp, Proj::Up, &mut r);
                push_refs(&m.down_proj, Section::Mlp, Proj::Down, &mut r);
            },
            Qwen3MoEQLoraFeedForward::MoE(b) => {
                push_refs(&b.gate, Section::Mlp, Proj::Router, &mut r);
            },
        }
        r
    }

    fn refs_mut<'a>(&'a mut self) -> (r: Vec<ParamMut<'a>>) {
        let mut r: Vec<ParamMut<'a>> = Vec::new();
        let (a, b) = adapter_refs_mut(&mut self.self_attn.q_proj, Section::SelfAttn, Proj::Q);
        r.push(a);
        r.push(b);
        let (a, b) = adapter_refs_mut(&mut self.self_attn.k_proj, Section::SelfAttn, Proj::K);
        r.push(a);
        r.push(b);
        let (a, b) = adapter_refs_mut(&mut self.self_attn.v_proj, Section::SelfAttn, Proj::V);
        r.push(a);
        r.push(b);
        let (a, b) = adapter_refs_mut(&mut self.self_attn.o_proj, Section::SelfAttn, Proj::O);
        r.push(a);
        r.push(b);
        match &mut self.ffn {
            Qwen3MoEQLoraFeedForward::Dense(m) => {
                let (a, b) = adapter_refs_mut(&mut m.gate_proj, Section::Mlp, Proj::Gate);
                r.push(a);
                r.push(b);
                let (a, b) = adapter_refs_mut(&mut m.up_proj, Section::Mlp, Proj::Up);
                r.push(a);
                r.push(b);
                let (a, b) = adapter_refs_mut(&mut m.down_proj, Section::Mlp, Proj::Down);
                r.push(a);
                r.push(b);
            },
            Qwen3MoEQLoraFeedForward::MoE(e) => {
                let (a, b) = adapter_refs_mut(&mut e.gate, Section::Mlp, Proj::Router);
                r.push(a);
                r.push(b);
            },
        }
        r
    }

    fn count(&self) -> (r: usize) {
        self.num_trainable_params()
    }
}

impl MeasuredLayer for Qwen3MoEQLoraDecoderLayer {
    open spec fn memory(self) -> Memory {
        self.self_attn.memory().plus(self.ffn.memory())
    }

    open spec fn full_bytes(self) -> nat {
        self.self_attn.full_bytes() + self.ffn.full_bytes()
    }

    open spec fn measurable(self) -> bool {
        self.self_attn.measurable() && self.ffn.measurable()
    }

    fn measure(&self) -> (r: (usize, usize, usize)) {
        self.memory_usage()
    }

    fn count_full_bytes(&self) -> (r: usize) {
        self.self_attn.count_full_bytes() + self.ffn.count_full_bytes()
    }
}

/// The embeddings, the layers and the last normalization.
#[derive(Debug)]
pub struct Qwen3MoEQLoraModel {
    pub config: Qwen3MoEConfig,
    pub embed_tokens: Embedding,
    pub layers: Vec<Qwen3MoEQLoraDecoderLayer>,
    pub norm: RmsNorm,
}

/// The output of the first `n` layers, one behind the other.
pub open spec fn moe_qlora_stack(
    layers: Seq<Qwen3MoEQLoraDecoderLayer>,
    n: nat,
    x: Array,
    mask: Option<Array>,
) -> Array
    decreases n,
{
    if n == 0 {
        x
    } else {
        layers[n - 1].output(moe_qlora_stack(layers, (n - 1) as nat, x, mask), mask)
    }
}

/// The output of the first `n` layers over a cache, and the cache behind them.
pub open spec fn moe_qlora_cached_stack(
    layers: Seq<Qwen3MoEQLoraDecoderLayer>,
    n: nat,
    x: Array,
    mask: Option<Array>,
    cache: KVCacheState,
) -> (Array, KVCacheState)
    decreases n,
{
    if n == 0 {
        (x, cache)
    } else {
        let before = moe_qlora_cached_stack(layers, (n - 1) as nat, x, mask, cache);
        layers[n - 1].cached_output(before.0, mask, before.1, n - 1)
    }
}

/// Each layer has fitting extents.
pub open spec fn moe_qlora_ready(layers: Seq<Qwen3MoEQLoraDecoderLayer>) -> bool {
    forall|i: int| 0 <= i < layers.len() ==> (#[trigger] layers[i]).ready()
}

impl Qwen3MoEQLoraModel {
    /// The hidden states behind the last normalization.
    pub open spec fn output(self, ids: Array, mask: Option<Array>) -> Array {
        self.norm.output(
            moe_qlora_stack(self.layers@, self.layers@.len(), self.embed_tokens.output(ids), mask),
        )
    }

    pub open spec fn cached_output(self, ids: Array, mask: Option<Array>, cache: KVCacheState) -> (
        Array,
        KVCacheState,
    ) {
        let end = moe_qlora_cached_stack(
            self.layers@,
            self.layers@.len(),
            self.embed_tokens.output(ids),
            mask,
            cache,
        );
        (self.norm.output(end.0), end.1)
    }

    /// The model behind a use of it: each layer is, and nothing else is changed.
    pub open spec fn only_readied(self, after: Qwen3MoEQLoraModel) -> bool {
        &&& after.config == self.config
        &&& after.embed_tokens == self.embed_tokens
        &&& after.norm == self.norm
        &&& after.layers@.len() == self.layers@.len()
        &&& forall|i: int|
            0 <= i < self.layers@.len() ==> #[trigger] after.layers@[i]
                == self.layers@[i].ready_made()
    }

    /// The quantized form of a model: each layer's weights quantized and with fresh adapters.
    pub open spec fn is_of(self, l: Qwen3MoELoraModel, config: QLoraConfig) -> bool {
        &&& self.config == l.config
        &&& self.embed_tokens == l.embed_tokens
        &&& self.norm == l.norm
        &&& self.layers@.len() == l.layers@.len()
        &&& forall|i: int|
            0 <= i < self.layers@.len() ==> #[trigger] self.layers@[i]
                == Qwen3MoEQLoraDecoderLayer::of(
                l.layers@[i],
                config,
            )
    }

    /// The weights of all layers can be quantized.
    pub open spec fn quantizes(layers: Seq<Qwen3MoELoraDecoderLayer>, config: QLoraConfig) -> bool {
        forall|i: int| 0 <= i < layers.len() ==> Qwen3MoEQLoraDecoderLayer::quantizes(
            #[trigger] layers[i],
            config,
        )
    }

    pub(crate) fn from_lora(
        model: Qwen3MoELoraModel,
        config: &QLoraConfig,
    ) -> (r: Result<Qwen3MoEQLoraModel, LoraError>)
        requires
            config.lora.valid(),
        ensures
            match r {
                Ok(q) => Qwen3MoEQLoraModel::quantizes(model.layers@, *config)
                    && q.is_of(model, *config),
                Err(e) => e is Mlx && !Qwen3MoEQLoraModel::quantizes(model.layers@, *config),
            },
    {
        let ghost all = model.layers@;
        let Qwen3MoELoraModel { config: settings, embed_tokens, layers: mut rest, norm } = model;
        let n = rest.len();
        let mut back: Vec<Qwen3MoEQLoraDecoderLayer> = Vec::new();
        while rest.len() > 0
            invariant
                n == all.len(),
                all == model.layers@,
                config.lora.valid(),
                rest@.len() + back@.len() == n,
                rest@ == all.take(n - back@.len()),
                forall|j: int|
                    0 <= j < back@.len() ==> {
                        &&& #[trigger] back@[j] == Qwen3MoEQLoraDecoderLayer::of(
                            all[n - 1 - j],
                            *config,
                        )
                        &&& Qwen3MoEQLoraDecoderLayer::quantizes(all[n - 1 - j], *config)
                    },
            decreases rest.len(),
        {
            let ghost k = rest@.len() - 1;
            match rest.pop() {
                Some(b) => {
                    assert(b == all[k as int]);
                    match Qwen3MoEQLoraDecoderLayer::from_lora(b, config) {
                        Ok(q) => {
                            back.push(q);
                        },
                        Err(_) => {
                            assert(!Qwen3MoEQLoraDecoderLayer::quantizes(all[k as int], *config));
                            return Err(misfit());
                        },
                    }
                },
                None => {},
            }
            assert(rest@ =~= all.take(n - back@.len()));
        }
        let mut layers: Vec<Qwen3MoEQLoraDecoderLayer> = Vec::new();
        let ghost done = back@;
        while back.len() > 0
            invariant
                n == all.len(),
                done.len() == n,
                layers@.len() + back@.len() == n,
                back@ == done.take(n - layers@.len()),
                forall|j: int| 0 <= j < layers@.len() ==> #[trigger] layers@[j] == done[n - 1 - j],
            decreases back.len(),
        {
            match back.pop() {
                Some(q) => {
                    layers.push(q);
                },
                None => {},
            }
            assert(back@ =~= done.take(n - layers@.len()));
        }
        proof {
            assert forall|i: int| 0 <= i < all.len() implies Qwen3MoEQLoraDecoderLayer::quantizes(
                #[trigger] all[i],
                *config,
            ) by {
                assert(
                    done[n - 1 - i] == Qwen3MoEQLoraDecoderLayer::of(
                        all[n - 1 - (n - 1 - i)],
                        *config,
                    )
                );
            }
            assert forall|i: int|
                0 <= i < all.len() implies #[trigger] layers@[i] == Qwen3MoEQLoraDecoderLayer::of(
                all[i],
                *config,
            ) by {
                assert(
                    done[n - 1 - i] == Qwen3MoEQLoraDecoderLayer::of(
                        all[n - 1 - (n - 1 - i)],
                        *config,
                    )
                );
            }
        }
        Ok(Qwen3MoEQLoraModel { config: settings, embed_tokens, layers, norm })
    }

    pub(crate) fn run(&mut self, ids: &Array, mask: Option<&Array>) -> (r: Array)
        requires
            ids.shape.rank() >= 1,
            moe_qlora_ready(old(self).layers@),
        ensures
            r == old(self).output(*ids, given(mask)),
            old(self).only_readied(*final(self)),
    {
        broadcast use lemma_embed_rank;

        let mut h = self.embed_tokens.run(ids);
        let ghost x = h;
        let ghost was = self.layers@;
        let mut i: usize = 0;
        while i < self.layers.len()
            invariant
                i <= self.layers.len(),
                was == old(self).layers@,
                moe_qlora_ready(was),
                h.shape.rank() >= 2,
                h == moe_qlora_stack(was, i as nat, x, given(mask)),
                self.layers@.len() == was.len(),
                forall|j: int| 0 <= j < i ==> #[trigger] self.layers@[j] == was[j].ready_made(),
                forall|j: int| i <= j < was.len() ==> #[trigger] self.layers@[j] == was[j],
                self.config == old(self).config,
                self.embed_tokens == old(self).embed_tokens,
                self.norm == old(self).norm,
            decreases self.layers.len() - i,
        {
            h = self.layers[i].run(&h, mask);
            i = i + 1;
        }
        self.norm.run(&h)
    }

    pub(crate) fn run_cached(
        &mut self,
        ids: &Array,
        mask: Option<&Array>,
        cache: &mut KVCache,
    ) -> (r:
        Array)
        requires
            ids.shape.rank() >= 1,
            moe_qlora_ready(old(self).layers@),
        ensures
            (r, final(cache)@) == old(self).cached_output(*ids, given(mask), old(cache)@),
            old(self).only_readied(*final(self)),
    {
        broadcast use lemma_embed_rank;

        let mut h = self.embed_tokens.run(ids);
        let ghost x = h;
        let ghost was = self.layers@;
        let mut i: usize = 0;
        while i < self.layers.len()
            invariant
                i <= self.layers.len(),
                was == old(self).layers@,
                moe_qlora_ready(was),
                h.shape.rank() >= 2,
                (h, cache@) == moe_qlora_cached_stack(was, i as nat, x, given(mask), old(cache)@),
                self.layers@.len() == was.len(),
                forall|j: int| 0 <= j < i ==> #[trigger] self.layers@[j] == was[j].ready_made(),
                forall|j: int| i <= j < was.len() ==> #[trigger] self.layers@[j] == was[j],
                self.config == old(self).config,
                self.embed_tokens == old(self).embed_tokens,
                self.norm == old(self).norm,
            decreases self.layers.len() - i,
        {
            h = self.layers[i].run_cached(&h, mask, cache, i);
            i = i + 1;
        }
        self.norm.run(&h)
    }

    /// The hidden states over what the cache holds and the input; without a cache, over the
    /// input alone.
    pub fn forward(
        &mut self,
        input_ids: &Array,
        mask: Option<&Array>,
        cache: Option<&mut KVCache>,
    ) -> (r:
        Result<Array, LoraError>)
        requires
            input_ids.shape.rank() >= 1,
            moe_qlora_ready(old(self).layers@),
        ensures
            match cache {
                Some(c) => {
                    let end = old(self).cached_output(*input_ids, given(mask), c@);
                    outcome(r, end.0) && final(c)@ == end.1
                },
                None => outcome(r, old(self).output(*input_ids, given(mask))),
            },
            old(self).only_readied(*final(self)),
    {
        match cache {
            Some(c) => checked(self.run_cached(input_ids, mask, c)),
            None => checked(self.run(input_ids, mask)),
        }
    }

    /// The number of trainable elements.
    pub fn num_trainable_params(&self) -> (r: usize)
        requires
            stack_countable(self.layers@),
        ensures
            r == trainable_total(self.layers@),
    {
        count_trainable(&self.layers)
    }

    /// Bytes of the quantized weights, of the adapters, and of both and the biases.
    pub fn memory_usage(&self) -> (r: (usize, usize, usize))
        requires
            stack_measurable(self.layers@),
        ensures
            stack_memory(self.layers@).is(r),
    {
        measure_layers(&self.layers)
    }
}

/// The model with a head for logits.
#[derive(Debug)]
pub struct Qwen3MoEQLoraForCausalLM {
    pub model: Qwen3MoEQLoraModel,
    /// Absent where the embeddings serve as head.
    pub lm_head: Option<Linear>,
    pub qlora_config: QLoraConfig,
    pub checkpoint_config: Option<CheckpointConfig>,
}

impl Qwen3MoEQLoraForCausalLM {
    /// The logits.
    pub open spec fn output(self, ids: Array, mask: Option<Array>) -> Array {
        logits(self.lm_head, self.model.embed_tokens, self.model.output(ids, mask))
    }

    /// The model behind a use of it: each layer is, and nothing else is changed.
    pub open spec fn only_readied(self, after: Qwen3MoEQLoraForCausalLM) -> bool {
        &&& self.model.only_readied(after.model)
        &&& after.lm_head == self.lm_head
        &&& after.qlora_config == self.qlora_config
        &&& after.checkpoint_config == self.checkpoint_config
    }

    /// The quantized form of a model, with fresh adapters.
    pub open spec fn is_of(self, l: Qwen3MoELoraForCausalLM, config: QLoraConfig) -> bool {
        &&& self.model.is_of(l.model, config)
        &&& self.lm_head == l.lm_head
        &&& self.qlora_config == config
        &&& self.checkpoint_config is None
    }

    /// The quantized form of a fresh model of those settings.
    pub open spec fn is_fresh(self, config: Qwen3MoEConfig, qlora: QLoraConfig) -> bool {
        exists|l: Qwen3MoELoraForCausalLM| #[trigger] l.is_fresh(config, qlora.lora)
            && self.is_of(l, qlora)
    }

    fn from_lora(
        lora: Qwen3MoELoraForCausalLM,
        config: QLoraConfig,
    ) -> (r: Result<Qwen3MoEQLoraForCausalLM, LoraError>)
        requires
            config.lora.valid(),
        ensures
            match r {
                Ok(q) => Qwen3MoEQLoraModel::quantizes(lora.model.layers@, config)
                    && q.is_of(lora, config),
                Err(e) => e is Mlx && !Qwen3MoEQLoraModel::quantizes(lora.model.layers@, config),
            },
    {
        match Qwen3MoEQLoraModel::from_lora(lora.model, &config) {
            Ok(model) => Ok(
                Qwen3MoEQLoraForCausalLM {
                    model,
                    lm_head: lora.lm_head,
                    qlora_config: config,
                    checkpoint_config: None,
                },
            ),
            Err(e) => Err(e),
        }
    }

    /// A fresh model, quantized as by default.
    pub fn new(
        config: Qwen3MoEConfig,
        lora_config: LoraConfig,
    ) -> (r: Result<Qwen3MoEQLoraForCausalLM, LoraError>)
        requires
            config.valid(),
            lora_config.valid(),
        ensures
            match r {
                Ok(m) => config.buildable() && moe_quantizes(config, QLoraConfig::of(lora_config))
                    && m.is_fresh(config, QLoraConfig::of(lora_config)),
                Err(e) => e is Mlx && !(config.buildable() && moe_quantizes(
                    config,
                    QLoraConfig::of(lora_config),
                )),
            },
    {
        Qwen3MoEQLoraForCausalLM::with_qlora_config(config, QLoraConfig::from_lora(lora_config))
    }

    /// A fresh model. Refused where an extent is negative or a weight cannot be quantized.
    pub fn with_qlora_config(config: Qwen3MoEConfig, qlora_config: QLoraConfig) -> (r: Result<
        Qwen3MoEQLoraForCausalLM,
        LoraError,
    >)
        requires
            config.valid(),
            qlora_config.lora.valid(),
        ensures
            match r {
                Ok(m) => config.buildable() && moe_quantizes(config, qlora_config) && m.is_fresh(
                    config,
                    qlora_config,
                ),
                Err(e) => e is Mlx && !(config.buildable() && moe_quantizes(config, qlora_config)),
            },
    {
        match Qwen3MoELoraForCausalLM::new(config, qlora_config.lora) {
            Ok(lora) => {
                proof {
                    lemma_fresh_quantizes(lora, config, qlora_config);
                }
                Qwen3MoEQLoraForCausalLM::from_lora(lora, qlora_config)
            },
            Err(e) => Err(e),
        }
    }

    /// Quantizes a frozen model in place of the present one, with fresh adapters. Refused where a
    /// weight is no matrix or cannot be quantized; the model is then as it was.
    pub fn load_and_quantize(&mut self, base: Qwen3MoE) -> (r: Result<(), LoraError>)
        requires
            old(self).qlora_config.lora.valid(),
            moe_base_ready(base.model.layers@),
        ensures
            match r {
                Ok(_) => {
                    &&& Qwen3MoELoraModel::takes(base.model.layers@)
                    &&& base_quantizes(base.model.layers@, old(self).qlora_config)
                    &&& exists|l: Qwen3MoELoraForCausalLM| #[trigger]
                        l.is_over_stacked(base, old(self).qlora_config.lora) && final(self).is_of(
                            l,
                            old(self).qlora_config,
                        )
                },
                Err(e) => e is Mlx && *final(self) == *old(self) && !(
                Qwen3MoELoraModel::takes(base.model.layers@) && base_quantizes(
                    base.model.layers@,
                    old(self).qlora_config,
                )),
            },
    {
        let config = self.qlora_config;
        match Qwen3MoELoraForCausalLM::from_loaded_base(base, config.lora) {
            Ok(lora) => {
                let ghost l = lora;
                proof {
                    lemma_base_quantizes(l, base, config);
                }
                match Qwen3MoEQLoraForCausalLM::from_lora(lora, config) {
                    Ok(m) => {
                        *self = m;
                        assert(l.is_over_stacked(base, old(self).qlora_config.lora));
                        Ok(())
                    },
                    Err(e) => Err(e),
                }
            },
            Err(e) => Err(e),
        }
    }

    /// The logits.
    pub fn forward(
        &mut self,
        input_ids: &Array,
        mask: Option<&Array>,
    ) -> (r: Result<Array, LoraError>)
        requires
            input_ids.shape.rank() >= 1,
            moe_qlora_ready(old(self).model.layers@),
        ensures
            outcome(r, old(self).output(*input_ids, given(mask))),
            old(self).only_readied(*final(self)),
    {
        let hidden = self.model.run(input_ids, mask);
        checked(run_logits(&self.lm_head, &self.model.embed_tokens, &hidden))
    }

    /// The logits over what the cache holds and the input; without a cache, over the input alone.
    pub fn forward_with_cache(
        &mut self,
        input_ids: &Array,
        mask: Option<&Array>,
        cache: Option<&mut KVCache>,
    ) -> (r: Result<Array, LoraError>)
        requires
            input_ids.shape.rank() >= 1,
            moe_qlora_ready(old(self).model.layers@),
        ensures
            match cache {
                Some(c) => {
                    let end = old(self).model.cached_output(*input_ids, given(mask), c@);
                    outcome(
                        r,
                        logits(old(self).lm_head, old(self).model.embed_tokens, end.0),
                    ) && final(c)@ == end.1
                },
                None => outcome(r, old(self).output(*input_ids, given(mask))),
            },
            old(self).only_readied(*final(self)),
    {
        match cache {
            Some(c) => {
                let hidden = self.model.run_cached(input_ids, mask, c);
                checked(run_logits(&self.lm_head, &self.model.embed_tokens, &hidden))
            },
            None => self.forward(input_ids, mask),
        }
    }

    /// The hidden states from which the logits follow.
    pub fn forward_hidden_states(&mut self, input_ids: &Array, mask: Option<&Array>) -> (r: Result<
        Array,
        LoraError,
    >)
        requires
            input_ids.shape.rank() >= 1,
            moe_qlora_ready(old(self).model.layers@),
        ensures
            outcome(r, old(self).model.output(*input_ids, given(mask))),
            old(self).only_readied(*final(self)),
    {
        checked(self.model.run(input_ids, mask))
    }

    /// An empty cache of the model's extents.
    pub fn create_cache(&self, max_seq_len: usize) -> (r: KVCache)
        requires
            self.model.config.num_hidden_layers >= 0,
            self.model.config.kv_heads() >= 0,
            self.model.config.head_dim >= 0,
        ensures
            r@ == KVCacheState::fresh(
                KVCacheConfig {
                    num_layers: self.model.config.num_hidden_layers as usize,
                    max_seq_len,
                    num_kv_heads: self.model.config.kv_heads() as usize,
                    head_dim: self.model.config.head_dim as usize,
                },
            ),
    {
        KVCache::new(
            KVCacheConfig::new(
                self.model.config.num_hidden_layers as usize,
                max_seq_len,
                self.model.config.num_kv_heads() as usize,
                self.model.config.head_dim as usize,
            ),
        )
    }

    /// The weight behind the logits.
    pub fn get_lm_head_weight(&self) -> (r: Option<Array>)
        ensures
            r == Some(logits_weight(self.lm_head, self.model.embed_tokens)),
    {
        Some(get_logits_weight(&self.lm_head, &self.model.embed_tokens))
    }

    pub fn supports_kv_cache(&self) -> (r: bool)
        ensures
            r,
    {
        true
    }

    /// The model with its layers replaced, and nothing else.
    pub open spec fn only_layers_changed(self, after: Qwen3MoEQLoraForCausalLM) -> bool {
        &&& after.model.config == self.model.config
        &&& after.model.embed_tokens == self.model.embed_tokens
        &&& after.model.norm == self.model.norm
        &&& after.lm_head == self.lm_head
        &&& after.qlora_config == self.qlora_config
        &&& after.checkpoint_config == self.checkpoint_config
    }

    /// Switches gradient checkpointing on.
    pub fn enable_gradient_checkpointing(&mut self, layers_per_block: usize)
        ensures
            *final(self) == (Qwen3MoEQLoraForCausalLM {
                checkpoint_config: Some(checkpointing(layers_per_block)),
                ..*old(self)
            }),
    {
        self.checkpoint_config = Some(make_checkpointing(layers_per_block));
    }

    /// Switches gradient checkpointing off.
    pub fn disable_gradient_checkpointing(&mut self)
        ensures
            *final(self) == (Qwen3MoEQLoraForCausalLM { checkpoint_config: None, ..*old(self) }),
    {
        self.checkpoint_config = None;
    }

    pub fn supports_gradient_checkpointing(&self) -> (r: bool)
        ensures
            r == false,
    {
        false
    }

    /// The number of trainable elements.
    pub fn num_trainable_params(&self) -> (r: usize)
        requires
            stack_countable(self.model.layers@),
        ensures
            r == trainable_total(self.model.layers@),
    {
        self.model.num_trainable_params()
    }

    /// The number of trainable elements.
    pub fn num_parameters(&self) -> (r: usize)
        requires
            stack_countable(self.model.layers@),
        ensures
            r == trainable_total(self.model.layers@),
    {
        self.model.num_trainable_params()
    }

    /// The matrices of all adapters, under their names.
    pub fn lora_parameters(&self) -> (r: NameMap<Array>)
        ensures
            r@ == parameter_map(NameStyle::Plain, self.model.layers@),
    {
        collect_parameters(&self.model.layers, NameStyle::Plain)
    }

    /// Replaces the adapters' matrices that the map names.
    pub fn set_lora_parameters(&mut self, params: &NameMap<Array>)
        ensures
            final(self).model.layers@ == assigned(
                NameStyle::Plain,
                old(self).model.layers@,
                params@,
            ),
            old(self).only_layers_changed(*final(self)),
    {
        assign_parameters(&mut self.model.layers, params, NameStyle::Plain);
    }

    /// The matrices of the adapters, layer by layer.
    pub fn parameters<'a>(&'a self) -> (r: Vec<LayerParamRef<'a>>)
        ensures
            lists_stack(r@, self.model.layers@),
    {
        parameter_refs(&self.model.layers)
    }

    /// The matrices of the adapters: all of them are trainable.
    pub fn trainable_parameters<'a>(&'a self) -> (r: Vec<LayerParamRef<'a>>)
        ensures
            lists_stack(r@, self.model.layers@),
    {
        parameter_refs(&self.model.layers)
    }

    /// The matrices of the adapters, layer by layer, open to replacement.
    pub fn parameters_mut<'a>(&'a mut self) -> (r: Vec<LayerParamMut<'a>>)
        ensures
            r@.len() == adapted_before(old(self).model.layers@, old(self).model.layers@.len()),
            forall|i: int|
                0 <= i < old(self).model.layers@.len() && (#[trigger] old(
                    self,
                ).model.layers@[i]).matrices().len() > 0 ==> {
                    let g = r@[adapted_before(old(self).model.layers@, i as nat) as int];
                    &&& g.layer == i
                    &&& g.entries@.len() == old(self).model.layers@[i].matrices().len()
                    &&& forall|j: int|
                        0 <= j < g.entries@.len() ==> {
                            &&& (#[trigger] g.entries@[j]).place == old(
                                self,
                            ).model.layers@[i].places()[j / 2]
                            &&& g.entries@[j].half == half_of(j)
                            &&& *g.entries@[j].value == old(self).model.layers@[i].matrices()[j]
                        }
                },
            final(self).model.layers@.len() == old(self).model.layers@.len(),
            forall|i: int|
                #![trigger final(self).model.layers@[i]]
                0 <= i < old(self).model.layers@.len() ==> {
                    let was = old(self).model.layers@[i];
                    let k = adapted_before(old(self).model.layers@, i as nat) as int;
                    &&& was.matrices().len() == 0 ==> final(self).model.layers@[i] == was
                    &&& was.matrices().len() > 0 ==> final(self).model.layers@[i]
                        == was.with_matrices(
                        Seq::new(r@[k].entries@.len(), |j: int| *final(r@[k].entries@[j].value)),
                    )
                },
            old(self).only_layers_changed(*final(self)),
    {
        stack_refs_mut(&mut self.model.layers)
    }

    /// Adapters cannot be frozen.
    pub fn freeze_parameters(&mut self, _recursive: bool)
        ensures
            *final(self) == *old(self),
    {
    }

    /// Adapters are never frozen.
    pub fn unfreeze_parameters(&mut self, _recursive: bool)
        ensures
            *final(self) == *old(self),
    {
    }

    pub fn all_frozen(&self) -> (r: Option<bool>)
        ensures
            r == Some(false),
    {
        Some(false)
    }

    pub fn any_frozen(&self) -> (r: Option<bool>)
        ensures
            r == Some(false),
    {
        Some(false)
    }

    /// Bytes of the quantized weights, of the adapters, and of both and the biases.
    pub fn memory_usage(&self) -> (r: (usize, usize, usize))
        requires
            stack_measurable(self.model.layers@),
        ensures
            stack_memory(self.model.layers@).is(r),
    {
        self.model.memory_usage()
    }

    /// The bytes of quantized weights, adapters and biases, and those with the weights in single
    /// precision. Their ratio is what quantization saves.
    pub fn memory_savings(&self) -> (r: (usize, usize))
        requires
            stack_measurable(self.model.layers@),
            stack_comparable(self.model.layers@),
        ensures
            r.0 == stack_memory(self.model.layers@).total,
            r.1 == full_bytes_upto(self.model.layers@, self.model.layers@.len()) + stack_memory(
                self.model.layers@,
            ).lora,
    {
        compare_layers(&self.model.layers)
    }
}

/// The weights of layer `i` of a fresh model of those settings can be quantized.
pub open spec fn moe_layer_quantizes(config: Qwen3MoEConfig, qlora: QLoraConfig, i: int) -> bool {
    let h = config.hidden_size;
    let n = config.intermediate_size;
    let q = (config.num_attention_heads * config.head_dim) as i32;
    let kv = (config.kv_heads() * config.head_dim) as i32;
    &&& quantizable(Linear::fresh(h, q, false).weight, qlora.nf4())
    &&& quantizable(Linear::fresh(h, kv, false).weight, qlora.nf4())
    &&& quantizable(Linear::fresh(q, h, false).weight, qlora.nf4())
    &&& if config.sparse(i) {
        quantizable(Linear::fresh(h, config.num_experts, false).weight, qlora.nf4())
    } else {
        quantizable(Linear::fresh(h, n, false).weight, qlora.nf4()) && quantizable(
            Linear::fresh(n, h, false).weight,
            qlora.nf4(),
        )
    }
}

/// The weights of a fresh model of those settings can be quantized.
pub open spec fn moe_quantizes(config: Qwen3MoEConfig, qlora: QLoraConfig) -> bool {
    forall|i: int|
        0 <= i < config.num_hidden_layers ==> #[trigger] moe_layer_quantizes(config, qlora, i)
}

/// The weights of a frozen layer can be quantized.
pub open spec fn base_layer_quantizes(l: Qwen3MoEDecoderLayer, qlora: QLoraConfig) -> bool {
    &&& quantizable(l.self_attn.q_proj.weight, qlora.nf4())
    &&& quantizable(l.self_attn.k_proj.weight, qlora.nf4())
    &&& quantizable(l.self_attn.v_proj.weight, qlora.nf4())
    &&& quantizable(l.self_attn.o_proj.weight, qlora.nf4())
    &&& match l.ffn {
        Qwen3MoEFeedForward::Dense(m) => quantizable(m.gate_proj.weight, qlora.nf4())
            && quantizable(m.up_proj.weight, qlora.nf4()) && quantizable(
            m.down_proj.weight,
            qlora.nf4(),
        ),
        Qwen3MoEFeedForward::MoE(b) => quantizable(b.gate.weight, qlora.nf4()),
    }
}

/// The weights of all frozen layers can be quantized.
pub open spec fn base_quantizes(layers: Seq<Qwen3MoEDecoderLayer>, qlora: QLoraConfig) -> bool {
    forall|i: int| 0 <= i < layers.len() ==> base_layer_quantizes(#[trigger] layers[i], qlora)
}

proof fn lemma_fresh_quantizes(
    l: Qwen3MoELoraForCausalLM,
    config: Qwen3MoEConfig,
    qlora: QLoraConfig,
)
    requires
        l.is_fresh(config, qlora.lora),
    ensures
        Qwen3MoEQLoraModel::quantizes(l.model.layers@, qlora) == moe_quantizes(config, qlora),
{
    let base = choose|base: Qwen3MoE| #[trigger]
        base.is_fresh(config) && l.is_over(base, qlora.lora);
    let layers = l.model.layers@;
    assert forall|i: int| 0 <= i < layers.len() implies Qwen3MoEQLoraDecoderLayer::quantizes(
        #[trigger] layers[i],
        qlora,
    )
        == moe_layer_quantizes(config, qlora, i) by {
        assert(base.model.layers@[i].is_fresh(config, i));
    }
    if Qwen3MoEQLoraModel::quantizes(layers, qlora) {
        assert forall|i: int| 0 <= i < layers.len() implies #[trigger] moe_layer_quantizes(
            config,
            qlora,
            i,
        ) by {
            assert(Qwen3MoEQLoraDecoderLayer::quantizes(layers[i], qlora));
        }
    }
}

proof fn lemma_base_quantizes(l: Qwen3MoELoraForCausalLM, base: Qwen3MoE, qlora: QLoraConfig)
    requires
        l.is_over_stacked(base, qlora.lora),
    ensures
        Qwen3MoEQLoraModel::quantizes(l.model.layers@, qlora) == base_quantizes(
            base.model.layers@,
            qlora,
        ),
{
    let layers = l.model.layers@;
    let frozen = base.model.layers@;
    assert forall|i: int| 0 <= i < layers.len() implies Qwen3MoEQLoraDecoderLayer::quantizes(
        #[trigger] layers[i],
        qlora,
    )
        == base_layer_quantizes(frozen[i], qlora) by {}
    if Qwen3MoEQLoraModel::quantizes(layers, qlora) {
        assert forall|i: int| 0 <= i < frozen.len() implies base_layer_quantizes(
            #[trigger] frozen[i],
            qlora,
        ) by {
            assert(Qwen3MoEQLoraDecoderLayer::quantizes(layers[i], qlora));
        }
    }
}

} // verus!
