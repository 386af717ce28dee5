//! Phi with adapters on quantized weights.

use crate::array::{
    Array, AttentionMaskType, Function, FusedAttentionConfig, RopeConfig, apply, attend, concat,
    lemma_combine_rank, lemma_embed_rank, lemma_embed_rank_from, lemma_rms_norm_shape, plus,
    reshape, rope, swap_middle,
};
use crate::attention::{
    create_causal_mask, first_part, gated, given, last_part, make_first_part, make_gated,
    make_last_part, make_match_heads, make_merge_heads, make_merge_heads_to, make_plain_attention,
    make_unfit, mask_or_causal, match_heads, merge_heads, merge_heads_to, plain_attention, unfit,
};
use crate::config::{
    CheckpointConfig, LoraConfig, checkpointing, effective_rank, make_checkpointing,
};
use crate::error::{LoraError, checked, misfit, outcome};
use crate::evaluation::{EvalLayer, push_layers, stack_evaluated};
use crate::kv_cache::{KVCache, KVCacheConfig, KVCacheState};
use crate::lora::Adapter;
use crate::memory::{
    MeasuredLayer, Memory, count_full, full_bytes_upto, measure_layers, stack_comparable,
    stack_measurable, stack_memory,
};
use crate::name_map::NameMap;
use crate::names::{NameStyle, Proj, Section};
use crate::nn::{Embedding, Linear, RmsNorm};
use crate::params::{
    LayerParamMut, LayerParamRef, LoraLayer, ParamMut, ParamRef, Place, adapted_before,
    adapter_refs_mut, assign_adapter, assign_parameters, assigned, at, collect_adapter,
    collect_parameters, count_trainable, half_of, lists_stack, parameter_map, parameter_refs,
    push_refs, stack_countable, stack_refs_mut, trainable_total, with_named,
};
use crate::phi_lora::{PhiActivation, PhiConfig};
use crate::qlora::{QLoraConfig, QLoraLinear};
use crate::scalar::{F32, ONE_BITS, Scale};
use crate::shape::Shape;
use crate::weights::{
    base_name, can_requantize, found, load_linear, load_norm, load_table, loaded_linear,
    loaded_norm, loaded_table, make_base_name, make_part_name, part_name, requantize, requantized,
};
use vstd::prelude::*;
use vstd::string::*;

verus! {

/// Root-mean-square normalization.
pub type PhiQloraRmsNorm = RmsNorm;

/// The settings with the rank of one projection's adapter.
pub open spec fn ranked(config: QLoraConfig, p: Proj) -> QLoraConfig {
    config.with_rank(config.lora.rank_of(p) as usize)
}

fn make_ranked(config: &QLoraConfig, p: Proj) -> (r: QLoraConfig)
    requires
        config.lora.valid(),
    ensures
        r == ranked(*config, p),
        r.lora.valid(),
        r.nf4() == config.nf4(),
{
    let rank = effective_rank(&config.lora, p);
    let mut r = *config;
    r.lora.r = rank as usize;
    r
}

/// Partly rotated attention with adapters on its four projections.
#[derive(Debug)]
pub struct PhiQLoraAttention {
    pub q_proj: QLoraLinear,
    pub k_proj: QLoraLinear,
    pub v_proj: QLoraLinear,
    pub o_proj: QLoraLinear,
    pub rope: RopeConfig,
    pub n_heads: i32,
    pub n_kv_heads: i32,
    pub head_dim: i32,
    /// The number of features of a head that rotate.
    pub rope_dim: i32,
    pub scale: Scale,
}

impl PhiQLoraAttention {
    /// The layer of a fresh model.
    pub open spec fn fresh(config: PhiConfig, lora: QLoraConfig) -> PhiQLoraAttention {
        let d = config.head_size();
        let h = config.hidden_size;
        let q = (config.num_attention_heads * d) as i32;
        let kv = (config.num_key_value_heads * d) as i32;
        PhiQLoraAttention {
            q_proj: QLoraLinear::fresh(h, q, ranked(lora, Proj::Q), config.qkv_bias),
            k_proj: QLoraLinear::fresh(h, kv, ranked(lora, Proj::K), config.qkv_bias),
            v_proj: QLoraLinear::fresh(h, kv, ranked(lora, Proj::V), config.qkv_bias),
            o_proj: QLoraLinear::fresh(q, h, ranked(lora, Proj::O), false),
            rope: RopeConfig {
                dims: config.rope_dim,
                base: config.rope_theta,
                scale: F32 { bits: ONE_BITS },
            },
            n_heads: config.num_attention_heads,
            n_kv_heads: config.num_key_value_heads,
            head_dim: d,
            rope_dim: config.rope_dim,
            scale: Scale::InverseSqrt { n: d },
        }
    }

    /// The layer after its weights were restored.
    pub open spec fn warmed(self) -> PhiQLoraAttention {
        PhiQLoraAttention {
            q_proj: self.q_proj.warmed(),
            k_proj: self.k_proj.warmed(),
            v_proj: self.v_proj.warmed(),
            o_proj: self.o_proj.warmed(),
            ..self
        }
    }

    /// Projected inputs as `[batch, length, heads, features]`.
    pub open spec fn heads(self, y: Array, x: Array, n: i32) -> Array {
        reshape(y, Shape::D4(x.shape.outer(), x.shape.second(), n, self.head_dim))
    }

    /// The first features of each head rotated, the others as they are.
    pub open spec fn rotated(self, x: Array, offset: i32) -> Array {
        concat(
            rope(first_part(x, self.rope_dim), self.rope, offset),
            last_part(x, self.rope_dim),
            0,
        )
    }

    /// Attention over the input alone, with the heads written out.
    pub open spec fn output(self, x: Array, mask: Option<Array>) -> Array {
        let p = self.parts(x, 0);
        let mixed = plain_attention(
            p.0,
            match_heads(p.1, self.n_heads, self.n_kv_heads),
            match_heads(p.2, self.n_heads, self.n_kv_heads),
            self.scale,
            mask,
        );
        self.o_proj.output(
            merge_heads_to(
                mixed,
                x.shape.outer(),
                x.shape.second(),
                (self.n_heads * self.head_dim) as i32,
            ),
        )
    }

    /// Causal.
    pub open spec fn fused_config(self) -> FusedAttentionConfig {
        FusedAttentionConfig {
            num_heads: self.n_heads,
            num_kv_heads: self.n_kv_heads,
            head_dim: self.head_dim,
            scale: self.scale,
            mask_type: AttentionMaskType::Causal,
        }
    }

    /// Rotated queries, rotated keys and values of the input.
    pub open spec fn parts(self, x: Array, offset: i32) -> (Array, Array, Array) {
        (
            self.rotated(
                swap_middle(self.heads(self.q_proj.output(x), x, self.n_heads)),
                offset,
            ),
            self.rotated(
                swap_middle(self.heads(self.k_proj.output(x), x, self.n_kv_heads)),
                offset,
            ),
            swap_middle(self.heads(self.v_proj.output(x), x, self.n_kv_heads)),
        )
    }

    /// Fused attention of rotated queries and keys, projected.
    pub open spec fn fused(
        self,
        x: Array,
        q: Array,
        k: Array,
        v: Array,
        mask: Option<Array>,
    ) -> Array {
        let mixed = attend(q, k, v, self.fused_config(), mask);
        self.o_proj.output(merge_heads(mixed, x.shape.outer(), x.shape.second()))
    }

    /// Fused attention over the input alone.
    pub open spec fn fused_output(self, x: Array, mask: Option<Array>) -> Array {
        let p = self.parts(x, 0);
        self.fused(x, p.0, p.1, p.2, mask)
    }

    /// Fused attention over what the cache holds and the input, and the cache behind it. An
    /// input that does not fit leaves the cache as it is.
    pub open spec fn cached_output(
        self,
        x: Array,
        mask: Option<Array>,
        cache: KVCacheState,
        layer: int,
    ) -> (Array, KVCacheState) {
        let p = self.parts(x, cache.offset);
        if p.0.fits && p.1.fits && p.2.fits && cache.accepts(layer, p.1, p.2) {
            let both = cache.joined(layer, p.1, p.2);
            (self.fused(x, p.0, both.0, both.1, mask), cache.extended(layer, p.1, p.2))
        } else {
            (self.o_proj.output(unfit(x)), cache)
        }
    }

    /// There are key heads, and the width of all heads fits a machine word.
    pub open spec fn ready(self) -> bool {
        self.n_kv_heads > 0 && i32::MIN <= self.n_heads * self.head_dim <= i32::MAX
    }

    pub open spec fn trainable(self) -> nat {
        self.q_proj.trainable() + self.k_proj.trainable() + self.v_proj.trainable()
            + self.o_proj.trainable()
    }

    pub open spec fn countable(self) -> bool {
        self.q_proj.countable() && self.k_proj.countable() && self.v_proj.countable()
            && self.o_proj.countable()
    }

    /// The projections can be made.
    pub open spec fn buildable(config: PhiConfig, lora: QLoraConfig) -> bool {
        let h = config.hidden_size;
        let q = (config.num_attention_heads * config.head_size()) as i32;
        let kv = (config.num_key_value_heads * config.head_size()) as i32;
        QLoraLinear::makeable(h, q, lora) && QLoraLinear::makeable(h, kv, lora)
            && QLoraLinear::makeable(q, h, lora)
    }

    /// A fresh layer. Refused where a projection cannot be made.
    pub fn new(config: &PhiConfig, qlora_config: &QLoraConfig) -> (r: Result<
        PhiQLoraAttention,
        LoraError,
    >)
        requires
            config.valid(),
            qlora_config.lora.valid(),
        ensures
            match r {
                Ok(a) => PhiQLoraAttention::buildable(*config, *qlora_config) && a
                    == PhiQLoraAttention::fresh(*config, *qlora_config),
                Err(e) => e is Mlx && !PhiQLoraAttention::buildable(*config, *qlora_config),
            },
    {
        let head_dim = config.head_dim();
        let hidden = config.hidden_size;
        let q: i32 = config.num_attention_heads * head_dim;
        let kv: i32 = config.num_key_value_heads * head_dim;
        let bias = config.qkv_bias;
        match (
            QLoraLinear::new(hidden, q, &make_ranked(qlora_config, Proj::Q), bias),
            QLoraLinear::new(hidden, kv, &make_ranked(qlora_config, Proj::K), bias),
            QLoraLinear::new(hidden, kv, &make_ranked(qlora_config, Proj::V), bias),
            QLoraLinear::new(q, hidden, &make_ranked(qlora_config, Proj::O), false),
        ) {
            (Ok(q_proj), Ok(k_proj), Ok(v_proj), Ok(o_proj)) => Ok(
                PhiQLoraAttention {
                    q_proj,
                    k_proj,
                    v_proj,
                    o_proj,
                    rope: RopeConfig {
                        dims: config.rope_dim,
                        base: config.rope_theta,
                        scale: F32 { bits: ONE_BITS },
                    },
                    n_heads: config.num_attention_heads,
                    n_kv_heads: config.num_key_value_heads,
                    head_dim,
                    rope_dim: config.rope_dim,
                    scale: Scale::InverseSqrt { n: head_dim },
                },
            ),
            _ => Err(misfit()),
        }
    }

    fn run_heads(&self, y: &Array, x: &Array, n: i32) -> (r: Array)
        requires
            x.shape.rank() >= 2,
        ensures
            r == self.heads(*y, *x, n),
    {
        let (batch, length) = x.shape.outer_two();
        y.reshape(Shape::D4(batch, length, n, self.head_dim))
    }

    fn run_rotated(&self, x: &Array, offset: i32) -> (r: Array)
        ensures
            r == self.rotated(*x, offset),
    {
        let turning = make_first_part(x, self.rope_dim).rope(self.rope, offset);
        turning.concat(&make_last_part(x, self.rope_dim), 0)
    }

    pub(crate) fn run(&mut self, x: &Array, mask: Option<&Array>) -> (r: Array)
        requires
            x.shape.rank() >= 3,
            old(self).ready(),
        ensures
            r == old(self).output(*x, given(mask)),
            *final(self) == old(self).warmed(),
    {
        let (batch, length) = x.shape.outer_two();
        let (q, k, v) = self.run_parts(x, 0);
        let mixed = make_plain_attention(
            &q,
            &make_match_heads(&k, self.n_heads, self.n_kv_heads),
            &make_match_heads(&v, self.n_heads, self.n_kv_heads),
            self.scale,
            mask,
        );
        let width: i32 = self.n_heads * self.head_dim;
        self.o_proj.run(&make_merge_heads_to(&mixed, batch, length, width))
    }

    fn run_parts(&mut self, x: &Array, offset: i32) -> (r: (Array, Array, Array))
        requires
            x.shape.rank() >= 2,
        ensures
            r == old(self).parts(*x, offset),
            *final(self) == (PhiQLoraAttention {
                q_proj: old(self).q_proj.warmed(),
                k_proj: old(self).k_proj.warmed(),
                v_proj: old(self).v_proj.warmed(),
                ..*old(self)
            }),
    {
        let q = self.q_proj.run(x);
        let k = self.k_proj.run(x);
        let v = self.v_proj.run(x);
        (
            self.run_rotated(&self.run_heads(&q, x, self.n_heads).swap_middle(), offset),
            self.run_rotated(&self.run_heads(&k, x, self.n_kv_heads).swap_middle(), offset),
            self.run_heads(&v, x, self.n_kv_heads).swap_middle(),
        )
    }

    fn run_fused(
        &mut self,
        x: &Array,
        q: &Array,
        k: &Array,
        v: &Array,
        mask: Option<&Array>,
    ) -> (r: Array)
        requires
            x.shape.rank() >= 2,
        ensures
            r == old(self).fused(*x, *q, *k, *v, given(mask)),
            *final(self) == (PhiQLoraAttention { o_proj: old(self).o_proj.warmed(), ..*old(self) }),
    {
        let (batch, length) = x.shape.outer_two();
        let config = FusedAttentionConfig {
            num_heads: self.n_heads,
            num_kv_heads: self.n_kv_heads,
            head_dim: self.head_dim,
            scale: self.scale,
            mask_type: AttentionMaskType::Causal,
        };
        let mixed = q.attend(k, v, config, mask);
        self.o_proj.run(&make_merge_heads(&mixed, batch, length))
    }

    pub(crate) fn run_cached(
        &mut self,
        x: &Array,
        mask: Option<&Array>,
        cache: &mut KVCache,
        layer: usize,
    ) -> (r: Array)
        requires
            x.shape.rank() >= 2,
        ensures
            (r, final(cache)@) == old(self).cached_output(
                *x,
                given(mask),
                old(cache)@,
                layer as int,
            ),
            *final(self) == old(self).warmed(),
    {
        let offset = cache.rope_offset();
        let (q, k, v) = self.run_parts(x, offset);
        if q.fits && k.fits && v.fits {
            match cache.update_and_fetch(layer, &k, &v) {
                Ok((keys, values)) => {
                    return self.run_fused(x, &q, &keys, &values, mask);
                },
                Err(_) => {},
            }
        }
        self.o_proj.run(&make_unfit(x))
    }

    pub(crate) fn run_fused_alone(&mut self, x: &Array, mask: Option<&Array>) -> (r: Array)
        requires
            x.shape.rank() >= 2,
        ensures
            r == old(self).fused_output(*x, given(mask)),
            *final(self) == old(self).warmed(),
    {
        let (q, k, v) = self.run_parts(x, 0);
        self.run_fused(x, &q, &k, &v, mask)
    }

    /// Attention over the input alone.
    pub fn forward(&mut self, x: &Array, mask: Option<&Array>) -> (r: Result<Array, LoraError>)
        requires
            x.shape.rank() >= 3,
            old(self).ready(),
        ensures
            outcome(r, old(self).output(*x, given(mask))),
            *final(self) == old(self).warmed(),
    {
        checked(self.run(x, mask))
    }

    /// Fused attention over what the cache holds for the layer and the input.
    pub fn forward_with_cache(
        &mut self,
        x: &Array,
        mask: Option<&Array>,
        cache: Option<(&mut KVCache, usize)>,
    ) -> (r: Result<Array, LoraError>)
        requires
            x.shape.rank() >= 2,
        ensures
            match cache {
                Some(c) => {
                    let end = old(self).cached_output(*x, given(mask), c.0@, c.1 as int);
                    outcome(r, end.0) && final(c.0)@ == end.1
                },
                None => outcome(r, old(self).fused_output(*x, given(mask))),
            },
            *final(self) == old(self).warmed(),
    {
        match cache {
            Some((c, layer)) => checked(self.run_cached(x, mask, c, layer)),
            None => checked(self.run_fused_alone(x, mask)),
        }
    }

    /// The number of trainable elements.
    pub fn num_trainable_params(&self) -> (r: usize)
        requires
            self.countable(),
            self.trainable() <= usize::MAX,
        ensures
            r == self.trainable(),
    {
        self.q_proj.num_trainable_params() + self.k_proj.num_trainable_params()
            + self.v_proj.num_trainable_params() + self.o_proj.num_trainable_params()
    }

    /// Bytes of the quantized weights, of the adapters, and of both and the biases.
    pub open spec fn memory(self) -> Memory {
        self.q_proj.memory().plus(self.k_proj.memory()).plus(self.v_proj.memory()).plus(
            self.o_proj.memory()
        )
    }

    /// Bytes that the frozen elements would take in single precision.
    pub open spec fn full_bytes(self) -> nat {
        self.q_proj.frozen() * 4 + self.k_proj.frozen() * 4 + self.v_proj.frozen() * 4
            + self.o_proj.frozen() * 4
    }

    /// The bytes can be counted.
    pub open spec fn measurable(self) -> bool {
        self.q_proj.measurable() && self.k_proj.measurable() && self.v_proj.measurable()
            && self.o_proj.measurable()
    }

    /// Bytes of the quantized weights, of the adapters, and of both and the biases.
    pub fn memory_usage(&self) -> (r: (usize, usize, usize))
        requires
            self.measurable(),
            self.memory().fits(),
        ensures
            self.memory().is(r),
    {
        let m0 = self.q_proj.memory_usage();
        let m1 = self.k_proj.memory_usage();
        let m2 = self.v_proj.memory_usage();
        let m3 = self.o_proj.memory_usage();
        (m0.0 + m1.0 + m2.0 + m3.0, m0.1 + m1.1 + m2.1 + m3.1, m0.2 + m1.2 + m2.2 + m3.2)
    }

    pub(crate) fn count_full_bytes(&self) -> (r: usize)
        requires
            self.measurable(),
            self.full_bytes() <= usize::MAX,
        ensures
            r == self.full_bytes(),
    {
        self.q_proj.num_frozen_params() * 4 + self.k_proj.num_frozen_params() * 4
            + self.v_proj.num_frozen_params() * 4 + self.o_proj.num_frozen_params() * 4
    }
}

/// MLP with adapters on its two projections, the first of which may hold gate and input side by
/// side.
#[derive(Debug)]
pub struct PhiQloraMLP {
    pub gate_up_proj: QLoraLinear,
    pub down_proj: QLoraLinear,
    pub activation: PhiActivation,
    pub intermediate_size: i32,
}

impl PhiQloraMLP {
    /// The layer of a fresh model. The fused projection goes by the name of its gate.
    pub open spec fn fresh(config: PhiConfig, lora: QLoraConfig) -> PhiQloraMLP {
        let h = config.hidden_size;
        let n = config.intermediate_size;
        let p = config.proj_size() as i32;
        PhiQloraMLP {
            gate_up_proj: QLoraLinear::fresh(h, p, ranked(lora, Proj::Gate), false),
            down_proj: QLoraLinear::fresh(n, h, ranked(lora, Proj::Down), false),
            activation: config.hidden_act,
            intermediate_size: n,
        }
    }

    /// The layer after its weights were restored.
    pub open spec fn warmed(self) -> PhiQloraMLP {
        PhiQloraMLP {
            gate_up_proj: self.gate_up_proj.warmed(),
            down_proj: self.down_proj.warmed(),
            ..self
        }
    }

    /// Gate and input split and multiplied, or the one input, activated.
    pub open spec fn activated(self, hidden: Array) -> Array {
        match self.activation {
            PhiActivation::SwiGLU => gated(
                first_part(hidden, self.intermediate_size),
                last_part(hidden, self.intermediate_size),
            ),
            _ => apply(Function::Gelu, hidden),
        }
    }

    pub open spec fn output(self, x: Array) -> Array {
        self.down_proj.output(self.activated(self.gate_up_proj.output(x)))
    }

    pub open spec fn trainable(self) -> nat {
        self.gate_up_proj.trainable() + self.down_proj.trainable()
    }

    pub open spec fn countable(self) -> bool {
        self.gate_up_proj.countable() && self.down_proj.countable()
    }

    /// The projections can be made.
    pub open spec fn buildable(config: PhiConfig, lora: QLoraConfig) -> bool {
        QLoraLinear::makeable(config.hidden_size, config.proj_size() as i32, lora)
            && QLoraLinear::makeable(config.intermediate_size, config.hidden_size, lora)
    }

    /// A fresh layer. Refused where a projection cannot be made.
    pub fn new(config: &PhiConfig, qlora_config: &QLoraConfig) -> (r: Result<
        PhiQloraMLP,
        LoraError,
    >)
        requires
            config.valid(),
            qlora_config.lora.valid(),
        ensures
            match r {
                Ok(m) => PhiQloraMLP::buildable(*config, *qlora_config) && m == PhiQloraMLP::fresh(
                    *config,
                    *qlora_config,
                ),
                Err(e) => e is Mlx && !PhiQloraMLP::buildable(*config, *qlora_config),
            },
    {
        let hidden = config.hidden_size;
        let inner = config.intermediate_size;
        let proj: i32 = match config.hidden_act {
            PhiActivation::SwiGLU => inner * 2,
            PhiActivation::GeluApprox | PhiActivation::GeluExact => inner,
        };
        match (
            QLoraLinear::new(hidden, proj, &make_ranked(qlora_config, Proj::Gate), false),
            QLoraLinear::new(inner, hidden, &make_ranked(qlora_config, Proj::Down), false),
        ) {
            (Ok(gate_up_proj), Ok(down_proj)) => Ok(
                PhiQloraMLP {
                    gate_up_proj,
                    down_proj,
                    activation: config.hidden_act,
                    intermediate_size: inner,
                },
            ),
            _ => Err(misfit()),
        }
    }

    pub(crate) fn run(&mut self, x: &Array) -> (r: Array)
        ensures
            r == old(self).output(*x),
            *final(self) == old(self).warmed(),
    {
        let hidden = self.gate_up_proj.run(x);
        let activated = match self.activation {
            PhiActivation::SwiGLU => make_gated(
                &make_first_part(&hidden, self.intermediate_size),
                &make_last_part(&hidden, self.intermediate_size),
            ),
            PhiActivation::GeluApprox | PhiActivation::GeluExact => hidden.apply(Function::Gelu),
        };
        self.down_proj.run(&activated)
    }

    /// The layer's output.
    pub fn forward(&mut self, x: &Array) -> (r: Result<Array, LoraError>)
        ensures
            outcome(r, old(self).output(*x)),
            *final(self) == old(self).warmed(),
    {
        checked(self.run(x))
    }

    /// The number of trainable elements.
    pub fn num_trainable_params(&self) -> (r: usize)
        requires
            self.countable(),
            self.trainable() <= usize::MAX,
        ensures
            r == self.trainable(),
    {
        self.gate_up_proj.num_trainable_params() + self.down_proj.num_trainable_params()
    }

    /// Bytes of the quantized weights, of the adapters, and of both and the biases.
    pub open spec fn memory(self) -> Memory {
        self.gate_up_proj.memory().plus(self.down_proj.memory())
    }

    /// Bytes that the frozen elements would take in single precision.
    pub open spec fn full_bytes(self) -> nat {
        self.gate_up_proj.frozen() * 4 + self.down_proj.frozen() * 4
    }

    /// The bytes can be counted.
    pub open spec fn measurable(self) -> bool {
        self.gate_up_proj.measurable() && self.down_proj.measurable()
    }

    /// Bytes of the quantized weights, of the adapters, and of both and the biases.
    pub fn memory_usage(&self) -> (r: (usize, usize, usize))
        requires
            self.measurable(),
            self.memory().fits(),
        ensures
            self.memory().is(r),
    {
        let m0 = self.gate_up_proj.memory_usage();
        let m1 = self.down_proj.memory_usage();
        (m0.0 + m1.0, m0.1 + m1.1, m0.2 + m1.2)
    }

    pub(crate) fn count_full_bytes(&self) -> (r: usize)
        requires
            self.measurable(),
            self.full_bytes() <= usize::MAX,
        ensures
            r == self.full_bytes(),
    {
        self.gate_up_proj.num_frozen_params() * 4 + self.down_proj.num_frozen_params() * 4
    }
}

/// Attention and MLP, each behind a normalization and beside a residual connection.
#[derive(Debug)]
pub struct PhiQloraDecoderLayer {
    pub self_attn: PhiQLoraAttention,
    pub mlp: PhiQloraMLP,
    pub input_layernorm: PhiQloraRmsNorm,
    pub post_attention_layernorm: PhiQloraRmsNorm,
}

impl PhiQloraDecoderLayer {
    /// The layer of a fresh model.
    pub open spec fn fresh(config: PhiConfig, lora: QLoraConfig) -> PhiQloraDecoderLayer {
        PhiQloraDecoderLayer {
            self_attn: PhiQLoraAttention::fresh(config, lora),
            mlp: PhiQloraMLP::fresh(config, lora),
            input_layernorm: RmsNorm::fresh(config.hidden_size, config.rms_norm_eps),
            post_attention_layernorm: RmsNorm::fresh(config.hidden_size, config.rms_norm_eps),
        }
    }

    /// The MLP's part, on top of an input to which attention was added.
    pub open spec fn finish(self, h: Array) -> Array {
        plus(h, self.mlp.output(self.post_attention_layernorm.output(h)))
    }

    pub open spec fn output(self, x: Array, mask: Option<Array>) -> Array {
        self.finish(plus(x, self.self_attn.output(self.input_layernorm.output(x), mask)))
    }

    pub open spec fn fused_output(self, x: Array, mask: Option<Array>) -> Array {
        self.finish(plus(x, self.self_attn.fused_output(self.input_layernorm.output(x), mask)))
    }

    pub open spec fn cached_output(
        self,
        x: Array,
        mask: Option<Array>,
        cache: KVCacheState,
        layer: int,
    ) -> (Array, KVCacheState) {
        let end = self.self_attn.cached_output(self.input_layernorm.output(x), mask, cache, layer);
        (self.finish(plus(x, end.0)), end.1)
    }

    /// Both parts can be made.
    pub open spec fn buildable(config: PhiConfig, lora: QLoraConfig) -> bool {
        PhiQLoraAttention::buildable(config, lora) && PhiQloraMLP::buildable(config, lora)
    }

    /// A fresh layer. Refused where an extent is unfit.
    pub fn new(
        config: &PhiConfig,
        qlora_config: &QLoraConfig,
    ) -> (r: Result<PhiQloraDecoderLayer, LoraError>)
        requires
            config.valid(),
            qlora_config.lora.valid(),
        ensures
            match r {
                Ok(l) => PhiQloraDecoderLayer::buildable(*config, *qlora_config)
                    && l == PhiQloraDecoderLayer::fresh(
                    *config,
                    *qlora_config,
                ),
                Err(e) => e is Mlx && !PhiQloraDecoderLayer::buildable(*config, *qlora_config),
            },
    {
        match (
            PhiQLoraAttention::new(config, qlora_config),
            PhiQloraMLP::new(config, qlora_config),
        ) {
            (Ok(self_attn), Ok(mlp)) => Ok(
                PhiQloraDecoderLayer {
                    self_attn,
                    mlp,
                    input_layernorm: RmsNorm::new(config.hidden_size, config.rms_norm_eps),
                    post_attention_layernorm: RmsNorm::new(config.hidden_size, config.rms_norm_eps),
                },
            ),
            _ => Err(misfit()),
        }
    }

    fn run_finish(&mut self, h: &Array) -> (r: Array)
        ensures
            r == old(self).finish(*h),
            *final(self) == (PhiQloraDecoderLayer { mlp: old(self).mlp.warmed(), ..*old(self) }),
    {
        let normed = self.post_attention_layernorm.run(h);
        h.add(&self.mlp.run(&normed))
    }

    pub(crate) fn run(&mut self, x: &Array, mask: Option<&Array>) -> (r: Array)
        requires
            x.shape.rank() >= 3,
            old(self).self_attn.ready(),
        ensures
            r == old(self).output(*x, given(mask)),
            r.shape.rank() >= x.shape.rank(),
            *final(self) == old(self).warmed(),
    {
        broadcast use {lemma_rms_norm_shape, lemma_combine_rank};

        let normed = self.input_layernorm.run(x);
        let mixed = self.self_attn.run(&normed, mask);
        self.run_finish(&x.add(&mixed))
    }

    pub(crate) fn run_cached(
        &mut self,
        x: &Array,
        mask: Option<&Array>,
        cache: &mut KVCache,
        layer: usize,
    ) -> (r: Array)
        requires
            x.shape.rank() >= 2,
        ensures
            (r, final(cache)@) == old(self).cached_output(
                *x,
                given(mask),
                old(cache)@,
                layer as int,
            ),
            r.shape.rank() >= x.shape.rank(),
            *final(self) == old(self).warmed(),
    {
        broadcast use {lemma_rms_norm_shape, lemma_combine_rank};

        let normed = self.input_layernorm.run(x);
        let mixed = self.self_attn.run_cached(&normed, mask, cache, layer);
        self.run_finish(&x.add(&mixed))
    }

    /// The layer's output.
    pub fn forward(&mut self, x: &Array, mask: Option<&Array>) -> (r: Result<Array, LoraError>)
        requires
            x.shape.rank() >= 3,
            old(self).self_attn.ready(),
        ensures
            outcome(r, old(self).output(*x, given(mask))),
            *final(self) == old(self).warmed(),
    {
        checked(self.run(x, mask))
    }

    /// The layer's output, by fused attention over what the cache holds and the input.
    pub fn forward_with_cache(
        &mut self,
        x: &Array,
        mask: Option<&Array>,
        cache: Option<(&mut KVCache, usize)>,
    ) -> (r: Result<Array, LoraError>)
        requires
            x.shape.rank() >= 2,
        ensures
            match cache {
                Some(c) => {
                    let end = old(self).cached_output(*x, given(mask), c.0@, c.1 as int);
                    outcome(r, end.0) && final(c.0)@ == end.1
                },
                None => outcome(r, old(self).fused_output(*x, given(mask))),
            },
            *final(self) == old(self).warmed(),
    {
        broadcast use lemma_rms_norm_shape;

        match cache {
            Some((c, layer)) => checked(self.run_cached(x, mask, c, layer)),
            None => {
                let normed = self.input_layernorm.run(x);
                let mixed = self.self_attn.run_fused_alone(&normed, mask);
                checked(self.run_finish(&x.add(&mixed)))
            },
        }
    }

    /// The number of trainable elements.
    pub fn num_trainable_params(&self) -> (r: usize)
        requires
            self.countable(),
            LoraLayer::trainable(*self) <= usize::MAX,
        ensures
            r == LoraLayer::trainable(*self),
    {
        self.self_attn.num_trainable_params() + self.mlp.num_trainable_params()
    }

    /// Bytes of the quantized weights, of the adapters, and of both and the biases.
    pub fn memory_usage(&self) -> (r: (usize, usize, usize))
        requires
            MeasuredLayer::measurable(*self),
            MeasuredLayer::memory(*self).fits(),
        ensures
            MeasuredLayer::memory(*self).is(r),
    {
        let m0 = self.self_attn.memory_usage();
        let m1 = self.mlp.memory_usage();
        (m0.0 + m1.0, m0.1 + m1.1, m0.2 + m1.2)
    }

    /// The layer after its weights were restored.
    pub open spec fn warmed(self) -> PhiQloraDecoderLayer {
        PhiQloraDecoderLayer { self_attn: self.self_attn.warmed(), mlp: self.mlp.warmed(), ..self }
    }

    /// The weight of projection `k`, where the map has one, can be quantized.
    pub open spec fn can_load(
        self,
        i: nat,
        weights: Map<Seq<char>, Array>,
        config: QLoraConfig,
        k: int,
    ) -> bool {
        if k == 0 {
            can_requantize(weights, base_name("model"@, i, Section::SelfAttn, Proj::Q), config)
        } else if k == 1 {
            can_requantize(weights, base_name("model"@, i, Section::SelfAttn, Proj::K), config)
        } else if k == 2 {
            can_requantize(weights, base_name("model"@, i, Section::SelfAttn, Proj::V), config)
        } else if k == 3 {
            can_requantize(weights, base_name("model"@, i, Section::SelfAttn, Proj::O), config)
        } else if k == 4 {
            can_requantize(weights, base_name("model"@, i, Section::Mlp, Proj::GateUp), config)
        } else {
            can_requantize(weights, base_name("model"@, i, Section::Mlp, Proj::Down), config)
        }
    }

    /// The layer with its first `k` projections replaced by fresh ones on the quantized weights
    /// that have their names.
    pub open spec fn loaded_first(
        self,
        i: nat,
        weights: Map<Seq<char>, Array>,
        config: QLoraConfig,
        k: int,
    ) -> PhiQloraDecoderLayer {
        PhiQloraDecoderLayer {
            self_attn: PhiQLoraAttention {
                q_proj: if k > 0 {
                    requantized(
                        self.self_attn.q_proj,
                        weights,
                        base_name("model"@, i, Section::SelfAttn, Proj::Q),
                        found(weights, part_name("model"@, i, "self_attn.q_proj.bias"@)),
                        config,
                    )
                } else {
                    self.self_attn.q_proj
                },
                k_proj: if k > 1 {
                    requantized(
                        self.self_attn.k_proj,
                        weights,
                        base_name("model"@, i, Section::SelfAttn, Proj::K),
                        found(weights, part_name("model"@, i, "self_attn.k_proj.bias"@)),
                        config,
                    )
                } else {
                    self.self_attn.k_proj
                },
                v_proj: if k > 2 {
                    requantized(
                        self.self_attn.v_proj,
                        weights,
                        base_name("model"@, i, Section::SelfAttn, Proj::V),
                        found(weights, part_name("model"@, i, "self_attn.v_proj.bias"@)),
                        config,
                    )
                } else {
                    self.self_attn.v_proj
                },
                o_proj: if k > 3 {
                    requantized(
                        self.self_attn.o_proj,
                        weights,
                        base_name("model"@, i, Section::SelfAttn, Proj::O),
                        None,
                        config,
                    )
                } else {
                    self.self_attn.o_proj
                },
                ..self.self_attn
            },
            mlp: PhiQloraMLP {
                gate_up_proj: if k > 4 {
                    requantized(
                        self.mlp.gate_up_proj,
                        weights,
                        base_name("model"@, i, Section::Mlp, Proj::GateUp),
                        None,
                        config,
                    )
                } else {
                    self.mlp.gate_up_proj
                },
                down_proj: if k > 5 {
                    requantized(
                        self.mlp.down_proj,
                        weights,
                        base_name("model"@, i, Section::Mlp, Proj::Down),
                        None,
                        config,
                    )
                } else {
                    self.mlp.down_proj
                },
                ..self.mlp
            },
            ..self
        }
    }

    /// All weights of the layer that the map has can be quantized.
    pub open spec fn loadable(
        self,
        i: nat,
        weights: Map<Seq<char>, Array>,
        config: QLoraConfig,
    ) -> bool {
        forall|k: int| 0 <= k < 6 ==> #[trigger] self.can_load(i, weights, config, k)
    }

    /// Projection `k` is the first whose weight cannot be quantized.
    pub open spec fn load_stops_at(
        self,
        i: nat,
        weights: Map<Seq<char>, Array>,
        config: QLoraConfig,
        k: int,
    ) -> bool {
        &&& 0 <= k < 6
        &&& !self.can_load(i, weights, config, k)
        &&& forall|j: int| 0 <= j < k ==> #[trigger] self.can_load(i, weights, config, j)
    }

    /// The layer with all weights that have its names.
    pub open spec fn loaded(
        self,
        i: nat,
        weights: Map<Seq<char>, Array>,
        config: QLoraConfig,
    ) -> PhiQloraDecoderLayer {
        let l = self.loaded_first(i, weights, config, 6);
        PhiQloraDecoderLayer {
            input_layernorm: loaded_norm(
                self.input_layernorm,
                weights,
                part_name("model"@, i, "input_layernorm.weight"@),
            ),
            post_attention_layernorm: loaded_norm(
                self.post_attention_layernorm,
                weights,
                part_name("model"@, i, "post_attention_layernorm.weight"@),
            ),
            ..l
        }
    }

    #[verifier::rlimit(60)]
    fn load(&mut self, i: usize, weights: &NameMap<Array>, config: &QLoraConfig) -> (r: Result<
        (),
        LoraError,
    >)
        requires
            config.lora.valid(),
        ensures
            match r {
                Ok(_) => old(self).loadable(i as nat, weights@, *config) && *final(self) == old(
                    self,
                ).loaded(i as nat, weights@, *config),
                Err(e) => e is Mlx && exists|k: int|
                    #[trigger] old(self).load_stops_at(i as nat, weights@, *config, k)
                        && *final(self) == old(self).loaded_first(i as nat, weights@, *config, k),
            },
    {
        let bias = weights.get(&make_part_name("model", i, "self_attn.q_proj.bias"));
        let name = make_base_name("model", i, Section::SelfAttn, Proj::Q);
        if requantize(&mut self.self_attn.q_proj, weights, &name, bias, config).is_err() {
            assert(old(self).load_stops_at(i as nat, weights@, *config, 0));
            return Err(misfit());
        }
        let bias = weights.get(&make_part_name("model", i, "self_attn.k_proj.bias"));
        let name = make_base_name("model", i, Section::SelfAttn, Proj::K);
        if requantize(&mut self.self_attn.k_proj, weights, &name, bias, config).is_err() {
            assert(old(self).load_stops_at(i as nat, weights@, *config, 1));
            return Err(misfit());
        }
        let bias = weights.get(&make_part_name("model", i, "self_attn.v_proj.bias"));
        let name = make_base_name("model", i, Section::SelfAttn, Proj::V);
        if requantize(&mut self.self_attn.v_proj, weights, &name, bias, config).is_err() {
            assert(old(self).load_stops_at(i as nat, weights@, *config, 2));
            return Err(misfit());
        }
        let name = make_base_name("model", i, Section::SelfAttn, Proj::O);
        if requantize(&mut self.self_attn.o_proj, weights, &name, None, config).is_err() {
            assert(old(self).load_stops_at(i as nat, weights@, *config, 3));
            return Err(misfit());
        }
        let name = make_base_name("model", i, Section::Mlp, Proj::GateUp);
        if requantize(&mut self.mlp.gate_up_proj, weights, &name, None, config).is_err() {
            assert(old(self).load_stops_at(i as nat, weights@, *config, 4));
            return Err(misfit());
        }
        let name = make_base_name("model", i, Section::Mlp, Proj::Down);
        if requantize(&mut self.mlp.down_proj, weights, &name, None, config).is_err() {
            assert(old(self).load_stops_at(i as nat, weights@, *config, 5));
            return Err(misfit());
        }
        load_norm(
            &mut self.input_layernorm,
            weights,
            &make_part_name("model", i, "input_layernorm.weight"),
        );
        load_norm(
            &mut self.post_attention_layernorm,
            weights,
            &make_part_name("model", i, "post_attention_layernorm.weight"),
        );
        Ok(())
    }
}

impl LoraLayer for PhiQloraDecoderLayer {
    open spec fn places(self) -> Seq<Place> {
        seq![
            at(Section::SelfAttn, Proj::Q), at(Section::SelfAttn, Proj::K),
            at(Section::SelfAttn, Proj::V), at(Section::SelfAttn, Proj::O),
            at(Section::Mlp, Proj::GateUp), at(Section::Mlp, Proj::Down)
        ]
    }

    open spec fn matrices(self) -> Seq<Array> {
        seq![
            self.self_attn.q_proj.a(), self.self_attn.q_proj.b(), self.self_attn.k_proj.a(),
            self.self_attn.k_proj.b(), self.self_attn.v_proj.a(), self.self_attn.v_proj.b(),
            self.self_attn.o_proj.a(), self.self_attn.o_proj.b(), self.mlp.gate_up_proj.a(),
            self.mlp.gate_up_proj.b(), self.mlp.down_proj.a(), self.mlp.down_proj.b()
        ]
    }

    open spec fn with_matrices(self, m: Seq<Array>) -> PhiQloraDecoderLayer {
        PhiQloraDecoderLayer {
            self_attn: PhiQLoraAttention {
                q_proj: self.self_attn.q_proj.with(m[0], m[1]),
                k_proj: self.self_attn.k_proj.with(m[2], m[3]),
                v_proj: self.self_attn.v_proj.with(m[4], m[5]),
                o_proj: self.self_attn.o_proj.with(m[6], m[7]),
                ..self.self_attn
            },
            mlp: PhiQloraMLP {
                gate_up_proj: self.mlp.gate_up_proj.with(m[8], m[9]),
                down_proj: self.mlp.down_proj.with(m[10], m[11]),
                ..self.mlp
            },
            ..self
        }
    }

    open spec fn trainable(self) -> nat {
        self.self_attn.trainable() + self.mlp.trainable()
    }

    open spec fn countable(self) -> bool {
        self.self_attn.countable() && self.mlp.countable()
    }

    proof fn lemma_layer(self, m: Seq<Array>) {
        assert(self.with_matrices(m).matrices() =~= m);
    }

    fn collect(&self, params: &mut NameMap<Array>, style: NameStyle, layer: usize) {
        proof {
            reveal_with_fuel(with_named, 13);
        }
        collect_adapter(&self.self_attn.q_proj, params, style, layer, Section::SelfAttn, Proj::Q);
        collect_adapter(&self.self_attn.k_proj, params, style, layer, Section::SelfAttn, Proj::K);
        collect_adapter(&self.self_attn.v_proj, params, style, layer, Section::SelfAttn, Proj::V);
        collect_adapter(&self.self_attn.o_proj, params, style, layer, Section::SelfAttn, Proj::O);
        collect_adapter(&self.mlp.gate_up_proj, params, style, layer, Section::Mlp, Proj::GateUp);
        collect_adapter(&self.mlp.down_proj, params, style, layer, Section::Mlp, Proj::Down);
    }

    fn assign(&mut self, params: &NameMap<Array>, style: NameStyle, layer: usize) {
        assign_adapter(
            &mut self.self_attn.q_proj,
            params,
            style,
            layer,
            Section::SelfAttn,
            Proj::Q,
        );
        assign_adapter(
            &mut self.self_attn.k_proj,
            params,
            style,
            layer,
            Section::SelfAttn,
            Proj::K,
        );
        assign_adapter(
            &mut self.self_attn.v_proj,
            params,
            style,
            layer,
            Section::SelfAttn,
            Proj::V,
        );
        assign_adapter(
            &mut self.self_attn.o_proj,
            params,
            style,
            layer,
            Section::SelfAttn,
            Proj::O,
        );
        assign_adapter(
            &mut self.mlp.gate_up_proj,
            params,
            style,
            layer,
            Section::Mlp,
            Proj::GateUp,
        );
        assign_adapter(&mut self.mlp.down_proj, params, style, layer, Section::Mlp, Proj::Down);
    }

    fn refs<'a>(&'a self) -> (r: Vec<ParamRef<'a>>) {
        let mut r: Vec<ParamRef<'a>> = Vec::new();
        push_refs(&self.self_attn.q_proj, Section::SelfAttn, Proj::Q, &mut r);
        push_refs(&self.self_attn.k_proj, Section::SelfAttn, Proj::K, &mut r);
        push_refs(&self.self_attn.v_proj, Section::SelfAttn, Proj::V, &mut r);
        push_refs(&self.self_attn.o_proj, Section::SelfAttn, Proj::O, &mut r);
        push_refs(&self.mlp.gate_up_proj, Section::Mlp, Proj::GateUp, &mut r);
        push_refs(&self.mlp.down_proj, Section::Mlp, Proj::Down, &mut r);
        r
    }

    fn refs_mut<'a>(&'a mut self) -> (r: Vec<ParamMut<'a>>) {
        let mut r: Vec<ParamMut<'a>> = Vec::new();
        let (a, b) = adapter_refs_mut(&mut self.self_attn.q_proj, Section::SelfAttn, Proj::Q);
        r.push(a);
        r.push(b);
        let (a, b) = adapter_refs_mut(&mut self.self_attn.k_proj, Section::SelfAttn, Proj::K);
        r.push(a);
        r.push(b);
        let (a, b) = adapter_refs_mut(&mut self.self_attn.v_proj, Section::SelfAttn, Proj::V);
        r.push(a);
        r.push(b);
        let (a, b) = adapter_refs_mut(&mut self.self_attn.o_proj, Section::SelfAttn, Proj::O);
        r.push(a);
        r.push(b);
        let (a, b) = adapter_refs_mut(&mut self.mlp.gate_up_proj, Section::Mlp, Proj::GateUp);
        r.push(a);
        r.push(b);
        let (a, b) = adapter_refs_mut(&mut self.mlp.down_proj, Section::Mlp, Proj::Down);
        r.push(a);
        r.push(b);
        r
    }

    fn count(&self) -> (r: usize) {
        self.num_trainable_params()
    }
}

impl EvalLayer for PhiQloraDecoderLayer {
    open spec fn evaluated(self) -> Seq<Array> {
        seq![
            self.self_attn.q_proj.lora_a, self.self_attn.q_proj.lora_b,
            self.self_attn.k_proj.lora_a, self.self_attn.k_proj.lora_b,
            self.self_attn.v_proj.lora_a, self.self_attn.v_proj.lora_b,
            self.self_attn.o_proj.lora_a, self.self_attn.o_proj.lora_b,
            self.mlp.gate_up_proj.lora_a, self.mlp.gate_up_proj.lora_b, self.mlp.down_proj.lora_a,
            self.mlp.down_proj.lora_b
        ]
    }

    fn push_evaluated(&self, out: &mut Vec<Array>) {
        out.push(self.self_attn.q_proj.lora_a.clone());
        out.push(self.self_attn.q_proj.lora_b.clone());
        out.push(self.self_attn.k_proj.lora_a.clone());
        out.push(self.self_attn.k_proj.lora_b.clone());
        out.push(self.self_attn.v_proj.lora_a.clone());
        out.push(self.self_attn.v_proj.lora_b.clone());
        out.push(self.self_attn.o_proj.lora_a.clone());
        out.push(self.self_attn.o_proj.lora_b.clone());
        out.push(self.mlp.gate_up_proj.lora_a.clone());
        out.push(self.mlp.gate_up_proj.lora_b.clone());
        out.push(self.mlp.down_proj.lora_a.clone());
        out.push(self.mlp.down_proj.lora_b.clone());
        assert(out@ =~= old(out)@ + self.evaluated());
    }
}

impl MeasuredLayer for PhiQloraDecoderLayer {
    open spec fn memory(self) -> Memory {
        self.self_attn.memory().plus(self.mlp.memory())
    }

    open spec fn full_bytes(self) -> nat {
        self.self_attn.full_bytes() + self.mlp.full_bytes()
    }

    open spec fn measurable(self) -> bool {
        self.self_attn.measurable() && self.mlp.measurable()
    }

    fn measure(&self) -> (r: (usize, usize, usize)) {
        self.memory_usage()
    }

    fn count_full_bytes(&self) -> (r: usize) {
        self.self_attn.count_full_bytes() + self.mlp.count_full_bytes()
    }
}

/// The embeddings, the layers and the last normalization.
#[derive(Debug)]
pub struct PhiQloraModel {
    pub config: PhiConfig,
    pub qlora_config: QLoraConfig,
    pub embed_tokens: Embedding,
    pub layers: Vec<PhiQloraDecoderLayer>,
    pub norm: PhiQloraRmsNorm,
}

/// The output of the first `n` layers, one behind the other.
pub open spec fn phi_qlora_stack(
    layers: Seq<PhiQloraDecoderLayer>,
    n: nat,
    x: Array,
    mask: Option<Array>,
) -> Array
    decreases n,
{
    if n == 0 {
        x
    } else {
        layers[n - 1].output(phi_qlora_stack(layers, (n - 1) as nat, x, mask), mask)
    }
}

/// The output of the first `n` layers over a cache, and the cache behind them.
pub open spec fn phi_qlora_cached_stack(
    layers: Seq<PhiQloraDecoderLayer>,
    n: nat,
    x: Array,
    mask: Option<Array>,
    cache: KVCacheState,
) -> (Array, KVCacheState)
    decreases n,
{
    if n == 0 {
        (x, cache)
    } else {
        let before = phi_qlora_cached_stack(layers, (n - 1) as nat, x, mask, cache);
        layers[n - 1].cached_output(before.0, mask, before.1, n - 1)
    }
}

/// Each layer has key heads and a width that fits a machine word.
pub open spec fn phi_qlora_ready(layers: Seq<PhiQloraDecoderLayer>) -> bool {
    forall|i: int| 0 <= i < layers.len() ==> (#[trigger] layers[i]).self_attn.ready()
}

impl PhiQloraModel {
    /// The hidden states behind the last normalization, under the given mask.
    pub open spec fn masked_output(self, ids: Array, mask: Option<Array>) -> Array {
        self.norm.output(
            phi_qlora_stack(self.layers@, self.layers@.len(), self.embed_tokens.output(ids), mask),
        )
    }

    /// The hidden states behind the last normalization. Without a mask, the causal one is used.
    pub open spec fn output(self, ids: Array, mask: Option<Array>) -> Array {
        self.masked_output(ids, mask_or_causal(mask, ids))
    }

    pub open spec fn cached_output(
        self,
        ids: Array,
        mask: Option<Array>,
        cache: KVCacheState,
    ) -> (Array, KVCacheState) {
        let end = phi_qlora_cached_stack(
            self.layers@,
            self.layers@.len(),
            self.embed_tokens.output(ids),
            mask,
            cache,
        );
        (self.norm.output(end.0), end.1)
    }

    /// The model that the settings give, before any weight is loaded.
    pub open spec fn is_fresh(self, config: PhiConfig, lora: QLoraConfig) -> bool {
        &&& self.config == config
        &&& self.qlora_config == lora
        &&& self.embed_tokens == Embedding::fresh(config.vocab_size, config.hidden_size)
        &&& self.layers@.len() == (if config.num_hidden_layers > 0 {
            config.num_hidden_layers as nat
        } else {
            0
        })
        &&& forall|i: int|
            0 <= i < self.layers@.len() ==> #[trigger] self.layers@[i]
                == PhiQloraDecoderLayer::fresh(
                config,
                lora,
            )
        &&& self.norm == RmsNorm::fresh(config.hidden_size, config.rms_norm_eps)
    }

    /// A fresh model. Refused where an extent is unfit.
    pub fn new(
        config: PhiConfig,
        qlora_config: QLoraConfig,
    ) -> (r: Result<PhiQloraModel, LoraError>)
        requires
            config.valid(),
            qlora_config.lora.valid(),
        ensures
            match r {
                Ok(m) => phi_qlora_buildable(config, qlora_config)
                    && m.is_fresh(config, qlora_config),
                Err(e) => e is Mlx && !phi_qlora_buildable(config, qlora_config),
            },
    {
        let embed_tokens = match Embedding::new(config.vocab_size, config.hidden_size) {
            Ok(e) => e,
            Err(_) => {
                return Err(misfit());
            },
        };
        let mut layers: Vec<PhiQloraDecoderLayer> = Vec::new();
        let mut i: i32 = 0;
        while i < config.num_hidden_layers
            invariant
                0 <= i,
                i <= config.num_hidden_layers || i == 0,
                layers@.len() == i,
                i > 0 ==> PhiQloraDecoderLayer::buildable(config, qlora_config),
                config.valid(),
                qlora_config.lora.valid(),
                forall|j: int|
                    0 <= j < i ==> #[trigger] layers@[j] == PhiQloraDecoderLayer::fresh(
                        config,
                        qlora_config,
                    ),
            decreases config.num_hidden_layers - i,
        {
            match PhiQloraDecoderLayer::new(&config, &qlora_config) {
                Ok(l) => {
                    layers.push(l);
                },
                Err(_) => {
                    return Err(misfit());
                },
            }
            i = i + 1;
        }
        Ok(
            PhiQloraModel {
                config,
                qlora_config,
                embed_tokens,
                layers,
                norm: RmsNorm::new(config.hidden_size, config.rms_norm_eps),
            },
        )
    }

    pub(crate) fn run_masked(&mut self, ids: &Array, mask: Option<&Array>) -> (r: Array)
        requires
            ids.shape.rank() >= 2,
            phi_qlora_ready(old(self).layers@),
        ensures
            r == old(self).masked_output(*ids, given(mask)),
            old(self).only_warmed(*final(self)),
    {
        broadcast use lemma_embed_rank_from;

        let mut h = self.embed_tokens.run(ids);
        let ghost x = h;
        let ghost was = self.layers@;
        let mut i: usize = 0;
        while i < self.layers.len()
            invariant
                i <= self.layers.len(),
                was == old(self).layers@,
                phi_qlora_ready(was),
                h.shape.rank() >= 3,
                h == phi_qlora_stack(was, i as nat, x, given(mask)),
                self.layers@.len() == was.len(),
                forall|j: int| 0 <= j < i ==> #[trigger] self.layers@[j] == was[j].warmed(),
                forall|j: int| i <= j < was.len() ==> #[trigger] self.layers@[j] == was[j],
                self.config == old(self).config,
                self.qlora_config == old(self).qlora_config,
                self.embed_tokens == old(self).embed_tokens,
                self.norm == old(self).norm,
            decreases self.layers.len() - i,
        {
            h = self.layers[i].run(&h, mask);
            i = i + 1;
        }
        self.norm.run(&h)
    }

    pub(crate) fn run(&mut self, ids: &Array, mask: Option<&Array>) -> (r: Array)
        requires
            ids.shape.rank() >= 2,
            phi_qlora_ready(old(self).layers@),
        ensures
            r == old(self).output(*ids, given(mask)),
            old(self).only_warmed(*final(self)),
    {
        match mask {
            Some(_) => self.run_masked(ids, mask),
            None => {
                let (_, length) = ids.shape.outer_two();
                let causal = create_causal_mask(length);
                self.run_masked(ids, Some(&causal))
            },
        }
    }

    pub(crate) fn run_cached(
        &mut self,
        ids: &Array,
        mask: Option<&Array>,
        cache: &mut KVCache,
    ) -> (r: Array)
        requires
            ids.shape.rank() >= 1,
        ensures
            (r, final(cache)@) == old(self).cached_output(*ids, given(mask), old(cache)@),
            old(self).only_warmed(*final(self)),
    {
        broadcast use lemma_embed_rank;

        let mut h = self.embed_tokens.run(ids);
        let ghost x = h;
        let ghost was = self.layers@;
        let mut i: usize = 0;
        while i < self.layers.len()
            invariant
                i <= self.layers.len(),
                was == old(self).layers@,
                h.shape.rank() >= 2,
                (h, cache@) == phi_qlora_cached_stack(was, i as nat, x, given(mask), old(cache)@),
                self.layers@.len() == was.len(),
                forall|j: int| 0 <= j < i ==> #[trigger] self.layers@[j] == was[j].warmed(),
                forall|j: int| i <= j < was.len() ==> #[trigger] self.layers@[j] == was[j],
                self.config == old(self).config,
                self.qlora_config == old(self).qlora_config,
                self.embed_tokens == old(self).embed_tokens,
                self.norm == old(self).norm,
            decreases self.layers.len() - i,
        {
            h = self.layers[i].run_cached(&h, mask, cache, i);
            i = i + 1;
        }
        self.norm.run(&h)
    }

    /// The hidden states behind the last normalization.
    pub fn forward(&mut self, input_ids: &Array, mask: Option<&Array>) -> (r: Result<
        Array,
        LoraError,
    >)
        requires
            input_ids.shape.rank() >= 2,
            phi_qlora_ready(old(self).layers@),
        ensures
            outcome(r, old(self).output(*input_ids, given(mask))),
            old(self).only_warmed(*final(self)),
    {
        checked(self.run(input_ids, mask))
    }

    /// The model after its weights were restored.
    pub open spec fn only_warmed(self, after: PhiQloraModel) -> bool {
        &&& after.config == self.config
        &&& after.qlora_config == self.qlora_config
        &&& after.embed_tokens == self.embed_tokens
        &&& after.norm == self.norm
        &&& after.layers@.len() == self.layers@.len()
        &&& forall|i: int|
            0 <= i < self.layers@.len() ==> #[trigger] after.layers@[i] == self.layers@[i].warmed()
    }

    /// The hidden states over what the cache holds and the input; without a cache, over the
    /// input alone, under no mask.
    pub fn forward_with_cache(
        &mut self,
        input_ids: &Array,
        mask: Option<&Array>,
        cache: Option<&mut KVCache>,
    ) -> (r: Result<Array, LoraError>)
        requires
            input_ids.shape.rank() >= 1,
            cache is None ==> input_ids.shape.rank() >= 2 && phi_qlora_ready(old(self).layers@),
        ensures
            match cache {
                Some(c) => {
                    let end = old(self).cached_output(*input_ids, given(mask), c@);
                    outcome(r, end.0) && final(c)@ == end.1
                },
                None => outcome(r, old(self).masked_output(*input_ids, None)),
            },
            old(self).only_warmed(*final(self)),
    {
        match cache {
            Some(c) => checked(self.run_cached(input_ids, mask, c)),
            None => checked(self.run_masked(input_ids, None)),
        }
    }

    /// Bytes of the quantized weights, of the adapters, and of both and the biases.
    pub fn memory_usage(&self) -> (r: (usize, usize, usize))
        requires
            stack_measurable(self.layers@),
        ensures
            stack_memory(self.layers@).is(r),
    {
        measure_layers(&self.layers)
    }

    /// The number of trainable elements.
    pub fn num_trainable_params(&self) -> (r: usize)
        requires
            stack_countable(self.layers@),
        ensures
            r == trainable_total(self.layers@),
    {
        count_trainable(&self.layers)
    }
}

/// The embeddings can be made, and the layers where there are any.
pub open spec fn phi_qlora_buildable(config: PhiConfig, lora: QLoraConfig) -> bool {
    config.vocab_size >= 0 && config.hidden_size >= 0 && (config.num_hidden_layers > 0
        ==> PhiQloraDecoderLayer::buildable(config, lora))
}

/// The model with a head for logits.
#[derive(Debug)]
pub struct PhiQloraForCausalLM {
    pub model: PhiQloraModel,
    pub lm_head: Linear,
    pub checkpoint_config: Option<CheckpointConfig>,
}

impl PhiQloraForCausalLM {
    /// The logits.
    pub open spec fn output(self, ids: Array, mask: Option<Array>) -> Array {
        self.lm_head.output(self.model.output(ids, mask))
    }

    pub open spec fn cached_output(
        self,
        ids: Array,
        mask: Option<Array>,
        cache: KVCacheState,
    ) -> (Array, KVCacheState) {
        let end = self.model.cached_output(ids, mask, cache);
        (self.lm_head.output(end.0), end.1)
    }

    /// The model after its weights were restored.
    pub open spec fn only_warmed(self, after: PhiQloraForCausalLM) -> bool {
        &&& self.model.only_warmed(after.model)
        &&& after.lm_head == self.lm_head
        &&& after.checkpoint_config == self.checkpoint_config
    }

    /// The model that the settings give, before any weight is loaded.
    pub open spec fn is_fresh(self, config: PhiConfig, qlora_config: QLoraConfig) -> bool {
        &&& self.model.is_fresh(config, qlora_config)
        &&& self.lm_head == Linear::fresh(config.hidden_size, config.vocab_size, false)
        &&& self.checkpoint_config is None
    }

    /// A fresh model with the default quantization. Refused where an extent is unfit.
    pub fn new(config: PhiConfig, lora_config: LoraConfig) -> (r: Result<
        PhiQloraForCausalLM,
        LoraError,
    >)
        requires
            config.valid(),
            lora_config.valid(),
        ensures
            match r {
                Ok(m) => phi_qlora_buildable(config, QLoraConfig::of(lora_config)) && m.is_fresh(
                    config,
                    QLoraConfig::of(lora_config),
                ),
                Err(e) => e is Mlx && !phi_qlora_buildable(config, QLoraConfig::of(lora_config)),
            },
    {
        PhiQloraForCausalLM::with_qlora_config(config, QLoraConfig::from_lora(lora_config))
    }

    /// A fresh model. Refused where an extent is unfit.
    pub fn with_qlora_config(config: PhiConfig, qlora_config: QLoraConfig) -> (r: Result<
        PhiQloraForCausalLM,
        LoraError,
    >)
        requires
            config.valid(),
            qlora_config.lora.valid(),
        ensures
            match r {
                Ok(m) => phi_qlora_buildable(config, qlora_config) && m.is_fresh(
                    config,
                    qlora_config,
                ),
                Err(e) => e is Mlx && !phi_qlora_buildable(config, qlora_config),
            },
    {
        match PhiQloraModel::new(config, qlora_config) {
            Ok(model) => Ok(
                PhiQloraForCausalLM {
                    model,
                    lm_head: Linear::new(config.hidden_size, config.vocab_size, false),
                    checkpoint_config: None,
                },
            ),
            Err(_) => Err(misfit()),
        }
    }

    /// The logits.
    pub fn forward(&mut self, input_ids: &Array, mask: Option<&Array>) -> (r: Result<
        Array,
        LoraError,
    >)
        requires
            input_ids.shape.rank() >= 2,
            phi_qlora_ready(old(self).model.layers@),
        ensures
            outcome(r, old(self).output(*input_ids, given(mask))),
            old(self).only_warmed(*final(self)),
    {
        let hidden = self.model.run(input_ids, mask);
        checked(self.lm_head.run(&hidden))
    }

    /// The logits over what the cache holds and the input; without a cache, over the input
    /// alone, under no mask.
    pub fn forward_with_cache(
        &mut self,
        input_ids: &Array,
        mask: Option<&Array>,
        cache: Option<&mut KVCache>,
    ) -> (r: Result<Array, LoraError>)
        requires
            input_ids.shape.rank() >= 1,
            cache is None ==> input_ids.shape.rank() >= 2
                && phi_qlora_ready(old(self).model.layers@),
        ensures
            match cache {
                Some(c) => {
                    let end = old(self).cached_output(*input_ids, given(mask), c@);
                    outcome(r, end.0) && final(c)@ == end.1
                },
                None => outcome(
                    r,
                    old(self).lm_head.output(old(self).model.masked_output(*input_ids, None)),
                ),
            },
            old(self).only_warmed(*final(self)),
    {
        match cache {
            Some(c) => {
                let hidden = self.model.run_cached(input_ids, mask, c);
                checked(self.lm_head.run(&hidden))
            },
            None => {
                let hidden = self.model.run_masked(input_ids, None);
                checked(self.lm_head.run(&hidden))
            },
        }
    }

    /// An empty cache of the model's extents.
    pub fn create_cache(&self, max_seq_len: usize) -> (r: KVCache)
        requires
            self.model.config.valid(),
            self.model.config.num_hidden_layers >= 0,
            self.model.config.num_key_value_heads >= 0,
        ensures
            r@ == KVCacheState::fresh(
                KVCacheConfig {
                    num_layers: self.model.config.num_hidden_layers as usize,
                    max_seq_len,
                    num_kv_heads: self.model.config.num_key_value_heads as usize,
                    head_dim: self.model.config.head_size() as usize,
                },
            ),
    {
        KVCache::new(
            KVCacheConfig::new(
                self.model.config.num_hidden_layers as usize,
                max_seq_len,
                self.model.config.num_key_value_heads as usize,
                self.model.config.head_dim() as usize,
            ),
        )
    }

    /// The model with its layers replaced, and nothing else.
    pub open spec fn only_layers_changed(self, after: PhiQloraForCausalLM) -> bool {
        &&& after.model.config == self.model.config
        &&& after.model.qlora_config == self.model.qlora_config
        &&& after.model.embed_tokens == self.model.embed_tokens
        &&& after.model.norm == self.model.norm
        &&& after.lm_head == self.lm_head
        &&& after.checkpoint_config == self.checkpoint_config
    }

    /// Switches gradient checkpointing on.
    pub fn enable_gradient_checkpointing(&mut self, layers_per_block: usize)
        ensures
            *final(self) == (PhiQloraForCausalLM {
                checkpoint_config: Some(checkpointing(layers_per_block)),
                ..*old(self)
            }),
    {
        self.checkpoint_config = Some(make_checkpointing(layers_per_block));
    }

    /// Switches gradient checkpointing off.
    pub fn disable_gradient_checkpointing(&mut self)
        ensures
            *final(self) == (PhiQloraForCausalLM { checkpoint_config: None, ..*old(self) }),
    {
        self.checkpoint_config = None;
    }

    pub fn supports_gradient_checkpointing(&self) -> (r: bool)
        ensures
            r == true,
    {
        true
    }

    /// The number of trainable elements.
    pub fn num_trainable_params(&self) -> (r: usize)
        requires
            stack_countable(self.model.layers@),
        ensures
            r == trainable_total(self.model.layers@),
    {
        self.model.num_trainable_params()
    }

    /// The number of trainable elements.
    pub fn num_parameters(&self) -> (r: usize)
        requires
            stack_countable(self.model.layers@),
        ensures
            r == trainable_total(self.model.layers@),
    {
        self.model.num_trainable_params()
    }

    /// The matrices of all adapters, under their names.
    pub fn lora_parameters(&self) -> (r: NameMap<Array>)
        ensures
            r@ == parameter_map(NameStyle::Plain, self.model.layers@),
    {
        collect_parameters(&self.model.layers, NameStyle::Plain)
    }

    /// Replaces the adapters' matrices that the map names.
    pub fn set_lora_parameters(&mut self, params: &NameMap<Array>)
        ensures
            final(self).model.layers@ == assigned(
                NameStyle::Plain,
                old(self).model.layers@,
                params@,
            ),
            old(self).only_layers_changed(*final(self)),
    {
        assign_parameters(&mut self.model.layers, params, NameStyle::Plain);
    }

    /// The matrices of the adapters, layer by layer.
    pub fn parameters<'a>(&'a self) -> (r: Vec<LayerParamRef<'a>>)
        ensures
            lists_stack(r@, self.model.layers@),
    {
        parameter_refs(&self.model.layers)
    }

    /// The matrices of the adapters: all of them are trainable.
    pub fn trainable_parameters<'a>(&'a self) -> (r: Vec<LayerParamRef<'a>>)
        ensures
            lists_stack(r@, self.model.layers@),
    {
        parameter_refs(&self.model.layers)
    }

    /// The matrices of the adapters, layer by layer, open to replacement.
    pub fn parameters_mut<'a>(&'a mut self) -> (r: Vec<LayerParamMut<'a>>)
        ensures
            r@.len() == adapted_before(old(self).model.layers@, old(self).model.layers@.len()),
            forall|i: int|
                0 <= i < old(self).model.layers@.len() && (#[trigger] old(
                    self,
                ).model.layers@[i]).matrices().len() > 0 ==> {
                    let g = r@[adapted_before(old(self).model.layers@, i as nat) as int];
                    &&& g.layer == i
                    &&& g.entries@.len() == old(self).model.layers@[i].matrices().len()
                    &&& forall|j: int|
                        0 <= j < g.entries@.len() ==> {
                            &&& (#[trigger] g.entries@[j]).place == old(
                                self,
                            ).model.layers@[i].places()[j / 2]
                            &&& g.entries@[j].half == half_of(j)
                            &&& *g.entries@[j].value == old(self).model.layers@[i].matrices()[j]
                        }
                },
            final(self).model.layers@.len() == old(self).model.layers@.len(),
            forall|i: int|
                #![trigger final(self).model.layers@[i]]
                0 <= i < old(self).model.layers@.len() ==> {
                    let was = old(self).model.layers@[i];
                    let k = adapted_before(old(self).model.layers@, i as nat) as int;
                    &&& was.matrices().len() == 0 ==> final(self).model.layers@[i] == was
                    &&& was.matrices().len() > 0 ==> final(self).model.layers@[i]
                        == was.with_matrices(
                        Seq::new(r@[k].entries@.len(), |j: int| *final(r@[k].entries@[j].value)),
                    )
                },
            old(self).only_layers_changed(*final(self)),
    {
        stack_refs_mut(&mut self.model.layers)
    }

    /// Adapters cannot be frozen.
    pub fn freeze_parameters(&mut self, _recursive: bool)
        ensures
            *final(self) == *old(self),
    {
    }

    /// Adapters are never frozen.
    pub fn unfreeze_parameters(&mut self, _recursive: bool)
        ensures
            *final(self) == *old(self),
    {
    }

    pub fn all_frozen(&self) -> (r: Option<bool>)
        ensures
            r == Some(false),
    {
        Some(false)
    }

    pub fn any_frozen(&self) -> (r: Option<bool>)
        ensures
            r == Some(false),
    {
        Some(false)
    }


    /// The hidden states from which the logits follow.
    pub fn forward_hidden_states(&mut self, input_ids: &Array, mask: Option<&Array>) -> (r: Result<
        Array,
        LoraError,
    >)
        requires
            input_ids.shape.rank() >= 2,
            phi_qlora_ready(old(self).model.layers@),
        ensures
            outcome(r, old(self).model.output(*input_ids, given(mask))),
            old(self).only_warmed(*final(self)),
    {
        checked(self.model.run(input_ids, mask))
    }

    /// The same: the positions are those of the sequence, whatever is given.
    pub fn forward_hidden_states_with_positions(
        &mut self,
        input_ids: &Array,
        mask: Option<&Array>,
        _position_ids: &Array,
    ) -> (r: Result<Array, LoraError>)
        requires
            input_ids.shape.rank() >= 2,
            phi_qlora_ready(old(self).model.layers@),
        ensures
            outcome(r, old(self).model.output(*input_ids, given(mask))),
            old(self).only_warmed(*final(self)),
    {
        self.forward_hidden_states(input_ids, mask)
    }

    /// The logits: no noise is added, whatever is given.
    pub fn forward_noised(
        &mut self,
        input_ids: &Array,
        mask: Option<&Array>,
        _noise_alpha: F32,
    ) -> (r: Result<Array, LoraError>)
        requires
            input_ids.shape.rank() >= 2,
            phi_qlora_ready(old(self).model.layers@),
        ensures
            outcome(r, old(self).output(*input_ids, given(mask))),
            old(self).only_warmed(*final(self)),
    {
        self.forward(input_ids, mask)
    }

    /// The weight behind the logits.
    pub fn get_lm_head_weight(&self) -> (r: Option<Array>)
        ensures
            r == Some(self.lm_head.weight),
    {
        Some(self.lm_head.weight.clone())
    }

    /// Bytes of the quantized weights, of the adapters, and of both and the biases.
    pub fn memory_usage(&self) -> (r: (usize, usize, usize))
        requires
            stack_measurable(self.model.layers@),
        ensures
            stack_memory(self.model.layers@).is(r),
    {
        self.model.memory_usage()
    }

    /// The bytes of quantized weights and adapters, and those with the weights in single
    /// precision. Their ratio is what quantization saves.
    pub fn memory_savings(&self) -> (r: (usize, usize))
        requires
            stack_measurable(self.model.layers@),
            stack_memory(self.model.layers@).quantized + stack_memory(self.model.layers@).lora
                <= usize::MAX,
            stack_comparable(self.model.layers@),
        ensures
            r.0 == stack_memory(self.model.layers@).quantized + stack_memory(
                self.model.layers@,
            ).lora,
            r.1 == full_bytes_upto(self.model.layers@, self.model.layers@.len()) + stack_memory(
                self.model.layers@,
            ).lora,
    {
        let (quantized, lora, _) = self.model.memory_usage();
        (quantized + lora, count_full(&self.model.layers) + lora)
    }

    /// Refused: quantized weights take in no adapter without loss.
    pub fn merge_lora(&mut self) -> (r: Result<(), LoraError>)
        ensures
            r matches Err(LoraError::InvalidState(what)) && what@
                == "NF4 base cannot be losslessly merged — dequantize first"@,
            *final(self) == *old(self),
    {
        Err(
            LoraError::InvalidState(
                String::from_str("NF4 base cannot be losslessly merged — dequantize first"),
            ),
        )
    }

    /// Refused: there is no merge to undo.
    pub fn unmerge_lora(&mut self) -> (r: Result<(), LoraError>)
        ensures
            r matches Err(LoraError::InvalidState(what)) && what@
                == "NF4 base cannot be losslessly merged — dequantize first"@,
            *final(self) == *old(self),
    {
        Err(
            LoraError::InvalidState(
                String::from_str("NF4 base cannot be losslessly merged — dequantize first"),
            ),
        )
    }

    /// The matrices of the adapters, which are worth evaluating after a step of training.
    pub fn eval_lora_params(&self) -> (r: Vec<Array>)
        ensures
            r@ == stack_evaluated(self.model.layers@, self.model.layers@.len()),
    {
        let mut out: Vec<Array> = Vec::new();
        push_layers(&self.model.layers, &mut out);
        assert(out@ =~= stack_evaluated(self.model.layers@, self.model.layers@.len()));
        out
    }

    /// The layers before layer `i` are loaded, and those from it on are as they were.
    pub open spec fn loaded_before(
        self,
        after: PhiQloraForCausalLM,
        weights: Map<Seq<char>, Array>,
        i: int,
    ) -> bool {
        let config = self.model.qlora_config;
        &&& 0 <= i <= self.model.layers@.len()
        &&& after.model.layers@.len() == self.model.layers@.len()
        &&& forall|j: int|
            0 <= j < i ==> {
                &&& self.model.layers@[j].loadable(j as nat, weights, config)
                &&& #[trigger] after.model.layers@[j] == self.model.layers@[j].loaded(
                    j as nat,
                    weights,
                    config,
                )
            }
        &&& forall|j: int|
            i < j < self.model.layers@.len() ==> #[trigger] after.model.layers@[j]
                == self.model.layers@[j]
        &&& after.model.embed_tokens == loaded_table(
            self.model.embed_tokens,
            weights,
            "model.embed_tokens.weight"@,
        )
        &&& after.model.config == self.model.config
        &&& after.model.qlora_config == self.model.qlora_config
        &&& after.checkpoint_config == self.checkpoint_config
    }

    /// Loading stopped at projection `k` of layer `i`, whose weight cannot be quantized.
    pub open spec fn loading_stopped(
        self,
        after: PhiQloraForCausalLM,
        weights: Map<Seq<char>, Array>,
        i: int,
        k: int,
    ) -> bool {
        let config = self.model.qlora_config;
        &&& self.loaded_before(after, weights, i)
        &&& i < self.model.layers@.len()
        &&& self.model.layers@[i].load_stops_at(i as nat, weights, config, k)
        &&& after.model.layers@[i] == self.model.layers@[i].loaded_first(
            i as nat,
            weights,
            config,
            k,
        )
        &&& after.model.norm == self.model.norm
        &&& after.lm_head == self.lm_head
    }

    /// Loading stopped at a weight that cannot be quantized.
    pub open spec fn loading_failed(
        self,
        after: PhiQloraForCausalLM,
        weights: Map<Seq<char>, Array>,
    ) -> bool {
        exists|i: int, k: int| #[trigger] self.loading_stopped(after, weights, i, k)
    }

    /// Replaces the frozen weights that the map names; those of projections are quantized, and
    /// get fresh adapters. Stops at the first weight that cannot be quantized.
    pub fn load_and_quantize_weights(&mut self, weights: &NameMap<Array>) -> (r: Result<
        (),
        LoraError,
    >)
        requires
            old(self).model.qlora_config.lora.valid(),
        ensures
            match r {
                Ok(_) => {
                    &&& old(self).loaded_before(
                        *final(self),
                        weights@,
                        old(self).model.layers@.len() as int,
                    )
                    &&& final(self).model.norm == loaded_norm(
                        old(self).model.norm,
                        weights@,
                        "model.norm.weight"@,
                    )
                    &&& final(self).lm_head == loaded_linear(
                        old(self).lm_head,
                        weights@,
                        "lm_head.weight"@,
                    )
                },
                Err(e) => e is Mlx && old(self).loading_failed(*final(self), weights@),
            },
    {
        let config = self.model.qlora_config;
        load_table(&mut self.model.embed_tokens, weights, "model.embed_tokens.weight");
        let mut i: usize = 0;
        while i < self.model.layers.len()
            invariant
                i <= self.model.layers@.len(),
                config == old(self).model.qlora_config,
                config.lora.valid(),
                old(self).loaded_before(*self, weights@, i as int),
                i < self.model.layers@.len() ==> self.model.layers@[i as int] == old(
                    self,
                ).model.layers@[i as int],
                self.model.norm == old(self).model.norm,
                self.lm_head == old(self).lm_head,
            decreases self.model.layers.len() - i,
        {
            let ghost now = self.model.layers@;
            let r = self.model.layers[i].load(i, weights, &config);
            assert(forall|j: int|
                0 <= j < now.len() && j != i ==> #[trigger] self.model.layers@[j] == now[j]);
            if r.is_err() {
                proof {
                    let was = old(self).model.layers@[i as int];
                    let k = choose|k: int|
                        #[trigger] was.load_stops_at(i as nat, weights@, config, k)
                            && self.model.layers@[i as int] == was.loaded_first(
                            i as nat,
                            weights@,
                            config,
                            k,
                        );
                    assert(old(self).loading_stopped(*self, weights@, i as int, k));
                }
                return Err(misfit());
            }
            i = i + 1;
        }
        load_norm(&mut self.model.norm, weights, &String::from_str("model.norm.weight"));
        load_linear(&mut self.lm_head, weights, &String::from_str("lm_head.weight"));
        Ok(())
    }

    pub fn config(&self) -> (r: &PhiConfig)
        ensures
            *r == self.model.config,
    {
        &self.model.config
    }

    pub fn qlora_config(&self) -> (r: &QLoraConfig)
        ensures
            *r == self.model.qlora_config,
    {
        &self.model.qlora_config
    }

    pub fn supports_kv_cache(&self) -> (r: bool)
        ensures
            r,
    {
        true
    }
}

} // verus!
