//! Phi with adapters: attention that rotates part of each head, and an MLP with a fused first
//! projection.

use crate::array::{
    Array, AttentionMaskType, Function, FusedAttentionConfig, RopeConfig, apply, attend, concat,
    lemma_combine_rank, lemma_embed_rank, lemma_embed_rank_from, lemma_rms_norm_shape, plus,
    reshape, rope, swap_middle,
};
use crate::attention::{
    create_causal_mask, first_part, gated, given, last_part, make_first_part, make_gated,
    make_last_part, make_match_heads, make_merge_heads, make_merge_heads_to, make_plain_attention,
    make_third_first, make_third_last, make_unfit, mask_or_causal, match_heads, merge_heads,
    merge_heads_to, plain_attention, third_first, third_last, unfit,
};
use crate::config::{CheckpointConfig, LoraConfig, checkpointing, make_checkpointing};
use crate::error::{LoraError, checked, misfit, outcome};
use crate::evaluation::{EvalLayer, list_evaluated, model_evaluated};
use crate::kv_cache::{KVCache, KVCacheConfig, KVCacheState};
use crate::lora::{Adapter, LoraLinear};
use crate::name_map::NameMap;
use crate::names::{NameStyle, Proj, Section};
use crate::nn::{Embedding, Linear, RmsNorm};
use crate::params::{
    LayerParamMut, LayerParamRef, LoraLayer, ParamMut, ParamRef, Place, adapted_before,
    adapter_refs_mut, assign_adapter, assign_parameters, assigned, at, collect_adapter,
    collect_parameters, count_trainable, half_of, lists_stack, parameter_map, parameter_refs,
    push_refs, stack_countable, stack_refs_mut, trainable_total, with_named,
};
use crate::scalar::{F32, ONE_BITS, Scale};
use crate::shape::Shape;
use crate::weights::{
    base_name, load_biased, load_linear, load_lora, load_norm, load_table, loaded, loaded_biased,
    loaded_linear, loaded_norm, loaded_table, make_base_name, make_part_name, part_name,
};
use vstd::prelude::*;
use vstd::string::*;

verus! {

/// Root-mean-square normalization.
pub type PhiLoraRmsNorm = RmsNorm;

/// What the MLP applies between its projections.
#[derive(Clone, Copy, PartialEq, Eq, Structural, Debug)]
pub enum PhiActivation {
    SwiGLU,
    GeluApprox,
    GeluExact,
}

/// The extents and settings of a Phi model.
#[derive(Clone, Copy, PartialEq, Eq, Structural, Debug)]
pub struct PhiConfig {
    pub vocab_size: i32,
    pub hidden_size: i32,
    pub intermediate_size: i32,
    pub num_hidden_layers: i32,
    pub num_attention_heads: i32,
    pub num_key_value_heads: i32,
    pub rope_theta: F32,
    /// The number of features of a head that rotate: its share of them, rounded down.
    pub rope_dim: i32,
    pub rms_norm_eps: F32,
    pub qkv_bias: bool,
    pub hidden_act: PhiActivation,
}

impl PhiConfig {
    pub open spec fn head_size(self) -> i32 {
        (self.hidden_size / self.num_attention_heads) as i32
    }

    /// Twice the inner size where gate and input stand side by side.
    pub open spec fn proj_size(self) -> int {
        match self.hidden_act {
            PhiActivation::SwiGLU => self.intermediate_size * 2,
            _ => self.intermediate_size as int,
        }
    }

    /// The extents of a head follow, and those of all heads and of the MLP fit a machine word.
    pub open spec fn valid(self) -> bool {
        &&& self.num_attention_heads > 0 && self.hidden_size >= 0
        &&& i32::MIN <= self.num_attention_heads * self.head_size() <= i32::MAX
        &&& i32::MIN <= self.num_key_value_heads * self.head_size() <= i32::MAX
        &&& i32::MIN <= self.proj_size() <= i32::MAX
    }

    /// The hidden size over the number of query heads.
    pub fn head_dim(&self) -> (r: i32)
        requires
            self.valid(),
        ensures
            r == self.head_size(),
    {
        self.hidden_size / self.num_attention_heads
    }
}

/// Partly rotated attention with adapters on its four projections.
#[derive(Debug)]
pub struct PhiLoraAttention {
    pub q_proj: LoraLinear,
    pub k_proj: LoraLinear,
    pub v_proj: LoraLinear,
    pub o_proj: LoraLinear,
    pub rope: RopeConfig,
    pub n_heads: i32,
    pub n_kv_heads: i32,
    pub head_dim: i32,
    /// The number of features of a head that rotate.
    pub rope_dim: i32,
    pub scale: Scale,
}

impl PhiLoraAttention {
    /// The layer of a fresh model.
    pub open spec fn fresh(config: PhiConfig, lora: LoraConfig) -> PhiLoraAttention {
        let d = config.head_size();
        let h = config.hidden_size;
        let q = (config.num_attention_heads * d) as i32;
        let kv = (config.num_key_value_heads * d) as i32;
        let r = lora.r as i32;
        PhiLoraAttention {
            q_proj: LoraLinear::fresh(h, q, r, lora.alpha, lora.use_rslora, config.qkv_bias),
            k_proj: LoraLinear::fresh(h, kv, r, lora.alpha, lora.use_rslora, config.qkv_bias),
            v_proj: LoraLinear::fresh(h, kv, r, lora.alpha, lora.use_rslora, config.qkv_bias),
            o_proj: LoraLinear::fresh(q, h, r, lora.alpha, lora.use_rslora, false),
            rope: RopeConfig {
                dims: config.rope_dim,
                base: config.rope_theta,
                scale: F32 { bits: ONE_BITS },
            },
            n_heads: config.num_attention_heads,
            n_kv_heads: config.num_key_value_heads,
            head_dim: d,
            rope_dim: config.rope_dim,
            scale: Scale::InverseSqrt { n: d },
        }
    }

    /// Projected inputs as `[batch, length, heads, features]`.
    pub open spec fn heads(self, y: Array, x: Array, n: i32) -> Array {
        reshape(y, Shape::D4(x.shape.outer(), x.shape.second(), n, self.head_dim))
    }

    /// The first features of each head rotated, the others as they are.
    pub open spec fn rotated(self, x: Array, offset: i32) -> Array {
        concat(
            rope(first_part(x, self.rope_dim), self.rope, offset),
            last_part(x, self.rope_dim),
            0,
        )
    }

    /// Attention over the input alone, with the heads written out.
    pub open spec fn output(self, x: Array, mask: Option<Array>) -> Array {
        let p = self.parts(x, 0);
        let mixed = plain_attention(
            p.0,
            match_heads(p.1, self.n_heads, self.n_kv_heads),
            match_heads(p.2, self.n_heads, self.n_kv_heads),
            self.scale,
            mask,
        );
        self.o_proj.output(
            merge_heads_to(
                mixed,
                x.shape.outer(),
                x.shape.second(),
                (self.n_heads * self.head_dim) as i32,
            ),
        )
    }

    /// Causal.
    pub open spec fn fused_config(self) -> FusedAttentionConfig {
        FusedAttentionConfig {
            num_heads: self.n_heads,
            num_kv_heads: self.n_kv_heads,
            head_dim: self.head_dim,
            scale: self.scale,
            mask_type: AttentionMaskType::Causal,
        }
    }

    /// Rotated queries, rotated keys and values of the input.
    pub open spec fn parts(self, x: Array, offset: i32) -> (Array, Array, Array) {
        (
            self.rotated(
                swap_middle(self.heads(self.q_proj.output(x), x, self.n_heads)),
                offset,
            ),
            self.rotated(
                swap_middle(self.heads(self.k_proj.output(x), x, self.n_kv_heads)),
                offset,
            ),
            swap_middle(self.heads(self.v_proj.output(x), x, self.n_kv_heads)),
        )
    }

    /// Fused attention of rotated queries and keys, projected.
    pub open spec fn fused(
        self,
        x: Array,
        q: Array,
        k: Array,
        v: Array,
        mask: Option<Array>,
    ) -> Array {
        let mixed = attend(q, k, v, self.fused_config(), mask);
        self.o_proj.output(merge_heads(mixed, x.shape.outer(), x.shape.second()))
    }

    /// Fused attention over the input alone.
    pub open spec fn fused_output(self, x: Array, mask: Option<Array>) -> Array {
        let p = self.parts(x, 0);
        self.fused(x, p.0, p.1, p.2, mask)
    }

    /// Fused attention over what the cache holds and the input, and the cache behind it. An
    /// input that does not fit leaves the cache as it is.
    pub open spec fn cached_output(
        self,
        x: Array,
        mask: Option<Array>,
        cache: KVCacheState,
        layer: int,
    ) -> (Array, KVCacheState) {
        let p = self.parts(x, cache.offset);
        if p.0.fits && p.1.fits && p.2.fits && cache.accepts(layer, p.1, p.2) {
            let both = cache.joined(layer, p.1, p.2);
            (self.fused(x, p.0, both.0, both.1, mask), cache.extended(layer, p.1, p.2))
        } else {
            (self.o_proj.output(unfit(x)), cache)
        }
    }

    /// There are key heads, and the width of all heads fits a machine word.
    pub open spec fn ready(self) -> bool {
        self.n_kv_heads > 0 && i32::MIN <= self.n_heads * self.head_dim <= i32::MAX
    }

    pub open spec fn trainable(self) -> nat {
        self.q_proj.trainable() + self.k_proj.trainable() + self.v_proj.trainable()
            + self.o_proj.trainable()
    }

    pub open spec fn countable(self) -> bool {
        self.q_proj.countable() && self.k_proj.countable() && self.v_proj.countable()
            && self.o_proj.countable()
    }

    /// No extent is negative.
    pub open spec fn buildable(config: PhiConfig) -> bool {
        config.hidden_size >= 0 && config.num_attention_heads * config.head_size() >= 0
            && config.num_key_value_heads * config.head_size() >= 0
    }

    /// A fresh layer. Refused where an extent is negative.
    pub fn new(config: &PhiConfig, lora_config: &LoraConfig) -> (r: Result<
        PhiLoraAttention,
        LoraError,
    >)
        requires
            config.valid(),
            lora_config.valid(),
        ensures
            match r {
                Ok(a) => PhiLoraAttention::buildable(*config) && a == PhiLoraAttention::fresh(
                    *config,
                    *lora_config,
                ),
                Err(e) => e is Mlx && !PhiLoraAttention::buildable(*config),
            },
    {
        let head_dim = config.head_dim();
        let hidden = config.hidden_size;
        let rank: i32 = lora_config.r as i32;
        let alpha = lora_config.alpha;
        let rs = lora_config.use_rslora;
        let q: i32 = config.num_attention_heads * head_dim;
        let kv: i32 = config.num_key_value_heads * head_dim;
        match (
            LoraLinear::new(hidden, q, rank, alpha, rs, config.qkv_bias),
            LoraLinear::new(hidden, kv, rank, alpha, rs, config.qkv_bias),
            LoraLinear::new(hidden, kv, rank, alpha, rs, config.qkv_bias),
            LoraLinear::new(q, hidden, rank, alpha, rs, false),
        ) {
            (Ok(q_proj), Ok(k_proj), Ok(v_proj), Ok(o_proj)) => Ok(
                PhiLoraAttention {
                    q_proj,
                    k_proj,
                    v_proj,
                    o_proj,
                    rope: RopeConfig {
                        dims: config.rope_dim,
                        base: config.rope_theta,
                        scale: F32 { bits: ONE_BITS },
                    },
                    n_heads: config.num_attention_heads,
                    n_kv_heads: config.num_key_value_heads,
                    head_dim,
                    rope_dim: config.rope_dim,
                    scale: Scale::InverseSqrt { n: head_dim },
                },
            ),
            _ => Err(misfit()),
        }
    }

    fn run_heads(&self, y: &Array, x: &Array, n: i32) -> (r: Array)
        requires
            x.shape.rank() >= 2,
        ensures
            r == self.heads(*y, *x, n),
    {
        let (batch, length) = x.shape.outer_two();
        y.reshape(Shape::D4(batch, length, n, self.head_dim))
    }

    fn run_rotated(&self, x: &Array, offset: i32) -> (r: Array)
        ensures
            r == self.rotated(*x, offset),
    {
        let turning = make_first_part(x, self.rope_dim).rope(self.rope, offset);
        turning.concat(&make_last_part(x, self.rope_dim), 0)
    }

    pub(crate) fn run(&self, x: &Array, mask: Option<&Array>) -> (r: Array)
        requires
            x.shape.rank() >= 3,
            self.ready(),
        ensures
            r == self.output(*x, given(mask)),
    {
        let (batch, length) = x.shape.outer_two();
        let (q, k, v) = self.run_parts(x, 0);
        let mixed = make_plain_attention(
            &q,
            &make_match_heads(&k, self.n_heads, self.n_kv_heads),
            &make_match_heads(&v, self.n_heads, self.n_kv_heads),
            self.scale,
            mask,
        );
        let width: i32 = self.n_heads * self.head_dim;
        self.o_proj.run(&make_merge_heads_to(&mixed, batch, length, width))
    }

    fn run_parts(&self, x: &Array, offset: i32) -> (r: (Array, Array, Array))
        requires
            x.shape.rank() >= 2,
        ensures
            r == self.parts(*x, offset),
    {
        let q = self.q_proj.run(x);
        let k = self.k_proj.run(x);
        let v = self.v_proj.run(x);
        (
            self.run_rotated(&self.run_heads(&q, x, self.n_heads).swap_middle(), offset),
            self.run_rotated(&self.run_heads(&k, x, self.n_kv_heads).swap_middle(), offset),
            self.run_heads(&v, x, self.n_kv_heads).swap_middle(),
        )
    }

    fn run_fused(
        &self,
        x: &Array,
        q: &Array,
        k: &Array,
        v: &Array,
        mask: Option<&Array>,
    ) -> (r: Array)
        requires
            x.shape.rank() >= 2,
        ensures
            r == self.fused(*x, *q, *k, *v, given(mask)),
    {
        let (batch, length) = x.shape.outer_two();
        let config = FusedAttentionConfig {
            num_heads: self.n_heads,
            num_kv_heads: self.n_kv_heads,
            head_dim: self.head_dim,
            scale: self.scale,
            mask_type: AttentionMaskType::Causal,
        };
        let mixed = q.attend(k, v, config, mask);
        self.o_proj.run(&make_merge_heads(&mixed, batch, length))
    }

    pub(crate) fn run_cached(
        &self,
        x: &Array,
        mask: Option<&Array>,
        cache: &mut KVCache,
        layer: usize,
    ) -> (r: Array)
        requires
            x.shape.rank() >= 2,
        ensures
            (r, final(cache)@) == self.cached_output(
                *x,
                given(mask),
                old(cache)@,
                layer as int,
            ),
    {
        let offset = cache.rope_offset();
        let (q, k, v) = self.run_parts(x, offset);
        if q.fits && k.fits && v.fits {
            match cache.update_and_fetch(layer, &k, &v) {
                Ok((keys, values)) => {
                    return self.run_fused(x, &q, &keys, &values, mask);
                },
                Err(_) => {},
            }
        }
        self.o_proj.run(&make_unfit(x))
    }

    pub(crate) fn run_fused_alone(&self, x: &Array, mask: Option<&Array>) -> (r: Array)
        requires
            x.shape.rank() >= 2,
        ensures
            r == self.fused_output(*x, given(mask)),
    {
        let (q, k, v) = self.run_parts(x, 0);
        self.run_fused(x, &q, &k, &v, mask)
    }

    /// Attention over the input alone.
    pub fn forward(&self, x: &Array, mask: Option<&Array>) -> (r: Result<Array, LoraError>)
        requires
            x.shape.rank() >= 3,
            self.ready(),
        ensures
            outcome(r, self.output(*x, given(mask))),
    {
        checked(self.run(x, mask))
    }

    /// Fused attention over what the cache holds for the layer and the input.
    pub fn forward_with_cache(
        &self,
        x: &Array,
        mask: Option<&Array>,
        cache: Option<(&mut KVCache, usize)>,
    ) -> (r: Result<Array, LoraError>)
        requires
            x.shape.rank() >= 2,
        ensures
            match cache {
                Some(c) => {
                    let end = self.cached_output(*x, given(mask), c.0@, c.1 as int);
                    outcome(r, end.0) && final(c.0)@ == end.1
                },
                None => outcome(r, self.fused_output(*x, given(mask))),
            },
    {
        match cache {
            Some((c, layer)) => checked(self.run_cached(x, mask, c, layer)),
            None => checked(self.run_fused_alone(x, mask)),
        }
    }

    /// The number of trainable elements.
    pub fn num_trainable_params(&self) -> (r: usize)
        requires
            self.countable(),
            self.trainable() <= usize::MAX,
        ensures
            r == self.trainable(),
    {
        self.q_proj.num_trainable_params() + self.k_proj.num_trainable_params()
            + self.v_proj.num_trainable_params() + self.o_proj.num_trainable_params()
    }
}

/// MLP with adapters on its two projections, the first of which may hold gate and input side by
/// side.
#[derive(Debug)]
pub struct PhiLoraMLP {
    pub gate_up_proj: LoraLinear,
    pub down_proj: LoraLinear,
    pub activation: PhiActivation,
    pub intermediate_size: i32,
}

impl PhiLoraMLP {
    /// The layer of a fresh model.
    pub open spec fn fresh(config: PhiConfig, lora: LoraConfig) -> PhiLoraMLP {
        let h = config.hidden_size;
        let n = config.intermediate_size;
        let r = lora.r as i32;
        let p = config.proj_size() as i32;
        PhiLoraMLP {
            gate_up_proj: LoraLinear::fresh(h, p, r, lora.alpha, lora.use_rslora, false),
            down_proj: LoraLinear::fresh(n, h, r, lora.alpha, lora.use_rslora, false),
            activation: config.hidden_act,
            intermediate_size: n,
        }
    }

    /// Gate and input split and multiplied, or the one input, activated.
    pub open spec fn activated(self, hidden: Array) -> Array {
        match self.activation {
            PhiActivation::SwiGLU => gated(
                third_first(hidden, self.intermediate_size),
                third_last(hidden, self.intermediate_size),
            ),
            _ => apply(Function::Gelu, hidden),
        }
    }

    pub open spec fn output(self, x: Array) -> Array {
        self.down_proj.output(self.activated(self.gate_up_proj.output(x)))
    }

    pub open spec fn trainable(self) -> nat {
        self.gate_up_proj.trainable() + self.down_proj.trainable()
    }

    pub open spec fn countable(self) -> bool {
        self.gate_up_proj.countable() && self.down_proj.countable()
    }

    /// A fresh layer. Refused where an extent is negative.
    pub fn new(config: &PhiConfig, lora_config: &LoraConfig) -> (r: Result<PhiLoraMLP, LoraError>)
        requires
            config.valid(),
            lora_config.valid(),
        ensures
            match r {
                Ok(m) => config.hidden_size >= 0 && config.intermediate_size >= 0 && m
                    == PhiLoraMLP::fresh(*config, *lora_config),
                Err(e) => e is Mlx && !(config.hidden_size >= 0 && config.intermediate_size >= 0),
            },
    {
        let hidden = config.hidden_size;
        let inner = config.intermediate_size;
        let rank: i32 = lora_config.r as i32;
        let alpha = lora_config.alpha;
        let rs = lora_config.use_rslora;
        let proj: i32 = match config.hidden_act {
            PhiActivation::SwiGLU => inner * 2,
            PhiActivation::GeluApprox | PhiActivation::GeluExact => inner,
        };
        match (
            LoraLinear::new(hidden, proj, rank, alpha, rs, false),
            LoraLinear::new(inner, hidden, rank, alpha, rs, false),
        ) {
            (Ok(gate_up_proj), Ok(down_proj)) => Ok(
                PhiLoraMLP {
                    gate_up_proj,
                    down_proj,
                    activation: config.hidden_act,
                    intermediate_size: inner,
                },
            ),
            _ => Err(misfit()),
        }
    }

    pub(crate) fn run(&self, x: &Array) -> (r: Array)
        ensures
            r == self.output(*x),
    {
        let hidden = self.gate_up_proj.run(x);
        let activated = match self.activation {
            PhiActivation::SwiGLU => make_gated(
                &make_third_first(&hidden, self.intermediate_size),
                &make_third_last(&hidden, self.intermediate_size),
            ),
            PhiActivation::GeluApprox | PhiActivation::GeluExact => hidden.apply(Function::Gelu),
        };
        self.down_proj.run(&activated)
    }

    /// The layer's output.
    pub fn forward(&self, x: &Array) -> (r: Result<Array, LoraError>)
        ensures
            outcome(r, self.output(*x)),
    {
        checked(self.run(x))
    }

    /// The number of trainable elements.
    pub fn num_trainable_params(&self) -> (r: usize)
        requires
            self.countable(),
            self.trainable() <= usize::MAX,
        ensures
            r == self.trainable(),
    {
        self.gate_up_proj.num_trainable_params() + self.down_proj.num_trainable_params()
    }
}

/// Attention and MLP, each behind a normalization and beside a residual connection.
#[derive(Debug)]
pub struct PhiLoraDecoderLayer {
    pub self_attn: PhiLoraAttention,
    pub mlp: PhiLoraMLP,
    pub input_layernorm: PhiLoraRmsNorm,
    pub post_attention_layernorm: PhiLoraRmsNorm,
}

impl PhiLoraDecoderLayer {
    /// The layer of a fresh model.
    pub open spec fn fresh(config: PhiConfig, lora: LoraConfig) -> PhiLoraDecoderLayer {
        PhiLoraDecoderLayer {
            self_attn: PhiLoraAttention::fresh(config, lora),
            mlp: PhiLoraMLP::fresh(config, lora),
            input_layernorm: RmsNorm::fresh(config.hidden_size, config.rms_norm_eps),
            post_attention_layernorm: RmsNorm::fresh(config.hidden_size, config.rms_norm_eps),
        }
    }

    /// The MLP's part, on top of an input to which attention was added.
    pub open spec fn finish(self, h: Array) -> Array {
        plus(h, self.mlp.output(self.post_attention_layernorm.output(h)))
    }

    pub open spec fn output(self, x: Array, mask: Option<Array>) -> Array {
        self.finish(plus(x, self.self_attn.output(self.input_layernorm.output(x), mask)))
    }

    pub open spec fn fused_output(self, x: Array, mask: Option<Array>) -> Array {
        self.finish(plus(x, self.self_attn.fused_output(self.input_layernorm.output(x), mask)))
    }

    pub open spec fn cached_output(
        self,
        x: Array,
        mask: Option<Array>,
        cache: KVCacheState,
        layer: int,
    ) -> (Array, KVCacheState) {
        let end = self.self_attn.cached_output(self.input_layernorm.output(x), mask, cache, layer);
        (self.finish(plus(x, end.0)), end.1)
    }

    /// Both parts can be made.
    pub open spec fn buildable(config: PhiConfig, lora: LoraConfig) -> bool {
        PhiLoraAttention::buildable(config) && config.intermediate_size >= 0
    }

    /// A fresh layer. Refused where an extent is unfit.
    pub fn new(
        config: &PhiConfig,
        lora_config: &LoraConfig,
    ) -> (r: Result<PhiLoraDecoderLayer, LoraError>)
        requires
            config.valid(),
            lora_config.valid(),
        ensures
            match r {
                Ok(l) => PhiLoraDecoderLayer::buildable(*config, *lora_config)
                    && l == PhiLoraDecoderLayer::fresh(
                    *config,
                    *lora_config,
                ),
                Err(e) => e is Mlx && !PhiLoraDecoderLayer::buildable(*config, *lora_config),
            },
    {
        match (PhiLoraAttention::new(config, lora_config), PhiLoraMLP::new(config, lora_config)) {
            (Ok(self_attn), Ok(mlp)) => Ok(
                PhiLoraDecoderLayer {
                    self_attn,
                    mlp,
                    input_layernorm: RmsNorm::new(config.hidden_size, config.rms_norm_eps),
                    post_attention_layernorm: RmsNorm::new(config.hidden_size, config.rms_norm_eps),
                },
            ),
            _ => Err(misfit()),
        }
    }

    fn run_finish(&self, h: &Array) -> (r: Array)
        ensures
            r == self.finish(*h),
    {
        let normed = self.post_attention_layernorm.run(h);
        h.add(&self.mlp.run(&normed))
    }

    pub(crate) fn run(&self, x: &Array, mask: Option<&Array>) -> (r: Array)
        requires
            x.shape.rank() >= 3,
            self.self_attn.ready(),
        ensures
            r == self.output(*x, given(mask)),
            r.shape.rank() >= x.shape.rank(),
    {
        broadcast use {lemma_rms_norm_shape, lemma_combine_rank};

        let normed = self.input_layernorm.run(x);
        let mixed = self.self_attn.run(&normed, mask);
        self.run_finish(&x.add(&mixed))
    }

    pub(crate) fn run_cached(
        &self,
        x: &Array,
        mask: Option<&Array>,
        cache: &mut KVCache,
        layer: usize,
    ) -> (r: Array)
        requires
            x.shape.rank() >= 2,
        ensures
            (r, final(cache)@) == self.cached_output(
                *x,
                given(mask),
                old(cache)@,
                layer as int,
            ),
            r.shape.rank() >= x.shape.rank(),
    {
        broadcast use {lemma_rms_norm_shape, lemma_combine_rank};

        let normed = self.input_layernorm.run(x);
        let mixed = self.self_attn.run_cached(&normed, mask, cache, layer);
        self.run_finish(&x.add(&mixed))
    }

    /// The layer's output.
    pub fn forward(&self, x: &Array, mask: Option<&Array>) -> (r: Result<Array, LoraError>)
        requires
            x.shape.rank() >= 3,
            self.self_attn.ready(),
        ensures
            outcome(r, self.output(*x, given(mask))),
    {
        checked(self.run(x, mask))
    }

    /// The layer's output, by fused attention over what the cache holds and the input.
    pub fn forward_with_cache(
        &self,
        x: &Array,
        mask: Option<&Array>,
        cache: Option<(&mut KVCache, usize)>,
    ) -> (r: Result<Array, LoraError>)
        requires
            x.shape.rank() >= 2,
        ensures
            match cache {
                Some(c) => {
                    let end = self.cached_output(*x, given(mask), c.0@, c.1 as int);
                    outcome(r, end.0) && final(c.0)@ == end.1
                },
                None => outcome(r, self.fused_output(*x, given(mask))),
            },
    {
        broadcast use lemma_rms_norm_shape;

        match cache {
            Some((c, layer)) => checked(self.run_cached(x, mask, c, layer)),
            None => {
                let normed = self.input_layernorm.run(x);
                let mixed = self.self_attn.run_fused_alone(&normed, mask);
                checked(self.run_finish(&x.add(&mixed)))
            },
        }
    }

    /// The number of trainable elements.
    pub fn num_trainable_params(&self) -> (r: usize)
        requires
            self.countable(),
            LoraLayer::trainable(*self) <= usize::MAX,
        ensures
            r == LoraLayer::trainable(*self),
    {
        self.self_attn.num_trainable_params() + self.mlp.num_trainable_params()
    }

    /// The layer with the frozen weights that have its names.
    pub open spec fn loaded(self, i: nat, weights: Map<Seq<char>, Array>) -> PhiLoraDecoderLayer {
        let m = "model"@;
        PhiLoraDecoderLayer {
            self_attn: PhiLoraAttention {
                q_proj: loaded_biased(
                    self.self_attn.q_proj,
                    weights,
                    base_name(m, i, Section::SelfAttn, Proj::Q),
                    part_name(m, i, "self_attn.q_proj.bias"@),
                ),
                k_proj: loaded_biased(
                    self.self_attn.k_proj,
                    weights,
                    base_name(m, i, Section::SelfAttn, Proj::K),
                    part_name(m, i, "self_attn.k_proj.bias"@),
                ),
                v_proj: loaded_biased(
                    self.self_attn.v_proj,
                    weights,
                    base_name(m, i, Section::SelfAttn, Proj::V),
                    part_name(m, i, "self_attn.v_proj.bias"@),
                ),
                o_proj: loaded(
                    self.self_attn.o_proj,
                    weights,
                    base_name(m, i, Section::SelfAttn, Proj::O),
                ),
                ..self.self_attn
            },
            mlp: PhiLoraMLP {
                gate_up_proj: loaded(
                    self.mlp.gate_up_proj,
                    weights,
                    base_name(m, i, Section::Mlp, Proj::GateUp),
                ),
                down_proj: loaded(
                    self.mlp.down_proj,
                    weights,
                    base_name(m, i, Section::Mlp, Proj::Down),
                ),
                ..self.mlp
            },
            input_layernorm: loaded_norm(
                self.input_layernorm,
                weights,
                part_name(m, i, "input_layernorm.weight"@),
            ),
            post_attention_layernorm: loaded_norm(
                self.post_attention_layernorm,
                weights,
                part_name(m, i, "post_attention_layernorm.weight"@),
            ),
        }
    }

    fn load(&mut self, i: usize, weights: &NameMap<Array>)
        ensures
            *final(self) == old(self).loaded(i as nat, weights@),
    {
        let a = Section::SelfAttn;
        let m = Section::Mlp;
        load_biased(
            &mut self.self_attn.q_proj,
            weights,
            &make_base_name("model", i, a, Proj::Q),
            &make_part_name("model", i, "self_attn.q_proj.bias"),
        );
        load_biased(
            &mut self.self_attn.k_proj,
            weights,
            &make_base_name("model", i, a, Proj::K),
            &make_part_name("model", i, "self_attn.k_proj.bias"),
        );
        load_biased(
            &mut self.self_attn.v_proj,
            weights,
            &make_base_name("model", i, a, Proj::V),
            &make_part_name("model", i, "self_attn.v_proj.bias"),
        );
        load_lora(&mut self.self_attn.o_proj, weights, &make_base_name("model", i, a, Proj::O));
        load_lora(
            &mut self.mlp.gate_up_proj,
            weights,
            &make_base_name("model", i, m, Proj::GateUp),
        );
        load_lora(&mut self.mlp.down_proj, weights, &make_base_name("model", i, m, Proj::Down));
        load_norm(
            &mut self.input_layernorm,
            weights,
            &make_part_name("model", i, "input_layernorm.weight"),
        );
        load_norm(
            &mut self.post_attention_layernorm,
            weights,
            &make_part_name("model", i, "post_attention_layernorm.weight"),
        );
    }
}

impl LoraLayer for PhiLoraDecoderLayer {
    open spec fn places(self) -> Seq<Place> {
        seq![
            at(Section::SelfAttn, Proj::Q), at(Section::SelfAttn, Proj::K),
            at(Section::SelfAttn, Proj::V), at(Section::SelfAttn, Proj::O),
            at(Section::Mlp, Proj::GateUp), at(Section::Mlp, Proj::Down)
        ]
    }

    open spec fn matrices(self) -> Seq<Array> {
        seq![
            self.self_attn.q_proj.a(), self.self_attn.q_proj.b(), self.self_attn.k_proj.a(),
            self.self_attn.k_proj.b(), self.self_attn.v_proj.a(), self.self_attn.v_proj.b(),
            self.self_attn.o_proj.a(), self.self_attn.o_proj.b(), self.mlp.gate_up_proj.a(),
            self.mlp.gate_up_proj.b(), self.mlp.down_proj.a(), self.mlp.down_proj.b()
        ]
    }

    open spec fn with_matrices(self, m: Seq<Array>) -> PhiLoraDecoderLayer {
        PhiLoraDecoderLayer {
            self_attn: PhiLoraAttention {
                q_proj: self.self_attn.q_proj.with(m[0], m[1]),
                k_proj: self.self_attn.k_proj.with(m[2], m[3]),
                v_proj: self.self_attn.v_proj.with(m[4], m[5]),
                o_proj: self.self_attn.o_proj.with(m[6], m[7]),
                ..self.self_attn
            },
            mlp: PhiLoraMLP {
                gate_up_proj: self.mlp.gate_up_proj.with(m[8], m[9]),
                down_proj: self.mlp.down_proj.with(m[10], m[11]),
                ..self.mlp
            },
            ..self
        }
    }

    open spec fn trainable(self) -> nat {
        self.self_attn.trainable() + self.mlp.trainable()
    }

    open spec fn countable(self) -> bool {
        self.self_attn.countable() && self.mlp.countable()
    }

    proof fn lemma_layer(self, m: Seq<Array>) {
        assert(self.with_matrices(m).matrices() =~= m);
    }

    fn collect(&self, params: &mut NameMap<Array>, style: NameStyle, layer: usize) {
        proof {
            reveal_with_fuel(with_named, 13);
        }
        collect_adapter(&self.self_attn.q_proj, params, style, layer, Section::SelfAttn, Proj::Q);
        collect_adapter(&self.self_attn.k_proj, params, style, layer, Section::SelfAttn, Proj::K);
        collect_adapter(&self.self_attn.v_proj, params, style, layer, Section::SelfAttn, Proj::V);
        collect_adapter(&self.self_attn.o_proj, params, style, layer, Section::SelfAttn, Proj::O);
        collect_adapter(&self.mlp.gate_up_proj, params, style, layer, Section::Mlp, Proj::GateUp);
        collect_adapter(&self.mlp.down_proj, params, style, layer, Section::Mlp, Proj::Down);
    }

    fn assign(&mut self, params: &NameMap<Array>, style: NameStyle, layer: usize) {
        assign_adapter(
            &mut self.self_attn.q_proj,
            params,
            style,
            layer,
            Section::SelfAttn,
            Proj::Q,
        );
        assign_adapter(
            &mut self.self_attn.k_proj,
            params,
            style,
            layer,
            Section::SelfAttn,
            Proj::K,
        );
        assign_adapter(
            &mut self.self_attn.v_proj,
            params,
            style,
            layer,
            Section::SelfAttn,
            Proj::V,
        );
        assign_adapter(
            &mut self.self_attn.o_proj,
            params,
            style,
            layer,
            Section::SelfAttn,
            Proj::O,
        );
        assign_adapter(
            &mut self.mlp.gate_up_proj,
            params,
            style,
            layer,
            Section::Mlp,
            Proj::GateUp,
        );
        assign_adapter(&mut self.mlp.down_proj, params, style, layer, Section::Mlp, Proj::Down);
    }

    fn refs<'a>(&'a self) -> (r: Vec<ParamRef<'a>>) {
        let mut r: Vec<ParamRef<'a>> = Vec::new();
        push_refs(&self.self_attn.q_proj, Section::SelfAttn, Proj::Q, &mut r);
        push_refs(&self.self_attn.k_proj, Section::SelfAttn, Proj::K, &mut r);
        push_refs(&self.self_attn.v_proj, Section::SelfAttn, Proj::V, &mut r);
        push_refs(&self.self_attn.o_proj, Section::SelfAttn, Proj::O, &mut r);
        push_refs(&self.mlp.gate_up_proj, Section::Mlp, Proj::GateUp, &mut r);
        push_refs(&self.mlp.down_proj, Section::Mlp, Proj::Down, &mut r);
        r
    }

    fn refs_mut<'a>(&'a mut self) -> (r: Vec<ParamMut<'a>>) {
        let mut r: Vec<ParamMut<'a>> = Vec::new();
        let (a, b) = adapter_refs_mut(&mut self.self_attn.q_proj, Section::SelfAttn, Proj::Q);
        r.push(a);
        r.push(b);
        let (a, b) = adapter_refs_mut(&mut self.self_attn.k_proj, Section::SelfAttn, Proj::K);
        r.push(a);
        r.push(b);
        let (a, b) = adapter_refs_mut(&mut self.self_attn.v_proj, Section::SelfAttn, Proj::V);
        r.push(a);
        r.push(b);
        let (a, b) = adapter_refs_mut(&mut self.self_attn.o_proj, Section::SelfAttn, Proj::O);
        r.push(a);
        r.push(b);
        let (a, b) = adapter_refs_mut(&mut self.mlp.gate_up_proj, Section::Mlp, Proj::GateUp);
        r.push(a);
        r.push(b);
        let (a, b) = adapter_refs_mut(&mut self.mlp.down_proj, Section::Mlp, Proj::Down);
        r.push(a);
        r.push(b);
        r
    }

    fn count(&self) -> (r: usize) {
        self.num_trainable_params()
    }
}

impl EvalLayer for PhiLoraDecoderLayer {
    open spec fn evaluated(self) -> Seq<Array> {
        seq![
            self.self_attn.q_proj.weight, self.self_attn.k_proj.weight,
            self.self_attn.v_proj.weight, self.self_attn.o_proj.weight,
            self.mlp.gate_up_proj.weight, self.mlp.down_proj.weight, self.self_attn.q_proj.lora_a,
            self.self_attn.q_proj.lora_b, self.self_attn.k_proj.lora_a,
            self.self_attn.k_proj.lora_b, self.self_attn.v_proj.lora_a,
            self.self_attn.v_proj.lora_b, self.self_attn.o_proj.lora_a,
            self.self_attn.o_proj.lora_b, self.mlp.gate_up_proj.lora_a,
            self.mlp.gate_up_proj.lora_b, self.mlp.down_proj.lora_a, self.mlp.down_proj.lora_b,
            self.input_layernorm.weight, self.post_attention_layernorm.weight
        ]
    }

    fn push_evaluated(&self, out: &mut Vec<Array>) {
        out.push(self.self_attn.q_proj.weight.clone());
        out.push(self.self_attn.k_proj.weight.clone());
        out.push(self.self_attn.v_proj.weight.clone());
        out.push(self.self_attn.o_proj.weight.clone());
        out.push(self.mlp.gate_up_proj.weight.clone());
        out.push(self.mlp.down_proj.weight.clone());
        out.push(self.self_attn.q_proj.lora_a.clone());
        out.push(self.self_attn.q_proj.lora_b.clone());
        out.push(self.self_attn.k_proj.lora_a.clone());
        out.push(self.self_attn.k_proj.lora_b.clone());
        out.push(self.self_attn.v_proj.lora_a.clone());
        out.push(self.self_attn.v_proj.lora_b.clone());
        out.push(self.self_attn.o_proj.lora_a.clone());
        out.push(self.self_attn.o_proj.lora_b.clone());
        out.push(self.mlp.gate_up_proj.lora_a.clone());
        out.push(self.mlp.gate_up_proj.lora_b.clone());
        out.push(self.mlp.down_proj.lora_a.clone());
        out.push(self.mlp.down_proj.lora_b.clone());
        out.push(self.input_layernorm.weight.clone());
        out.push(self.post_attention_layernorm.weight.clone());
        assert(out@ =~= old(out)@ + self.evaluated());
    }
}

/// The embeddings, the layers and the last normalization.
#[derive(Debug)]
pub struct PhiLoraModel {
    pub config: PhiConfig,
    pub lora_config: LoraConfig,
    pub embed_tokens: Embedding,
    pub layers: Vec<PhiLoraDecoderLayer>,
    pub norm: PhiLoraRmsNorm,
}

/// The output of the first `n` layers, one behind the other.
pub open spec fn phi_stack(
    layers: Seq<PhiLoraDecoderLayer>,
    n: nat,
    x: Array,
    mask: Option<Array>,
) -> Array
    decreases n,
{
    if n == 0 {
        x
    } else {
        layers[n - 1].output(phi_stack(layers, (n - 1) as nat, x, mask), mask)
    }
}

/// The output of the first `n` layers over a cache, and the cache behind them.
pub open spec fn phi_cached_stack(
    layers: Seq<PhiLoraDecoderLayer>,
    n: nat,
    x: Array,
    mask: Option<Array>,
    cache: KVCacheState,
) -> (Array, KVCacheState)
    decreases n,
{
    if n == 0 {
        (x, cache)
    } else {
        let before = phi_cached_stack(layers, (n - 1) as nat, x, mask, cache);
        layers[n - 1].cached_output(before.0, mask, before.1, n - 1)
    }
}

/// Each layer has key heads and a width that fits a machine word.
pub open spec fn phi_ready(layers: Seq<PhiLoraDecoderLayer>) -> bool {
    forall|i: int| 0 <= i < layers.len() ==> (#[trigger] layers[i]).self_attn.ready()
}

impl PhiLoraModel {
    /// The hidden states behind the last normalization, under the given mask.
    pub open spec fn masked_output(self, ids: Array, mask: Option<Array>) -> Array {
        self.norm.output(
            phi_stack(self.layers@, self.layers@.len(), self.embed_tokens.output(ids), mask),
        )
    }

    /// The hidden states behind the last normalization. Without a mask, the causal one is used.
    pub open spec fn output(self, ids: Array, mask: Option<Array>) -> Array {
        self.masked_output(ids, mask_or_causal(mask, ids))
    }

    pub open spec fn cached_output(
        self,
        ids: Array,
        mask: Option<Array>,
        cache: KVCacheState,
    ) -> (Array, KVCacheState) {
        let end = phi_cached_stack(
            self.layers@,
            self.layers@.len(),
            self.embed_tokens.output(ids),
            mask,
            cache,
        );
        (self.norm.output(end.0), end.1)
    }

    /// The model that the settings give, before any weight is loaded.
    pub open spec fn is_fresh(self, config: PhiConfig, lora: LoraConfig) -> bool {
        &&& self.config == config
        &&& self.lora_config == lora
        &&& self.embed_tokens == Embedding::fresh(config.vocab_size, config.hidden_size)
        &&& self.layers@.len() == (if config.num_hidden_layers > 0 {
            config.num_hidden_layers as nat
        } else {
            0
        })
        &&& forall|i: int|
            0 <= i < self.layers@.len() ==> #[trigger] self.layers@[i]
                == PhiLoraDecoderLayer::fresh(
                config,
                lora,
            )
        &&& self.norm == RmsNorm::fresh(config.hidden_size, config.rms_norm_eps)
    }

    /// A fresh model. Refused where an extent is unfit.
    pub fn new(config: PhiConfig, lora_config: LoraConfig) -> (r: Result<PhiLoraModel, LoraError>)
        requires
            config.valid(),
            lora_config.valid(),
        ensures
            match r {
                Ok(m) => phi_buildable(config, lora_config) && m.is_fresh(config, lora_config),
                Err(e) => e is Mlx && !phi_buildable(config, lora_config),
            },
    {
        let embed_tokens = match Embedding::new(config.vocab_size, config.hidden_size) {
            Ok(e) => e,
            Err(_) => {
                return Err(misfit());
            },
        };
        let mut layers: Vec<PhiLoraDecoderLayer> = Vec::new();
        let mut i: i32 = 0;
        while i < config.num_hidden_layers
            invariant
                0 <= i,
                i <= config.num_hidden_layers || i == 0,
                layers@.len() == i,
                i > 0 ==> PhiLoraDecoderLayer::buildable(config, lora_config),
                config.valid(),
                lora_config.valid(),
                forall|j: int|
                    0 <= j < i ==> #[trigger] layers@[j] == PhiLoraDecoderLayer::fresh(
                        config,
                        lora_config,
                    ),
            decreases config.num_hidden_layers - i,
        {
            match PhiLoraDecoderLayer::new(&config, &lora_config) {
                Ok(l) => {
                    layers.push(l);
                },
                Err(_) => {
                    return Err(misfit());
                },
            }
            i = i + 1;
        }
        Ok(
            PhiLoraModel {
                config,
                lora_config,
                embed_tokens,
                layers,
                norm: RmsNorm::new(config.hidden_size, config.rms_norm_eps),
            },
        )
    }

    pub(crate) fn run_masked(&self, ids: &Array, mask: Option<&Array>) -> (r: Array)
        requires
            ids.shape.rank() >= 2,
            phi_ready(self.layers@),
        ensures
            r == self.masked_output(*ids, given(mask)),
    {
        broadcast use lemma_embed_rank_from;

        let mut h = self.embed_tokens.run(ids);
        let ghost x = h;
        let ghost was = self.layers@;
        let mut i: usize = 0;
        while i < self.layers.len()
            invariant
                i <= self.layers.len(),
                was == self.layers@,
                phi_ready(was),
                h.shape.rank() >= 3,
                h == phi_stack(was, i as nat, x, given(mask)),
            decreases self.layers.len() - i,
        {
            h = self.layers[i].run(&h, mask);
            i = i + 1;
        }
        self.norm.run(&h)
    }

    pub(crate) fn run(&self, ids: &Array, mask: Option<&Array>) -> (r: Array)
        requires
            ids.shape.rank() >= 2,
            phi_ready(self.layers@),
        ensures
            r == self.output(*ids, given(mask)),
    {
        match mask {
            Some(_) => self.run_masked(ids, mask),
            None => {
                let (_, length) = ids.shape.outer_two();
                let causal = create_causal_mask(length);
                self.run_masked(ids, Some(&causal))
            },
        }
    }

    pub(crate) fn run_cached(
        &self,
        ids: &Array,
        mask: Option<&Array>,
        cache: &mut KVCache,
    ) -> (r: Array)
        requires
            ids.shape.rank() >= 1,
        ensures
            (r, final(cache)@) == self.cached_output(*ids, given(mask), old(cache)@),
    {
        broadcast use lemma_embed_rank;

        let mut h = self.embed_tokens.run(ids);
        let ghost x = h;
        let ghost was = self.layers@;
        let mut i: usize = 0;
        while i < self.layers.len()
            invariant
                i <= self.layers.len(),
                was == self.layers@,
                h.shape.rank() >= 2,
                (h, cache@) == phi_cached_stack(was, i as nat, x, given(mask), old(cache)@),
            decreases self.layers.len() - i,
        {
            h = self.layers[i].run_cached(&h, mask, cache, i);
            i = i + 1;
        }
        self.norm.run(&h)
    }

    /// The hidden states behind the last normalization.
    pub fn forward(&self, input_ids: &Array, mask: Option<&Array>) -> (r: Result<
        Array,
        LoraError,
    >)
        requires
            input_ids.shape.rank() >= 2,
            phi_ready(self.layers@),
        ensures
            outcome(r, self.output(*input_ids, given(mask))),
    {
        checked(self.run(input_ids, mask))
    }

    /// The same: checkpointing keeps the result.
    pub fn forward_with_checkpoint(
        &self,
        input_ids: &Array,
        mask: Option<&Array>,
        _checkpoint_config: Option<&CheckpointConfig>,
    ) -> (r: Result<Array, LoraError>)
        requires
            input_ids.shape.rank() >= 2,
            phi_ready(self.layers@),
        ensures
            outcome(r, self.output(*input_ids, given(mask))),
    {
        checked(self.run(input_ids, mask))
    }

    /// The hidden states over what the cache holds and the input; without a cache, over the
    /// input alone, under the given mask.
    pub fn forward_with_cache(
        &self,
        input_ids: &Array,
        mask: Option<&Array>,
        cache: Option<&mut KVCache>,
    ) -> (r: Result<Array, LoraError>)
        requires
            input_ids.shape.rank() >= 1,
            cache is None ==> input_ids.shape.rank() >= 2 && phi_ready(self.layers@),
        ensures
            match cache {
                Some(c) => {
                    let end = self.cached_output(*input_ids, given(mask), c@);
                    outcome(r, end.0) && final(c)@ == end.1
                },
                None => outcome(r, self.masked_output(*input_ids, given(mask))),
            },
    {
        match cache {
            Some(c) => checked(self.run_cached(input_ids, mask, c)),
            None => checked(self.run_masked(input_ids, mask)),
        }
    }

    /// The number of trainable elements.
    pub fn num_trainable_params(&self) -> (r: usize)
        requires
            stack_countable(self.layers@),
        ensures
            r == trainable_total(self.layers@),
    {
        count_trainable(&self.layers)
    }
}

/// The embeddings can be made, and the layers where there are any.
pub open spec fn phi_buildable(config: PhiConfig, lora: LoraConfig) -> bool {
    config.vocab_size >= 0 && config.hidden_size >= 0 && (config.num_hidden_layers > 0
        ==> PhiLoraDecoderLayer::buildable(config, lora))
}

/// The model with a head for logits.
#[derive(Debug)]
pub struct PhiLoraForCausalLM {
    pub model: PhiLoraModel,
    pub lm_head: Linear,
    pub checkpoint_config: Option<CheckpointConfig>,
}

impl PhiLoraForCausalLM {
    /// The logits.
    pub open spec fn output(self, ids: Array, mask: Option<Array>) -> Array {
        self.lm_head.output(self.model.output(ids, mask))
    }

    pub open spec fn cached_output(
        self,
        ids: Array,
        mask: Option<Array>,
        cache: KVCacheState,
    ) -> (Array, KVCacheState) {
        let end = self.model.cached_output(ids, mask, cache);
        (self.lm_head.output(end.0), end.1)
    }

    /// A fresh model. Refused where an extent is negative.
    pub fn new(config: PhiConfig, lora_config: LoraConfig) -> (r: Result<
        PhiLoraForCausalLM,
        LoraError,
    >)
        requires
            config.valid(),
            lora_config.valid(),
        ensures
            match r {
                Ok(m) => {
                    &&& phi_buildable(config, lora_config)
                    &&& m.model.is_fresh(config, lora_config)
                    &&& m.lm_head == Linear::fresh(config.hidden_size, config.vocab_size, false)
                    &&& m.checkpoint_config is None
                },
                Err(e) => e is Mlx && !phi_buildable(config, lora_config),
            },
    {
        match PhiLoraModel::new(config, lora_config) {
            Ok(model) => Ok(
                PhiLoraForCausalLM {
                    model,
                    lm_head: Linear::new(config.hidden_size, config.vocab_size, false),
                    checkpoint_config: None,
                },
            ),
            Err(_) => Err(misfit()),
        }
    }

    /// The logits.
    pub fn forward(&self, input_ids: &Array, mask: Option<&Array>) -> (r: Result<
        Array,
        LoraError,
    >)
        requires
            input_ids.shape.rank() >= 2,
            phi_ready(self.model.layers@),
        ensures
            outcome(r, self.output(*input_ids, given(mask))),
    {
        let hidden = self.model.run(input_ids, mask);
        checked(self.lm_head.run(&hidden))
    }

    /// The logits over what the cache holds and the input; without a cache, over the input
    /// alone, under the given mask.
    pub fn forward_with_cache(
        &self,
        input_ids: &Array,
        mask: Option<&Array>,
        cache: Option<&mut KVCache>,
    ) -> (r: Result<Array, LoraError>)
        requires
            input_ids.shape.rank() >= 1,
            cache is None ==> input_ids.shape.rank() >= 2 && phi_ready(self.model.layers@),
        ensures
            match cache {
                Some(c) => {
                    let end = self.cached_output(*input_ids, given(mask), c@);
                    outcome(r, end.0) && final(c)@ == end.1
                },
                None => outcome(
                    r,
                    self.lm_head.output(self.model.masked_output(*input_ids, given(mask))),
                ),
            },
    {
        match cache {
            Some(c) => {
                let hidden = self.model.run_cached(input_ids, mask, c);
                checked(self.lm_head.run(&hidden))
            },
            None => {
                let hidden = self.model.run_masked(input_ids, mask);
                checked(self.lm_head.run(&hidden))
            },
        }
    }

    /// An empty cache of the model's extents.
    pub fn create_cache(&self, max_seq_len: usize) -> (r: KVCache)
        requires
            self.model.config.valid(),
            self.model.config.num_hidden_layers >= 0,
            self.model.config.num_key_value_heads >= 0,
        ensures
            r@ == KVCacheState::fresh(
                KVCacheConfig {
                    num_layers: self.model.config.num_hidden_layers as usize,
                    max_seq_len,
                    num_kv_heads: self.model.config.num_key_value_heads as usize,
                    head_dim: self.model.config.head_size() as usize,
                },
            ),
    {
        KVCache::new(
            KVCacheConfig::new(
                self.model.config.num_hidden_layers as usize,
                max_seq_len,
                self.model.config.num_key_value_heads as usize,
                self.model.config.head_dim() as usize,
            ),
        )
    }

    /// The model with its layers replaced, and nothing else.
    pub open spec fn only_layers_changed(self, after: PhiLoraForCausalLM) -> bool {
        &&& after.model.config == self.model.config
        &&& after.model.lora_config == self.model.lora_config
        &&& after.model.embed_tokens == self.model.embed_tokens
        &&& after.model.norm == self.model.norm
        &&& after.lm_head == self.lm_head
        &&& after.checkpoint_config == self.checkpoint_config
    }

    /// Switches gradient checkpointing on.
    pub fn enable_gradient_checkpointing(&mut self, layers_per_block: usize)
        ensures
            *final(self) == (PhiLoraForCausalLM {
                checkpoint_config: Some(checkpointing(layers_per_block)),
                ..*old(self)
            }),
    {
        self.checkpoint_config = Some(make_checkpointing(layers_per_block));
    }

    /// Switches gradient checkpointing off.
    pub fn disable_gradient_checkpointing(&mut self)
        ensures
            *final(self) == (PhiLoraForCausalLM { checkpoint_config: None, ..*old(self) }),
    {
        self.checkpoint_config = None;
    }

    pub fn supports_gradient_checkpointing(&self) -> (r: bool)
        ensures
            r == true,
    {
        true
    }

    /// The number of trainable elements.
    pub fn num_trainable_params(&self) -> (r: usize)
        requires
            stack_countable(self.model.layers@),
        ensures
            r == trainable_total(self.model.layers@),
    {
        self.model.num_trainable_params()
    }

    /// The number of trainable elements.
    pub fn num_parameters(&self) -> (r: usize)
        requires
            stack_countable(self.model.layers@),
        ensures
            r == trainable_total(self.model.layers@),
    {
        self.model.num_trainable_params()
    }

    /// The matrices of all adapters, under their names.
    pub fn lora_parameters(&self) -> (r: NameMap<Array>)
        ensures
            r@ == parameter_map(NameStyle::Plain, self.model.layers@),
    {
        collect_parameters(&self.model.layers, NameStyle::Plain)
    }

    /// Replaces the adapters' matrices that the map names.
    pub fn set_lora_parameters(&mut self, params: &NameMap<Array>)
        ensures
            final(self).model.layers@ == assigned(
                NameStyle::Plain,
                old(self).model.layers@,
                params@,
            ),
            old(self).only_layers_changed(*final(self)),
    {
        assign_parameters(&mut self.model.layers, params, NameStyle::Plain);
    }

    /// The matrices of the adapters, layer by layer.
    pub fn parameters<'a>(&'a self) -> (r: Vec<LayerParamRef<'a>>)
        ensures
            lists_stack(r@, self.model.layers@),
    {
        parameter_refs(&self.model.layers)
    }

    /// The matrices of the adapters: all of them are trainable.
    pub fn trainable_parameters<'a>(&'a self) -> (r: Vec<LayerParamRef<'a>>)
        ensures
            lists_stack(r@, self.model.layers@),
    {
        parameter_refs(&self.model.layers)
    }

    /// The matrices of the adapters, layer by layer, open to replacement.
    pub fn parameters_mut<'a>(&'a mut self) -> (r: Vec<LayerParamMut<'a>>)
        ensures
            r@.len() == adapted_before(old(self).model.layers@, old(self).model.layers@.len()),
            forall|i: int|
                0 <= i < old(self).model.layers@.len() && (#[trigger] old(
                    self,
                ).model.layers@[i]).matrices().len() > 0 ==> {
                    let g = r@[adapted_before(old(self).model.layers@, i as nat) as int];
                    &&& g.layer == i
                    &&& g.entries@.len() == old(self).model.layers@[i].matrices().len()
                    &&& forall|j: int|
                        0 <= j < g.entries@.len() ==> {
                            &&& (#[trigger] g.entries@[j]).place == old(
                                self,
                            ).model.layers@[i].places()[j / 2]
                            &&& g.entries@[j].half == half_of(j)
                            &&& *g.entries@[j].value == old(self).model.layers@[i].matrices()[j]
                        }
                },
            final(self).model.layers@.len() == old(self).model.layers@.len(),
            forall|i: int|
                #![trigger final(self).model.layers@[i]]
                0 <= i < old(self).model.layers@.len() ==> {
                    let was = old(self).model.layers@[i];
                    let k = adapted_before(old(self).model.layers@, i as nat) as int;
                    &&& was.matrices().len() == 0 ==> final(self).model.layers@[i] == was
                    &&& was.matrices().len() > 0 ==> final(self).model.layers@[i]
                        == was.with_matrices(
                        Seq::new(r@[k].entries@.len(), |j: int| *final(r@[k].entries@[j].value)),
                    )
                },
            old(self).only_layers_changed(*final(self)),
    {
        stack_refs_mut(&mut self.model.layers)
    }

    /// Adapters cannot be frozen.
    pub fn freeze_parameters(&mut self, _recursive: bool)
        ensures
            *final(self) == *old(self),
    {
    }

    /// Adapters are never frozen.
    pub fn unfreeze_parameters(&mut self, _recursive: bool)
        ensures
            *final(self) == *old(self),
    {
    }

    pub fn all_frozen(&self) -> (r: Option<bool>)
        ensures
            r == Some(false),
    {
        Some(false)
    }

    pub fn any_frozen(&self) -> (r: Option<bool>)
        ensures
            r == Some(false),
    {
        Some(false)
    }


    /// The logits: checkpointing keeps the result.
    pub fn forward_with_checkpoint(
        &self,
        input_ids: &Array,
        mask: Option<&Array>,
        _checkpoint_config: Option<&CheckpointConfig>,
    ) -> (r: Result<Array, LoraError>)
        requires
            input_ids.shape.rank() >= 2,
            phi_ready(self.model.layers@),
        ensures
            outcome(r, self.output(*input_ids, given(mask))),
    {
        self.forward(input_ids, mask)
    }

    /// The arrays to evaluate before the first use of the model, in order.
    pub fn eval_all(&self) -> (r: Vec<Array>)
        ensures
            r@ == model_evaluated(
                self.model.embed_tokens,
                self.model.layers@,
                self.model.norm,
                Some(self.lm_head),
            ),
    {
        let mut out = list_evaluated(
            &self.model.embed_tokens,
            &self.model.layers,
            &self.model.norm,
            &None,
        );
        out.push(self.lm_head.weight.clone());
        assert(out@ =~= model_evaluated(
            self.model.embed_tokens,
            self.model.layers@,
            self.model.norm,
            Some(self.lm_head),
        ));
        out
    }

    /// Every weight that is held under the name of a part stands in that part; all else is as it
    /// was.
    pub open spec fn loads_to(
        self,
        after: PhiLoraForCausalLM,
        weights: Map<Seq<char>, Array>,
    ) -> bool {
        &&& after.model.layers@.len() == self.model.layers@.len()
        &&& forall|i: int|
            0 <= i < self.model.layers@.len() ==> #[trigger] after.model.layers@[i]
                == self.model.layers@[i].loaded(i as nat, weights)
        &&& after.model.embed_tokens == loaded_table(
            self.model.embed_tokens,
            weights,
            "model.embed_tokens.weight"@,
        )
        &&& after.model.norm == loaded_norm(
            self.model.norm,
            weights,
            "model.norm.weight"@,
        )
        &&& after.lm_head == loaded_linear(self.lm_head, weights, "lm_head.weight"@)
        &&& after.model.config == self.model.config
        &&& after.model.lora_config == self.model.lora_config
        &&& after.checkpoint_config == self.checkpoint_config
    }

    /// Replaces the frozen weights that the map names. The adapters stay as they are.
    pub fn load_base_weights(&mut self, weights: &NameMap<Array>) -> (r: Result<(), LoraError>)
        ensures
            r is Ok,
            old(self).loads_to(*final(self), weights@),
            final(self).model.layers@.len() == old(self).model.layers@.len(),
            forall|i: int|
                0 <= i < old(self).model.layers@.len() ==> #[trigger] final(self).model.layers@[i]
                    == old(self).model.layers@[i].loaded(i as nat, weights@),
            final(self).model.embed_tokens == loaded_table(
                old(self).model.embed_tokens,
                weights@,
                "model.embed_tokens.weight"@,
            ),
            final(self).model.norm == loaded_norm(
                old(self).model.norm,
                weights@,
                "model.norm.weight"@,
            ),
            final(self).lm_head == loaded_linear(old(self).lm_head, weights@, "lm_head.weight"@),
            final(self).model.config == old(self).model.config,
            final(self).model.lora_config == old(self).model.lora_config,
            final(self).checkpoint_config == old(self).checkpoint_config,
    {
        load_table(&mut self.model.embed_tokens, weights, "model.embed_tokens.weight");
        let ghost before = self.model.layers@;
        let mut i: usize = 0;
        while i < self.model.layers.len()
            invariant
                i <= self.model.layers@.len(),
                self.model.layers@.len() == before.len(),
                before == old(self).model.layers@,
                forall|j: int|
                    0 <= j < i ==> #[trigger] self.model.layers@[j] == before[j].loaded(
                        j as nat,
                        weights@,
                    ),
                forall|j: int|
                    i <= j < before.len() ==> #[trigger] self.model.layers@[j] == before[j],
                self.model.embed_tokens == loaded_table(
                    old(self).model.embed_tokens,
                    weights@,
                    "model.embed_tokens.weight"@,
                ),
                self.model.norm == old(self).model.norm,
                self.lm_head == old(self).lm_head,
                self.model.config == old(self).model.config,
                self.model.lora_config == old(self).model.lora_config,
                self.checkpoint_config == old(self).checkpoint_config,
            decreases self.model.layers.len() - i,
        {
            self.model.layers[i].load(i, weights);
            i = i + 1;
        }
        load_norm(&mut self.model.norm, weights, &String::from_str("model.norm.weight"));
        load_linear(&mut self.lm_head, weights, &String::from_str("lm_head.weight"));
        Ok(())
    }

    pub fn config(&self) -> (r: &PhiConfig)
        ensures
            *r == self.model.config,
    {
        &self.model.config
    }

    pub fn lora_config(&self) -> (r: &LoraConfig)
        ensures
            *r == self.model.lora_config,
    {
        &self.model.lora_config
    }

    pub fn supports_kv_cache(&self) -> (r: bool)
        ensures
            r,
    {
        true
    }
}

} // verus!
