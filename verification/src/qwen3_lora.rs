//! Qwen3 with adapters: queries and keys are normalized before they are rotated.

use crate::array::{
    Array, AttentionMaskType, FusedAttentionConfig, RopeConfig, attend, flash_attend,
    lemma_combine_fits, lemma_combine_rank, lemma_embed_rank, lemma_rms_norm_shape, plus, reshape,
    rope, rope_at, swap_middle,
};
use crate::attention::{
    create_causal_mask, gated, given, make_gated, make_match_heads, make_merge_heads,
    make_plain_attention, make_split_heads, make_unfit, mask_or_causal, match_heads, merge_heads,
    plain_attention, split_heads, unfit,
};
use crate::config::{CheckpointConfig, LoraConfig, checkpointing, make_checkpointing};
use crate::error::{LoraError, checked, misfit, outcome};
use crate::evaluation::{EvalLayer, list_evaluated, model_evaluated};
use crate::kv_cache::{KVCache, KVCacheConfig, KVCacheState};
use crate::layer_ids::LayerIds;
use crate::lora::{Adapter, LoraLinear};
use crate::name_map::NameMap;
use crate::names::{NameStyle, Proj, Section};
use crate::nn::{Embedding, Linear, RmsNorm, fresh_head, logits, make_head, run_logits};
use crate::params::{
    LayerParamMut, LayerParamRef, LoraLayer, ParamMut, ParamRef, Place, adapted_before,
    adapter_refs_mut, assign_adapter, assign_parameters, assigned, at, collect_adapter,
    collect_parameters, count_trainable, half_of, lists_stack, parameter_map, parameter_refs,
    push_refs, stack_countable, stack_refs_mut, trainable_total, with_named,
};
use crate::scalar::{F32, ONE_BITS, Scale};
use crate::shape::Shape;
use crate::weights::{
    base_name, load_head, load_lora, load_norm, load_table, loaded, loaded_head, loaded_norm,
    loaded_table, make_base_name, make_part_name, part_name,
};
use vstd::prelude::*;
use vstd::string::*;

verus! {

/// The extents and settings of a Qwen3 model.
#[derive(Clone, Copy, PartialEq, Eq, Structural, Debug)]
pub struct Qwen3Config {
    pub vocab_size: i32,
    pub hidden_size: i32,
    pub intermediate_size: i32,
    pub num_hidden_layers: i32,
    pub num_attention_heads: i32,
    /// As many as query heads where not given.
    pub num_key_value_heads: Option<i32>,
    pub head_dim: i32,
    pub rms_norm_eps: F32,
    pub rope_theta: F32,
    pub tie_word_embeddings: bool,
}

impl Qwen3Config {
    pub open spec fn kv_heads(self) -> i32 {
        match self.num_key_value_heads {
            Some(n) => n,
            None => self.num_attention_heads,
        }
    }

    /// The extents of a head are not negative, and those of all heads fit a machine word.
    pub open spec fn valid(self) -> bool {
        &&& self.head_dim >= 0
        &&& i32::MIN <= self.num_attention_heads * self.head_dim <= i32::MAX
        &&& i32::MIN <= self.kv_heads() * self.head_dim <= i32::MAX
    }

    /// No extent is negative.
    pub open spec fn buildable(self) -> bool {
        &&& self.hidden_size >= 0 && self.intermediate_size >= 0
        &&& self.num_attention_heads * self.head_dim >= 0
        &&& self.kv_heads() * self.head_dim >= 0
    }

    pub fn num_kv_heads(&self) -> (r: i32)
        ensures
            r == self.kv_heads(),
    {
        match self.num_key_value_heads {
            Some(n) => n,
            None => self.num_attention_heads,
        }
    }

    pub fn get_head_dim(&self) -> (r: i32)
        ensures
            r == self.head_dim,
    {
        self.head_dim
    }
}

/// From this length on, attention in training goes through the kernel that saves memory.
pub const FLASH_ATTENTION_SEQ_THRESHOLD: i32 = 2048;

/// Lets the numbers of layers start from zero again.
pub fn reset_layer_ids(ids: &mut LayerIds)
    ensures
        final(ids).next == 0,
{
    ids.next = 0;
}

/// Attention with adapters on its four projections.
#[derive(Debug)]
pub struct Qwen3LoraAttention {
    pub n_heads: i32,
    pub n_kv_heads: i32,
    pub head_dim: i32,
    pub scale: Scale,
    /// The number of the layer in its model.
    pub layer_id: usize,
    pub q_proj: LoraLinear,
    pub k_proj: LoraLinear,
    pub v_proj: LoraLinear,
    pub o_proj: LoraLinear,
    /// Over the features of a head.
    pub q_norm: RmsNorm,
    /// Over the features of a head.
    pub k_norm: RmsNorm,
    pub rope: RopeConfig,
}

impl Qwen3LoraAttention {
    /// The layer of a fresh model.
    pub open spec fn fresh(
        config: Qwen3Config,
        lora: LoraConfig,
        layer_id: usize,
    ) -> Qwen3LoraAttention {
        let d = config.head_dim;
        let h = config.hidden_size;
        let q = (config.num_attention_heads * d) as i32;
        let kv = (config.kv_heads() * d) as i32;
        let r = lora.r as i32;
        Qwen3LoraAttention {
            n_heads: config.num_attention_heads,
            n_kv_heads: config.kv_heads(),
            head_dim: d,
            scale: Scale::InverseSqrt { n: d },
            layer_id,
            q_proj: LoraLinear::fresh(h, q, r, lora.alpha, lora.use_rslora, false),
            k_proj: LoraLinear::fresh(h, kv, r, lora.alpha, lora.use_rslora, false),
            v_proj: LoraLinear::fresh(h, kv, r, lora.alpha, lora.use_rslora, false),
            o_proj: LoraLinear::fresh(q, h, r, lora.alpha, lora.use_rslora, false),
            q_norm: RmsNorm::fresh(d, config.rms_norm_eps),
            k_norm: RmsNorm::fresh(d, config.rms_norm_eps),
            rope: RopeConfig { dims: d, base: config.rope_theta, scale: F32 { bits: ONE_BITS } },
        }
    }

    pub open spec fn queries(self, x: Array) -> Array {
        swap_middle(
            self.q_norm.output(
                reshape(
                    self.q_proj.output(x),
                    Shape::D4(x.shape.outer(), x.shape.second(), self.n_heads, self.head_dim),
                ),
            ),
        )
    }

    pub open spec fn keys(self, x: Array) -> Array {
        swap_middle(
            self.k_norm.output(
                reshape(
                    self.k_proj.output(x),
                    Shape::D4(x.shape.outer(), x.shape.second(), self.n_kv_heads, self.head_dim),
                ),
            ),
        )
    }

    pub open spec fn values(self, x: Array) -> Array {
        split_heads(
            self.v_proj.output(x),
            x.shape.outer(),
            x.shape.second(),
            self.n_kv_heads,
            self.head_dim,
        )
    }

    /// Queries or keys at the given positions; without any, at those of the sequence.
    pub open spec fn rotated(self, x: Array, positions: Option<Array>) -> Array {
        match positions {
            Some(p) => rope_at(x, self.rope, p),
            None => rope(x, self.rope, 0),
        }
    }

    /// Attention over the input alone. In training, long inputs go through the kernel that
    /// saves memory, which takes no mask but the causal one.
    pub open spec fn output(
        self,
        x: Array,
        mask: Option<Array>,
        positions: Option<Array>,
        training: bool,
    ) -> Array {
        let q = self.rotated(self.queries(x), positions);
        let k = self.rotated(self.keys(x), positions);
        let v = self.values(x);
        let mixed = if training && x.shape.second() >= FLASH_ATTENTION_SEQ_THRESHOLD {
            flash_attend(self.layer_id, q, k, v, self.fused_config())
        } else {
            plain_attention(
                q,
                match_heads(k, self.n_heads, self.n_kv_heads),
                match_heads(v, self.n_heads, self.n_kv_heads),
                self.scale,
                mask,
            )
        };
        self.o_proj.output(merge_heads(mixed, x.shape.outer(), x.shape.second()))
    }

    /// Causal.
    pub open spec fn fused_config(self) -> FusedAttentionConfig {
        FusedAttentionConfig {
            num_heads: self.n_heads,
            num_kv_heads: self.n_kv_heads,
            head_dim: self.head_dim,
            scale: self.scale,
            mask_type: AttentionMaskType::Causal,
        }
    }

    /// Fused attention of rotated queries and keys, projected.
    pub open spec fn fused(
        self,
        x: Array,
        q: Array,
        k: Array,
        v: Array,
        mask: Option<Array>,
    ) -> Array {
        let mixed = attend(q, k, v, self.fused_config(), mask);
        self.o_proj.output(merge_heads(mixed, x.shape.outer(), x.shape.second()))
    }

    /// Fused attention over the input alone.
    pub open spec fn fused_output(self, x: Array, mask: Option<Array>) -> Array {
        self.fused(
            x,
            rope(self.queries(x), self.rope, 0),
            rope(self.keys(x), self.rope, 0),
            self.values(x),
            mask,
        )
    }

    /// Fused attention over what the cache holds and the input, and the cache behind it. An
    /// input that does not fit leaves the cache as it is.
    pub open spec fn cached_output(
        self,
        x: Array,
        mask: Option<Array>,
        cache: KVCacheState,
        layer: int,
    ) -> (Array, KVCacheState) {
        let q = rope(self.queries(x), self.rope, cache.offset);
        let k = rope(self.keys(x), self.rope, cache.offset);
        let v = self.values(x);
        if q.fits && k.fits && v.fits && cache.accepts(layer, k, v) {
            let both = cache.joined(layer, k, v);
            (self.fused(x, q, both.0, both.1, mask), cache.extended(layer, k, v))
        } else {
            (unfit(x), cache)
        }
    }

    pub open spec fn trainable(self) -> nat {
        self.q_proj.trainable() + self.k_proj.trainable() + self.v_proj.trainable()
            + self.o_proj.trainable()
    }

    pub open spec fn countable(self) -> bool {
        self.q_proj.countable() && self.k_proj.countable() && self.v_proj.countable()
            && self.o_proj.countable()
    }

    /// A fresh layer with the next number. Refused where an extent is negative.
    pub fn new(config: &Qwen3Config, lora_config: &LoraConfig, ids: &mut LayerIds) -> (r: Result<
        Qwen3LoraAttention,
        LoraError,
    >)
        requires
            config.valid(),
            lora_config.valid(),
            old(ids).next < usize::MAX,
        ensures
            final(ids).next == old(ids).next + 1,
            match r {
                Ok(a) => a == Qwen3LoraAttention::fresh(*config, *lora_config, old(ids).next)
                    && config.hidden_size >= 0 && config.num_attention_heads * config.head_dim >= 0
                    && config.kv_heads() * config.head_dim >= 0,
                Err(e) => e is Mlx && !(config.hidden_size >= 0 && config.num_attention_heads
                    * config.head_dim >= 0 && config.kv_heads() * config.head_dim >= 0),
            },
    {
        let layer_id = ids.take();
        let n_heads = config.num_attention_heads;
        let n_kv_heads = config.num_kv_heads();
        let head_dim = config.get_head_dim();
        let hidden = config.hidden_size;
        let rank: i32 = lora_config.r as i32;
        let alpha = lora_config.alpha;
        let rs = lora_config.use_rslora;
        let q: i32 = n_heads * head_dim;
        let kv: i32 = n_kv_heads * head_dim;
        match (
            LoraLinear::new(hidden, q, rank, alpha, rs, false),
            LoraLinear::new(hidden, kv, rank, alpha, rs, false),
            LoraLinear::new(hidden, kv, rank, alpha, rs, false),
            LoraLinear::new(q, hidden, rank, alpha, rs, false),
        ) {
            (Ok(q_proj), Ok(k_proj), Ok(v_proj), Ok(o_proj)) => Ok(
                Qwen3LoraAttention {
                    n_heads,
                    n_kv_heads,
                    head_dim,
                    scale: Scale::InverseSqrt { n: head_dim },
                    layer_id,
                    q_proj,
                    k_proj,
                    v_proj,
                    o_proj,
                    q_norm: RmsNorm::new(head_dim, config.rms_norm_eps),
                    k_norm: RmsNorm::new(head_dim, config.rms_norm_eps),
                    rope: RopeConfig {
                        dims: head_dim,
                        base: config.rope_theta,
                        scale: F32 { bits: ONE_BITS },
                    },
                },
            ),
            _ => Err(misfit()),
        }
    }

    fn run_queries(&self, x: &Array) -> (r: Array)
        requires
            x.shape.rank() >= 2,
        ensures
            r == self.queries(*x),
    {
        let (batch, length) = x.shape.outer_two();
        let heads = self.q_proj.run(x).reshape(
            Shape::D4(batch, length, self.n_heads, self.head_dim),
        );
        self.q_norm.run(&heads).swap_middle()
    }

    fn run_keys(&self, x: &Array) -> (r: Array)
        requires
            x.shape.rank() >= 2,
        ensures
            r == self.keys(*x),
    {
        let (batch, length) = x.shape.outer_two();
        let heads = self.k_proj.run(x).reshape(
            Shape::D4(batch, length, self.n_kv_heads, self.head_dim),
        );
        self.k_norm.run(&heads).swap_middle()
    }

    fn run_values(&self, x: &Array) -> (r: Array)
        requires
            x.shape.rank() >= 2,
        ensures
            r == self.values(*x),
    {
        let (batch, length) = x.shape.outer_two();
        make_split_heads(&self.v_proj.run(x), batch, length, self.n_kv_heads, self.head_dim)
    }

    fn run_rotated(&self, x: &Array, positions: Option<&Array>) -> (r: Array)
        ensures
            r == self.rotated(*x, given(positions)),
    {
        match positions {
            Some(p) => x.rope_at(self.rope, p),
            None => x.rope(self.rope, 0),
        }
    }

    pub(crate) fn run(
        &self,
        x: &Array,
        mask: Option<&Array>,
        positions: Option<&Array>,
        training: bool,
    ) -> (r: Array)
        requires
            x.shape.rank() >= 2,
            self.n_kv_heads > 0,
        ensures
            r == self.output(*x, given(mask), given(positions), training),
    {
        let (batch, length) = x.shape.outer_two();
        let q = self.run_rotated(&self.run_queries(x), positions);
        let k = self.run_rotated(&self.run_keys(x), positions);
        let v = self.run_values(x);
        let mixed = if training && length >= FLASH_ATTENTION_SEQ_THRESHOLD {
            let config = FusedAttentionConfig {
                num_heads: self.n_heads,
                num_kv_heads: self.n_kv_heads,
                head_dim: self.head_dim,
                scale: self.scale,
                mask_type: AttentionMaskType::Causal,
            };
            q.flash_attend(self.layer_id, &k, &v, config)
        } else {
            make_plain_attention(
                &q,
                &make_match_heads(&k, self.n_heads, self.n_kv_heads),
                &make_match_heads(&v, self.n_heads, self.n_kv_heads),
                self.scale,
                mask,
            )
        };
        self.o_proj.run(&make_merge_heads(&mixed, batch, length))
    }

    fn run_fused(&self, x: &Array, q: &Array, k: &Array, v: &Array, mask: Option<&Array>) -> (r:
        Array)
        requires
            x.shape.rank() >= 2,
        ensures
            r == self.fused(*x, *q, *k, *v, given(mask)),
    {
        let (batch, length) = x.shape.outer_two();
        let config = FusedAttentionConfig {
            num_heads: self.n_heads,
            num_kv_heads: self.n_kv_heads,
            head_dim: self.head_dim,
            scale: self.scale,
            mask_type: AttentionMaskType::Causal,
        };
        let mixed = q.attend(k, v, config, mask);
        self.o_proj.run(&make_merge_heads(&mixed, batch, length))
    }

    pub(crate) fn run_cached(
        &self,
        x: &Array,
        mask: Option<&Array>,
        cache: &mut KVCache,
        layer: usize,
    ) -> (r: Array)
        requires
            x.shape.rank() >= 2,
        ensures
            (r, final(cache)@) == self.cached_output(*x, given(mask), old(cache)@, layer as int),
    {
        let offset = cache.rope_offset();
        let q = self.run_queries(x).rope(self.rope, offset);
        let k = self.run_keys(x).rope(self.rope, offset);
        let v = self.run_values(x);
        if q.fits && k.fits && v.fits {
            match cache.update_and_fetch(layer, &k, &v) {
                Ok((keys, values)) => self.run_fused(x, &q, &keys, &values, mask),
                Err(_) => make_unfit(x),
            }
        } else {
            make_unfit(x)
        }
    }

    /// Attention over the input alone. `training` says whether a training run is under way.
    pub fn forward(
        &self,
        x: &Array,
        mask: Option<&Array>,
        position_ids: Option<&Array>,
        training: bool,
    ) -> (r: Result<Array, LoraError>)
        requires
            x.shape.rank() >= 2,
            self.n_kv_heads > 0,
        ensures
            outcome(r, self.output(*x, given(mask), given(position_ids), training)),
    {
        checked(self.run(x, mask, position_ids, training))
    }

    /// Fused attention over what the cache holds for the layer and the input.
    pub fn forward_with_cache(
        &self,
        x: &Array,
        mask: Option<&Array>,
        cache: Option<(&mut KVCache, usize)>,
    ) -> (r: Result<Array, LoraError>)
        requires
            x.shape.rank() >= 2,
        ensures
            match cache {
                Some(c) => {
                    let end = self.cached_output(*x, given(mask), c.0@, c.1 as int);
                    outcome(r, end.0) && final(c.0)@ == end.1
                },
                None => outcome(r, self.fused_output(*x, given(mask))),
            },
    {
        match cache {
            Some((c, layer)) => checked(self.run_cached(x, mask, c, layer)),
            None => {
                let q = self.run_queries(x).rope(self.rope, 0);
                let k = self.run_keys(x).rope(self.rope, 0);
                let v = self.run_values(x);
                checked(self.run_fused(x, &q, &k, &v, mask))
            },
        }
    }

    /// The number of trainable elements.
    pub fn num_trainable_params(&self) -> (r: usize)
        requires
            self.countable(),
            self.trainable() <= usize::MAX,
        ensures
            r == self.trainable(),
    {
        self.q_proj.num_trainable_params() + self.k_proj.num_trainable_params()
            + self.v_proj.num_trainable_params() + self.o_proj.num_trainable_params()
    }
}

/// SwiGLU MLP with adapters on its three projections.
#[derive(Debug)]
pub struct Qwen3LoraMLP {
    pub gate_proj: LoraLinear,
    pub up_proj: LoraLinear,
    pub down_proj: LoraLinear,
}

impl Qwen3LoraMLP {
    /// The layer of a fresh model.
    pub open spec fn fresh(config: Qwen3Config, lora: LoraConfig) -> Qwen3LoraMLP {
        let h = config.hidden_size;
        let n = config.intermediate_size;
        let r = lora.r as i32;
        Qwen3LoraMLP {
            gate_proj: LoraLinear::fresh(h, n, r, lora.alpha, lora.use_rslora, false),
            up_proj: LoraLinear::fresh(h, n, r, lora.alpha, lora.use_rslora, false),
            down_proj: LoraLinear::fresh(n, h, r, lora.alpha, lora.use_rslora, false),
        }
    }

    /// `down(silu(gate(x)) * up(x))`.
    pub open spec fn output(self, x: Array) -> Array {
        self.down_proj.output(gated(self.gate_proj.output(x), self.up_proj.output(x)))
    }

    pub open spec fn trainable(self) -> nat {
        self.gate_proj.trainable() + self.up_proj.trainable() + self.down_proj.trainable()
    }

    pub open spec fn countable(self) -> bool {
        self.gate_proj.countable() && self.up_proj.countable() && self.down_proj.countable()
    }

    /// A fresh layer. Refused where an extent is negative.
    pub fn new(config: &Qwen3Config, lora_config: &LoraConfig) -> (r: Result<
        Qwen3LoraMLP,
        LoraError,
    >)
        requires
            lora_config.valid(),
        ensures
            match r {
                Ok(m) => m == Qwen3LoraMLP::fresh(*config, *lora_config) && config.hidden_size
                    >= 0 && config.intermediate_size >= 0,
                Err(e) => e is Mlx && !(config.hidden_size >= 0 && config.intermediate_size >= 0),
            },
    {
        let hidden = config.hidden_size;
        let inner = config.intermediate_size;
        let rank: i32 = lora_config.r as i32;
        let alpha = lora_config.alpha;
        let rs = lora_config.use_rslora;
        match (
            LoraLinear::new(hidden, inner, rank, alpha, rs, false),
            LoraLinear::new(hidden, inner, rank, alpha, rs, false),
            LoraLinear::new(inner, hidden, rank, alpha, rs, false),
        ) {
            (Ok(gate_proj), Ok(up_proj), Ok(down_proj)) => Ok(
                Qwen3LoraMLP { gate_proj, up_proj, down_proj },
            ),
            _ => Err(misfit()),
        }
    }

    pub(crate) fn run(&self, x: &Array) -> (r: Array)
        ensures
            r == self.output(*x),
    {
        let gate = self.gate_proj.run(x);
        let up = self.up_proj.run(x);
        self.down_proj.run(&make_gated(&gate, &up))
    }

    /// `down(silu(gate(x)) * up(x))`.
    pub fn forward(&self, x: &Array) -> (r: Result<Array, LoraError>)
        ensures
            outcome(r, self.output(*x)),
    {
        checked(self.run(x))
    }

    /// The number of trainable elements.
    pub fn num_trainable_params(&self) -> (r: usize)
        requires
            self.countable(),
            self.trainable() <= usize::MAX,
        ensures
            r == self.trainable(),
    {
        self.gate_proj.num_trainable_params() + self.up_proj.num_trainable_params()
            + self.down_proj.num_trainable_params()
    }
}

/// Attention and MLP, each behind a normalization and beside a residual connection.
#[derive(Debug)]
pub struct Qwen3LoraDecoderLayer {
    pub self_attn: Qwen3LoraAttention,
    pub mlp: Qwen3LoraMLP,
    pub input_layernorm: RmsNorm,
    pub post_attention_layernorm: RmsNorm,
}

impl Qwen3LoraDecoderLayer {
    /// The layer of a fresh model.
    pub open spec fn fresh(
        config: Qwen3Config,
        lora: LoraConfig,
        id: usize,
    ) -> Qwen3LoraDecoderLayer {
        Qwen3LoraDecoderLayer {
            self_attn: Qwen3LoraAttention::fresh(config, lora, id),
            mlp: Qwen3LoraMLP::fresh(config, lora),
            input_layernorm: RmsNorm::fresh(config.hidden_size, config.rms_norm_eps),
            post_attention_layernorm: RmsNorm::fresh(config.hidden_size, config.rms_norm_eps),
        }
    }

    /// The MLP's part, on top of an input to which attention was added.
    pub open spec fn finish(self, h: Array) -> Array {
        plus(h, self.mlp.output(self.post_attention_layernorm.output(h)))
    }

    pub open spec fn output(
        self,
        x: Array,
        mask: Option<Array>,
        positions: Option<Array>,
        training: bool,
    ) -> Array {
        self.finish(
            plus(
                x,
                self.self_attn.output(self.input_layernorm.output(x), mask, positions, training),
            ),
        )
    }

    pub open spec fn fused_output(self, x: Array, mask: Option<Array>) -> Array {
        self.finish(plus(x, self.self_attn.fused_output(self.input_layernorm.output(x), mask)))
    }

    pub open spec fn cached_output(
        self,
        x: Array,
        mask: Option<Array>,
        cache: KVCacheState,
        layer: int,
    ) -> (Array, KVCacheState) {
        let end = self.self_attn.cached_output(self.input_layernorm.output(x), mask, cache, layer);
        (self.finish(plus(x, end.0)), end.1)
    }

    /// A fresh layer. Refused where an extent is negative.
    pub fn new(config: &Qwen3Config, lora_config: &LoraConfig, ids: &mut LayerIds) -> (r: Result<
        Qwen3LoraDecoderLayer,
        LoraError,
    >)
        requires
            config.valid(),
            lora_config.valid(),
            old(ids).next < usize::MAX,
        ensures
            final(ids).next == old(ids).next + 1,
            match r {
                Ok(l) => config.buildable() && l == Qwen3LoraDecoderLayer::fresh(
                    *config,
                    *lora_config,
                    old(ids).next,
                ),
                Err(e) => e is Mlx && !config.buildable(),
            },
    {
        match (
            Qwen3LoraAttention::new(config, lora_config, ids),
            Qwen3LoraMLP::new(config, lora_config),
        ) {
            (Ok(self_attn), Ok(mlp)) => Ok(
                Qwen3LoraDecoderLayer {
                    self_attn,
                    mlp,
                    input_layernorm: RmsNorm::new(config.hidden_size, config.rms_norm_eps),
                    post_attention_layernorm: RmsNorm::new(config.hidden_size, config.rms_norm_eps),
                },
            ),
            _ => Err(misfit()),
        }
    }

    fn run_finish(&self, h: &Array) -> (r: Array)
        ensures
            r == self.finish(*h),
    {
        h.add(&self.mlp.run(&self.post_attention_layernorm.run(h)))
    }

    pub(crate) fn run(
        &self,
        x: &Array,
        mask: Option<&Array>,
        positions: Option<&Array>,
        training: bool,
    ) -> (r: Array)
        requires
            x.shape.rank() >= 2,
            self.self_attn.n_kv_heads > 0,
        ensures
            r == self.output(*x, given(mask), given(positions), training),
            r.shape.rank() >= x.shape.rank(),
    {
        broadcast use {lemma_rms_norm_shape, lemma_combine_rank};

        let normed = self.input_layernorm.run(x);
        self.run_finish(&x.add(&self.self_attn.run(&normed, mask, positions, training)))
    }

    pub(crate) fn run_cached(
        &self,
        x: &Array,
        mask: Option<&Array>,
        cache: &mut KVCache,
        layer: usize,
    ) -> (r: Array)
        requires
            x.shape.rank() >= 2,
        ensures
            (r, final(cache)@) == self.cached_output(*x, given(mask), old(cache)@, layer as int),
            r.shape.rank() >= x.shape.rank(),
    {
        broadcast use {lemma_rms_norm_shape, lemma_combine_rank};

        let normed = self.input_layernorm.run(x);
        self.run_finish(&x.add(&self.self_attn.run_cached(&normed, mask, cache, layer)))
    }

    /// The layer's output.
    pub fn forward(
        &self,
        x: &Array,
        mask: Option<&Array>,
        position_ids: Option<&Array>,
        training: bool,
    ) -> (r: Result<Array, LoraError>)
        requires
            x.shape.rank() >= 2,
            self.self_attn.n_kv_heads > 0,
        ensures
            outcome(r, self.output(*x, given(mask), given(position_ids), training)),
    {
        checked(self.run(x, mask, position_ids, training))
    }

    /// The layer's output, by fused attention over what the cache holds and the input.
    pub fn forward_with_cache(
        &self,
        x: &Array,
        mask: Option<&Array>,
        cache: Option<(&mut KVCache, usize)>,
    ) -> (r: Result<Array, LoraError>)
        requires
            x.shape.rank() >= 2,
        ensures
            match cache {
                Some(c) => {
                    let end = self.cached_output(*x, given(mask), c.0@, c.1 as int);
                    outcome(r, end.0) && final(c.0)@ == end.1
                },
                None => outcome(r, self.fused_output(*x, given(mask))),
            },
    {
        broadcast use {lemma_rms_norm_shape, lemma_combine_fits};

        match cache {
            Some((c, layer)) => checked(self.run_cached(x, mask, c, layer)),
            None => {
                let normed = self.input_layernorm.run(x);
                match self.self_attn.forward_with_cache(&normed, mask, None) {
                    Ok(a) => checked(self.run_finish(&x.add(&a))),
                    Err(_) => Err(misfit()),
                }
            },
        }
    }

    /// The number of trainable elements.
    pub fn num_trainable_params(&self) -> (r: usize)
        requires
            self.countable(),
            LoraLayer::trainable(*self) <= usize::MAX,
        ensures
            r == LoraLayer::trainable(*self),
    {
        self.self_attn.num_trainable_params() + self.mlp.num_trainable_params()
    }

    /// The layer with the frozen weights that have its names.
    pub open spec fn loaded(self, i: nat, weights: Map<Seq<char>, Array>) -> Qwen3LoraDecoderLayer {
        let m = "model"@;
        Qwen3LoraDecoderLayer {
            self_attn: Qwen3LoraAttention {
                q_proj: loaded(
                    self.self_attn.q_proj,
                    weights,
                    base_name(m, i, Section::SelfAttn, Proj::Q),
                ),
                k_proj: loaded(
                    self.self_attn.k_proj,
                    weights,
                    base_name(m, i, Section::SelfAttn, Proj::K),
                ),
                v_proj: loaded(
                    self.self_attn.v_proj,
                    weights,
                    base_name(m, i, Section::SelfAttn, Proj::V),
                ),
                o_proj: loaded(
                    self.self_attn.o_proj,
                    weights,
                    base_name(m, i, Section::SelfAttn, Proj::O),
                ),
                q_norm: loaded_norm(
                    self.self_attn.q_norm,
                    weights,
                    part_name(m, i, "self_attn.q_norm.weight"@),
                ),
                k_norm: loaded_norm(
                    self.self_attn.k_norm,
                    weights,
                    part_name(m, i, "self_attn.k_norm.weight"@),
                ),
                ..self.self_attn
            },
            mlp: Qwen3LoraMLP {
                gate_proj: loaded(
                    self.mlp.gate_proj,
                    weights,
                    base_name(m, i, Section::Mlp, Proj::Gate),
                ),
                up_proj: loaded(self.mlp.up_proj, weights, base_name(m, i, Section::Mlp, Proj::Up)),
                down_proj: loaded(
                    self.mlp.down_proj,
                    weights,
                    base_name(m, i, Section::Mlp, Proj::Down),
                ),
            },
            input_layernorm: loaded_norm(
                self.input_layernorm,
                weights,
                part_name(m, i, "input_layernorm.weight"@),
            ),
            post_attention_layernorm: loaded_norm(
                self.post_attention_layernorm,
                weights,
                part_name(m, i, "post_attention_layernorm.weight"@),
            ),
        }
    }

    fn load(&mut self, i: usize, weights: &NameMap<Array>)
        ensures
            *final(self) == old(self).loaded(i as nat, weights@),
    {
        let a = Section::SelfAttn;
        let m = Section::Mlp;
        load_lora(&mut self.self_attn.q_proj, weights, &make_base_name("model", i, a, Proj::Q));
        load_lora(&mut self.self_attn.k_proj, weights, &make_base_name("model", i, a, Proj::K));
        load_lora(&mut self.self_attn.v_proj, weights, &make_base_name("model", i, a, Proj::V));
        load_lora(&mut self.self_attn.o_proj, weights, &make_base_name("model", i, a, Proj::O));
        load_norm(
            &mut self.self_attn.q_norm,
            weights,
            &make_part_name("model", i, "self_attn.q_norm.weight"),
        );
        load_norm(
            &mut self.self_attn.k_norm,
            weights,
            &make_part_name("model", i, "self_attn.k_norm.weight"),
        );
        load_lora(&mut self.mlp.gate_proj, weights, &make_base_name("model", i, m, Proj::Gate));
        load_lora(&mut self.mlp.up_proj, weights, &make_base_name("model", i, m, Proj::Up));
        load_lora(&mut self.mlp.down_proj, weights, &make_base_name("model", i, m, Proj::Down));
        load_norm(
            &mut self.input_layernorm,
            weights,
            &make_part_name("model", i, "input_layernorm.weight"),
        );
        load_norm(
            &mut self.post_attention_layernorm,
            weights,
            &make_part_name("model", i, "post_attention_layernorm.weight"),
        );
    }
}

impl LoraLayer for Qwen3LoraDecoderLayer {
    open spec fn places(self) -> Seq<Place> {
        seq![
            at(Section::SelfAttn, Proj::Q), at(Section::SelfAttn, Proj::K),
            at(Section::SelfAttn, Proj::V), at(Section::SelfAttn, Proj::O),
            at(Section::Mlp, Proj::Gate), at(Section::Mlp, Proj::Up), at(Section::Mlp, Proj::Down)
        ]
    }

    open spec fn matrices(self) -> Seq<Array> {
        seq![
            self.self_attn.q_proj.a(), self.self_attn.q_proj.b(), self.self_attn.k_proj.a(),
            self.self_attn.k_proj.b(), self.self_attn.v_proj.a(), self.self_attn.v_proj.b(),
            self.self_attn.o_proj.a(), self.self_attn.o_proj.b(), self.mlp.gate_proj.a(),
            self.mlp.gate_proj.b(), self.mlp.up_proj.a(), self.mlp.up_proj.b(),
            self.mlp.down_proj.a(), self.mlp.down_proj.b()
        ]
    }

    open spec fn with_matrices(self, m: Seq<Array>) -> Qwen3LoraDecoderLayer {
        Qwen3LoraDecoderLayer {
            self_attn: Qwen3LoraAttention {
                q_proj: self.self_attn.q_proj.with(m[0], m[1]),
                k_proj: self.self_attn.k_proj.with(m[2], m[3]),
                v_proj: self.self_attn.v_proj.with(m[4], m[5]),
                o_proj: self.self_attn.o_proj.with(m[6], m[7]),
                ..self.self_attn
            },
            mlp: Qwen3LoraMLP {
                gate_proj: self.mlp.gate_proj.with(m[8], m[9]),
                up_proj: self.mlp.up_proj.with(m[10], m[11]),
                down_proj: self.mlp.down_proj.with(m[12], m[13]),
                ..self.mlp
            },
            ..self
        }
    }

    open spec fn trainable(self) -> nat {
        self.self_attn.trainable() + self.mlp.trainable()
    }

    open spec fn countable(self) -> bool {
        self.self_attn.countable() && self.mlp.countable()
    }

    proof fn lemma_layer(self, m: Seq<Array>) {
        assert(self.with_matrices(m).matrices() =~= m);
    }

    fn collect(&self, params: &mut NameMap<Array>, style: NameStyle, layer: usize) {
        proof {
            reveal_with_fuel(with_named, 15);
        }
        collect_adapter(&self.self_attn.q_proj, params, style, layer, Section::SelfAttn, Proj::Q);
        collect_adapter(&self.self_attn.k_proj, params, style, layer, Section::SelfAttn, Proj::K);
        collect_adapter(&self.self_attn.v_proj, params, style, layer, Section::SelfAttn, Proj::V);
        collect_adapter(&self.self_attn.o_proj, params, style, layer, Section::SelfAttn, Proj::O);
        collect_adapter(&self.mlp.gate_proj, params, style, layer, Section::Mlp, Proj::Gate);
        collect_adapter(&self.mlp.up_proj, params, style, layer, Section::Mlp, Proj::Up);
        collect_adapter(&self.mlp.down_proj, params, style, layer, Section::Mlp, Proj::Down);
    }

    fn assign(&mut self, params: &NameMap<Array>, style: NameStyle, layer: usize) {
        assign_adapter(
            &mut self.self_attn.q_proj,
            params,
            style,
            layer,
            Section::SelfAttn,
            Proj::Q,
        );
        assign_adapter(
            &mut self.self_attn.k_proj,
            params,
            style,
            layer,
            Section::SelfAttn,
            Proj::K,
        );
        assign_adapter(
            &mut self.self_attn.v_proj,
            params,
            style,
            layer,
            Section::SelfAttn,
            Proj::V,
        );
        assign_adapter(
            &mut self.self_attn.o_proj,
            params,
            style,
            layer,
            Section::SelfAttn,
            Proj::O,
        );
        assign_adapter(&mut self.mlp.gate_proj, params, style, layer, Section::Mlp, Proj::Gate);
        assign_adapter(&mut self.mlp.up_proj, params, style, layer, Section::Mlp, Proj::Up);
        assign_adapter(&mut self.mlp.down_proj, params, style, layer, Section::Mlp, Proj::Down);
    }

    fn refs<'a>(&'a self) -> (r: Vec<ParamRef<'a>>) {
        let mut r: Vec<ParamRef<'a>> = Vec::new();
        push_refs(&self.self_attn.q_proj, Section::SelfAttn, Proj::Q, &mut r);
        push_refs(&self.self_attn.k_proj, Section::SelfAttn, Proj::K, &mut r);
        push_refs(&self.self_attn.v_proj, Section::SelfAttn, Proj::V, &mut r);
        push_refs(&self.self_attn.o_proj, Section::SelfAttn, Proj::O, &mut r);
        push_refs(&self.mlp.gate_proj, Section::Mlp, Proj::Gate, &mut r);
        push_refs(&self.mlp.up_proj, Section::Mlp, Proj::Up, &mut r);
        push_refs(&self.mlp.down_proj, Section::Mlp, Proj::Down, &mut r);
        r
    }

    fn refs_mut<'a>(&'a mut self) -> (r: Vec<ParamMut<'a>>) {
        let mut r: Vec<ParamMut<'a>> = Vec::new();
        let (a, b) = adapter_refs_mut(&mut self.self_attn.q_proj, Section::SelfAttn, Proj::Q);
        r.push(a);
        r.push(b);
        let (a, b) = adapter_refs_mut(&mut self.self_attn.k_proj, Section::SelfAttn, Proj::K);
        r.push(a);
        r.push(b);
        let (a, b) = adapter_refs_mut(&mut self.self_attn.v_proj, Section::SelfAttn, Proj::V);
        r.push(a);
        r.push(b);
        let (a, b) = adapter_refs_mut(&mut self.self_attn.o_proj, Section::SelfAttn, Proj::O);
        r.push(a);
        r.push(b);
        let (a, b) = adapter_refs_mut(&mut self.mlp.gate_proj, Section::Mlp, Proj::Gate);
        r.push(a);
        r.push(b);
        let (a, b) = adapter_refs_mut(&mut self.mlp.up_proj, Section::Mlp, Proj::Up);
        r.push(a);
        r.push(b);
        let (a, b) = adapter_refs_mut(&mut self.mlp.down_proj, Section::Mlp, Proj::Down);
        r.push(a);
        r.push(b);
        r
    }

    fn count(&self) -> (r: usize) {
        self.num_trainable_params()
    }
}

impl EvalLayer for Qwen3LoraDecoderLayer {
    open spec fn evaluated(self) -> Seq<Array> {
        seq![
            self.self_attn.q_proj.weight, self.self_attn.k_proj.weight,
            self.self_attn.v_proj.weight, self.self_attn.o_proj.weight, self.mlp.gate_proj.weight,
            self.mlp.up_proj.weight, self.mlp.down_proj.weight, self.self_attn.q_norm.weight,
            self.self_attn.k_norm.weight, self.self_attn.q_proj.lora_a,
            self.self_attn.q_proj.lora_b, self.self_attn.k_proj.lora_a,
            self.self_attn.k_proj.lora_b, self.self_attn.v_proj.lora_a,
            self.self_attn.v_proj.lora_b, self.self_attn.o_proj.lora_a,
            self.self_attn.o_proj.lora_b, self.mlp.gate_proj.lora_a, self.mlp.gate_proj.lora_b,
            self.mlp.up_proj.lora_a, self.mlp.up_proj.lora_b, self.mlp.down_proj.lora_a,
            self.mlp.down_proj.lora_b, self.input_layernorm.weight,
            self.post_attention_layernorm.weight
        ]
    }

    fn push_evaluated(&self, out: &mut Vec<Array>) {
        out.push(self.self_attn.q_proj.weight.clone());
        out.push(self.self_attn.k_proj.weight.clone());
        out.push(self.self_attn.v_proj.weight.clone());
        out.push(self.self_attn.o_proj.weight.clone());
        out.push(self.mlp.gate_proj.weight.clone());
        out.push(self.mlp.up_proj.weight.clone());
        out.push(self.mlp.down_proj.weight.clone());
        out.push(self.self_attn.q_norm.weight.clone());
        out.push(self.self_attn.k_norm.weight.clone());
        out.push(self.self_attn.q_proj.lora_a.clone());
        out.push(self.self_attn.q_proj.lora_b.clone());
        out.push(self.self_attn.k_proj.lora_a.clone());
        out.push(self.self_attn.k_proj.lora_b.clone());
        out.push(self.self_attn.v_proj.lora_a.clone());
        out.push(self.self_attn.v_proj.lora_b.clone());
        out.push(self.self_attn.o_proj.lora_a.clone());
        out.push(self.self_attn.o_proj.lora_b.clone());
        out.push(self.mlp.gate_proj.lora_a.clone());
        out.push(self.mlp.gate_proj.lora_b.clone());
        out.push(self.mlp.up_proj.lora_a.clone());
        out.push(self.mlp.up_proj.lora_b.clone());
        out.push(self.mlp.down_proj.lora_a.clone());
        out.push(self.mlp.down_proj.lora_b.clone());
        out.push(self.input_layernorm.weight.clone());
        out.push(self.post_attention_layernorm.weight.clone());
        assert(out@ =~= old(out)@ + self.evaluated());
    }
}

/// The embeddings, the layers and the last normalization.
#[derive(Debug)]
pub struct Qwen3LoraModel {
    pub config: Qwen3Config,
    pub lora_config: LoraConfig,
    pub embed_tokens: Embedding,
    pub layers: Vec<Qwen3LoraDecoderLayer>,
    pub norm: RmsNorm,
}

/// The output of the first `n` layers, one behind the other.
pub open spec fn qwen3_stack(
    layers: Seq<Qwen3LoraDecoderLayer>,
    n: nat,
    x: Array,
    mask: Option<Array>,
    positions: Option<Array>,
    training: bool,
) -> Array
    decreases n,
{
    if n == 0 {
        x
    } else {
        layers[n - 1].output(
            qwen3_stack(layers, (n - 1) as nat, x, mask, positions, training),
            mask,
            positions,
            training,
        )
    }
}

/// The output of the first `n` layers over a cache, and the cache behind them.
pub open spec fn qwen3_cached_stack(
    layers: Seq<Qwen3LoraDecoderLayer>,
    n: nat,
    x: Array,
    mask: Option<Array>,
    cache: KVCacheState,
) -> (Array, KVCacheState)
    decreases n,
{
    if n == 0 {
        (x, cache)
    } else {
        let before = qwen3_cached_stack(layers, (n - 1) as nat, x, mask, cache);
        layers[n - 1].cached_output(before.0, mask, before.1, n - 1)
    }
}

/// Each layer has key heads.
pub open spec fn qwen3_has_heads(layers: Seq<Qwen3LoraDecoderLayer>) -> bool {
    forall|i: int| 0 <= i < layers.len() ==> (#[trigger] layers[i]).self_attn.n_kv_heads > 0
}

impl Qwen3LoraModel {
    /// The hidden states behind the last normalization, under the given mask.
    pub open spec fn masked_output(
        self,
        ids: Array,
        mask: Option<Array>,
        positions: Option<Array>,
        training: bool,
    ) -> Array {
        self.norm.output(
            qwen3_stack(
                self.layers@,
                self.layers@.len(),
                self.embed_tokens.output(ids),
                mask,
                positions,
                training,
            ),
        )
    }

    /// The hidden states behind the last normalization. Without a mask, the causal one is used.
    pub open spec fn output(
        self,
        ids: Array,
        mask: Option<Array>,
        positions: Option<Array>,
        training: bool,
    ) -> Array {
        self.masked_output(ids, mask_or_causal(mask, ids), positions, training)
    }

    pub open spec fn cached_output(
        self,
        ids: Array,
        mask: Option<Array>,
        cache: KVCacheState,
    ) -> (Array, KVCacheState) {
        let end = qwen3_cached_stack(
            self.layers@,
            self.layers@.len(),
            self.embed_tokens.output(ids),
            mask,
            cache,
        );
        (self.norm.output(end.0), end.1)
    }

    /// A fresh model. Refused where an extent is negative.
    pub fn new(config: Qwen3Config, lora_config: LoraConfig, ids: &mut LayerIds) -> (r: Result<
        Qwen3LoraModel,
        LoraError,
    >)
        requires
            config.valid(),
            lora_config.valid(),
        ensures
            match r {
                Ok(m) => qwen3_buildable(config) && m.is_fresh(config, lora_config)
                    && final(ids).next == m.layers@.len(),
                Err(e) => e is Mlx && !qwen3_buildable(config) && final(ids).next == (
                if config.vocab_size >= 0 && config.hidden_size >= 0 {
                    1int
                } else {
                    0
                }),
            },
    {
        reset_layer_ids(ids);
        let embed_tokens = match Embedding::new(config.vocab_size, config.hidden_size) {
            Ok(e) => e,
            Err(_) => {
                return Err(misfit());
            },
        };
        let mut layers: Vec<Qwen3LoraDecoderLayer> = Vec::new();
        let mut i: i32 = 0;
        while i < config.num_hidden_layers
            invariant
                0 <= i,
                i <= config.num_hidden_layers || i == 0,
                layers@.len() == i,
                ids.next == i,
                config.vocab_size >= 0 && config.hidden_size >= 0,
                i > 0 ==> config.buildable(),
                config.valid(),
                lora_config.valid(),
                forall|j: int|
                    0 <= j < i ==> #[trigger] layers@[j] == Qwen3LoraDecoderLayer::fresh(
                        config,
                        lora_config,
                        j as usize,
                    ),
            decreases config.num_hidden_layers - i,
        {
            match Qwen3LoraDecoderLayer::new(&config, &lora_config, ids) {
                Ok(l) => {
                    layers.push(l);
                },
                Err(_) => {
                    return Err(misfit());
                },
            }
            i = i + 1;
        }
        Ok(
            Qwen3LoraModel {
                config,
                lora_config,
                embed_tokens,
                layers,
                norm: RmsNorm::new(config.hidden_size, config.rms_norm_eps),
            },
        )
    }

    /// The model that the settings give, before any weight is loaded.
    pub open spec fn is_fresh(self, config: Qwen3Config, lora: LoraConfig) -> bool {
        &&& self.config == config
        &&& self.lora_config == lora
        &&& self.embed_tokens == Embedding::fresh(config.vocab_size, config.hidden_size)
        &&& self.layers@.len() == (if config.num_hidden_layers > 0 {
            config.num_hidden_layers as nat
        } else {
            0
        })
        &&& forall|i: int|
            0 <= i < self.layers@.len() ==> #[trigger] self.layers@[i]
                == Qwen3LoraDecoderLayer::fresh(config, lora, i as usize)
        &&& self.norm == RmsNorm::fresh(config.hidden_size, config.rms_norm_eps)
    }

    pub(crate) fn run_masked(
        &self,
        ids: &Array,
        mask: Option<&Array>,
        positions: Option<&Array>,
        training: bool,
    ) -> (r: Array)
        requires
            ids.shape.rank() >= 1,
            qwen3_has_heads(self.layers@),
        ensures
            r == self.masked_output(*ids, given(mask), given(positions), training),
    {
        broadcast use lemma_embed_rank;

        let mut h = self.embed_tokens.run(ids);
        let ghost x = h;
        let mut i: usize = 0;
        while i < self.layers.len()
            invariant
                i <= self.layers.len(),
                qwen3_has_heads(self.layers@),
                h.shape.rank() >= 2,
                h == qwen3_stack(
                    self.layers@,
                    i as nat,
                    x,
                    given(mask),
                    given(positions),
                    training,
                ),
            decreases self.layers.len() - i,
        {
            h = self.layers[i].run(&h, mask, positions, training);
            i = i + 1;
        }
        self.norm.run(&h)
    }

    pub(crate) fn run_cached(&self, ids: &Array, mask: Option<&Array>, cache: &mut KVCache) -> (r:
        Array)
        requires
            ids.shape.rank() >= 1,
        ensures
            (r, final(cache)@) == self.cached_output(*ids, given(mask), old(cache)@),
    {
        broadcast use lemma_embed_rank;

        let mut h = self.embed_tokens.run(ids);
        let ghost x = h;
        let mut i: usize = 0;
        while i < self.layers.len()
            invariant
                i <= self.layers.len(),
                h.shape.rank() >= 2,
                (h, cache@) == qwen3_cached_stack(
                    self.layers@,
                    i as nat,
                    x,
                    given(mask),
                    old(cache)@,
                ),
            decreases self.layers.len() - i,
        {
            h = self.layers[i].run_cached(&h, mask, cache, i);
            i = i + 1;
        }
        self.norm.run(&h)
    }

    pub(crate) fn run(
        &self,
        ids: &Array,
        mask: Option<&Array>,
        positions: Option<&Array>,
        training: bool,
    ) -> (r: Array)
        requires
            ids.shape.rank() >= 2,
            qwen3_has_heads(self.layers@),
        ensures
            r == self.output(*ids, given(mask), given(positions), training),
    {
        match mask {
            Some(_) => self.run_masked(ids, mask, positions, training),
            None => {
                let (_, length) = ids.shape.outer_two();
                let causal = create_causal_mask(length);
                self.run_masked(ids, Some(&causal), positions, training)
            },
        }
    }

    /// The hidden states behind the last normalization.
    pub fn forward(
        &self,
        input_ids: &Array,
        mask: Option<&Array>,
        position_ids: Option<&Array>,
        training: bool,
    ) -> (r: Result<Array, LoraError>)
        requires
            input_ids.shape.rank() >= 2,
            qwen3_has_heads(self.layers@),
        ensures
            outcome(r, self.output(*input_ids, given(mask), given(position_ids), training)),
    {
        checked(self.run(input_ids, mask, position_ids, training))
    }

    /// The same: checkpointing keeps the result.
    pub fn forward_with_checkpoint(
        &self,
        input_ids: &Array,
        mask: Option<&Array>,
        position_ids: Option<&Array>,
        training: bool,
        _checkpoint_config: Option<&CheckpointConfig>,
    ) -> (r: Result<Array, LoraError>)
        requires
            input_ids.shape.rank() >= 2,
            qwen3_has_heads(self.layers@),
        ensures
            outcome(r, self.output(*input_ids, given(mask), given(position_ids), training)),
    {
        checked(self.run(input_ids, mask, position_ids, training))
    }

    /// The hidden states over what the cache holds and the input; without a cache, over the
    /// input alone, under the given mask.
    pub fn forward_with_cache(
        &self,
        input_ids: &Array,
        mask: Option<&Array>,
        cache: Option<&mut KVCache>,
        training: bool,
    ) -> (r: Result<Array, LoraError>)
        requires
            input_ids.shape.rank() >= 1,
            cache is None ==> qwen3_has_heads(self.layers@),
        ensures
            match cache {
                Some(c) => {
                    let end = self.cached_output(*input_ids, given(mask), c@);
                    outcome(r, end.0) && final(c)@ == end.1
                },
                None => outcome(
                    r,
                    self.masked_output(*input_ids, given(mask), None, training),
                ),
            },
    {
        match cache {
            Some(c) => checked(self.run_cached(input_ids, mask, c)),
            None => checked(self.run_masked(input_ids, mask, None, training)),
        }
    }

    /// The number of trainable elements.
    pub fn num_trainable_params(&self) -> (r: usize)
        requires
            stack_countable(self.layers@),
        ensures
            r == trainable_total(self.layers@),
    {
        count_trainable(&self.layers)
    }
}

/// No extent of the embeddings is negative, nor of the layers where there are any.
pub open spec fn qwen3_buildable(config: Qwen3Config) -> bool {
    config.vocab_size >= 0 && config.hidden_size >= 0 && (config.num_hidden_layers > 0
        ==> config.buildable())
}

/// The model with a head for logits.
#[derive(Debug)]
pub struct Qwen3LoraForCausalLM {
    pub model: Qwen3LoraModel,
    /// Absent where the embeddings serve as head.
    pub lm_head: Option<Linear>,
    pub checkpoint_config: Option<CheckpointConfig>,
}

impl Qwen3LoraForCausalLM {
    /// The logits.
    pub open spec fn output(
        self,
        ids: Array,
        mask: Option<Array>,
        positions: Option<Array>,
        training: bool,
    ) -> Array {
        logits(
            self.lm_head,
            self.model.embed_tokens,
            self.model.output(ids, mask, positions, training),
        )
    }

    /// The logits under the given mask.
    pub open spec fn masked_output(self, ids: Array, mask: Option<Array>, training: bool) -> Array {
        logits(
            self.lm_head,
            self.model.embed_tokens,
            self.model.masked_output(ids, mask, None, training),
        )
    }

    pub open spec fn cached_output(
        self,
        ids: Array,
        mask: Option<Array>,
        cache: KVCacheState,
    ) -> (Array, KVCacheState) {
        let end = self.model.cached_output(ids, mask, cache);
        (logits(self.lm_head, self.model.embed_tokens, end.0), end.1)
    }

    /// A fresh model. Refused where an extent is negative.
    pub fn new(config: Qwen3Config, lora_config: LoraConfig, ids: &mut LayerIds) -> (r: Result<
        Qwen3LoraForCausalLM,
        LoraError,
    >)
        requires
            config.valid(),
            lora_config.valid(),
        ensures
            match r {
                Ok(m) => {
                    &&& qwen3_buildable(config)
                    &&& m.model.is_fresh(config, lora_config)
                    &&& m.lm_head == fresh_head(
                        config.tie_word_embeddings,
                        config.hidden_size,
                        config.vocab_size,
                    )
                    &&& m.checkpoint_config is None
                    &&& final(ids).next == m.model.layers@.len()
                },
                Err(e) => e is Mlx && !qwen3_buildable(config),
            },
    {
        match Qwen3LoraModel::new(config, lora_config, ids) {
            Ok(model) => Ok(
                Qwen3LoraForCausalLM {
                    model,
                    lm_head: make_head(
                        config.tie_word_embeddings,
                        config.hidden_size,
                        config.vocab_size,
                    ),
                    checkpoint_config: None,
                },
            ),
            Err(_) => Err(misfit()),
        }
    }

    /// The logits.
    pub fn forward(
        &self,
        input_ids: &Array,
        mask: Option<&Array>,
        position_ids: Option<&Array>,
        training: bool,
    ) -> (r: Result<Array, LoraError>)
        requires
            input_ids.shape.rank() >= 2,
            qwen3_has_heads(self.model.layers@),
        ensures
            outcome(r, self.output(*input_ids, given(mask), given(position_ids), training)),
    {
        let hidden = self.model.run(input_ids, mask, position_ids, training);
        checked(run_logits(&self.lm_head, &self.model.embed_tokens, &hidden))
    }

    /// The logits: checkpointing keeps the result.
    pub fn forward_with_checkpoint(
        &self,
        input_ids: &Array,
        mask: Option<&Array>,
        position_ids: Option<&Array>,
        training: bool,
        _checkpoint_config: Option<&CheckpointConfig>,
    ) -> (r: Result<Array, LoraError>)
        requires
            input_ids.shape.rank() >= 2,
            qwen3_has_heads(self.model.layers@),
        ensures
            outcome(r, self.output(*input_ids, given(mask), given(position_ids), training)),
    {
        self.forward(input_ids, mask, position_ids, training)
    }

    /// The logits at the given positions.
    pub fn forward_with_positions(
        &self,
        input_ids: &Array,
        mask: Option<&Array>,
        position_ids: &Array,
        training: bool,
    ) -> (r: Result<Array, LoraError>)
        requires
            input_ids.shape.rank() >= 2,
            qwen3_has_heads(self.model.layers@),
        ensures
            outcome(r, self.output(*input_ids, given(mask), Some(*position_ids), training)),
    {
        self.forward(input_ids, mask, Some(position_ids), training)
    }

    /// The logits over what the cache holds and the input; without a cache, over the input
    /// alone.
    pub fn forward_with_cache(
        &self,
        input_ids: &Array,
        mask: Option<&Array>,
        cache: Option<&mut KVCache>,
        training: bool,
    ) -> (r: Result<Array, LoraError>)
        requires
            input_ids.shape.rank() >= 1,
            cache is None ==> qwen3_has_heads(self.model.layers@),
        ensures
            match cache {
                Some(c) => {
                    let end = self.cached_output(*input_ids, given(mask), c@);
                    outcome(r, end.0) && final(c)@ == end.1
                },
                None => outcome(r, self.masked_output(*input_ids, given(mask), training)),
            },
    {
        match cache {
            Some(c) => {
                let hidden = self.model.run_cached(input_ids, mask, c);
                checked(run_logits(&self.lm_head, &self.model.embed_tokens, &hidden))
            },
            None => {
                let hidden = self.model.run_masked(input_ids, mask, None, training);
                checked(run_logits(&self.lm_head, &self.model.embed_tokens, &hidden))
            },
        }
    }

    /// An empty cache of the model's extents.
    pub fn create_cache(&self, max_seq_len: usize) -> (r: KVCache)
        requires
            self.model.config.valid(),
            self.model.config.num_hidden_layers >= 0,
            self.model.config.kv_heads() >= 0,
            self.model.config.head_dim >= 0,
        ensures
            r@ == KVCacheState::fresh(
                KVCacheConfig {
                    num_layers: self.model.config.num_hidden_layers as usize,
                    max_seq_len,
                    num_kv_heads: self.model.config.kv_heads() as usize,
                    head_dim: self.model.config.head_dim as usize,
                },
            ),
    {
        KVCache::new(
            KVCacheConfig::new(
                self.model.config.num_hidden_layers as usize,
                max_seq_len,
                self.model.config.num_kv_heads() as usize,
                self.model.config.get_head_dim() as usize,
            ),
        )
    }

    /// The model with its layers replaced, and nothing else.
    pub open spec fn only_layers_changed(self, after: Qwen3LoraForCausalLM) -> bool {
        &&& after.model.config == self.model.config
        &&& after.model.lora_config == self.model.lora_config
        &&& after.model.embed_tokens == self.model.embed_tokens
        &&& after.model.norm == self.model.norm
        &&& after.lm_head == self.lm_head
        &&& after.checkpoint_config == self.checkpoint_config
    }

    /// Switches gradient checkpointing on.
    pub fn enable_gradient_checkpointing(&mut self, layers_per_block: usize)
        ensures
            *final(self) == (Qwen3LoraForCausalLM {
                checkpoint_config: Some(checkpointing(layers_per_block)),
                ..*old(self)
            }),
    {
        self.checkpoint_config = Some(make_checkpointing(layers_per_block));
    }

    /// Switches gradient checkpointing off.
    pub fn disable_gradient_checkpointing(&mut self)
        ensures
            *final(self) == (Qwen3LoraForCausalLM { checkpoint_config: None, ..*old(self) }),
    {
        self.checkpoint_config = None;
    }

    pub fn supports_gradient_checkpointing(&self) -> (r: bool)
        ensures
            r == true,
    {
        true
    }

    /// The number of trainable elements.
    pub fn num_trainable_params(&self) -> (r: usize)
        requires
            stack_countable(self.model.layers@),
        ensures
            r == trainable_total(self.model.layers@),
    {
        self.model.num_trainable_params()
    }

    /// The number of trainable elements.
    pub fn num_parameters(&self) -> (r: usize)
        requires
            stack_countable(self.model.layers@),
        ensures
            r == trainable_total(self.model.layers@),
    {
        self.model.num_trainable_params()
    }

    /// The matrices of all adapters, under their names.
    pub fn lora_parameters(&self) -> (r: NameMap<Array>)
        ensures
            r@ == parameter_map(NameStyle::Plain, self.model.layers@),
    {
        collect_parameters(&self.model.layers, NameStyle::Plain)
    }

    /// Replaces the adapters' matrices that the map names.
    pub fn set_lora_parameters(&mut self, params: &NameMap<Array>)
        ensures
            final(self).model.layers@ == assigned(
                NameStyle::Plain,
                old(self).model.layers@,
                params@,
            ),
            old(self).only_layers_changed(*final(self)),
    {
        assign_parameters(&mut self.model.layers, params, NameStyle::Plain);
    }

    /// The matrices of the adapters, layer by layer.
    pub fn parameters<'a>(&'a self) -> (r: Vec<LayerParamRef<'a>>)
        ensures
            lists_stack(r@, self.model.layers@),
    {
        parameter_refs(&self.model.layers)
    }

    /// The matrices of the adapters: all of them are trainable.
    pub fn trainable_parameters<'a>(&'a self) -> (r: Vec<LayerParamRef<'a>>)
        ensures
            lists_stack(r@, self.model.layers@),
    {
        parameter_refs(&self.model.layers)
    }

    /// The matrices of the adapters, layer by layer, open to replacement.
    pub fn parameters_mut<'a>(&'a mut self) -> (r: Vec<LayerParamMut<'a>>)
        ensures
            r@.len() == adapted_before(old(self).model.layers@, old(self).model.layers@.len()),
            forall|i: int|
                0 <= i < old(self).model.layers@.len() && (#[trigger] old(
                    self,
                ).model.layers@[i]).matrices().len() > 0 ==> {
                    let g = r@[adapted_before(old(self).model.layers@, i as nat) as int];
                    &&& g.layer == i
                    &&& g.entries@.len() == old(self).model.layers@[i].matrices().len()
                    &&& forall|j: int|
                        0 <= j < g.entries@.len() ==> {
                            &&& (#[trigger] g.entries@[j]).place == old(
                                self,
                            ).model.layers@[i].places()[j / 2]
                            &&& g.entries@[j].half == half_of(j)
                            &&& *g.entries@[j].value == old(self).model.layers@[i].matrices()[j]
                        }
                },
            final(self).model.layers@.len() == old(self).model.layers@.len(),
            forall|i: int|
                #![trigger final(self).model.layers@[i]]
                0 <= i < old(self).model.layers@.len() ==> {
                    let was = old(self).model.layers@[i];
                    let k = adapted_before(old(self).model.layers@, i as nat) as int;
                    &&& was.matrices().len() == 0 ==> final(self).model.layers@[i] == was
                    &&& was.matrices().len() > 0 ==> final(self).model.layers@[i]
                        == was.with_matrices(
                        Seq::new(r@[k].entries@.len(), |j: int| *final(r@[k].entries@[j].value)),
                    )
                },
            old(self).only_layers_changed(*final(self)),
    {
        stack_refs_mut(&mut self.model.layers)
    }

    /// Adapters cannot be frozen.
    pub fn freeze_parameters(&mut self, _recursive: bool)
        ensures
            *final(self) == *old(self),
    {
    }

    /// Adapters are never frozen.
    pub fn unfreeze_parameters(&mut self, _recursive: bool)
        ensures
            *final(self) == *old(self),
    {
    }

    pub fn all_frozen(&self) -> (r: Option<bool>)
        ensures
            r == Some(false),
    {
        Some(false)
    }

    pub fn any_frozen(&self) -> (r: Option<bool>)
        ensures
            r == Some(false),
    {
        Some(false)
    }

    /// The arrays to evaluate before the first use of the model, in order.
    pub fn eval_all(&self) -> (r: Vec<Array>)
        ensures
            r@ == model_evaluated(
                self.model.embed_tokens,
                self.model.layers@,
                self.model.norm,
                self.lm_head,
            ),
    {
        list_evaluated(
            &self.model.embed_tokens,
            &self.model.layers,
            &self.model.norm,
            &self.lm_head,
        )
    }

    /// Every weight that is held under the name of a part stands in that part; all else is as it
    /// was.
    pub open spec fn loads_to(
        self,
        after: Qwen3LoraForCausalLM,
        weights: Map<Seq<char>, Array>,
    ) -> bool {
        &&& after.model.layers@.len() == self.model.layers@.len()
        &&& forall|i: int|
            0 <= i < self.model.layers@.len() ==> #[trigger] after.model.layers@[i]
                == self.model.layers@[i].loaded(i as nat, weights)
        &&& after.model.embed_tokens == loaded_table(
            self.model.embed_tokens,
            weights,
            "model.embed_tokens.weight"@,
        )
        &&& after.model.norm == loaded_norm(
            self.model.norm,
            weights,
            "model.norm.weight"@,
        )
        &&& after.lm_head == loaded_head(self.lm_head, weights, "lm_head.weight"@)
        &&& after.model.config == self.model.config
        &&& after.model.lora_config == self.model.lora_config
        &&& after.checkpoint_config == self.checkpoint_config
    }

    /// Replaces the frozen weights that the map names. The adapters stay as they are.
    pub fn load_base_weights(&mut self, weights: &NameMap<Array>) -> (r: Result<(), LoraError>)
        ensures
            r is Ok,
            old(self).loads_to(*final(self), weights@),
            final(self).model.layers@.len() == old(self).model.layers@.len(),
            forall|i: int|
                0 <= i < old(self).model.layers@.len() ==> #[trigger] final(self).model.layers@[i]
                    == old(self).model.layers@[i].loaded(i as nat, weights@),
            final(self).model.embed_tokens == loaded_table(
                old(self).model.embed_tokens,
                weights@,
                "model.embed_tokens.weight"@,
            ),
            final(self).model.norm == loaded_norm(
                old(self).model.norm,
                weights@,
                "model.norm.weight"@,
            ),
            final(self).lm_head == loaded_head(old(self).lm_head, weights@, "lm_head.weight"@),
            final(self).model.config == old(self).model.config,
            final(self).model.lora_config == old(self).model.lora_config,
            final(self).checkpoint_config == old(self).checkpoint_config,
    {
        load_table(&mut self.model.embed_tokens, weights, "model.embed_tokens.weight");
        let ghost before = self.model.layers@;
        let mut i: usize = 0;
        while i < self.model.layers.len()
            invariant
                i <= self.model.layers@.len(),
                self.model.layers@.len() == before.len(),
                before == old(self).model.layers@,
                forall|j: int|
                    0 <= j < i ==> #[trigger] self.model.layers@[j] == before[j].loaded(
                        j as nat,
                        weights@,
                    ),
                forall|j: int|
                    i <= j < before.len() ==> #[trigger] self.model.layers@[j] == before[j],
                self.model.embed_tokens == loaded_table(
                    old(self).model.embed_tokens,
                    weights@,
                    "model.embed_tokens.weight"@,
                ),
                self.model.norm == old(self).model.norm,
                self.lm_head == old(self).lm_head,
                self.model.config == old(self).model.config,
                self.model.lora_config == old(self).model.lora_config,
                self.checkpoint_config == old(self).checkpoint_config,
            decreases self.model.layers.len() - i,
        {
            self.model.layers[i].load(i, weights);
            i = i + 1;
        }
        load_norm(&mut self.model.norm, weights, &String::from_str("model.norm.weight"));
        load_head(&mut self.lm_head, weights, "lm_head.weight");
        Ok(())
    }

    pub fn config(&self) -> (r: &Qwen3Config)
        ensures
            *r == self.model.config,
    {
        &self.model.config
    }

    pub fn lora_config(&self) -> (r: &LoraConfig)
        ensures
            *r == self.model.lora_config,
    {
        &self.model.lora_config
    }

    pub fn supports_kv_cache(&self) -> (r: bool)
        ensures
            r,
    {
        true
    }
}

} // verus!
