//! The text decoder of MLlama with adapters: some layers attend to vision features too.

use crate::array::{
    Array, AttentionMaskType, FusedAttentionConfig, RopeConfig, attend, lemma_combine_rank,
    lemma_embed_rank, lemma_rms_norm_shape, plus, rope, rope_at,
};
use crate::attention::{
    create_causal_mask, gated, given, make_gated, make_match_heads, make_merge_heads,
    make_plain_attention, make_split_heads, make_unfit, mask_or_causal, match_heads, merge_heads,
    plain_attention, split_heads, unfit,
};
use crate::config::{
    CheckpointConfig, LoraConfig, checkpointing, effective_rank, find_number, lists_number,
    make_checkpointing,
};
use crate::dora::{AdapterParamMut, LinearAdapter, adapter_tensors_mut, tensor_half};
use crate::error::{LoraError, checked, misfit, outcome};
use crate::evaluation::{EvalLayer, list_evaluated, model_evaluated};
use crate::kv_cache::{KVCache, KVCacheConfig, KVCacheState};
use crate::lora::{Adapter, LoraLinear};
use crate::merging::{
    MergeLayer, MergeSteps, merge_layers, stack_merge_stopped, stack_merged, stops_at,
};
use crate::name_map::NameMap;
use crate::names::{Half, NameStyle, Proj, Section, lemma_lora_name_injective, lora_name};
use crate::nn::{
    Embedding, Linear, RmsNorm, fresh_head, get_logits_weight, logits, logits_weight, make_head,
    run_logits,
};
use crate::params::{
    LayerParamRef, LoraLayer, ParamMut, ParamRef, Place, adapter_refs_mut, assign_adapter,
    assign_parameters, assigned, at, collect_adapter, collect_parameters, count_trainable,
    distinct_places, half_of, lists_stack, name_at, parameter_map, parameter_refs, push_refs,
    stack_countable, trainable_total, with_named,
};
use crate::params_laws::{law_parameter_lookup, law_parameter_names, names_matrix};
use crate::scalar::{F32, ONE_BITS, Scale};
use crate::weights::{
    base_name, load_adapter, load_head, load_lora, load_norm, load_table, loaded, loaded_adapter,
    loaded_head, loaded_norm, loaded_table, make_base_name, make_part_name, part_name,
};
use vstd::prelude::*;
use vstd::string::*;

verus! {

/// The extents and settings of a Llama text decoder.
#[derive(Clone, Copy, PartialEq, Eq, Structural, Debug)]
pub struct LlamaConfig {
    pub vocab_size: i32,
    pub hidden_size: i32,
    pub intermediate_size: i32,
    pub num_hidden_layers: i32,
    pub num_attention_heads: i32,
    /// As many as query heads where not given.
    pub num_key_value_heads: Option<i32>,
    /// The hidden size over the number of query heads where not given.
    pub head_dim: Option<i32>,
    pub rms_norm_eps: F32,
    pub rope_theta: F32,
    pub tie_word_embeddings: bool,
}

impl LlamaConfig {
    pub open spec fn kv_heads(self) -> i32 {
        match self.num_key_value_heads {
            Some(n) => n,
            None => self.num_attention_heads,
        }
    }

    pub open spec fn head_size(self) -> i32 {
        match self.head_dim {
            Some(d) => d,
            None => (self.hidden_size / self.num_attention_heads) as i32,
        }
    }

    /// The extents of a head follow, and those of all heads fit a machine word.
    pub open spec fn valid(self) -> bool {
        &&& self.head_dim is None ==> self.num_attention_heads > 0 && self.hidden_size >= 0
        &&& i32::MIN <= self.num_attention_heads * self.head_size() <= i32::MAX
        &&& i32::MIN <= self.kv_heads() * self.head_size() <= i32::MAX
    }

    /// No extent is negative.
    pub open spec fn buildable(self) -> bool {
        &&& self.hidden_size >= 0 && self.intermediate_size >= 0
        &&& self.num_attention_heads * self.head_size() >= 0
        &&& self.kv_heads() * self.head_size() >= 0
    }

    pub fn num_kv_heads(&self) -> (r: i32)
        ensures
            r == self.kv_heads(),
    {
        match self.num_key_value_heads {
            Some(n) => n,
            None => self.num_attention_heads,
        }
    }

    pub fn get_head_dim(&self) -> (r: i32)
        requires
            self.valid(),
        ensures
            r == self.head_size(),
    {
        match self.head_dim {
            Some(d) => d,
            None => self.hidden_size / self.num_attention_heads,
        }
    }
}

/// A text decoder, and the layers that attend to vision features.
#[derive(Debug)]
pub struct MllamaConfig {
    pub text_config: LlamaConfig,
    pub cross_attention_layers: Vec<i32>,
}

/// Attention with adapters on its four projections.
#[derive(Debug)]
pub struct MllamaLoraSelfAttention {
    pub n_heads: i32,
    pub n_kv_heads: i32,
    pub head_dim: i32,
    pub scale: Scale,
    pub q_proj: LinearAdapter,
    pub k_proj: LinearAdapter,
    pub v_proj: LinearAdapter,
    pub o_proj: LinearAdapter,
    pub rope: RopeConfig,
}

impl MllamaLoraSelfAttention {
    /// The layer of a fresh model.
    pub open spec fn fresh(config: LlamaConfig, lora: LoraConfig) -> MllamaLoraSelfAttention {
        let d = config.head_size();
        let h = config.hidden_size;
        let q = (config.num_attention_heads * d) as i32;
        let kv = (config.kv_heads() * d) as i32;
        let rs = lora.use_rslora;
        MllamaLoraSelfAttention {
            n_heads: config.num_attention_heads,
            n_kv_heads: config.kv_heads(),
            head_dim: d,
            scale: Scale::InverseSqrt { n: d },
            q_proj: LinearAdapter::fresh(
                h,
                q,
                lora.rank_of(Proj::Q),
                lora.alpha,
                rs,
                false,
                lora.use_dora,
            ),
            k_proj: LinearAdapter::fresh(
                h,
                kv,
                lora.rank_of(Proj::K),
                lora.alpha,
                rs,
                false,
                lora.use_dora,
            ),
            v_proj: LinearAdapter::fresh(
                h,
                kv,
                lora.rank_of(Proj::V),
                lora.alpha,
                rs,
                false,
                lora.use_dora,
            ),
            o_proj: LinearAdapter::fresh(
                q,
                h,
                lora.rank_of(Proj::O),
                lora.alpha,
                rs,
                false,
                lora.use_dora,
            ),
            rope: RopeConfig { dims: d, base: config.rope_theta, scale: F32 { bits: ONE_BITS } },
        }
    }

    pub open spec fn queries(self, x: Array) -> Array {
        split_heads(
            self.q_proj.output(x),
            x.shape.outer(),
            x.shape.second(),
            self.n_heads,
            self.head_dim,
        )
    }

    pub open spec fn keys(self, x: Array) -> Array {
        split_heads(
            self.k_proj.output(x),
            x.shape.outer(),
            x.shape.second(),
            self.n_kv_heads,
            self.head_dim,
        )
    }

    pub open spec fn values(self, x: Array) -> Array {
        split_heads(
            self.v_proj.output(x),
            x.shape.outer(),
            x.shape.second(),
            self.n_kv_heads,
            self.head_dim,
        )
    }

    /// Attention of rotated queries and keys, with the heads written out, projected.
    pub open spec fn plain(
        self,
        x: Array,
        q: Array,
        k: Array,
        v: Array,
        mask: Option<Array>,
    ) -> Array {
        let mixed = plain_attention(
            q,
            match_heads(k, self.n_heads, self.n_kv_heads),
            match_heads(v, self.n_heads, self.n_kv_heads),
            self.scale,
            mask,
        );
        self.o_proj.output(merge_heads(mixed, x.shape.outer(), x.shape.second()))
    }

    /// Attention over the input alone.
    pub open spec fn output(self, x: Array, mask: Option<Array>) -> Array {
        self.plain(
            x,
            rope(self.queries(x), self.rope, 0),
            rope(self.keys(x), self.rope, 0),
            self.values(x),
            mask,
        )
    }

    /// Attention over the input alone, at the given positions.
    pub open spec fn positioned_output(
        self,
        x: Array,
        mask: Option<Array>,
        positions: Array,
    ) -> Array {
        self.plain(
            x,
            rope_at(self.queries(x), self.rope, positions),
            rope_at(self.keys(x), self.rope, positions),
            self.values(x),
            mask,
        )
    }

    /// Causal.
    pub open spec fn fused_config(self) -> FusedAttentionConfig {
        FusedAttentionConfig {
            num_heads: self.n_heads,
            num_kv_heads: self.n_kv_heads,
            head_dim: self.head_dim,
            scale: self.scale,
            mask_type: AttentionMaskType::Causal,
        }
    }

    /// Fused attention of rotated queries and keys, projected.
    pub open spec fn fused(
        self,
        x: Array,
        q: Array,
        k: Array,
        v: Array,
        mask: Option<Array>,
    ) -> Array {
        let mixed = attend(q, k, v, self.fused_config(), mask);
        self.o_proj.output(merge_heads(mixed, x.shape.outer(), x.shape.second()))
    }

    /// Fused attention over the input alone.
    pub open spec fn fused_output(self, x: Array, mask: Option<Array>) -> Array {
        self.fused(
            x,
            rope(self.queries(x), self.rope, 0),
            rope(self.keys(x), self.rope, 0),
            self.values(x),
            mask,
        )
    }

    /// Fused attention over what the cache holds and the input, and the cache behind it. An
    /// input that does not fit leaves the cache as it is.
    pub open spec fn cached_output(
        self,
        x: Array,
        mask: Option<Array>,
        cache: KVCacheState,
        layer: int,
    ) -> (Array, KVCacheState) {
        let q = rope(self.queries(x), self.rope, cache.offset);
        let k = rope(self.keys(x), self.rope, cache.offset);
        let v = self.values(x);
        if q.fits && k.fits && v.fits && cache.accepts(layer, k, v) {
            let both = cache.joined(layer, k, v);
            (self.fused(x, q, both.0, both.1, mask), cache.extended(layer, k, v))
        } else {
            (unfit(x), cache)
        }
    }

    pub open spec fn trainable(self) -> nat {
        self.q_proj.trainable() + self.k_proj.trainable() + self.v_proj.trainable()
            + self.o_proj.trainable()
    }

    pub open spec fn countable(self) -> bool {
        self.q_proj.countable() && self.k_proj.countable() && self.v_proj.countable()
            && self.o_proj.countable()
    }

    /// A fresh layer. Refused where an extent is negative.
    pub fn new(config: &LlamaConfig, lora_config: &LoraConfig) -> (r: Result<
        MllamaLoraSelfAttention,
        LoraError,
    >)
        requires
            config.valid(),
            lora_config.valid(),
        ensures
            match r {
                Ok(a) => a == MllamaLoraSelfAttention::fresh(*config, *lora_config)
                    && config.hidden_size >= 0 && config.num_attention_heads * config.head_size()
                    >= 0 && config.kv_heads() * config.head_size() >= 0,
                Err(e) => e is Mlx && !(config.hidden_size >= 0 && config.num_attention_heads
                    * config.head_size() >= 0 && config.kv_heads() * config.head_size() >= 0),
            },
    {
        let n_heads = config.num_attention_heads;
        let n_kv_heads = config.num_kv_heads();
        let head_dim = config.get_head_dim();
        let hidden = config.hidden_size;
        let dora = lora_config.use_dora;
        let alpha = lora_config.alpha;
        let rs = lora_config.use_rslora;
        let q: i32 = n_heads * head_dim;
        let kv: i32 = n_kv_heads * head_dim;
        match (
            LinearAdapter::new(
                hidden,
                q,
                effective_rank(lora_config, Proj::Q),
                alpha,
                rs,
                false,
                dora,
            ),
            LinearAdapter::new(
                hidden,
                kv,
                effective_rank(lora_config, Proj::K),
                alpha,
                rs,
                false,
                dora,
            ),
            LinearAdapter::new(
                hidden,
                kv,
                effective_rank(lora_config, Proj::V),
                alpha,
                rs,
                false,
                dora,
            ),
            LinearAdapter::new(
                q,
                hidden,
                effective_rank(lora_config, Proj::O),
                alpha,
                rs,
                false,
                dora,
            ),
        ) {
            (Ok(q_proj), Ok(k_proj), Ok(v_proj), Ok(o_proj)) => Ok(
                MllamaLoraSelfAttention {
                    n_heads,
                    n_kv_heads,
                    head_dim,
                    scale: Scale::InverseSqrt { n: head_dim },
                            q_proj,
                    k_proj,
                    v_proj,
                    o_proj,
                    rope: RopeConfig {
                        dims: head_dim,
                        base: config.rope_theta,
                        scale: F32 { bits: ONE_BITS },
                    },
                },
            ),
            _ => Err(misfit()),
        }
    }

    fn run_queries(&self, x: &Array) -> (r: Array)
        requires
            x.shape.rank() >= 2,
        ensures
            r == self.queries(*x),
    {
        let (batch, length) = x.shape.outer_two();
        make_split_heads(&self.q_proj.run(x), batch, length, self.n_heads, self.head_dim)
    }

    fn run_keys(&self, x: &Array) -> (r: Array)
        requires
            x.shape.rank() >= 2,
        ensures
            r == self.keys(*x),
    {
        let (batch, length) = x.shape.outer_two();
        make_split_heads(&self.k_proj.run(x), batch, length, self.n_kv_heads, self.head_dim)
    }

    fn run_values(&self, x: &Array) -> (r: Array)
        requires
            x.shape.rank() >= 2,
        ensures
            r == self.values(*x),
    {
        let (batch, length) = x.shape.outer_two();
        make_split_heads(&self.v_proj.run(x), batch, length, self.n_kv_heads, self.head_dim)
    }

    fn run_plain(&self, x: &Array, q: &Array, k: &Array, v: &Array, mask: Option<&Array>) -> (r:
        Array)
        requires
            x.shape.rank() >= 2,
            self.n_kv_heads > 0,
        ensures
            r == self.plain(*x, *q, *k, *v, given(mask)),
    {
        let (batch, length) = x.shape.outer_two();
        let mixed = make_plain_attention(
            q,
            &make_match_heads(k, self.n_heads, self.n_kv_heads),
            &make_match_heads(v, self.n_heads, self.n_kv_heads),
            self.scale,
            mask,
        );
        self.o_proj.run(&make_merge_heads(&mixed, batch, length))
    }

    pub(crate) fn run(&self, x: &Array, mask: Option<&Array>) -> (r: Array)
        requires
            x.shape.rank() >= 2,
            self.n_kv_heads > 0,
        ensures
            r == self.output(*x, given(mask)),
    {
        let q = self.run_queries(x).rope(self.rope, 0);
        let k = self.run_keys(x).rope(self.rope, 0);
        self.run_plain(x, &q, &k, &self.run_values(x), mask)
    }

    pub(crate) fn run_positioned(
        &self,
        x: &Array,
        mask: Option<&Array>,
        positions: &Array,
    ) -> (r: Array)
        requires
            x.shape.rank() >= 2,
            self.n_kv_heads > 0,
        ensures
            r == self.positioned_output(*x, given(mask), *positions),
    {
        let q = self.run_queries(x).rope_at(self.rope, positions);
        let k = self.run_keys(x).rope_at(self.rope, positions);
        self.run_plain(x, &q, &k, &self.run_values(x), mask)
    }

    fn run_fused(&self, x: &Array, q: &Array, k: &Array, v: &Array, mask: Option<&Array>) -> (r:
        Array)
        requires
            x.shape.rank() >= 2,
        ensures
            r == self.fused(*x, *q, *k, *v, given(mask)),
    {
        let (batch, length) = x.shape.outer_two();
        let config = FusedAttentionConfig {
            num_heads: self.n_heads,
            num_kv_heads: self.n_kv_heads,
            head_dim: self.head_dim,
            scale: self.scale,
            mask_type: AttentionMaskType::Causal,
        };
        let mixed = q.attend(k, v, config, mask);
        self.o_proj.run(&make_merge_heads(&mixed, batch, length))
    }

    pub(crate) fn run_cached(
        &self,
        x: &Array,
        mask: Option<&Array>,
        cache: &mut KVCache,
        layer: usize,
    ) -> (r: Array)
        requires
            x.shape.rank() >= 2,
        ensures
            (r, final(cache)@) == self.cached_output(*x, given(mask), old(cache)@, layer as int),
    {
        let offset = cache.rope_offset();
        let q = self.run_queries(x).rope(self.rope, offset);
        let k = self.run_keys(x).rope(self.rope, offset);
        let v = self.run_values(x);
        if q.fits && k.fits && v.fits {
            match cache.update_and_fetch(layer, &k, &v) {
                Ok((keys, values)) => self.run_fused(x, &q, &keys, &values, mask),
                Err(_) => make_unfit(x),
            }
        } else {
            make_unfit(x)
        }
    }

    /// Attention over the input alone.
    pub fn forward(&self, x: &Array, mask: Option<&Array>) -> (r: Result<Array, LoraError>)
        requires
            x.shape.rank() >= 2,
            self.n_kv_heads > 0,
        ensures
            outcome(r, self.output(*x, given(mask))),
    {
        checked(self.run(x, mask))
    }

    /// Attention over the input alone, at the given positions.
    pub fn forward_with_positions(
        &self,
        x: &Array,
        mask: Option<&Array>,
        position_ids: &Array,
    ) -> (r: Result<Array, LoraError>)
        requires
            x.shape.rank() >= 2,
            self.n_kv_heads > 0,
        ensures
            outcome(r, self.positioned_output(*x, given(mask), *position_ids)),
    {
        checked(self.run_positioned(x, mask, position_ids))
    }

    pub(crate) fn run_fused_alone(&self, x: &Array, mask: Option<&Array>) -> (r: Array)
        requires
            x.shape.rank() >= 2,
        ensures
            r == self.fused_output(*x, given(mask)),
    {
        let q = self.run_queries(x).rope(self.rope, 0);
        let k = self.run_keys(x).rope(self.rope, 0);
        let v = self.run_values(x);
        self.run_fused(x, &q, &k, &v, mask)
    }

    /// Fused attention over what the cache holds for the layer and the input.
    pub fn forward_with_cache(
        &self,
        x: &Array,
        mask: Option<&Array>,
        cache: Option<(&mut KVCache, usize)>,
    ) -> (r: Result<Array, LoraError>)
        requires
            x.shape.rank() >= 2,
        ensures
            match cache {
                Some(c) => {
                    let end = self.cached_output(*x, given(mask), c.0@, c.1 as int);
                    outcome(r, end.0) && final(c.0)@ == end.1
                },
                None => outcome(r, self.fused_output(*x, given(mask))),
            },
    {
        match cache {
            Some((c, layer)) => checked(self.run_cached(x, mask, c, layer)),
            None => checked(self.run_fused_alone(x, mask)),
        }
    }

    /// The number of trainable elements.
    pub fn num_trainable_params(&self) -> (r: usize)
        requires
            self.countable(),
            self.trainable() <= usize::MAX,
        ensures
            r == self.trainable(),
    {
        self.q_proj.num_trainable_params() + self.k_proj.num_trainable_params()
            + self.v_proj.num_trainable_params() + self.o_proj.num_trainable_params()
    }
}

/// Attention from the text to vision features, with adapters on its four projections.
#[derive(Debug)]
pub struct MllamaLoraCrossAttention {
    pub n_heads: i32,
    pub n_kv_heads: i32,
    pub head_dim: i32,
    pub scale: Scale,
    pub q_proj: LinearAdapter,
    pub k_proj: LinearAdapter,
    pub v_proj: LinearAdapter,
    pub o_proj: LinearAdapter,
}

impl MllamaLoraCrossAttention {
    /// The layer of a fresh model: its extents are those of attention within the text.
    pub open spec fn fresh(config: LlamaConfig, lora: LoraConfig) -> MllamaLoraCrossAttention {
        let s = MllamaLoraSelfAttention::fresh(config, lora);
        MllamaLoraCrossAttention {
            n_heads: s.n_heads,
            n_kv_heads: s.n_kv_heads,
            head_dim: s.head_dim,
            scale: s.scale,
            q_proj: s.q_proj,
            k_proj: s.k_proj,
            v_proj: s.v_proj,
            o_proj: s.o_proj,
        }
    }

    /// Queries from the text, keys and values from the features, no mask.
    pub open spec fn output(self, x: Array, features: Array) -> Array {
        let b = x.shape.outer();
        let l = x.shape.second();
        let n = features.shape.second();
        let q = split_heads(self.q_proj.output(x), b, l, self.n_heads, self.head_dim);
        let k = split_heads(self.k_proj.output(features), b, n, self.n_kv_heads, self.head_dim);
        let v = split_heads(self.v_proj.output(features), b, n, self.n_kv_heads, self.head_dim);
        let mixed = plain_attention(
            q,
            match_heads(k, self.n_heads, self.n_kv_heads),
            match_heads(v, self.n_heads, self.n_kv_heads),
            self.scale,
            None,
        );
        self.o_proj.output(merge_heads(mixed, b, l))
    }

    pub open spec fn trainable(self) -> nat {
        self.q_proj.trainable() + self.k_proj.trainable() + self.v_proj.trainable()
            + self.o_proj.trainable()
    }

    pub open spec fn countable(self) -> bool {
        self.q_proj.countable() && self.k_proj.countable() && self.v_proj.countable()
            && self.o_proj.countable()
    }

    /// A fresh layer. Refused where an extent is negative.
    pub fn new(config: &LlamaConfig, lora_config: &LoraConfig) -> (r: Result<
        MllamaLoraCrossAttention,
        LoraError,
    >)
        requires
            config.valid(),
            lora_config.valid(),
        ensures
            match r {
                Ok(a) => a == MllamaLoraCrossAttention::fresh(*config, *lora_config)
                    && config.hidden_size >= 0 && config.num_attention_heads * config.head_size()
                    >= 0 && config.kv_heads() * config.head_size() >= 0,
                Err(e) => e is Mlx && !(config.hidden_size >= 0 && config.num_attention_heads
                    * config.head_size() >= 0 && config.kv_heads() * config.head_size() >= 0),
            },
    {
        match MllamaLoraSelfAttention::new(config, lora_config) {
            Ok(s) => Ok(
                MllamaLoraCrossAttention {
                    n_heads: s.n_heads,
                    n_kv_heads: s.n_kv_heads,
                    head_dim: s.head_dim,
                    scale: s.scale,
                    q_proj: s.q_proj,
                    k_proj: s.k_proj,
                    v_proj: s.v_proj,
                    o_proj: s.o_proj,
                },
            ),
            Err(e) => Err(e),
        }
    }

    pub(crate) fn run(&self, x: &Array, features: &Array) -> (r: Array)
        requires
            x.shape.rank() >= 2,
            features.shape.rank() >= 2,
            self.n_kv_heads > 0,
        ensures
            r == self.output(*x, *features),
    {
        let (batch, length) = x.shape.outer_two();
        let (_, n) = features.shape.outer_two();
        let q = make_split_heads(&self.q_proj.run(x), batch, length, self.n_heads, self.head_dim);
        let k = make_split_heads(
            &self.k_proj.run(features),
            batch,
            n,
            self.n_kv_heads,
            self.head_dim,
        );
        let v = make_split_heads(
            &self.v_proj.run(features),
            batch,
            n,
            self.n_kv_heads,
            self.head_dim,
        );
        let mixed = make_plain_attention(
            &q,
            &make_match_heads(&k, self.n_heads, self.n_kv_heads),
            &make_match_heads(&v, self.n_heads, self.n_kv_heads),
            self.scale,
            None,
        );
        self.o_proj.run(&make_merge_heads(&mixed, batch, length))
    }

    /// Attention from the text to the features.
    pub fn forward(&self, x: &Array, cross_states: &Array) -> (r: Result<Array, LoraError>)
        requires
            x.shape.rank() >= 2,
            cross_states.shape.rank() >= 2,
            self.n_kv_heads > 0,
        ensures
            outcome(r, self.output(*x, *cross_states)),
    {
        checked(self.run(x, cross_states))
    }

    /// The number of trainable elements.
    pub fn num_trainable_params(&self) -> (r: usize)
        requires
            self.countable(),
            self.trainable() <= usize::MAX,
        ensures
            r == self.trainable(),
    {
        self.q_proj.num_trainable_params() + self.k_proj.num_trainable_params()
            + self.v_proj.num_trainable_params() + self.o_proj.num_trainable_params()
    }
}

/// SwiGLU MLP with adapters on its three projections.
#[derive(Debug)]
pub struct MllamaLoraMLP {
    pub gate_proj: LoraLinear,
    pub up_proj: LoraLinear,
    pub down_proj: LoraLinear,
}

impl MllamaLoraMLP {
    /// The layer of a fresh model.
    pub open spec fn fresh(config: LlamaConfig, lora: LoraConfig) -> MllamaLoraMLP {
        let h = config.hidden_size;
        let n = config.intermediate_size;
        let rs = lora.use_rslora;
        MllamaLoraMLP {
            gate_proj: LoraLinear::fresh(h, n, lora.rank_of(Proj::Gate), lora.alpha, rs, false),
            up_proj: LoraLinear::fresh(h, n, lora.rank_of(Proj::Up), lora.alpha, rs, false),
            down_proj: LoraLinear::fresh(n, h, lora.rank_of(Proj::Down), lora.alpha, rs, false),
        }
    }

    /// `down(silu(gate(x)) * up(x))`.
    pub open spec fn output(self, x: Array) -> Array {
        self.down_proj.output(gated(self.gate_proj.output(x), self.up_proj.output(x)))
    }

    pub open spec fn trainable(self) -> nat {
        self.gate_proj.trainable() + self.up_proj.trainable() + self.down_proj.trainable()
    }

    pub open spec fn countable(self) -> bool {
        self.gate_proj.countable() && self.up_proj.countable() && self.down_proj.countable()
    }

    /// A fresh layer. Refused where an extent is negative.
    pub fn new(config: &LlamaConfig, lora_config: &LoraConfig) -> (r: Result<
        MllamaLoraMLP,
        LoraError,
    >)
        requires
            lora_config.valid(),
        ensures
            match r {
                Ok(m) => m == MllamaLoraMLP::fresh(*config, *lora_config) && config.hidden_size
                    >= 0 && config.intermediate_size >= 0,
                Err(e) => e is Mlx && !(config.hidden_size >= 0 && config.intermediate_size >= 0),
            },
    {
        let hidden = config.hidden_size;
        let inner = config.intermediate_size;
        let alpha = lora_config.alpha;
        let rs = lora_config.use_rslora;
        match (
            LoraLinear::new(
                hidden,
                inner,
                effective_rank(lora_config, Proj::Gate),
                alpha,
                rs,
                false,
            ),
            LoraLinear::new(
                hidden,
                inner,
                effective_rank(lora_config, Proj::Up),
                alpha,
                rs,
                false,
            ),
            LoraLinear::new(
                inner,
                hidden,
                effective_rank(lora_config, Proj::Down),
                alpha,
                rs,
                false,
            ),
        ) {
            (Ok(gate_proj), Ok(up_proj), Ok(down_proj)) => Ok(
                MllamaLoraMLP { gate_proj, up_proj, down_proj },
            ),
            _ => Err(misfit()),
        }
    }

    pub(crate) fn run(&self, x: &Array) -> (r: Array)
        ensures
            r == self.output(*x),
    {
        let gate = self.gate_proj.run(x);
        let up = self.up_proj.run(x);
        self.down_proj.run(&make_gated(&gate, &up))
    }

    /// `down(silu(gate(x)) * up(x))`.
    pub fn forward(&self, x: &Array) -> (r: Result<Array, LoraError>)
        ensures
            outcome(r, self.output(*x)),
    {
        checked(self.run(x))
    }

    /// The number of trainable elements.
    pub fn num_trainable_params(&self) -> (r: usize)
        requires
            self.countable(),
            self.trainable() <= usize::MAX,
        ensures
            r == self.trainable(),
    {
        self.gate_proj.num_trainable_params() + self.up_proj.num_trainable_params()
            + self.down_proj.num_trainable_params()
    }
}

/// Attention, attention to vision features where the layer has any, and MLP, each behind a
/// normalization and beside a residual connection.
#[derive(Debug)]
pub struct MllamaLoraDecoderLayer {
    pub self_attn: MllamaLoraSelfAttention,
    pub cross_attn: Option<MllamaLoraCrossAttention>,
    pub mlp: MllamaLoraMLP,
    pub input_layernorm: RmsNorm,
    pub post_attention_layernorm: RmsNorm,
    /// There where the layer attends to vision features.
    pub cross_attention_layernorm: Option<RmsNorm>,
}

impl MllamaLoraDecoderLayer {
    /// The layer of a fresh model.
    pub open spec fn fresh(
        config: LlamaConfig,
        lora: LoraConfig,
        cross: bool,
    ) -> MllamaLoraDecoderLayer {
        let norm = RmsNorm::fresh(config.hidden_size, config.rms_norm_eps);
        MllamaLoraDecoderLayer {
            self_attn: MllamaLoraSelfAttention::fresh(config, lora),
            cross_attn: if cross {
                Some(MllamaLoraCrossAttention::fresh(config, lora))
            } else {
                None
            },
            mlp: MllamaLoraMLP::fresh(config, lora),
            input_layernorm: norm,
            post_attention_layernorm: norm,
            cross_attention_layernorm: if cross {
                Some(norm)
            } else {
                None
            },
        }
    }

    /// Attention to the features on top, where the layer attends to any and there are any.
    pub open spec fn crossed(self, h: Array, features: Option<Array>) -> Array {
        match (self.cross_attn, features, self.cross_attention_layernorm) {
            (Some(ca), Some(f), Some(cn)) => plus(h, ca.output(cn.output(h), f)),
            _ => h,
        }
    }

    /// The rest of the layer, on top of an input to which attention was added.
    pub open spec fn finish(self, h: Array, features: Option<Array>) -> Array {
        let c = self.crossed(h, features);
        plus(c, self.mlp.output(self.post_attention_layernorm.output(c)))
    }

    pub open spec fn output(self, x: Array, mask: Option<Array>, features: Option<Array>) -> Array {
        self.finish(
            plus(x, self.self_attn.output(self.input_layernorm.output(x), mask)),
            features,
        )
    }

    pub open spec fn positioned_output(
        self,
        x: Array,
        mask: Option<Array>,
        features: Option<Array>,
        positions: Array,
    ) -> Array {
        self.finish(
            plus(
                x,
                self.self_attn.positioned_output(self.input_layernorm.output(x), mask, positions),
            ),
            features,
        )
    }

    pub open spec fn fused_output(
        self,
        x: Array,
        mask: Option<Array>,
        features: Option<Array>,
    ) -> Array {
        self.finish(
            plus(x, self.self_attn.fused_output(self.input_layernorm.output(x), mask)),
            features,
        )
    }

    pub open spec fn cached_output(
        self,
        x: Array,
        mask: Option<Array>,
        features: Option<Array>,
        cache: KVCacheState,
        layer: int,
    ) -> (Array, KVCacheState) {
        let end = self.self_attn.cached_output(self.input_layernorm.output(x), mask, cache, layer);
        (self.finish(plus(x, end.0), features), end.1)
    }

    /// There are key heads.
    pub open spec fn ready(self) -> bool {
        &&& self.self_attn.n_kv_heads > 0
        &&& self.cross_attn matches Some(ca) ==> ca.n_kv_heads > 0
    }

    /// A fresh layer, with attention to vision features where its number is listed. Refused where
    /// an extent is negative.
    pub fn new(config: &MllamaConfig, lora_config: &LoraConfig, layer_id: usize) -> (r: Result<
        MllamaLoraDecoderLayer,
        LoraError,
    >)
        requires
            config.text_config.valid(),
            lora_config.valid(),
            layer_id <= i32::MAX,
        ensures
            match r {
                Ok(l) => config.text_config.buildable() && l == MllamaLoraDecoderLayer::fresh(
                    config.text_config,
                    *lora_config,
                    lists_number(config.cross_attention_layers@, layer_id as int),
                ),
                Err(e) => e is Mlx && !config.text_config.buildable(),
            },
    {
        let tc = config.text_config;
        let (self_attn, mlp) = match (
            MllamaLoraSelfAttention::new(&tc, lora_config),
            MllamaLoraMLP::new(&tc, lora_config),
        ) {
            (Ok(s), Ok(m)) => (s, m),
            _ => {
                return Err(misfit());
            },
        };
        let (cross_attn, cross_attention_layernorm) = if find_number(
            &config.cross_attention_layers,
            layer_id as i32,
        ) {
            match MllamaLoraCrossAttention::new(&tc, lora_config) {
                Ok(ca) => (Some(ca), Some(RmsNorm::new(tc.hidden_size, tc.rms_norm_eps))),
                Err(_) => {
                    return Err(misfit());
                },
            }
        } else {
            (None, None)
        };
        Ok(
            MllamaLoraDecoderLayer {
                self_attn,
                cross_attn,
                mlp,
                input_layernorm: RmsNorm::new(tc.hidden_size, tc.rms_norm_eps),
                post_attention_layernorm: RmsNorm::new(tc.hidden_size, tc.rms_norm_eps),
                cross_attention_layernorm,
            },
        )
    }

    fn run_finish(&self, h: &Array, features: Option<&Array>) -> (r: Array)
        requires
            h.shape.rank() >= 2,
            self.ready(),
            features matches Some(f) ==> f.shape.rank() >= 2,
        ensures
            r == self.finish(*h, given(features)),
            r.shape.rank() >= h.shape.rank(),
    {
        broadcast use {lemma_rms_norm_shape, lemma_combine_rank};

        let c = match (&self.cross_attn, features, &self.cross_attention_layernorm) {
            (Some(ca), Some(f), Some(cn)) => h.add(&ca.run(&cn.run(h), f)),
            _ => h.clone(),
        };
        c.add(&self.mlp.run(&self.post_attention_layernorm.run(&c)))
    }

    pub(crate) fn run(
        &self,
        x: &Array,
        mask: Option<&Array>,
        features: Option<&Array>,
    ) -> (r: Array)
        requires
            x.shape.rank() >= 2,
            self.ready(),
            features matches Some(f) ==> f.shape.rank() >= 2,
        ensures
            r == self.output(*x, given(mask), given(features)),
            r.shape.rank() >= x.shape.rank(),
    {
        broadcast use {lemma_rms_norm_shape, lemma_combine_rank};

        let normed = self.input_layernorm.run(x);
        self.run_finish(&x.add(&self.self_attn.run(&normed, mask)), features)
    }

    pub(crate) fn run_positioned(
        &self,
        x: &Array,
        mask: Option<&Array>,
        features: Option<&Array>,
        positions: &Array,
    ) -> (r: Array)
        requires
            x.shape.rank() >= 2,
            self.ready(),
            features matches Some(f) ==> f.shape.rank() >= 2,
        ensures
            r == self.positioned_output(*x, given(mask), given(features), *positions),
            r.shape.rank() >= x.shape.rank(),
    {
        broadcast use {lemma_rms_norm_shape, lemma_combine_rank};

        let normed = self.input_layernorm.run(x);
        let mixed = self.self_attn.run_positioned(&normed, mask, positions);
        self.run_finish(&x.add(&mixed), features)
    }

    pub(crate) fn run_cached(
        &self,
        x: &Array,
        mask: Option<&Array>,
        features: Option<&Array>,
        cache: &mut KVCache,
        layer: usize,
    ) -> (r: Array)
        requires
            x.shape.rank() >= 2,
            self.ready(),
            features matches Some(f) ==> f.shape.rank() >= 2,
        ensures
            (r, final(cache)@) == self.cached_output(
                *x,
                given(mask),
                given(features),
                old(cache)@,
                layer as int,
            ),
            r.shape.rank() >= x.shape.rank(),
    {
        broadcast use {lemma_rms_norm_shape, lemma_combine_rank};

        let normed = self.input_layernorm.run(x);
        let mixed = self.self_attn.run_cached(&normed, mask, cache, layer);
        self.run_finish(&x.add(&mixed), features)
    }

    /// The layer's output.
    pub fn forward(&self, x: &Array, mask: Option<&Array>, cross_states: Option<&Array>) -> (r:
        Result<Array, LoraError>)
        requires
            x.shape.rank() >= 2,
            self.ready(),
            cross_states matches Some(f) ==> f.shape.rank() >= 2,
        ensures
            outcome(r, self.output(*x, given(mask), given(cross_states))),
    {
        checked(self.run(x, mask, cross_states))
    }

    /// The layer's output at the given positions.
    pub fn forward_with_positions(
        &self,
        x: &Array,
        mask: Option<&Array>,
        cross_states: Option<&Array>,
        position_ids: &Array,
    ) -> (r: Result<Array, LoraError>)
        requires
            x.shape.rank() >= 2,
            self.ready(),
            cross_states matches Some(f) ==> f.shape.rank() >= 2,
        ensures
            outcome(
                r,
                self.positioned_output(*x, given(mask), given(cross_states), *position_ids),
            ),
    {
        checked(self.run_positioned(x, mask, cross_states, position_ids))
    }

    /// The layer's output, by fused attention over what the cache holds and the input.
    pub fn forward_with_cache(
        &self,
        x: &Array,
        mask: Option<&Array>,
        cross_states: Option<&Array>,
        cache: Option<(&mut KVCache, usize)>,
    ) -> (r: Result<Array, LoraError>)
        requires
            x.shape.rank() >= 2,
            self.ready(),
            cross_states matches Some(f) ==> f.shape.rank() >= 2,
        ensures
            match cache {
                Some(c) => {
                    let end = self.cached_output(
                        *x,
                        given(mask),
                        given(cross_states),
                        c.0@,
                        c.1 as int,
                    );
                    outcome(r, end.0) && final(c.0)@ == end.1
                },
                None => outcome(r, self.fused_output(*x, given(mask), given(cross_states))),
            },
    {
        broadcast use {lemma_rms_norm_shape, lemma_combine_rank};

        match cache {
            Some((c, layer)) => checked(self.run_cached(x, mask, cross_states, c, layer)),
            None => {
                let normed = self.input_layernorm.run(x);
                let mixed = self.self_attn.run_fused_alone(&normed, mask);
                checked(self.run_finish(&x.add(&mixed), cross_states))
            },
        }
    }

    /// The number of trainable elements.
    pub fn num_trainable_params(&self) -> (r: usize)
        requires
            self.countable(),
            LoraLayer::trainable(*self) <= usize::MAX,
        ensures
            r == LoraLayer::trainable(*self),
    {
        let ca: usize = match &self.cross_attn {
            Some(c) => c.num_trainable_params(),
            None => 0,
        };
        self.self_attn.num_trainable_params() + ca + self.mlp.num_trainable_params()
    }

    /// The layer with the frozen weights that have its names.
    pub open spec fn loaded(
        self,
        i: nat,
        weights: Map<Seq<char>, Array>,
    ) -> MllamaLoraDecoderLayer {
        let m = "language_model.model"@;
        MllamaLoraDecoderLayer {
            self_attn: MllamaLoraSelfAttention {
                q_proj: loaded_adapter(
                    self.self_attn.q_proj,
                    weights,
                    base_name(m, i, Section::SelfAttn, Proj::Q),
                ),
                k_proj: loaded_adapter(
                    self.self_attn.k_proj,
                    weights,
                    base_name(m, i, Section::SelfAttn, Proj::K),
                ),
                v_proj: loaded_adapter(
                    self.self_attn.v_proj,
                    weights,
                    base_name(m, i, Section::SelfAttn, Proj::V),
                ),
                o_proj: loaded_adapter(
                    self.self_attn.o_proj,
                    weights,
                    base_name(m, i, Section::SelfAttn, Proj::O),
                ),
                ..self.self_attn
            },
            mlp: MllamaLoraMLP {
                gate_proj: loaded(
                    self.mlp.gate_proj,
                    weights,
                    base_name(m, i, Section::Mlp, Proj::Gate),
                ),
                up_proj: loaded(
                    self.mlp.up_proj,
                    weights,
                    base_name(m, i, Section::Mlp, Proj::Up),
                ),
                down_proj: loaded(
                    self.mlp.down_proj,
                    weights,
                    base_name(m, i, Section::Mlp, Proj::Down),
                ),
            },
            input_layernorm: loaded_norm(
                self.input_layernorm,
                weights,
                part_name(m, i, "input_layernorm.weight"@),
            ),
            post_attention_layernorm: loaded_norm(
                self.post_attention_layernorm,
                weights,
                part_name(m, i, "post_attention_layernorm.weight"@),
            ),
            cross_attn: match self.cross_attn {
                Some(ca) => Some(
                    MllamaLoraCrossAttention {
                        q_proj: loaded_adapter(
                            ca.q_proj,
                            weights,
                            base_name(m, i, Section::CrossAttn, Proj::Q),
                        ),
                        k_proj: loaded_adapter(
                            ca.k_proj,
                            weights,
                            base_name(m, i, Section::CrossAttn, Proj::K),
                        ),
                        v_proj: loaded_adapter(
                            ca.v_proj,
                            weights,
                            base_name(m, i, Section::CrossAttn, Proj::V),
                        ),
                        o_proj: loaded_adapter(
                            ca.o_proj,
                            weights,
                            base_name(m, i, Section::CrossAttn, Proj::O),
                        ),
                        ..ca
                    },
                ),
                None => None,
            },
            cross_attention_layernorm: match self.cross_attention_layernorm {
                Some(cn) => Some(
                    loaded_norm(cn, weights, part_name(m, i, "cross_attention_layernorm.weight"@)),
                ),
                None => None,
            },
        }
    }

    fn load(&mut self, i: usize, weights: &NameMap<Array>)
        ensures
            *final(self) == old(self).loaded(i as nat, weights@),
    {
        let m = "language_model.model";
        load_adapter(
            &mut self.self_attn.q_proj,
            weights,
            &make_base_name(m, i, Section::SelfAttn, Proj::Q),
        );
        load_adapter(
            &mut self.self_attn.k_proj,
            weights,
            &make_base_name(m, i, Section::SelfAttn, Proj::K),
        );
        load_adapter(
            &mut self.self_attn.v_proj,
            weights,
            &make_base_name(m, i, Section::SelfAttn, Proj::V),
        );
        load_adapter(
            &mut self.self_attn.o_proj,
            weights,
            &make_base_name(m, i, Section::SelfAttn, Proj::O),
        );
        load_lora(
            &mut self.mlp.gate_proj,
            weights,
            &make_base_name(m, i, Section::Mlp, Proj::Gate),
        );
        load_lora(
            &mut self.mlp.up_proj,
            weights,
            &make_base_name(m, i, Section::Mlp, Proj::Up),
        );
        load_lora(
            &mut self.mlp.down_proj,
            weights,
            &make_base_name(m, i, Section::Mlp, Proj::Down),
        );
        load_norm(
            &mut self.input_layernorm,
            weights,
            &make_part_name(m, i, "input_layernorm.weight"),
        );
        load_norm(
            &mut self.post_attention_layernorm,
            weights,
            &make_part_name(m, i, "post_attention_layernorm.weight"),
        );
        match &mut self.cross_attn {
            Some(ca) => {
                load_adapter(
                    &mut ca.q_proj,
                    weights,
                    &make_base_name(m, i, Section::CrossAttn, Proj::Q),
                );
                load_adapter(
                    &mut ca.k_proj,
                    weights,
                    &make_base_name(m, i, Section::CrossAttn, Proj::K),
                );
                load_adapter(
                    &mut ca.v_proj,
                    weights,
                    &make_base_name(m, i, Section::CrossAttn, Proj::V),
                );
                load_adapter(
                    &mut ca.o_proj,
                    weights,
                    &make_base_name(m, i, Section::CrossAttn, Proj::O),
                );
            },
            None => {},
        }
        match &mut self.cross_attention_layernorm {
            Some(cn) => {
                load_norm(
                    cn,
                    weights,
                    &make_part_name(m, i, "cross_attention_layernorm.weight"),
                );
            },
            None => {},
        }
    }
}

impl LoraLayer for MllamaLoraDecoderLayer {
    open spec fn places(self) -> Seq<Place> {
        match self.cross_attn {
            Some(_) => seq![
                at(Section::SelfAttn, Proj::Q), at(Section::SelfAttn, Proj::K),
                at(Section::SelfAttn, Proj::V), at(Section::SelfAttn, Proj::O),
                at(Section::Mlp, Proj::Gate), at(Section::Mlp, Proj::Up),
                at(Section::Mlp, Proj::Down), at(Section::CrossAttn, Proj::Q),
                at(Section::CrossAttn, Proj::K), at(Section::CrossAttn, Proj::V),
                at(Section::CrossAttn, Proj::O)
            ],
            None => seq![
                at(Section::SelfAttn, Proj::Q), at(Section::SelfAttn, Proj::K),
                at(Section::SelfAttn, Proj::V), at(Section::SelfAttn, Proj::O),
                at(Section::Mlp, Proj::Gate), at(Section::Mlp, Proj::Up),
                at(Section::Mlp, Proj::Down)
            ],
        }
    }

    open spec fn matrices(self) -> Seq<Array> {
        match self.cross_attn {
            Some(ca) => seq![
                self.self_attn.q_proj.a(), self.self_attn.q_proj.b(), self.self_attn.k_proj.a(),
                self.self_attn.k_proj.b(), self.self_attn.v_proj.a(), self.self_attn.v_proj.b(),
                self.self_attn.o_proj.a(), self.self_attn.o_proj.b(), self.mlp.gate_proj.a(),
                self.mlp.gate_proj.b(), self.mlp.up_proj.a(), self.mlp.up_proj.b(),
                self.mlp.down_proj.a(), self.mlp.down_proj.b(), ca.q_proj.a(), ca.q_proj.b(),
                ca.k_proj.a(), ca.k_proj.b(), ca.v_proj.a(), ca.v_proj.b(), ca.o_proj.a(),
                ca.o_proj.b()
            ],
            None => seq![
                self.self_attn.q_proj.a(), self.self_attn.q_proj.b(), self.self_attn.k_proj.a(),
                self.self_attn.k_proj.b(), self.self_attn.v_proj.a(), self.self_attn.v_proj.b(),
                self.self_attn.o_proj.a(), self.self_attn.o_proj.b(), self.mlp.gate_proj.a(),
                self.mlp.gate_proj.b(), self.mlp.up_proj.a(), self.mlp.up_proj.b(),
                self.mlp.down_proj.a(), self.mlp.down_proj.b()
            ],
        }
    }

    open spec fn with_matrices(self, m: Seq<Array>) -> MllamaLoraDecoderLayer {
        MllamaLoraDecoderLayer {
            self_attn: MllamaLoraSelfAttention {
                q_proj: self.self_attn.q_proj.with(m[0], m[1]),
                k_proj: self.self_attn.k_proj.with(m[2], m[3]),
                v_proj: self.self_attn.v_proj.with(m[4], m[5]),
                o_proj: self.self_attn.o_proj.with(m[6], m[7]),
                ..self.self_attn
            },
            mlp: MllamaLoraMLP {
                gate_proj: self.mlp.gate_proj.with(m[8], m[9]),
                up_proj: self.mlp.up_proj.with(m[10], m[11]),
                down_proj: self.mlp.down_proj.with(m[12], m[13]),
            },
            cross_attn: match self.cross_attn {
                Some(ca) => Some(
                    MllamaLoraCrossAttention {
                        q_proj: ca.q_proj.with(m[14], m[15]),
                        k_proj: ca.k_proj.with(m[16], m[17]),
                        v_proj: ca.v_proj.with(m[18], m[19]),
                        o_proj: ca.o_proj.with(m[20], m[21]),
                        ..ca
                    }
                ),
                None => None,
            },
            ..self
        }
    }

    open spec fn trainable(self) -> nat {
        self.self_attn.trainable() + self.mlp.trainable() + match self.cross_attn {
            Some(ca) => ca.trainable(),
            None => 0,
        }
    }

    open spec fn countable(self) -> bool {
        self.self_attn.countable() && self.mlp.countable() && (self.cross_attn matches Some(ca)
            ==> ca.countable())
    }

    proof fn lemma_layer(self, m: Seq<Array>) {
        lemma_cross_matrices(self, m);
        lemma_cross_places(self);
        lemma_cross_own(self);
        assert forall|n: Seq<Array>| #[trigger]
            self.with_matrices(m).with_matrices(n) == self.with_matrices(n) by {
            lemma_cross_again(self, m, n);
        }
    }

    #[verifier::rlimit(60)]
    fn collect(&self, params: &mut NameMap<Array>, style: NameStyle, layer: usize) {
        proof {
            reveal_with_fuel(with_named, 23);
        }
        collect_adapter(&self.self_attn.q_proj, params, style, layer, Section::SelfAttn, Proj::Q);
        collect_adapter(&self.self_attn.k_proj, params, style, layer, Section::SelfAttn, Proj::K);
        collect_adapter(&self.self_attn.v_proj, params, style, layer, Section::SelfAttn, Proj::V);
        collect_adapter(&self.self_attn.o_proj, params, style, layer, Section::SelfAttn, Proj::O);
        collect_adapter(&self.mlp.gate_proj, params, style, layer, Section::Mlp, Proj::Gate);
        collect_adapter(&self.mlp.up_proj, params, style, layer, Section::Mlp, Proj::Up);
        collect_adapter(&self.mlp.down_proj, params, style, layer, Section::Mlp, Proj::Down);
        match &self.cross_attn {
            Some(ca) => {
                collect_adapter(&ca.q_proj, params, style, layer, Section::CrossAttn, Proj::Q);
                collect_adapter(&ca.k_proj, params, style, layer, Section::CrossAttn, Proj::K);
                collect_adapter(&ca.v_proj, params, style, layer, Section::CrossAttn, Proj::V);
                collect_adapter(&ca.o_proj, params, style, layer, Section::CrossAttn, Proj::O);
            },
            None => {},
        }
    }

    fn assign(&mut self, params: &NameMap<Array>, style: NameStyle, layer: usize) {
        assign_adapter(
            &mut self.self_attn.q_proj,
            params,
            style,
            layer,
            Section::SelfAttn,
            Proj::Q,
        );
        assign_adapter(
            &mut self.self_attn.k_proj,
            params,
            style,
            layer,
            Section::SelfAttn,
            Proj::K,
        );
        assign_adapter(
            &mut self.self_attn.v_proj,
            params,
            style,
            layer,
            Section::SelfAttn,
            Proj::V,
        );
        assign_adapter(
            &mut self.self_attn.o_proj,
            params,
            style,
            layer,
            Section::SelfAttn,
            Proj::O,
        );
        assign_adapter(&mut self.mlp.gate_proj, params, style, layer, Section::Mlp, Proj::Gate);
        assign_adapter(&mut self.mlp.up_proj, params, style, layer, Section::Mlp, Proj::Up);
        assign_adapter(&mut self.mlp.down_proj, params, style, layer, Section::Mlp, Proj::Down);
        match &mut self.cross_attn {
            Some(ca) => {
                assign_adapter(&mut ca.q_proj, params, style, layer, Section::CrossAttn, Proj::Q);
                assign_adapter(&mut ca.k_proj, params, style, layer, Section::CrossAttn, Proj::K);
                assign_adapter(&mut ca.v_proj, params, style, layer, Section::CrossAttn, Proj::V);
                assign_adapter(&mut ca.o_proj, params, style, layer, Section::CrossAttn, Proj::O);
            },
            None => {},
        }
    }

    fn refs<'a>(&'a self) -> (r: Vec<ParamRef<'a>>) {
        let mut r: Vec<ParamRef<'a>> = Vec::new();
        push_refs(&self.self_attn.q_proj, Section::SelfAttn, Proj::Q, &mut r);
        push_refs(&self.self_attn.k_proj, Section::SelfAttn, Proj::K, &mut r);
        push_refs(&self.self_attn.v_proj, Section::SelfAttn, Proj::V, &mut r);
        push_refs(&self.self_attn.o_proj, Section::SelfAttn, Proj::O, &mut r);
        push_refs(&self.mlp.gate_proj, Section::Mlp, Proj::Gate, &mut r);
        push_refs(&self.mlp.up_proj, Section::Mlp, Proj::Up, &mut r);
        push_refs(&self.mlp.down_proj, Section::Mlp, Proj::Down, &mut r);
        match &self.cross_attn {
            Some(ca) => {
                push_refs(&ca.q_proj, Section::CrossAttn, Proj::Q, &mut r);
                push_refs(&ca.k_proj, Section::CrossAttn, Proj::K, &mut r);
                push_refs(&ca.v_proj, Section::CrossAttn, Proj::V, &mut r);
                push_refs(&ca.o_proj, Section::CrossAttn, Proj::O, &mut r);
            },
            None => {},
        }
        r
    }

    fn refs_mut<'a>(&'a mut self) -> (r: Vec<ParamMut<'a>>) {
        let mut r: Vec<ParamMut<'a>> = Vec::new();
        let (a, b) = adapter_refs_mut(&mut self.self_attn.q_proj, Section::SelfAttn, Proj::Q);
        r.push(a);
        r.push(b);
        let (a, b) = adapter_refs_mut(&mut self.self_attn.k_proj, Section::SelfAttn, Proj::K);
        r.push(a);
        r.push(b);
        let (a, b) = adapter_refs_mut(&mut self.self_attn.v_proj, Section::SelfAttn, Proj::V);
        r.push(a);
        r.push(b);
        let (a, b) = adapter_refs_mut(&mut self.self_attn.o_proj, Section::SelfAttn, Proj::O);
        r.push(a);
        r.push(b);
        let (a, b) = adapter_refs_mut(&mut self.mlp.gate_proj, Section::Mlp, Proj::Gate);
        r.push(a);
        r.push(b);
        let (a, b) = adapter_refs_mut(&mut self.mlp.up_proj, Section::Mlp, Proj::Up);
        r.push(a);
        r.push(b);
        let (a, b) = adapter_refs_mut(&mut self.mlp.down_proj, Section::Mlp, Proj::Down);
        r.push(a);
        r.push(b);
        match &mut self.cross_attn {
            Some(ca) => {
                let (a, b) = adapter_refs_mut(&mut ca.q_proj, Section::CrossAttn, Proj::Q);
                r.push(a);
                r.push(b);
                let (a, b) = adapter_refs_mut(&mut ca.k_proj, Section::CrossAttn, Proj::K);
                r.push(a);
                r.push(b);
                let (a, b) = adapter_refs_mut(&mut ca.v_proj, Section::CrossAttn, Proj::V);
                r.push(a);
                r.push(b);
                let (a, b) = adapter_refs_mut(&mut ca.o_proj, Section::CrossAttn, Proj::O);
                r.push(a);
                r.push(b);
            },
            None => {},
        }
        r
    }

    fn count(&self) -> (r: usize) {
        self.num_trainable_params()
    }
}

proof fn lemma_cross_places(layer: MllamaLoraDecoderLayer)
    ensures
        distinct_places(layer.places()),
{
    match layer.cross_attn {
        Some(_) => {
            assert(distinct_places(layer.places()));
        },
        None => {
            assert(distinct_places(layer.places()));
        },
    }
}

proof fn lemma_cross_own(layer: MllamaLoraDecoderLayer)
    ensures
        layer.with_matrices(layer.matrices()) == layer,
{
    match layer.cross_attn {
        Some(ca) => {
            let c = layer.with_matrices(layer.matrices()).cross_attn->0;
            assert(c.q_proj == ca.q_proj && c.k_proj == ca.k_proj);
            assert(c.v_proj == ca.v_proj && c.o_proj == ca.o_proj);
        },
        None => {},
    }
    let l = layer.with_matrices(layer.matrices());
    assert(l.self_attn.q_proj == layer.self_attn.q_proj);
    assert(l.self_attn.k_proj == layer.self_attn.k_proj);
    assert(l.self_attn.v_proj == layer.self_attn.v_proj);
    assert(l.self_attn.o_proj == layer.self_attn.o_proj);
}

proof fn lemma_again(l: LinearAdapter, a: Array, b: Array, c: Array, d: Array)
    ensures
        l.with(a, b).with(c, d) == l.with(c, d),
{
}

proof fn lemma_cross_again(layer: MllamaLoraDecoderLayer, m: Seq<Array>, n: Seq<Array>)
    ensures
        layer.with_matrices(m).with_matrices(n) == layer.with_matrices(n),
{
    let s = layer.self_attn;
    lemma_again(s.q_proj, m[0], m[1], n[0], n[1]);
    lemma_again(s.k_proj, m[2], m[3], n[2], n[3]);
    lemma_again(s.v_proj, m[4], m[5], n[4], n[5]);
    lemma_again(s.o_proj, m[6], m[7], n[6], n[7]);
    match layer.cross_attn {
        Some(ca) => {
            lemma_again(ca.q_proj, m[14], m[15], n[14], n[15]);
            lemma_again(ca.k_proj, m[16], m[17], n[16], n[17]);
            lemma_again(ca.v_proj, m[18], m[19], n[18], n[19]);
            lemma_again(ca.o_proj, m[20], m[21], n[20], n[21]);
        },
        None => {},
    }
}

#[verifier::rlimit(60)]
proof fn lemma_cross_matrices(layer: MllamaLoraDecoderLayer, m: Seq<Array>)
    requires
        m.len() == layer.matrices().len(),
    ensures
        layer.with_matrices(m).matrices() == m,
{
    match layer.cross_attn {
        Some(_) => {
            assert(layer.with_matrices(m).matrices() =~= m);
        },
        None => {
            assert(layer.with_matrices(m).matrices() =~= m);
        },
    }
}

impl MergeSteps for MllamaLoraDecoderLayer {
    open spec fn merge_steps(self) -> nat {
        match self.cross_attn {
            Some(_) => 11,
            None => 7,
        }
    }

    open spec fn can_merge(self, k: int) -> bool {
        if k == 0 {
            self.self_attn.q_proj.mergeable()
        } else if k == 1 {
            self.self_attn.k_proj.mergeable()
        } else if k == 2 {
            self.self_attn.v_proj.mergeable()
        } else if k == 3 {
            self.self_attn.o_proj.mergeable()
        } else if k == 4 {
            self.mlp.gate_proj.mergeable()
        } else if k == 5 {
            self.mlp.up_proj.mergeable()
        } else if k == 6 {
            self.mlp.down_proj.mergeable()
        } else {
            match self.cross_attn {
                Some(ca) => {
                if k == 7 {
                    ca.q_proj.mergeable()
                } else if k == 8 {
                    ca.k_proj.mergeable()
                } else if k == 9 {
                    ca.v_proj.mergeable()
                } else {
                    ca.o_proj.mergeable()
                }
                },
                None => true,
            }
        }
    }

    open spec fn merged_first(self, k: int) -> MllamaLoraDecoderLayer {
        MllamaLoraDecoderLayer {
            self_attn: MllamaLoraSelfAttention {
                q_proj: if k > 0 {
                    self.self_attn.q_proj.merge_result()
                } else {
                    self.self_attn.q_proj
                },
                k_proj: if k > 1 {
                    self.self_attn.k_proj.merge_result()
                } else {
                    self.self_attn.k_proj
                },
                v_proj: if k > 2 {
                    self.self_attn.v_proj.merge_result()
                } else {
                    self.self_attn.v_proj
                },
                o_proj: if k > 3 {
                    self.self_attn.o_proj.merge_result()
                } else {
                    self.self_attn.o_proj
                },
                ..self.self_attn
            },
            mlp: MllamaLoraMLP {
                gate_proj: if k > 4 {
                    self.mlp.gate_proj.merge_result()
                } else {
                    self.mlp.gate_proj
                },
                up_proj: if k > 5 { self.mlp.up_proj.merge_result() } else { self.mlp.up_proj },
                down_proj: if k > 6 {
                    self.mlp.down_proj.merge_result()
                } else {
                    self.mlp.down_proj
                },
            },
            cross_attn: match self.cross_attn {
                Some(ca) => Some(
                    MllamaLoraCrossAttention {
                        q_proj: if k > 7 { ca.q_proj.merge_result() } else { ca.q_proj },
                        k_proj: if k > 8 { ca.k_proj.merge_result() } else { ca.k_proj },
                        v_proj: if k > 9 { ca.v_proj.merge_result() } else { ca.v_proj },
                        o_proj: if k > 10 { ca.o_proj.merge_result() } else { ca.o_proj },
                        ..ca
                    }
                ),
                None => None,
            },
            ..self
        }
    }
}

impl MergeLayer for MllamaLoraDecoderLayer {
    fn merge_all(&mut self) -> (r: Result<(), LoraError>) {
        let ghost was = *self;
        if self.self_attn.q_proj.merge().is_err() {
            assert(stops_at(was, 0));
            return Err(misfit());
        }
        if self.self_attn.k_proj.merge().is_err() {
            assert(stops_at(was, 1));
            return Err(misfit());
        }
        if self.self_attn.v_proj.merge().is_err() {
            assert(stops_at(was, 2));
            return Err(misfit());
        }
        if self.self_attn.o_proj.merge().is_err() {
            assert(stops_at(was, 3));
            return Err(misfit());
        }
        if self.mlp.gate_proj.merge().is_err() {
            assert(stops_at(was, 4));
            return Err(misfit());
        }
        if self.mlp.up_proj.merge().is_err() {
            assert(stops_at(was, 5));
            return Err(misfit());
        }
        if self.mlp.down_proj.merge().is_err() {
            assert(stops_at(was, 6));
            return Err(misfit());
        }
        match &mut self.cross_attn {
            Some(ca) => {
                if ca.q_proj.merge().is_err() {
                    assert(stops_at(was, 7));
                    return Err(misfit());
                }
                if ca.k_proj.merge().is_err() {
                    assert(stops_at(was, 8));
                    return Err(misfit());
                }
                if ca.v_proj.merge().is_err() {
                    assert(stops_at(was, 9));
                    return Err(misfit());
                }
                if ca.o_proj.merge().is_err() {
                    assert(stops_at(was, 10));
                    return Err(misfit());
                }
            },
            None => {},
        }
        Ok(())
    }
}

impl EvalLayer for MllamaLoraDecoderLayer {
    open spec fn evaluated(self) -> Seq<Array> {
        seq![
            self.self_attn.q_proj.frozen_weight(), self.self_attn.k_proj.frozen_weight(),
            self.self_attn.v_proj.frozen_weight(), self.self_attn.o_proj.frozen_weight(),
            self.self_attn.q_proj.a(), self.self_attn.q_proj.b(), self.self_attn.k_proj.a(),
            self.self_attn.k_proj.b(), self.self_attn.v_proj.a(), self.self_attn.v_proj.b(),
            self.self_attn.o_proj.a(), self.self_attn.o_proj.b(), self.mlp.gate_proj.weight,
            self.mlp.up_proj.weight, self.mlp.down_proj.weight, self.mlp.gate_proj.lora_a,
            self.mlp.gate_proj.lora_b, self.mlp.up_proj.lora_a, self.mlp.up_proj.lora_b,
            self.mlp.down_proj.lora_a, self.mlp.down_proj.lora_b, self.input_layernorm.weight,
            self.post_attention_layernorm.weight
        ] + match self.cross_attn {
            Some(ca) => seq![
                ca.q_proj.frozen_weight(), ca.k_proj.frozen_weight(), ca.v_proj.frozen_weight(),
                ca.o_proj.frozen_weight(), ca.q_proj.a(), ca.q_proj.b(), ca.k_proj.a(),
                ca.k_proj.b(), ca.v_proj.a(), ca.v_proj.b(), ca.o_proj.a(), ca.o_proj.b()
            ],
            None => seq![],
        } + match self.cross_attention_layernorm {
            Some(cn) => seq![cn.weight],
            None => seq![],
        }
    }

    fn push_evaluated(&self, out: &mut Vec<Array>) {
        out.push(self.self_attn.q_proj.weight().clone());
        out.push(self.self_attn.k_proj.weight().clone());
        out.push(self.self_attn.v_proj.weight().clone());
        out.push(self.self_attn.o_proj.weight().clone());
        out.push(self.self_attn.q_proj.matrix_a().clone());
        out.push(self.self_attn.q_proj.matrix_b().clone());
        out.push(self.self_attn.k_proj.matrix_a().clone());
        out.push(self.self_attn.k_proj.matrix_b().clone());
        out.push(self.self_attn.v_proj.matrix_a().clone());
        out.push(self.self_attn.v_proj.matrix_b().clone());
        out.push(self.self_attn.o_proj.matrix_a().clone());
        out.push(self.self_attn.o_proj.matrix_b().clone());
        out.push(self.mlp.gate_proj.weight.clone());
        out.push(self.mlp.up_proj.weight.clone());
        out.push(self.mlp.down_proj.weight.clone());
        out.push(self.mlp.gate_proj.lora_a.clone());
        out.push(self.mlp.gate_proj.lora_b.clone());
        out.push(self.mlp.up_proj.lora_a.clone());
        out.push(self.mlp.up_proj.lora_b.clone());
        out.push(self.mlp.down_proj.lora_a.clone());
        out.push(self.mlp.down_proj.lora_b.clone());
        out.push(self.input_layernorm.weight.clone());
        out.push(self.post_attention_layernorm.weight.clone());
        match &self.cross_attn {
            Some(ca) => {
                out.push(ca.q_proj.weight().clone());
                out.push(ca.k_proj.weight().clone());
                out.push(ca.v_proj.weight().clone());
                out.push(ca.o_proj.weight().clone());
                out.push(ca.q_proj.matrix_a().clone());
                out.push(ca.q_proj.matrix_b().clone());
                out.push(ca.k_proj.matrix_a().clone());
                out.push(ca.k_proj.matrix_b().clone());
                out.push(ca.v_proj.matrix_a().clone());
                out.push(ca.v_proj.matrix_b().clone());
                out.push(ca.o_proj.matrix_a().clone());
                out.push(ca.o_proj.matrix_b().clone());
            },
            None => {},
        }
        match &self.cross_attention_layernorm {
            Some(cn) => {
                out.push(cn.weight.clone());
            },
            None => {},
        }
        assert(out@ =~= old(out)@ + self.evaluated());
    }
}

/// The trainable arrays of one layer, adapter by adapter, open to replacement.
pub struct MllamaLayerParamMut<'a> {
    pub layer: usize,
    pub adapters: Vec<AdapterParamMut<'a>>,
}

fn lora_tensors_mut<'a>(l: &'a mut LoraLinear, section: Section, proj: Proj) -> (r:
    AdapterParamMut<'a>)
    ensures
        r.place == at(section, proj),
        r.entries@.len() == 2,
        forall|j: int|
            0 <= j < 2 ==> {
                &&& (#[trigger] r.entries@[j]).place == at(section, proj)
                &&& r.entries@[j].half == tensor_half(j)
                &&& *r.entries@[j].value == seq![old(l).lora_a, old(l).lora_b][j]
            },
        *final(l) == old(l).with(*final(r.entries@[0].value), *final(r.entries@[1].value)),
{
    let place = Place { section, proj };
    let mut entries: Vec<ParamMut<'a>> = Vec::new();
    entries.push(ParamMut { place, half: Half::A, value: &mut l.lora_a });
    entries.push(ParamMut { place, half: Half::B, value: &mut l.lora_b });
    AdapterParamMut { place, entries }
}

impl MllamaLoraDecoderLayer {
    /// The trainable arrays, adapter by adapter.
    pub open spec fn tensors(self) -> Seq<Seq<Array>> {
        match self.cross_attn {
            Some(ca) => seq![
                self.self_attn.q_proj.tensors(), self.self_attn.k_proj.tensors(),
                self.self_attn.v_proj.tensors(), self.self_attn.o_proj.tensors(),
                seq![self.mlp.gate_proj.lora_a, self.mlp.gate_proj.lora_b],
                seq![self.mlp.up_proj.lora_a, self.mlp.up_proj.lora_b],
                seq![self.mlp.down_proj.lora_a, self.mlp.down_proj.lora_b], ca.q_proj.tensors(),
                ca.k_proj.tensors(), ca.v_proj.tensors(), ca.o_proj.tensors()
            ],
            None => seq![
                self.self_attn.q_proj.tensors(), self.self_attn.k_proj.tensors(),
                self.self_attn.v_proj.tensors(), self.self_attn.o_proj.tensors(),
                seq![self.mlp.gate_proj.lora_a, self.mlp.gate_proj.lora_b],
                seq![self.mlp.up_proj.lora_a, self.mlp.up_proj.lora_b],
                seq![self.mlp.down_proj.lora_a, self.mlp.down_proj.lora_b]
            ],
        }
    }

    /// The layer with other trainable arrays.
    pub open spec fn with_tensors(self, t: Seq<Seq<Array>>) -> MllamaLoraDecoderLayer {
        MllamaLoraDecoderLayer {
            self_attn: MllamaLoraSelfAttention {
                q_proj: self.self_attn.q_proj.with_tensors(t[0]),
                k_proj: self.self_attn.k_proj.with_tensors(t[1]),
                v_proj: self.self_attn.v_proj.with_tensors(t[2]),
                o_proj: self.self_attn.o_proj.with_tensors(t[3]),
                ..self.self_attn
            },
            mlp: MllamaLoraMLP {
                gate_proj: self.mlp.gate_proj.with(t[4][0], t[4][1]),
                up_proj: self.mlp.up_proj.with(t[5][0], t[5][1]),
                down_proj: self.mlp.down_proj.with(t[6][0], t[6][1]),
            },
            cross_attn: match self.cross_attn {
                Some(ca) => Some(
                    MllamaLoraCrossAttention {
                        q_proj: ca.q_proj.with_tensors(t[7]),
                        k_proj: ca.k_proj.with_tensors(t[8]),
                        v_proj: ca.v_proj.with_tensors(t[9]),
                        o_proj: ca.o_proj.with_tensors(t[10]),
                        ..ca
                    }
                ),
                None => None,
            },
            ..self
        }
    }

    fn tensors_mut<'a>(&'a mut self) -> (r: Vec<AdapterParamMut<'a>>)
        ensures
            r@.len() == old(self).tensors().len(),
            forall|k: int|
                0 <= k < r@.len() ==> {
                    &&& (#[trigger] r@[k]).place == old(self).places()[k]
                    &&& r@[k].entries@.len() == old(self).tensors()[k].len()
                    &&& forall|j: int|
                        0 <= j < r@[k].entries@.len() ==> {
                            &&& (#[trigger] r@[k].entries@[j]).place == old(self).places()[k]
                            &&& r@[k].entries@[j].half == tensor_half(j)
                            &&& *r@[k].entries@[j].value == old(self).tensors()[k][j]
                        }
                },
            *final(self) == old(self).with_tensors(
                Seq::new(
                    r@.len(),
                    |k: int|
                        Seq::new(r@[k].entries@.len(), |j: int| *final(r@[k].entries@[j].value)),
                ),
            ),
    {
        let mut r: Vec<AdapterParamMut<'a>> = Vec::new();
        r.push(adapter_tensors_mut(&mut self.self_attn.q_proj, Section::SelfAttn, Proj::Q));
        r.push(adapter_tensors_mut(&mut self.self_attn.k_proj, Section::SelfAttn, Proj::K));
        r.push(adapter_tensors_mut(&mut self.self_attn.v_proj, Section::SelfAttn, Proj::V));
        r.push(adapter_tensors_mut(&mut self.self_attn.o_proj, Section::SelfAttn, Proj::O));
        r.push(lora_tensors_mut(&mut self.mlp.gate_proj, Section::Mlp, Proj::Gate));
        r.push(lora_tensors_mut(&mut self.mlp.up_proj, Section::Mlp, Proj::Up));
        r.push(lora_tensors_mut(&mut self.mlp.down_proj, Section::Mlp, Proj::Down));
        match &mut self.cross_attn {
            Some(ca) => {
                r.push(adapter_tensors_mut(&mut ca.q_proj, Section::CrossAttn, Proj::Q));
                r.push(adapter_tensors_mut(&mut ca.k_proj, Section::CrossAttn, Proj::K));
                r.push(adapter_tensors_mut(&mut ca.v_proj, Section::CrossAttn, Proj::V));
                r.push(adapter_tensors_mut(&mut ca.o_proj, Section::CrossAttn, Proj::O));
            },
            None => {},
        }
        r
    }
}

fn stack_tensors_mut<'a>(
    layers: &'a mut [MllamaLoraDecoderLayer],
    base: usize,
) -> (r: Vec<MllamaLayerParamMut<'a>>)
    requires
        base + layers@.len() <= usize::MAX,
    ensures
        r@.len() == old(layers)@.len(),
        final(layers)@.len() == old(layers)@.len(),
        forall|i: int|
            0 <= i < r@.len() ==> {
                &&& (#[trigger] r@[i]).layer == base + i
                &&& r@[i].adapters@.len() == old(layers)@[i].tensors().len()
                &&& forall|k: int|
                    0 <= k < r@[i].adapters@.len() ==> {
                        &&& (#[trigger] r@[i].adapters@[k]).place == old(layers)@[i].places()[k]
                        &&& r@[i].adapters@[k].entries@.len() == old(layers)@[i].tensors()[k].len()
                        &&& forall|j: int|
                            0 <= j < r@[i].adapters@[k].entries@.len() ==> {
                                &&& (#[trigger] r@[i].adapters@[k].entries@[j]).half == tensor_half(
                                    j,
                                )
                                &&& *r@[i].adapters@[k].entries@[j].value == old(
                                    layers,
                                )@[i].tensors()[k][j]
                            }
                    }
            },
        forall|i: int|
            #![trigger final(layers)@[i]]
            0 <= i < r@.len() ==> final(layers)@[i] == old(layers)@[i].with_tensors(
                Seq::new(
                    r@[i].adapters@.len(),
                    |k: int|
                        Seq::new(
                            r@[i].adapters@[k].entries@.len(),
                            |j: int| *final(r@[i].adapters@[k].entries@[j].value),
                        ),
                ),
            ),
    decreases old(layers)@.len(),
{
    let mut v: Vec<MllamaLayerParamMut<'a>> = Vec::new();
    if layers.len() > 0 {
        let (head, tail) = layers.split_at_mut(1);
        let adapters = head[0].tensors_mut();
        v.push(MllamaLayerParamMut { layer: base, adapters });
        let mut w = stack_tensors_mut(tail, base + 1);
        v.append(&mut w);
    }
    v
}

/// The embeddings, the layers and the last normalization.
#[derive(Debug)]
pub struct MllamaLoraModel {
    pub config: MllamaConfig,
    pub lora_config: LoraConfig,
    pub embed_tokens: Embedding,
    pub layers: Vec<MllamaLoraDecoderLayer>,
    pub norm: RmsNorm,
}

/// The output of the first `n` layers, one behind the other.
pub open spec fn mllama_stack(
    layers: Seq<MllamaLoraDecoderLayer>,
    n: nat,
    x: Array,
    mask: Option<Array>,
    features: Option<Array>,
) -> Array
    decreases n,
{
    if n == 0 {
        x
    } else {
        layers[n - 1].output(
            mllama_stack(layers, (n - 1) as nat, x, mask, features),
            mask,
            features,
        )
    }
}

/// The output of the first `n` layers at the given positions.
pub open spec fn mllama_positioned_stack(
    layers: Seq<MllamaLoraDecoderLayer>,
    n: nat,
    x: Array,
    mask: Option<Array>,
    features: Option<Array>,
    positions: Array,
) -> Array
    decreases n,
{
    if n == 0 {
        x
    } else {
        layers[n - 1].positioned_output(
            mllama_positioned_stack(layers, (n - 1) as nat, x, mask, features, positions),
            mask,
            features,
            positions,
        )
    }
}

/// The output of the first `n` layers over a cache, and the cache behind them.
pub open spec fn mllama_cached_stack(
    layers: Seq<MllamaLoraDecoderLayer>,
    n: nat,
    x: Array,
    mask: Option<Array>,
    features: Option<Array>,
    cache: KVCacheState,
) -> (Array, KVCacheState)
    decreases n,
{
    if n == 0 {
        (x, cache)
    } else {
        let before = mllama_cached_stack(layers, (n - 1) as nat, x, mask, features, cache);
        layers[n - 1].cached_output(before.0, mask, features, before.1, n - 1)
    }
}

/// Each layer has key heads.
pub open spec fn mllama_ready(layers: Seq<MllamaLoraDecoderLayer>) -> bool {
    forall|i: int| 0 <= i < layers.len() ==> (#[trigger] layers[i]).ready()
}

/// Features have a batch and a length.
pub open spec fn features_ready(features: Option<&Array>) -> bool {
    features matches Some(f) ==> f.shape.rank() >= 2
}

/// No extent of the embeddings is negative, nor of the layers where there are any.
pub open spec fn mllama_buildable(config: LlamaConfig) -> bool {
    config.vocab_size >= 0 && config.hidden_size >= 0 && (config.num_hidden_layers > 0
        ==> config.buildable())
}

impl MllamaLoraModel {
    /// The hidden states behind the last normalization, under the given mask.
    pub open spec fn masked_output(
        self,
        ids: Array,
        mask: Option<Array>,
        features: Option<Array>,
    ) -> Array {
        self.norm.output(
            mllama_stack(
                self.layers@,
                self.layers@.len(),
                self.embed_tokens.output(ids),
                mask,
                features,
            ),
        )
    }

    /// The hidden states behind the last normalization. Without a mask, the causal one is used.
    pub open spec fn output(
        self,
        ids: Array,
        mask: Option<Array>,
        features: Option<Array>,
    ) -> Array {
        self.masked_output(ids, mask_or_causal(mask, ids), features)
    }

    pub open spec fn positioned_output(
        self,
        ids: Array,
        mask: Option<Array>,
        features: Option<Array>,
        positions: Array,
    ) -> Array {
        self.norm.output(
            mllama_positioned_stack(
                self.layers@,
                self.layers@.len(),
                self.embed_tokens.output(ids),
                mask,
                features,
                positions,
            ),
        )
    }

    pub open spec fn cached_output(
        self,
        ids: Array,
        mask: Option<Array>,
        features: Option<Array>,
        cache: KVCacheState,
    ) -> (Array, KVCacheState) {
        let end = mllama_cached_stack(
            self.layers@,
            self.layers@.len(),
            self.embed_tokens.output(ids),
            mask,
            features,
            cache,
        );
        (self.norm.output(end.0), end.1)
    }

    /// The model that the settings give, before any weight is loaded.
    pub open spec fn is_fresh(
        self,
        config: LlamaConfig,
        crossing: Seq<i32>,
        lora: LoraConfig,
    ) -> bool {
        &&& self.config.text_config == config
        &&& self.config.cross_attention_layers@ == crossing
        &&& self.lora_config == lora
        &&& self.embed_tokens == Embedding::fresh(config.vocab_size, config.hidden_size)
        &&& self.layers@.len() == config.num_hidden_layers
        &&& forall|i: int|
            0 <= i < self.layers@.len() ==> #[trigger] self.layers@[i]
                == MllamaLoraDecoderLayer::fresh(
                config,
                lora,
                lists_number(crossing, i),
            )
        &&& self.norm == RmsNorm::fresh(config.hidden_size, config.rms_norm_eps)
    }

    /// A fresh model. Refused where an extent is negative.
    pub fn new(config: MllamaConfig, lora_config: LoraConfig) -> (r: Result<
        MllamaLoraModel,
        LoraError,
    >)
        requires
            config.text_config.valid(),
            config.text_config.num_hidden_layers >= 0,
            lora_config.valid(),
        ensures
            match r {
                Ok(m) => mllama_buildable(config.text_config) && m.is_fresh(
                    config.text_config,
                    config.cross_attention_layers@,
                    lora_config,
                ),
                Err(e) => e is Mlx && !mllama_buildable(config.text_config),
            },
    {
        let tc = config.text_config;
        let embed_tokens = match Embedding::new(tc.vocab_size, tc.hidden_size) {
            Ok(e) => e,
            Err(_) => {
                return Err(misfit());
            },
        };
        let n: usize = tc.num_hidden_layers as usize;
        let mut layers: Vec<MllamaLoraDecoderLayer> = Vec::new();
        let mut i: usize = 0;
        while i < n
            invariant
                i <= n,
                n == tc.num_hidden_layers,
                tc == config.text_config,
                layers@.len() == i,
                i > 0 ==> tc.buildable(),
                tc.valid(),
                lora_config.valid(),
                forall|j: int|
                    0 <= j < i ==> #[trigger] layers@[j] == MllamaLoraDecoderLayer::fresh(
                        tc,
                        lora_config,
                        lists_number(config.cross_attention_layers@, j),
                    ),
            decreases n - i,
        {
            match MllamaLoraDecoderLayer::new(&config, &lora_config, i) {
                Ok(l) => {
                    layers.push(l);
                },
                Err(_) => {
                    return Err(misfit());
                },
            }
            i = i + 1;
        }
        Ok(
            MllamaLoraModel {
                config,
                lora_config,
                embed_tokens,
                layers,
                norm: RmsNorm::new(tc.hidden_size, tc.rms_norm_eps),
            },
        )
    }

    pub(crate) fn run_masked(
        &self,
        ids: &Array,
        mask: Option<&Array>,
        features: Option<&Array>,
    ) -> (r: Array)
        requires
            ids.shape.rank() >= 1,
            mllama_ready(self.layers@),
            features_ready(features),
        ensures
            r == self.masked_output(*ids, given(mask), given(features)),
    {
        broadcast use lemma_embed_rank;

        let mut h = self.embed_tokens.run(ids);
        let ghost x = h;
        let mut i: usize = 0;
        while i < self.layers.len()
            invariant
                i <= self.layers.len(),
                mllama_ready(self.layers@),
                features_ready(features),
                h.shape.rank() >= 2,
                h == mllama_stack(self.layers@, i as nat, x, given(mask), given(features)),
            decreases self.layers.len() - i,
        {
            h = self.layers[i].run(&h, mask, features);
            i = i + 1;
        }
        self.norm.run(&h)
    }

    pub(crate) fn run(&self, ids: &Array, mask: Option<&Array>, features: Option<&Array>) -> (r:
        Array)
        requires
            ids.shape.rank() >= 2,
            mllama_ready(self.layers@),
            features_ready(features),
        ensures
            r == self.output(*ids, given(mask), given(features)),
    {
        match mask {
            Some(_) => self.run_masked(ids, mask, features),
            None => {
                let (_, length) = ids.shape.outer_two();
                let causal = create_causal_mask(length);
                self.run_masked(ids, Some(&causal), features)
            },
        }
    }

    pub(crate) fn run_positioned(
        &self,
        ids: &Array,
        mask: Option<&Array>,
        features: Option<&Array>,
        positions: &Array,
    ) -> (r: Array)
        requires
            ids.shape.rank() >= 1,
            mllama_ready(self.layers@),
            features_ready(features),
        ensures
            r == self.positioned_output(*ids, given(mask), given(features), *positions),
    {
        broadcast use lemma_embed_rank;

        let mut h = self.embed_tokens.run(ids);
        let ghost x = h;
        let mut i: usize = 0;
        while i < self.layers.len()
            invariant
                i <= self.layers.len(),
                mllama_ready(self.layers@),
                features_ready(features),
                h.shape.rank() >= 2,
                h == mllama_positioned_stack(
                    self.layers@,
                    i as nat,
                    x,
                    given(mask),
                    given(features),
                    *positions,
                ),
            decreases self.layers.len() - i,
        {
            h = self.layers[i].run_positioned(&h, mask, features, positions);
            i = i + 1;
        }
        self.norm.run(&h)
    }

    pub(crate) fn run_cached(
        &self,
        ids: &Array,
        mask: Option<&Array>,
        features: Option<&Array>,
        cache: &mut KVCache,
    ) -> (r: Array)
        requires
            ids.shape.rank() >= 1,
            mllama_ready(self.layers@),
            features_ready(features),
        ensures
            (r, final(cache)@) == self.cached_output(
                *ids,
                given(mask),
                given(features),
                old(cache)@,
            ),
    {
        broadcast use lemma_embed_rank;

        let mut h = self.embed_tokens.run(ids);
        let ghost x = h;
        let mut i: usize = 0;
        while i < self.layers.len()
            invariant
                i <= self.layers.len(),
                mllama_ready(self.layers@),
                features_ready(features),
                h.shape.rank() >= 2,
                (h, cache@) == mllama_cached_stack(
                    self.layers@,
                    i as nat,
                    x,
                    given(mask),
                    given(features),
                    old(cache)@,
                ),
            decreases self.layers.len() - i,
        {
            h = self.layers[i].run_cached(&h, mask, features, cache, i);
            i = i + 1;
        }
        self.norm.run(&h)
    }

    /// The hidden states behind the last normalization.
    pub fn forward(
        &self,
        input_ids: &Array,
        mask: Option<&Array>,
        cross_states: Option<&Array>,
    ) -> (r: Result<Array, LoraError>)
        requires
            input_ids.shape.rank() >= 2,
            mllama_ready(self.layers@),
            features_ready(cross_states),
        ensures
            outcome(r, self.output(*input_ids, given(mask), given(cross_states))),
    {
        checked(self.run(input_ids, mask, cross_states))
    }

    /// The same: checkpointing keeps the result.
    pub fn forward_with_checkpoint(
        &self,
        input_ids: &Array,
        mask: Option<&Array>,
        cross_states: Option<&Array>,
        _checkpoint_config: Option<&CheckpointConfig>,
    ) -> (r: Result<Array, LoraError>)
        requires
            input_ids.shape.rank() >= 2,
            mllama_ready(self.layers@),
            features_ready(cross_states),
        ensures
            outcome(r, self.output(*input_ids, given(mask), given(cross_states))),
    {
        checked(self.run(input_ids, mask, cross_states))
    }

    /// The hidden states at the given positions, under the given mask.
    pub fn forward_with_positions(
        &self,
        input_ids: &Array,
        mask: Option<&Array>,
        cross_states: Option<&Array>,
        position_ids: &Array,
    ) -> (r: Result<Array, LoraError>)
        requires
            input_ids.shape.rank() >= 1,
            mllama_ready(self.layers@),
            features_ready(cross_states),
        ensures
            outcome(
                r,
                self.positioned_output(
                    *input_ids,
                    given(mask),
                    given(cross_states),
                    *position_ids,
                ),
            ),
    {
        checked(self.run_positioned(input_ids, mask, cross_states, position_ids))
    }

    /// The hidden states over what the cache holds and the input; without a cache, over the
    /// input alone, under the given mask.
    pub fn forward_with_cache(
        &self,
        input_ids: &Array,
        mask: Option<&Array>,
        cross_states: Option<&Array>,
        cache: Option<&mut KVCache>,
    ) -> (r: Result<Array, LoraError>)
        requires
            input_ids.shape.rank() >= 1,
            mllama_ready(self.layers@),
            features_ready(cross_states),
        ensures
            match cache {
                Some(c) => {
                    let end = self.cached_output(
                        *input_ids,
                        given(mask),
                        given(cross_states),
                        c@,
                    );
                    outcome(r, end.0) && final(c)@ == end.1
                },
                None => outcome(
                    r,
                    self.masked_output(*input_ids, given(mask), given(cross_states)),
                ),
            },
    {
        match cache {
            Some(c) => checked(self.run_cached(input_ids, mask, cross_states, c)),
            None => checked(self.run_masked(input_ids, mask, cross_states)),
        }
    }

    /// The number of trainable elements.
    pub fn num_trainable_params(&self) -> (r: usize)
        requires
            stack_countable(self.layers@),
        ensures
            r == trainable_total(self.layers@),
    {
        count_trainable(&self.layers)
    }
}

/// The model with a head for logits.
#[derive(Debug)]
pub struct MllamaLoraForCausalLM {
    pub model: MllamaLoraModel,
    /// Absent where the embeddings serve as head.
    pub lm_head: Option<Linear>,
    pub checkpoint_config: Option<CheckpointConfig>,
}

/// The features, where their width is that of the hidden states.
pub open spec fn usable_features(features: Option<Array>, hidden_size: i32) -> Option<Array> {
    match features {
        Some(f) => if (if f.shape.rank() >= 1 { f.shape.inner() } else { 0i32 }) == hidden_size {
            Some(f)
        } else {
            None
        },
        None => None,
    }
}

impl MllamaLoraForCausalLM {
    /// The logits.
    pub open spec fn output(
        self,
        ids: Array,
        mask: Option<Array>,
        features: Option<Array>,
    ) -> Array {
        logits(self.lm_head, self.model.embed_tokens, self.model.output(ids, mask, features))
    }

    /// A fresh model. Refused where an extent is negative.
    pub fn new(config: MllamaConfig, lora_config: LoraConfig) -> (r: Result<
        MllamaLoraForCausalLM,
        LoraError,
    >)
        requires
            config.text_config.valid(),
            config.text_config.num_hidden_layers >= 0,
            lora_config.valid(),
        ensures
            match r {
                Ok(m) => {
                    &&& mllama_buildable(config.text_config)
                    &&& m.model.is_fresh(
                        config.text_config,
                        config.cross_attention_layers@,
                        lora_config,
                    )
                    &&& m.lm_head == fresh_head(
                        config.text_config.tie_word_embeddings,
                        config.text_config.hidden_size,
                        config.text_config.vocab_size,
                    )
                    &&& m.checkpoint_config is None
                },
                Err(e) => e is Mlx && !mllama_buildable(config.text_config),
            },
    {
        let tc = config.text_config;
        match MllamaLoraModel::new(config, lora_config) {
            Ok(model) => Ok(
                MllamaLoraForCausalLM {
                    model,
                    lm_head: make_head(tc.tie_word_embeddings, tc.hidden_size, tc.vocab_size),
                    checkpoint_config: None,
                },
            ),
            Err(_) => Err(misfit()),
        }
    }

    /// The logits of text alone.
    pub fn forward(&self, input_ids: &Array, mask: Option<&Array>) -> (r: Result<Array, LoraError>)
        requires
            input_ids.shape.rank() >= 2,
            mllama_ready(self.model.layers@),
        ensures
            outcome(r, self.output(*input_ids, given(mask), None)),
    {
        self.forward_multimodal(input_ids, mask, None)
    }

    /// The logits of text and vision features.
    pub fn forward_multimodal(
        &self,
        input_ids: &Array,
        mask: Option<&Array>,
        cross_states: Option<&Array>,
    ) -> (r: Result<Array, LoraError>)
        requires
            input_ids.shape.rank() >= 2,
            mllama_ready(self.model.layers@),
            features_ready(cross_states),
        ensures
            outcome(r, self.output(*input_ids, given(mask), given(cross_states))),
    {
        let hidden = self.model.run(input_ids, mask, cross_states);
        checked(run_logits(&self.lm_head, &self.model.embed_tokens, &hidden))
    }

    /// The logits of text and an image. An image that is not projected to the width of the hidden
    /// states is left out.
    pub fn forward_with_images(
        &self,
        input_ids: &Array,
        mask: Option<&Array>,
        pixel_values: Option<&Array>,
    ) -> (r: Result<Array, LoraError>)
        requires
            input_ids.shape.rank() >= 2,
            mllama_ready(self.model.layers@),
            pixel_values matches Some(f) ==> usable_features(
                Some(*f),
                self.model.config.text_config.hidden_size,
            ) is Some ==> f.shape.rank() >= 2,
        ensures
            outcome(
                r,
                self.output(
                    *input_ids,
                    given(mask),
                    usable_features(
                        given(pixel_values),
                        self.model.config.text_config.hidden_size,
                    ),
                ),
            ),
    {
        match pixel_values {
            Some(f) => {
                let width: i32 = if f.shape.num_axes() >= 1 {
                    f.shape.pad().4
                } else {
                    0
                };
                if width == self.model.config.text_config.hidden_size {
                    self.forward_multimodal(input_ids, mask, Some(f))
                } else {
                    self.forward_multimodal(input_ids, mask, None)
                }
            },
            None => self.forward_multimodal(input_ids, mask, None),
        }
    }

    pub fn is_multimodal(&self) -> (r: bool)
        ensures
            r,
    {
        true
    }

    /// The logits of text at the given positions.
    pub fn forward_with_positions(
        &self,
        input_ids: &Array,
        mask: Option<&Array>,
        position_ids: &Array,
    ) -> (r: Result<Array, LoraError>)
        requires
            input_ids.shape.rank() >= 1,
            mllama_ready(self.model.layers@),
        ensures
            outcome(
                r,
                logits(
                    self.lm_head,
                    self.model.embed_tokens,
                    self.model.positioned_output(*input_ids, given(mask), None, *position_ids),
                ),
            ),
    {
        let hidden = self.model.run_positioned(input_ids, mask, None, position_ids);
        checked(run_logits(&self.lm_head, &self.model.embed_tokens, &hidden))
    }

    /// The hidden states from which the logits of text follow.
    pub fn forward_hidden_states(&self, input_ids: &Array, mask: Option<&Array>) -> (r: Result<
        Array,
        LoraError,
    >)
        requires
            input_ids.shape.rank() >= 2,
            mllama_ready(self.model.layers@),
        ensures
            outcome(r, self.model.output(*input_ids, given(mask), None)),
    {
        checked(self.model.run(input_ids, mask, None))
    }

    /// The hidden states of text at the given positions.
    pub fn forward_hidden_states_with_positions(
        &self,
        input_ids: &Array,
        mask: Option<&Array>,
        position_ids: &Array,
    ) -> (r: Result<Array, LoraError>)
        requires
            input_ids.shape.rank() >= 1,
            mllama_ready(self.model.layers@),
        ensures
            outcome(
                r,
                self.model.positioned_output(*input_ids, given(mask), None, *position_ids),
            ),
    {
        checked(self.model.run_positioned(input_ids, mask, None, position_ids))
    }

    /// The logits over what the cache holds and the input; without a cache, over the input
    /// alone, under the given mask.
    pub fn forward_with_cache(
        &self,
        input_ids: &Array,
        mask: Option<&Array>,
        cross_states: Option<&Array>,
        cache: Option<&mut KVCache>,
    ) -> (r: Result<Array, LoraError>)
        requires
            input_ids.shape.rank() >= 1,
            mllama_ready(self.model.layers@),
            features_ready(cross_states),
        ensures
            match cache {
                Some(c) => {
                    let end = self.model.cached_output(
                        *input_ids,
                        given(mask),
                        given(cross_states),
                        c@,
                    );
                    outcome(r, logits(self.lm_head, self.model.embed_tokens, end.0))
                        && final(c)@ == end.1
                },
                None => outcome(
                    r,
                    logits(
                        self.lm_head,
                        self.model.embed_tokens,
                        self.model.masked_output(*input_ids, given(mask), given(cross_states)),
                    ),
                ),
            },
    {
        match cache {
            Some(c) => {
                let hidden = self.model.run_cached(input_ids, mask, cross_states, c);
                checked(run_logits(&self.lm_head, &self.model.embed_tokens, &hidden))
            },
            None => {
                let hidden = self.model.run_masked(input_ids, mask, cross_states);
                checked(run_logits(&self.lm_head, &self.model.embed_tokens, &hidden))
            },
        }
    }

    /// An empty cache of the model's extents.
    pub fn create_cache(&self, max_seq_len: usize) -> (r: KVCache)
        requires
            self.model.config.text_config.valid(),
            self.model.config.text_config.num_hidden_layers >= 0,
            self.model.config.text_config.kv_heads() >= 0,
            self.model.config.text_config.head_size() >= 0,
        ensures
            r@ == KVCacheState::fresh(
                KVCacheConfig {
                    num_layers: self.model.config.text_config.num_hidden_layers as usize,
                    max_seq_len,
                    num_kv_heads: self.model.config.text_config.kv_heads() as usize,
                    head_dim: self.model.config.text_config.head_size() as usize,
                },
            ),
    {
        let tc = self.model.config.text_config;
        KVCache::new(
            KVCacheConfig::new(
                tc.num_hidden_layers as usize,
                max_seq_len,
                tc.num_kv_heads() as usize,
                tc.get_head_dim() as usize,
            ),
        )
    }

    /// The weight behind the logits.
    pub fn get_lm_head_weight(&self) -> (r: Option<Array>)
        ensures
            r == Some(logits_weight(self.lm_head, self.model.embed_tokens)),
    {
        Some(get_logits_weight(&self.lm_head, &self.model.embed_tokens))
    }

    /// The model with its layers replaced, and nothing else.
    pub open spec fn only_layers_changed(self, after: MllamaLoraForCausalLM) -> bool {
        &&& after.model.config == self.model.config
        &&& after.model.lora_config == self.model.lora_config
        &&& after.model.embed_tokens == self.model.embed_tokens
        &&& after.model.norm == self.model.norm
        &&& after.lm_head == self.lm_head
        &&& after.checkpoint_config == self.checkpoint_config
    }

    /// Merges the adapters into the weights, layer by layer, up to the first that cannot be.
    pub fn merge_lora(&mut self) -> (r: Result<(), LoraError>)
        ensures
            r is Ok ==> stack_merged(old(self).model.layers@, final(self).model.layers@),
            r matches Err(e) ==> e is Mlx && stack_merge_stopped(
                old(self).model.layers@,
                final(self).model.layers@,
            ),
            old(self).only_layers_changed(*final(self)),
    {
        merge_layers(&mut self.model.layers)
    }

    /// Refused: a merge is undone by loading the frozen weights again.
    pub fn unmerge_lora(&mut self) -> (r: Result<(), LoraError>)
        ensures
            r matches Err(LoraError::InvalidState(what)) && what@
                == "unmerge_lora is not supported: reload base model weights to undo a merge"@,
            *final(self) == *old(self),
    {
        Err(
            LoraError::InvalidState(
                String::from_str(
                    "unmerge_lora is not supported: reload base model weights to undo a merge",
                ),
            ),
        )
    }

    /// Switches gradient checkpointing on.
    pub fn enable_gradient_checkpointing(&mut self, layers_per_block: usize)
        ensures
            *final(self) == (MllamaLoraForCausalLM {
                checkpoint_config: Some(checkpointing(layers_per_block)),
                ..*old(self)
            }),
    {
        self.checkpoint_config = Some(make_checkpointing(layers_per_block));
    }

    /// Switches gradient checkpointing off.
    pub fn disable_gradient_checkpointing(&mut self)
        ensures
            *final(self) == (MllamaLoraForCausalLM { checkpoint_config: None, ..*old(self) }),
    {
        self.checkpoint_config = None;
    }

    pub fn supports_gradient_checkpointing(&self) -> (r: bool)
        ensures
            r == true,
    {
        true
    }

    /// The number of trainable elements.
    pub fn num_parameters(&self) -> (r: usize)
        requires
            stack_countable(self.model.layers@),
        ensures
            r == trainable_total(self.model.layers@),
    {
        self.model.num_trainable_params()
    }

    /// The matrices of all adapters, under their names.
    pub fn lora_parameters(&self) -> (r: NameMap<Array>)
        ensures
            r@ == parameter_map(NameStyle::Plain, self.model.layers@),
    {
        collect_parameters(&self.model.layers, NameStyle::Plain)
    }

    /// Replaces the adapters' matrices that the map names.
    pub fn set_lora_parameters(&mut self, params: &NameMap<Array>)
        ensures
            final(self).model.layers@ == assigned(
                NameStyle::Plain,
                old(self).model.layers@,
                params@,
            ),
            old(self).only_layers_changed(*final(self)),
    {
        assign_parameters(&mut self.model.layers, params, NameStyle::Plain);
    }

    /// The matrices of the adapters, layer by layer.
    pub fn parameters<'a>(&'a self) -> (r: Vec<LayerParamRef<'a>>)
        ensures
            lists_stack(r@, self.model.layers@),
    {
        parameter_refs(&self.model.layers)
    }

    /// The matrices of the adapters: all of them are trainable.
    pub fn trainable_parameters<'a>(&'a self) -> (r: Vec<LayerParamRef<'a>>)
        ensures
            lists_stack(r@, self.model.layers@),
    {
        parameter_refs(&self.model.layers)
    }

    /// Adapters cannot be frozen.
    pub fn freeze_parameters(&mut self, _recursive: bool)
        ensures
            *final(self) == *old(self),
    {
    }

    /// Adapters are never frozen.
    pub fn unfreeze_parameters(&mut self, _recursive: bool)
        ensures
            *final(self) == *old(self),
    {
    }

    pub fn all_frozen(&self) -> (r: Option<bool>)
        ensures
            r == Some(false),
    {
        Some(false)
    }

    pub fn any_frozen(&self) -> (r: Option<bool>)
        ensures
            r == Some(false),
    {
        Some(false)
    }

    /// The arrays to evaluate before the first use of the model, in order.
    pub fn eval_all(&self) -> (r: Vec<Array>)
        ensures
            r@ == model_evaluated(
                self.model.embed_tokens,
                self.model.layers@,
                self.model.norm,
                self.lm_head,
            ),
    {
        list_evaluated(
            &self.model.embed_tokens,
            &self.model.layers,
            &self.model.norm,
            &self.lm_head,
        )
    }

    /// The trainable arrays, layer by layer and adapter by adapter, open to replacement: the
    /// matrices, and the magnitudes where there are any.
    pub fn parameters_mut<'a>(&'a mut self) -> (r: Vec<MllamaLayerParamMut<'a>>)
        ensures
            r@.len() == old(self).model.layers@.len(),
            forall|i: int|
                0 <= i < r@.len() ==> {
                    &&& (#[trigger] r@[i]).layer == i
                    &&& r@[i].adapters@.len() == old(self).model.layers@[i].tensors().len()
                    &&& forall|k: int|
                        0 <= k < r@[i].adapters@.len() ==> {
                            &&& (#[trigger] r@[i].adapters@[k]).place == old(
                                self,
                            ).model.layers@[i].places()[k]
                            &&& r@[i].adapters@[k].entries@.len() == old(
                                self,
                            ).model.layers@[i].tensors()[k].len()
                            &&& forall|j: int|
                                0 <= j < r@[i].adapters@[k].entries@.len() ==> {
                                    &&& (#[trigger] r@[i].adapters@[k].entries@[j]).half
                                        == tensor_half(j)
                                    &&& *r@[i].adapters@[k].entries@[j].value == old(
                                        self,
                                    ).model.layers@[i].tensors()[k][j]
                                }
                        }
                },
            final(self).model.layers@.len() == old(self).model.layers@.len(),
            forall|i: int|
                #![trigger final(self).model.layers@[i]]
                0 <= i < r@.len() ==> final(self).model.layers@[i] == old(
                    self,
                ).model.layers@[i].with_tensors(
                    Seq::new(
                        r@[i].adapters@.len(),
                        |k: int|
                            Seq::new(
                                r@[i].adapters@[k].entries@.len(),
                                |j: int| *final(r@[i].adapters@[k].entries@[j].value),
                            ),
                    ),
                ),
            old(self).only_layers_changed(*final(self)),
    {
        let n = self.model.layers.len();
        assert(n <= usize::MAX);
        stack_tensors_mut(self.model.layers.as_mut_slice(), 0)
    }

    /// The number of trainable elements: those of attention to vision features among them.
    pub fn num_trainable_params(&self) -> (r: usize)
        requires
            stack_countable(self.model.layers@),
        ensures
            r == trainable_total(self.model.layers@),
    {
        self.model.num_trainable_params()
    }

    /// Every weight that is held under the name of a part stands in that part; all else is as it
    /// was.
    pub open spec fn loads_to(
        self,
        after: MllamaLoraForCausalLM,
        weights: Map<Seq<char>, Array>,
    ) -> bool {
        &&& after.model.layers@.len() == self.model.layers@.len()
        &&& forall|i: int|
            0 <= i < self.model.layers@.len() ==> #[trigger] after.model.layers@[i]
                == self.model.layers@[i].loaded(i as nat, weights)
        &&& after.model.embed_tokens == loaded_table(
            self.model.embed_tokens,
            weights,
            "language_model.model.embed_tokens.weight"@,
        )
        &&& after.model.norm == loaded_norm(
            self.model.norm,
            weights,
            "language_model.model.norm.weight"@,
        )
        &&& after.lm_head == loaded_head(
            self.lm_head,
            weights,
            "language_model.lm_head.weight"@,
        )
        &&& after.model.config == self.model.config
        &&& after.model.lora_config == self.model.lora_config
        &&& after.checkpoint_config == self.checkpoint_config
    }

    /// Replaces the frozen weights that the map names. The adapters stay as they are.
    pub fn load_base_weights(&mut self, weights: &NameMap<Array>) -> (r: Result<(), LoraError>)
        ensures
            r is Ok,
            old(self).loads_to(*final(self), weights@),
            final(self).model.layers@.len() == old(self).model.layers@.len(),
            forall|i: int|
                0 <= i < old(self).model.layers@.len() ==> #[trigger] final(self).model.layers@[i]
                    == old(self).model.layers@[i].loaded(i as nat, weights@),
            final(self).model.embed_tokens == loaded_table(
                old(self).model.embed_tokens,
                weights@,
                "language_model.model.embed_tokens.weight"@,
            ),
            final(self).model.norm == loaded_norm(
                old(self).model.norm,
                weights@,
                "language_model.model.norm.weight"@,
            ),
            final(self).lm_head == loaded_head(
                old(self).lm_head,
                weights@,
                "language_model.lm_head.weight"@,
            ),
            final(self).model.config == old(self).model.config,
            final(self).model.lora_config == old(self).model.lora_config,
            final(self).checkpoint_config == old(self).checkpoint_config,
    {
        load_table(
            &mut self.model.embed_tokens,
            weights,
            "language_model.model.embed_tokens.weight",
        );
        let ghost before = self.model.layers@;
        let mut i: usize = 0;
        while i < self.model.layers.len()
            invariant
                i <= self.model.layers@.len(),
                self.model.layers@.len() == before.len(),
                before == old(self).model.layers@,
                forall|j: int|
                    0 <= j < i ==> #[trigger] self.model.layers@[j] == before[j].loaded(
                        j as nat,
                        weights@,
                    ),
                forall|j: int|
                    i <= j < before.len() ==> #[trigger] self.model.layers@[j] == before[j],
                self.model.embed_tokens == loaded_table(
                    old(self).model.embed_tokens,
                    weights@,
                    "language_model.model.embed_tokens.weight"@,
                ),
                self.model.norm == old(self).model.norm,
                self.lm_head == old(self).lm_head,
                self.model.config == old(self).model.config,
                self.model.lora_config == old(self).model.lora_config,
                self.checkpoint_config == old(self).checkpoint_config,
            decreases self.model.layers.len() - i,
        {
            self.model.layers[i].load(i, weights);
            i = i + 1;
        }
        load_norm(
            &mut self.model.norm,
            weights,
            &String::from_str("language_model.model.norm.weight"),
        );
        load_head(&mut self.lm_head, weights, "language_model.lm_head.weight");
        Ok(())
    }

    pub fn config(&self) -> (r: &MllamaConfig)
        ensures
            *r == self.model.config,
    {
        &self.model.config
    }

    pub fn lora_config(&self) -> (r: &LoraConfig)
        ensures
            *r == self.model.lora_config,
    {
        &self.model.lora_config
    }

    pub fn supports_kv_cache(&self) -> (r: bool)
        ensures
            r,
    {
        true
    }
}

/// The matrices of attention to vision features are named for the layers that have such
/// attention, and for no others.
pub proof fn law_cross_named(layers: Seq<MllamaLoraDecoderLayer>, i: int, proj: Proj, half: Half)
    requires
        0 <= i < layers.len(),
        proj == Proj::Q || proj == Proj::K || proj == Proj::V || proj == Proj::O,
        half != Half::Magnitude,
    ensures
        parameter_map(NameStyle::Plain, layers).contains_key(
            lora_name(NameStyle::Plain, i as nat, Section::CrossAttn, proj, half),
        ) <==> layers[i].cross_attn is Some,
{
    let key = lora_name(NameStyle::Plain, i as nat, Section::CrossAttn, proj, half);
    let k: int = match proj {
        Proj::Q => 7,
        Proj::K => 8,
        Proj::V => 9,
        _ => 10,
    };
    let j: int = 2 * k + if half == Half::A {
        0int
    } else {
        1int
    };
    if layers[i].cross_attn is Some {
        assert(layers[i].places()[k] == at(Section::CrossAttn, proj));
        assert(name_at(NameStyle::Plain, i as nat, layers[i].places(), j) == key);
        law_parameter_lookup(NameStyle::Plain, layers, i, j);
    } else {
        law_parameter_names(NameStyle::Plain, layers, key);
        if names_matrix(NameStyle::Plain, layers, key) {
            let (l, m) = choose|l: int, m: int|
                0 <= l < layers.len() && 0 <= m < layers[l].matrices().len() && #[trigger] name_at(
                    NameStyle::Plain,
                    l as nat,
                    layers[l].places(),
                    m,
                ) == key;
            let p = layers[l].places()[m / 2];
            lemma_lora_name_injective(
                NameStyle::Plain,
                l as nat,
                p.section,
                p.proj,
                half_of(m),
                i as nat,
                Section::CrossAttn,
                proj,
                half,
            );
        }
    }
}

} // verus!
