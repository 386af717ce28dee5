//! The hybrid Qwen3-Next with adapters: full attention in every so many layers, a gated delta rule
//! in the others, and behind each an MLP or routed experts beside a shared one. Routed experts,
//! routers, convolutions and the parameters of the recurrence stay frozen.

use crate::array::{
    Arithmetic, Array, AttentionMaskType, Function, FusedAttentionConfig, RopeConfig, Source, apply,
    attend, combine, concat, extent, extent_at, flash_attend, lemma_combine_rank, lemma_embed_rank,
    lemma_rms_norm_shape, plus, reshape, reshape_rest, rms_norm, rope, slice, source, sum_axis,
    swap_middle, times,
};
use crate::attention::{
    cut, find_cut, first_part, gated, given, last_part, make_first_part, make_gated, make_last_part,
    make_match_heads, make_merge_heads_to, make_middle_part, make_plain_attention, make_rows_of,
    make_split_heads, make_unfit, match_heads, merge_heads_to, middle_part, plain_attention,
    rows_of, split_heads, unfit,
};
use crate::config::{
    CheckpointConfig, LoraConfig, checkpointing, effective_rank, find_number, lists_number,
    make_checkpointing,
};
use crate::error::{LoraError, checked, misfit, outcome};
use crate::evaluation::{EvalLayer, list_evaluated, model_evaluated};
use crate::kernels::{
    argsort, conv1d, gated_delta, gated_delta_state, gather_matmul, keep_where,
    lemma_product_in_range, make_argsort, make_conv1d, make_gated_delta, make_gather_matmul,
    make_keep_where, make_take_along, take_along,
};
use crate::kv_cache::{KVCache, KVCacheConfig, KVCacheState, MambaCache, MambaCacheEntry};
use crate::layer_ids::LayerIds;
use crate::lora::{Adapter, LoraLinear};
use crate::mamba::Conv1d;
use crate::merging::{
    MergeLayer, MergeSteps, merge_layers, stack_merge_stopped, stack_merged, stops_at,
};
use crate::name_map::NameMap;
use crate::names::{NameStyle, Proj, Section};
use crate::nn::{
    Embedding, Linear, RmsNorm, fresh_head, initial_linear, logits, make_head, run_logits,
};
use crate::params::{
    LayerParamMut, LayerParamRef, LoraLayer, ParamMut, ParamRef, Place, adapted_before,
    adapter_refs_mut, assign_adapter, assign_parameters, assigned, at, collect_adapter,
    collect_parameters, count_trainable, distinct_places, half_of, lists_stack, lookup,
    parameter_map, parameter_refs, push_refs, stack_countable, stack_refs_mut, trainable_total,
    with_named,
};
use crate::qwen3_lora::FLASH_ATTENTION_SEQ_THRESHOLD;
use crate::scalar::{F32, Scale};
use crate::shape::Shape;
use crate::weights::{
    base_name, load_array, load_head, load_linear, load_lora, load_norm, load_table, loaded,
    loaded_head, loaded_linear, loaded_norm, loaded_table, make_base_name, make_part_name,
    part_name,
};
use vstd::prelude::*;
use vstd::string::*;

verus! {

/// The extents and settings of a Qwen3-Next model. What follows from the scaling of rotary
/// positions, and how many features rotate, is given as numbers.
#[derive(Debug)]
pub struct Qwen3NextConfig {
    pub vocab_size: i32,
    pub hidden_size: i32,
    pub intermediate_size: i32,
    pub num_hidden_layers: i32,
    pub num_attention_heads: i32,
    pub num_key_value_heads: Option<i32>,
    pub head_dim: Option<i32>,
    pub linear_num_value_heads: i32,
    pub linear_num_key_heads: i32,
    pub linear_key_head_dim: i32,
    pub linear_value_head_dim: i32,
    pub linear_conv_kernel_dim: i32,
    /// Every so many layers, one has full attention.
    pub full_attention_interval: i32,
    pub num_experts: i32,
    pub num_experts_per_tok: i32,
    /// Every so many layers, one has experts.
    pub decoder_sparse_step: i32,
    pub moe_intermediate_size: i32,
    pub shared_expert_intermediate_size: i32,
    /// The layers without experts, whatever the step says.
    pub mlp_only_layers: Vec<i32>,
    pub norm_topk_prob: bool,
    pub tie_word_embeddings: bool,
    pub rms_norm_eps: F32,
    /// How many features of a head rotate.
    pub rope_dims: i32,
    /// The base of the rotary frequencies, behind the scaling.
    pub effective_base: F32,
    /// The factor on rotary positions.
    pub rope_scale: F32,
}

impl Qwen3NextConfig {
    /// Key heads; as many as query heads where nothing is said.
    pub open spec fn kv_heads(self) -> i32 {
        match self.num_key_value_heads {
            Some(n) => n,
            None => self.num_attention_heads,
        }
    }

    /// The features of a head; an even share where nothing is said.
    pub open spec fn head_size(self) -> i32 {
        match self.head_dim {
            Some(n) => n,
            None => (self.hidden_size / self.num_attention_heads) as i32,
        }
    }

    pub open spec fn key_dim(self) -> int {
        self.linear_key_head_dim * self.linear_num_key_heads
    }

    pub open spec fn value_dim(self) -> int {
        self.linear_value_head_dim * self.linear_num_value_heads
    }

    /// The channels of the convolution: those of queries, keys and values.
    pub open spec fn conv_dim(self) -> int {
        self.key_dim() * 2 + self.value_dim()
    }

    /// The widths fit machine integers, layers can be counted, and extents that are divided have
    /// no negative part.
    pub open spec fn valid(self) -> bool {
        &&& self.head_dim is None ==> self.num_attention_heads > 0 && self.hidden_size >= 0
        &&& i32::MIN <= self.num_attention_heads * self.head_size() <= i32::MAX
        &&& i32::MIN <= self.num_attention_heads * self.head_size() * 2 <= i32::MAX
        &&& i32::MIN <= self.head_size() * 2 <= i32::MAX
        &&& i32::MIN <= self.kv_heads() * self.head_size() <= i32::MAX
        &&& i32::MIN <= self.key_dim() <= i32::MAX
        &&& i32::MIN <= self.key_dim() * 2 <= i32::MAX
        &&& i32::MIN <= self.value_dim() <= i32::MAX
        &&& i32::MIN <= self.conv_dim() <= i32::MAX
        &&& self.full_attention_interval > 0
        &&& 0 <= self.num_hidden_layers < i32::MAX
    }

    /// The layer runs a gated delta rule in place of full attention.
    pub open spec fn linear(self, layer: int) -> bool {
        (layer + 1) % (self.full_attention_interval as int) != 0
    }

    /// The layer has experts in place of an MLP.
    pub open spec fn sparse(self, layer: int) -> bool {
        &&& !lists_number(self.mlp_only_layers@, layer)
        &&& self.num_experts > 0
        &&& self.decoder_sparse_step > 0
        &&& (layer + 1) % (self.decoder_sparse_step as int) == 0
    }

    /// No extent of the layer is negative.
    pub open spec fn layer_buildable(self, layer: int) -> bool {
        &&& self.hidden_size >= 0
        &&& if self.linear(layer) {
            Qwen3NextLoraGDN::buildable(self)
        } else {
            Qwen3NextLoraAttention::buildable(self)
        }
        &&& if self.sparse(layer) {
            Qwen3NextLoraSparseMoE::buildable(self)
        } else {
            self.intermediate_size >= 0
        }
    }

    /// No extent of the embeddings or of a layer is negative.
    pub open spec fn buildable(self) -> bool {
        &&& self.vocab_size >= 0 && self.hidden_size >= 0
        &&& forall|i: int|
            0 <= i < self.num_hidden_layers ==> #[trigger] self.layer_buildable(i)
    }

    /// How many of the first `n` layers have full attention.
    pub open spec fn full_before(self, n: nat) -> nat
        decreases n,
    {
        if n == 0 {
            0
        } else {
            self.full_before((n - 1) as nat) + if self.linear(n - 1) {
                0nat
            } else {
                1nat
            }
        }
    }

    /// The number of layers, from layer `i` on, before the first that has a negative extent.
    pub open spec fn buildable_from(self, i: int) -> nat
        decreases self.num_hidden_layers - i,
    {
        if 0 <= i < self.num_hidden_layers && self.layer_buildable(i) {
            self.buildable_from(i + 1) + 1
        } else {
            0
        }
    }

    /// How many numbers were given out when a model is refused: those of the layers up to and
    /// with the first that has a negative extent; none where the embeddings have one.
    pub open spec fn numbered_when_refused(self) -> nat {
        if self.vocab_size >= 0 && self.hidden_size >= 0 {
            self.full_before(self.buildable_from(0) + 1)
        } else {
            0
        }
    }

    pub fn get_num_kv_heads(&self) -> (r: i32)
        ensures
            r == self.kv_heads(),
    {
        match self.num_key_value_heads {
            Some(n) => n,
            None => self.num_attention_heads,
        }
    }

    pub fn get_head_dim(&self) -> (r: i32)
        requires
            self.head_dim is None ==> self.num_attention_heads > 0 && self.hidden_size >= 0,
        ensures
            r == self.head_size(),
    {
        match self.head_dim {
            Some(n) => n,
            None => self.hidden_size / self.num_attention_heads,
        }
    }

    /// Whether the layer runs a gated delta rule in place of full attention.
    pub fn is_linear_layer(&self, layer_idx: usize) -> (r: bool)
        requires
            self.full_attention_interval > 0,
            layer_idx < i32::MAX,
        ensures
            r == self.linear(layer_idx as int),
    {
        (layer_idx as i32 + 1) % self.full_attention_interval != 0
    }

    /// Whether the layer has experts in place of an MLP.
    pub fn use_moe_at(&self, layer_idx: usize) -> (r: bool)
        requires
            layer_idx < i32::MAX,
        ensures
            r == self.sparse(layer_idx as int),
    {
        let layer: i32 = layer_idx as i32;
        !find_number(&self.mlp_only_layers, layer) && self.num_experts > 0
            && self.decoder_sparse_step > 0 && (layer + 1) % self.decoder_sparse_step == 0
    }
}

/// Starts the numbers of layers again from zero.
pub fn reset_qwen3_next_layer_ids(ids: &mut LayerIds)
    ensures
        final(ids).next == 0,
{
    ids.next = 0;
}

/// Full attention whose output passes a gate, with adapters on its four projections. Only the
/// first features of a head rotate.
#[derive(Debug)]
pub struct Qwen3NextLoraAttention {
    pub n_heads: i32,
    pub n_kv_heads: i32,
    pub head_dim: i32,
    pub scale: Scale,
    /// How many features of a head rotate.
    pub rope_dims: i32,
    /// The base of the rotary frequencies.
    pub effective_base: F32,
    /// The factor on rotary positions.
    pub rope_scale: F32,
    /// The number of the layer among those with full attention.
    pub layer_id: usize,
    /// To the queries and the gates of all heads.
    pub q_proj: LoraLinear,
    pub k_proj: LoraLinear,
    pub v_proj: LoraLinear,
    pub o_proj: LoraLinear,
    /// Over the features of a head.
    pub q_norm: RmsNorm,
    /// Over the features of a head.
    pub k_norm: RmsNorm,
}

impl Qwen3NextLoraAttention {
    /// No extent is negative.
    pub open spec fn buildable(config: Qwen3NextConfig) -> bool {
        &&& config.hidden_size >= 0
        &&& config.num_attention_heads * config.head_size() >= 0
        &&& config.kv_heads() * config.head_size() >= 0
    }

    /// The layer of a fresh model.
    pub open spec fn fresh(
        config: Qwen3NextConfig,
        lora: LoraConfig,
        layer_id: usize,
    ) -> Qwen3NextLoraAttention {
        let d = config.head_size();
        let h = config.hidden_size;
        let q = (config.num_attention_heads * d) as i32;
        let q2 = (config.num_attention_heads * d * 2) as i32;
        let kv = (config.kv_heads() * d) as i32;
        let rs = lora.use_rslora;
        Qwen3NextLoraAttention {
            n_heads: config.num_attention_heads,
            n_kv_heads: config.kv_heads(),
            head_dim: d,
            scale: Scale::InverseSqrt { n: d },
            rope_dims: config.rope_dims,
            effective_base: config.effective_base,
            rope_scale: config.rope_scale,
            layer_id,
            q_proj: LoraLinear::fresh(h, q2, lora.rank_of(Proj::Q), lora.alpha, rs, false),
            k_proj: LoraLinear::fresh(h, kv, lora.rank_of(Proj::K), lora.alpha, rs, false),
            v_proj: LoraLinear::fresh(h, kv, lora.rank_of(Proj::V), lora.alpha, rs, false),
            o_proj: LoraLinear::fresh(q, h, lora.rank_of(Proj::O), lora.alpha, rs, false),
            q_norm: RmsNorm::fresh(d, config.rms_norm_eps),
            k_norm: RmsNorm::fresh(d, config.rms_norm_eps),
        }
    }

    pub open spec fn rope(self) -> RopeConfig {
        RopeConfig { dims: self.rope_dims, base: self.effective_base, scale: self.rope_scale }
    }

    /// The width of all query heads.
    pub open spec fn width(self) -> int {
        self.n_heads * self.head_dim
    }

    /// The widths fit machine integers, and there are key heads.
    pub open spec fn ready(self) -> bool {
        &&& i32::MIN <= self.width() <= i32::MAX
        &&& i32::MIN <= self.head_dim * 2 <= i32::MAX
        &&& self.n_kv_heads > 0
    }

    /// Queries and gates, head by head.
    pub open spec fn doubled(self, x: Array) -> Array {
        reshape(
            self.q_proj.output(x),
            Shape::D4(
                x.shape.outer(),
                x.shape.second(),
                self.n_heads,
                (self.head_dim * 2) as i32,
            ),
        )
    }

    pub open spec fn queries(self, x: Array) -> Array {
        swap_middle(self.q_norm.output(first_part(self.doubled(x), self.head_dim)))
    }

    pub open spec fn gate(self, x: Array) -> Array {
        reshape(
            last_part(self.doubled(x), self.head_dim),
            Shape::D3(x.shape.outer(), x.shape.second(), self.width() as i32),
        )
    }

    pub open spec fn keys(self, x: Array) -> Array {
        swap_middle(
            self.k_norm.output(
                reshape(
                    self.k_proj.output(x),
                    Shape::D4(x.shape.outer(), x.shape.second(), self.n_kv_heads, self.head_dim),
                ),
            ),
        )
    }

    pub open spec fn values(self, x: Array) -> Array {
        split_heads(
            self.v_proj.output(x),
            x.shape.outer(),
            x.shape.second(),
            self.n_kv_heads,
            self.head_dim,
        )
    }

    /// Mixed values, gated and projected.
    pub open spec fn finish(self, x: Array, mixed: Array) -> Array {
        self.o_proj.output(
            times(
                merge_heads_to(mixed, x.shape.outer(), x.shape.second(), self.width() as i32),
                apply(Function::Sigmoid, self.gate(x)),
            ),
        )
    }

    /// Causal.
    pub open spec fn fused_config(self) -> FusedAttentionConfig {
        FusedAttentionConfig {
            num_heads: self.n_heads,
            num_kv_heads: self.n_kv_heads,
            head_dim: self.head_dim,
            scale: self.scale,
            mask_type: AttentionMaskType::Causal,
        }
    }

    /// Attention over the input alone. In training, long inputs go through the kernel that
    /// saves memory, which takes no mask but the causal one.
    pub open spec fn output(self, x: Array, mask: Option<Array>, training: bool) -> Array {
        let q = rope(self.queries(x), self.rope(), 0);
        let k = rope(self.keys(x), self.rope(), 0);
        let v = self.values(x);
        self.finish(
            x,
            if training && x.shape.second() >= FLASH_ATTENTION_SEQ_THRESHOLD {
                flash_attend(self.layer_id, q, k, v, self.fused_config())
            } else {
                plain_attention(
                    q,
                    match_heads(k, self.n_heads, self.n_kv_heads),
                    match_heads(v, self.n_heads, self.n_kv_heads),
                    self.scale,
                    mask,
                )
            },
        )
    }

    /// Fused attention over the input alone.
    pub open spec fn fused_output(self, x: Array, mask: Option<Array>) -> Array {
        self.finish(
            x,
            attend(
                rope(self.queries(x), self.rope(), 0),
                rope(self.keys(x), self.rope(), 0),
                self.values(x),
                self.fused_config(),
                mask,
            ),
        )
    }

    /// Fused attention over what the cache holds and the input, and the cache behind it. An
    /// input that does not fit leaves the cache as it is.
    pub open spec fn cached_output(
        self,
        x: Array,
        mask: Option<Array>,
        cache: KVCacheState,
        layer: int,
    ) -> (Array, KVCacheState) {
        let q = rope(self.queries(x), self.rope(), cache.offset);
        let k = rope(self.keys(x), self.rope(), cache.offset);
        let v = self.values(x);
        if q.fits && self.gate(x).fits && k.fits && v.fits && cache.accepts(layer, k, v) {
            let both = cache.joined(layer, k, v);
            (
                self.finish(x, attend(q, both.0, both.1, self.fused_config(), mask)),
                cache.extended(layer, k, v),
            )
        } else {
            (unfit(x), cache)
        }
    }

    pub open spec fn trainable(self) -> nat {
        self.q_proj.trainable() + self.k_proj.trainable() + self.v_proj.trainable()
            + self.o_proj.trainable()
    }

    pub open spec fn countable(self) -> bool {
        self.q_proj.countable() && self.k_proj.countable() && self.v_proj.countable()
            && self.o_proj.countable()
    }

    /// A fresh layer with the next number. Refused where an extent is negative.
    pub fn new(
        config: &Qwen3NextConfig,
        lora_config: &LoraConfig,
        ids: &mut LayerIds,
    ) -> (r: Result<
        Qwen3NextLoraAttention,
        LoraError,
    >)
        requires
            config.valid(),
            lora_config.valid(),
            old(ids).next < usize::MAX,
        ensures
            final(ids).next == old(ids).next + 1,
            match r {
                Ok(a) => Qwen3NextLoraAttention::buildable(*config)
                    && a == Qwen3NextLoraAttention::fresh(*config, *lora_config, old(ids).next),
                Err(e) => e is Mlx && !Qwen3NextLoraAttention::buildable(*config),
            },
    {
        let layer_id = ids.take();
        let n_heads = config.num_attention_heads;
        let n_kv_heads = config.get_num_kv_heads();
        let head_dim = config.get_head_dim();
        let hidden = config.hidden_size;
        let alpha = lora_config.alpha;
        let rs = lora_config.use_rslora;
        let q: i32 = n_heads * head_dim;
        let q2: i32 = q * 2;
        let kv: i32 = n_kv_heads * head_dim;
        match (
            LoraLinear::new(hidden, q2, effective_rank(lora_config, Proj::Q), alpha, rs, false),
            LoraLinear::new(hidden, kv, effective_rank(lora_config, Proj::K), alpha, rs, false),
            LoraLinear::new(hidden, kv, effective_rank(lora_config, Proj::V), alpha, rs, false),
            LoraLinear::new(q, hidden, effective_rank(lora_config, Proj::O), alpha, rs, false),
        ) {
            (Ok(q_proj), Ok(k_proj), Ok(v_proj), Ok(o_proj)) => Ok(
                Qwen3NextLoraAttention {
                    n_heads,
                    n_kv_heads,
                    head_dim,
                    scale: Scale::InverseSqrt { n: head_dim },
                    rope_dims: config.rope_dims,
                    effective_base: config.effective_base,
                    rope_scale: config.rope_scale,
                    layer_id,
                    q_proj,
                    k_proj,
                    v_proj,
                    o_proj,
                    q_norm: RmsNorm::new(head_dim, config.rms_norm_eps),
                    k_norm: RmsNorm::new(head_dim, config.rms_norm_eps),
                },
            ),
            _ => Err(misfit()),
        }
    }

    /// Queries, gate, keys and values, before any rotation.
    fn run_parts(&self, x: &Array) -> (r: (Array, Array, Array, Array))
        requires
            x.shape.rank() >= 2,
            self.ready(),
        ensures
            r == (self.queries(*x), self.gate(*x), self.keys(*x), self.values(*x)),
    {
        let (batch, length) = x.shape.outer_two();
        let double: i32 = self.head_dim * 2;
        let doubled = self.q_proj.run(x).reshape(Shape::D4(batch, length, self.n_heads, double));
        let queries = self.q_norm.run(&make_first_part(&doubled, self.head_dim)).swap_middle();
        let width: i32 = self.n_heads * self.head_dim;
        let gate = make_last_part(&doubled, self.head_dim).reshape(
            Shape::D3(batch, length, width),
        );
        let heads = self.k_proj.run(x).reshape(
            Shape::D4(batch, length, self.n_kv_heads, self.head_dim),
        );
        let keys = self.k_norm.run(&heads).swap_middle();
        let values = make_split_heads(
            &self.v_proj.run(x),
            batch,
            length,
            self.n_kv_heads,
            self.head_dim,
        );
        (queries, gate, keys, values)
    }

    fn run_finish(&self, x: &Array, gate: &Array, mixed: &Array) -> (r: Array)
        requires
            x.shape.rank() >= 2,
            self.ready(),
            *gate == self.gate(*x),
        ensures
            r == self.finish(*x, *mixed),
    {
        let (batch, length) = x.shape.outer_two();
        let width: i32 = self.n_heads * self.head_dim;
        let merged = make_merge_heads_to(mixed, batch, length, width);
        self.o_proj.run(&merged.multiply(&gate.apply(Function::Sigmoid)))
    }

    fn make_rope(&self) -> (r: RopeConfig)
        ensures
            r == self.rope(),
    {
        RopeConfig { dims: self.rope_dims, base: self.effective_base, scale: self.rope_scale }
    }

    fn make_fused_config(&self) -> (r: FusedAttentionConfig)
        ensures
            r == self.fused_config(),
    {
        FusedAttentionConfig {
            num_heads: self.n_heads,
            num_kv_heads: self.n_kv_heads,
            head_dim: self.head_dim,
            scale: self.scale,
            mask_type: AttentionMaskType::Causal,
        }
    }

    pub(crate) fn run(&self, x: &Array, mask: Option<&Array>, training: bool) -> (r: Array)
        requires
            x.shape.rank() >= 2,
            self.ready(),
        ensures
            r == self.output(*x, given(mask), training),
    {
        let (_, length) = x.shape.outer_two();
        let (q, gate, k, v) = self.run_parts(x);
        let q = q.rope(self.make_rope(), 0);
        let k = k.rope(self.make_rope(), 0);
        let mixed = if training && length >= FLASH_ATTENTION_SEQ_THRESHOLD {
            q.flash_attend(self.layer_id, &k, &v, self.make_fused_config())
        } else {
            make_plain_attention(
                &q,
                &make_match_heads(&k, self.n_heads, self.n_kv_heads),
                &make_match_heads(&v, self.n_heads, self.n_kv_heads),
                self.scale,
                mask,
            )
        };
        self.run_finish(x, &gate, &mixed)
    }

    pub(crate) fn run_fused(&self, x: &Array, mask: Option<&Array>) -> (r: Array)
        requires
            x.shape.rank() >= 2,
            self.ready(),
        ensures
            r == self.fused_output(*x, given(mask)),
    {
        let (q, gate, k, v) = self.run_parts(x);
        let q = q.rope(self.make_rope(), 0);
        let k = k.rope(self.make_rope(), 0);
        let mixed = q.attend(&k, &v, self.make_fused_config(), mask);
        self.run_finish(x, &gate, &mixed)
    }

    pub(crate) fn run_cached(
        &self,
        x: &Array,
        mask: Option<&Array>,
        cache: &mut KVCache,
        layer: usize,
    ) -> (r: Array)
        requires
            x.shape.rank() >= 2,
            self.ready(),
        ensures
            (r, final(cache)@) == self.cached_output(*x, given(mask), old(cache)@, layer as int),
    {
        let offset = cache.rope_offset();
        let (q, gate, k, v) = self.run_parts(x);
        let q = q.rope(self.make_rope(), offset);
        let k = k.rope(self.make_rope(), offset);
        if q.fits && gate.fits && k.fits && v.fits {
            match cache.update_and_fetch(layer, &k, &v) {
                Ok((keys, values)) => {
                    let mixed = q.attend(&keys, &values, self.make_fused_config(), mask);
                    self.run_finish(x, &gate, &mixed)
                },
                Err(_) => make_unfit(x),
            }
        } else {
            make_unfit(x)
        }
    }

    /// Attention over the input alone. `training` says whether a training run is under way.
    pub fn forward(&self, x: &Array, mask: Option<&Array>, training: bool) -> (r: Result<
        Array,
        LoraError,
    >)
        requires
            x.shape.rank() >= 2,
            self.ready(),
        ensures
            outcome(r, self.output(*x, given(mask), training)),
    {
        checked(self.run(x, mask, training))
    }

    /// Fused attention over what the cache holds for the layer and the input.
    pub fn forward_with_cache(
        &self,
        x: &Array,
        mask: Option<&Array>,
        cache: Option<(&mut KVCache, usize)>,
    ) -> (r: Result<Array, LoraError>)
        requires
            x.shape.rank() >= 2,
            self.ready(),
        ensures
            match cache {
                Some(c) => {
                    let end = self.cached_output(*x, given(mask), c.0@, c.1 as int);
                    outcome(r, end.0) && final(c.0)@ == end.1
                },
                None => outcome(r, self.fused_output(*x, given(mask))),
            },
    {
        match cache {
            Some((c, layer)) => checked(self.run_cached(x, mask, c, layer)),
            None => checked(self.run_fused(x, mask)),
        }
    }

    /// The number of trainable elements.
    pub fn num_trainable_params(&self) -> (r: usize)
        requires
            self.countable(),
            self.trainable() <= usize::MAX,
        ensures
            r == self.trainable(),
    {
        self.q_proj.num_trainable_params() + self.k_proj.num_trainable_params()
            + self.v_proj.num_trainable_params() + self.o_proj.num_trainable_params()
    }
}

/// A normalization whose output passes a gate.
#[derive(Debug)]
pub struct Qwen3NextRMSNormGated {
    pub weight: Array,
    pub eps: F32,
}

impl Qwen3NextRMSNormGated {
    pub open spec fn fresh(n: i32, eps: F32) -> Qwen3NextRMSNormGated {
        Qwen3NextRMSNormGated { weight: source(Source::Ones, Shape::D1(n)), eps }
    }

    /// Normalized, times the SiLU of its gate.
    pub open spec fn output(self, x: Array, gate: Array) -> Array {
        gated(gate, rms_norm(x, self.weight, self.eps))
    }

    pub fn new(n: i32, eps: F32) -> (r: Qwen3NextRMSNormGated)
        ensures
            r == Qwen3NextRMSNormGated::fresh(n, eps),
    {
        Qwen3NextRMSNormGated { weight: Array::from_source(Source::Ones, Shape::D1(n)), eps }
    }

    fn run(&self, x: &Array, gate: &Array) -> (r: Array)
        ensures
            r == self.output(*x, *gate),
    {
        make_gated(gate, &x.rms_norm(&self.weight, self.eps))
    }
}

/// The part from the cut on along the second axis of at least two, where the cut leaves `n`.
pub open spec fn last_steps(x: Array, n: int) -> Array {
    if x.shape.rank() < 2 {
        unfit(x)
    } else {
        let depth = (x.shape.rank() - 2) as u8;
        let end = extent_at(x.shape, depth);
        if i32::MIN <= end - n <= i32::MAX {
            slice(x, depth, cut((end - n) as i32, end), end)
        } else {
            unfit(x)
        }
    }
}

fn make_last_steps(x: &Array, n: i32) -> (r: Array)
    ensures
        r == last_steps(*x, n as int),
{
    let rank = x.shape.num_axes();
    if rank < 2 {
        return make_unfit(x);
    }
    let depth: u8 = (rank - 2) as u8;
    let end: i32 = extent(&x.shape, depth);
    let from: i64 = end as i64 - n as i64;
    if from < i32::MIN as i64 || from > i32::MAX as i64 {
        return make_unfit(x);
    }
    x.slice(depth, find_cut(from as i32, end), end)
}

/// The bits of `1e-6`.
pub const NORM_EPS_BITS: u32 = 0x3586_37bd;

/// The bits of `1e-8`.
pub const LEAST_SUM_BITS: u32 = 0x322b_cc77;

/// The bits of `16.0`.
pub const SIXTEEN_BITS: u32 = 0x4180_0000;

/// Linear attention by a gated delta rule, with adapters on its projections of the input to
/// queries, keys and values, to the output's gate, and of the output.
#[derive(Debug)]
pub struct Qwen3NextLoraGDN {
    pub conv1d: Conv1d,
    pub in_proj_b: Linear,
    pub in_proj_a: Linear,
    pub norm: Qwen3NextRMSNormGated,
    pub dt_bias: Array,
    pub a_log: Array,
    pub in_proj_qkv: LoraLinear,
    pub in_proj_z: LoraLinear,
    pub out_proj: LoraLinear,
    pub hidden_size: i32,
    pub num_v_heads: i32,
    pub num_k_heads: i32,
    pub head_k_dim: i32,
    pub head_v_dim: i32,
    pub key_dim: i32,
    pub value_dim: i32,
    pub conv_dim: i32,
    pub conv_kernel_size: i32,
}

impl Qwen3NextLoraGDN {
    /// No extent is negative.
    pub open spec fn buildable(config: Qwen3NextConfig) -> bool {
        &&& config.hidden_size >= 0
        &&& config.value_dim() >= 0
        &&& config.conv_dim() >= 0
        &&& config.linear_num_value_heads >= 0
        &&& config.linear_value_head_dim >= 0
        &&& config.linear_conv_kernel_dim >= 0
    }

    /// The layer of a fresh model.
    pub open spec fn fresh(config: Qwen3NextConfig, lora: LoraConfig) -> Qwen3NextLoraGDN {
        let h = config.hidden_size;
        let n = config.linear_num_value_heads;
        let k = config.linear_conv_kernel_dim;
        let value = config.value_dim() as i32;
        let conv = config.conv_dim() as i32;
        let rs = lora.use_rslora;
        Qwen3NextLoraGDN {
            conv1d: Conv1d { weight: initial_linear(Shape::D3(conv, k, 1), k), bias: None },
            in_proj_b: Linear::fresh(h, n, false),
            in_proj_a: Linear::fresh(h, n, false),
            norm: Qwen3NextRMSNormGated::fresh(config.linear_value_head_dim, config.rms_norm_eps),
            dt_bias: source(Source::Ones, Shape::D1(n)),
            a_log: apply(
                Function::Log,
                source(
                    Source::UniformBetween {
                        low: F32 { bits: 0 },
                        high: F32 { bits: SIXTEEN_BITS },
                    },
                    Shape::D1(n),
                ),
            ),
            in_proj_qkv: LoraLinear::fresh(
                h,
                conv,
                lora.rank_of(Proj::InQkv),
                lora.alpha,
                rs,
                false,
            ),
            in_proj_z: LoraLinear::fresh(h, value, lora.rank_of(Proj::InZ), lora.alpha, rs, false),
            out_proj: LoraLinear::fresh(value, h, lora.rank_of(Proj::Out), lora.alpha, rs, false),
            hidden_size: h,
            num_v_heads: n,
            num_k_heads: config.linear_num_key_heads,
            head_k_dim: config.linear_key_head_dim,
            head_v_dim: config.linear_value_head_dim,
            key_dim: config.key_dim() as i32,
            value_dim: value,
            conv_dim: conv,
            conv_kernel_size: k,
        }
    }

    /// The convolution has a kernel, and twice the width of the keys fits a machine integer.
    pub open spec fn ready(self) -> bool {
        self.conv_kernel_size >= 1 && i32::MIN <= self.key_dim * 2 <= i32::MAX
    }

    /// Queries, keys and values side by side, where the mask lets them through.
    pub open spec fn qkv(self, x: Array, mask: Option<Array>) -> Array {
        let all = self.in_proj_qkv.output(x);
        match mask {
            Some(m) => keep_where(
                reshape(m, Shape::D3(m.shape.outer(), m.shape.second(), 1)),
                all,
            ),
            None => all,
        }
    }

    /// What gates the output.
    pub open spec fn z(self, x: Array) -> Array {
        reshape(
            self.in_proj_z.output(x),
            Shape::D4(x.shape.outer(), x.shape.second(), self.num_v_heads, self.head_v_dim),
        )
    }

    /// The steps before the input that the convolution sees: zeros at the start of a sequence.
    pub open spec fn conv_state(self, x: Array, state: Option<MambaCacheEntry>) -> Array {
        let zeros = source(
            Source::Zeros,
            Shape::D3(x.shape.outer(), (self.conv_kernel_size - 1) as i32, self.conv_dim),
        );
        match state {
            Some(e) => match e.conv_state {
                Some(c) => c,
                None => zeros,
            },
            None => zeros,
        }
    }

    /// What the convolution sees.
    pub open spec fn conv_input(
        self,
        x: Array,
        mask: Option<Array>,
        state: Option<MambaCacheEntry>,
    ) -> Array {
        concat(self.conv_state(x, state), self.qkv(x, mask), 1)
    }

    /// What the convolution gives.
    pub open spec fn conv_out(
        self,
        x: Array,
        mask: Option<Array>,
        state: Option<MambaCacheEntry>,
    ) -> Array {
        apply(
            Function::Silu,
            conv1d(
                self.conv_input(x, mask, state),
                self.conv1d.weight,
                self.conv1d.bias,
                self.conv_dim,
            ),
        )
    }

    /// The queries: the first channels, of the steps of the input, normalized and scaled.
    pub open spec fn queries(self, x: Array, conv: Array) -> Array {
        let q = reshape(
            last_steps(first_part(conv, self.key_dim), x.shape.second() as int),
            Shape::D4(x.shape.outer(), x.shape.second(), self.num_k_heads, self.head_k_dim),
        );
        apply(
            Function::Scaled(Scale::InverseSqrtSquared { n: self.head_k_dim }),
            rms_norm(
                q,
                source(Source::Ones, Shape::D1(self.head_k_dim)),
                F32 { bits: NORM_EPS_BITS },
            ),
        )
    }

    /// The keys: the channels behind those, of the steps of the input, normalized and scaled.
    pub open spec fn keys(self, x: Array, conv: Array) -> Array {
        let k = reshape(
            last_steps(
                middle_part(conv, self.key_dim, (self.key_dim * 2) as i32),
                x.shape.second() as int,
            ),
            Shape::D4(x.shape.outer(), x.shape.second(), self.num_k_heads, self.head_k_dim),
        );
        apply(
            Function::Scaled(Scale::InverseSqrt { n: self.head_k_dim }),
            rms_norm(
                k,
                source(Source::Ones, Shape::D1(self.head_k_dim)),
                F32 { bits: NORM_EPS_BITS },
            ),
        )
    }

    /// The values: the channels behind those, of the steps of the input.
    pub open spec fn values(self, x: Array, conv: Array) -> Array {
        reshape(
            last_steps(last_part(conv, (self.key_dim * 2) as i32), x.shape.second() as int),
            Shape::D4(x.shape.outer(), x.shape.second(), self.num_v_heads, self.head_v_dim),
        )
    }

    /// The state of the recurrence, where one is kept.
    pub open spec fn ssm_state(state: Option<MambaCacheEntry>) -> Option<Array> {
        match state {
            Some(e) => e.ssm_state,
            None => None,
        }
    }

    /// The outputs of the recurrence.
    pub open spec fn recurrence(
        self,
        x: Array,
        mask: Option<Array>,
        state: Option<MambaCacheEntry>,
    ) -> Array {
        let conv = self.conv_out(x, mask, state);
        gated_delta(
            self.queries(x, conv),
            self.keys(x, conv),
            self.values(x, conv),
            self.in_proj_a.output(x),
            self.in_proj_b.output(x),
            self.a_log,
            self.dt_bias,
            Qwen3NextLoraGDN::ssm_state(state),
            mask,
            state is None,
        )
    }

    /// The state behind the recurrence.
    pub open spec fn state_behind(
        self,
        x: Array,
        mask: Option<Array>,
        state: Option<MambaCacheEntry>,
    ) -> Array {
        let conv = self.conv_out(x, mask, state);
        gated_delta_state(
            self.queries(x, conv),
            self.keys(x, conv),
            self.values(x, conv),
            self.in_proj_a.output(x),
            self.in_proj_b.output(x),
            self.a_log,
            self.dt_bias,
            Qwen3NextLoraGDN::ssm_state(state),
            mask,
            state is None,
        )
    }

    /// The layer's output. Without a state to go on from, a training run is under way.
    pub open spec fn output(
        self,
        x: Array,
        mask: Option<Array>,
        state: Option<MambaCacheEntry>,
    ) -> Array {
        self.out_proj.output(
            reshape_rest(
                self.norm.output(self.recurrence(x, mask, state), self.z(x)),
                x.shape.outer(),
                x.shape.second(),
            ),
        )
    }

    /// What is kept behind the input: the last steps that the convolution saw, and the state of
    /// the recurrence. What does not fit leaves the state as it is.
    pub open spec fn after(
        self,
        x: Array,
        mask: Option<Array>,
        state: MambaCacheEntry,
    ) -> MambaCacheEntry {
        let input = self.conv_input(x, mask, Some(state));
        let projected = self.z(x).fits && self.in_proj_b.output(x).fits && self.in_proj_a.output(
            x,
        ).fits;
        let behind = self.state_behind(x, mask, Some(state));
        MambaCacheEntry {
            conv_state: if projected && input.fits {
                Some(last_steps(input, self.conv_kernel_size - 1))
            } else {
                state.conv_state
            },
            ssm_state: if projected && behind.fits {
                Some(behind)
            } else {
                state.ssm_state
            },
        }
    }

    pub open spec fn trainable(self) -> nat {
        self.in_proj_qkv.trainable() + self.in_proj_z.trainable() + self.out_proj.trainable()
    }

    pub open spec fn countable(self) -> bool {
        self.in_proj_qkv.countable() && self.in_proj_z.countable() && self.out_proj.countable()
    }

    /// A fresh layer. Refused where an extent is negative.
    pub fn new(config: &Qwen3NextConfig, lora_config: &LoraConfig) -> (r: Result<
        Qwen3NextLoraGDN,
        LoraError,
    >)
        requires
            config.valid(),
            lora_config.valid(),
        ensures
            match r {
                Ok(g) => Qwen3NextLoraGDN::buildable(*config) && g == Qwen3NextLoraGDN::fresh(
                    *config,
                    *lora_config,
                ),
                Err(e) => e is Mlx && !Qwen3NextLoraGDN::buildable(*config),
            },
    {
        let h: i32 = config.hidden_size;
        let n: i32 = config.linear_num_value_heads;
        let k: i32 = config.linear_conv_kernel_dim;
        let key_dim: i32 = config.linear_key_head_dim * config.linear_num_key_heads;
        let value_dim: i32 = config.linear_value_head_dim * n;
        let conv_dim: i32 = key_dim * 2 + value_dim;
        if conv_dim < 0 || n < 0 || config.linear_value_head_dim < 0 || k < 0 {
            return Err(misfit());
        }
        let alpha = lora_config.alpha;
        let rs = lora_config.use_rslora;
        match (
            LoraLinear::new(
                h,
                conv_dim,
                effective_rank(lora_config, Proj::InQkv),
                alpha,
                rs,
                false,
            ),
            LoraLinear::new(
                h,
                value_dim,
                effective_rank(lora_config, Proj::InZ),
                alpha,
                rs,
                false,
            ),
            LoraLinear::new(
                value_dim,
                h,
                effective_rank(lora_config, Proj::Out),
                alpha,
                rs,
                false,
            ),
        ) {
            (Ok(in_proj_qkv), Ok(in_proj_z), Ok(out_proj)) => Ok(
                Qwen3NextLoraGDN {
                    conv1d: Conv1d {
                        weight: Array::from_source(
                            Source::UniformInverseSqrt { n: k },
                            Shape::D3(conv_dim, k, 1),
                        ),
                        bias: None,
                    },
                    in_proj_b: Linear::new(h, n, false),
                    in_proj_a: Linear::new(h, n, false),
                    norm: Qwen3NextRMSNormGated::new(
                        config.linear_value_head_dim,
                        config.rms_norm_eps,
                    ),
                    dt_bias: Array::from_source(Source::Ones, Shape::D1(n)),
                    a_log: Array::from_source(
                        Source::UniformBetween {
                            low: F32 { bits: 0 },
                            high: F32 { bits: SIXTEEN_BITS },
                        },
                        Shape::D1(n),
                    ).apply(Function::Log),
                    in_proj_qkv,
                    in_proj_z,
                    out_proj,
                    hidden_size: h,
                    num_v_heads: n,
                    num_k_heads: config.linear_num_key_heads,
                    head_k_dim: config.linear_key_head_dim,
                    head_v_dim: config.linear_value_head_dim,
                    key_dim,
                    value_dim,
                    conv_dim,
                    conv_kernel_size: k,
                },
            ),
            _ => Err(misfit()),
        }
    }

    fn run_qkv(&self, x: &Array, mask: Option<&Array>) -> (r: Array)
        requires
            mask matches Some(m) ==> m.shape.rank() >= 2,
        ensures
            r == self.qkv(*x, given(mask)),
    {
        let all = self.in_proj_qkv.run(x);
        match mask {
            Some(m) => {
                let (rows, columns) = m.shape.outer_two();
                make_keep_where(&m.reshape(Shape::D3(rows, columns, 1)), &all)
            },
            None => all,
        }
    }

    fn run_queries(&self, x: &Array, conv: &Array) -> (r: Array)
        requires
            x.shape.rank() >= 2,
        ensures
            r == self.queries(*x, *conv),
    {
        let (b, s) = x.shape.outer_two();
        let ones = Array::from_source(Source::Ones, Shape::D1(self.head_k_dim));
        make_last_steps(&make_first_part(conv, self.key_dim), s).reshape(
            Shape::D4(b, s, self.num_k_heads, self.head_k_dim),
        ).rms_norm(&ones, F32 { bits: NORM_EPS_BITS }).apply(
            Function::Scaled(Scale::InverseSqrtSquared { n: self.head_k_dim }),
        )
    }

    fn run_keys(&self, x: &Array, conv: &Array) -> (r: Array)
        requires
            x.shape.rank() >= 2,
            self.ready(),
        ensures
            r == self.keys(*x, *conv),
    {
        let (b, s) = x.shape.outer_two();
        let ones = Array::from_source(Source::Ones, Shape::D1(self.head_k_dim));
        let double: i32 = self.key_dim * 2;
        make_last_steps(&make_middle_part(conv, self.key_dim, double), s).reshape(
            Shape::D4(b, s, self.num_k_heads, self.head_k_dim),
        ).rms_norm(&ones, F32 { bits: NORM_EPS_BITS }).apply(
            Function::Scaled(Scale::InverseSqrt { n: self.head_k_dim }),
        )
    }

    fn run_values(&self, x: &Array, conv: &Array) -> (r: Array)
        requires
            x.shape.rank() >= 2,
            self.ready(),
        ensures
            r == self.values(*x, *conv),
    {
        let (b, s) = x.shape.outer_two();
        let double: i32 = self.key_dim * 2;
        make_last_steps(&make_last_part(conv, double), s).reshape(
            Shape::D4(b, s, self.num_v_heads, self.head_v_dim),
        )
    }

    /// The output, what the convolution saw, and the state behind the recurrence.
    fn run_all(
        &self,
        x: &Array,
        mask: Option<&Array>,
        conv_state: Option<&Array>,
        ssm_state: Option<&Array>,
        training: bool,
        Ghost(state): Ghost<Option<MambaCacheEntry>>,
    ) -> (r: (Array, Array, Array))
        requires
            x.shape.rank() >= 2,
            self.ready(),
            mask matches Some(m) ==> m.shape.rank() >= 2,
            training == (state is None),
            given(ssm_state) == Qwen3NextLoraGDN::ssm_state(state),
            state matches Some(e) ==> given(conv_state) == e.conv_state,
            state is None ==> conv_state is None,
        ensures
            r.0 == self.output(*x, given(mask), state),
            r.1 == self.conv_input(*x, given(mask), state),
            r.2 == self.state_behind(*x, given(mask), state),
    {
        let (b, s) = x.shape.outer_two();
        let qkv = self.run_qkv(x, mask);
        let z = self.in_proj_z.run(x).reshape(Shape::D4(b, s, self.num_v_heads, self.head_v_dim));
        let before = match conv_state {
            Some(c) => c.clone(),
            None => Array::from_source(
                Source::Zeros,
                Shape::D3(b, self.conv_kernel_size - 1, self.conv_dim),
            ),
        };
        let input = before.concat(&qkv, 1);
        let conv = match &self.conv1d.bias {
            Some(c) => make_conv1d(&input, &self.conv1d.weight, Some(c), self.conv_dim),
            None => make_conv1d(&input, &self.conv1d.weight, None, self.conv_dim),
        };
        let conv = conv.apply(Function::Silu);
        let (out, behind) = make_gated_delta(
            &self.run_queries(x, &conv),
            &self.run_keys(x, &conv),
            &self.run_values(x, &conv),
            &self.in_proj_a.run(x),
            &self.in_proj_b.run(x),
            &self.a_log,
            &self.dt_bias,
            ssm_state,
            mask,
            training,
        );
        let y = self.out_proj.run(&self.norm.run(&out, &z).reshape_rest(b, s));
        (y, input, behind)
    }

    pub(crate) fn run(
        &self,
        x: &Array,
        mask: Option<&Array>,
        cache: Option<&mut MambaCacheEntry>,
    ) -> (r:
        Array)
        requires
            x.shape.rank() >= 2,
            self.ready(),
            mask matches Some(m) ==> m.shape.rank() >= 2,
        ensures
            match cache {
                Some(c) => {
                    &&& r == self.output(*x, given(mask), Some(*c))
                    &&& *final(c) == self.after(*x, given(mask), *c)
                },
                None => r == self.output(*x, given(mask), None),
            },
    {
        match cache {
            Some(c) => {
                let ghost state = Some(*c);
                let conv_state = match &c.conv_state {
                    Some(s) => Some(s),
                    None => None,
                };
                let ssm_state = match &c.ssm_state {
                    Some(s) => Some(s),
                    None => None,
                };
                let (y, input, behind) = self.run_all(
                    x,
                    mask,
                    conv_state,
                    ssm_state,
                    false,
                    Ghost(state),
                );
                let (b, s) = x.shape.outer_two();
                let z = self.in_proj_z.run(x).reshape(
                    Shape::D4(b, s, self.num_v_heads, self.head_v_dim),
                );
                if z.fits && self.in_proj_b.run(x).fits && self.in_proj_a.run(x).fits {
                    if input.fits {
                        c.conv_state = Some(make_last_steps(&input, self.conv_kernel_size - 1));
                    }
                    if behind.fits {
                        c.ssm_state = Some(behind);
                    }
                }
                y
            },
            None => self.run_all(x, mask, None, None, true, Ghost(None)).0,
        }
    }

    /// The layer's output, going on from what the cache holds.
    pub fn forward(
        &self,
        inputs: &Array,
        mask: Option<&Array>,
        cache: Option<&mut MambaCacheEntry>,
    ) -> (r: Result<Array, LoraError>)
        requires
            inputs.shape.rank() >= 2,
            self.ready(),
            mask matches Some(m) ==> m.shape.rank() >= 2,
        ensures
            match cache {
                Some(c) => {
                    &&& outcome(r, self.output(*inputs, given(mask), Some(*c)))
                    &&& *final(c) == self.after(*inputs, given(mask), *c)
                },
                None => outcome(r, self.output(*inputs, given(mask), None)),
            },
    {
        checked(self.run(inputs, mask, cache))
    }

    /// The number of trainable elements.
    pub fn num_trainable_params(&self) -> (r: usize)
        requires
            self.countable(),
            self.trainable() <= usize::MAX,
        ensures
            r == self.trainable(),
    {
        self.in_proj_qkv.num_trainable_params() + self.in_proj_z.num_trainable_params()
            + self.out_proj.num_trainable_params()
    }
}

/// SwiGLU MLP with adapters on its three projections.
#[derive(Debug)]
pub struct Qwen3NextLoraMLP {
    pub gate_proj: LoraLinear,
    pub up_proj: LoraLinear,
    pub down_proj: LoraLinear,
}

impl Qwen3NextLoraMLP {
    /// The layer of a fresh model.
    pub open spec fn fresh(dim: i32, hidden_dim: i32, lora: LoraConfig) -> Qwen3NextLoraMLP {
        let rs = lora.use_rslora;
        Qwen3NextLoraMLP {
            gate_proj: LoraLinear::fresh(
                dim,
                hidden_dim,
                lora.rank_of(Proj::Gate),
                lora.alpha,
                rs,
                false,
            ),
            up_proj: LoraLinear::fresh(
                dim,
                hidden_dim,
                lora.rank_of(Proj::Up),
                lora.alpha,
                rs,
                false,
            ),
            down_proj: LoraLinear::fresh(
                hidden_dim,
                dim,
                lora.rank_of(Proj::Down),
                lora.alpha,
                rs,
                false,
            ),
        }
    }

    pub open spec fn output(self, x: Array) -> Array {
        self.down_proj.output(gated(self.gate_proj.output(x), self.up_proj.output(x)))
    }

    pub open spec fn trainable(self) -> nat {
        self.gate_proj.trainable() + self.up_proj.trainable() + self.down_proj.trainable()
    }

    pub open spec fn countable(self) -> bool {
        self.gate_proj.countable() && self.up_proj.countable() && self.down_proj.countable()
    }

    /// A fresh layer. Refused where an extent is negative.
    pub fn new(
        dim: i32,
        hidden_dim: i32,
        lora_config: &LoraConfig,
    ) -> (r: Result<Qwen3NextLoraMLP, LoraError>)
        requires
            lora_config.valid(),
        ensures
            match r {
                Ok(m) => dim >= 0 && hidden_dim >= 0 && m == Qwen3NextLoraMLP::fresh(
                    dim,
                    hidden_dim,
                    *lora_config,
                ),
                Err(e) => e is Mlx && !(dim >= 0 && hidden_dim >= 0),
            },
    {
        let alpha = lora_config.alpha;
        let rs = lora_config.use_rslora;
        match (
            LoraLinear::new(
                dim,
                hidden_dim,
                effective_rank(lora_config, Proj::Gate),
                alpha,
                rs,
                false,
            ),
            LoraLinear::new(
                dim,
                hidden_dim,
                effective_rank(lora_config, Proj::Up),
                alpha,
                rs,
                false,
            ),
            LoraLinear::new(
                hidden_dim,
                dim,
                effective_rank(lora_config, Proj::Down),
                alpha,
                rs,
                false,
            ),
        ) {
            (Ok(gate_proj), Ok(up_proj), Ok(down_proj)) => Ok(
                Qwen3NextLoraMLP { gate_proj, up_proj, down_proj },
            ),
            _ => Err(misfit()),
        }
    }

    pub(crate) fn run(&self, x: &Array) -> (r: Array)
        ensures
            r == self.output(*x),
    {
        let gate = self.gate_proj.run(x);
        let up = self.up_proj.run(x);
        self.down_proj.run(&make_gated(&gate, &up))
    }

    /// The layer's output.
    pub fn forward(&self, x: &Array) -> (r: Result<Array, LoraError>)
        ensures
            outcome(r, self.output(*x)),
    {
        checked(self.run(x))
    }

    /// The number of trainable elements.
    pub fn num_trainable_params(&self) -> (r: usize)
        requires
            self.countable(),
            self.trainable() <= usize::MAX,
        ensures
            r == self.trainable(),
    {
        self.gate_proj.num_trainable_params() + self.up_proj.num_trainable_params()
            + self.down_proj.num_trainable_params()
    }
}

/// The expert that every token goes to, with adapters on its three projections.
#[derive(Debug)]
pub struct Qwen3NextLoraSharedExpert {
    pub gate_proj: LoraLinear,
    pub up_proj: LoraLinear,
    pub down_proj: LoraLinear,
}

impl Qwen3NextLoraSharedExpert {
    /// The layer of a fresh model.
    pub open spec fn fresh(
        dim: i32,
        hidden_dim: i32,
        lora: LoraConfig,
    ) -> Qwen3NextLoraSharedExpert {
        let rs = lora.use_rslora;
        Qwen3NextLoraSharedExpert {
            gate_proj: LoraLinear::fresh(
                dim,
                hidden_dim,
                lora.rank_of(Proj::Gate),
                lora.alpha,
                rs,
                false,
            ),
            up_proj: LoraLinear::fresh(
                dim,
                hidden_dim,
                lora.rank_of(Proj::Up),
                lora.alpha,
                rs,
                false,
            ),
            down_proj: LoraLinear::fresh(
                hidden_dim,
                dim,
                lora.rank_of(Proj::Down),
                lora.alpha,
                rs,
                false,
            ),
        }
    }

    pub open spec fn output(self, x: Array) -> Array {
        self.down_proj.output(gated(self.gate_proj.output(x), self.up_proj.output(x)))
    }

    pub open spec fn trainable(self) -> nat {
        self.gate_proj.trainable() + self.up_proj.trainable() + self.down_proj.trainable()
    }

    pub open spec fn countable(self) -> bool {
        self.gate_proj.countable() && self.up_proj.countable() && self.down_proj.countable()
    }

    /// A fresh expert. Refused where an extent is negative.
    pub fn new(
        config: &Qwen3NextConfig,
        lora_config: &LoraConfig,
    ) -> (r: Result<Qwen3NextLoraSharedExpert, LoraError>)
        requires
            lora_config.valid(),
        ensures
            match r {
                Ok(m) => config.hidden_size >= 0 && config.shared_expert_intermediate_size >= 0 && m
                    == Qwen3NextLoraSharedExpert::fresh(
                    config.hidden_size,
                    config.shared_expert_intermediate_size,
                    *lora_config,
                ),
                Err(e) => e is Mlx && !(config.hidden_size >= 0
                    && config.shared_expert_intermediate_size >= 0),
            },
    {
        match Qwen3NextLoraMLP::new(
            config.hidden_size,
            config.shared_expert_intermediate_size,
            lora_config,
        ) {
            Ok(m) => Ok(
                Qwen3NextLoraSharedExpert {
                    gate_proj: m.gate_proj,
                    up_proj: m.up_proj,
                    down_proj: m.down_proj,
                },
            ),
            Err(e) => Err(e),
        }
    }

    pub(crate) fn run(&self, x: &Array) -> (r: Array)
        ensures
            r == self.output(*x),
    {
        let gate = self.gate_proj.run(x);
        let up = self.up_proj.run(x);
        self.down_proj.run(&make_gated(&gate, &up))
    }

    /// The layer's output.
    pub fn forward(&self, x: &Array) -> (r: Result<Array, LoraError>)
        ensures
            outcome(r, self.output(*x)),
    {
        checked(self.run(x))
    }

    /// The number of trainable elements.
    pub fn num_trainable_params(&self) -> (r: usize)
        requires
            self.countable(),
            self.trainable() <= usize::MAX,
        ensures
            r == self.trainable(),
    {
        self.gate_proj.num_trainable_params() + self.up_proj.num_trainable_params()
            + self.down_proj.num_trainable_params()
    }
}

/// Frozen routed experts beside a shared one with adapters.
#[derive(Debug)]
pub struct Qwen3NextLoraSparseMoE {
    /// The router.
    pub gate: Linear,
    /// The experts' gate weights, `[experts, inner, features]`.
    pub switch_mlp_gate_proj: Array,
    /// The experts' up weights, `[experts, inner, features]`.
    pub switch_mlp_up_proj: Array,
    /// The experts' down weights, `[experts, features, inner]`.
    pub switch_mlp_down_proj: Array,
    pub shared_expert_gate: Linear,
    pub shared_expert: Qwen3NextLoraSharedExpert,
    pub num_experts: i32,
    pub top_k: i32,
    pub norm_topk_prob: bool,
}

impl Qwen3NextLoraSparseMoE {
    /// No extent is negative.
    pub open spec fn buildable(config: Qwen3NextConfig) -> bool {
        &&& config.hidden_size >= 0
        &&& config.num_experts >= 0
        &&& config.moe_intermediate_size >= 0
        &&& config.shared_expert_intermediate_size >= 0
    }

    /// The layer of a fresh model.
    pub open spec fn fresh(config: Qwen3NextConfig, lora: LoraConfig) -> Qwen3NextLoraSparseMoE {
        let h = config.hidden_size;
        let n = config.num_experts;
        let inner = config.moe_intermediate_size;
        Qwen3NextLoraSparseMoE {
            gate: Linear::fresh(h, n, false),
            switch_mlp_gate_proj: source(Source::Zeros, Shape::D3(n, inner, h)),
            switch_mlp_up_proj: source(Source::Zeros, Shape::D3(n, inner, h)),
            switch_mlp_down_proj: source(Source::Zeros, Shape::D3(n, h, inner)),
            shared_expert_gate: Linear::fresh(h, 1, false),
            shared_expert: Qwen3NextLoraSharedExpert::fresh(
                h,
                config.shared_expert_intermediate_size,
                lora,
            ),
            num_experts: n,
            top_k: config.num_experts_per_tok,
            norm_topk_prob: config.norm_topk_prob,
        }
    }

    /// The probabilities of the experts.
    pub open spec fn gates(self, rows: Array) -> Array {
        apply(Function::Softmax, apply(Function::ToFloat32, self.gate.output(rows)))
    }

    /// The experts with the greatest probabilities, for each row.
    pub open spec fn picked(self, rows: Array) -> Array {
        first_part(argsort(apply(Function::Negative, self.gates(rows))), self.top_k)
    }

    /// Their weights: the probabilities, divided by their sum where so wanted.
    pub open spec fn weights(self, rows: Array) -> Array {
        let w = take_along(self.gates(rows), self.picked(rows));
        if self.norm_topk_prob {
            combine(
                Arithmetic::Divide,
                w,
                combine(
                    Arithmetic::Maximum,
                    sum_axis(w, 0),
                    source(Source::Full { value: F32 { bits: LEAST_SUM_BITS } }, Shape::D0),
                ),
            )
        } else {
            w
        }
    }

    /// The weighted outputs of the picked experts.
    pub open spec fn routed(self, rows: Array) -> Array {
        let n = rows.shape.outer();
        let h = rows.shape.inner();
        let all = n * self.top_k;
        let ids = apply(Function::ToInt32, self.picked(rows));
        let gate = gather_matmul(rows, self.switch_mlp_gate_proj, ids);
        let up = gather_matmul(rows, self.switch_mlp_up_proj, ids);
        if i32::MIN <= all <= i32::MAX {
            let down = reshape(
                gather_matmul(
                    rows_of(gated(gate, up)),
                    self.switch_mlp_down_proj,
                    reshape(ids, Shape::D2(all as i32, 1)),
                ),
                Shape::D3(n, self.top_k, h),
            );
            let weighted = times(down, reshape(self.weights(rows), Shape::D3(n, self.top_k, 1)));
            reshape(sum_axis(weighted, 1), Shape::D2(n, h))
        } else {
            unfit(rows)
        }
    }

    /// What the shared expert gives, through its gate.
    pub open spec fn shared(self, rows: Array) -> Array {
        times(
            apply(Function::Sigmoid, self.shared_expert_gate.output(rows)),
            self.shared_expert.output(rows),
        )
    }

    pub open spec fn output(self, x: Array) -> Array {
        let rows = rows_of(x);
        reshape(plus(self.routed(rows), self.shared(rows)), x.shape)
    }

    pub open spec fn trainable(self) -> nat {
        self.shared_expert.trainable()
    }

    pub open spec fn countable(self) -> bool {
        self.shared_expert.countable()
    }

    /// A fresh layer. Refused where an extent is negative.
    pub fn new(config: &Qwen3NextConfig, lora_config: &LoraConfig) -> (r: Result<
        Qwen3NextLoraSparseMoE,
        LoraError,
    >)
        requires
            lora_config.valid(),
        ensures
            match r {
                Ok(m) => Qwen3NextLoraSparseMoE::buildable(*config)
                    && m == Qwen3NextLoraSparseMoE::fresh(*config, *lora_config),
                Err(e) => e is Mlx && !Qwen3NextLoraSparseMoE::buildable(*config),
            },
    {
        let h: i32 = config.hidden_size;
        let n: i32 = config.num_experts;
        let inner: i32 = config.moe_intermediate_size;
        if n < 0 || inner < 0 {
            return Err(misfit());
        }
        match Qwen3NextLoraSharedExpert::new(config, lora_config) {
            Ok(shared_expert) => Ok(
                Qwen3NextLoraSparseMoE {
                    gate: Linear::new(h, n, false),
                    switch_mlp_gate_proj: Array::from_source(
                        Source::Zeros,
                        Shape::D3(n, inner, h),
                    ),
                    switch_mlp_up_proj: Array::from_source(Source::Zeros, Shape::D3(n, inner, h)),
                    switch_mlp_down_proj: Array::from_source(
                        Source::Zeros,
                        Shape::D3(n, h, inner),
                    ),
                    shared_expert_gate: Linear::new(h, 1, false),
                    shared_expert,
                    num_experts: n,
                    top_k: config.num_experts_per_tok,
                    norm_topk_prob: config.norm_topk_prob,
                },
            ),
            Err(e) => Err(e),
        }
    }

    /// The picked experts and their weights.
    fn run_top(&self, rows: &Array) -> (r: (Array, Array))
        ensures
            r == (self.picked(*rows), self.weights(*rows)),
    {
        let gates = self.gate.run(rows).apply(Function::ToFloat32).apply(Function::Softmax);
        let sorted = make_argsort(&gates.apply(Function::Negative));
        let picked = make_first_part(&sorted, self.top_k);
        let w = make_take_along(&gates, &picked);
        let weights = if self.norm_topk_prob {
            let least = Array::from_source(
                Source::Full { value: F32 { bits: LEAST_SUM_BITS } },
                Shape::D0,
            );
            let sum = w.sum_axis(0).combine(Arithmetic::Maximum, &least);
            w.combine(Arithmetic::Divide, &sum)
        } else {
            w
        };
        (picked, weights)
    }

    fn run_routed(&self, rows: &Array) -> (r: Array)
        ensures
            r == self.routed(*rows),
    {
        let n: i32 = rows.shape.outermost();
        let h: i32 = rows.shape.pad().4;
        proof {
            lemma_product_in_range(n as int, self.top_k as int);
        }
        let all: i64 = n as i64 * self.top_k as i64;
        if all < i32::MIN as i64 || all > i32::MAX as i64 {
            return make_unfit(rows);
        }
        let (picked, weights) = self.run_top(rows);
        let ids = picked.apply(Function::ToInt32);
        let gate = make_gather_matmul(rows, &self.switch_mlp_gate_proj, &ids);
        let up = make_gather_matmul(rows, &self.switch_mlp_up_proj, &ids);
        let down = make_gather_matmul(
            &make_rows_of(&make_gated(&gate, &up)),
            &self.switch_mlp_down_proj,
            &ids.reshape(Shape::D2(all as i32, 1)),
        ).reshape(Shape::D3(n, self.top_k, h));
        let weighted = down.multiply(&weights.reshape(Shape::D3(n, self.top_k, 1)));
        weighted.sum_axis(1).reshape(Shape::D2(n, h))
    }

    pub(crate) fn run(&self, x: &Array) -> (r: Array)
        ensures
            r == self.output(*x),
    {
        let rows = make_rows_of(x);
        let gate = self.shared_expert_gate.run(&rows).apply(Function::Sigmoid);
        let shared = gate.multiply(&self.shared_expert.run(&rows));
        self.run_routed(&rows).add(&shared).reshape(x.shape)
    }

    /// The weighted outputs of the picked experts, and what the shared one gives through its gate.
    pub fn forward(&self, x: &Array) -> (r: Result<Array, LoraError>)
        ensures
            outcome(r, self.output(*x)),
    {
        checked(self.run(x))
    }

    /// The number of trainable elements: those of the shared expert.
    pub fn num_trainable_params(&self) -> (r: usize)
        requires
            self.countable(),
            self.trainable() <= usize::MAX,
        ensures
            r == self.trainable(),
    {
        self.shared_expert.num_trainable_params()
    }
}

/// What follows attention in a layer: an MLP, or experts.
#[derive(Debug)]
pub enum Qwen3NextLoraFeedForward {
    Dense(Qwen3NextLoraMLP),
    MoE(Qwen3NextLoraSparseMoE),
}

impl Qwen3NextLoraFeedForward {
    pub open spec fn output(self, x: Array) -> Array {
        match self {
            Qwen3NextLoraFeedForward::Dense(m) => m.output(x),
            Qwen3NextLoraFeedForward::MoE(m) => m.output(x),
        }
    }

    pub open spec fn trainable(self) -> nat {
        match self {
            Qwen3NextLoraFeedForward::Dense(m) => m.trainable(),
            Qwen3NextLoraFeedForward::MoE(m) => m.trainable(),
        }
    }

    pub open spec fn countable(self) -> bool {
        match self {
            Qwen3NextLoraFeedForward::Dense(m) => m.countable(),
            Qwen3NextLoraFeedForward::MoE(m) => m.countable(),
        }
    }

    /// Where the adapters are named: those of the MLP, or of the shared expert.
    pub open spec fn section(self) -> Section {
        match self {
            Qwen3NextLoraFeedForward::Dense(_) => Section::Mlp,
            Qwen3NextLoraFeedForward::MoE(_) => Section::MlpSharedExpert,
        }
    }

    pub open spec fn gate_proj(self) -> LoraLinear {
        match self {
            Qwen3NextLoraFeedForward::Dense(m) => m.gate_proj,
            Qwen3NextLoraFeedForward::MoE(m) => m.shared_expert.gate_proj,
        }
    }

    pub open spec fn up_proj(self) -> LoraLinear {
        match self {
            Qwen3NextLoraFeedForward::Dense(m) => m.up_proj,
            Qwen3NextLoraFeedForward::MoE(m) => m.shared_expert.up_proj,
        }
    }

    pub open spec fn down_proj(self) -> LoraLinear {
        match self {
            Qwen3NextLoraFeedForward::Dense(m) => m.down_proj,
            Qwen3NextLoraFeedForward::MoE(m) => m.shared_expert.down_proj,
        }
    }

    /// The layer with other projections.
    pub open spec fn with_projections(
        self,
        gate_proj: LoraLinear,
        up_proj: LoraLinear,
        down_proj: LoraLinear,
    ) -> Qwen3NextLoraFeedForward {
        match self {
            Qwen3NextLoraFeedForward::Dense(_) => Qwen3NextLoraFeedForward::Dense(
                Qwen3NextLoraMLP { gate_proj, up_proj, down_proj },
            ),
            Qwen3NextLoraFeedForward::MoE(m) => Qwen3NextLoraFeedForward::MoE(
                Qwen3NextLoraSparseMoE {
                    shared_expert: Qwen3NextLoraSharedExpert { gate_proj, up_proj, down_proj },
                    ..m
                },
            ),
        }
    }

    fn find_section(&self) -> (r: Section)
        ensures
            r == self.section(),
    {
        match self {
            Qwen3NextLoraFeedForward::Dense(_) => Section::Mlp,
            Qwen3NextLoraFeedForward::MoE(_) => Section::MlpSharedExpert,
        }
    }

    fn projections(&self) -> (r: (&LoraLinear, &LoraLinear, &LoraLinear))
        ensures
            *r.0 == self.gate_proj(),
            *r.1 == self.up_proj(),
            *r.2 == self.down_proj(),
    {
        match self {
            Qwen3NextLoraFeedForward::Dense(m) => (&m.gate_proj, &m.up_proj, &m.down_proj),
            Qwen3NextLoraFeedForward::MoE(m) => (
                &m.shared_expert.gate_proj,
                &m.shared_expert.up_proj,
                &m.shared_expert.down_proj,
            ),
        }
    }

    fn projections_mut<'a>(&'a mut self) -> (r: (
        &'a mut LoraLinear,
        &'a mut LoraLinear,
        &'a mut LoraLinear,
    ))
        ensures
            *r.0 == old(self).gate_proj(),
            *r.1 == old(self).up_proj(),
            *r.2 == old(self).down_proj(),
            *final(self) == old(self).with_projections(*final(r.0), *final(r.1), *final(r.2)),
    {
        match self {
            Qwen3NextLoraFeedForward::Dense(m) => (
                &mut m.gate_proj,
                &mut m.up_proj,
                &mut m.down_proj,
            ),
            Qwen3NextLoraFeedForward::MoE(m) => (
                &mut m.shared_expert.gate_proj,
                &mut m.shared_expert.up_proj,
                &mut m.shared_expert.down_proj,
            ),
        }
    }

    pub(crate) fn run(&self, x: &Array) -> (r: Array)
        ensures
            r == self.output(*x),
    {
        match self {
            Qwen3NextLoraFeedForward::Dense(m) => m.run(x),
            Qwen3NextLoraFeedForward::MoE(m) => m.run(x),
        }
    }

    /// The layer's output.
    pub fn forward(&self, x: &Array) -> (r: Result<Array, LoraError>)
        ensures
            outcome(r, self.output(*x)),
    {
        checked(self.run(x))
    }

    /// The number of trainable elements.
    pub fn num_trainable_params(&self) -> (r: usize)
        requires
            self.countable(),
            self.trainable() <= usize::MAX,
        ensures
            r == self.trainable(),
    {
        match self {
            Qwen3NextLoraFeedForward::Dense(m) => m.num_trainable_params(),
            Qwen3NextLoraFeedForward::MoE(m) => m.num_trainable_params(),
        }
    }
}

/// A gated delta rule or full attention, and what follows it, each behind a normalization and
/// beside a residual connection.
#[derive(Debug)]
pub struct Qwen3NextLoraDecoderLayer {
    pub is_linear: bool,
    pub is_moe: bool,
    /// There in a layer that runs a gated delta rule.
    pub linear_attn: Option<Qwen3NextLoraGDN>,
    /// There in a layer with full attention.
    pub self_attn: Option<Qwen3NextLoraAttention>,
    pub mlp: Qwen3NextLoraFeedForward,
    pub input_layernorm: RmsNorm,
    pub post_attention_layernorm: RmsNorm,
}

impl Qwen3NextLoraDecoderLayer {
    /// The layer of a fresh model. Where it has full attention, it has the given number.
    pub open spec fn fresh(
        config: Qwen3NextConfig,
        lora: LoraConfig,
        layer: int,
        layer_id: usize,
    ) -> Qwen3NextLoraDecoderLayer {
        let norm = RmsNorm::fresh(config.hidden_size, config.rms_norm_eps);
        Qwen3NextLoraDecoderLayer {
            is_linear: config.linear(layer),
            is_moe: config.sparse(layer),
            linear_attn: if config.linear(layer) {
                Some(Qwen3NextLoraGDN::fresh(config, lora))
            } else {
                None
            },
            self_attn: if config.linear(layer) {
                None
            } else {
                Some(Qwen3NextLoraAttention::fresh(config, lora, layer_id))
            },
            mlp: if config.sparse(layer) {
                Qwen3NextLoraFeedForward::MoE(Qwen3NextLoraSparseMoE::fresh(config, lora))
            } else {
                Qwen3NextLoraFeedForward::Dense(
                    Qwen3NextLoraMLP::fresh(config.hidden_size, config.intermediate_size, lora),
                )
            },
            input_layernorm: norm,
            post_attention_layernorm: norm,
        }
    }

    /// The part that the kind of the layer calls for is there, with fitting extents.
    pub open spec fn ready(self) -> bool {
        if self.is_linear {
            self.linear_attn matches Some(g) && g.ready()
        } else {
            self.self_attn matches Some(a) && a.ready()
        }
    }

    /// The rest of the layer, on top of an input to which attention was added.
    pub open spec fn finish(self, h: Array) -> Array {
        plus(h, self.mlp.output(self.post_attention_layernorm.output(h)))
    }

    pub open spec fn output(
        self,
        x: Array,
        mask: Option<Array>,
        state: Option<MambaCacheEntry>,
        training: bool,
    ) -> Array {
        let normed = self.input_layernorm.output(x);
        self.finish(
            plus(
                x,
                if self.is_linear {
                    self.linear_attn->0.output(normed, mask, state)
                } else {
                    self.self_attn->0.output(normed, mask, training)
                },
            ),
        )
    }

    /// What a layer that runs a gated delta rule keeps behind the input.
    pub open spec fn after(
        self,
        x: Array,
        mask: Option<Array>,
        state: MambaCacheEntry,
    ) -> MambaCacheEntry {
        if self.is_linear {
            self.linear_attn->0.after(self.input_layernorm.output(x), mask, state)
        } else {
            state
        }
    }

    /// The layer over caches, and the caches behind it.
    pub open spec fn step(
        self,
        x: Array,
        mask: Option<Array>,
        kv: Option<(KVCacheState, int)>,
        state: Option<MambaCacheEntry>,
    ) -> (Array, Option<KVCacheState>, Option<MambaCacheEntry>) {
        let normed = self.input_layernorm.output(x);
        if self.is_linear {
            (
                self.finish(plus(x, self.linear_attn->0.output(normed, mask, state))),
                match kv {
                    Some(c) => Some(c.0),
                    None => None,
                },
                match state {
                    Some(e) => Some(self.linear_attn->0.after(normed, mask, e)),
                    None => None,
                },
            )
        } else {
            match kv {
                Some(c) => {
                    let end = self.self_attn->0.cached_output(normed, mask, c.0, c.1);
                    (self.finish(plus(x, end.0)), Some(end.1), state)
                },
                None => (
                    self.finish(plus(x, self.self_attn->0.fused_output(normed, mask))),
                    None,
                    state,
                ),
            }
        }
    }

    /// A fresh layer. One with full attention takes the next number. Refused where an extent is
    /// negative.
    pub fn new(
        config: &Qwen3NextConfig,
        lora_config: &LoraConfig,
        layer_idx: usize,
        ids: &mut LayerIds,
    ) -> (r: Result<Qwen3NextLoraDecoderLayer, LoraError>)
        requires
            config.valid(),
            lora_config.valid(),
            layer_idx < i32::MAX,
            old(ids).next < usize::MAX,
        ensures
            final(ids).next == old(ids).next + if config.linear(layer_idx as int) {
                0int
            } else {
                1int
            },
            match r {
                Ok(l) => config.layer_buildable(layer_idx as int)
                    && l == Qwen3NextLoraDecoderLayer::fresh(
                    *config,
                    *lora_config,
                    layer_idx as int,
                    old(ids).next,
                ),
                Err(e) => e is Mlx && !config.layer_buildable(layer_idx as int),
            },
    {
        let is_linear = config.is_linear_layer(layer_idx);
        let is_moe = config.use_moe_at(layer_idx);
        let (linear_attn, self_attn) = if is_linear {
            match Qwen3NextLoraGDN::new(config, lora_config) {
                Ok(g) => (Some(g), None),
                Err(e) => {
                    return Err(e);
                },
            }
        } else {
            match Qwen3NextLoraAttention::new(config, lora_config, ids) {
                Ok(a) => (None, Some(a)),
                Err(e) => {
                    return Err(e);
                },
            }
        };
        let mlp = if is_moe {
            match Qwen3NextLoraSparseMoE::new(config, lora_config) {
                Ok(m) => Qwen3NextLoraFeedForward::MoE(m),
                Err(e) => {
                    return Err(e);
                },
            }
        } else {
            match Qwen3NextLoraMLP::new(config.hidden_size, config.intermediate_size, lora_config) {
                Ok(m) => Qwen3NextLoraFeedForward::Dense(m),
                Err(e) => {
                    return Err(e);
                },
            }
        };
        Ok(
            Qwen3NextLoraDecoderLayer {
                is_linear,
                is_moe,
                linear_attn,
                self_attn,
                mlp,
                input_layernorm: RmsNorm::new(config.hidden_size, config.rms_norm_eps),
                post_attention_layernorm: RmsNorm::new(config.hidden_size, config.rms_norm_eps),
            },
        )
    }

    fn run_finish(&self, x: &Array, mixed: &Array) -> (r: Array)
        ensures
            r == self.finish(plus(*x, *mixed)),
            r.shape.rank() >= x.shape.rank(),
    {
        broadcast use lemma_combine_rank;

        let h = x.add(mixed);
        h.add(&self.mlp.run(&self.post_attention_layernorm.run(&h)))
    }

    pub(crate) fn run(
        &self,
        x: &Array,
        mask: Option<&Array>,
        mamba_cache: Option<&mut MambaCacheEntry>,
        training: bool,
    ) -> (r: Array)
        requires
            x.shape.rank() >= 2,
            self.ready(),
            self.is_linear ==> (mask matches Some(m) ==> m.shape.rank() >= 2),
        ensures
            ({
                let state = match mamba_cache {
                    Some(e) => Some(*e),
                    None => None,
                };
                &&& r == self.output(*x, given(mask), state, training)
                &&& mamba_cache matches Some(e) ==> *final(e) == self.after(*x, given(mask), *e)
            }),
            r.shape.rank() >= x.shape.rank(),
    {
        broadcast use lemma_rms_norm_shape;

        let normed = self.input_layernorm.run(x);
        let mixed = if self.is_linear {
            match &self.linear_attn {
                Some(g) => g.run(&normed, mask, mamba_cache),
                None => normed,
            }
        } else {
            match &self.self_attn {
                Some(a) => a.run(&normed, mask, training),
                None => normed,
            }
        };
        self.run_finish(x, &mixed)
    }

    pub(crate) fn run_cached(
        &self,
        x: &Array,
        mask: Option<&Array>,
        kv_cache: Option<(&mut KVCache, usize)>,
        mamba_cache: Option<&mut MambaCacheEntry>,
    ) -> (r: Array)
        requires
            x.shape.rank() >= 2,
            self.ready(),
            self.is_linear ==> (mask matches Some(m) ==> m.shape.rank() >= 2),
        ensures
            ({
                let kv = match kv_cache {
                    Some(c) => Some((c.0@, c.1 as int)),
                    None => None,
                };
                let state = match mamba_cache {
                    Some(e) => Some(*e),
                    None => None,
                };
                let end = self.step(*x, given(mask), kv, state);
                &&& r == end.0
                &&& kv_cache matches Some(c) ==> Some(final(c.0)@) == end.1
                &&& mamba_cache matches Some(e) ==> Some(*final(e)) == end.2
            }),
            r.shape.rank() >= x.shape.rank(),
    {
        broadcast use lemma_rms_norm_shape;

        let normed = self.input_layernorm.run(x);
        let mixed = if self.is_linear {
            match &self.linear_attn {
                Some(g) => g.run(&normed, mask, mamba_cache),
                None => normed,
            }
        } else {
            match &self.self_attn {
                Some(a) => match kv_cache {
                    Some((c, layer)) => a.run_cached(&normed, mask, c, layer),
                    None => a.run_fused(&normed, mask),
                },
                None => normed,
            }
        };
        self.run_finish(x, &mixed)
    }

    /// The layer's output. `training` says whether a training run is under way.
    pub fn forward(
        &self,
        x: &Array,
        mask: Option<&Array>,
        mamba_cache: Option<&mut MambaCacheEntry>,
        training: bool,
    ) -> (r: Result<Array, LoraError>)
        requires
            x.shape.rank() >= 2,
            self.ready(),
            self.is_linear ==> (mask matches Some(m) ==> m.shape.rank() >= 2),
        ensures
            ({
                let state = match mamba_cache {
                    Some(e) => Some(*e),
                    None => None,
                };
                &&& outcome(r, self.output(*x, given(mask), state, training))
                &&& mamba_cache matches Some(e) ==> *final(e) == self.after(*x, given(mask), *e)
            }),
    {
        checked(self.run(x, mask, mamba_cache, training))
    }

    /// The layer's output over what the caches hold and the input.
    pub fn forward_with_cache(
        &self,
        x: &Array,
        mask: Option<&Array>,
        kv_cache: Option<(&mut KVCache, usize)>,
        mamba_cache: Option<&mut MambaCacheEntry>,
    ) -> (r: Result<Array, LoraError>)
        requires
            x.shape.rank() >= 2,
            self.ready(),
            self.is_linear ==> (mask matches Some(m) ==> m.shape.rank() >= 2),
        ensures
            ({
                let kv = match kv_cache {
                    Some(c) => Some((c.0@, c.1 as int)),
                    None => None,
                };
                let state = match mamba_cache {
                    Some(e) => Some(*e),
                    None => None,
                };
                let end = self.step(*x, given(mask), kv, state);
                &&& outcome(r, end.0)
                &&& kv_cache matches Some(c) ==> Some(final(c.0)@) == end.1
                &&& mamba_cache matches Some(e) ==> Some(*final(e)) == end.2
            }),
    {
        checked(self.run_cached(x, mask, kv_cache, mamba_cache))
    }

    /// The number of trainable elements.
    pub fn num_trainable_params(&self) -> (r: usize)
        requires
            self.countable(),
            LoraLayer::trainable(*self) <= usize::MAX,
        ensures
            r == LoraLayer::trainable(*self),
    {
        let mixer: usize = match (&self.linear_attn, &self.self_attn) {
            (Some(g), _) => g.num_trainable_params(),
            (None, Some(a)) => a.num_trainable_params(),
            (None, None) => 0,
        };
        mixer + self.mlp.num_trainable_params()
    }

    /// The layer with the frozen weights that have its names.
    pub open spec fn loaded(
        self,
        i: nat,
        weights: Map<Seq<char>, Array>,
    ) -> Qwen3NextLoraDecoderLayer {
        let m = "model"@;
        Qwen3NextLoraDecoderLayer {
            input_layernorm: loaded_norm(
                self.input_layernorm,
                weights,
                part_name(m, i, "input_layernorm.weight"@),
            ),
            post_attention_layernorm: loaded_norm(
                self.post_attention_layernorm,
                weights,
                part_name(m, i, "post_attention_layernorm.weight"@),
            ),
            self_attn: match self.self_attn {
                Some(a) => Some(
                    Qwen3NextLoraAttention {
                        q_proj: loaded(
                            a.q_proj,
                            weights,
                            base_name(m, i, Section::SelfAttn, Proj::Q),
                        ),
                        k_proj: loaded(
                            a.k_proj,
                            weights,
                            base_name(m, i, Section::SelfAttn, Proj::K),
                        ),
                        v_proj: loaded(
                            a.v_proj,
                            weights,
                            base_name(m, i, Section::SelfAttn, Proj::V),
                        ),
                        o_proj: loaded(
                            a.o_proj,
                            weights,
                            base_name(m, i, Section::SelfAttn, Proj::O),
                        ),
                        q_norm: loaded_norm(
                            a.q_norm,
                            weights,
                            part_name(m, i, "self_attn.q_norm.weight"@),
                        ),
                        k_norm: loaded_norm(
                            a.k_norm,
                            weights,
                            part_name(m, i, "self_attn.k_norm.weight"@),
                        ),
                        ..a
                    },
                ),
                None => None,
            },
            linear_attn: match self.linear_attn {
                Some(g) => Some(
                    Qwen3NextLoraGDN {
                        in_proj_qkv: loaded(
                            g.in_proj_qkv,
                            weights,
                            base_name(m, i, Section::LinearAttn, Proj::InQkv),
                        ),
                        in_proj_z: loaded(
                            g.in_proj_z,
                            weights,
                            base_name(m, i, Section::LinearAttn, Proj::InZ),
                        ),
                        out_proj: loaded(
                            g.out_proj,
                            weights,
                            base_name(m, i, Section::LinearAttn, Proj::Out),
                        ),
                        in_proj_b: loaded_linear(
                            g.in_proj_b,
                            weights,
                            part_name(m, i, "linear_attn.in_proj_b.weight"@),
                        ),
                        in_proj_a: loaded_linear(
                            g.in_proj_a,
                            weights,
                            part_name(m, i, "linear_attn.in_proj_a.weight"@),
                        ),
                        conv1d: Conv1d {
                            weight: lookup(
                                weights,
                                part_name(m, i, "linear_attn.conv1d.weight"@),
                                g.conv1d.weight,
                            ),
                            ..g.conv1d
                        },
                        dt_bias: lookup(
                            weights,
                            part_name(m, i, "linear_attn.dt_bias"@),
                            g.dt_bias,
                        ),
                        a_log: lookup(weights, part_name(m, i, "linear_attn.a_log"@), g.a_log),
                        norm: Qwen3NextRMSNormGated {
                            weight: lookup(
                                weights,
                                part_name(m, i, "linear_attn.norm.weight"@),
                                g.norm.weight,
                            ),
                            ..g.norm
                        },
                        ..g
                    },
                ),
                None => None,
            },
            mlp: match self.mlp {
                Qwen3NextLoraFeedForward::Dense(d) => Qwen3NextLoraFeedForward::Dense(
                    Qwen3NextLoraMLP {
                        gate_proj: loaded(
                            d.gate_proj,
                            weights,
                            base_name(m, i, Section::Mlp, Proj::Gate),
                        ),
                        up_proj: loaded(
                            d.up_proj,
                            weights,
                            base_name(m, i, Section::Mlp, Proj::Up),
                        ),
                        down_proj: loaded(
                            d.down_proj,
                            weights,
                            base_name(m, i, Section::Mlp, Proj::Down),
                        ),
                    },
                ),
                Qwen3NextLoraFeedForward::MoE(e) => Qwen3NextLoraFeedForward::MoE(
                    Qwen3NextLoraSparseMoE {
                        gate: loaded_linear(e.gate, weights, part_name(m, i, "mlp.gate.weight"@)),
                        switch_mlp_gate_proj: lookup(
                            weights,
                            part_name(m, i, "mlp.switch_mlp.gate_proj.weight"@),
                            e.switch_mlp_gate_proj,
                        ),
                        switch_mlp_up_proj: lookup(
                            weights,
                            part_name(m, i, "mlp.switch_mlp.up_proj.weight"@),
                            e.switch_mlp_up_proj,
                        ),
                        switch_mlp_down_proj: lookup(
                            weights,
                            part_name(m, i, "mlp.switch_mlp.down_proj.weight"@),
                            e.switch_mlp_down_proj,
                        ),
                        shared_expert_gate: loaded_linear(
                            e.shared_expert_gate,
                            weights,
                            part_name(m, i, "mlp.shared_expert_gate.weight"@),
                        ),
                        shared_expert: Qwen3NextLoraSharedExpert {
                            gate_proj: loaded(
                                e.shared_expert.gate_proj,
                                weights,
                                base_name(m, i, Section::MlpSharedExpert, Proj::Gate),
                            ),
                            up_proj: loaded(
                                e.shared_expert.up_proj,
                                weights,
                                base_name(m, i, Section::MlpSharedExpert, Proj::Up),
                            ),
                            down_proj: loaded(
                                e.shared_expert.down_proj,
                                weights,
                                base_name(m, i, Section::MlpSharedExpert, Proj::Down),
                            ),
                        },
                        ..e
                    },
                ),
            },
            ..self
        }
    }

    fn load(&mut self, i: usize, weights: &NameMap<Array>)
        ensures
            *final(self) == old(self).loaded(i as nat, weights@),
    {
        let m = "model";
        load_norm(
            &mut self.input_layernorm,
            weights,
            &make_part_name(m, i, "input_layernorm.weight"),
        );
        load_norm(
            &mut self.post_attention_layernorm,
            weights,
            &make_part_name(m, i, "post_attention_layernorm.weight"),
        );
        match &mut self.self_attn {
            Some(a) => {
                load_lora(
                    &mut a.q_proj,
                    weights,
                    &make_base_name(m, i, Section::SelfAttn, Proj::Q),
                );
                load_lora(
                    &mut a.k_proj,
                    weights,
                    &make_base_name(m, i, Section::SelfAttn, Proj::K),
                );
                load_lora(
                    &mut a.v_proj,
                    weights,
                    &make_base_name(m, i, Section::SelfAttn, Proj::V),
                );
                load_lora(
                    &mut a.o_proj,
                    weights,
                    &make_base_name(m, i, Section::SelfAttn, Proj::O),
                );
                load_norm(&mut a.q_norm, weights, &make_part_name(m, i, "self_attn.q_norm.weight"));
                load_norm(&mut a.k_norm, weights, &make_part_name(m, i, "self_attn.k_norm.weight"));
            },
            None => {},
        }
        match &mut self.linear_attn {
            Some(g) => {
                load_lora(
                    &mut g.in_proj_qkv,
                    weights,
                    &make_base_name(m, i, Section::LinearAttn, Proj::InQkv),
                );
                load_lora(
                    &mut g.in_proj_z,
                    weights,
                    &make_base_name(m, i, Section::LinearAttn, Proj::InZ),
                );
                load_lora(
                    &mut g.out_proj,
                    weights,
                    &make_base_name(m, i, Section::LinearAttn, Proj::Out),
                );
                load_linear(
                    &mut g.in_proj_b,
                    weights,
                    &make_part_name(m, i, "linear_attn.in_proj_b.weight"),
                );
                load_linear(
                    &mut g.in_proj_a,
                    weights,
                    &make_part_name(m, i, "linear_attn.in_proj_a.weight"),
                );
                load_array(
                    &mut g.conv1d.weight,
                    weights,
                    &make_part_name(m, i, "linear_attn.conv1d.weight"),
                );
                load_array(&mut g.dt_bias, weights, &make_part_name(m, i, "linear_attn.dt_bias"));
                load_array(&mut g.a_log, weights, &make_part_name(m, i, "linear_attn.a_log"));
                load_array(
                    &mut g.norm.weight,
                    weights,
                    &make_part_name(m, i, "linear_attn.norm.weight"),
                );
            },
            None => {},
        }
        match &mut self.mlp {
            Qwen3NextLoraFeedForward::Dense(d) => {
                load_lora(
                    &mut d.gate_proj,
                    weights,
                    &make_base_name(m, i, Section::Mlp, Proj::Gate),
                );
                load_lora(&mut d.up_proj, weights, &make_base_name(m, i, Section::Mlp, Proj::Up));
                load_lora(
                    &mut d.down_proj,
                    weights,
                    &make_base_name(m, i, Section::Mlp, Proj::Down),
                );
            },
            Qwen3NextLoraFeedForward::MoE(e) => {
                load_linear(&mut e.gate, weights, &make_part_name(m, i, "mlp.gate.weight"));
                load_array(
                    &mut e.switch_mlp_gate_proj,
                    weights,
                    &make_part_name(m, i, "mlp.switch_mlp.gate_proj.weight"),
                );
                load_array(
                    &mut e.switch_mlp_up_proj,
                    weights,
                    &make_part_name(m, i, "mlp.switch_mlp.up_proj.weight"),
                );
                load_array(
                    &mut e.switch_mlp_down_proj,
                    weights,
                    &make_part_name(m, i, "mlp.switch_mlp.down_proj.weight"),
                );
                load_linear(
                    &mut e.shared_expert_gate,
                    weights,
                    &make_part_name(m, i, "mlp.shared_expert_gate.weight"),
                );
                load_lora(
                    &mut e.shared_expert.gate_proj,
                    weights,
                    &make_base_name(m, i, Section::MlpSharedExpert, Proj::Gate),
                );
                load_lora(
                    &mut e.shared_expert.up_proj,
                    weights,
                    &make_base_name(m, i, Section::MlpSharedExpert, Proj::Up),
                );
                load_lora(
                    &mut e.shared_expert.down_proj,
                    weights,
                    &make_base_name(m, i, Section::MlpSharedExpert, Proj::Down),
                );
            },
        }
    }
}

impl LoraLayer for Qwen3NextLoraDecoderLayer {
    open spec fn places(self) -> Seq<Place> {
        match (self.self_attn, self.linear_attn) {
            (Some(_), Some(_)) => seq![
                at(Section::SelfAttn, Proj::Q), at(Section::SelfAttn, Proj::K),
                at(Section::SelfAttn, Proj::V), at(Section::SelfAttn, Proj::O),
                at(Section::LinearAttn, Proj::InQkv), at(Section::LinearAttn, Proj::InZ),
                at(Section::LinearAttn, Proj::Out), at(self.mlp.section(), Proj::Gate),
                at(self.mlp.section(), Proj::Up), at(self.mlp.section(), Proj::Down)
            ],
            (Some(_), None) => seq![
                at(Section::SelfAttn, Proj::Q), at(Section::SelfAttn, Proj::K),
                at(Section::SelfAttn, Proj::V), at(Section::SelfAttn, Proj::O),
                at(self.mlp.section(), Proj::Gate), at(self.mlp.section(), Proj::Up),
                at(self.mlp.section(), Proj::Down)
            ],
            (None, Some(_)) => seq![
                at(Section::LinearAttn, Proj::InQkv), at(Section::LinearAttn, Proj::InZ),
                at(Section::LinearAttn, Proj::Out), at(self.mlp.section(), Proj::Gate),
                at(self.mlp.section(), Proj::Up), at(self.mlp.section(), Proj::Down)
            ],
            (None, None) => seq![
                at(self.mlp.section(), Proj::Gate), at(self.mlp.section(), Proj::Up),
                at(self.mlp.section(), Proj::Down)
            ],
        }
    }

    open spec fn matrices(self) -> Seq<Array> {
        match (self.self_attn, self.linear_attn) {
            (Some(a), Some(g)) => seq![
                a.q_proj.a(), a.q_proj.b(), a.k_proj.a(), a.k_proj.b(), a.v_proj.a(), a.v_proj.b(),
                a.o_proj.a(), a.o_proj.b(), g.in_proj_qkv.a(), g.in_proj_qkv.b(), g.in_proj_z.a(),
                g.in_proj_z.b(), g.out_proj.a(), g.out_proj.b(), self.mlp.gate_proj().a(),
                self.mlp.gate_proj().b(), self.mlp.up_proj().a(), self.mlp.up_proj().b(),
                self.mlp.down_proj().a(), self.mlp.down_proj().b()
            ],
            (Some(a), None) => seq![
                a.q_proj.a(), a.q_proj.b(), a.k_proj.a(), a.k_proj.b(), a.v_proj.a(), a.v_proj.b(),
                a.o_proj.a(), a.o_proj.b(), self.mlp.gate_proj().a(), self.mlp.gate_proj().b(),
                self.mlp.up_proj().a(), self.mlp.up_proj().b(), self.mlp.down_proj().a(),
                self.mlp.down_proj().b()
            ],
            (None, Some(g)) => seq![
                g.in_proj_qkv.a(), g.in_proj_qkv.b(), g.in_proj_z.a(), g.in_proj_z.b(),
                g.out_proj.a(), g.out_proj.b(), self.mlp.gate_proj().a(), self.mlp.gate_proj().b(),
                self.mlp.up_proj().a(), self.mlp.up_proj().b(), self.mlp.down_proj().a(),
                self.mlp.down_proj().b()
            ],
            (None, None) => seq![
                self.mlp.gate_proj().a(), self.mlp.gate_proj().b(), self.mlp.up_proj().a(),
                self.mlp.up_proj().b(), self.mlp.down_proj().a(), self.mlp.down_proj().b()
            ],
        }
    }

    open spec fn with_matrices(self, m: Seq<Array>) -> Qwen3NextLoraDecoderLayer {
        let full: int = if self.self_attn is Some {
            8
        } else {
            0
        };
        let mixer: int = full + if self.linear_attn is Some {
            6int
        } else {
            0int
        };
        Qwen3NextLoraDecoderLayer {
            self_attn: match self.self_attn {
                Some(a) => Some(
                    Qwen3NextLoraAttention {
                        q_proj: a.q_proj.with(m[0], m[1]),
                        k_proj: a.k_proj.with(m[2], m[3]),
                        v_proj: a.v_proj.with(m[4], m[5]),
                        o_proj: a.o_proj.with(m[6], m[7]),
                        ..a
                    },
                ),
                None => None,
            },
            linear_attn: match self.linear_attn {
                Some(g) => Some(
                    Qwen3NextLoraGDN {
                        in_proj_qkv: g.in_proj_qkv.with(m[full + 0], m[full + 1]),
                        in_proj_z: g.in_proj_z.with(m[full + 2], m[full + 3]),
                        out_proj: g.out_proj.with(m[full + 4], m[full + 5]),
                        ..g
                    },
                ),
                None => None,
            },
            mlp: self.mlp.with_projections(
                self.mlp.gate_proj().with(m[mixer + 0], m[mixer + 1]),
                self.mlp.up_proj().with(m[mixer + 2], m[mixer + 3]),
                self.mlp.down_proj().with(m[mixer + 4], m[mixer + 5]),
            ),
            ..self
        }
    }

    open spec fn trainable(self) -> nat {
        match (self.linear_attn, self.self_attn) {
            (Some(g), _) => g.trainable() + self.mlp.trainable(),
            (None, Some(a)) => a.trainable() + self.mlp.trainable(),
            (None, None) => self.mlp.trainable(),
        }
    }

    open spec fn countable(self) -> bool {
        &&& self.linear_attn matches Some(g) ==> g.countable()
        &&& self.self_attn matches Some(a) ==> a.countable()
        &&& self.mlp.countable()
    }

    proof fn lemma_layer(self, m: Seq<Array>) {
        lemma_next_matrices(self, m);
        lemma_next_places(self);
        lemma_next_own(self);
        assert forall|n: Seq<Array>| #[trigger]
            self.with_matrices(m).with_matrices(n) == self.with_matrices(n) by {
            lemma_next_again(self, m, n);
        }
    }

    #[verifier::rlimit(80)]
    fn collect(&self, params: &mut NameMap<Array>, style: NameStyle, layer: usize) {
        proof {
            reveal_with_fuel(with_named, 21);
        }
        match &self.self_attn {
            Some(a) => {
                collect_adapter(&a.q_proj, params, style, layer, Section::SelfAttn, Proj::Q);
                collect_adapter(&a.k_proj, params, style, layer, Section::SelfAttn, Proj::K);
                collect_adapter(&a.v_proj, params, style, layer, Section::SelfAttn, Proj::V);
                collect_adapter(&a.o_proj, params, style, layer, Section::SelfAttn, Proj::O);
            },
            None => {},
        }
        match &self.linear_attn {
            Some(g) => {
                collect_adapter(
                    &g.in_proj_qkv,
                    params,
                    style,
                    layer,
                    Section::LinearAttn,
                    Proj::InQkv,
                );
                collect_adapter(&g.in_proj_z, params, style, layer, Section::LinearAttn, Proj::InZ);
                collect_adapter(&g.out_proj, params, style, layer, Section::LinearAttn, Proj::Out);
            },
            None => {},
        }
        let section = self.mlp.find_section();
        let (gate, up, down) = self.mlp.projections();
        collect_adapter(gate, params, style, layer, section, Proj::Gate);
        collect_adapter(up, params, style, layer, section, Proj::Up);
        collect_adapter(down, params, style, layer, section, Proj::Down);
    }

    #[verifier::rlimit(80)]
    fn assign(&mut self, params: &NameMap<Array>, style: NameStyle, layer: usize) {
        match &mut self.self_attn {
            Some(a) => {
                assign_adapter(&mut a.q_proj, params, style, layer, Section::SelfAttn, Proj::Q);
                assign_adapter(&mut a.k_proj, params, style, layer, Section::SelfAttn, Proj::K);
                assign_adapter(&mut a.v_proj, params, style, layer, Section::SelfAttn, Proj::V);
                assign_adapter(&mut a.o_proj, params, style, layer, Section::SelfAttn, Proj::O);
            },
            None => {},
        }
        match &mut self.linear_attn {
            Some(g) => {
                assign_adapter(
                    &mut g.in_proj_qkv,
                    params,
                    style,
                    layer,
                    Section::LinearAttn,
                    Proj::InQkv,
                );
                assign_adapter(
                    &mut g.in_proj_z,
                    params,
                    style,
                    layer,
                    Section::LinearAttn,
                    Proj::InZ,
                );
                assign_adapter(
                    &mut g.out_proj,
                    params,
                    style,
                    layer,
                    Section::LinearAttn,
                    Proj::Out,
                );
            },
            None => {},
        }
        let section = self.mlp.find_section();
        let (gate, up, down) = self.mlp.projections_mut();
        assign_adapter(gate, params, style, layer, section, Proj::Gate);
        assign_adapter(up, params, style, layer, section, Proj::Up);
        assign_adapter(down, params, style, layer, section, Proj::Down);
    }

    fn refs<'a>(&'a self) -> (r: Vec<ParamRef<'a>>) {
        let mut r: Vec<ParamRef<'a>> = Vec::new();
        match &self.self_attn {
            Some(a) => {
                push_refs(&a.q_proj, Section::SelfAttn, Proj::Q, &mut r);
                push_refs(&a.k_proj, Section::SelfAttn, Proj::K, &mut r);
                push_refs(&a.v_proj, Section::SelfAttn, Proj::V, &mut r);
                push_refs(&a.o_proj, Section::SelfAttn, Proj::O, &mut r);
            },
            None => {},
        }
        match &self.linear_attn {
            Some(g) => {
                push_refs(&g.in_proj_qkv, Section::LinearAttn, Proj::InQkv, &mut r);
                push_refs(&g.in_proj_z, Section::LinearAttn, Proj::InZ, &mut r);
                push_refs(&g.out_proj, Section::LinearAttn, Proj::Out, &mut r);
            },
            None => {},
        }
        let section = self.mlp.find_section();
        let (gate, up, down) = self.mlp.projections();
        push_refs(gate, section, Proj::Gate, &mut r);
        push_refs(up, section, Proj::Up, &mut r);
        push_refs(down, section, Proj::Down, &mut r);
        r
    }

    #[verifier::rlimit(80)]
    fn refs_mut<'a>(&'a mut self) -> (r: Vec<ParamMut<'a>>) {
        let mut r: Vec<ParamMut<'a>> = Vec::new();
        match &mut self.self_attn {
            Some(attn) => {
                let (a, b) = adapter_refs_mut(&mut attn.q_proj, Section::SelfAttn, Proj::Q);
                r.push(a);
                r.push(b);
                let (a, b) = adapter_refs_mut(&mut attn.k_proj, Section::SelfAttn, Proj::K);
                r.push(a);
                r.push(b);
                let (a, b) = adapter_refs_mut(&mut attn.v_proj, Section::SelfAttn, Proj::V);
                r.push(a);
                r.push(b);
                let (a, b) = adapter_refs_mut(&mut attn.o_proj, Section::SelfAttn, Proj::O);
                r.push(a);
                r.push(b);
            },
            None => {},
        }
        match &mut self.linear_attn {
            Some(g) => {
                let (a, b) = adapter_refs_mut(&mut g.in_proj_qkv, Section::LinearAttn, Proj::InQkv);
                r.push(a);
                r.push(b);
                let (a, b) = adapter_refs_mut(&mut g.in_proj_z, Section::LinearAttn, Proj::InZ);
                r.push(a);
                r.push(b);
                let (a, b) = adapter_refs_mut(&mut g.out_proj, Section::LinearAttn, Proj::Out);
                r.push(a);
                r.push(b);
            },
            None => {},
        }
        let section = self.mlp.find_section();
        let (gate, up, down) = self.mlp.projections_mut();
        let (a, b) = adapter_refs_mut(gate, section, Proj::Gate);
        r.push(a);
        r.push(b);
        let (a, b) = adapter_refs_mut(up, section, Proj::Up);
        r.push(a);
        r.push(b);
        let (a, b) = adapter_refs_mut(down, section, Proj::Down);
        r.push(a);
        r.push(b);
        r
    }

    fn count(&self) -> (r: usize) {
        self.num_trainable_params()
    }
}

proof fn lemma_next_places(layer: Qwen3NextLoraDecoderLayer)
    ensures
        distinct_places(layer.places()),
{
    match (layer.self_attn, layer.linear_attn) {
        (Some(_), Some(_)) => {
            assert(distinct_places(layer.places()));
        },
        (Some(_), None) => {
            assert(distinct_places(layer.places()));
        },
        (None, Some(_)) => {
            assert(distinct_places(layer.places()));
        },
        (None, None) => {
            assert(distinct_places(layer.places()));
        },
    }
}

proof fn lemma_next_own(layer: Qwen3NextLoraDecoderLayer)
    ensures
        layer.with_matrices(layer.matrices()) == layer,
{
    let l = layer.with_matrices(layer.matrices());
    match (layer.self_attn, layer.linear_attn) {
        (Some(a), Some(g)) => {
            assert(l.self_attn == Some(a));
            assert(l.linear_attn == Some(g));
            assert(l.mlp == layer.mlp);
        },
        (Some(a), None) => {
            assert(l.self_attn == Some(a));
            assert(l.mlp == layer.mlp);
        },
        (None, Some(g)) => {
            assert(l.linear_attn == Some(g));
            assert(l.mlp == layer.mlp);
        },
        (None, None) => {
            assert(l.mlp == layer.mlp);
        },
    }
}

proof fn lemma_next_again(layer: Qwen3NextLoraDecoderLayer, m: Seq<Array>, n: Seq<Array>)
    ensures
        layer.with_matrices(m).with_matrices(n) == layer.with_matrices(n),
{
    let once = layer.with_matrices(n);
    let twice = layer.with_matrices(m).with_matrices(n);
    assert(twice.self_attn == once.self_attn);
    assert(twice.linear_attn == once.linear_attn);
    assert(twice.mlp == once.mlp);
}

#[verifier::rlimit(60)]
proof fn lemma_next_matrices(layer: Qwen3NextLoraDecoderLayer, m: Seq<Array>)
    requires
        m.len() == layer.matrices().len(),
    ensures
        layer.with_matrices(m).matrices() == m,
{
    match (layer.self_attn, layer.linear_attn) {
        (Some(_), Some(_)) => {
            assert(layer.with_matrices(m).matrices() =~= m);
        },
        (Some(_), None) => {
            assert(layer.with_matrices(m).matrices() =~= m);
        },
        (None, Some(_)) => {
            assert(layer.with_matrices(m).matrices() =~= m);
        },
        (None, None) => {
            assert(layer.with_matrices(m).matrices() =~= m);
        },
    }
}

impl MergeSteps for Qwen3NextLoraDecoderLayer {
    open spec fn merge_steps(self) -> nat {
        match (self.self_attn, self.linear_attn) {
            (Some(_), Some(_)) => 10,
            (Some(_), None) => 7,
            (None, Some(_)) => 6,
            (None, None) => 3,
        }
    }

    open spec fn can_merge(self, k: int) -> bool {
        let full: int = if self.self_attn is Some {
            4
        } else {
            0
        };
        let mixer: int = full + if self.linear_attn is Some {
            3int
        } else {
            0int
        };
        if k < full {
            let a = self.self_attn->0;
            if k == 0 {
                a.q_proj.mergeable()
            } else if k == 1 {
                a.k_proj.mergeable()
            } else if k == 2 {
                a.v_proj.mergeable()
            } else {
                a.o_proj.mergeable()
            }
        } else if k < mixer {
            let g = self.linear_attn->0;
            if k == full {
                g.in_proj_qkv.mergeable()
            } else if k == full + 1 {
                g.in_proj_z.mergeable()
            } else {
                g.out_proj.mergeable()
            }
        } else if k == mixer {
            self.mlp.gate_proj().mergeable()
        } else if k == mixer + 1 {
            self.mlp.up_proj().mergeable()
        } else {
            self.mlp.down_proj().mergeable()
        }
    }

    open spec fn merged_first(self, k: int) -> Qwen3NextLoraDecoderLayer {
        let full: int = if self.self_attn is Some {
            4
        } else {
            0
        };
        let mixer: int = full + if self.linear_attn is Some {
            3int
        } else {
            0int
        };
        Qwen3NextLoraDecoderLayer {
            self_attn: match self.self_attn {
                Some(a) => Some(
                    Qwen3NextLoraAttention {
                        q_proj: merged_where(k > 0, a.q_proj),
                        k_proj: merged_where(k > 1, a.k_proj),
                        v_proj: merged_where(k > 2, a.v_proj),
                        o_proj: merged_where(k > 3, a.o_proj),
                        ..a
                    },
                ),
                None => None,
            },
            linear_attn: match self.linear_attn {
                Some(g) => Some(
                    Qwen3NextLoraGDN {
                        in_proj_qkv: merged_where(k > full + 0, g.in_proj_qkv),
                        in_proj_z: merged_where(k > full + 1, g.in_proj_z),
                        out_proj: merged_where(k > full + 2, g.out_proj),
                        ..g
                    },
                ),
                None => None,
            },
            mlp: self.mlp.with_projections(
                merged_where(k > mixer + 0, self.mlp.gate_proj()),
                merged_where(k > mixer + 1, self.mlp.up_proj()),
                merged_where(k > mixer + 2, self.mlp.down_proj()),
            ),
            ..self
        }
    }
}

/// The layer merged, where the condition holds.
pub open spec fn merged_where(condition: bool, l: LoraLinear) -> LoraLinear {
    if condition {
        l.merge_result()
    } else {
        l
    }
}

impl MergeLayer for Qwen3NextLoraDecoderLayer {
    #[verifier::rlimit(80)]
    fn merge_all(&mut self) -> (r: Result<(), LoraError>) {
        let ghost was = *self;
        let ghost full: int = if was.self_attn is Some {
            4
        } else {
            0
        };
        let ghost mixer: int = full + if was.linear_attn is Some {
            3int
        } else {
            0int
        };
        match &mut self.self_attn {
            Some(a) => {
                if a.q_proj.merge().is_err() {
                    assert(stops_at(was, 0));
                    return Err(misfit());
                }
                if a.k_proj.merge().is_err() {
                    assert(stops_at(was, 1));
                    return Err(misfit());
                }
                if a.v_proj.merge().is_err() {
                    assert(stops_at(was, 2));
                    return Err(misfit());
                }
                if a.o_proj.merge().is_err() {
                    assert(stops_at(was, 3));
                    return Err(misfit());
                }
            },
            None => {},
        }
        match &mut self.linear_attn {
            Some(g) => {
                if g.in_proj_qkv.merge().is_err() {
                    assert(stops_at(was, full + 0));
                    return Err(misfit());
                }
                if g.in_proj_z.merge().is_err() {
                    assert(stops_at(was, full + 1));
                    return Err(misfit());
                }
                if g.out_proj.merge().is_err() {
                    assert(stops_at(was, full + 2));
                    return Err(misfit());
                }
            },
            None => {},
        }
        let (gate, up, down) = self.mlp.projections_mut();
        if gate.merge().is_err() {
            assert(stops_at(was, mixer + 0));
            return Err(misfit());
        }
        if up.merge().is_err() {
            assert(stops_at(was, mixer + 1));
            return Err(misfit());
        }
        if down.merge().is_err() {
            assert(stops_at(was, mixer + 2));
            return Err(misfit());
        }
        Ok(())
    }
}

impl EvalLayer for Qwen3NextLoraDecoderLayer {
    open spec fn evaluated(self) -> Seq<Array> {
        seq![self.input_layernorm.weight, self.post_attention_layernorm.weight]
            + match self.self_attn {
            Some(a) => seq![
                a.q_proj.weight, a.k_proj.weight, a.v_proj.weight, a.o_proj.weight, a.q_norm.weight,
                a.k_norm.weight, a.q_proj.lora_a, a.q_proj.lora_b, a.k_proj.lora_a, a.k_proj.lora_b,
                a.v_proj.lora_a, a.v_proj.lora_b, a.o_proj.lora_a, a.o_proj.lora_b
            ],
            None => seq![],
        } + match self.linear_attn {
            Some(g) => seq![
                g.in_proj_qkv.weight, g.in_proj_z.weight, g.out_proj.weight, g.in_proj_qkv.lora_a,
                g.in_proj_qkv.lora_b, g.in_proj_z.lora_a, g.in_proj_z.lora_b, g.out_proj.lora_a,
                g.out_proj.lora_b, g.in_proj_b.weight, g.in_proj_a.weight, g.conv1d.weight,
                g.dt_bias, g.a_log, g.norm.weight
            ],
            None => seq![],
        } + match self.mlp {
            Qwen3NextLoraFeedForward::Dense(d) => seq![
                d.gate_proj.weight, d.up_proj.weight, d.down_proj.weight, d.gate_proj.lora_a,
                d.gate_proj.lora_b, d.up_proj.lora_a, d.up_proj.lora_b, d.down_proj.lora_a,
                d.down_proj.lora_b
            ],
            Qwen3NextLoraFeedForward::MoE(e) => seq![
                e.gate.weight, e.switch_mlp_gate_proj, e.switch_mlp_up_proj, e.switch_mlp_down_proj,
                e.shared_expert_gate.weight, e.shared_expert.gate_proj.weight,
                e.shared_expert.up_proj.weight, e.shared_expert.down_proj.weight,
                e.shared_expert.gate_proj.lora_a, e.shared_expert.gate_proj.lora_b,
                e.shared_expert.up_proj.lora_a, e.shared_expert.up_proj.lora_b,
                e.shared_expert.down_proj.lora_a, e.shared_expert.down_proj.lora_b
            ],
        }
    }

    #[verifier::rlimit(60)]
    fn push_evaluated(&self, out: &mut Vec<Array>) {
        out.push(self.input_layernorm.weight.clone());
        out.push(self.post_attention_layernorm.weight.clone());
        match &self.self_attn {
            Some(a) => {
                out.push(a.q_proj.weight.clone());
                out.push(a.k_proj.weight.clone());
                out.push(a.v_proj.weight.clone());
                out.push(a.o_proj.weight.clone());
                out.push(a.q_norm.weight.clone());
                out.push(a.k_norm.weight.clone());
                out.push(a.q_proj.lora_a.clone());
                out.push(a.q_proj.lora_b.clone());
                out.push(a.k_proj.lora_a.clone());
                out.push(a.k_proj.lora_b.clone());
                out.push(a.v_proj.lora_a.clone());
                out.push(a.v_proj.lora_b.clone());
                out.push(a.o_proj.lora_a.clone());
                out.push(a.o_proj.lora_b.clone());
            },
            None => {},
        }
        match &self.linear_attn {
            Some(g) => {
                out.push(g.in_proj_qkv.weight.clone());
                out.push(g.in_proj_z.weight.clone());
                out.push(g.out_proj.weight.clone());
                out.push(g.in_proj_qkv.lora_a.clone());
                out.push(g.in_proj_qkv.lora_b.clone());
                out.push(g.in_proj_z.lora_a.clone());
                out.push(g.in_proj_z.lora_b.clone());
                out.push(g.out_proj.lora_a.clone());
                out.push(g.out_proj.lora_b.clone());
                out.push(g.in_proj_b.weight.clone());
                out.push(g.in_proj_a.weight.clone());
                out.push(g.conv1d.weight.clone());
                out.push(g.dt_bias.clone());
                out.push(g.a_log.clone());
                out.push(g.norm.weight.clone());
            },
            None => {},
        }
        match &self.mlp {
            Qwen3NextLoraFeedForward::Dense(d) => {
                out.push(d.gate_proj.weight.clone());
                out.push(d.up_proj.weight.clone());
                out.push(d.down_proj.weight.clone());
                out.push(d.gate_proj.lora_a.clone());
                out.push(d.gate_proj.lora_b.clone());
                out.push(d.up_proj.lora_a.clone());
                out.push(d.up_proj.lora_b.clone());
                out.push(d.down_proj.lora_a.clone());
                out.push(d.down_proj.lora_b.clone());
            },
            Qwen3NextLoraFeedForward::MoE(e) => {
                out.push(e.gate.weight.clone());
                out.push(e.switch_mlp_gate_proj.clone());
                out.push(e.switch_mlp_up_proj.clone());
                out.push(e.switch_mlp_down_proj.clone());
                out.push(e.shared_expert_gate.weight.clone());
                out.push(e.shared_expert.gate_proj.weight.clone());
                out.push(e.shared_expert.up_proj.weight.clone());
                out.push(e.shared_expert.down_proj.weight.clone());
                out.push(e.shared_expert.gate_proj.lora_a.clone());
                out.push(e.shared_expert.gate_proj.lora_b.clone());
                out.push(e.shared_expert.up_proj.lora_a.clone());
                out.push(e.shared_expert.up_proj.lora_b.clone());
                out.push(e.shared_expert.down_proj.lora_a.clone());
                out.push(e.shared_expert.down_proj.lora_b.clone());
            },
        }
        assert(out@ =~= old(out)@ + self.evaluated());
    }
}

#[derive(Debug)]
pub struct Qwen3NextLoraModel {
    pub config: Qwen3NextConfig,
    pub lora_config: LoraConfig,
    pub embed_tokens: Embedding,
    pub layers: Vec<Qwen3NextLoraDecoderLayer>,
    pub norm: RmsNorm,
}

/// A gated delta rule gets no mask.
pub open spec fn qwen3_next_layer_mask(
    layer: Qwen3NextLoraDecoderLayer,
    mask: Option<Array>,
) -> Option<Array> {
    if layer.is_linear {
        None
    } else {
        mask
    }
}

/// The output of the first `n` layers, one behind the other.
pub open spec fn qwen3_next_stack(
    layers: Seq<Qwen3NextLoraDecoderLayer>,
    n: nat,
    x: Array,
    mask: Option<Array>,
    training: bool,
) -> Array
    decreases n,
{
    if n == 0 {
        x
    } else {
        layers[n - 1].output(
            qwen3_next_stack(layers, (n - 1) as nat, x, mask, training),
            qwen3_next_layer_mask(layers[n - 1], mask),
            None,
            training,
        )
    }
}

/// What a layer keeps, where there is a cache with room for it.
pub open spec fn qwen3_next_entry(
    states: Option<Seq<MambaCacheEntry>>,
    i: int,
) -> Option<MambaCacheEntry> {
    match states {
        Some(s) => if 0 <= i < s.len() {
            Some(s[i])
        } else {
            None
        },
        None => None,
    }
}

/// The layers from layer `i` on, one behind the other over the caches, and the caches behind
/// them.
pub open spec fn qwen3_next_steps(
    layers: Seq<Qwen3NextLoraDecoderLayer>,
    i: int,
    x: Array,
    mask: Option<Array>,
    kv: Option<KVCacheState>,
    states: Option<Seq<MambaCacheEntry>>,
) -> (Array, Option<KVCacheState>, Option<Seq<MambaCacheEntry>>)
    decreases layers.len() - i,
{
    if i < 0 || i >= layers.len() {
        (x, kv, states)
    } else {
        let end = layers[i].step(
            x,
            qwen3_next_layer_mask(layers[i], mask),
            match kv {
                Some(c) => Some((c, i)),
                None => None,
            },
            qwen3_next_entry(states, i),
        );
        let kept = match (states, end.2) {
            (Some(s), Some(e)) => Some(s.update(i, e)),
            _ => states,
        };
        qwen3_next_steps(layers, i + 1, end.0, mask, end.1, kept)
    }
}

/// Each layer has fitting extents.
pub open spec fn qwen3_next_ready(layers: Seq<Qwen3NextLoraDecoderLayer>) -> bool {
    forall|i: int| 0 <= i < layers.len() ==> (#[trigger] layers[i]).ready()
}

impl Qwen3NextLoraModel {
    /// The hidden states behind the last normalization.
    pub open spec fn output(self, ids: Array, mask: Option<Array>, training: bool) -> Array {
        self.norm.output(
            qwen3_next_stack(
                self.layers@,
                self.layers@.len(),
                self.embed_tokens.output(ids),
                mask,
                training,
            ),
        )
    }

    /// The hidden states over caches, and the caches behind them.
    pub open spec fn cached_output(
        self,
        ids: Array,
        mask: Option<Array>,
        kv: Option<KVCacheState>,
        states: Option<Seq<MambaCacheEntry>>,
    ) -> (Array, Option<KVCacheState>, Option<Seq<MambaCacheEntry>>) {
        let end = qwen3_next_steps(
            self.layers@,
            0,
            self.embed_tokens.output(ids),
            mask,
            kv,
            states,
        );
        (self.norm.output(end.0), end.1, end.2)
    }

    /// The model that the settings give, before any weight is loaded. Layers with full attention
    /// are numbered from zero.
    pub open spec fn is_fresh(self, config: Qwen3NextConfig, lora: LoraConfig) -> bool {
        &&& self.config == config
        &&& self.lora_config == lora
        &&& self.embed_tokens == Embedding::fresh(config.vocab_size, config.hidden_size)
        &&& self.layers@.len() == config.num_hidden_layers
        &&& forall|i: int|
            0 <= i < self.layers@.len() ==> #[trigger] self.layers@[i]
                == Qwen3NextLoraDecoderLayer::fresh(
                config,
                lora,
                i,
                config.full_before(i as nat) as usize,
            )
        &&& self.norm == RmsNorm::fresh(config.hidden_size, config.rms_norm_eps)
    }

    /// A fresh model, its layers numbered from zero. Refused where an extent is negative.
    pub fn new(config: Qwen3NextConfig, lora_config: LoraConfig, ids: &mut LayerIds) -> (r: Result<
        Qwen3NextLoraModel,
        LoraError,
    >)
        requires
            config.valid(),
            lora_config.valid(),
        ensures
            match r {
                Ok(m) => config.buildable() && m.is_fresh(config, lora_config) && final(ids).next
                    == config.full_before(config.num_hidden_layers as nat),
                Err(e) => e is Mlx && !config.buildable() && final(ids).next
                    == config.numbered_when_refused(),
            },
    {
        reset_qwen3_next_layer_ids(ids);
        let embed_tokens = match Embedding::new(config.vocab_size, config.hidden_size) {
            Ok(e) => e,
            Err(_) => {
                return Err(misfit());
            },
        };
        let n: usize = config.num_hidden_layers as usize;
        let mut layers: Vec<Qwen3NextLoraDecoderLayer> = Vec::new();
        let mut i: usize = 0;
        while i < n
            invariant
                i <= n,
                n == config.num_hidden_layers,
                config.valid(),
                lora_config.valid(),
                layers@.len() == i,
                ids.next == config.full_before(i as nat),
                config.vocab_size >= 0 && config.hidden_size >= 0,
                config.buildable_from(0) == i + config.buildable_from(i as int),
                ids.next <= i,
                forall|j: int| 0 <= j < i ==> #[trigger] config.layer_buildable(j),
                forall|j: int|
                    0 <= j < i ==> #[trigger] layers@[j] == Qwen3NextLoraDecoderLayer::fresh(
                        config,
                        lora_config,
                        j,
                        config.full_before(j as nat) as usize,
                    ),
            decreases n - i,
        {
            match Qwen3NextLoraDecoderLayer::new(&config, &lora_config, i, ids) {
                Ok(l) => {
                    layers.push(l);
                },
                Err(_) => {
                    return Err(misfit());
                },
            }
            i = i + 1;
        }
        let norm = RmsNorm::new(config.hidden_size, config.rms_norm_eps);
        Ok(Qwen3NextLoraModel { config, lora_config, embed_tokens, layers, norm })
    }

    pub(crate) fn run(&self, ids: &Array, mask: Option<&Array>, training: bool) -> (r: Array)
        requires
            ids.shape.rank() >= 1,
            qwen3_next_ready(self.layers@),
        ensures
            r == self.output(*ids, given(mask), training),
    {
        broadcast use lemma_embed_rank;

        let mut h = self.embed_tokens.run(ids);
        let ghost x = h;
        let ghost was = self.layers@;
        let mut i: usize = 0;
        while i < self.layers.len()
            invariant
                i <= self.layers.len(),
                was == self.layers@,
                qwen3_next_ready(was),
                h.shape.rank() >= 2,
                h == qwen3_next_stack(was, i as nat, x, given(mask), training),
            decreases self.layers.len() - i,
        {
            if self.layers[i].is_linear {
                h = self.layers[i].run(&h, None, None, training);
            } else {
                h = self.layers[i].run(&h, mask, None, training);
            }
            i = i + 1;
        }
        self.norm.run(&h)
    }

    fn run_step(
        &self,
        i: usize,
        h: &Array,
        mask: Option<&Array>,
        kv_cache: Option<(&mut KVCache, usize)>,
        mamba_cache: Option<&mut MambaCacheEntry>,
    ) -> (r: Array)
        requires
            i < self.layers@.len(),
            h.shape.rank() >= 2,
            self.layers@[i as int].ready(),
        ensures
            ({
                let kv = match kv_cache {
                    Some(c) => Some((c.0@, c.1 as int)),
                    None => None,
                };
                let state = match mamba_cache {
                    Some(e) => Some(*e),
                    None => None,
                };
                let layer = self.layers@[i as int];
                let end = layer.step(*h, qwen3_next_layer_mask(layer, given(mask)), kv, state);
                &&& r == end.0
                &&& kv_cache matches Some(c) ==> Some(final(c.0)@) == end.1
                &&& mamba_cache matches Some(e) ==> Some(*final(e)) == end.2
            }),
            r.shape.rank() >= h.shape.rank(),
    {
        if self.layers[i].is_linear {
            self.layers[i].run_cached(h, None, kv_cache, mamba_cache)
        } else {
            self.layers[i].run_cached(h, mask, kv_cache, mamba_cache)
        }
    }

    fn run_from(
        &self,
        i: usize,
        h: Array,
        mask: Option<&Array>,
        kv_cache: Option<&mut KVCache>,
        mamba_cache: Option<&mut MambaCache>,
    ) -> (r: Array)
        requires
            i <= self.layers@.len(),
            h.shape.rank() >= 2,
            qwen3_next_ready(self.layers@),
        ensures
            ({
                let kv = match kv_cache {
                    Some(c) => Some(c@),
                    None => None,
                };
                let states = match mamba_cache {
                    Some(m) => Some(m@),
                    None => None,
                };
                let end = qwen3_next_steps(self.layers@, i as int, h, given(mask), kv, states);
                &&& r == end.0
                &&& kv_cache matches Some(c) ==> Some(final(c)@) == end.1
                &&& mamba_cache matches Some(m) ==> Some(final(m)@) == end.2
            }),
        decreases self.layers@.len() - i,
    {
        if i >= self.layers.len() {
            return h;
        }
        match (kv_cache, mamba_cache) {
            (Some(c), Some(m)) => {
                let next = self.run_step(i, &h, mask, Some((&mut *c, i)), m.get_mut(i));
                self.run_from(i + 1, next, mask, Some(c), Some(m))
            },
            (Some(c), None) => {
                let next = self.run_step(i, &h, mask, Some((&mut *c, i)), None);
                self.run_from(i + 1, next, mask, Some(c), None)
            },
            (None, Some(m)) => {
                let next = self.run_step(i, &h, mask, None, m.get_mut(i));
                self.run_from(i + 1, next, mask, None, Some(m))
            },
            (None, None) => {
                let next = self.run_step(i, &h, mask, None, None);
                self.run_from(i + 1, next, mask, None, None)
            },
        }
    }

    pub(crate) fn run_cached(
        &self,
        ids: &Array,
        mask: Option<&Array>,
        kv_cache: Option<&mut KVCache>,
        mamba_cache: Option<&mut MambaCache>,
    ) -> (r: Array)
        requires
            ids.shape.rank() >= 1,
            qwen3_next_ready(self.layers@),
        ensures
            ({
                let kv = match kv_cache {
                    Some(c) => Some(c@),
                    None => None,
                };
                let states = match mamba_cache {
                    Some(m) => Some(m@),
                    None => None,
                };
                let end = self.cached_output(*ids, given(mask), kv, states);
                &&& r == end.0
                &&& kv_cache matches Some(c) ==> Some(final(c)@) == end.1
                &&& mamba_cache matches Some(m) ==> Some(final(m)@) == end.2
            }),
    {
        broadcast use lemma_embed_rank;

        let h = self.embed_tokens.run(ids);
        let last = self.run_from(0, h, mask, kv_cache, mamba_cache);
        self.norm.run(&last)
    }

    /// The hidden states behind the last normalization. `training` says whether a training run is
    /// under way.
    pub fn forward(&self, input_ids: &Array, mask: Option<&Array>, training: bool) -> (r: Result<
        Array,
        LoraError,
    >)
        requires
            input_ids.shape.rank() >= 1,
            qwen3_next_ready(self.layers@),
        ensures
            outcome(r, self.output(*input_ids, given(mask), training)),
    {
        checked(self.run(input_ids, mask, training))
    }

    /// The same: checkpointing keeps the result.
    pub fn forward_with_checkpoint(
        &self,
        input_ids: &Array,
        mask: Option<&Array>,
        _checkpoint_config: Option<&CheckpointConfig>,
        training: bool,
    ) -> (r: Result<Array, LoraError>)
        requires
            input_ids.shape.rank() >= 1,
            qwen3_next_ready(self.layers@),
        ensures
            outcome(r, self.output(*input_ids, given(mask), training)),
    {
        checked(self.run(input_ids, mask, training))
    }

    /// The hidden states over what the caches hold and the input.
    pub fn forward_with_cache(
        &self,
        input_ids: &Array,
        mask: Option<&Array>,
        kv_cache: Option<&mut KVCache>,
        mamba_cache: Option<&mut MambaCache>,
    ) -> (r: Result<Array, LoraError>)
        requires
            input_ids.shape.rank() >= 1,
            qwen3_next_ready(self.layers@),
        ensures
            ({
                let kv = match kv_cache {
                    Some(c) => Some(c@),
                    None => None,
                };
                let states = match mamba_cache {
                    Some(m) => Some(m@),
                    None => None,
                };
                let end = self.cached_output(*input_ids, given(mask), kv, states);
                &&& outcome(r, end.0)
                &&& kv_cache matches Some(c) ==> Some(final(c)@) == end.1
                &&& mamba_cache matches Some(m) ==> Some(final(m)@) == end.2
            }),
    {
        checked(self.run_cached(input_ids, mask, kv_cache, mamba_cache))
    }

    /// The number of trainable elements.
    pub fn num_trainable_params(&self) -> (r: usize)
        requires
            stack_countable(self.layers@),
        ensures
            r == trainable_total(self.layers@),
    {
        count_trainable(&self.layers)
    }
}

/// The model with a head for logits.
#[derive(Debug)]
pub struct Qwen3NextLoraForCausalLM {
    pub model: Qwen3NextLoraModel,
    /// Absent where the embeddings serve as head.
    pub lm_head: Option<Linear>,
    pub checkpoint_config: Option<CheckpointConfig>,
}

impl Qwen3NextLoraForCausalLM {
    /// The logits.
    pub open spec fn output(self, ids: Array, mask: Option<Array>, training: bool) -> Array {
        logits(self.lm_head, self.model.embed_tokens, self.model.output(ids, mask, training))
    }

    /// A fresh model, its layers numbered from zero. Refused where an extent is negative.
    pub fn new(config: Qwen3NextConfig, lora_config: LoraConfig, ids: &mut LayerIds) -> (r: Result<
        Qwen3NextLoraForCausalLM,
        LoraError,
    >)
        requires
            config.valid(),
            lora_config.valid(),
        ensures
            match r {
                Ok(m) => {
                    &&& config.buildable()
                    &&& m.model.is_fresh(config, lora_config)
                    &&& m.lm_head == fresh_head(
                        config.tie_word_embeddings,
                        config.hidden_size,
                        config.vocab_size,
                    )
                    &&& m.checkpoint_config is None
                    &&& final(ids).next == config.full_before(config.num_hidden_layers as nat)
                },
                Err(e) => e is Mlx && !config.buildable() && final(ids).next
                    == config.numbered_when_refused(),
            },
    {
        let lm_head = make_head(config.tie_word_embeddings, config.hidden_size, config.vocab_size);
        match Qwen3NextLoraModel::new(config, lora_config, ids) {
            Ok(model) => Ok(Qwen3NextLoraForCausalLM { model, lm_head, checkpoint_config: None }),
            Err(e) => Err(e),
        }
    }

    /// The logits. `training` says whether a training run is under way.
    pub fn forward(&self, input_ids: &Array, mask: Option<&Array>, training: bool) -> (r: Result<
        Array,
        LoraError,
    >)
        requires
            input_ids.shape.rank() >= 1,
            qwen3_next_ready(self.model.layers@),
        ensures
            outcome(r, self.output(*input_ids, given(mask), training)),
    {
        let hidden = self.model.run(input_ids, mask, training);
        checked(run_logits(&self.lm_head, &self.model.embed_tokens, &hidden))
    }

    /// The same: positions follow from the states and the caches, whatever is given.
    pub fn forward_with_positions(
        &self,
        input_ids: &Array,
        mask: Option<&Array>,
        _position_ids: &Array,
        training: bool,
    ) -> (r: Result<Array, LoraError>)
        requires
            input_ids.shape.rank() >= 1,
            qwen3_next_ready(self.model.layers@),
        ensures
            outcome(r, self.output(*input_ids, given(mask), training)),
    {
        self.forward(input_ids, mask, training)
    }

    /// The logits over what the caches hold and the input.
    pub fn forward_with_cache(
        &self,
        input_ids: &Array,
        mask: Option<&Array>,
        kv_cache: Option<&mut KVCache>,
        mamba_cache: Option<&mut MambaCache>,
    ) -> (r: Result<Array, LoraError>)
        requires
            input_ids.shape.rank() >= 1,
            qwen3_next_ready(self.model.layers@),
        ensures
            ({
                let kv = match kv_cache {
                    Some(c) => Some(c@),
                    None => None,
                };
                let states = match mamba_cache {
                    Some(m) => Some(m@),
                    None => None,
                };
                let end = self.model.cached_output(*input_ids, given(mask), kv, states);
                &&& outcome(r, logits(self.lm_head, self.model.embed_tokens, end.0))
                &&& kv_cache matches Some(c) ==> Some(final(c)@) == end.1
                &&& mamba_cache matches Some(m) ==> Some(final(m)@) == end.2
            }),
    {
        let hidden = self.model.run_cached(input_ids, mask, kv_cache, mamba_cache);
        checked(run_logits(&self.lm_head, &self.model.embed_tokens, &hidden))
    }

    /// An empty cache of the model's extents.
    pub fn create_cache(&self, max_seq_len: usize) -> (r: KVCache)
        requires
            self.model.config.valid(),
            self.model.config.kv_heads() >= 0,
            self.model.config.head_size() >= 0,
        ensures
            r@ == KVCacheState::fresh(
                KVCacheConfig {
                    num_layers: self.model.config.num_hidden_layers as usize,
                    max_seq_len,
                    num_kv_heads: self.model.config.kv_heads() as usize,
                    head_dim: self.model.config.head_size() as usize,
                },
            ),
    {
        KVCache::new(
            KVCacheConfig::new(
                self.model.config.num_hidden_layers as usize,
                max_seq_len,
                self.model.config.get_num_kv_heads() as usize,
                self.model.config.get_head_dim() as usize,
            ),
        )
    }

    /// An empty state for each layer.
    pub fn create_mamba_cache(&self) -> (r: MambaCache)
        requires
            self.model.config.num_hidden_layers >= 0,
        ensures
            r@.len() == self.model.config.num_hidden_layers,
            forall|i: int|
                0 <= i < r@.len() ==> #[trigger] r@[i] == MambaCacheEntry::empty(),
    {
        MambaCache::new(self.model.config.num_hidden_layers as usize)
    }

    pub fn supports_kv_cache(&self) -> (r: bool)
        ensures
            r,
    {
        true
    }

    pub fn config(&self) -> (r: &Qwen3NextConfig)
        ensures
            *r == self.model.config,
    {
        &self.model.config
    }

    pub fn lora_config(&self) -> (r: &LoraConfig)
        ensures
            *r == self.model.lora_config,
    {
        &self.model.lora_config
    }

    /// The model with its layers replaced, and nothing else.
    pub open spec fn only_layers_changed(self, after: Qwen3NextLoraForCausalLM) -> bool {
        &&& after.model.config == self.model.config
        &&& after.model.lora_config == self.model.lora_config
        &&& after.model.embed_tokens == self.model.embed_tokens
        &&& after.model.norm == self.model.norm
        &&& after.lm_head == self.lm_head
        &&& after.checkpoint_config == self.checkpoint_config
    }

    /// Merges the adapters into the weights, layer by layer, up to the first that cannot be.
    pub fn merge_lora(&mut self) -> (r: Result<(), LoraError>)
        ensures
            r is Ok ==> stack_merged(old(self).model.layers@, final(self).model.layers@),
            r matches Err(e) ==> e is Mlx && stack_merge_stopped(
                old(self).model.layers@,
                final(self).model.layers@,
            ),
            old(self).only_layers_changed(*final(self)),
    {
        merge_layers(&mut self.model.layers)
    }

    /// Refused: a merge is undone by loading the frozen weights again.
    pub fn unmerge_lora(&mut self) -> (r: Result<(), LoraError>)
        ensures
            r matches Err(LoraError::InvalidState(what)) && what@
                == "unmerge_lora is not supported: reload base model weights to undo a merge"@,
            *final(self) == *old(self),
    {
        Err(
            LoraError::InvalidState(
                String::from_str(
                    "unmerge_lora is not supported: reload base model weights to undo a merge",
                ),
            ),
        )
    }

    /// Switches gradient checkpointing on.
    pub fn enable_gradient_checkpointing(&mut self, layers_per_block: usize)
        ensures
            *final(self) == (Qwen3NextLoraForCausalLM {
                checkpoint_config: Some(checkpointing(layers_per_block)),
                ..*old(self)
            }),
    {
        self.checkpoint_config = Some(make_checkpointing(layers_per_block));
    }

    /// Switches gradient checkpointing off.
    pub fn disable_gradient_checkpointing(&mut self)
        ensures
            *final(self) == (Qwen3NextLoraForCausalLM { checkpoint_config: None, ..*old(self) }),
    {
        self.checkpoint_config = None;
    }

    pub fn supports_gradient_checkpointing(&self) -> (r: bool)
        ensures
            r == true,
    {
        true
    }

    /// The number of trainable elements.
    pub fn num_trainable_params(&self) -> (r: usize)
        requires
            stack_countable(self.model.layers@),
        ensures
            r == trainable_total(self.model.layers@),
    {
        self.model.num_trainable_params()
    }

    /// The number of trainable elements.
    pub fn num_parameters(&self) -> (r: usize)
        requires
            stack_countable(self.model.layers@),
        ensures
            r == trainable_total(self.model.layers@),
    {
        self.model.num_trainable_params()
    }

    /// The matrices of all adapters, under their names.
    pub fn lora_parameters(&self) -> (r: NameMap<Array>)
        ensures
            r@ == parameter_map(NameStyle::Plain, self.model.layers@),
    {
        collect_parameters(&self.model.layers, NameStyle::Plain)
    }

    /// Replaces the adapters' matrices that the map names.
    pub fn set_lora_parameters(&mut self, params: &NameMap<Array>)
        ensures
            final(self).model.layers@ == assigned(
                NameStyle::Plain,
                old(self).model.layers@,
                params@,
            ),
            old(self).only_layers_changed(*final(self)),
    {
        assign_parameters(&mut self.model.layers, params, NameStyle::Plain);
    }

    /// The matrices of the adapters, layer by layer.
    pub fn parameters<'a>(&'a self) -> (r: Vec<LayerParamRef<'a>>)
        ensures
            lists_stack(r@, self.model.layers@),
    {
        parameter_refs(&self.model.layers)
    }

    /// The matrices of the adapters: all of them are trainable.
    pub fn trainable_parameters<'a>(&'a self) -> (r: Vec<LayerParamRef<'a>>)
        ensures
            lists_stack(r@, self.model.layers@),
    {
        parameter_refs(&self.model.layers)
    }

    /// The matrices of the adapters, layer by layer, open to replacement.
    pub fn parameters_mut<'a>(&'a mut self) -> (r: Vec<LayerParamMut<'a>>)
        ensures
            r@.len() == adapted_before(old(self).model.layers@, old(self).model.layers@.len()),
            forall|i: int|
                0 <= i < old(self).model.layers@.len() && (#[trigger] old(
                    self,
                ).model.layers@[i]).matrices().len() > 0 ==> {
                    let g = r@[adapted_before(old(self).model.layers@, i as nat) as int];
                    &&& g.layer == i
                    &&& g.entries@.len() == old(self).model.layers@[i].matrices().len()
                    &&& forall|j: int|
                        0 <= j < g.entries@.len() ==> {
                            &&& (#[trigger] g.entries@[j]).place == old(
                                self,
                            ).model.layers@[i].places()[j / 2]
                            &&& g.entries@[j].half == half_of(j)
                            &&& *g.entries@[j].value == old(self).model.layers@[i].matrices()[j]
                        }
                },
            final(self).model.layers@.len() == old(self).model.layers@.len(),
            forall|i: int|
                #![trigger final(self).model.layers@[i]]
                0 <= i < old(self).model.layers@.len() ==> {
                    let was = old(self).model.layers@[i];
                    let k = adapted_before(old(self).model.layers@, i as nat) as int;
                    &&& was.matrices().len() == 0 ==> final(self).model.layers@[i] == was
                    &&& was.matrices().len() > 0 ==> final(self).model.layers@[i]
                        == was.with_matrices(
                        Seq::new(r@[k].entries@.len(), |j: int| *final(r@[k].entries@[j].value)),
                    )
                },
            old(self).only_layers_changed(*final(self)),
    {
        stack_refs_mut(&mut self.model.layers)
    }

    /// Adapters cannot be frozen.
    pub fn freeze_parameters(&mut self, _recursive: bool)
        ensures
            *final(self) == *old(self),
    {
    }

    /// Adapters are never frozen.
    pub fn unfreeze_parameters(&mut self, _recursive: bool)
        ensures
            *final(self) == *old(self),
    {
    }

    pub fn all_frozen(&self) -> (r: Option<bool>)
        ensures
            r == Some(false),
    {
        Some(false)
    }

    pub fn any_frozen(&self) -> (r: Option<bool>)
        ensures
            r == Some(false),
    {
        Some(false)
    }

    /// The arrays to evaluate before the first use of the model, in order.
    pub fn eval_all(&self) -> (r: Vec<Array>)
        ensures
            r@ == model_evaluated(
                self.model.embed_tokens,
                self.model.layers@,
                self.model.norm,
                self.lm_head,
            ),
    {
        list_evaluated(
            &self.model.embed_tokens,
            &self.model.layers,
            &self.model.norm,
            &self.lm_head,
        )
    }

    /// Every weight that is held under the name of a part stands in that part; all else is as it
    /// was.
    pub open spec fn loads_to(
        self,
        after: Qwen3NextLoraForCausalLM,
        weights: Map<Seq<char>, Array>,
    ) -> bool {
        &&& after.model.layers@.len() == self.model.layers@.len()
        &&& forall|i: int|
            0 <= i < self.model.layers@.len() ==> #[trigger] after.model.layers@[i]
                == self.model.layers@[i].loaded(i as nat, weights)
        &&& after.model.embed_tokens == loaded_table(
            self.model.embed_tokens,
            weights,
            "model.embed_tokens.weight"@,
        )
        &&& after.model.norm == loaded_norm(
            self.model.norm,
            weights,
            "model.norm.weight"@,
        )
        &&& after.lm_head == loaded_head(self.lm_head, weights, "lm_head.weight"@)
        &&& after.model.config == self.model.config
        &&& after.model.lora_config == self.model.lora_config
        &&& after.checkpoint_config == self.checkpoint_config
    }

    /// Replaces the frozen weights that the map names. The adapters stay as they are.
    pub fn load_base_weights(&mut self, weights: &NameMap<Array>) -> (r: Result<(), LoraError>)
        ensures
            r is Ok,
            old(self).loads_to(*final(self), weights@),
            final(self).model.layers@.len() == old(self).model.layers@.len(),
            forall|i: int|
                0 <= i < old(self).model.layers@.len() ==> #[trigger] final(self).model.layers@[i]
                    == old(self).model.layers@[i].loaded(i as nat, weights@),
            final(self).model.embed_tokens == loaded_table(
                old(self).model.embed_tokens,
                weights@,
                "model.embed_tokens.weight"@,
            ),
            final(self).model.norm == loaded_norm(
                old(self).model.norm,
                weights@,
                "model.norm.weight"@,
            ),
            final(self).lm_head == loaded_head(old(self).lm_head, weights@, "lm_head.weight"@),
            final(self).model.config == old(self).model.config,
            final(self).model.lora_config == old(self).model.lora_config,
            final(self).checkpoint_config == old(self).checkpoint_config,
    {
        load_table(&mut self.model.embed_tokens, weights, "model.embed_tokens.weight");
        let ghost before = self.model.layers@;
        let mut i: usize = 0;
        while i < self.model.layers.len()
            invariant
                i <= self.model.layers@.len(),
                self.model.layers@.len() == before.len(),
                before == old(self).model.layers@,
                forall|j: int|
                    0 <= j < i ==> #[trigger] self.model.layers@[j] == before[j].loaded(
                        j as nat,
                        weights@,
                    ),
                forall|j: int|
                    i <= j < before.len() ==> #[trigger] self.model.layers@[j] == before[j],
                self.model.embed_tokens == loaded_table(
                    old(self).model.embed_tokens,
                    weights@,
                    "model.embed_tokens.weight"@,
                ),
                self.model.norm == old(self).model.norm,
                self.lm_head == old(self).lm_head,
                self.model.config == old(self).model.config,
                self.model.lora_config == old(self).model.lora_config,
                self.checkpoint_config == old(self).checkpoint_config,
            decreases self.model.layers.len() - i,
        {
            self.model.layers[i].load(i, weights);
            i = i + 1;
        }
        load_norm(&mut self.model.norm, weights, &String::from_str("model.norm.weight"));
        load_head(&mut self.lm_head, weights, "lm_head.weight");
        Ok(())
    }
}

} // verus!
