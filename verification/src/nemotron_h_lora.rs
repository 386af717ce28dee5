//! The hybrid Nemotron-H with adapters: state-space mixers stay frozen, attention, MLPs and the
//! shared experts are adapted.

use crate::array::{
    Array, AttentionMaskType, Function, FusedAttentionConfig, MambaConfig, RopeConfig, RouterConfig,
    apply, attend, lemma_combine_rank, lemma_embed_rank, lemma_rms_norm_shape, plus, reshape, rope,
    swap_inner,
};
use crate::attention::{
    given, make_merge_heads_to, make_rows_of, make_split_heads, make_unfit, merge_heads_to, rows_of,
    split_heads, unfit,
};
use crate::config::{
    CheckpointConfig, LoraConfig, checkpointing, effective_rank, make_checkpointing,
};
use crate::error::{LoraError, checked, misfit, outcome};
use crate::evaluation::{EvalLayer, list_evaluated, model_evaluated};
use crate::kv_cache::{KVCache, KVCacheState, MambaCache, MambaCacheEntry};
use crate::lora::{Adapter, LoraLinear};
use crate::mamba::{Conv1d, NemotronHMixer};
use crate::merging::{
    MergeLayer, MergeSteps, merge_layers, stack_merge_stopped, stack_merged, stops_at,
};
use crate::moe::{Expert, MoELayer};
use crate::name_map::NameMap;
use crate::names::{
    Half, NameStyle, Proj, Section, decimal, dotted, join, lemma_lora_name_injective, lora_name,
    to_decimal,
};
use crate::nemotron_h_qlora::loads;
use crate::nn::{
    Embedding, Linear, RmsNorm, fresh_head, get_logits_weight, logits, logits_weight, make_head,
    run_logits,
};
use crate::params::{
    LayerParamMut, LayerParamRef, LoraLayer, ParamMut, ParamRef, Place, adapted_before,
    adapter_refs_mut, assign_adapter, assign_parameters, assigned, at, collect_adapter,
    collect_parameters, count_trainable, half_of, lists_stack, lookup, name_at, parameter_map,
    parameter_refs, push_refs, stack_countable, stack_refs_mut, trainable_total, with_named,
};
use crate::params_laws::{law_parameter_names, names_matrix};
use crate::scalar::{F32, ONE_BITS, Scale};
use crate::shape::Shape;
use crate::weights::{
    base_name, load_array, load_head, load_linear, load_lora, load_norm, load_table, loaded,
    loaded_head, loaded_linear, loaded_norm, make_base_name, make_part_name, part_name,
};
use vstd::prelude::*;
use vstd::string::*;

verus! {

/// The extents and settings of a Nemotron-H model.
#[derive(Clone, Copy, PartialEq, Eq, Structural, Debug)]
pub struct NemotronHDims {
    pub vocab_size: i32,
    pub hidden_size: i32,
    pub intermediate_size: i32,
    pub num_attention_heads: i32,
    pub num_key_value_heads: i32,
    /// The hidden size over the number of query heads where not given.
    pub head_dim: Option<i32>,
    pub mamba: MambaConfig,
    pub mamba_proj_bias: bool,
    pub use_conv_bias: bool,
    pub mlp_bias: bool,
    pub layer_norm_epsilon: F32,
    pub rope_theta: F32,
    pub tie_word_embeddings: bool,
    /// Eight where not given.
    pub n_routed_experts: Option<i32>,
    /// Two where not given.
    pub num_experts_per_tok: Option<i32>,
    /// One where not given.
    pub n_group: Option<i32>,
    /// One where not given.
    pub topk_group: Option<i32>,
    /// No where not given.
    pub norm_topk_prob: Option<bool>,
    /// The intermediate size where not given.
    pub moe_intermediate_size: Option<i32>,
    /// The size of a routed expert where not given.
    pub moe_shared_expert_intermediate_size: Option<i32>,
    /// None where not given.
    pub n_shared_experts: Option<i32>,
    /// One where not given.
    pub routed_scaling_factor: Option<F32>,
}

/// A Nemotron-H model: its extents, and the kind of each block: `M` for a state-space mixer, `*`
/// for attention, `-` for an MLP, `E` for experts.
#[derive(Debug)]
pub struct NemotronHConfig {
    pub dims: NemotronHDims,
    pub layer_types: Vec<char>,
}

pub open spec fn value_or(x: Option<i32>, other: i32) -> i32 {
    match x {
        Some(v) => v,
        None => other,
    }
}

fn pick_value(x: Option<i32>, other: i32) -> (r: i32)
    ensures
        r == value_or(x, other),
{
    match x {
        Some(v) => v,
        None => other,
    }
}

impl NemotronHDims {
    pub open spec fn head_size(self) -> i32 {
        match self.head_dim {
            Some(d) => d,
            None => (self.hidden_size / self.num_attention_heads) as i32,
        }
    }

    pub open spec fn expert_size(self) -> i32 {
        value_or(self.moe_intermediate_size, self.intermediate_size)
    }

    pub open spec fn shared_size(self) -> i32 {
        value_or(self.moe_shared_expert_intermediate_size, self.expert_size())
    }

    pub open spec fn shared(self) -> bool {
        value_or(self.n_shared_experts, 0) > 0
    }

    pub open spec fn router(self) -> RouterConfig {
        RouterConfig {
            num_experts: value_or(self.n_routed_experts, 8),
            top_k: value_or(self.num_experts_per_tok, 2),
            n_group: value_or(self.n_group, 1),
            topk_group: value_or(self.topk_group, 1),
            norm_topk_prob: match self.norm_topk_prob {
                Some(b) => b,
                None => false,
            },
            routed_scaling_factor: match self.routed_scaling_factor {
                Some(f) => f,
                None => F32 { bits: ONE_BITS },
            },
        }
    }

    /// The extents of a head follow, and the widths of all heads and of the mixers fit a machine
    /// word.
    pub open spec fn valid(self) -> bool {
        &&& self.head_dim is None ==> self.num_attention_heads > 0 && self.hidden_size >= 0
        &&& i32::MIN <= self.num_attention_heads * self.head_size() <= i32::MAX
        &&& i32::MIN <= self.num_key_value_heads * self.head_size() <= i32::MAX
        &&& self.mamba.valid()
    }

    pub fn attention_head_dim(&self) -> (r: i32)
        requires
            self.valid(),
        ensures
            r == self.head_size(),
    {
        match self.head_dim {
            Some(d) => d,
            None => self.hidden_size / self.num_attention_heads,
        }
    }

    fn make_router(&self) -> (r: RouterConfig)
        ensures
            r == self.router(),
    {
        RouterConfig {
            num_experts: pick_value(self.n_routed_experts, 8),
            top_k: pick_value(self.num_experts_per_tok, 2),
            n_group: pick_value(self.n_group, 1),
            topk_group: pick_value(self.topk_group, 1),
            norm_topk_prob: match self.norm_topk_prob {
                Some(b) => b,
                None => false,
            },
            routed_scaling_factor: match self.routed_scaling_factor {
                Some(f) => f,
                None => F32 { bits: ONE_BITS },
            },
        }
    }
}

impl NemotronHConfig {
    /// The same settings once more.
    pub fn duplicate(&self) -> (r: NemotronHConfig)
        ensures
            r.dims == self.dims,
            r.layer_types@ == self.layer_types@,
    {
        let mut layer_types: Vec<char> = Vec::new();
        let mut i: usize = 0;
        while i < self.layer_types.len()
            invariant
                i <= self.layer_types@.len(),
                layer_types@ == self.layer_types@.take(i as int),
            decreases self.layer_types.len() - i,
        {
            layer_types.push(self.layer_types[i]);
            assert(layer_types@ =~= self.layer_types@.take(i + 1));
            i = i + 1;
        }
        assert(layer_types@ =~= self.layer_types@);
        NemotronHConfig { dims: self.dims, layer_types }
    }
}

/// Grouped-query attention with adapters on its four projections.
#[derive(Debug)]
pub struct NemotronHLoraAttention {
    pub num_heads: i32,
    pub num_kv_heads: i32,
    pub head_dim: i32,
    pub scale: Scale,
    pub rope_theta: F32,
    pub q_proj: LoraLinear,
    pub k_proj: LoraLinear,
    pub v_proj: LoraLinear,
    pub o_proj: LoraLinear,
}

impl NemotronHLoraAttention {
    /// The layer of a fresh model.
    pub open spec fn fresh(dims: NemotronHDims, lora: LoraConfig) -> NemotronHLoraAttention {
        let d = dims.head_size();
        let h = dims.hidden_size;
        let q = (dims.num_attention_heads * d) as i32;
        let kv = (dims.num_key_value_heads * d) as i32;
        let rs = lora.use_rslora;
        let b = lora.use_dora;
        NemotronHLoraAttention {
            num_heads: dims.num_attention_heads,
            num_kv_heads: dims.num_key_value_heads,
            head_dim: d,
            scale: Scale::InverseSqrt { n: d },
            rope_theta: dims.rope_theta,
            q_proj: LoraLinear::fresh(h, q, lora.rank_of(Proj::Q), lora.alpha, rs, b),
            k_proj: LoraLinear::fresh(h, kv, lora.rank_of(Proj::K), lora.alpha, rs, b),
            v_proj: LoraLinear::fresh(h, kv, lora.rank_of(Proj::V), lora.alpha, rs, b),
            o_proj: LoraLinear::fresh(q, h, lora.rank_of(Proj::O), lora.alpha, rs, b),
        }
    }

    /// No extent is negative.
    pub open spec fn buildable(dims: NemotronHDims) -> bool {
        dims.hidden_size >= 0 && dims.num_attention_heads * dims.head_size() >= 0
            && dims.num_key_value_heads * dims.head_size() >= 0
    }

    pub open spec fn rope(self) -> RopeConfig {
        RopeConfig { dims: self.head_dim, base: self.rope_theta, scale: F32 { bits: ONE_BITS } }
    }

    /// Causal.
    pub open spec fn fused_config(self) -> FusedAttentionConfig {
        FusedAttentionConfig {
            num_heads: self.num_heads,
            num_kv_heads: self.num_kv_heads,
            head_dim: self.head_dim,
            scale: self.scale,
            mask_type: AttentionMaskType::Causal,
        }
    }

    /// Rotated queries, rotated keys and values of the input.
    pub open spec fn parts(self, x: Array, offset: i32) -> (Array, Array, Array) {
        let b = x.shape.outer();
        let l = x.shape.second();
        (
            rope(
                split_heads(self.q_proj.output(x), b, l, self.num_heads, self.head_dim),
                self.rope(),
                offset,
            ),
            rope(
                split_heads(self.k_proj.output(x), b, l, self.num_kv_heads, self.head_dim),
                self.rope(),
                offset,
            ),
            split_heads(self.v_proj.output(x), b, l, self.num_kv_heads, self.head_dim),
        )
    }

    /// Fused attention of rotated queries and keys, projected.
    pub open spec fn fused(
        self,
        x: Array,
        q: Array,
        k: Array,
        v: Array,
        mask: Option<Array>,
    ) -> Array {
        let mixed = attend(q, k, v, self.fused_config(), mask);
        self.o_proj.output(
            merge_heads_to(
                mixed,
                x.shape.outer(),
                x.shape.second(),
                (self.num_heads * self.head_dim) as i32,
            ),
        )
    }

    /// Attention over the input alone.
    pub open spec fn output(self, x: Array, mask: Option<Array>) -> Array {
        let p = self.parts(x, 0);
        self.fused(x, p.0, p.1, p.2, mask)
    }

    /// Attention over what the cache holds and the input, and the cache behind it. An input that
    /// does not fit leaves the cache as it is.
    pub open spec fn cached_output(
        self,
        x: Array,
        mask: Option<Array>,
        cache: KVCacheState,
        layer: int,
    ) -> (Array, KVCacheState) {
        let p = self.parts(x, cache.offset);
        if p.0.fits && p.1.fits && p.2.fits && cache.accepts(layer, p.1, p.2) {
            let both = cache.joined(layer, p.1, p.2);
            (self.fused(x, p.0, both.0, both.1, mask), cache.extended(layer, p.1, p.2))
        } else {
            (self.o_proj.output(unfit(x)), cache)
        }
    }

    /// The width of all heads fits a machine word.
    pub open spec fn ready(self) -> bool {
        i32::MIN <= self.num_heads * self.head_dim <= i32::MAX
    }

    /// A fresh layer. Refused where an extent is negative.
    pub fn new(dims: &NemotronHDims, lora_config: &LoraConfig) -> (r: Result<
        NemotronHLoraAttention,
        LoraError,
    >)
        requires
            dims.valid(),
            lora_config.valid(),
        ensures
            match r {
                Ok(a) => NemotronHLoraAttention::buildable(*dims) && a
                    == NemotronHLoraAttention::fresh(*dims, *lora_config),
                Err(e) => e is Mlx && !NemotronHLoraAttention::buildable(*dims),
            },
    {
        let head_dim = dims.attention_head_dim();
        let hidden = dims.hidden_size;
        let alpha = lora_config.alpha;
        let rs = lora_config.use_rslora;
        let bias = lora_config.use_dora;
        let q: i32 = dims.num_attention_heads * head_dim;
        let kv: i32 = dims.num_key_value_heads * head_dim;
        match (
            LoraLinear::new(hidden, q, effective_rank(lora_config, Proj::Q), alpha, rs, bias),
            LoraLinear::new(hidden, kv, effective_rank(lora_config, Proj::K), alpha, rs, bias),
            LoraLinear::new(hidden, kv, effective_rank(lora_config, Proj::V), alpha, rs, bias),
            LoraLinear::new(q, hidden, effective_rank(lora_config, Proj::O), alpha, rs, bias),
        ) {
            (Ok(q_proj), Ok(k_proj), Ok(v_proj), Ok(o_proj)) => Ok(
                NemotronHLoraAttention {
                    num_heads: dims.num_attention_heads,
                    num_kv_heads: dims.num_key_value_heads,
                    head_dim,
                    scale: Scale::InverseSqrt { n: head_dim },
                    rope_theta: dims.rope_theta,
                    q_proj,
                    k_proj,
                    v_proj,
                    o_proj,
                },
            ),
            _ => Err(misfit()),
        }
    }

    fn run_parts(&self, x: &Array, offset: i32) -> (r: (Array, Array, Array))
        requires
            x.shape.rank() >= 2,
        ensures
            r == self.parts(*x, offset),
    {
        let (batch, length) = x.shape.outer_two();
        let rope = RopeConfig {
            dims: self.head_dim,
            base: self.rope_theta,
            scale: F32 { bits: ONE_BITS },
        };
        let q = self.q_proj.run(x);
        let k = self.k_proj.run(x);
        let v = self.v_proj.run(x);
        (
            make_split_heads(&q, batch, length, self.num_heads, self.head_dim).rope(rope, offset),
            make_split_heads(&k, batch, length, self.num_kv_heads, self.head_dim).rope(
                rope,
                offset,
            ),
            make_split_heads(&v, batch, length, self.num_kv_heads, self.head_dim),
        )
    }

    fn run_fused(
        &self,
        x: &Array,
        q: &Array,
        k: &Array,
        v: &Array,
        mask: Option<&Array>,
    ) -> (r: Array)
        requires
            x.shape.rank() >= 2,
            self.ready(),
        ensures
            r == self.fused(*x, *q, *k, *v, given(mask)),
    {
        let (batch, length) = x.shape.outer_two();
        let config = FusedAttentionConfig {
            num_heads: self.num_heads,
            num_kv_heads: self.num_kv_heads,
            head_dim: self.head_dim,
            scale: self.scale,
            mask_type: AttentionMaskType::Causal,
        };
        let mixed = q.attend(k, v, config, mask);
        let width: i32 = self.num_heads * self.head_dim;
        self.o_proj.run(&make_merge_heads_to(&mixed, batch, length, width))
    }

    pub(crate) fn run(&self, x: &Array, mask: Option<&Array>) -> (r: Array)
        requires
            x.shape.rank() >= 2,
            self.ready(),
        ensures
            r == self.output(*x, given(mask)),
    {
        let (q, k, v) = self.run_parts(x, 0);
        self.run_fused(x, &q, &k, &v, mask)
    }

    pub(crate) fn run_cached(
        &self,
        x: &Array,
        mask: Option<&Array>,
        cache: &mut KVCache,
        layer: usize,
    ) -> (r: Array)
        requires
            x.shape.rank() >= 2,
            self.ready(),
        ensures
            (r, final(cache)@) == self.cached_output(
                *x,
                given(mask),
                old(cache)@,
                layer as int,
            ),
    {
        let offset = cache.rope_offset();
        let (q, k, v) = self.run_parts(x, offset);
        if q.fits && k.fits && v.fits {
            match cache.update_and_fetch(layer, &k, &v) {
                Ok((keys, values)) => {
                    return self.run_fused(x, &q, &keys, &values, mask);
                },
                Err(_) => {},
            }
        }
        self.o_proj.run(&make_unfit(x))
    }

    /// Attention over the input alone.
    pub fn forward(&self, x: &Array, mask: Option<&Array>) -> (r: Result<Array, LoraError>)
        requires
            x.shape.rank() >= 2,
            self.ready(),
        ensures
            outcome(r, self.output(*x, given(mask))),
    {
        checked(self.run(x, mask))
    }

    /// Attention over what the cache holds for the layer and the input.
    pub fn forward_with_cache(
        &self,
        x: &Array,
        mask: Option<&Array>,
        cache: Option<(&mut KVCache, usize)>,
    ) -> (r: Result<Array, LoraError>)
        requires
            x.shape.rank() >= 2,
            self.ready(),
        ensures
            match cache {
                Some(c) => {
                    let end = self.cached_output(*x, given(mask), c.0@, c.1 as int);
                    outcome(r, end.0) && final(c.0)@ == end.1
                },
                None => outcome(r, self.output(*x, given(mask))),
            },
    {
        match cache {
            Some((c, layer)) => checked(self.run_cached(x, mask, c, layer)),
            None => checked(self.run(x, mask)),
        }
    }

    /// The number of trainable elements.
    pub fn num_trainable_params(&self) -> (r: usize)
        requires
            self.countable(),
            LoraLayer::trainable(*self) <= usize::MAX,
        ensures
            r == LoraLayer::trainable(*self),
    {
        self.q_proj.num_trainable_params() + self.k_proj.num_trainable_params()
            + self.v_proj.num_trainable_params() + self.o_proj.num_trainable_params()
    }

    /// The layer with the frozen weights that have its names.
    pub open spec fn loaded(
        self,
        i: nat,
        weights: Map<Seq<char>, Array>,
    ) -> NemotronHLoraAttention {
        NemotronHLoraAttention {
            q_proj: loaded(
                self.q_proj,
                weights,
                base_name("backbone"@, i, Section::Mixer, Proj::Q),
            ),
            k_proj: loaded(
                self.k_proj,
                weights,
                base_name("backbone"@, i, Section::Mixer, Proj::K),
            ),
            v_proj: loaded(
                self.v_proj,
                weights,
                base_name("backbone"@, i, Section::Mixer, Proj::V),
            ),
            o_proj: loaded(
                self.o_proj,
                weights,
                base_name("backbone"@, i, Section::Mixer, Proj::O),
            ),
            ..self
        }
    }

    fn load(&mut self, i: usize, weights: &NameMap<Array>)
        ensures
            *final(self) == old(self).loaded(i as nat, weights@),
    {
        load_lora(
            &mut self.q_proj,
            weights,
            &make_base_name("backbone", i, Section::Mixer, Proj::Q),
        );
        load_lora(
            &mut self.k_proj,
            weights,
            &make_base_name("backbone", i, Section::Mixer, Proj::K),
        );
        load_lora(
            &mut self.v_proj,
            weights,
            &make_base_name("backbone", i, Section::Mixer, Proj::V),
        );
        load_lora(
            &mut self.o_proj,
            weights,
            &make_base_name("backbone", i, Section::Mixer, Proj::O),
        );
    }
}

impl LoraLayer for NemotronHLoraAttention {
    open spec fn places(self) -> Seq<Place> {
        seq![
            at(Section::Mixer, Proj::Q), at(Section::Mixer, Proj::K), at(Section::Mixer, Proj::V),
            at(Section::Mixer, Proj::O)
        ]
    }

    open spec fn matrices(self) -> Seq<Array> {
        seq![
            self.q_proj.a(), self.q_proj.b(), self.k_proj.a(), self.k_proj.b(), self.v_proj.a(),
            self.v_proj.b(), self.o_proj.a(), self.o_proj.b()
        ]
    }

    open spec fn with_matrices(self, m: Seq<Array>) -> NemotronHLoraAttention {
        NemotronHLoraAttention {
            q_proj: self.q_proj.with(m[0], m[1]),
            k_proj: self.k_proj.with(m[2], m[3]),
            v_proj: self.v_proj.with(m[4], m[5]),
            o_proj: self.o_proj.with(m[6], m[7]),
            ..self
        }
    }

    open spec fn trainable(self) -> nat {
        self.q_proj.trainable() + self.k_proj.trainable() + self.v_proj.trainable()
            + self.o_proj.trainable()
    }

    open spec fn countable(self) -> bool {
        self.q_proj.countable() && self.k_proj.countable() && self.v_proj.countable()
            && self.o_proj.countable()
    }

    proof fn lemma_layer(self, m: Seq<Array>) {
        assert(self.with_matrices(m).matrices() =~= m);
    }

    fn collect(&self, params: &mut NameMap<Array>, style: NameStyle, layer: usize) {
        proof {
            reveal_with_fuel(with_named, 9);
        }
        collect_adapter(&self.q_proj, params, style, layer, Section::Mixer, Proj::Q);
        collect_adapter(&self.k_proj, params, style, layer, Section::Mixer, Proj::K);
        collect_adapter(&self.v_proj, params, style, layer, Section::Mixer, Proj::V);
        collect_adapter(&self.o_proj, params, style, layer, Section::Mixer, Proj::O);
    }

    fn assign(&mut self, params: &NameMap<Array>, style: NameStyle, layer: usize) {
        assign_adapter(&mut self.q_proj, params, style, layer, Section::Mixer, Proj::Q);
        assign_adapter(&mut self.k_proj, params, style, layer, Section::Mixer, Proj::K);
        assign_adapter(&mut self.v_proj, params, style, layer, Section::Mixer, Proj::V);
        assign_adapter(&mut self.o_proj, params, style, layer, Section::Mixer, Proj::O);
    }

    fn refs<'a>(&'a self) -> (r: Vec<ParamRef<'a>>) {
        let mut r: Vec<ParamRef<'a>> = Vec::new();
        push_refs(&self.q_proj, Section::Mixer, Proj::Q, &mut r);
        push_refs(&self.k_proj, Section::Mixer, Proj::K, &mut r);
        push_refs(&self.v_proj, Section::Mixer, Proj::V, &mut r);
        push_refs(&self.o_proj, Section::Mixer, Proj::O, &mut r);
        r
    }

    fn refs_mut<'a>(&'a mut self) -> (r: Vec<ParamMut<'a>>) {
        let mut r: Vec<ParamMut<'a>> = Vec::new();
        let (a, b) = adapter_refs_mut(&mut self.q_proj, Section::Mixer, Proj::Q);
        r.push(a);
        r.push(b);
        let (a, b) = adapter_refs_mut(&mut self.k_proj, Section::Mixer, Proj::K);
        r.push(a);
        r.push(b);
        let (a, b) = adapter_refs_mut(&mut self.v_proj, Section::Mixer, Proj::V);
        r.push(a);
        r.push(b);
        let (a, b) = adapter_refs_mut(&mut self.o_proj, Section::Mixer, Proj::O);
        r.push(a);
        r.push(b);
        r
    }

    fn count(&self) -> (r: usize) {
        self.num_trainable_params()
    }
}

impl MergeSteps for NemotronHLoraAttention {
    open spec fn merge_steps(self) -> nat {
        4
    }

    open spec fn can_merge(self, k: int) -> bool {
        if k == 0 {
            self.q_proj.mergeable()
        } else if k == 1 {
            self.k_proj.mergeable()
        } else if k == 2 {
            self.v_proj.mergeable()
        } else {
            self.o_proj.mergeable()
        }
    }

    open spec fn merged_first(self, k: int) -> NemotronHLoraAttention {
        NemotronHLoraAttention {
            q_proj: if k > 0 { self.q_proj.merge_result() } else { self.q_proj },
            k_proj: if k > 1 { self.k_proj.merge_result() } else { self.k_proj },
            v_proj: if k > 2 { self.v_proj.merge_result() } else { self.v_proj },
            o_proj: if k > 3 { self.o_proj.merge_result() } else { self.o_proj },
            ..self
        }
    }
}

impl MergeLayer for NemotronHLoraAttention {
    fn merge_all(&mut self) -> (r: Result<(), LoraError>) {
        if self.q_proj.merge().is_err() {
            assert(stops_at(*old(self), 0));
            return Err(misfit());
        }
        if self.k_proj.merge().is_err() {
            assert(stops_at(*old(self), 1));
            return Err(misfit());
        }
        if self.v_proj.merge().is_err() {
            assert(stops_at(*old(self), 2));
            return Err(misfit());
        }
        if self.o_proj.merge().is_err() {
            assert(stops_at(*old(self), 3));
            return Err(misfit());
        }
        Ok(())
    }
}

/// `relu(up(x))` squared.
pub open spec fn nemotron_activated(up: Array) -> Array {
    apply(Function::Square, apply(Function::Relu, up))
}

/// MLP with adapters on its two projections: `down(relu(up(x))^2)`.
#[derive(Debug)]
pub struct NemotronHLoraMLP {
    pub up_proj: LoraLinear,
    pub down_proj: LoraLinear,
}

impl NemotronHLoraMLP {
    /// The layer of a fresh model.
    pub open spec fn fresh(dim: i32, hidden_dim: i32, lora: LoraConfig) -> NemotronHLoraMLP {
        let rs = lora.use_rslora;
        let b = lora.use_dora;
        NemotronHLoraMLP {
            up_proj: LoraLinear::fresh(dim, hidden_dim, lora.rank_of(Proj::Up), lora.alpha, rs, b),
            down_proj: LoraLinear::fresh(
                hidden_dim,
                dim,
                lora.rank_of(Proj::Down),
                lora.alpha,
                rs,
                b,
            ),
        }
    }

    /// `down(relu(up(x))^2)`.
    pub open spec fn output(self, x: Array) -> Array {
        self.down_proj.output(nemotron_activated(self.up_proj.output(x)))
    }

    /// A fresh layer. Refused where an extent is negative.
    pub fn new(dim: i32, hidden_dim: i32, lora_config: &LoraConfig) -> (r: Result<
        NemotronHLoraMLP,
        LoraError,
    >)
        requires
            lora_config.valid(),
        ensures
            match r {
                Ok(m) => dim >= 0 && hidden_dim >= 0 && m == NemotronHLoraMLP::fresh(
                    dim,
                    hidden_dim,
                    *lora_config,
                ),
                Err(e) => e is Mlx && !(dim >= 0 && hidden_dim >= 0),
            },
    {
        let alpha = lora_config.alpha;
        let rs = lora_config.use_rslora;
        let bias = lora_config.use_dora;
        match (
            LoraLinear::new(
                dim,
                hidden_dim,
                effective_rank(lora_config, Proj::Up),
                alpha,
                rs,
                bias,
            ),
            LoraLinear::new(
                hidden_dim,
                dim,
                effective_rank(lora_config, Proj::Down),
                alpha,
                rs,
                bias,
            ),
        ) {
            (Ok(up_proj), Ok(down_proj)) => Ok(NemotronHLoraMLP { up_proj, down_proj }),
            _ => Err(misfit()),
        }
    }

    pub(crate) fn run(&self, x: &Array) -> (r: Array)
        ensures
            r == self.output(*x),
    {
        let up = self.up_proj.run(x);
        self.down_proj.run(&up.apply(Function::Relu).apply(Function::Square))
    }

    /// `down(relu(up(x))^2)`.
    pub fn forward(&self, x: &Array) -> (r: Result<Array, LoraError>)
        ensures
            outcome(r, self.output(*x)),
    {
        checked(self.run(x))
    }

    /// The number of trainable elements.
    pub fn num_trainable_params(&self) -> (r: usize)
        requires
            self.countable(),
            LoraLayer::trainable(*self) <= usize::MAX,
        ensures
            r == LoraLayer::trainable(*self),
    {
        self.up_proj.num_trainable_params() + self.down_proj.num_trainable_params()
    }

    /// The layer with the frozen weights that have its names.
    pub open spec fn loaded(self, i: nat, weights: Map<Seq<char>, Array>) -> NemotronHLoraMLP {
        NemotronHLoraMLP {
            up_proj: loaded(
                self.up_proj,
                weights,
                base_name("backbone"@, i, Section::Mixer, Proj::Up),
            ),
            down_proj: loaded(
                self.down_proj,
                weights,
                base_name("backbone"@, i, Section::Mixer, Proj::Down),
            ),
            ..self
        }
    }

    fn load(&mut self, i: usize, weights: &NameMap<Array>)
        ensures
            *final(self) == old(self).loaded(i as nat, weights@),
    {
        load_lora(
            &mut self.up_proj,
            weights,
            &make_base_name("backbone", i, Section::Mixer, Proj::Up),
        );
        load_lora(
            &mut self.down_proj,
            weights,
            &make_base_name("backbone", i, Section::Mixer, Proj::Down),
        );
    }
}

impl LoraLayer for NemotronHLoraMLP {
    open spec fn places(self) -> Seq<Place> {
        seq![at(Section::Mixer, Proj::Up), at(Section::Mixer, Proj::Down)]
    }

    open spec fn matrices(self) -> Seq<Array> {
        seq![self.up_proj.a(), self.up_proj.b(), self.down_proj.a(), self.down_proj.b()]
    }

    open spec fn with_matrices(self, m: Seq<Array>) -> NemotronHLoraMLP {
        NemotronHLoraMLP {
            up_proj: self.up_proj.with(m[0], m[1]),
            down_proj: self.down_proj.with(m[2], m[3]),
            ..self
        }
    }

    open spec fn trainable(self) -> nat {
        self.up_proj.trainable() + self.down_proj.trainable()
    }

    open spec fn countable(self) -> bool {
        self.up_proj.countable() && self.down_proj.countable()
    }

    proof fn lemma_layer(self, m: Seq<Array>) {
        assert(self.with_matrices(m).matrices() =~= m);
    }

    fn collect(&self, params: &mut NameMap<Array>, style: NameStyle, layer: usize) {
        proof {
            reveal_with_fuel(with_named, 5);
        }
        collect_adapter(&self.up_proj, params, style, layer, Section::Mixer, Proj::Up);
        collect_adapter(&self.down_proj, params, style, layer, Section::Mixer, Proj::Down);
    }

    fn assign(&mut self, params: &NameMap<Array>, style: NameStyle, layer: usize) {
        assign_adapter(&mut self.up_proj, params, style, layer, Section::Mixer, Proj::Up);
        assign_adapter(&mut self.down_proj, params, style, layer, Section::Mixer, Proj::Down);
    }

    fn refs<'a>(&'a self) -> (r: Vec<ParamRef<'a>>) {
        let mut r: Vec<ParamRef<'a>> = Vec::new();
        push_refs(&self.up_proj, Section::Mixer, Proj::Up, &mut r);
        push_refs(&self.down_proj, Section::Mixer, Proj::Down, &mut r);
        r
    }

    fn refs_mut<'a>(&'a mut self) -> (r: Vec<ParamMut<'a>>) {
        let mut r: Vec<ParamMut<'a>> = Vec::new();
        let (a, b) = adapter_refs_mut(&mut self.up_proj, Section::Mixer, Proj::Up);
        r.push(a);
        r.push(b);
        let (a, b) = adapter_refs_mut(&mut self.down_proj, Section::Mixer, Proj::Down);
        r.push(a);
        r.push(b);
        r
    }

    fn count(&self) -> (r: usize) {
        self.num_trainable_params()
    }
}

impl MergeSteps for NemotronHLoraMLP {
    open spec fn merge_steps(self) -> nat {
        2
    }

    open spec fn can_merge(self, k: int) -> bool {
        if k == 0 {
            self.up_proj.mergeable()
        } else {
            self.down_proj.mergeable()
        }
    }

    open spec fn merged_first(self, k: int) -> NemotronHLoraMLP {
        NemotronHLoraMLP {
            up_proj: if k > 0 { self.up_proj.merge_result() } else { self.up_proj },
            down_proj: if k > 1 { self.down_proj.merge_result() } else { self.down_proj },
            ..self
        }
    }
}

impl MergeLayer for NemotronHLoraMLP {
    fn merge_all(&mut self) -> (r: Result<(), LoraError>) {
        if self.up_proj.merge().is_err() {
            assert(stops_at(*old(self), 0));
            return Err(misfit());
        }
        if self.down_proj.merge().is_err() {
            assert(stops_at(*old(self), 1));
            return Err(misfit());
        }
        Ok(())
    }
}

/// The expert that every token goes through, with adapters on its two projections.
#[derive(Debug)]
pub struct NemotronHLoraSharedExpert {
    pub up_proj: LoraLinear,
    pub down_proj: LoraLinear,
}

impl NemotronHLoraSharedExpert {
    /// The layer of a fresh model.
    pub open spec fn fresh(
        dim: i32,
        hidden_dim: i32,
        lora: LoraConfig,
    ) -> NemotronHLoraSharedExpert {
        let rs = lora.use_rslora;
        let b = lora.use_dora;
        NemotronHLoraSharedExpert {
            up_proj: LoraLinear::fresh(dim, hidden_dim, lora.rank_of(Proj::Up), lora.alpha, rs, b),
            down_proj: LoraLinear::fresh(
                hidden_dim,
                dim,
                lora.rank_of(Proj::Down),
                lora.alpha,
                rs,
                b,
            ),
        }
    }

    /// `down(relu(up(x))^2)`.
    pub open spec fn output(self, x: Array) -> Array {
        self.down_proj.output(nemotron_activated(self.up_proj.output(x)))
    }

    /// A fresh layer. Refused where an extent is negative.
    pub fn new(hidden_size: i32, intermediate_size: i32, lora_config: &LoraConfig) -> (r: Result<
        NemotronHLoraSharedExpert,
        LoraError,
    >)
        requires
            lora_config.valid(),
        ensures
            match r {
                Ok(m) => hidden_size >= 0 && intermediate_size >= 0 && m
                    == NemotronHLoraSharedExpert::fresh(
                    hidden_size,
                    intermediate_size,
                    *lora_config,
                ),
                Err(e) => e is Mlx && !(hidden_size >= 0 && intermediate_size >= 0),
            },
    {
        match NemotronHLoraMLP::new(hidden_size, intermediate_size, lora_config) {
            Ok(inner) => Ok(
                NemotronHLoraSharedExpert { up_proj: inner.up_proj, down_proj: inner.down_proj },
            ),
            Err(e) => Err(e),
        }
    }

    pub(crate) fn run(&self, x: &Array) -> (r: Array)
        ensures
            r == self.output(*x),
    {
        let up = self.up_proj.run(x);
        self.down_proj.run(&up.apply(Function::Relu).apply(Function::Square))
    }

    /// `down(relu(up(x))^2)`.
    pub fn forward(&self, x: &Array) -> (r: Result<Array, LoraError>)
        ensures
            outcome(r, self.output(*x)),
    {
        checked(self.run(x))
    }

    /// The number of trainable elements.
    pub fn num_trainable_params(&self) -> (r: usize)
        requires
            self.countable(),
            LoraLayer::trainable(*self) <= usize::MAX,
        ensures
            r == LoraLayer::trainable(*self),
    {
        self.up_proj.num_trainable_params() + self.down_proj.num_trainable_params()
    }
}

impl LoraLayer for NemotronHLoraSharedExpert {
    open spec fn places(self) -> Seq<Place> {
        seq![at(Section::MixerSharedExpert, Proj::Up), at(Section::MixerSharedExpert, Proj::Down)]
    }

    open spec fn matrices(self) -> Seq<Array> {
        seq![self.up_proj.a(), self.up_proj.b(), self.down_proj.a(), self.down_proj.b()]
    }

    open spec fn with_matrices(self, m: Seq<Array>) -> NemotronHLoraSharedExpert {
        NemotronHLoraSharedExpert {
            up_proj: self.up_proj.with(m[0], m[1]),
            down_proj: self.down_proj.with(m[2], m[3]),
            ..self
        }
    }

    open spec fn trainable(self) -> nat {
        self.up_proj.trainable() + self.down_proj.trainable()
    }

    open spec fn countable(self) -> bool {
        self.up_proj.countable() && self.down_proj.countable()
    }

    proof fn lemma_layer(self, m: Seq<Array>) {
        assert(self.with_matrices(m).matrices() =~= m);
    }

    fn collect(&self, params: &mut NameMap<Array>, style: NameStyle, layer: usize) {
        proof {
            reveal_with_fuel(with_named, 5);
        }
        collect_adapter(&self.up_proj, params, style, layer, Section::MixerSharedExpert, Proj::Up);
        collect_adapter(
            &self.down_proj,
            params,
            style,
            layer,
            Section::MixerSharedExpert,
            Proj::Down,
        );
    }

    fn assign(&mut self, params: &NameMap<Array>, style: NameStyle, layer: usize) {
        assign_adapter(
            &mut self.up_proj,
            params,
            style,
            layer,
            Section::MixerSharedExpert,
            Proj::Up,
        );
        assign_adapter(
            &mut self.down_proj,
            params,
            style,
            layer,
            Section::MixerSharedExpert,
            Proj::Down,
        );
    }

    fn refs<'a>(&'a self) -> (r: Vec<ParamRef<'a>>) {
        let mut r: Vec<ParamRef<'a>> = Vec::new();
        push_refs(&self.up_proj, Section::MixerSharedExpert, Proj::Up, &mut r);
        push_refs(&self.down_proj, Section::MixerSharedExpert, Proj::Down, &mut r);
        r
    }

    fn refs_mut<'a>(&'a mut self) -> (r: Vec<ParamMut<'a>>) {
        let mut r: Vec<ParamMut<'a>> = Vec::new();
        let (a, b) = adapter_refs_mut(&mut self.up_proj, Section::MixerSharedExpert, Proj::Up);
        r.push(a);
        r.push(b);
        let (a, b) = adapter_refs_mut(&mut self.down_proj, Section::MixerSharedExpert, Proj::Down);
        r.push(a);
        r.push(b);
        r
    }

    fn count(&self) -> (r: usize) {
        self.num_trainable_params()
    }
}

impl MergeSteps for NemotronHLoraSharedExpert {
    open spec fn merge_steps(self) -> nat {
        2
    }

    open spec fn can_merge(self, k: int) -> bool {
        if k == 0 {
            self.up_proj.mergeable()
        } else {
            self.down_proj.mergeable()
        }
    }

    open spec fn merged_first(self, k: int) -> NemotronHLoraSharedExpert {
        NemotronHLoraSharedExpert {
            up_proj: if k > 0 { self.up_proj.merge_result() } else { self.up_proj },
            down_proj: if k > 1 { self.down_proj.merge_result() } else { self.down_proj },
            ..self
        }
    }
}

impl MergeLayer for NemotronHLoraSharedExpert {
    fn merge_all(&mut self) -> (r: Result<(), LoraError>) {
        if self.up_proj.merge().is_err() {
            assert(stops_at(*old(self), 0));
            return Err(misfit());
        }
        if self.down_proj.merge().is_err() {
            assert(stops_at(*old(self), 1));
            return Err(misfit());
        }
        Ok(())
    }
}

/// A frozen mixture of experts, and an expert with adapters beside it.
#[derive(Debug)]
pub struct NemotronHLoraMoE {
    pub moe_layer: MoELayer,
    /// The experts' weights, where they are stacked already.
    pub stacked_moe_up: Option<Array>,
    pub stacked_moe_down: Option<Array>,
    pub shared_expert: Option<NemotronHLoraSharedExpert>,
}

impl NemotronHLoraMoE {
    /// The outputs of the picked experts, from stacked weights where there are both.
    pub open spec fn routed(self, x: Array) -> Array {
        match (self.stacked_moe_up, self.stacked_moe_down) {
            (Some(up), Some(down)) => self.moe_layer.stacked_output(x, up, down),
            _ => self.moe_layer.output(x),
        }
    }

    /// The outputs of the picked experts, and that of the shared expert on top.
    pub open spec fn output(self, x: Array) -> Array {
        match self.shared_expert {
            Some(e) => plus(
                self.routed(x),
                reshape(e.output(rows_of(x)), self.routed(x).shape),
            ),
            None => self.routed(x),
        }
    }

    /// The mixture that the settings give, before any weight is loaded.
    pub open spec fn is_fresh(self, dims: NemotronHDims, lora: LoraConfig) -> bool {
        &&& self.moe_layer.is_fresh(
            dims.router(),
            dims.hidden_size,
            dims.expert_size(),
            dims.mlp_bias,
        )
        &&& self.stacked_moe_up is None
        &&& self.stacked_moe_down is None
        &&& self.shared_expert == (if dims.shared() {
            Some(
                NemotronHLoraSharedExpert::fresh(dims.hidden_size, dims.shared_size(), lora),
            )
        } else {
            None
        })
    }

    /// No extent is negative.
    pub open spec fn buildable(dims: NemotronHDims) -> bool {
        &&& dims.hidden_size >= 0 && dims.expert_size() >= 0 && dims.router().num_experts >= 0
        &&& dims.shared() ==> dims.shared_size() >= 0
    }

    /// A fresh mixture. Refused where an extent is negative.
    pub fn new(dims: &NemotronHDims, lora_config: &LoraConfig) -> (r: Result<
        NemotronHLoraMoE,
        LoraError,
    >)
        requires
            lora_config.valid(),
        ensures
            match r {
                Ok(m) => NemotronHLoraMoE::buildable(*dims) && m.is_fresh(*dims, *lora_config),
                Err(e) => e is Mlx && !NemotronHLoraMoE::buildable(*dims),
            },
    {
        let router = dims.make_router();
        let inner = pick_value(dims.moe_intermediate_size, dims.intermediate_size);
        if dims.hidden_size < 0 || inner < 0 || router.num_experts < 0 {
            return Err(misfit());
        }
        let moe_layer = MoELayer::new(router, dims.hidden_size, inner, dims.mlp_bias);
        let shared_expert = if pick_value(dims.n_shared_experts, 0) > 0 {
            let shared = pick_value(dims.moe_shared_expert_intermediate_size, inner);
            match NemotronHLoraSharedExpert::new(dims.hidden_size, shared, lora_config) {
                Ok(e) => Some(e),
                Err(e) => {
                    return Err(e);
                },
            }
        } else {
            None
        };
        Ok(
            NemotronHLoraMoE {
                moe_layer,
                stacked_moe_up: None,
                stacked_moe_down: None,
                shared_expert,
            },
        )
    }

    pub(crate) fn run(&self, x: &Array) -> (r: Array)
        ensures
            r == self.output(*x),
    {
        let routed = match (&self.stacked_moe_up, &self.stacked_moe_down) {
            (Some(up), Some(down)) => self.moe_layer.run_stacked(x, up, down),
            _ => self.moe_layer.run(x),
        };
        match &self.shared_expert {
            Some(e) => {
                let shared = e.run(&make_rows_of(x)).reshape(routed.shape);
                routed.add(&shared)
            },
            None => routed,
        }
    }

    /// The outputs of the picked experts, and that of the shared expert on top.
    pub fn forward(&self, x: &Array) -> (r: Result<Array, LoraError>)
        requires
            x.shape.rank() >= 1,
        ensures
            outcome(r, self.output(*x)),
    {
        checked(self.run(x))
    }

    pub open spec fn trainable(self) -> nat {
        match self.shared_expert {
            Some(e) => LoraLayer::trainable(e),
            None => 0,
        }
    }

    pub open spec fn countable(self) -> bool {
        self.shared_expert matches Some(e) ==> e.countable()
    }

    /// The number of trainable elements: those of the shared expert.
    pub fn num_trainable_params(&self) -> (r: usize)
        requires
            self.countable(),
            self.trainable() <= usize::MAX,
        ensures
            r == self.trainable(),
    {
        match &self.shared_expert {
            Some(e) => e.num_trainable_params(),
            None => 0,
        }
    }

    /// The frozen weights that have the names of the mixture's parts are loaded, and nothing else
    /// is changed.
    pub open spec fn loaded_to(
        self,
        after: NemotronHLoraMoE,
        i: nat,
        weights: Map<Seq<char>, Array>,
    ) -> bool {
        let m = "backbone"@;
        &&& after.moe_layer.config == self.moe_layer.config
        &&& after.moe_layer.hidden_size == self.moe_layer.hidden_size
        &&& after.moe_layer.inner_size == self.moe_layer.inner_size
        &&& after.moe_layer.router.gate == loaded_linear(
            self.moe_layer.router.gate,
            weights,
            part_name(m, i, "mixer.gate.weight"@),
        )
        &&& after.moe_layer.router.e_score_correction_bias == lookup(
            weights,
            part_name(m, i, "mixer.gate.e_score_correction_bias"@),
            self.moe_layer.router.e_score_correction_bias,
        )
        &&& after.moe_layer.experts@.len() == self.moe_layer.experts@.len()
        &&& forall|k: int|
            0 <= k < self.moe_layer.experts@.len() ==> #[trigger] after.moe_layer.experts@[k]
                == loaded_expert(self.moe_layer.experts@[k], i, k as nat, weights)
        &&& after.stacked_moe_up == self.stacked_moe_up
        &&& after.stacked_moe_down == self.stacked_moe_down
        &&& after.shared_expert == (match self.shared_expert {
            Some(e) => Some(
                NemotronHLoraSharedExpert {
                    up_proj: loaded(
                        e.up_proj,
                        weights,
                        part_name(m, i, "mixer.shared_experts.up_proj.weight"@),
                    ),
                    down_proj: loaded(
                        e.down_proj,
                        weights,
                        part_name(m, i, "mixer.shared_experts.down_proj.weight"@),
                    ),
                },
            ),
            None => None,
        })
    }

    fn load(&mut self, i: usize, weights: &NameMap<Array>)
        ensures
            old(self).loaded_to(*final(self), i as nat, weights@),
    {
        let m = "backbone";
        load_linear(
            &mut self.moe_layer.router.gate,
            weights,
            &make_part_name(m, i, "mixer.gate.weight"),
        );
        load_array(
            &mut self.moe_layer.router.e_score_correction_bias,
            weights,
            &make_part_name(m, i, "mixer.gate.e_score_correction_bias"),
        );
        let ghost before = self.moe_layer.experts@;
        let ghost gate = self.moe_layer.router.gate;
        let ghost correction = self.moe_layer.router.e_score_correction_bias;
        let mut k: usize = 0;
        while k < self.moe_layer.experts.len()
            invariant
                k <= self.moe_layer.experts@.len(),
                self.moe_layer.experts@.len() == before.len(),
                forall|j: int|
                    0 <= j < k ==> #[trigger] self.moe_layer.experts@[j] == loaded_expert(
                        before[j],
                        i as nat,
                        j as nat,
                        weights@,
                    ),
                forall|j: int|
                    k <= j < before.len() ==> #[trigger] self.moe_layer.experts@[j] == before[j],
                self.moe_layer.config == old(self).moe_layer.config,
                self.moe_layer.hidden_size == old(self).moe_layer.hidden_size,
                self.moe_layer.inner_size == old(self).moe_layer.inner_size,
                self.moe_layer.router.gate == gate,
                self.moe_layer.router.e_score_correction_bias == correction,
                self.stacked_moe_up == old(self).stacked_moe_up,
                self.stacked_moe_down == old(self).stacked_moe_down,
                self.shared_expert == old(self).shared_expert,
            decreases self.moe_layer.experts.len() - k,
        {
            load_linear(
                &mut self.moe_layer.experts[k].up_proj,
                weights,
                &make_expert_name(i, k, "up_proj.weight"),
            );
            load_linear(
                &mut self.moe_layer.experts[k].down_proj,
                weights,
                &make_expert_name(i, k, "down_proj.weight"),
            );
            k = k + 1;
        }
        match &mut self.shared_expert {
            Some(e) => {
                load_lora(
                    &mut e.up_proj,
                    weights,
                    &make_part_name("backbone", i, "mixer.shared_experts.up_proj.weight"),
                );
                load_lora(
                    &mut e.down_proj,
                    weights,
                    &make_part_name("backbone", i, "mixer.shared_experts.down_proj.weight"),
                );
            },
            None => {},
        }
    }
}

/// What a block does between its normalization and its residual connection.
#[derive(Debug)]
pub enum NemotronHLoraMixer {
    Mamba(NemotronHMixer),
    Attention(NemotronHLoraAttention),
    Mlp(NemotronHLoraMLP),
    MoE(NemotronHLoraMoE),
}

impl NemotronHLoraMixer {
    pub open spec fn output(self, x: Array, mask: Option<Array>) -> Array {
        match self {
            NemotronHLoraMixer::Mamba(m) => m.output(x, mask, MambaCacheEntry::empty()),
            NemotronHLoraMixer::Attention(a) => a.output(x, mask),
            NemotronHLoraMixer::Mlp(m) => m.output(x),
            NemotronHLoraMixer::MoE(m) => m.output(x),
        }
    }

    /// The output, and what the caches hold behind it: attention uses the one, state-space
    /// mixers use the other.
    pub open spec fn step(
        self,
        x: Array,
        mask: Option<Array>,
        kv: Option<(KVCacheState, int)>,
        state: Option<MambaCacheEntry>,
    ) -> (Array, Option<KVCacheState>, Option<MambaCacheEntry>) {
        let same = match kv {
            Some(c) => Some(c.0),
            None => None,
        };
        match (self, kv, state) {
            (NemotronHLoraMixer::Mamba(m), _, Some(e)) => (
                m.output(x, mask, e),
                same,
                Some(m.after(x, mask, e)),
            ),
            (NemotronHLoraMixer::Attention(a), Some(c), _) => {
                let end = a.cached_output(x, mask, c.0, c.1);
                (end.0, Some(end.1), state)
            },
            _ => (self.output(x, mask), same, state),
        }
    }

    pub open spec fn ready(self) -> bool {
        match self {
            NemotronHLoraMixer::Mamba(m) => m.config.valid(),
            NemotronHLoraMixer::Attention(a) => a.ready(),
            _ => true,
        }
    }

    pub open spec fn mamba(self) -> bool {
        self is Mamba
    }

    pub fn is_mamba(&self) -> (r: bool)
        ensures
            r == self.mamba(),
    {
        match self {
            NemotronHLoraMixer::Mamba(_) => true,
            _ => false,
        }
    }

    /// The kind of block.
    pub open spec fn kind(self) -> char {
        match self {
            NemotronHLoraMixer::Mamba(_) => 'M',
            NemotronHLoraMixer::Attention(_) => '*',
            NemotronHLoraMixer::Mlp(_) => '-',
            NemotronHLoraMixer::MoE(_) => 'E',
        }
    }

    /// The kind of block.
    pub fn block_type(&self) -> (r: char)
        ensures
            r == self.kind(),
    {
        match self {
            NemotronHLoraMixer::Mamba(_) => 'M',
            NemotronHLoraMixer::Attention(_) => '*',
            NemotronHLoraMixer::Mlp(_) => '-',
            NemotronHLoraMixer::MoE(_) => 'E',
        }
    }

    /// The frozen weights that have the names of the mixer's parts are loaded where the block is
    /// listed under a kind that gives such a mixer, and nothing else is changed.
    pub open spec fn loaded_to(
        self,
        after: NemotronHLoraMixer,
        i: nat,
        listed: char,
        weights: Map<Seq<char>, Array>,
    ) -> bool {
        if built_kind(listed) != self.kind() {
            after == self
        } else {
            match (self, after) {
                (NemotronHLoraMixer::Mamba(b), NemotronHLoraMixer::Mamba(a)) => a == loaded_mamba(
                    b,
                    i,
                    weights,
                ),
                (NemotronHLoraMixer::Attention(b), NemotronHLoraMixer::Attention(a)) => a
                    == b.loaded(i, weights),
                (NemotronHLoraMixer::Mlp(b), NemotronHLoraMixer::Mlp(a)) => a == b.loaded(
                    i,
                    weights,
                ),
                (NemotronHLoraMixer::MoE(b), NemotronHLoraMixer::MoE(a)) => b.loaded_to(
                    a,
                    i,
                    weights,
                ),
                _ => false,
            }
        }
    }

    fn load(&mut self, i: usize, listed: char, weights: &NameMap<Array>)
        ensures
            old(self).loaded_to(*final(self), i as nat, listed, weights@),
    {
        if find_built_kind(listed) != self.block_type() {
            return;
        }
        match self {
            NemotronHLoraMixer::Mamba(m) => {
                load_mamba(m, i, weights);
            },
            NemotronHLoraMixer::Attention(a) => {
                a.load(i, weights);
            },
            NemotronHLoraMixer::Mlp(m) => {
                m.load(i, weights);
            },
            NemotronHLoraMixer::MoE(m) => {
                m.load(i, weights);
            },
        }
    }

    pub(crate) fn run(&self, x: &Array, mask: Option<&Array>) -> (r: Array)
        requires
            x.shape.rank() >= 2,
            self.ready(),
        ensures
            r == self.output(*x, given(mask)),
    {
        match self {
            NemotronHLoraMixer::Mamba(m) => m.run(x, mask, &MambaCacheEntry::new()),
            NemotronHLoraMixer::Attention(a) => a.run(x, mask),
            NemotronHLoraMixer::Mlp(m) => m.run(x),
            NemotronHLoraMixer::MoE(m) => m.run(x),
        }
    }

    pub(crate) fn run_cached(
        &self,
        x: &Array,
        mask: Option<&Array>,
        kv_cache: Option<(&mut KVCache, usize)>,
        mamba_cache: Option<&mut MambaCacheEntry>,
    ) -> (r: Array)
        requires
            x.shape.rank() >= 2,
            self.ready(),
        ensures
            ({
                let kv = match kv_cache {
                    Some(c) => Some((c.0@, c.1 as int)),
                    None => None,
                };
                let state = match mamba_cache {
                    Some(e) => Some(*e),
                    None => None,
                };
                let end = self.step(*x, given(mask), kv, state);
                &&& r == end.0
                &&& kv_cache matches Some(c) ==> Some(final(c.0)@) == end.1
                &&& mamba_cache matches Some(e) ==> Some(*final(e)) == end.2
            }),
    {
        match self {
            NemotronHLoraMixer::Mamba(m) => match mamba_cache {
                Some(e) => m.run_keeping(x, mask, e),
                None => m.run(x, mask, &MambaCacheEntry::new()),
            },
            NemotronHLoraMixer::Attention(a) => match kv_cache {
                Some((c, layer)) => a.run_cached(x, mask, c, layer),
                None => a.run(x, mask),
            },
            NemotronHLoraMixer::Mlp(m) => m.run(x),
            NemotronHLoraMixer::MoE(m) => m.run(x),
        }
    }

    /// The output over the input alone.
    pub fn forward(&self, x: &Array, mask: Option<&Array>) -> (r: Result<Array, LoraError>)
        requires
            x.shape.rank() >= 2,
            self.ready(),
        ensures
            outcome(r, self.output(*x, given(mask))),
    {
        checked(self.run(x, mask))
    }

    /// The output over what the caches hold and the input.
    pub fn forward_with_cache(
        &self,
        x: &Array,
        mask: Option<&Array>,
        kv_cache: Option<(&mut KVCache, usize)>,
        mamba_cache: Option<&mut MambaCacheEntry>,
    ) -> (r: Result<Array, LoraError>)
        requires
            x.shape.rank() >= 2,
            self.ready(),
        ensures
            ({
                let kv = match kv_cache {
                    Some(c) => Some((c.0@, c.1 as int)),
                    None => None,
                };
                let state = match mamba_cache {
                    Some(e) => Some(*e),
                    None => None,
                };
                let end = self.step(*x, given(mask), kv, state);
                &&& outcome(r, end.0)
                &&& kv_cache matches Some(c) ==> Some(final(c.0)@) == end.1
                &&& mamba_cache matches Some(e) ==> Some(*final(e)) == end.2
            }),
    {
        checked(self.run_cached(x, mask, kv_cache, mamba_cache))
    }

    pub open spec fn trainable(self) -> nat {
        match self {
            NemotronHLoraMixer::Mamba(_) => 0,
            NemotronHLoraMixer::Attention(a) => LoraLayer::trainable(a),
            NemotronHLoraMixer::Mlp(m) => LoraLayer::trainable(m),
            NemotronHLoraMixer::MoE(m) => m.trainable(),
        }
    }

    pub open spec fn countable(self) -> bool {
        match self {
            NemotronHLoraMixer::Mamba(_) => true,
            NemotronHLoraMixer::Attention(a) => LoraLayer::countable(a),
            NemotronHLoraMixer::Mlp(m) => LoraLayer::countable(m),
            NemotronHLoraMixer::MoE(m) => m.countable(),
        }
    }

    /// The number of trainable elements: none in a state-space mixer.
    pub fn num_trainable_params(&self) -> (r: usize)
        requires
            self.countable(),
            self.trainable() <= usize::MAX,
        ensures
            r == self.trainable(),
    {
        match self {
            NemotronHLoraMixer::Mamba(_) => 0,
            NemotronHLoraMixer::Attention(a) => a.num_trainable_params(),
            NemotronHLoraMixer::Mlp(m) => m.num_trainable_params(),
            NemotronHLoraMixer::MoE(m) => m.num_trainable_params(),
        }
    }
}

/// A mixer behind a normalization and beside a residual connection.
#[derive(Debug)]
pub struct NemotronHLoraBlock {
    pub norm: RmsNorm,
    pub mixer: NemotronHLoraMixer,
}

impl NemotronHLoraBlock {
    pub open spec fn output(self, x: Array, mask: Option<Array>) -> Array {
        plus(x, self.mixer.output(self.norm.output(x), mask))
    }

    pub open spec fn step(
        self,
        x: Array,
        mask: Option<Array>,
        kv: Option<(KVCacheState, int)>,
        state: Option<MambaCacheEntry>,
    ) -> (Array, Option<KVCacheState>, Option<MambaCacheEntry>) {
        let end = self.mixer.step(self.norm.output(x), mask, kv, state);
        (plus(x, end.0), end.1, end.2)
    }

    /// The block that the settings and its kind give, before any weight is loaded. An unknown
    /// kind counts as attention.
    pub open spec fn is_fresh(self, dims: NemotronHDims, lora: LoraConfig, kind: char) -> bool {
        &&& self.norm == RmsNorm::fresh(dims.hidden_size, dims.layer_norm_epsilon)
        &&& if kind == 'M' {
            self.mixer == NemotronHLoraMixer::Mamba(
                NemotronHMixer::fresh(
                    dims.mamba,
                    dims.hidden_size,
                    dims.mamba_proj_bias,
                    dims.use_conv_bias,
                ),
            )
        } else if kind == '-' {
            self.mixer == NemotronHLoraMixer::Mlp(
                NemotronHLoraMLP::fresh(dims.hidden_size, dims.intermediate_size, lora),
            )
        } else if kind == 'E' {
            self.mixer matches NemotronHLoraMixer::MoE(m) && m.is_fresh(dims, lora)
        } else {
            self.mixer == NemotronHLoraMixer::Attention(
                NemotronHLoraAttention::fresh(dims, lora),
            )
        }
    }

    /// No extent of such a block is negative.
    pub open spec fn buildable(dims: NemotronHDims, kind: char) -> bool {
        if kind == 'M' {
            dims.hidden_size >= 0
        } else if kind == '-' {
            dims.hidden_size >= 0 && dims.intermediate_size >= 0
        } else if kind == 'E' {
            NemotronHLoraMoE::buildable(dims)
        } else {
            NemotronHLoraAttention::buildable(dims)
        }
    }

    /// A fresh block of the given kind. Refused where an extent is negative.
    pub fn new(dims: &NemotronHDims, lora_config: &LoraConfig, block_type: char) -> (r: Result<
        NemotronHLoraBlock,
        LoraError,
    >)
        requires
            dims.valid(),
            lora_config.valid(),
        ensures
            match r {
                Ok(b) => NemotronHLoraBlock::buildable(*dims, block_type) && b.is_fresh(
                    *dims,
                    *lora_config,
                    block_type,
                ) && b.mixer.ready(),
                Err(e) => e is Mlx && !NemotronHLoraBlock::buildable(*dims, block_type),
            },
    {
        let norm = RmsNorm::new(dims.hidden_size, dims.layer_norm_epsilon);
        let mixer = if block_type == 'M' {
            if dims.hidden_size < 0 {
                return Err(misfit());
            }
            NemotronHLoraMixer::Mamba(
                NemotronHMixer::new_mamba(
                    dims.mamba,
                    dims.hidden_size,
                    dims.mamba_proj_bias,
                    dims.use_conv_bias,
                ),
            )
        } else if block_type == '-' {
            match NemotronHLoraMLP::new(dims.hidden_size, dims.intermediate_size, lora_config) {
                Ok(m) => NemotronHLoraMixer::Mlp(m),
                Err(e) => {
                    return Err(e);
                },
            }
        } else if block_type == 'E' {
            match NemotronHLoraMoE::new(dims, lora_config) {
                Ok(m) => NemotronHLoraMixer::MoE(m),
                Err(e) => {
                    return Err(e);
                },
            }
        } else {
            match NemotronHLoraAttention::new(dims, lora_config) {
                Ok(a) => NemotronHLoraMixer::Attention(a),
                Err(e) => {
                    return Err(e);
                },
            }
        };
        Ok(NemotronHLoraBlock { norm, mixer })
    }

    pub(crate) fn run(&self, x: &Array, mask: Option<&Array>) -> (r: Array)
        requires
            x.shape.rank() >= 2,
            self.mixer.ready(),
        ensures
            r == self.output(*x, given(mask)),
            r.shape.rank() >= x.shape.rank(),
    {
        broadcast use {lemma_rms_norm_shape, lemma_combine_rank};

        let normed = self.norm.run(x);
        let mixed = self.mixer.run(&normed, mask);
        x.add(&mixed)
    }

    pub(crate) fn run_cached(
        &self,
        x: &Array,
        mask: Option<&Array>,
        kv_cache: Option<(&mut KVCache, usize)>,
        mamba_cache: Option<&mut MambaCacheEntry>,
    ) -> (r: Array)
        requires
            x.shape.rank() >= 2,
            self.mixer.ready(),
        ensures
            ({
                let kv = match kv_cache {
                    Some(c) => Some((c.0@, c.1 as int)),
                    None => None,
                };
                let state = match mamba_cache {
                    Some(e) => Some(*e),
                    None => None,
                };
                let end = self.step(*x, given(mask), kv, state);
                &&& r == end.0
                &&& kv_cache matches Some(c) ==> Some(final(c.0)@) == end.1
                &&& mamba_cache matches Some(e) ==> Some(*final(e)) == end.2
            }),
            r.shape.rank() >= x.shape.rank(),
    {
        broadcast use {lemma_rms_norm_shape, lemma_combine_rank};

        let normed = self.norm.run(x);
        let mixed = self.mixer.run_cached(&normed, mask, kv_cache, mamba_cache);
        x.add(&mixed)
    }

    /// The block's output.
    pub fn forward(&self, x: &Array, mask: Option<&Array>) -> (r: Result<Array, LoraError>)
        requires
            x.shape.rank() >= 2,
            self.mixer.ready(),
        ensures
            outcome(r, self.output(*x, given(mask))),
    {
        checked(self.run(x, mask))
    }

    /// The block's output over what the caches hold and the input.
    pub fn forward_with_cache(
        &self,
        x: &Array,
        mask: Option<&Array>,
        kv_cache: Option<(&mut KVCache, usize)>,
        mamba_cache: Option<&mut MambaCacheEntry>,
    ) -> (r: Result<Array, LoraError>)
        requires
            x.shape.rank() >= 2,
            self.mixer.ready(),
        ensures
            ({
                let kv = match kv_cache {
                    Some(c) => Some((c.0@, c.1 as int)),
                    None => None,
                };
                let state = match mamba_cache {
                    Some(e) => Some(*e),
                    None => None,
                };
                let end = self.step(*x, given(mask), kv, state);
                &&& outcome(r, end.0)
                &&& kv_cache matches Some(c) ==> Some(final(c.0)@) == end.1
                &&& mamba_cache matches Some(e) ==> Some(*final(e)) == end.2
            }),
    {
        checked(self.run_cached(x, mask, kv_cache, mamba_cache))
    }

    /// The number of trainable elements.
    pub fn num_trainable_params(&self) -> (r: usize)
        requires
            self.countable(),
            LoraLayer::trainable(*self) <= usize::MAX,
        ensures
            r == LoraLayer::trainable(*self),
    {
        self.mixer.num_trainable_params()
    }

    /// The frozen weights that have the names of the block's parts are loaded, and nothing else
    /// is changed.
    pub open spec fn loaded_to(
        self,
        after: NemotronHLoraBlock,
        i: nat,
        listed: char,
        weights: Map<Seq<char>, Array>,
    ) -> bool {
        &&& after.norm == loaded_norm(
            self.norm,
            weights,
            part_name("backbone"@, i, "norm.weight"@),
        )
        &&& self.mixer.loaded_to(after.mixer, i, listed, weights)
    }

    fn load(&mut self, i: usize, listed: char, weights: &NameMap<Array>)
        ensures
            old(self).loaded_to(*final(self), i as nat, listed, weights@),
    {
        load_norm(&mut self.norm, weights, &make_part_name("backbone", i, "norm.weight"));
        self.mixer.load(i, listed, weights);
    }
}

impl LoraLayer for NemotronHLoraBlock {
    open spec fn places(self) -> Seq<Place> {
        match self.mixer {
            NemotronHLoraMixer::Mamba(_) => seq![],
            NemotronHLoraMixer::Attention(a) => a.places(),
            NemotronHLoraMixer::Mlp(m) => m.places(),
            NemotronHLoraMixer::MoE(m) => match m.shared_expert {
                Some(e) => e.places(),
                None => seq![],
            },
        }
    }

    open spec fn matrices(self) -> Seq<Array> {
        match self.mixer {
            NemotronHLoraMixer::Mamba(_) => seq![],
            NemotronHLoraMixer::Attention(a) => a.matrices(),
            NemotronHLoraMixer::Mlp(m) => m.matrices(),
            NemotronHLoraMixer::MoE(m) => match m.shared_expert {
                Some(e) => e.matrices(),
                None => seq![],
            },
        }
    }

    open spec fn with_matrices(self, m: Seq<Array>) -> NemotronHLoraBlock {
        NemotronHLoraBlock {
            mixer: match self.mixer {
                NemotronHLoraMixer::Mamba(x) => NemotronHLoraMixer::Mamba(x),
                NemotronHLoraMixer::Attention(a) => NemotronHLoraMixer::Attention(
                    a.with_matrices(m)
                ),
                NemotronHLoraMixer::Mlp(x) => NemotronHLoraMixer::Mlp(x.with_matrices(m)),
                NemotronHLoraMixer::MoE(x) => NemotronHLoraMixer::MoE(
                    NemotronHLoraMoE {
                        shared_expert: match x.shared_expert {
                            Some(e) => Some(e.with_matrices(m)),
                            None => None,
                        },
                        ..x
                    },
                ),
            },
            ..self
        }
    }

    open spec fn trainable(self) -> nat {
        self.mixer.trainable()
    }

    open spec fn countable(self) -> bool {
        self.mixer.countable()
    }

    proof fn lemma_layer(self, m: Seq<Array>) {
        match self.mixer {
            NemotronHLoraMixer::Mamba(_) => {
                assert(self.with_matrices(m).matrices() =~= m);
            },
            NemotronHLoraMixer::Attention(a) => {
                a.lemma_layer(m);
            },
            NemotronHLoraMixer::Mlp(x) => {
                x.lemma_layer(m);
            },
            NemotronHLoraMixer::MoE(x) => match x.shared_expert {
                Some(e) => {
                    e.lemma_layer(m);
                },
                None => {
                    assert(self.with_matrices(m).matrices() =~= m);
                },
            },
        }
    }

    fn collect(&self, params: &mut NameMap<Array>, style: NameStyle, layer: usize) {
        match &self.mixer {
            NemotronHLoraMixer::Mamba(_) => {},
            NemotronHLoraMixer::Attention(a) => {
                a.collect(params, style, layer);
            },
            NemotronHLoraMixer::Mlp(m) => {
                m.collect(params, style, layer);
            },
            NemotronHLoraMixer::MoE(m) => match &m.shared_expert {
                Some(e) => {
                    e.collect(params, style, layer);
                },
                None => {},
            },
        }
    }

    fn assign(&mut self, params: &NameMap<Array>, style: NameStyle, layer: usize) {
        match &mut self.mixer {
            NemotronHLoraMixer::Mamba(_) => {},
            NemotronHLoraMixer::Attention(a) => {
                a.assign(params, style, layer);
            },
            NemotronHLoraMixer::Mlp(m) => {
                m.assign(params, style, layer);
            },
            NemotronHLoraMixer::MoE(m) => match &mut m.shared_expert {
                Some(e) => {
                    e.assign(params, style, layer);
                },
                None => {},
            },
        }
    }

    fn refs<'a>(&'a self) -> (r: Vec<ParamRef<'a>>) {
        match &self.mixer {
            NemotronHLoraMixer::Mamba(_) => Vec::new(),
            NemotronHLoraMixer::Attention(a) => a.refs(),
            NemotronHLoraMixer::Mlp(m) => m.refs(),
            NemotronHLoraMixer::MoE(m) => match &m.shared_expert {
                Some(e) => e.refs(),
                None => Vec::new(),
            },
        }
    }

    fn refs_mut<'a>(&'a mut self) -> (r: Vec<ParamMut<'a>>) {
        match &mut self.mixer {
            NemotronHLoraMixer::Mamba(_) => Vec::new(),
            NemotronHLoraMixer::Attention(a) => a.refs_mut(),
            NemotronHLoraMixer::Mlp(m) => m.refs_mut(),
            NemotronHLoraMixer::MoE(m) => match &mut m.shared_expert {
                Some(e) => e.refs_mut(),
                None => Vec::new(),
            },
        }
    }

    fn count(&self) -> (r: usize) {
        self.num_trainable_params()
    }
}

impl MergeSteps for NemotronHLoraBlock {
    open spec fn merge_steps(self) -> nat {
        match self.mixer {
            NemotronHLoraMixer::Mamba(_) => 0,
            NemotronHLoraMixer::Attention(a) => a.merge_steps(),
            NemotronHLoraMixer::Mlp(m) => m.merge_steps(),
            NemotronHLoraMixer::MoE(m) => match m.shared_expert {
                Some(e) => e.merge_steps(),
                None => 0,
            },
        }
    }

    open spec fn can_merge(self, k: int) -> bool {
        match self.mixer {
            NemotronHLoraMixer::Mamba(_) => true,
            NemotronHLoraMixer::Attention(a) => a.can_merge(k),
            NemotronHLoraMixer::Mlp(m) => m.can_merge(k),
            NemotronHLoraMixer::MoE(m) => match m.shared_expert {
                Some(e) => e.can_merge(k),
                None => true,
            },
        }
    }

    open spec fn merged_first(self, k: int) -> NemotronHLoraBlock {
        NemotronHLoraBlock {
            mixer: match self.mixer {
                NemotronHLoraMixer::Mamba(m) => NemotronHLoraMixer::Mamba(m),
                NemotronHLoraMixer::Attention(a) => NemotronHLoraMixer::Attention(
                    a.merged_first(k)
                ),
                NemotronHLoraMixer::Mlp(m) => NemotronHLoraMixer::Mlp(m.merged_first(k)),
                NemotronHLoraMixer::MoE(m) => NemotronHLoraMixer::MoE(
                    NemotronHLoraMoE {
                        shared_expert: match m.shared_expert {
                            Some(e) => Some(e.merged_first(k)),
                            None => None,
                        },
                        ..m
                    },
                ),
            },
            ..self
        }
    }
}

impl MergeLayer for NemotronHLoraBlock {
    fn merge_all(&mut self) -> (r: Result<(), LoraError>) {
        let ghost was = *self;
        let r = match &mut self.mixer {
            NemotronHLoraMixer::Mamba(_) => Ok(()),
            NemotronHLoraMixer::Attention(a) => a.merge_all(),
            NemotronHLoraMixer::Mlp(m) => m.merge_all(),
            NemotronHLoraMixer::MoE(m) => match &mut m.shared_expert {
                Some(e) => e.merge_all(),
                None => Ok(()),
            },
        };
        proof {
            match was.mixer {
                NemotronHLoraMixer::Mamba(_) => {},
                NemotronHLoraMixer::Attention(a) => {
                    assert(forall|k: int| stops_at(a, k) ==> #[trigger] stops_at(was, k));
                    assert(r is Ok ==> forall|k: int|
                        0 <= k < was.merge_steps() ==> a.can_merge(k)
                            && #[trigger] was.can_merge(k));
                    if r is Err {
                        let k = choose|k: int|
                            #[trigger] stops_at(a, k)
                                && self.mixer == NemotronHLoraMixer::Attention(
                                a.merged_first(k),
                            );
                        assert(stops_at(was, k));
                    }
                },
                NemotronHLoraMixer::Mlp(m) => {
                    assert(r is Ok ==> forall|k: int|
                        0 <= k < was.merge_steps() ==> m.can_merge(k)
                            && #[trigger] was.can_merge(k));
                    if r is Err {
                        let k = choose|k: int|
                            #[trigger] stops_at(m, k) && self.mixer == NemotronHLoraMixer::Mlp(
                                m.merged_first(k),
                            );
                        assert(stops_at(was, k));
                    }
                },
                NemotronHLoraMixer::MoE(m) => match m.shared_expert {
                    Some(e) => {
                        assert(r is Ok ==> forall|k: int|
                            0 <= k < was.merge_steps() ==> e.can_merge(k)
                                && #[trigger] was.can_merge(k));
                        if r is Err {
                            let k = choose|k: int|
                                #[trigger] stops_at(e, k)
                                    && self.mixer == was.merged_first(k).mixer;
                            assert(stops_at(was, k));
                        }
                    },
                    None => {},
                },
            }
        }
        r
    }
}

impl EvalLayer for NemotronHLoraBlock {
    open spec fn evaluated(self) -> Seq<Array> {
        match self.mixer {
            NemotronHLoraMixer::Mamba(_) => seq![self.norm.weight],
            NemotronHLoraMixer::Attention(a) => seq![
                self.norm.weight, a.q_proj.weight, a.k_proj.weight, a.v_proj.weight,
                a.o_proj.weight, a.q_proj.lora_a, a.q_proj.lora_b, a.k_proj.lora_a, a.k_proj.lora_b,
                a.v_proj.lora_a, a.v_proj.lora_b, a.o_proj.lora_a, a.o_proj.lora_b
            ],
            NemotronHLoraMixer::Mlp(m) => seq![
                self.norm.weight, m.up_proj.weight, m.down_proj.weight, m.up_proj.lora_a,
                m.up_proj.lora_b, m.down_proj.lora_a, m.down_proj.lora_b
            ],
            NemotronHLoraMixer::MoE(m) => match m.shared_expert {
                Some(e) => seq![
                    self.norm.weight, e.up_proj.weight, e.down_proj.weight, e.up_proj.lora_a,
                    e.up_proj.lora_b, e.down_proj.lora_a, e.down_proj.lora_b
                ],
                None => seq![self.norm.weight],
            },
        }
    }

    fn push_evaluated(&self, out: &mut Vec<Array>) {
        out.push(self.norm.weight.clone());
        match &self.mixer {
            NemotronHLoraMixer::Mamba(_) => {},
            NemotronHLoraMixer::Attention(a) => {
                out.push(a.q_proj.weight.clone());
                out.push(a.k_proj.weight.clone());
                out.push(a.v_proj.weight.clone());
                out.push(a.o_proj.weight.clone());
                out.push(a.q_proj.lora_a.clone());
                out.push(a.q_proj.lora_b.clone());
                out.push(a.k_proj.lora_a.clone());
                out.push(a.k_proj.lora_b.clone());
                out.push(a.v_proj.lora_a.clone());
                out.push(a.v_proj.lora_b.clone());
                out.push(a.o_proj.lora_a.clone());
                out.push(a.o_proj.lora_b.clone());
            },
            NemotronHLoraMixer::Mlp(m) => {
                out.push(m.up_proj.weight.clone());
                out.push(m.down_proj.weight.clone());
                out.push(m.up_proj.lora_a.clone());
                out.push(m.up_proj.lora_b.clone());
                out.push(m.down_proj.lora_a.clone());
                out.push(m.down_proj.lora_b.clone());
            },
            NemotronHLoraMixer::MoE(m) => match &m.shared_expert {
                Some(e) => {
                    out.push(e.up_proj.weight.clone());
                    out.push(e.down_proj.weight.clone());
                    out.push(e.up_proj.lora_a.clone());
                    out.push(e.up_proj.lora_b.clone());
                    out.push(e.down_proj.lora_a.clone());
                    out.push(e.down_proj.lora_b.clone());
                },
                None => {},
            },
        }
        assert(out@ =~= old(out)@ + self.evaluated());
    }
}

/// The embeddings, the blocks and the last normalization.
#[derive(Debug)]
pub struct NemotronHLoraModel {
    pub config: NemotronHConfig,
    pub lora_config: LoraConfig,
    pub embeddings: Embedding,
    pub layers: Vec<NemotronHLoraBlock>,
    pub norm_f: RmsNorm,
}

/// A state-space mixer gets no mask.
pub open spec fn nemotron_layer_mask(
    layer: NemotronHLoraBlock,
    mask: Option<Array>,
) -> Option<Array> {
    if layer.mixer.mamba() {
        None
    } else {
        mask
    }
}

/// The output of the first `n` blocks, one behind the other.
pub open spec fn nemotron_stack(
    layers: Seq<NemotronHLoraBlock>,
    n: nat,
    x: Array,
    mask: Option<Array>,
) -> Array
    decreases n,
{
    if n == 0 {
        x
    } else {
        layers[n - 1].output(
            nemotron_stack(layers, (n - 1) as nat, x, mask),
            nemotron_layer_mask(layers[n - 1], mask),
        )
    }
}

/// What a layer keeps, where there is a cache with room for it.
pub open spec fn nemotron_entry(
    states: Option<Seq<MambaCacheEntry>>,
    i: int,
) -> Option<MambaCacheEntry> {
    match states {
        Some(s) => if 0 <= i < s.len() {
            Some(s[i])
        } else {
            None
        },
        None => None,
    }
}

/// The blocks from block `i` on, one behind the other over the caches, and the caches behind
/// them.
pub open spec fn nemotron_steps(
    layers: Seq<NemotronHLoraBlock>,
    i: int,
    x: Array,
    mask: Option<Array>,
    kv: Option<KVCacheState>,
    states: Option<Seq<MambaCacheEntry>>,
) -> (Array, Option<KVCacheState>, Option<Seq<MambaCacheEntry>>)
    decreases layers.len() - i,
{
    if i < 0 || i >= layers.len() {
        (x, kv, states)
    } else {
        let end = layers[i].step(
            x,
            nemotron_layer_mask(layers[i], mask),
            match kv {
                Some(c) => Some((c, i)),
                None => None,
            },
            nemotron_entry(states, i),
        );
        let kept = match (states, end.2) {
            (Some(s), Some(e)) => Some(s.update(i, e)),
            _ => states,
        };
        nemotron_steps(layers, i + 1, end.0, mask, end.1, kept)
    }
}

/// Each block's mixer has fitting extents.
pub open spec fn nemotron_ready(layers: Seq<NemotronHLoraBlock>) -> bool {
    forall|i: int| 0 <= i < layers.len() ==> (#[trigger] layers[i]).mixer.ready()
}

impl NemotronHLoraModel {
    /// The hidden states behind the last normalization.
    pub open spec fn output(self, ids: Array, mask: Option<Array>) -> Array {
        self.norm_f.output(
            nemotron_stack(self.layers@, self.layers@.len(), self.embeddings.output(ids), mask),
        )
    }

    /// The hidden states over caches, and the caches behind them.
    pub open spec fn cached_output(
        self,
        ids: Array,
        mask: Option<Array>,
        kv: Option<KVCacheState>,
        states: Option<Seq<MambaCacheEntry>>,
    ) -> (Array, Option<KVCacheState>, Option<Seq<MambaCacheEntry>>) {
        let end = nemotron_steps(self.layers@, 0, self.embeddings.output(ids), mask, kv, states);
        (self.norm_f.output(end.0), end.1, end.2)
    }

    /// The model that the settings give, before any weight is loaded.
    pub open spec fn is_fresh(
        self,
        dims: NemotronHDims,
        kinds: Seq<char>,
        lora: LoraConfig,
    ) -> bool {
        &&& self.config.dims == dims
        &&& self.config.layer_types@ == kinds
        &&& self.lora_config == lora
        &&& self.embeddings == Embedding::fresh(dims.vocab_size, dims.hidden_size)
        &&& self.layers@.len() == kinds.len()
        &&& forall|i: int|
            0 <= i < self.layers@.len() ==> (#[trigger] self.layers@[i]).is_fresh(
                dims,
                lora,
                kinds[i],
            )
        &&& self.norm_f == RmsNorm::fresh(dims.hidden_size, dims.layer_norm_epsilon)
    }

    /// A fresh model, block by block. Refused where an extent is negative.
    pub fn new(config: NemotronHConfig, lora_config: LoraConfig) -> (r: Result<
        NemotronHLoraModel,
        LoraError,
    >)
        requires
            config.dims.valid(),
            lora_config.valid(),
        ensures
            match r {
                Ok(m) => nemotron_buildable(config.dims, config.layer_types@) && m.is_fresh(
                    config.dims,
                    config.layer_types@,
                    lora_config,
                ) && nemotron_ready(m.layers@),
                Err(e) => e is Mlx && !nemotron_buildable(config.dims, config.layer_types@),
            },
    {
        let dims = config.dims;
        let embeddings = match Embedding::new(dims.vocab_size, dims.hidden_size) {
            Ok(e) => e,
            Err(_) => {
                return Err(misfit());
            },
        };
        let mut layers: Vec<NemotronHLoraBlock> = Vec::new();
        let mut i: usize = 0;
        while i < config.layer_types.len()
            invariant
                i <= config.layer_types@.len(),
                layers@.len() == i,
                dims == config.dims,
                dims.valid(),
                lora_config.valid(),
                nemotron_ready(layers@),
                forall|j: int|
                    0 <= j < i ==> NemotronHLoraBlock::buildable(
                        dims,
                        #[trigger] config.layer_types@[j],
                    ),
                forall|j: int|
                    0 <= j < i ==> (#[trigger] layers@[j]).is_fresh(
                        dims,
                        lora_config,
                        config.layer_types@[j],
                    ),
            decreases config.layer_types.len() - i,
        {
            match NemotronHLoraBlock::new(&dims, &lora_config, config.layer_types[i]) {
                Ok(b) => {
                    layers.push(b);
                },
                Err(_) => {
                    return Err(misfit());
                },
            }
            i = i + 1;
        }
        Ok(
            NemotronHLoraModel {
                config,
                lora_config,
                embeddings,
                layers,
                norm_f: RmsNorm::new(dims.hidden_size, dims.layer_norm_epsilon),
            },
        )
    }

    pub(crate) fn run(&self, ids: &Array, mask: Option<&Array>) -> (r: Array)
        requires
            ids.shape.rank() >= 1,
            nemotron_ready(self.layers@),
        ensures
            r == self.output(*ids, given(mask)),
    {
        broadcast use lemma_embed_rank;

        let mut h = self.embeddings.run(ids);
        let ghost x = h;
        let ghost was = self.layers@;
        let mut i: usize = 0;
        while i < self.layers.len()
            invariant
                i <= self.layers.len(),
                was == self.layers@,
                nemotron_ready(was),
                h.shape.rank() >= 2,
                h == nemotron_stack(was, i as nat, x, given(mask)),
            decreases self.layers.len() - i,
        {
            if self.layers[i].mixer.is_mamba() {
                h = self.layers[i].run(&h, None);
            } else {
                h = self.layers[i].run(&h, mask);
            }
            i = i + 1;
        }
        self.norm_f.run(&h)
    }

    fn run_step(
        &self,
        i: usize,
        h: &Array,
        mask: Option<&Array>,
        kv_cache: Option<(&mut KVCache, usize)>,
        mamba_cache: Option<&mut MambaCacheEntry>,
    ) -> (r: Array)
        requires
            i < self.layers@.len(),
            h.shape.rank() >= 2,
            self.layers@[i as int].mixer.ready(),
        ensures
            ({
                let kv = match kv_cache {
                    Some(c) => Some((c.0@, c.1 as int)),
                    None => None,
                };
                let state = match mamba_cache {
                    Some(e) => Some(*e),
                    None => None,
                };
                let layer = self.layers@[i as int];
                let end = layer.step(*h, nemotron_layer_mask(layer, given(mask)), kv, state);
                &&& r == end.0
                &&& kv_cache matches Some(c) ==> Some(final(c.0)@) == end.1
                &&& mamba_cache matches Some(e) ==> Some(*final(e)) == end.2
            }),
            r.shape.rank() >= h.shape.rank(),
    {
        if self.layers[i].mixer.is_mamba() {
            self.layers[i].run_cached(h, None, kv_cache, mamba_cache)
        } else {
            self.layers[i].run_cached(h, mask, kv_cache, mamba_cache)
        }
    }

    fn run_from(
        &self,
        i: usize,
        h: Array,
        mask: Option<&Array>,
        kv_cache: Option<&mut KVCache>,
        mamba_cache: Option<&mut MambaCache>,
    ) -> (r: Array)
        requires
            i <= self.layers@.len(),
            h.shape.rank() >= 2,
            nemotron_ready(self.layers@),
        ensures
            ({
                let kv = match kv_cache {
                    Some(c) => Some(c@),
                    None => None,
                };
                let states = match mamba_cache {
                    Some(m) => Some(m@),
                    None => None,
                };
                let end = nemotron_steps(self.layers@, i as int, h, given(mask), kv, states);
                &&& r == end.0
                &&& kv_cache matches Some(c) ==> Some(final(c)@) == end.1
                &&& mamba_cache matches Some(m) ==> Some(final(m)@) == end.2
            }),
        decreases self.layers@.len() - i,
    {
        if i >= self.layers.len() {
            return h;
        }
        match (kv_cache, mamba_cache) {
            (Some(c), Some(m)) => {
                let next = self.run_step(i, &h, mask, Some((&mut *c, i)), m.get_mut(i));
                self.run_from(i + 1, next, mask, Some(c), Some(m))
            },
            (Some(c), None) => {
                let next = self.run_step(i, &h, mask, Some((&mut *c, i)), None);
                self.run_from(i + 1, next, mask, Some(c), None)
            },
            (None, Some(m)) => {
                let next = self.run_step(i, &h, mask, None, m.get_mut(i));
                self.run_from(i + 1, next, mask, None, Some(m))
            },
            (None, None) => {
                let next = self.run_step(i, &h, mask, None, None);
                self.run_from(i + 1, next, mask, None, None)
            },
        }
    }

    pub(crate) fn run_cached(
        &self,
        ids: &Array,
        mask: Option<&Array>,
        kv_cache: Option<&mut KVCache>,
        mamba_cache: Option<&mut MambaCache>,
    ) -> (r: Array)
        requires
            ids.shape.rank() >= 1,
            nemotron_ready(self.layers@),
        ensures
            ({
                let kv = match kv_cache {
                    Some(c) => Some(c@),
                    None => None,
                };
                let states = match mamba_cache {
                    Some(m) => Some(m@),
                    None => None,
                };
                let end = self.cached_output(*ids, given(mask), kv, states);
                &&& r == end.0
                &&& kv_cache matches Some(c) ==> Some(final(c)@) == end.1
                &&& mamba_cache matches Some(m) ==> Some(final(m)@) == end.2
            }),
    {
        broadcast use lemma_embed_rank;

        let h = self.embeddings.run(ids);
        let last = self.run_from(0, h, mask, kv_cache, mamba_cache);
        self.norm_f.run(&last)
    }

    /// The hidden states behind the last normalization.
    pub fn forward(&self, input_ids: &Array, mask: Option<&Array>) -> (r: Result<
        Array,
        LoraError,
    >)
        requires
            input_ids.shape.rank() >= 1,
            nemotron_ready(self.layers@),
        ensures
            outcome(r, self.output(*input_ids, given(mask))),
    {
        checked(self.run(input_ids, mask))
    }

    /// The same: checkpointing keeps the result.
    pub fn forward_with_checkpoint(
        &self,
        input_ids: &Array,
        mask: Option<&Array>,
        _checkpoint_config: Option<&CheckpointConfig>,
    ) -> (r: Result<Array, LoraError>)
        requires
            input_ids.shape.rank() >= 1,
            nemotron_ready(self.layers@),
        ensures
            outcome(r, self.output(*input_ids, given(mask))),
    {
        checked(self.run(input_ids, mask))
    }

    /// The hidden states over what the caches hold and the input.
    pub fn forward_with_cache(
        &self,
        input_ids: &Array,
        mask: Option<&Array>,
        kv_cache: Option<&mut KVCache>,
        mamba_cache: Option<&mut MambaCache>,
    ) -> (r: Result<Array, LoraError>)
        requires
            input_ids.shape.rank() >= 1,
            nemotron_ready(self.layers@),
        ensures
            ({
                let kv = match kv_cache {
                    Some(c) => Some(c@),
                    None => None,
                };
                let states = match mamba_cache {
                    Some(m) => Some(m@),
                    None => None,
                };
                let end = self.cached_output(*input_ids, given(mask), kv, states);
                &&& outcome(r, end.0)
                &&& kv_cache matches Some(c) ==> Some(final(c)@) == end.1
                &&& mamba_cache matches Some(m) ==> Some(final(m)@) == end.2
            }),
    {
        checked(self.run_cached(input_ids, mask, kv_cache, mamba_cache))
    }

    /// The number of trainable elements.
    pub fn num_trainable_params(&self) -> (r: usize)
        requires
            stack_countable(self.layers@),
        ensures
            r == trainable_total(self.layers@),
    {
        count_trainable(&self.layers)
    }
}

/// The model with a head for logits.
#[derive(Debug)]
pub struct NemotronHLoraForCausalLM {
    pub model: NemotronHLoraModel,
    /// Absent where the embeddings serve as head.
    pub lm_head: Option<Linear>,
    pub checkpoint_config: Option<CheckpointConfig>,
}

impl NemotronHLoraForCausalLM {
    /// The logits.
    pub open spec fn output(self, ids: Array, mask: Option<Array>) -> Array {
        logits(self.lm_head, self.model.embeddings, self.model.output(ids, mask))
    }

    /// The model that the settings give, before any weight is loaded.
    pub open spec fn is_fresh(
        self,
        dims: NemotronHDims,
        kinds: Seq<char>,
        lora: LoraConfig,
    ) -> bool {
        &&& self.model.is_fresh(dims, kinds, lora)
        &&& self.lm_head == fresh_head(
            dims.tie_word_embeddings,
            dims.hidden_size,
            dims.vocab_size,
        )
        &&& self.checkpoint_config is None
    }

    /// A fresh model. Refused where an extent is negative.
    pub fn new(config: NemotronHConfig, lora_config: LoraConfig) -> (r: Result<
        NemotronHLoraForCausalLM,
        LoraError,
    >)
        requires
            config.dims.valid(),
            lora_config.valid(),
        ensures
            match r {
                Ok(m) => nemotron_buildable(config.dims, config.layer_types@) && m.is_fresh(
                    config.dims,
                    config.layer_types@,
                    lora_config,
                ) && nemotron_ready(m.model.layers@),
                Err(e) => e is Mlx && !nemotron_buildable(config.dims, config.layer_types@),
            },
    {
        let dims = config.dims;
        match NemotronHLoraModel::new(config, lora_config) {
            Ok(model) => Ok(
                NemotronHLoraForCausalLM {
                    model,
                    lm_head: make_head(
                        dims.tie_word_embeddings,
                        dims.hidden_size,
                        dims.vocab_size,
                    ),
                    checkpoint_config: None,
                },
            ),
            Err(_) => Err(misfit()),
        }
    }

    /// The logits.
    pub fn forward(&self, input_ids: &Array, mask: Option<&Array>) -> (r: Result<
        Array,
        LoraError,
    >)
        requires
            input_ids.shape.rank() >= 1,
            nemotron_ready(self.model.layers@),
        ensures
            outcome(r, self.output(*input_ids, given(mask))),
    {
        let hidden = self.model.run(input_ids, mask);
        checked(run_logits(&self.lm_head, &self.model.embeddings, &hidden))
    }

    /// The same: positions follow from the states and the caches, whatever is given.
    pub fn forward_with_positions(
        &self,
        input_ids: &Array,
        mask: Option<&Array>,
        _position_ids: &Array,
    ) -> (r: Result<Array, LoraError>)
        requires
            input_ids.shape.rank() >= 1,
            nemotron_ready(self.model.layers@),
        ensures
            outcome(r, self.output(*input_ids, given(mask))),
    {
        self.forward(input_ids, mask)
    }

    /// The logits over what the caches hold and the input.
    pub fn forward_with_cache(
        &self,
        input_ids: &Array,
        mask: Option<&Array>,
        kv_cache: Option<&mut KVCache>,
        mamba_cache: Option<&mut MambaCache>,
    ) -> (r: Result<Array, LoraError>)
        requires
            input_ids.shape.rank() >= 1,
            nemotron_ready(self.model.layers@),
        ensures
            ({
                let kv = match kv_cache {
                    Some(c) => Some(c@),
                    None => None,
                };
                let states = match mamba_cache {
                    Some(m) => Some(m@),
                    None => None,
                };
                let end = self.model.cached_output(*input_ids, given(mask), kv, states);
                &&& outcome(r, logits(self.lm_head, self.model.embeddings, end.0))
                &&& kv_cache matches Some(c) ==> Some(final(c)@) == end.1
                &&& mamba_cache matches Some(m) ==> Some(final(m)@) == end.2
            }),
    {
        let hidden = self.model.run_cached(input_ids, mask, kv_cache, mamba_cache);
        checked(run_logits(&self.lm_head, &self.model.embeddings, &hidden))
    }

    /// The hidden states from which the logits follow.
    pub fn forward_hidden_states(&self, input_ids: &Array, mask: Option<&Array>) -> (r: Result<
        Array,
        LoraError,
    >)
        requires
            input_ids.shape.rank() >= 1,
            nemotron_ready(self.model.layers@),
        ensures
            outcome(r, self.model.output(*input_ids, given(mask))),
    {
        checked(self.model.run(input_ids, mask))
    }

    /// The weight behind the logits.
    pub fn get_lm_head_weight(&self) -> (r: Option<Array>)
        ensures
            r == Some(logits_weight(self.lm_head, self.model.embeddings)),
    {
        Some(get_logits_weight(&self.lm_head, &self.model.embeddings))
    }

    /// The model with its layers replaced, and nothing else.
    pub open spec fn only_layers_changed(self, after: NemotronHLoraForCausalLM) -> bool {
        &&& after.model.config == self.model.config
        &&& after.model.lora_config == self.model.lora_config
        &&& after.model.embeddings == self.model.embeddings
        &&& after.model.norm_f == self.model.norm_f
        &&& after.lm_head == self.lm_head
        &&& after.checkpoint_config == self.checkpoint_config
    }

    /// Merges the adapters into the weights, layer by layer, up to the first that cannot be.
    pub fn merge_lora(&mut self) -> (r: Result<(), LoraError>)
        ensures
            r is Ok ==> stack_merged(old(self).model.layers@, final(self).model.layers@),
            r matches Err(e) ==> e is Mlx && stack_merge_stopped(
                old(self).model.layers@,
                final(self).model.layers@,
            ),
            old(self).only_layers_changed(*final(self)),
    {
        merge_layers(&mut self.model.layers)
    }

    /// Refused: a merge is undone by loading the frozen weights again.
    pub fn unmerge_lora(&mut self) -> (r: Result<(), LoraError>)
        ensures
            r matches Err(LoraError::InvalidState(what)) && what@
                == "unmerge_lora is not supported: reload base model weights to undo a merge"@,
            *final(self) == *old(self),
    {
        Err(
            LoraError::InvalidState(
                String::from_str(
                    "unmerge_lora is not supported: reload base model weights to undo a merge",
                ),
            ),
        )
    }

    /// Switches gradient checkpointing on.
    pub fn enable_gradient_checkpointing(&mut self, layers_per_block: usize)
        ensures
            *final(self) == (NemotronHLoraForCausalLM {
                checkpoint_config: Some(checkpointing(layers_per_block)),
                ..*old(self)
            }),
    {
        self.checkpoint_config = Some(make_checkpointing(layers_per_block));
    }

    /// Switches gradient checkpointing off.
    pub fn disable_gradient_checkpointing(&mut self)
        ensures
            *final(self) == (NemotronHLoraForCausalLM { checkpoint_config: None, ..*old(self) }),
    {
        self.checkpoint_config = None;
    }

    pub fn supports_gradient_checkpointing(&self) -> (r: bool)
        ensures
            r == false,
    {
        false
    }

    /// The number of trainable elements.
    pub fn num_trainable_params(&self) -> (r: usize)
        requires
            stack_countable(self.model.layers@),
        ensures
            r == trainable_total(self.model.layers@),
    {
        self.model.num_trainable_params()
    }

    /// The number of trainable elements.
    pub fn num_parameters(&self) -> (r: usize)
        requires
            stack_countable(self.model.layers@),
        ensures
            r == trainable_total(self.model.layers@),
    {
        self.model.num_trainable_params()
    }

    /// The matrices of all adapters, under their names.
    pub fn lora_parameters(&self) -> (r: NameMap<Array>)
        ensures
            r@ == parameter_map(NameStyle::Plain, self.model.layers@),
    {
        collect_parameters(&self.model.layers, NameStyle::Plain)
    }

    /// Replaces the adapters' matrices that the map names.
    pub fn set_lora_parameters(&mut self, params: &NameMap<Array>)
        ensures
            final(self).model.layers@ == assigned(
                NameStyle::Plain,
                old(self).model.layers@,
                params@,
            ),
            old(self).only_layers_changed(*final(self)),
    {
        assign_parameters(&mut self.model.layers, params, NameStyle::Plain);
    }

    /// The matrices of the adapters, layer by layer.
    pub fn parameters<'a>(&'a self) -> (r: Vec<LayerParamRef<'a>>)
        ensures
            lists_stack(r@, self.model.layers@),
    {
        parameter_refs(&self.model.layers)
    }

    /// The matrices of the adapters: all of them are trainable.
    pub fn trainable_parameters<'a>(&'a self) -> (r: Vec<LayerParamRef<'a>>)
        ensures
            lists_stack(r@, self.model.layers@),
    {
        parameter_refs(&self.model.layers)
    }

    /// The matrices of the adapters, layer by layer, open to replacement.
    pub fn parameters_mut<'a>(&'a mut self) -> (r: Vec<LayerParamMut<'a>>)
        ensures
            r@.len() == adapted_before(old(self).model.layers@, old(self).model.layers@.len()),
            forall|i: int|
                0 <= i < old(self).model.layers@.len() && (#[trigger] old(
                    self,
                ).model.layers@[i]).matrices().len() > 0 ==> {
                    let g = r@[adapted_before(old(self).model.layers@, i as nat) as int];
                    &&& g.layer == i
                    &&& g.entries@.len() == old(self).model.layers@[i].matrices().len()
                    &&& forall|j: int|
                        0 <= j < g.entries@.len() ==> {
                            &&& (#[trigger] g.entries@[j]).place == old(
                                self,
                            ).model.layers@[i].places()[j / 2]
                            &&& g.entries@[j].half == half_of(j)
                            &&& *g.entries@[j].value == old(self).model.layers@[i].matrices()[j]
                        }
                },
            final(self).model.layers@.len() == old(self).model.layers@.len(),
            forall|i: int|
                #![trigger final(self).model.layers@[i]]
                0 <= i < old(self).model.layers@.len() ==> {
                    let was = old(self).model.layers@[i];
                    let k = adapted_before(old(self).model.layers@, i as nat) as int;
                    &&& was.matrices().len() == 0 ==> final(self).model.layers@[i] == was
                    &&& was.matrices().len() > 0 ==> final(self).model.layers@[i]
                        == was.with_matrices(
                        Seq::new(r@[k].entries@.len(), |j: int| *final(r@[k].entries@[j].value)),
                    )
                },
            old(self).only_layers_changed(*final(self)),
    {
        stack_refs_mut(&mut self.model.layers)
    }

    /// Adapters cannot be frozen.
    pub fn freeze_parameters(&mut self, _recursive: bool)
        ensures
            *final(self) == *old(self),
    {
    }

    /// Adapters are never frozen.
    pub fn unfreeze_parameters(&mut self, _recursive: bool)
        ensures
            *final(self) == *old(self),
    {
    }

    pub fn all_frozen(&self) -> (r: Option<bool>)
        ensures
            r == Some(false),
    {
        Some(false)
    }

    pub fn any_frozen(&self) -> (r: Option<bool>)
        ensures
            r == Some(false),
    {
        Some(false)
    }

    /// The arrays to evaluate before the first use of the model, in order.
    pub fn eval_all(&self) -> (r: Vec<Array>)
        ensures
            r@ == model_evaluated(
                self.model.embeddings,
                self.model.layers@,
                self.model.norm_f,
                self.lm_head,
            ),
    {
        list_evaluated(
            &self.model.embeddings,
            &self.model.layers,
            &self.model.norm_f,
            &self.lm_head,
        )
    }

    /// Attention alone does not carry a hybrid model's past.
    pub fn supports_kv_cache(&self) -> (r: bool)
        ensures
            !r,
    {
        false
    }

    pub fn config(&self) -> (r: &NemotronHConfig)
        ensures
            *r == self.model.config,
    {
        &self.model.config
    }

    pub fn lora_config(&self) -> (r: &LoraConfig)
        ensures
            *r == self.model.lora_config,
    {
        &self.model.lora_config
    }

    /// Replaces the frozen weights that the map names. The adapters stay as they are. The
    /// embeddings and the last normalization have two names each, of which the first counts.
    pub fn load_base_weights(&mut self, weights: &NameMap<Array>) -> (r: Result<(), LoraError>)
        ensures
            r is Ok,
            loads(*old(self), *final(self), weights@),
            final(self).model.layers@.len() == old(self).model.layers@.len(),
            forall|i: int|
                0 <= i < old(self).model.layers@.len() ==> old(self).model.layers@[i].loaded_to(
                    #[trigger] final(self).model.layers@[i],
                    i as nat,
                    listed_kind(old(self).model.config.layer_types@, i),
                    weights@,
                ),
            final(self).model.embeddings.weight == lookup(
                weights@,
                "backbone.embeddings.weight"@,
                lookup(
                    weights@,
                    "model.embed_tokens.weight"@,
                    old(self).model.embeddings.weight,
                ),
            ),
            final(self).model.norm_f == (RmsNorm {
                weight: lookup(
                    weights@,
                    "backbone.norm_f.weight"@,
                    lookup(weights@, "model.norm.weight"@, old(self).model.norm_f.weight),
                ),
                ..old(self).model.norm_f
            }),
            final(self).lm_head == loaded_head(old(self).lm_head, weights@, "lm_head.weight"@),
            final(self).model.config == old(self).model.config,
            final(self).model.lora_config == old(self).model.lora_config,
            final(self).checkpoint_config == old(self).checkpoint_config,
    {
        load_table(&mut self.model.embeddings, weights, "model.embed_tokens.weight");
        load_table(&mut self.model.embeddings, weights, "backbone.embeddings.weight");
        let ghost before = self.model.layers@;
        let ghost table = self.model.embeddings;
        let mut i: usize = 0;
        while i < self.model.layers.len()
            invariant
                i <= self.model.layers@.len(),
                self.model.layers@.len() == before.len(),
                before == old(self).model.layers@,
                forall|j: int|
                    0 <= j < i ==> before[j].loaded_to(
                        #[trigger] self.model.layers@[j],
                        j as nat,
                        listed_kind(old(self).model.config.layer_types@, j),
                        weights@,
                    ),
                forall|j: int|
                    i <= j < before.len() ==> #[trigger] self.model.layers@[j] == before[j],
                self.model.embeddings == table,
                self.model.norm_f == old(self).model.norm_f,
                self.lm_head == old(self).lm_head,
                self.model.config == old(self).model.config,
                self.model.lora_config == old(self).model.lora_config,
                self.checkpoint_config == old(self).checkpoint_config,
            decreases self.model.layers.len() - i,
        {
            let listed = if i < self.model.config.layer_types.len() {
                self.model.config.layer_types[i]
            } else {
                '*'
            };
            self.model.layers[i].load(i, listed, weights);
            i = i + 1;
        }
        load_norm(&mut self.model.norm_f, weights, &String::from_str("model.norm.weight"));
        load_norm(&mut self.model.norm_f, weights, &String::from_str("backbone.norm_f.weight"));
        load_head(&mut self.lm_head, weights, "lm_head.weight");
        Ok(())
    }
}

/// The embeddings and each block can be made.
pub open spec fn nemotron_buildable(dims: NemotronHDims, kinds: Seq<char>) -> bool {
    &&& dims.vocab_size >= 0 && dims.hidden_size >= 0
    &&& forall|i: int|
        0 <= i < kinds.len() ==> NemotronHLoraBlock::buildable(dims, #[trigger] kinds[i])
}

/// The kind under which a block is listed: attention where the list ends before it.
pub open spec fn listed_kind(kinds: Seq<char>, i: int) -> char {
    if 0 <= i < kinds.len() {
        kinds[i]
    } else {
        '*'
    }
}

/// The kind of mixer that a listed kind gives: an unknown one counts as attention.
pub open spec fn built_kind(listed: char) -> char {
    if listed == 'M' || listed == '-' || listed == 'E' {
        listed
    } else {
        '*'
    }
}

fn find_built_kind(listed: char) -> (r: char)
    ensures
        r == built_kind(listed),
{
    if listed == 'M' || listed == '-' || listed == 'E' {
        listed
    } else {
        '*'
    }
}

/// A fresh block has the kind of mixer that its listed kind gives, so that the frozen weights of
/// each layer are loaded, whatever letter it is listed under.
pub proof fn law_fresh_block_kind(
    block: NemotronHLoraBlock,
    dims: NemotronHDims,
    lora: LoraConfig,
    listed: char,
)
    requires
        block.is_fresh(dims, lora, listed),
    ensures
        block.mixer.kind() == built_kind(listed),
{
}

/// `backbone.layers.{layer}.mixer.experts.{expert}.{part}`.
pub open spec fn expert_name(layer: nat, expert: nat, part: Seq<char>) -> Seq<char> {
    part_name("backbone"@, layer, dotted("mixer.experts"@, dotted(decimal(expert), part)))
}

fn make_expert_name(layer: usize, expert: usize, part: &str) -> (r: String)
    ensures
        r@ == expert_name(layer as nat, expert as nat, part@),
{
    let tail = join(to_decimal(expert).as_str(), part);
    let tail = join("mixer.experts", tail.as_str());
    make_part_name("backbone", layer, tail.as_str())
}

/// An expert with the weights that have its names.
pub open spec fn loaded_expert(
    e: Expert,
    layer: nat,
    expert: nat,
    weights: Map<Seq<char>, Array>,
) -> Expert {
    Expert {
        up_proj: loaded_linear(e.up_proj, weights, expert_name(layer, expert, "up_proj.weight"@)),
        down_proj: loaded_linear(
            e.down_proj,
            weights,
            expert_name(layer, expert, "down_proj.weight"@),
        ),
    }
}

/// The array of that name, or what stands in for one.
pub open spec fn found_or(
    weights: Map<Seq<char>, Array>,
    name: Seq<char>,
    other: Option<Array>,
) -> Option<Array> {
    if weights.contains_key(name) {
        Some(weights[name])
    } else {
        other
    }
}

fn load_option(dst: &mut Option<Array>, weights: &NameMap<Array>, name: &String)
    ensures
        *final(dst) == found_or(weights@, name@, *old(dst)),
{
    match weights.get(name) {
        Some(w) => {
            *dst = Some(w.clone());
        },
        None => {},
    }
}

/// The weight of a convolution, which comes with its two inner axes exchanged. One of other than
/// three axes does not fit.
pub open spec fn loaded_kernel(w: Array) -> Array {
    if w.shape is D3 {
        swap_inner(w)
    } else {
        unfit(w)
    }
}

fn make_loaded_kernel(w: &Array) -> (r: Array)
    ensures
        r == loaded_kernel(*w),
{
    match w.shape {
        Shape::D3(_, _, _) => w.swap_inner(),
        _ => make_unfit(w),
    }
}

/// A state-space mixer with the weights that have its names.
pub open spec fn loaded_mamba(
    m: NemotronHMixer,
    i: nat,
    weights: Map<Seq<char>, Array>,
) -> NemotronHMixer {
    let b = "backbone"@;
    let conv = part_name(b, i, "mixer.conv1d.weight"@);
    NemotronHMixer {
        in_proj: loaded_head(m.in_proj, weights, part_name(b, i, "mixer.in_proj.weight"@)),
        conv1d: match m.conv1d {
            Some(c) => Some(
                Conv1d {
                    weight: if weights.contains_key(conv) {
                        loaded_kernel(weights[conv])
                    } else {
                        c.weight
                    },
                    bias: found_or(weights, part_name(b, i, "mixer.conv1d.bias"@), c.bias),
                },
            ),
            None => None,
        },
        out_proj: loaded_head(m.out_proj, weights, part_name(b, i, "mixer.out_proj.weight"@)),
        a_log: found_or(weights, part_name(b, i, "mixer.A_log"@), m.a_log),
        d: found_or(weights, part_name(b, i, "mixer.D"@), m.d),
        dt_bias: found_or(weights, part_name(b, i, "mixer.dt_bias"@), m.dt_bias),
        gated_norm: match m.gated_norm {
            Some(n) => Some(loaded_norm(n, weights, part_name(b, i, "mixer.norm.weight"@))),
            None => None,
        },
        ..m
    }
}

fn load_mamba(m: &mut NemotronHMixer, i: usize, weights: &NameMap<Array>)
    ensures
        *final(m) == loaded_mamba(*old(m), i as nat, weights@),
{
    let b = "backbone";
    let name = make_part_name(b, i, "mixer.in_proj.weight");
    load_head(&mut m.in_proj, weights, name.as_str());
    let name = make_part_name(b, i, "mixer.out_proj.weight");
    load_head(&mut m.out_proj, weights, name.as_str());
    match &mut m.conv1d {
        Some(c) => {
            match weights.get(&make_part_name(b, i, "mixer.conv1d.weight")) {
                Some(w) => {
                    c.weight = make_loaded_kernel(w);
                },
                None => {},
            }
            load_option(&mut c.bias, weights, &make_part_name(b, i, "mixer.conv1d.bias"));
        },
        None => {},
    }
    load_option(&mut m.a_log, weights, &make_part_name(b, i, "mixer.A_log"));
    load_option(&mut m.d, weights, &make_part_name(b, i, "mixer.D"));
    load_option(&mut m.dt_bias, weights, &make_part_name(b, i, "mixer.dt_bias"));
    match &mut m.gated_norm {
        Some(n) => {
            load_norm(n, weights, &make_part_name(b, i, "mixer.norm.weight"));
        },
        None => {},
    }
}

/// A state-space block has no adapter.
pub proof fn law_mamba_has_no_adapter(block: NemotronHLoraBlock)
    requires
        block.mixer.mamba(),
    ensures
        block.places().len() == 0,
        block.matrices().len() == 0,
        LoraLayer::trainable(block) == 0,
{
}

/// No parameter of a state-space block is named, whatever the model holds besides.
pub proof fn law_mamba_not_named(
    style: NameStyle,
    layers: Seq<NemotronHLoraBlock>,
    i: int,
    place: Place,
    half: Half,
)
    requires
        0 <= i < layers.len(),
        layers[i].mixer.mamba(),
    ensures
        !parameter_map(style, layers).contains_key(
            lora_name(style, i as nat, place.section, place.proj, half),
        ),
{
    let key = lora_name(style, i as nat, place.section, place.proj, half);
    law_parameter_names(style, layers, key);
    if names_matrix(style, layers, key) {
        let (l, j) = choose|l: int, j: int|
            0 <= l < layers.len() && 0 <= j < layers[l].matrices().len() && #[trigger] name_at(
                style,
                l as nat,
                layers[l].places(),
                j,
            ) == key;
        let p = layers[l].places()[j / 2];
        lemma_lora_name_injective(
            style,
            l as nat,
            p.section,
            p.proj,
            half_of(j),
            i as nat,
            place.section,
            place.proj,
            half,
        );
    }
}

} // verus!
