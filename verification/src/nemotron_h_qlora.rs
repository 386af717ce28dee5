//! The hybrid Nemotron-H with adapters on quantized weights: state-space mixers and routed experts
//! stay in full precision.

use crate::array::{
    Array, AttentionMaskType, Function, FusedAttentionConfig, RopeConfig, apply, attend,
    lemma_combine_rank, lemma_embed_rank, lemma_rms_norm_shape, plus, reshape, rope,
};
use crate::attention::{
    given, make_merge_heads_to, make_rows_of, make_split_heads, make_unfit, merge_heads_to, rows_of,
    split_heads, unfit,
};
use crate::config::{CheckpointConfig, LoraConfig, checkpointing, make_checkpointing};
use crate::error::{LoraError, checked, misfit, outcome};
use crate::evaluation::{EvalLayer, list_evaluated, model_evaluated};
use crate::kv_cache::{KVCache, KVCacheState, MambaCache, MambaCacheEntry};
use crate::lora::Adapter;
use crate::mamba::NemotronHMixer;
use crate::memory::{
    MeasuredLayer, Memory, compare_layers, full_bytes_upto, measure_layers, stack_comparable,
    stack_measurable, stack_memory,
};
use crate::merging::{
    MergeLayer, MergeSteps, merge_layers, stack_merge_stopped, stack_merged, stops_at,
};
use crate::moe::MoELayer;
use crate::name_map::NameMap;
use crate::names::{NameStyle, Proj, Section};
use crate::nemotron_h_lora::{
    NemotronHConfig, NemotronHDims, NemotronHLoraAttention, NemotronHLoraBlock,
    NemotronHLoraForCausalLM, NemotronHLoraMLP, NemotronHLoraMixer, NemotronHLoraMoE,
    NemotronHLoraModel, NemotronHLoraSharedExpert, listed_kind, nemotron_buildable,
};
use crate::nn::{Embedding, Linear, RmsNorm, get_logits_weight, logits, logits_weight, run_logits};
use crate::params::{
    LayerParamMut, LayerParamRef, LoraLayer, ParamMut, ParamRef, Place, adapted_before,
    adapter_refs_mut, assign_adapter, assign_parameters, assigned, at, collect_adapter,
    collect_parameters, count_trainable, half_of, lists_stack, lookup, parameter_map,
    parameter_refs, push_refs, stack_countable, stack_refs_mut, trainable_total, with_named,
};
use crate::qlora::{QLoraConfig, QLoraLinear, quantize_lora_layer};
use crate::quantization::quantizable;
use crate::scalar::{F32, ONE_BITS, Scale};
use crate::weights::loaded_head;
use vstd::prelude::*;
use vstd::string::*;

verus! {

/// Grouped-query attention with adapters on its four projections.
#[derive(Debug)]
pub struct NemotronHQloraAttention {
    pub num_heads: i32,
    pub num_kv_heads: i32,
    pub head_dim: i32,
    pub scale: Scale,
    pub rope_theta: F32,
    pub q_proj: QLoraLinear,
    pub k_proj: QLoraLinear,
    pub v_proj: QLoraLinear,
    pub o_proj: QLoraLinear,
}

impl NemotronHQloraAttention {
    /// The layer after its weights were restored.
    pub open spec fn warmed(self) -> NemotronHQloraAttention {
        NemotronHQloraAttention {
            q_proj: self.q_proj.warmed(),
            k_proj: self.k_proj.warmed(),
            v_proj: self.v_proj.warmed(),
            o_proj: self.o_proj.warmed(),
            ..self
        }
    }

    pub open spec fn rope(self) -> RopeConfig {
        RopeConfig { dims: self.head_dim, base: self.rope_theta, scale: F32 { bits: ONE_BITS } }
    }

    /// Causal.
    pub open spec fn fused_config(self) -> FusedAttentionConfig {
        FusedAttentionConfig {
            num_heads: self.num_heads,
            num_kv_heads: self.num_kv_heads,
            head_dim: self.head_dim,
            scale: self.scale,
            mask_type: AttentionMaskType::Causal,
        }
    }

    /// Rotated queries, rotated keys and values of the input.
    pub open spec fn parts(self, x: Array, offset: i32) -> (Array, Array, Array) {
        let b = x.shape.outer();
        let l = x.shape.second();
        (
            rope(
                split_heads(self.q_proj.output(x), b, l, self.num_heads, self.head_dim),
                self.rope(),
                offset,
            ),
            rope(
                split_heads(self.k_proj.output(x), b, l, self.num_kv_heads, self.head_dim),
                self.rope(),
                offset,
            ),
            split_heads(self.v_proj.output(x), b, l, self.num_kv_heads, self.head_dim),
        )
    }

    /// Fused attention of rotated queries and keys, projected.
    pub open spec fn fused(
        self,
        x: Array,
        q: Array,
        k: Array,
        v: Array,
        mask: Option<Array>,
    ) -> Array {
        let mixed = attend(q, k, v, self.fused_config(), mask);
        self.o_proj.output(
            merge_heads_to(
                mixed,
                x.shape.outer(),
                x.shape.second(),
                (self.num_heads * self.head_dim) as i32,
            ),
        )
    }

    /// Attention over the input alone.
    pub open spec fn output(self, x: Array, mask: Option<Array>) -> Array {
        let p = self.parts(x, 0);
        self.fused(x, p.0, p.1, p.2, mask)
    }

    /// Attention over what the cache holds and the input, and the cache behind it. An input that
    /// does not fit leaves the cache as it is.
    pub open spec fn cached_output(
        self,
        x: Array,
        mask: Option<Array>,
        cache: KVCacheState,
        layer: int,
    ) -> (Array, KVCacheState) {
        let p = self.parts(x, cache.offset);
        if p.0.fits && p.1.fits && p.2.fits && cache.accepts(layer, p.1, p.2) {
            let both = cache.joined(layer, p.1, p.2);
            (self.fused(x, p.0, both.0, both.1, mask), cache.extended(layer, p.1, p.2))
        } else {
            (self.o_proj.output(unfit(x)), cache)
        }
    }

    /// The width of all heads fits a machine word.
    pub open spec fn ready(self) -> bool {
        i32::MIN <= self.num_heads * self.head_dim <= i32::MAX
    }

    /// The layer with its weights quantized and with fresh adapters.
    pub open spec fn of(l: NemotronHLoraAttention, config: QLoraConfig) -> NemotronHQloraAttention {
        NemotronHQloraAttention {
            num_heads: l.num_heads,
            num_kv_heads: l.num_kv_heads,
            head_dim: l.head_dim,
            scale: l.scale,
            rope_theta: l.rope_theta,
            q_proj: QLoraLinear::on(l.q_proj.weight, l.q_proj.bias, config),
            k_proj: QLoraLinear::on(l.k_proj.weight, l.k_proj.bias, config),
            v_proj: QLoraLinear::on(l.v_proj.weight, l.v_proj.bias, config),
            o_proj: QLoraLinear::on(l.o_proj.weight, l.o_proj.bias, config),
        }
    }

    /// The weights of the layer can be quantized.
    pub open spec fn quantizes(l: NemotronHLoraAttention, config: QLoraConfig) -> bool {
        quantizable(l.q_proj.weight, config.nf4()) && quantizable(l.k_proj.weight, config.nf4())
            && quantizable(l.v_proj.weight, config.nf4())
            && quantizable(l.o_proj.weight, config.nf4())
    }

    pub(crate) fn from_lora(
        l: NemotronHLoraAttention,
        config: &QLoraConfig,
    ) -> (r: Result<NemotronHQloraAttention, LoraError>)
        requires
            config.lora.valid(),
        ensures
            match r {
                Ok(q) => NemotronHQloraAttention::quantizes(l, *config)
                    && q == NemotronHQloraAttention::of(l, *config),
                Err(e) => e is Mlx && !NemotronHQloraAttention::quantizes(l, *config),
            },
    {
        match (
            quantize_lora_layer(&l.q_proj, config),
            quantize_lora_layer(&l.k_proj, config),
            quantize_lora_layer(&l.v_proj, config),
            quantize_lora_layer(&l.o_proj, config),
        ) {
            (Ok(q_proj), Ok(k_proj), Ok(v_proj), Ok(o_proj)) => Ok(
                NemotronHQloraAttention {
                    num_heads: l.num_heads,
                    num_kv_heads: l.num_kv_heads,
                    head_dim: l.head_dim,
                    scale: l.scale,
                    rope_theta: l.rope_theta,
                    q_proj,
                    k_proj,
                    v_proj,
                    o_proj,
                },
            ),
            _ => Err(misfit()),
        }
    }

    fn run_parts(&mut self, x: &Array, offset: i32) -> (r: (Array, Array, Array))
        requires
            x.shape.rank() >= 2,
        ensures
            r == old(self).parts(*x, offset),
            *final(self) == (NemotronHQloraAttention {
                q_proj: old(self).q_proj.warmed(),
                k_proj: old(self).k_proj.warmed(),
                v_proj: old(self).v_proj.warmed(),
                ..*old(self)
            }),
    {
        let (batch, length) = x.shape.outer_two();
        let rope = RopeConfig {
            dims: self.head_dim,
            base: self.rope_theta,
            scale: F32 { bits: ONE_BITS },
        };
        let q = self.q_proj.run(x);
        let k = self.k_proj.run(x);
        let v = self.v_proj.run(x);
        (
            make_split_heads(&q, batch, length, self.num_heads, self.head_dim).rope(rope, offset),
            make_split_heads(&k, batch, length, self.num_kv_heads, self.head_dim).rope(
                rope,
                offset,
            ),
            make_split_heads(&v, batch, length, self.num_kv_heads, self.head_dim),
        )
    }

    fn run_fused(
        &mut self,
        x: &Array,
        q: &Array,
        k: &Array,
        v: &Array,
        mask: Option<&Array>,
    ) -> (r: Array)
        requires
            x.shape.rank() >= 2,
            old(self).ready(),
        ensures
            r == old(self).fused(*x, *q, *k, *v, given(mask)),
            *final(self) == (
                NemotronHQloraAttention { o_proj: old(self).o_proj.warmed(), ..*old(self) }
            ),
    {
        let (batch, length) = x.shape.outer_two();
        let config = FusedAttentionConfig {
            num_heads: self.num_heads,
            num_kv_heads: self.num_kv_heads,
            head_dim: self.head_dim,
            scale: self.scale,
            mask_type: AttentionMaskType::Causal,
        };
        let mixed = q.attend(k, v, config, mask);
        let width: i32 = self.num_heads * self.head_dim;
        self.o_proj.run(&make_merge_heads_to(&mixed, batch, length, width))
    }

    pub(crate) fn run(&mut self, x: &Array, mask: Option<&Array>) -> (r: Array)
        requires
            x.shape.rank() >= 2,
            old(self).ready(),
        ensures
            r == old(self).output(*x, given(mask)),
            *final(self) == old(self).warmed(),
    {
        let (q, k, v) = self.run_parts(x, 0);
        self.run_fused(x, &q, &k, &v, mask)
    }

    pub(crate) fn run_cached(
        &mut self,
        x: &Array,
        mask: Option<&Array>,
        cache: &mut KVCache,
        layer: usize,
    ) -> (r: Array)
        requires
            x.shape.rank() >= 2,
            old(self).ready(),
        ensures
            (r, final(cache)@) == old(self).cached_output(
                *x,
                given(mask),
                old(cache)@,
                layer as int,
            ),
            *final(self) == old(self).warmed(),
    {
        let offset = cache.rope_offset();
        let (q, k, v) = self.run_parts(x, offset);
        if q.fits && k.fits && v.fits {
            match cache.update_and_fetch(layer, &k, &v) {
                Ok((keys, values)) => {
                    return self.run_fused(x, &q, &keys, &values, mask);
                },
                Err(_) => {},
            }
        }
        self.o_proj.run(&make_unfit(x))
    }

    /// Attention over the input alone.
    pub fn forward(&mut self, x: &Array, mask: Option<&Array>) -> (r: Result<Array, LoraError>)
        requires
            x.shape.rank() >= 2,
            old(self).ready(),
        ensures
            outcome(r, old(self).output(*x, given(mask))),
            *final(self) == old(self).warmed(),
    {
        checked(self.run(x, mask))
    }

    /// Attention over what the cache holds for the layer and the input.
    pub fn forward_with_cache(
        &mut self,
        x: &Array,
        mask: Option<&Array>,
        cache: Option<(&mut KVCache, usize)>,
    ) -> (r: Result<Array, LoraError>)
        requires
            x.shape.rank() >= 2,
            old(self).ready(),
        ensures
            match cache {
                Some(c) => {
                    let end = old(self).cached_output(*x, given(mask), c.0@, c.1 as int);
                    outcome(r, end.0) && final(c.0)@ == end.1
                },
                None => outcome(r, old(self).output(*x, given(mask))),
            },
            *final(self) == old(self).warmed(),
    {
        match cache {
            Some((c, layer)) => checked(self.run_cached(x, mask, c, layer)),
            None => checked(self.run(x, mask)),
        }
    }

    /// The number of trainable elements.
    pub fn num_trainable_params(&self) -> (r: usize)
        requires
            self.countable(),
            LoraLayer::trainable(*self) <= usize::MAX,
        ensures
            r == LoraLayer::trainable(*self),
    {
        self.q_proj.num_trainable_params() + self.k_proj.num_trainable_params()
            + self.v_proj.num_trainable_params() + self.o_proj.num_trainable_params()
    }

    /// Bytes of the quantized weights, of the adapters, and of both and the biases.
    pub open spec fn memory(self) -> Memory {
        self.q_proj.memory().plus(self.k_proj.memory()).plus(self.v_proj.memory()).plus(
            self.o_proj.memory()
        )
    }

    /// Bytes that the frozen elements would take in single precision.
    pub open spec fn full_bytes(self) -> nat {
        self.q_proj.frozen() * 4 + self.k_proj.frozen() * 4 + self.v_proj.frozen() * 4
            + self.o_proj.frozen() * 4
    }

    /// The bytes can be counted.
    pub open spec fn measurable(self) -> bool {
        self.q_proj.measurable() && self.k_proj.measurable() && self.v_proj.measurable()
            && self.o_proj.measurable()
    }

    /// Bytes of the quantized weights, of the adapters, and of both and the biases.
    pub fn memory_usage(&self) -> (r: (usize, usize, usize))
        requires
            self.measurable(),
            self.memory().fits(),
        ensures
            self.memory().is(r),
    {
        let m0 = self.q_proj.memory_usage();
        let m1 = self.k_proj.memory_usage();
        let m2 = self.v_proj.memory_usage();
        let m3 = self.o_proj.memory_usage();
        (m0.0 + m1.0 + m2.0 + m3.0, m0.1 + m1.1 + m2.1 + m3.1, m0.2 + m1.2 + m2.2 + m3.2)
    }

    pub(crate) fn count_full_bytes(&self) -> (r: usize)
        requires
            self.measurable(),
            self.full_bytes() <= usize::MAX,
        ensures
            r == self.full_bytes(),
    {
        self.q_proj.num_frozen_params() * 4 + self.k_proj.num_frozen_params() * 4
            + self.v_proj.num_frozen_params() * 4 + self.o_proj.num_frozen_params() * 4
    }
}

impl LoraLayer for NemotronHQloraAttention {
    open spec fn places(self) -> Seq<Place> {
        seq![
            at(Section::Mixer, Proj::Q), at(Section::Mixer, Proj::K), at(Section::Mixer, Proj::V),
            at(Section::Mixer, Proj::O)
        ]
    }

    open spec fn matrices(self) -> Seq<Array> {
        seq![
            self.q_proj.a(), self.q_proj.b(), self.k_proj.a(), self.k_proj.b(), self.v_proj.a(),
            self.v_proj.b(), self.o_proj.a(), self.o_proj.b()
        ]
    }

    open spec fn with_matrices(self, m: Seq<Array>) -> NemotronHQloraAttention {
        NemotronHQloraAttention {
            q_proj: self.q_proj.with(m[0], m[1]),
            k_proj: self.k_proj.with(m[2], m[3]),
            v_proj: self.v_proj.with(m[4], m[5]),
            o_proj: self.o_proj.with(m[6], m[7]),
            ..self
        }
    }

    open spec fn trainable(self) -> nat {
        self.q_proj.trainable() + self.k_proj.trainable() + self.v_proj.trainable()
            + self.o_proj.trainable()
    }

    open spec fn countable(self) -> bool {
        self.q_proj.countable() && self.k_proj.countable() && self.v_proj.countable()
            && self.o_proj.countable()
    }

    proof fn lemma_layer(self, m: Seq<Array>) {
        assert(self.with_matrices(m).matrices() =~= m);
    }

    fn collect(&self, params: &mut NameMap<Array>, style: NameStyle, layer: usize) {
        proof {
            reveal_with_fuel(with_named, 9);
        }
        collect_adapter(&self.q_proj, params, style, layer, Section::Mixer, Proj::Q);
        collect_adapter(&self.k_proj, params, style, layer, Section::Mixer, Proj::K);
        collect_adapter(&self.v_proj, params, style, layer, Section::Mixer, Proj::V);
        collect_adapter(&self.o_proj, params, style, layer, Section::Mixer, Proj::O);
    }

    fn assign(&mut self, params: &NameMap<Array>, style: NameStyle, layer: usize) {
        assign_adapter(&mut self.q_proj, params, style, layer, Section::Mixer, Proj::Q);
        assign_adapter(&mut self.k_proj, params, style, layer, Section::Mixer, Proj::K);
        assign_adapter(&mut self.v_proj, params, style, layer, Section::Mixer, Proj::V);
        assign_adapter(&mut self.o_proj, params, style, layer, Section::Mixer, Proj::O);
    }

    fn refs<'a>(&'a self) -> (r: Vec<ParamRef<'a>>) {
        let mut r: Vec<ParamRef<'a>> = Vec::new();
        push_refs(&self.q_proj, Section::Mixer, Proj::Q, &mut r);
        push_refs(&self.k_proj, Section::Mixer, Proj::K, &mut r);
        push_refs(&self.v_proj, Section::Mixer, Proj::V, &mut r);
        push_refs(&self.o_proj, Section::Mixer, Proj::O, &mut r);
        r
    }

    fn refs_mut<'a>(&'a mut self) -> (r: Vec<ParamMut<'a>>) {
        let mut r: Vec<ParamMut<'a>> = Vec::new();
        let (a, b) = adapter_refs_mut(&mut self.q_proj, Section::Mixer, Proj::Q);
        r.push(a);
        r.push(b);
        let (a, b) = adapter_refs_mut(&mut self.k_proj, Section::Mixer, Proj::K);
        r.push(a);
        r.push(b);
        let (a, b) = adapter_refs_mut(&mut self.v_proj, Section::Mixer, Proj::V);
        r.push(a);
        r.push(b);
        let (a, b) = adapter_refs_mut(&mut self.o_proj, Section::Mixer, Proj::O);
        r.push(a);
        r.push(b);
        r
    }

    fn count(&self) -> (r: usize) {
        self.num_trainable_params()
    }
}

impl MergeSteps for NemotronHQloraAttention {
    open spec fn merge_steps(self) -> nat {
        4
    }

    open spec fn can_merge(self, k: int) -> bool {
        if k == 0 {
            self.q_proj.mergeable()
        } else if k == 1 {
            self.k_proj.mergeable()
        } else if k == 2 {
            self.v_proj.mergeable()
        } else {
            self.o_proj.mergeable()
        }
    }

    open spec fn merged_first(self, k: int) -> NemotronHQloraAttention {
        NemotronHQloraAttention {
            q_proj: if k > 0 { self.q_proj.merge_result() } else { self.q_proj },
            k_proj: if k > 1 { self.k_proj.merge_result() } else { self.k_proj },
            v_proj: if k > 2 { self.v_proj.merge_result() } else { self.v_proj },
            o_proj: if k > 3 { self.o_proj.merge_result() } else { self.o_proj },
            ..self
        }
    }
}

impl MergeLayer for NemotronHQloraAttention {
    fn merge_all(&mut self) -> (r: Result<(), LoraError>) {
        if self.q_proj.merge().is_err() {
            assert(stops_at(*old(self), 0));
            return Err(misfit());
        }
        if self.k_proj.merge().is_err() {
            assert(stops_at(*old(self), 1));
            return Err(misfit());
        }
        if self.v_proj.merge().is_err() {
            assert(stops_at(*old(self), 2));
            return Err(misfit());
        }
        if self.o_proj.merge().is_err() {
            assert(stops_at(*old(self), 3));
            return Err(misfit());
        }
        Ok(())
    }
}

/// `relu(up(x))` squared.
pub open spec fn nemotron_qlora_activated(up: Array) -> Array {
    apply(Function::Square, apply(Function::Relu, up))
}

/// MLP with adapters on its two projections: `down(relu(up(x))^2)`.
#[derive(Debug)]
pub struct NemotronHQloraMLP {
    pub up_proj: QLoraLinear,
    pub down_proj: QLoraLinear,
}

impl NemotronHQloraMLP {
    /// The layer after its weights were restored.
    pub open spec fn warmed(self) -> NemotronHQloraMLP {
        NemotronHQloraMLP {
            up_proj: self.up_proj.warmed(),
            down_proj: self.down_proj.warmed(),
            ..self
        }
    }

    /// `down(relu(up(x))^2)`.
    pub open spec fn output(self, x: Array) -> Array {
        self.down_proj.output(nemotron_qlora_activated(self.up_proj.output(x)))
    }

    /// The layer with its weights quantized and with fresh adapters.
    pub open spec fn of(l: NemotronHLoraMLP, config: QLoraConfig) -> NemotronHQloraMLP {
        NemotronHQloraMLP {
            up_proj: QLoraLinear::on(l.up_proj.weight, l.up_proj.bias, config),
            down_proj: QLoraLinear::on(l.down_proj.weight, l.down_proj.bias, config),
        }
    }

    /// The weights of the layer can be quantized.
    pub open spec fn quantizes(l: NemotronHLoraMLP, config: QLoraConfig) -> bool {
        quantizable(l.up_proj.weight, config.nf4()) && quantizable(l.down_proj.weight, config.nf4())
    }

    pub(crate) fn from_lora(
        l: NemotronHLoraMLP,
        config: &QLoraConfig,
    ) -> (r: Result<NemotronHQloraMLP, LoraError>)
        requires
            config.lora.valid(),
        ensures
            match r {
                Ok(q) => NemotronHQloraMLP::quantizes(l, *config)
                    && q == NemotronHQloraMLP::of(l, *config),
                Err(e) => e is Mlx && !NemotronHQloraMLP::quantizes(l, *config),
            },
    {
        match (
            quantize_lora_layer(&l.up_proj, config),
            quantize_lora_layer(&l.down_proj, config),
        ) {
            (Ok(up_proj), Ok(down_proj)) => Ok(
                NemotronHQloraMLP {
                    up_proj,
                    down_proj,
                },
            ),
            _ => Err(misfit()),
        }
    }

    pub(crate) fn run(&mut self, x: &Array) -> (r: Array)
        ensures
            r == old(self).output(*x),
            *final(self) == old(self).warmed(),
    {
        let up = self.up_proj.run(x);
        self.down_proj.run(&up.apply(Function::Relu).apply(Function::Square))
    }

    /// `down(relu(up(x))^2)`.
    pub fn forward(&mut self, x: &Array) -> (r: Result<Array, LoraError>)
        ensures
            outcome(r, old(self).output(*x)),
            *final(self) == old(self).warmed(),
    {
        checked(self.run(x))
    }

    /// The number of trainable elements.
    pub fn num_trainable_params(&self) -> (r: usize)
        requires
            self.countable(),
            LoraLayer::trainable(*self) <= usize::MAX,
        ensures
            r == LoraLayer::trainable(*self),
    {
        self.up_proj.num_trainable_params() + self.down_proj.num_trainable_params()
    }

    /// Bytes of the quantized weights, of the adapters, and of both and the biases.
    pub open spec fn memory(self) -> Memory {
        self.up_proj.memory().plus(self.down_proj.memory())
    }

    /// Bytes that the frozen elements would take in single precision.
    pub open spec fn full_bytes(self) -> nat {
        self.up_proj.frozen() * 4 + self.down_proj.frozen() * 4
    }

    /// The bytes can be counted.
    pub open spec fn measurable(self) -> bool {
        self.up_proj.measurable() && self.down_proj.measurable()
    }

    /// Bytes of the quantized weights, of the adapters, and of both and the biases.
    pub fn memory_usage(&self) -> (r: (usize, usize, usize))
        requires
            self.measurable(),
            self.memory().fits(),
        ensures
            self.memory().is(r),
    {
        let m0 = self.up_proj.memory_usage();
        let m1 = self.down_proj.memory_usage();
        (m0.0 + m1.0, m0.1 + m1.1, m0.2 + m1.2)
    }

    pub(crate) fn count_full_bytes(&self) -> (r: usize)
        requires
            self.measurable(),
            self.full_bytes() <= usize::MAX,
        ensures
            r == self.full_bytes(),
    {
        self.up_proj.num_frozen_params() * 4 + self.down_proj.num_frozen_params() * 4
    }
}

impl LoraLayer for NemotronHQloraMLP {
    open spec fn places(self) -> Seq<Place> {
        seq![at(Section::Mixer, Proj::Up), at(Section::Mixer, Proj::Down)]
    }

    open spec fn matrices(self) -> Seq<Array> {
        seq![self.up_proj.a(), self.up_proj.b(), self.down_proj.a(), self.down_proj.b()]
    }

    open spec fn with_matrices(self, m: Seq<Array>) -> NemotronHQloraMLP {
        NemotronHQloraMLP {
            up_proj: self.up_proj.with(m[0], m[1]),
            down_proj: self.down_proj.with(m[2], m[3]),
            ..self
        }
    }

    open spec fn trainable(self) -> nat {
        self.up_proj.trainable() + self.down_proj.trainable()
    }

    open spec fn countable(self) -> bool {
        self.up_proj.countable() && self.down_proj.countable()
    }

    proof fn lemma_layer(self, m: Seq<Array>) {
        assert(self.with_matrices(m).matrices() =~= m);
    }

    fn collect(&self, params: &mut NameMap<Array>, style: NameStyle, layer: usize) {
        proof {
            reveal_with_fuel(with_named, 5);
        }
        collect_adapter(&self.up_proj, params, style, layer, Section::Mixer, Proj::Up);
        collect_adapter(&self.down_proj, params, style, layer, Section::Mixer, Proj::Down);
    }

    fn assign(&mut self, params: &NameMap<Array>, style: NameStyle, layer: usize) {
        assign_adapter(&mut self.up_proj, params, style, layer, Section::Mixer, Proj::Up);
        assign_adapter(&mut self.down_proj, params, style, layer, Section::Mixer, Proj::Down);
    }

    fn refs<'a>(&'a self) -> (r: Vec<ParamRef<'a>>) {
        let mut r: Vec<ParamRef<'a>> = Vec::new();
        push_refs(&self.up_proj, Section::Mixer, Proj::Up, &mut r);
        push_refs(&self.down_proj, Section::Mixer, Proj::Down, &mut r);
        r
    }

    fn refs_mut<'a>(&'a mut self) -> (r: Vec<ParamMut<'a>>) {
        let mut r: Vec<ParamMut<'a>> = Vec::new();
        let (a, b) = adapter_refs_mut(&mut self.up_proj, Section::Mixer, Proj::Up);
        r.push(a);
        r.push(b);
        let (a, b) = adapter_refs_mut(&mut self.down_proj, Section::Mixer, Proj::Down);
        r.push(a);
        r.push(b);
        r
    }

    fn count(&self) -> (r: usize) {
        self.num_trainable_params()
    }
}

impl MergeSteps for NemotronHQloraMLP {
    open spec fn merge_steps(self) -> nat {
        2
    }

    open spec fn can_merge(self, k: int) -> bool {
        if k == 0 {
            self.up_proj.mergeable()
        } else {
            self.down_proj.mergeable()
        }
    }

    open spec fn merged_first(self, k: int) -> NemotronHQloraMLP {
        NemotronHQloraMLP {
            up_proj: if k > 0 { self.up_proj.merge_result() } else { self.up_proj },
            down_proj: if k > 1 { self.down_proj.merge_result() } else { self.down_proj },
            ..self
        }
    }
}

impl MergeLayer for NemotronHQloraMLP {
    fn merge_all(&mut self) -> (r: Result<(), LoraError>) {
        if self.up_proj.merge().is_err() {
            assert(stops_at(*old(self), 0));
            return Err(misfit());
        }
        if self.down_proj.merge().is_err() {
            assert(stops_at(*old(self), 1));
            return Err(misfit());
        }
        Ok(())
    }
}

/// The expert that every token goes through, with adapters on its two projections.
#[derive(Debug)]
pub struct NemotronHQloraSharedExpert {
    pub up_proj: QLoraLinear,
    pub down_proj: QLoraLinear,
}

impl NemotronHQloraSharedExpert {
    /// The layer after its weights were restored.
    pub open spec fn warmed(self) -> NemotronHQloraSharedExpert {
        NemotronHQloraSharedExpert {
            up_proj: self.up_proj.warmed(),
            down_proj: self.down_proj.warmed(),
            ..self
        }
    }

    /// `down(relu(up(x))^2)`.
    pub open spec fn output(self, x: Array) -> Array {
        self.down_proj.output(nemotron_qlora_activated(self.up_proj.output(x)))
    }

    /// The layer with its weights quantized and with fresh adapters.
    pub open spec fn of(
        l: NemotronHLoraSharedExpert,
        config: QLoraConfig,
    ) -> NemotronHQloraSharedExpert {
        NemotronHQloraSharedExpert {
            up_proj: QLoraLinear::on(l.up_proj.weight, l.up_proj.bias, config),
            down_proj: QLoraLinear::on(l.down_proj.weight, l.down_proj.bias, config),
        }
    }

    /// The weights of the layer can be quantized.
    pub open spec fn quantizes(l: NemotronHLoraSharedExpert, config: QLoraConfig) -> bool {
        quantizable(l.up_proj.weight, config.nf4()) && quantizable(l.down_proj.weight, config.nf4())
    }

    pub(crate) fn from_lora(
        l: NemotronHLoraSharedExpert,
        config: &QLoraConfig,
    ) -> (r: Result<NemotronHQloraSharedExpert, LoraError>)
        requires
            config.lora.valid(),
        ensures
            match r {
                Ok(q) => NemotronHQloraSharedExpert::quantizes(l, *config)
                    && q == NemotronHQloraSharedExpert::of(l, *config),
                Err(e) => e is Mlx && !NemotronHQloraSharedExpert::quantizes(l, *config),
            },
    {
        match (
            quantize_lora_layer(&l.up_proj, config),
            quantize_lora_layer(&l.down_proj, config),
        ) {
            (Ok(up_proj), Ok(down_proj)) => Ok(
                NemotronHQloraSharedExpert {
                    up_proj,
                    down_proj,
                },
            ),
            _ => Err(misfit()),
        }
    }

    pub(crate) fn run(&mut self, x: &Array) -> (r: Array)
        ensures
            r == old(self).output(*x),
            *final(self) == old(self).warmed(),
    {
        let up = self.up_proj.run(x);
        self.down_proj.run(&up.apply(Function::Relu).apply(Function::Square))
    }

    /// `down(relu(up(x))^2)`.
    pub fn forward(&mut self, x: &Array) -> (r: Result<Array, LoraError>)
        ensures
            outcome(r, old(self).output(*x)),
            *final(self) == old(self).warmed(),
    {
        checked(self.run(x))
    }

    /// The number of trainable elements.
    pub fn num_trainable_params(&self) -> (r: usize)
        requires
            self.countable(),
            LoraLayer::trainable(*self) <= usize::MAX,
        ensures
            r == LoraLayer::trainable(*self),
    {
        self.up_proj.num_trainable_params() + self.down_proj.num_trainable_params()
    }

    /// Bytes of the quantized weights, of the adapters, and of both and the biases.
    pub open spec fn memory(self) -> Memory {
        self.up_proj.memory().plus(self.down_proj.memory())
    }

    /// Bytes that the frozen elements would take in single precision.
    pub open spec fn full_bytes(self) -> nat {
        self.up_proj.frozen() * 4 + self.down_proj.frozen() * 4
    }

    /// The bytes can be counted.
    pub open spec fn measurable(self) -> bool {
        self.up_proj.measurable() && self.down_proj.measurable()
    }

    /// Bytes of the quantized weights, of the adapters, and of both and the biases.
    pub fn memory_usage(&self) -> (r: (usize, usize, usize))
        requires
            self.measurable(),
            self.memory().fits(),
        ensures
            self.memory().is(r),
    {
        let m0 = self.up_proj.memory_usage();
        let m1 = self.down_proj.memory_usage();
        (m0.0 + m1.0, m0.1 + m1.1, m0.2 + m1.2)
    }

    pub(crate) fn count_full_bytes(&self) -> (r: usize)
        requires
            self.measurable(),
            self.full_bytes() <= usize::MAX,
        ensures
            r == self.full_bytes(),
    {
        self.up_proj.num_frozen_params() * 4 + self.down_proj.num_frozen_params() * 4
    }
}

impl LoraLayer for NemotronHQloraSharedExpert {
    open spec fn places(self) -> Seq<Place> {
        seq![at(Section::MixerSharedExpert, Proj::Up), at(Section::MixerSharedExpert, Proj::Down)]
    }

    open spec fn matrices(self) -> Seq<Array> {
        seq![self.up_proj.a(), self.up_proj.b(), self.down_proj.a(), self.down_proj.b()]
    }

    open spec fn with_matrices(self, m: Seq<Array>) -> NemotronHQloraSharedExpert {
        NemotronHQloraSharedExpert {
            up_proj: self.up_proj.with(m[0], m[1]),
            down_proj: self.down_proj.with(m[2], m[3]),
            ..self
        }
    }

    open spec fn trainable(self) -> nat {
        self.up_proj.trainable() + self.down_proj.trainable()
    }

    open spec fn countable(self) -> bool {
        self.up_proj.countable() && self.down_proj.countable()
    }

    proof fn lemma_layer(self, m: Seq<Array>) {
        assert(self.with_matrices(m).matrices() =~= m);
    }

    fn collect(&self, params: &mut NameMap<Array>, style: NameStyle, layer: usize) {
        proof {
            reveal_with_fuel(with_named, 5);
        }
        collect_adapter(&self.up_proj, params, style, layer, Section::MixerSharedExpert, Proj::Up);
        collect_adapter(
            &self.down_proj,
            params,
            style,
            layer,
            Section::MixerSharedExpert,
            Proj::Down,
        );
    }

    fn assign(&mut self, params: &NameMap<Array>, style: NameStyle, layer: usize) {
        assign_adapter(
            &mut self.up_proj,
            params,
            style,
            layer,
            Section::MixerSharedExpert,
            Proj::Up,
        );
        assign_adapter(
            &mut self.down_proj,
            params,
            style,
            layer,
            Section::MixerSharedExpert,
            Proj::Down,
        );
    }

    fn refs<'a>(&'a self) -> (r: Vec<ParamRef<'a>>) {
        let mut r: Vec<ParamRef<'a>> = Vec::new();
        push_refs(&self.up_proj, Section::MixerSharedExpert, Proj::Up, &mut r);
        push_refs(&self.down_proj, Section::MixerSharedExpert, Proj::Down, &mut r);
        r
    }

    fn refs_mut<'a>(&'a mut self) -> (r: Vec<ParamMut<'a>>) {
        let mut r: Vec<ParamMut<'a>> = Vec::new();
        let (a, b) = adapter_refs_mut(&mut self.up_proj, Section::MixerSharedExpert, Proj::Up);
        r.push(a);
        r.push(b);
        let (a, b) = adapter_refs_mut(&mut self.down_proj, Section::MixerSharedExpert, Proj::Down);
        r.push(a);
        r.push(b);
        r
    }

    fn count(&self) -> (r: usize) {
        self.num_trainable_params()
    }
}

impl MergeSteps for NemotronHQloraSharedExpert {
    open spec fn merge_steps(self) -> nat {
        2
    }

    open spec fn can_merge(self, k: int) -> bool {
        if k == 0 {
            self.up_proj.mergeable()
        } else {
            self.down_proj.mergeable()
        }
    }

    open spec fn merged_first(self, k: int) -> NemotronHQloraSharedExpert {
        NemotronHQloraSharedExpert {
            up_proj: if k > 0 { self.up_proj.merge_result() } else { self.up_proj },
            down_proj: if k > 1 { self.down_proj.merge_result() } else { self.down_proj },
            ..self
        }
    }
}

impl MergeLayer for NemotronHQloraSharedExpert {
    fn merge_all(&mut self) -> (r: Result<(), LoraError>) {
        if self.up_proj.merge().is_err() {
            assert(stops_at(*old(self), 0));
            return Err(misfit());
        }
        if self.down_proj.merge().is_err() {
            assert(stops_at(*old(self), 1));
            return Err(misfit());
        }
        Ok(())
    }
}

/// A frozen mixture of experts, and an expert with adapters beside it.
#[derive(Debug)]
pub struct NemotronHQloraMoE {
    pub moe_layer: MoELayer,
    /// The experts' weights, where they are stacked already.
    pub stacked_moe_up: Option<Array>,
    pub stacked_moe_down: Option<Array>,
    pub shared_expert: Option<NemotronHQloraSharedExpert>,
}

impl NemotronHQloraMoE {
    /// The outputs of the picked experts, from stacked weights where there are both.
    pub open spec fn routed(self, x: Array) -> Array {
        match (self.stacked_moe_up, self.stacked_moe_down) {
            (Some(up), Some(down)) => self.moe_layer.stacked_output(x, up, down),
            _ => self.moe_layer.output(x),
        }
    }

    /// The outputs of the picked experts, and that of the shared expert on top.
    pub open spec fn output(self, x: Array) -> Array {
        match self.shared_expert {
            Some(e) => plus(
                self.routed(x),
                reshape(e.output(rows_of(x)), self.routed(x).shape),
            ),
            None => self.routed(x),
        }
    }

    /// The mixture after its weights were restored.
    pub open spec fn warmed(self) -> NemotronHQloraMoE {
        NemotronHQloraMoE {
            shared_expert: match self.shared_expert {
                Some(e) => Some(e.warmed()),
                None => None,
            },
            ..self
        }
    }

    /// The mixture with the shared expert's weights quantized and with fresh adapters.
    pub open spec fn of(l: NemotronHLoraMoE, config: QLoraConfig) -> NemotronHQloraMoE {
        NemotronHQloraMoE {
            moe_layer: l.moe_layer,
            stacked_moe_up: l.stacked_moe_up,
            stacked_moe_down: l.stacked_moe_down,
            shared_expert: match l.shared_expert {
                Some(e) => Some(NemotronHQloraSharedExpert::of(e, config)),
                None => None,
            },
        }
    }

    /// The weights of the shared expert can be quantized.
    pub open spec fn quantizes(l: NemotronHLoraMoE, config: QLoraConfig) -> bool {
        l.shared_expert matches Some(e) ==> NemotronHQloraSharedExpert::quantizes(e, config)
    }

    pub(crate) fn from_lora(
        l: NemotronHLoraMoE,
        config: &QLoraConfig,
    ) -> (r: Result<NemotronHQloraMoE, LoraError>)
        requires
            config.lora.valid(),
        ensures
            match r {
                Ok(q) => NemotronHQloraMoE::quantizes(l, *config)
                    && q == NemotronHQloraMoE::of(l, *config),
                Err(e) => e is Mlx && !NemotronHQloraMoE::quantizes(l, *config),
            },
    {
        let shared_expert = match l.shared_expert {
            Some(e) => match NemotronHQloraSharedExpert::from_lora(e, config) {
                Ok(q) => Some(q),
                Err(e) => {
                    return Err(e);
                },
            },
            None => None,
        };
        Ok(
            NemotronHQloraMoE {
                moe_layer: l.moe_layer,
                stacked_moe_up: l.stacked_moe_up,
                stacked_moe_down: l.stacked_moe_down,
                shared_expert,
            },
        )
    }

    pub(crate) fn run(&mut self, x: &Array) -> (r: Array)
        ensures
            r == old(self).output(*x),
            *final(self) == old(self).warmed(),
    {
        let routed = match (&self.stacked_moe_up, &self.stacked_moe_down) {
            (Some(up), Some(down)) => self.moe_layer.run_stacked(x, up, down),
            _ => self.moe_layer.run(x),
        };
        match &mut self.shared_expert {
            Some(e) => {
                let shared = e.run(&make_rows_of(x)).reshape(routed.shape);
                routed.add(&shared)
            },
            None => routed,
        }
    }

    /// The outputs of the picked experts, and that of the shared expert on top.
    pub fn forward(&mut self, x: &Array) -> (r: Result<Array, LoraError>)
        requires
            x.shape.rank() >= 1,
        ensures
            outcome(r, old(self).output(*x)),
            *final(self) == old(self).warmed(),
    {
        checked(self.run(x))
    }

    pub open spec fn trainable(self) -> nat {
        match self.shared_expert {
            Some(e) => LoraLayer::trainable(e),
            None => 0,
        }
    }

    pub open spec fn countable(self) -> bool {
        self.shared_expert matches Some(e) ==> e.countable()
    }

    /// The number of trainable elements: those of the shared expert.
    pub fn num_trainable_params(&self) -> (r: usize)
        requires
            self.countable(),
            self.trainable() <= usize::MAX,
        ensures
            r == self.trainable(),
    {
        match &self.shared_expert {
            Some(e) => e.num_trainable_params(),
            None => 0,
        }
    }

    /// Bytes of the shared expert.
    pub open spec fn memory(self) -> Memory {
        match self.shared_expert {
            Some(e) => e.memory(),
            None => Memory::zero(),
        }
    }

    pub open spec fn full_bytes(self) -> nat {
        match self.shared_expert {
            Some(e) => e.full_bytes(),
            None => 0,
        }
    }

    /// The bytes can be counted.
    pub open spec fn measurable(self) -> bool {
        self.shared_expert matches Some(e) ==> e.measurable()
    }

    /// Bytes of the shared expert: of its quantized weights, of its adapters, and of both and the
    /// biases.
    pub fn memory_usage(&self) -> (r: (usize, usize, usize))
        requires
            self.measurable(),
            self.memory().fits(),
        ensures
            self.memory().is(r),
    {
        match &self.shared_expert {
            Some(e) => e.memory_usage(),
            None => (0, 0, 0),
        }
    }

    fn count_full_bytes(&self) -> (r: usize)
        requires
            self.measurable(),
            self.full_bytes() <= usize::MAX,
        ensures
            r == self.full_bytes(),
    {
        match &self.shared_expert {
            Some(e) => e.count_full_bytes(),
            None => 0,
        }
    }
}

/// What a block does between its normalization and its residual connection.
#[derive(Debug)]
pub enum NemotronHQloraMixer {
    Mamba(NemotronHMixer),
    Attention(NemotronHQloraAttention),
    Mlp(NemotronHQloraMLP),
    MoE(NemotronHQloraMoE),
}

impl NemotronHQloraMixer {
    pub open spec fn output(self, x: Array, mask: Option<Array>) -> Array {
        match self {
            NemotronHQloraMixer::Mamba(m) => m.output(x, mask, MambaCacheEntry::empty()),
            NemotronHQloraMixer::Attention(a) => a.output(x, mask),
            NemotronHQloraMixer::Mlp(m) => m.output(x),
            NemotronHQloraMixer::MoE(m) => m.output(x),
        }
    }

    /// The output, and what the caches hold behind it: attention uses the one, state-space
    /// mixers use the other.
    pub open spec fn step(
        self,
        x: Array,
        mask: Option<Array>,
        kv: Option<(KVCacheState, int)>,
        state: Option<MambaCacheEntry>,
    ) -> (Array, Option<KVCacheState>, Option<MambaCacheEntry>) {
        let same = match kv {
            Some(c) => Some(c.0),
            None => None,
        };
        match (self, kv, state) {
            (NemotronHQloraMixer::Mamba(m), _, Some(e)) => (
                m.output(x, mask, e),
                same,
                Some(m.after(x, mask, e)),
            ),
            (NemotronHQloraMixer::Attention(a), Some(c), _) => {
                let end = a.cached_output(x, mask, c.0, c.1);
                (end.0, Some(end.1), state)
            },
            _ => (self.output(x, mask), same, state),
        }
    }

    pub open spec fn ready(self) -> bool {
        match self {
            NemotronHQloraMixer::Mamba(m) => m.config.valid(),
            NemotronHQloraMixer::Attention(a) => a.ready(),
            _ => true,
        }
    }

    pub open spec fn mamba(self) -> bool {
        self is Mamba
    }

    pub fn is_mamba(&self) -> (r: bool)
        ensures
            r == self.mamba(),
    {
        match self {
            NemotronHQloraMixer::Mamba(_) => true,
            _ => false,
        }
    }

    /// The mixer after its weights were restored.
    pub open spec fn warmed(self) -> NemotronHQloraMixer {
        match self {
            NemotronHQloraMixer::Mamba(m) => NemotronHQloraMixer::Mamba(m),
            NemotronHQloraMixer::Attention(a) => NemotronHQloraMixer::Attention(a.warmed()),
            NemotronHQloraMixer::Mlp(m) => NemotronHQloraMixer::Mlp(m.warmed()),
            NemotronHQloraMixer::MoE(m) => NemotronHQloraMixer::MoE(m.warmed()),
        }
    }

    /// The mixer with its weights quantized and with fresh adapters; a state-space mixer as it
    /// is.
    pub open spec fn of(l: NemotronHLoraMixer, config: QLoraConfig) -> NemotronHQloraMixer {
        match l {
            NemotronHLoraMixer::Mamba(m) => NemotronHQloraMixer::Mamba(m),
            NemotronHLoraMixer::Attention(a) => NemotronHQloraMixer::Attention(
                NemotronHQloraAttention::of(a, config)
            ),
            NemotronHLoraMixer::Mlp(m) => NemotronHQloraMixer::Mlp(
                NemotronHQloraMLP::of(m, config)
            ),
            NemotronHLoraMixer::MoE(m) => NemotronHQloraMixer::MoE(
                NemotronHQloraMoE::of(m, config)
            ),
        }
    }

    /// The weights of the mixer can be quantized.
    pub open spec fn quantizes(l: NemotronHLoraMixer, config: QLoraConfig) -> bool {
        match l {
            NemotronHLoraMixer::Mamba(_) => true,
            NemotronHLoraMixer::Attention(a) => NemotronHQloraAttention::quantizes(a, config),
            NemotronHLoraMixer::Mlp(m) => NemotronHQloraMLP::quantizes(m, config),
            NemotronHLoraMixer::MoE(m) => NemotronHQloraMoE::quantizes(m, config),
        }
    }

    pub(crate) fn from_lora(
        l: NemotronHLoraMixer,
        config: &QLoraConfig,
    ) -> (r: Result<NemotronHQloraMixer, LoraError>)
        requires
            config.lora.valid(),
        ensures
            match r {
                Ok(q) => NemotronHQloraMixer::quantizes(l, *config)
                    && q == NemotronHQloraMixer::of(l, *config),
                Err(e) => e is Mlx && !NemotronHQloraMixer::quantizes(l, *config),
            },
    {
        match l {
            NemotronHLoraMixer::Mamba(m) => Ok(NemotronHQloraMixer::Mamba(m)),
            NemotronHLoraMixer::Attention(a) => match NemotronHQloraAttention::from_lora(
                a,
                config,
            ) {
                Ok(q) => Ok(NemotronHQloraMixer::Attention(q)),
                Err(e) => Err(e),
            },
            NemotronHLoraMixer::Mlp(m) => match NemotronHQloraMLP::from_lora(m, config) {
                Ok(q) => Ok(NemotronHQloraMixer::Mlp(q)),
                Err(e) => Err(e),
            },
            NemotronHLoraMixer::MoE(m) => match NemotronHQloraMoE::from_lora(m, config) {
                Ok(q) => Ok(NemotronHQloraMixer::MoE(q)),
                Err(e) => Err(e),
            },
        }
    }

    /// Bytes of the adapted layers: none of a state-space mixer.
    pub open spec fn memory(self) -> Memory {
        match self {
            NemotronHQloraMixer::Mamba(_) => Memory::zero(),
            NemotronHQloraMixer::Attention(a) => a.memory(),
            NemotronHQloraMixer::Mlp(m) => m.memory(),
            NemotronHQloraMixer::MoE(m) => m.memory(),
        }
    }

    pub open spec fn full_bytes(self) -> nat {
        match self {
            NemotronHQloraMixer::Mamba(_) => 0,
            NemotronHQloraMixer::Attention(a) => a.full_bytes(),
            NemotronHQloraMixer::Mlp(m) => m.full_bytes(),
            NemotronHQloraMixer::MoE(m) => m.full_bytes(),
        }
    }

    /// The bytes can be counted.
    pub open spec fn measurable(self) -> bool {
        match self {
            NemotronHQloraMixer::Mamba(_) => true,
            NemotronHQloraMixer::Attention(a) => a.measurable(),
            NemotronHQloraMixer::Mlp(m) => m.measurable(),
            NemotronHQloraMixer::MoE(m) => m.measurable(),
        }
    }

    /// Bytes of the quantized weights, of the adapters, and of both and the biases.
    pub fn memory_usage(&self) -> (r: (usize, usize, usize))
        requires
            self.measurable(),
            self.memory().fits(),
        ensures
            self.memory().is(r),
    {
        match self {
            NemotronHQloraMixer::Mamba(_) => (0, 0, 0),
            NemotronHQloraMixer::Attention(a) => a.memory_usage(),
            NemotronHQloraMixer::Mlp(m) => m.memory_usage(),
            NemotronHQloraMixer::MoE(m) => m.memory_usage(),
        }
    }

    fn count_full_bytes(&self) -> (r: usize)
        requires
            self.measurable(),
            self.full_bytes() <= usize::MAX,
        ensures
            r == self.full_bytes(),
    {
        match self {
            NemotronHQloraMixer::Mamba(_) => 0,
            NemotronHQloraMixer::Attention(a) => a.count_full_bytes(),
            NemotronHQloraMixer::Mlp(m) => m.count_full_bytes(),
            NemotronHQloraMixer::MoE(m) => m.count_full_bytes(),
        }
    }

    pub(crate) fn run(&mut self, x: &Array, mask: Option<&Array>) -> (r: Array)
        requires
            x.shape.rank() >= 2,
            old(self).ready(),
        ensures
            r == old(self).output(*x, given(mask)),
            *final(self) == old(self).warmed(),
    {
        match self {
            NemotronHQloraMixer::Mamba(m) => m.run(x, mask, &MambaCacheEntry::new()),
            NemotronHQloraMixer::Attention(a) => a.run(x, mask),
            NemotronHQloraMixer::Mlp(m) => m.run(x),
            NemotronHQloraMixer::MoE(m) => m.run(x),
        }
    }

    pub(crate) fn run_cached(
        &mut self,
        x: &Array,
        mask: Option<&Array>,
        kv_cache: Option<(&mut KVCache, usize)>,
        mamba_cache: Option<&mut MambaCacheEntry>,
    ) -> (r: Array)
        requires
            x.shape.rank() >= 2,
            old(self).ready(),
        ensures
            ({
                let kv = match kv_cache {
                    Some(c) => Some((c.0@, c.1 as int)),
                    None => None,
                };
                let state = match mamba_cache {
                    Some(e) => Some(*e),
                    None => None,
                };
                let end = old(self).step(*x, given(mask), kv, state);
                &&& r == end.0
                &&& kv_cache matches Some(c) ==> Some(final(c.0)@) == end.1
                &&& mamba_cache matches Some(e) ==> Some(*final(e)) == end.2
            }),
            *final(self) == old(self).warmed(),
    {
        match self {
            NemotronHQloraMixer::Mamba(m) => match mamba_cache {
                Some(e) => m.run_keeping(x, mask, e),
                None => m.run(x, mask, &MambaCacheEntry::new()),
            },
            NemotronHQloraMixer::Attention(a) => match kv_cache {
                Some((c, layer)) => a.run_cached(x, mask, c, layer),
                None => a.run(x, mask),
            },
            NemotronHQloraMixer::Mlp(m) => m.run(x),
            NemotronHQloraMixer::MoE(m) => m.run(x),
        }
    }

    /// The output over the input alone.
    pub fn forward(&mut self, x: &Array, mask: Option<&Array>) -> (r: Result<Array, LoraError>)
        requires
            x.shape.rank() >= 2,
            old(self).ready(),
        ensures
            outcome(r, old(self).output(*x, given(mask))),
            *final(self) == old(self).warmed(),
    {
        checked(self.run(x, mask))
    }

    /// The output over what the caches hold and the input.
    pub fn forward_with_cache(
        &mut self,
        x: &Array,
        mask: Option<&Array>,
        kv_cache: Option<(&mut KVCache, usize)>,
        mamba_cache: Option<&mut MambaCacheEntry>,
    ) -> (r: Result<Array, LoraError>)
        requires
            x.shape.rank() >= 2,
            old(self).ready(),
        ensures
            ({
                let kv = match kv_cache {
                    Some(c) => Some((c.0@, c.1 as int)),
                    None => None,
                };
                let state = match mamba_cache {
                    Some(e) => Some(*e),
                    None => None,
                };
                let end = old(self).step(*x, given(mask), kv, state);
                &&& outcome(r, end.0)
                &&& kv_cache matches Some(c) ==> Some(final(c.0)@) == end.1
                &&& mamba_cache matches Some(e) ==> Some(*final(e)) == end.2
            }),
            *final(self) == old(self).warmed(),
    {
        checked(self.run_cached(x, mask, kv_cache, mamba_cache))
    }

    pub open spec fn trainable(self) -> nat {
        match self {
            NemotronHQloraMixer::Mamba(_) => 0,
            NemotronHQloraMixer::Attention(a) => LoraLayer::trainable(a),
            NemotronHQloraMixer::Mlp(m) => LoraLayer::trainable(m),
            NemotronHQloraMixer::MoE(m) => m.trainable(),
        }
    }

    pub open spec fn countable(self) -> bool {
        match self {
            NemotronHQloraMixer::Mamba(_) => true,
            NemotronHQloraMixer::Attention(a) => LoraLayer::countable(a),
            NemotronHQloraMixer::Mlp(m) => LoraLayer::countable(m),
            NemotronHQloraMixer::MoE(m) => m.countable(),
        }
    }

    /// The number of trainable elements: none in a state-space mixer.
    pub fn num_trainable_params(&self) -> (r: usize)
        requires
            self.countable(),
            self.trainable() <= usize::MAX,
        ensures
            r == self.trainable(),
    {
        match self {
            NemotronHQloraMixer::Mamba(_) => 0,
            NemotronHQloraMixer::Attention(a) => a.num_trainable_params(),
            NemotronHQloraMixer::Mlp(m) => m.num_trainable_params(),
            NemotronHQloraMixer::MoE(m) => m.num_trainable_params(),
        }
    }
}

/// A mixer behind a normalization and beside a residual connection.
#[derive(Debug)]
pub struct NemotronHQloraBlock {
    pub norm: RmsNorm,
    pub mixer: NemotronHQloraMixer,
}

impl NemotronHQloraBlock {
    pub open spec fn output(self, x: Array, mask: Option<Array>) -> Array {
        plus(x, self.mixer.output(self.norm.output(x), mask))
    }

    pub open spec fn step(
        self,
        x: Array,
        mask: Option<Array>,
        kv: Option<(KVCacheState, int)>,
        state: Option<MambaCacheEntry>,
    ) -> (Array, Option<KVCacheState>, Option<MambaCacheEntry>) {
        let end = self.mixer.step(self.norm.output(x), mask, kv, state);
        (plus(x, end.0), end.1, end.2)
    }

    /// The block after its weights were restored.
    pub open spec fn warmed(self) -> NemotronHQloraBlock {
        NemotronHQloraBlock { mixer: self.mixer.warmed(), ..self }
    }

    /// The block with its weights quantized and with fresh adapters.
    pub open spec fn of(l: NemotronHLoraBlock, config: QLoraConfig) -> NemotronHQloraBlock {
        NemotronHQloraBlock { norm: l.norm, mixer: NemotronHQloraMixer::of(l.mixer, config) }
    }

    pub(crate) fn from_lora(
        l: NemotronHLoraBlock,
        config: &QLoraConfig,
    ) -> (r: Result<NemotronHQloraBlock, LoraError>)
        requires
            config.lora.valid(),
        ensures
            match r {
                Ok(q) => NemotronHQloraMixer::quantizes(l.mixer, *config)
                    && q == NemotronHQloraBlock::of(l, *config),
                Err(e) => e is Mlx && !NemotronHQloraMixer::quantizes(l.mixer, *config),
            },
    {
        match NemotronHQloraMixer::from_lora(l.mixer, config) {
            Ok(mixer) => Ok(NemotronHQloraBlock { norm: l.norm, mixer }),
            Err(e) => Err(e),
        }
    }

    pub(crate) fn run(&mut self, x: &Array, mask: Option<&Array>) -> (r: Array)
        requires
            x.shape.rank() >= 2,
            old(self).mixer.ready(),
        ensures
            r == old(self).output(*x, given(mask)),
            r.shape.rank() >= x.shape.rank(),
            *final(self) == old(self).warmed(),
    {
        broadcast use {lemma_rms_norm_shape, lemma_combine_rank};

        let normed = self.norm.run(x);
        let mixed = self.mixer.run(&normed, mask);
        x.add(&mixed)
    }

    pub(crate) fn run_cached(
        &mut self,
        x: &Array,
        mask: Option<&Array>,
        kv_cache: Option<(&mut KVCache, usize)>,
        mamba_cache: Option<&mut MambaCacheEntry>,
    ) -> (r: Array)
        requires
            x.shape.rank() >= 2,
            old(self).mixer.ready(),
        ensures
            ({
                let kv = match kv_cache {
                    Some(c) => Some((c.0@, c.1 as int)),
                    None => None,
                };
                let state = match mamba_cache {
                    Some(e) => Some(*e),
                    None => None,
                };
                let end = old(self).step(*x, given(mask), kv, state);
                &&& r == end.0
                &&& kv_cache matches Some(c) ==> Some(final(c.0)@) == end.1
                &&& mamba_cache matches Some(e) ==> Some(*final(e)) == end.2
            }),
            r.shape.rank() >= x.shape.rank(),
            *final(self) == old(self).warmed(),
    {
        broadcast use {lemma_rms_norm_shape, lemma_combine_rank};

        let normed = self.norm.run(x);
        let mixed = self.mixer.run_cached(&normed, mask, kv_cache, mamba_cache);
        x.add(&mixed)
    }

    /// The block's output.
    pub fn forward(&mut self, x: &Array, mask: Option<&Array>) -> (r: Result<Array, LoraError>)
        requires
            x.shape.rank() >= 2,
            old(self).mixer.ready(),
        ensures
            outcome(r, old(self).output(*x, given(mask))),
            *final(self) == old(self).warmed(),
    {
        checked(self.run(x, mask))
    }

    /// The block's output over what the caches hold and the input.
    pub fn forward_with_cache(
        &mut self,
        x: &Array,
        mask: Option<&Array>,
        kv_cache: Option<(&mut KVCache, usize)>,
        mamba_cache: Option<&mut MambaCacheEntry>,
    ) -> (r: Result<Array, LoraError>)
        requires
            x.shape.rank() >= 2,
            old(self).mixer.ready(),
        ensures
            ({
                let kv = match kv_cache {
                    Some(c) => Some((c.0@, c.1 as int)),
                    None => None,
                };
                let state = match mamba_cache {
                    Some(e) => Some(*e),
                    None => None,
                };
                let end = old(self).step(*x, given(mask), kv, state);
                &&& outcome(r, end.0)
                &&& kv_cache matches Some(c) ==> Some(final(c.0)@) == end.1
                &&& mamba_cache matches Some(e) ==> Some(*final(e)) == end.2
            }),
            *final(self) == old(self).warmed(),
    {
        checked(self.run_cached(x, mask, kv_cache, mamba_cache))
    }

    /// The number of trainable elements.
    pub fn num_trainable_params(&self) -> (r: usize)
        requires
            self.countable(),
            LoraLayer::trainable(*self) <= usize::MAX,
        ensures
            r == LoraLayer::trainable(*self),
    {
        self.mixer.num_trainable_params()
    }

    /// Bytes of the quantized weights, of the adapters, and of both and the biases.
    pub fn memory_usage(&self) -> (r: (usize, usize, usize))
        requires
            self.mixer.measurable(),
            self.mixer.memory().fits(),
        ensures
            self.mixer.memory().is(r),
    {
        self.mixer.memory_usage()
    }
}

impl LoraLayer for NemotronHQloraBlock {
    open spec fn places(self) -> Seq<Place> {
        match self.mixer {
            NemotronHQloraMixer::Mamba(_) => seq![],
            NemotronHQloraMixer::Attention(a) => a.places(),
            NemotronHQloraMixer::Mlp(m) => m.places(),
            NemotronHQloraMixer::MoE(m) => match m.shared_expert {
                Some(e) => e.places(),
                None => seq![],
            },
        }
    }

    open spec fn matrices(self) -> Seq<Array> {
        match self.mixer {
            NemotronHQloraMixer::Mamba(_) => seq![],
            NemotronHQloraMixer::Attention(a) => a.matrices(),
            NemotronHQloraMixer::Mlp(m) => m.matrices(),
            NemotronHQloraMixer::MoE(m) => match m.shared_expert {
                Some(e) => e.matrices(),
                None => seq![],
            },
        }
    }

    open spec fn with_matrices(self, m: Seq<Array>) -> NemotronHQloraBlock {
        NemotronHQloraBlock {
            mixer: match self.mixer {
                NemotronHQloraMixer::Mamba(x) => NemotronHQloraMixer::Mamba(x),
                NemotronHQloraMixer::Attention(a) => NemotronHQloraMixer::Attention(
                    a.with_matrices(m)
                ),
                NemotronHQloraMixer::Mlp(x) => NemotronHQloraMixer::Mlp(x.with_matrices(m)),
                NemotronHQloraMixer::MoE(x) => NemotronHQloraMixer::MoE(
                    NemotronHQloraMoE {
                        shared_expert: match x.shared_expert {
                            Some(e) => Some(e.with_matrices(m)),
                            None => None,
                        },
                        ..x
                    },
                ),
            },
            ..self
        }
    }

    open spec fn trainable(self) -> nat {
        self.mixer.trainable()
    }

    open spec fn countable(self) -> bool {
        self.mixer.countable()
    }

    proof fn lemma_layer(self, m: Seq<Array>) {
        match self.mixer {
            NemotronHQloraMixer::Mamba(_) => {
                assert(self.with_matrices(m).matrices() =~= m);
            },
            NemotronHQloraMixer::Attention(a) => {
                a.lemma_layer(m);
            },
            NemotronHQloraMixer::Mlp(x) => {
                x.lemma_layer(m);
            },
            NemotronHQloraMixer::MoE(x) => match x.shared_expert {
                Some(e) => {
                    e.lemma_layer(m);
                },
                None => {
                    assert(self.with_matrices(m).matrices() =~= m);
                },
            },
        }
    }

    fn collect(&self, params: &mut NameMap<Array>, style: NameStyle, layer: usize) {
        match &self.mixer {
            NemotronHQloraMixer::Mamba(_) => {},
            NemotronHQloraMixer::Attention(a) => {
                a.collect(params, style, layer);
            },
            NemotronHQloraMixer::Mlp(m) => {
                m.collect(params, style, layer);
            },
            NemotronHQloraMixer::MoE(m) => match &m.shared_expert {
                Some(e) => {
                    e.collect(params, style, layer);
                },
                None => {},
            },
        }
    }

    fn assign(&mut self, params: &NameMap<Array>, style: NameStyle, layer: usize) {
        match &mut self.mixer {
            NemotronHQloraMixer::Mamba(_) => {},
            NemotronHQloraMixer::Attention(a) => {
                a.assign(params, style, layer);
            },
            NemotronHQloraMixer::Mlp(m) => {
                m.assign(params, style, layer);
            },
            NemotronHQloraMixer::MoE(m) => match &mut m.shared_expert {
                Some(e) => {
                    e.assign(params, style, layer);
                },
                None => {},
            },
        }
    }

    fn refs<'a>(&'a self) -> (r: Vec<ParamRef<'a>>) {
        match &self.mixer {
            NemotronHQloraMixer::Mamba(_) => Vec::new(),
            NemotronHQloraMixer::Attention(a) => a.refs(),
            NemotronHQloraMixer::Mlp(m) => m.refs(),
            NemotronHQloraMixer::MoE(m) => match &m.shared_expert {
                Some(e) => e.refs(),
                None => Vec::new(),
            },
        }
    }

    fn refs_mut<'a>(&'a mut self) -> (r: Vec<ParamMut<'a>>) {
        match &mut self.mixer {
            NemotronHQloraMixer::Mamba(_) => Vec::new(),
            NemotronHQloraMixer::Attention(a) => a.refs_mut(),
            NemotronHQloraMixer::Mlp(m) => m.refs_mut(),
            NemotronHQloraMixer::MoE(m) => match &mut m.shared_expert {
                Some(e) => e.refs_mut(),
                None => Vec::new(),
            },
        }
    }

    fn count(&self) -> (r: usize) {
        self.num_trainable_params()
    }
}

impl MergeSteps for NemotronHQloraBlock {
    open spec fn merge_steps(self) -> nat {
        match self.mixer {
            NemotronHQloraMixer::Mamba(_) => 0,
            NemotronHQloraMixer::Attention(a) => a.merge_steps(),
            NemotronHQloraMixer::Mlp(m) => m.merge_steps(),
            NemotronHQloraMixer::MoE(m) => match m.shared_expert {
                Some(e) => e.merge_steps(),
                None => 0,
            },
        }
    }

    open spec fn can_merge(self, k: int) -> bool {
        match self.mixer {
            NemotronHQloraMixer::Mamba(_) => true,
            NemotronHQloraMixer::Attention(a) => a.can_merge(k),
            NemotronHQloraMixer::Mlp(m) => m.can_merge(k),
            NemotronHQloraMixer::MoE(m) => match m.shared_expert {
                Some(e) => e.can_merge(k),
                None => true,
            },
        }
    }

    open spec fn merged_first(self, k: int) -> NemotronHQloraBlock {
        NemotronHQloraBlock {
            mixer: match self.mixer {
                NemotronHQloraMixer::Mamba(m) => NemotronHQloraMixer::Mamba(m),
                NemotronHQloraMixer::Attention(a) => NemotronHQloraMixer::Attention(
                    a.merged_first(k)
                ),
                NemotronHQloraMixer::Mlp(m) => NemotronHQloraMixer::Mlp(m.merged_first(k)),
                NemotronHQloraMixer::MoE(m) => NemotronHQloraMixer::MoE(
                    NemotronHQloraMoE {
                        shared_expert: match m.shared_expert {
                            Some(e) => Some(e.merged_first(k)),
                            None => None,
                        },
                        ..m
                    },
                ),
            },
            ..self
        }
    }
}

impl MergeLayer for NemotronHQloraBlock {
    fn merge_all(&mut self) -> (r: Result<(), LoraError>) {
        let ghost was = *self;
        let r = match &mut self.mixer {
            NemotronHQloraMixer::Mamba(_) => Ok(()),
            NemotronHQloraMixer::Attention(a) => a.merge_all(),
            NemotronHQloraMixer::Mlp(m) => m.merge_all(),
            NemotronHQloraMixer::MoE(m) => match &mut m.shared_expert {
                Some(e) => e.merge_all(),
                None => Ok(()),
            },
        };
        proof {
            match was.mixer {
                NemotronHQloraMixer::Mamba(_) => {},
                NemotronHQloraMixer::Attention(a) => {
                    assert(forall|k: int| stops_at(a, k) ==> #[trigger] stops_at(was, k));
                    assert(r is Ok ==> forall|k: int|
                        0 <= k < was.merge_steps() ==> a.can_merge(k)
                            && #[trigger] was.can_merge(k));
                    if r is Err {
                        let k = choose|k: int|
                            #[trigger] stops_at(a, k)
                                && self.mixer == NemotronHQloraMixer::Attention(
                                a.merged_first(k),
                            );
                        assert(stops_at(was, k));
                    }
                },
                NemotronHQloraMixer::Mlp(m) => {
                    assert(r is Ok ==> forall|k: int|
                        0 <= k < was.merge_steps() ==> m.can_merge(k)
                            && #[trigger] was.can_merge(k));
                    if r is Err {
                        let k = choose|k: int|
                            #[trigger] stops_at(m, k) && self.mixer == NemotronHQloraMixer::Mlp(
                                m.merged_first(k),
                            );
                        assert(stops_at(was, k));
                    }
                },
                NemotronHQloraMixer::MoE(m) => match m.shared_expert {
                    Some(e) => {
                        assert(r is Ok ==> forall|k: int|
                            0 <= k < was.merge_steps() ==> e.can_merge(k)
                                && #[trigger] was.can_merge(k));
                        if r is Err {
                            let k = choose|k: int|
                                #[trigger] stops_at(e, k)
                                    && self.mixer == was.merged_first(k).mixer;
                            assert(stops_at(was, k));
                        }
                    },
                    None => {},
                },
            }
        }
        r
    }
}

impl EvalLayer for NemotronHQloraBlock {
    open spec fn evaluated(self) -> Seq<Array> {
        match self.mixer {
            NemotronHQloraMixer::Mamba(_) => seq![self.norm.weight],
            NemotronHQloraMixer::Attention(a) => seq![
                self.norm.weight, a.q_proj.lora_a, a.q_proj.lora_b, a.k_proj.lora_a,
                a.k_proj.lora_b, a.v_proj.lora_a, a.v_proj.lora_b, a.o_proj.lora_a, a.o_proj.lora_b
            ],
            NemotronHQloraMixer::Mlp(m) => seq![
                self.norm.weight, m.up_proj.lora_a, m.up_proj.lora_b, m.down_proj.lora_a,
                m.down_proj.lora_b
            ],
            NemotronHQloraMixer::MoE(m) => match m.shared_expert {
                Some(e) => seq![
                    self.norm.weight, e.up_proj.lora_a, e.up_proj.lora_b, e.down_proj.lora_a,
                    e.down_proj.lora_b
                ],
                None => seq![self.norm.weight],
            },
        }
    }

    fn push_evaluated(&self, out: &mut Vec<Array>) {
        out.push(self.norm.weight.clone());
        match &self.mixer {
            NemotronHQloraMixer::Mamba(_) => {},
            NemotronHQloraMixer::Attention(a) => {
                out.push(a.q_proj.lora_a.clone());
                out.push(a.q_proj.lora_b.clone());
                out.push(a.k_proj.lora_a.clone());
                out.push(a.k_proj.lora_b.clone());
                out.push(a.v_proj.lora_a.clone());
                out.push(a.v_proj.lora_b.clone());
                out.push(a.o_proj.lora_a.clone());
                out.push(a.o_proj.lora_b.clone());
            },
            NemotronHQloraMixer::Mlp(m) => {
                out.push(m.up_proj.lora_a.clone());
                out.push(m.up_proj.lora_b.clone());
                out.push(m.down_proj.lora_a.clone());
                out.push(m.down_proj.lora_b.clone());
            },
            NemotronHQloraMixer::MoE(m) => match &m.shared_expert {
                Some(e) => {
                    out.push(e.up_proj.lora_a.clone());
                    out.push(e.up_proj.lora_b.clone());
                    out.push(e.down_proj.lora_a.clone());
                    out.push(e.down_proj.lora_b.clone());
                },
                None => {},
            },
        }
        assert(out@ =~= old(out)@ + self.evaluated());
    }
}

impl MeasuredLayer for NemotronHQloraBlock {
    open spec fn memory(self) -> Memory {
        self.mixer.memory()
    }

    open spec fn full_bytes(self) -> nat {
        self.mixer.full_bytes()
    }

    open spec fn measurable(self) -> bool {
        self.mixer.measurable()
    }

    fn measure(&self) -> (r: (usize, usize, usize)) {
        self.mixer.memory_usage()
    }

    fn count_full_bytes(&self) -> (r: usize) {
        self.mixer.count_full_bytes()
    }
}

/// The embeddings, the blocks and the last normalization.
#[derive(Debug)]
pub struct NemotronHQloraModel {
    pub config: NemotronHConfig,
    pub qlora_config: QLoraConfig,
    pub embeddings: Embedding,
    pub layers: Vec<NemotronHQloraBlock>,
    pub norm_f: RmsNorm,
}

/// A state-space mixer gets no mask.
pub open spec fn nemotron_qlora_layer_mask(
    layer: NemotronHQloraBlock,
    mask: Option<Array>,
) -> Option<Array> {
    if layer.mixer.mamba() {
        None
    } else {
        mask
    }
}

/// The output of the first `n` blocks, one behind the other.
pub open spec fn nemotron_qlora_stack(
    layers: Seq<NemotronHQloraBlock>,
    n: nat,
    x: Array,
    mask: Option<Array>,
) -> Array
    decreases n,
{
    if n == 0 {
        x
    } else {
        layers[n - 1].output(
            nemotron_qlora_stack(layers, (n - 1) as nat, x, mask),
            nemotron_qlora_layer_mask(layers[n - 1], mask),
        )
    }
}

/// What a layer keeps, where there is a cache with room for it.
pub open spec fn nemotron_qlora_entry(
    states: Option<Seq<MambaCacheEntry>>,
    i: int,
) -> Option<MambaCacheEntry> {
    match states {
        Some(s) => if 0 <= i < s.len() {
            Some(s[i])
        } else {
            None
        },
        None => None,
    }
}

/// The blocks from block `i` on, one behind the other over the caches, and the caches behind
/// them.
pub open spec fn nemotron_qlora_steps(
    layers: Seq<NemotronHQloraBlock>,
    i: int,
    x: Array,
    mask: Option<Array>,
    kv: Option<KVCacheState>,
    states: Option<Seq<MambaCacheEntry>>,
) -> (Array, Option<KVCacheState>, Option<Seq<MambaCacheEntry>>)
    decreases layers.len() - i,
{
    if i < 0 || i >= layers.len() {
        (x, kv, states)
    } else {
        let end = layers[i].step(
            x,
            nemotron_qlora_layer_mask(layers[i], mask),
            match kv {
                Some(c) => Some((c, i)),
                None => None,
            },
            nemotron_qlora_entry(states, i),
        );
        let kept = match (states, end.2) {
            (Some(s), Some(e)) => Some(s.update(i, e)),
            _ => states,
        };
        nemotron_qlora_steps(layers, i + 1, end.0, mask, end.1, kept)
    }
}

/// Each block's mixer has fitting extents.
pub open spec fn nemotron_qlora_ready(layers: Seq<NemotronHQloraBlock>) -> bool {
    forall|i: int| 0 <= i < layers.len() ==> (#[trigger] layers[i]).mixer.ready()
}

impl NemotronHQloraModel {
    /// The hidden states behind the last normalization.
    pub open spec fn output(self, ids: Array, mask: Option<Array>) -> Array {
        self.norm_f.output(
            nemotron_qlora_stack(
                self.layers@,
                self.layers@.len(),
                self.embeddings.output(ids),
                mask,
            ),
        )
    }

    /// The hidden states over caches, and the caches behind them.
    pub open spec fn cached_output(
        self,
        ids: Array,
        mask: Option<Array>,
        kv: Option<KVCacheState>,
        states: Option<Seq<MambaCacheEntry>>,
    ) -> (Array, Option<KVCacheState>, Option<Seq<MambaCacheEntry>>) {
        let end = nemotron_qlora_steps(
            self.layers@,
            0,
            self.embeddings.output(ids),
            mask,
            kv,
            states,
        );
        (self.norm_f.output(end.0), end.1, end.2)
    }

    /// The model after its weights were restored.
    pub open spec fn only_warmed(self, after: NemotronHQloraModel) -> bool {
        &&& after.config == self.config
        &&& after.qlora_config == self.qlora_config
        &&& after.embeddings == self.embeddings
        &&& after.norm_f == self.norm_f
        &&& after.layers@.len() == self.layers@.len()
        &&& forall|i: int|
            0 <= i < self.layers@.len() ==> #[trigger] after.layers@[i] == self.layers@[i].warmed()
    }

    /// The blocks before block `i` are as they were, those from it on had their weights restored,
    /// and nothing else is changed.
    pub open spec fn warmed_from(self, after: NemotronHQloraModel, i: int) -> bool {
        &&& after.config == self.config
        &&& after.qlora_config == self.qlora_config
        &&& after.embeddings == self.embeddings
        &&& after.norm_f == self.norm_f
        &&& after.layers@.len() == self.layers@.len()
        &&& forall|j: int|
            0 <= j < self.layers@.len() ==> #[trigger] after.layers@[j] == (if j >= i {
                self.layers@[j].warmed()
            } else {
                self.layers@[j]
            })
    }

    /// The quantized form of a model: each block's weights quantized and with fresh adapters.
    pub open spec fn is_of(self, l: NemotronHLoraModel, config: QLoraConfig) -> bool {
        &&& self.config == l.config
        &&& self.qlora_config == config
        &&& self.embeddings == l.embeddings
        &&& self.norm_f == l.norm_f
        &&& self.layers@.len() == l.layers@.len()
        &&& forall|i: int|
            0 <= i < self.layers@.len() ==> #[trigger] self.layers@[i] == NemotronHQloraBlock::of(
                l.layers@[i],
                config,
            )
    }

    /// The weights of all blocks can be quantized.
    pub open spec fn quantizes(layers: Seq<NemotronHLoraBlock>, config: QLoraConfig) -> bool {
        forall|i: int|
            0 <= i < layers.len() ==> NemotronHQloraMixer::quantizes(
                (#[trigger] layers[i]).mixer,
                config,
            )
    }

    pub(crate) fn from_lora(
        l: NemotronHLoraModel,
        config: &QLoraConfig,
    ) -> (r: Result<NemotronHQloraModel, LoraError>)
        requires
            config.lora.valid(),
        ensures
            match r {
                Ok(q) => NemotronHQloraModel::quantizes(l.layers@, *config) && q.is_of(l, *config),
                Err(e) => e is Mlx && !NemotronHQloraModel::quantizes(l.layers@, *config),
            },
    {
        let NemotronHLoraModel {
            config: model_config,
            lora_config: _,
            embeddings,
            layers,
            norm_f,
        } = l;
        let mut rest = layers;
        let ghost all = rest@;
        let n = rest.len();
        let mut back: Vec<NemotronHQloraBlock> = Vec::new();
        while rest.len() > 0
            invariant
                n == all.len(),
                all == l.layers@,
                config.lora.valid(),
                rest@.len() + back@.len() == n,
                rest@ == all.take(n - back@.len()),
                forall|j: int|
                    0 <= j < back@.len() ==> {
                        &&& #[trigger] back@[j] == NemotronHQloraBlock::of(all[n - 1 - j], *config)
                        &&& NemotronHQloraMixer::quantizes(all[n - 1 - j].mixer, *config)
                    },
            decreases rest.len(),
        {
            let ghost k = rest@.len() - 1;
            match rest.pop() {
                Some(b) => {
                    assert(b == all[k as int]);
                    match NemotronHQloraBlock::from_lora(b, config) {
                        Ok(q) => {
                            back.push(q);
                        },
                        Err(_) => {
                            assert(!NemotronHQloraMixer::quantizes(all[k as int].mixer, *config));
                            return Err(misfit());
                        },
                    }
                },
                None => {},
            }
            assert(rest@ =~= all.take(n - back@.len()));
        }
        let mut layers: Vec<NemotronHQloraBlock> = Vec::new();
        let ghost done = back@;
        while back.len() > 0
            invariant
                n == all.len(),
                done.len() == n,
                layers@.len() + back@.len() == n,
                back@ == done.take(n - layers@.len()),
                forall|j: int|
                    0 <= j < n ==> {
                        &&& #[trigger] done[j] == NemotronHQloraBlock::of(all[n - 1 - j], *config)
                        &&& NemotronHQloraMixer::quantizes(all[n - 1 - j].mixer, *config)
                    },
                forall|j: int| 0 <= j < layers@.len() ==> #[trigger] layers@[j] == done[n - 1 - j],
            decreases back.len(),
        {
            match back.pop() {
                Some(q) => {
                    layers.push(q);
                },
                None => {},
            }
            assert(back@ =~= done.take(n - layers@.len()));
        }
        proof {
            assert forall|i: int| 0 <= i < all.len() implies NemotronHQloraMixer::quantizes(
                (#[trigger] all[i]).mixer,
                *config,
            ) by {
                assert(
                    done[n - 1 - i] == NemotronHQloraBlock::of(all[n - 1 - (n - 1 - i)], *config)
                );
            }
        }
        Ok(
            NemotronHQloraModel {
                config: model_config,
                qlora_config: *config,
                embeddings,
                layers,
                norm_f,
            }
        )
    }

    pub(crate) fn run(&mut self, ids: &Array, mask: Option<&Array>) -> (r: Array)
        requires
            ids.shape.rank() >= 1,
            nemotron_qlora_ready(old(self).layers@),
        ensures
            r == old(self).output(*ids, given(mask)),
            old(self).only_warmed(*final(self)),
    {
        broadcast use lemma_embed_rank;

        let mut h = self.embeddings.run(ids);
        let ghost x = h;
        let ghost was = self.layers@;
        let mut i: usize = 0;
        while i < self.layers.len()
            invariant
                i <= self.layers.len(),
                was == old(self).layers@,
                nemotron_qlora_ready(was),
                h.shape.rank() >= 2,
                h == nemotron_qlora_stack(was, i as nat, x, given(mask)),
                self.layers@.len() == was.len(),
                forall|j: int| 0 <= j < i ==> #[trigger] self.layers@[j] == was[j].warmed(),
                forall|j: int| i <= j < was.len() ==> #[trigger] self.layers@[j] == was[j],
                self.config == old(self).config,
                self.qlora_config == old(self).qlora_config,
                self.embeddings == old(self).embeddings,
                self.norm_f == old(self).norm_f,
            decreases self.layers.len() - i,
        {
            if self.layers[i].mixer.is_mamba() {
                h = self.layers[i].run(&h, None);
            } else {
                h = self.layers[i].run(&h, mask);
            }
            i = i + 1;
        }
        self.norm_f.run(&h)
    }

    fn run_step(
        &mut self,
        i: usize,
        h: &Array,
        mask: Option<&Array>,
        kv_cache: Option<(&mut KVCache, usize)>,
        mamba_cache: Option<&mut MambaCacheEntry>,
    ) -> (r: Array)
        requires
            i < old(self).layers@.len(),
            h.shape.rank() >= 2,
            old(self).layers@[i as int].mixer.ready(),
        ensures
            ({
                let kv = match kv_cache {
                    Some(c) => Some((c.0@, c.1 as int)),
                    None => None,
                };
                let state = match mamba_cache {
                    Some(e) => Some(*e),
                    None => None,
                };
                let layer = old(self).layers@[i as int];
                let end = layer.step(*h, nemotron_qlora_layer_mask(layer, given(mask)), kv, state);
                &&& r == end.0
                &&& kv_cache matches Some(c) ==> Some(final(c.0)@) == end.1
                &&& mamba_cache matches Some(e) ==> Some(*final(e)) == end.2
            }),
            r.shape.rank() >= h.shape.rank(),
            final(self).config == old(self).config,
            final(self).qlora_config == old(self).qlora_config,
            final(self).embeddings == old(self).embeddings,
            final(self).norm_f == old(self).norm_f,
            final(self).layers@ == old(self).layers@.update(
                i as int,
                old(self).layers@[i as int].warmed(),
            ),
    {
        if self.layers[i].mixer.is_mamba() {
            self.layers[i].run_cached(h, None, kv_cache, mamba_cache)
        } else {
            self.layers[i].run_cached(h, mask, kv_cache, mamba_cache)
        }
    }

    #[verifier::rlimit(60)]
    #[verifier::spinoff_prover]
    fn run_from(
        &mut self,
        i: usize,
        h: Array,
        mask: Option<&Array>,
        kv_cache: Option<&mut KVCache>,
        mamba_cache: Option<&mut MambaCache>,
    ) -> (r: Array)
        requires
            i <= old(self).layers@.len(),
            h.shape.rank() >= 2,
            nemotron_qlora_ready(old(self).layers@),
        ensures
            ({
                let kv = match kv_cache {
                    Some(c) => Some(c@),
                    None => None,
                };
                let states = match mamba_cache {
                    Some(m) => Some(m@),
                    None => None,
                };
                let end = nemotron_qlora_steps(
                    old(self).layers@,
                    i as int,
                    h,
                    given(mask),
                    kv,
                    states,
                );
                &&& r == end.0
                &&& kv_cache matches Some(c) ==> Some(final(c)@) == end.1
                &&& mamba_cache matches Some(m) ==> Some(final(m)@) == end.2
            }),
            old(self).warmed_from(*final(self), i as int),
        decreases old(self).layers@.len() - i,
    {
        if i >= self.layers.len() {
            return h;
        }
        proof {
            lemma_steps_agree(
                self.layers@.update(i as int, self.layers@[i as int].warmed()),
                self.layers@,
                i + 1,
            );
            lemma_ready_warmed(self.layers@, i as int);
        }
        match (kv_cache, mamba_cache) {
            (Some(c), Some(m)) => {
                let next = self.run_step(i, &h, mask, Some((&mut *c, i)), m.get_mut(i));
                self.run_from(i + 1, next, mask, Some(c), Some(m))
            },
            (Some(c), None) => {
                let next = self.run_step(i, &h, mask, Some((&mut *c, i)), None);
                self.run_from(i + 1, next, mask, Some(c), None)
            },
            (None, Some(m)) => {
                let next = self.run_step(i, &h, mask, None, m.get_mut(i));
                self.run_from(i + 1, next, mask, None, Some(m))
            },
            (None, None) => {
                let next = self.run_step(i, &h, mask, None, None);
                self.run_from(i + 1, next, mask, None, None)
            },
        }
    }

    pub(crate) fn run_cached(
        &mut self,
        ids: &Array,
        mask: Option<&Array>,
        kv_cache: Option<&mut KVCache>,
        mamba_cache: Option<&mut MambaCache>,
    ) -> (r: Array)
        requires
            ids.shape.rank() >= 1,
            nemotron_qlora_ready(old(self).layers@),
        ensures
            ({
                let kv = match kv_cache {
                    Some(c) => Some(c@),
                    None => None,
                };
                let states = match mamba_cache {
                    Some(m) => Some(m@),
                    None => None,
                };
                let end = old(self).cached_output(*ids, given(mask), kv, states);
                &&& r == end.0
                &&& kv_cache matches Some(c) ==> Some(final(c)@) == end.1
                &&& mamba_cache matches Some(m) ==> Some(final(m)@) == end.2
            }),
            old(self).only_warmed(*final(self)),
    {
        broadcast use lemma_embed_rank;

        let h = self.embeddings.run(ids);
        let last = self.run_from(0, h, mask, kv_cache, mamba_cache);
        self.norm_f.run(&last)
    }

    /// The hidden states behind the last normalization.
    pub fn forward(&mut self, input_ids: &Array, mask: Option<&Array>) -> (r: Result<
        Array,
        LoraError,
    >)
        requires
            input_ids.shape.rank() >= 1,
            nemotron_qlora_ready(old(self).layers@),
        ensures
            outcome(r, old(self).output(*input_ids, given(mask))),
            old(self).only_warmed(*final(self)),
    {
        checked(self.run(input_ids, mask))
    }

    /// The same: checkpointing keeps the result.
    pub fn forward_with_checkpoint(
        &mut self,
        input_ids: &Array,
        mask: Option<&Array>,
        _checkpoint_config: Option<&CheckpointConfig>,
    ) -> (r: Result<Array, LoraError>)
        requires
            input_ids.shape.rank() >= 1,
            nemotron_qlora_ready(old(self).layers@),
        ensures
            outcome(r, old(self).output(*input_ids, given(mask))),
            old(self).only_warmed(*final(self)),
    {
        checked(self.run(input_ids, mask))
    }

    /// The hidden states over what the caches hold and the input.
    pub fn forward_with_cache(
        &mut self,
        input_ids: &Array,
        mask: Option<&Array>,
        kv_cache: Option<&mut KVCache>,
        mamba_cache: Option<&mut MambaCache>,
    ) -> (r: Result<Array, LoraError>)
        requires
            input_ids.shape.rank() >= 1,
            nemotron_qlora_ready(old(self).layers@),
        ensures
            ({
                let kv = match kv_cache {
                    Some(c) => Some(c@),
                    None => None,
                };
                let states = match mamba_cache {
                    Some(m) => Some(m@),
                    None => None,
                };
                let end = old(self).cached_output(*input_ids, given(mask), kv, states);
                &&& outcome(r, end.0)
                &&& kv_cache matches Some(c) ==> Some(final(c)@) == end.1
                &&& mamba_cache matches Some(m) ==> Some(final(m)@) == end.2
            }),
            old(self).only_warmed(*final(self)),
    {
        checked(self.run_cached(input_ids, mask, kv_cache, mamba_cache))
    }

    /// The number of trainable elements.
    pub fn num_trainable_params(&self) -> (r: usize)
        requires
            stack_countable(self.layers@),
        ensures
            r == trainable_total(self.layers@),
    {
        count_trainable(&self.layers)
    }

    /// Bytes of the quantized weights, of the adapters, and of both and the biases.
    pub fn memory_usage(&self) -> (r: (usize, usize, usize))
        requires
            stack_measurable(self.layers@),
        ensures
            stack_memory(self.layers@).is(r),
    {
        measure_layers(&self.layers)
    }
}

/// The model with a head for logits.
#[derive(Debug)]
pub struct NemotronHQloraForCausalLM {
    pub model: NemotronHQloraModel,
    /// Absent where the embeddings serve as head.
    pub lm_head: Option<Linear>,
    pub checkpoint_config: Option<CheckpointConfig>,
}

impl NemotronHQloraForCausalLM {
    /// The logits.
    pub open spec fn output(self, ids: Array, mask: Option<Array>) -> Array {
        logits(self.lm_head, self.model.embeddings, self.model.output(ids, mask))
    }

    /// The model after its weights were restored.
    pub open spec fn only_warmed(self, after: NemotronHQloraForCausalLM) -> bool {
        &&& self.model.only_warmed(after.model)
        &&& after.lm_head == self.lm_head
        &&& after.checkpoint_config == self.checkpoint_config
    }

    /// The quantized form of a model with adapters.
    pub open spec fn is_of(self, l: NemotronHLoraForCausalLM, config: QLoraConfig) -> bool {
        &&& self.model.is_of(l.model, config)
        &&& self.lm_head == l.lm_head
        &&& self.checkpoint_config is None
    }

    /// The quantized form of the model that the settings give, before any weight is loaded.
    pub open spec fn is_fresh(
        self,
        dims: NemotronHDims,
        kinds: Seq<char>,
        config: QLoraConfig,
    ) -> bool {
        exists|l: NemotronHLoraForCausalLM|
            #[trigger] l.is_fresh(dims, kinds, config.lora) && self.is_of(l, config)
                && NemotronHQloraModel::quantizes(l.model.layers@, config)
    }

    /// Some weight of the model that the settings give cannot be quantized.
    pub open spec fn unquantizable(
        dims: NemotronHDims,
        kinds: Seq<char>,
        config: QLoraConfig,
    ) -> bool {
        exists|l: NemotronHLoraForCausalLM|
            #[trigger] l.is_fresh(dims, kinds, config.lora) && !NemotronHQloraModel::quantizes(
                l.model.layers@,
                config,
            )
    }

    fn from_lora(
        l: NemotronHLoraForCausalLM,
        config: &QLoraConfig,
    ) -> (r: Result<NemotronHQloraForCausalLM, LoraError>)
        requires
            config.lora.valid(),
        ensures
            match r {
                Ok(q) => NemotronHQloraModel::quantizes(l.model.layers@, *config)
                    && q.is_of(l, *config),
                Err(e) => e is Mlx && !NemotronHQloraModel::quantizes(l.model.layers@, *config),
            },
    {
        let NemotronHLoraForCausalLM { model, lm_head, checkpoint_config: _ } = l;
        match NemotronHQloraModel::from_lora(model, config) {
            Ok(model) => Ok(NemotronHQloraForCausalLM { model, lm_head, checkpoint_config: None }),
            Err(e) => Err(e),
        }
    }

    /// A fresh model with the default quantization. Refused where an extent is unfit.
    pub fn new(
        config: NemotronHConfig,
        lora_config: LoraConfig,
    ) -> (r: Result<NemotronHQloraForCausalLM, LoraError>)
        requires
            config.dims.valid(),
            lora_config.valid(),
        ensures
            match r {
                Ok(m) => nemotron_buildable(config.dims, config.layer_types@) && m.is_fresh(
                    config.dims,
                    config.layer_types@,
                    QLoraConfig::of(lora_config),
                ) && nemotron_qlora_ready(m.model.layers@),
                Err(e) => e is Mlx && (!nemotron_buildable(config.dims, config.layer_types@)
                    || NemotronHQloraForCausalLM::unquantizable(
                    config.dims,
                    config.layer_types@,
                    QLoraConfig::of(lora_config),
                )),
            },
    {
        NemotronHQloraForCausalLM::with_qlora_config(config, QLoraConfig::from_lora(lora_config))
    }

    /// A fresh model. Refused where an extent is unfit.
    pub fn with_qlora_config(config: NemotronHConfig, qlora_config: QLoraConfig) -> (r: Result<
        NemotronHQloraForCausalLM,
        LoraError,
    >)
        requires
            config.dims.valid(),
            qlora_config.lora.valid(),
        ensures
            match r {
                Ok(m) => nemotron_buildable(config.dims, config.layer_types@) && m.is_fresh(
                    config.dims,
                    config.layer_types@,
                    qlora_config,
                ) && nemotron_qlora_ready(m.model.layers@),
                Err(e) => e is Mlx && (!nemotron_buildable(config.dims, config.layer_types@)
                    || NemotronHQloraForCausalLM::unquantizable(
                    config.dims,
                    config.layer_types@,
                    qlora_config,
                )),
            },
    {
        let ghost dims = config.dims;
        let ghost kinds = config.layer_types@;
        match NemotronHLoraForCausalLM::new(config, qlora_config.lora) {
            Ok(lora) => {
                let ghost l = lora;
                let r = NemotronHQloraForCausalLM::from_lora(lora, &qlora_config);
                proof {
                    assert(l.is_fresh(dims, kinds, qlora_config.lora));
                    if r is Ok {
                        let m = r->Ok_0;
                        assert(m.is_fresh(dims, kinds, qlora_config));
                        assert forall|i: int| 0 <= i < m.model.layers@.len() implies (
                        #[trigger] m.model.layers@[i]).mixer.ready() by {
                            assert(l.model.layers@[i].mixer.ready());
                        }
                    }
                }
                r
            },
            Err(e) => Err(e),
        }
    }

    /// The logits.
    pub fn forward(&mut self, input_ids: &Array, mask: Option<&Array>) -> (r: Result<
        Array,
        LoraError,
    >)
        requires
            input_ids.shape.rank() >= 1,
            nemotron_qlora_ready(old(self).model.layers@),
        ensures
            outcome(r, old(self).output(*input_ids, given(mask))),
            old(self).only_warmed(*final(self)),
    {
        let hidden = self.model.run(input_ids, mask);
        checked(run_logits(&self.lm_head, &self.model.embeddings, &hidden))
    }

    /// The same: positions follow from the states and the caches, whatever is given.
    pub fn forward_with_positions(
        &mut self,
        input_ids: &Array,
        mask: Option<&Array>,
        _position_ids: &Array,
    ) -> (r: Result<Array, LoraError>)
        requires
            input_ids.shape.rank() >= 1,
            nemotron_qlora_ready(old(self).model.layers@),
        ensures
            outcome(r, old(self).output(*input_ids, given(mask))),
            old(self).only_warmed(*final(self)),
    {
        self.forward(input_ids, mask)
    }

    /// The logits over what the caches hold and the input.
    pub fn forward_with_cache(
        &mut self,
        input_ids: &Array,
        mask: Option<&Array>,
        kv_cache: Option<&mut KVCache>,
        mamba_cache: Option<&mut MambaCache>,
    ) -> (r: Result<Array, LoraError>)
        requires
            input_ids.shape.rank() >= 1,
            nemotron_qlora_ready(old(self).model.layers@),
        ensures
            ({
                let kv = match kv_cache {
                    Some(c) => Some(c@),
                    None => None,
                };
                let states = match mamba_cache {
                    Some(m) => Some(m@),
                    None => None,
                };
                let end = old(self).model.cached_output(*input_ids, given(mask), kv, states);
                &&& outcome(r, logits(old(self).lm_head, old(self).model.embeddings, end.0))
                &&& kv_cache matches Some(c) ==> Some(final(c)@) == end.1
                &&& mamba_cache matches Some(m) ==> Some(final(m)@) == end.2
            }),
            old(self).only_warmed(*final(self)),
    {
        let hidden = self.model.run_cached(input_ids, mask, kv_cache, mamba_cache);
        checked(run_logits(&self.lm_head, &self.model.embeddings, &hidden))
    }

    /// The hidden states from which the logits follow.
    pub fn forward_hidden_states(&mut self, input_ids: &Array, mask: Option<&Array>) -> (r: Result<
        Array,
        LoraError,
    >)
        requires
            input_ids.shape.rank() >= 1,
            nemotron_qlora_ready(old(self).model.layers@),
        ensures
            outcome(r, old(self).model.output(*input_ids, given(mask))),
            old(self).only_warmed(*final(self)),
    {
        checked(self.model.run(input_ids, mask))
    }

    /// The weight behind the logits.
    pub fn get_lm_head_weight(&self) -> (r: Option<Array>)
        ensures
            r == Some(logits_weight(self.lm_head, self.model.embeddings)),
    {
        Some(get_logits_weight(&self.lm_head, &self.model.embeddings))
    }

    /// The model with its layers replaced, and nothing else.
    pub open spec fn only_layers_changed(self, after: NemotronHQloraForCausalLM) -> bool {
        &&& after.model.config == self.model.config
        &&& after.model.qlora_config == self.model.qlora_config
        &&& after.model.embeddings == self.model.embeddings
        &&& after.model.norm_f == self.model.norm_f
        &&& after.lm_head == self.lm_head
        &&& after.checkpoint_config == self.checkpoint_config
    }

    /// Merges the adapters into the weights, layer by layer, up to the first that cannot be.
    pub fn merge_lora(&mut self) -> (r: Result<(), LoraError>)
        ensures
            r is Ok ==> stack_merged(old(self).model.layers@, final(self).model.layers@),
            r matches Err(e) ==> e is Mlx && stack_merge_stopped(
                old(self).model.layers@,
                final(self).model.layers@,
            ),
            old(self).only_layers_changed(*final(self)),
    {
        merge_layers(&mut self.model.layers)
    }

    /// Refused: a merge is undone by loading the frozen weights again.
    pub fn unmerge_lora(&mut self) -> (r: Result<(), LoraError>)
        ensures
            r matches Err(LoraError::InvalidState(what)) && what@
                == "unmerge_lora is not supported: reload base model weights to undo a merge"@,
            *final(self) == *old(self),
    {
        Err(
            LoraError::InvalidState(
                String::from_str(
                    "unmerge_lora is not supported: reload base model weights to undo a merge",
                ),
            ),
        )
    }

    /// Switches gradient checkpointing on.
    pub fn enable_gradient_checkpointing(&mut self, layers_per_block: usize)
        ensures
            *final(self) == (NemotronHQloraForCausalLM {
                checkpoint_config: Some(checkpointing(layers_per_block)),
                ..*old(self)
            }),
    {
        self.checkpoint_config = Some(make_checkpointing(layers_per_block));
    }

    /// Switches gradient checkpointing off.
    pub fn disable_gradient_checkpointing(&mut self)
        ensures
            *final(self) == (NemotronHQloraForCausalLM { checkpoint_config: None, ..*old(self) }),
    {
        self.checkpoint_config = None;
    }

    pub fn supports_gradient_checkpointing(&self) -> (r: bool)
        ensures
            r == false,
    {
        false
    }

    /// The number of trainable elements.
    pub fn num_trainable_params(&self) -> (r: usize)
        requires
            stack_countable(self.model.layers@),
        ensures
            r == trainable_total(self.model.layers@),
    {
        self.model.num_trainable_params()
    }

    /// The number of trainable elements.
    pub fn num_parameters(&self) -> (r: usize)
        requires
            stack_countable(self.model.layers@),
        ensures
            r == trainable_total(self.model.layers@),
    {
        self.model.num_trainable_params()
    }

    /// The matrices of all adapters, under their names.
    pub fn lora_parameters(&self) -> (r: NameMap<Array>)
        ensures
            r@ == parameter_map(NameStyle::Plain, self.model.layers@),
    {
        collect_parameters(&self.model.layers, NameStyle::Plain)
    }

    /// Replaces the adapters' matrices that the map names.
    pub fn set_lora_parameters(&mut self, params: &NameMap<Array>)
        ensures
            final(self).model.layers@ == assigned(
                NameStyle::Plain,
                old(self).model.layers@,
                params@,
            ),
            old(self).only_layers_changed(*final(self)),
    {
        assign_parameters(&mut self.model.layers, params, NameStyle::Plain);
    }

    /// The matrices of the adapters, layer by layer.
    pub fn parameters<'a>(&'a self) -> (r: Vec<LayerParamRef<'a>>)
        ensures
            lists_stack(r@, self.model.layers@),
    {
        parameter_refs(&self.model.layers)
    }

    /// The matrices of the adapters: all of them are trainable.
    pub fn trainable_parameters<'a>(&'a self) -> (r: Vec<LayerParamRef<'a>>)
        ensures
            lists_stack(r@, self.model.layers@),
    {
        parameter_refs(&self.model.layers)
    }

    /// The matrices of the adapters, layer by layer, open to replacement.
    pub fn parameters_mut<'a>(&'a mut self) -> (r: Vec<LayerParamMut<'a>>)
        ensures
            r@.len() == adapted_before(old(self).model.layers@, old(self).model.layers@.len()),
            forall|i: int|
                0 <= i < old(self).model.layers@.len() && (#[trigger] old(
                    self,
                ).model.layers@[i]).matrices().len() > 0 ==> {
                    let g = r@[adapted_before(old(self).model.layers@, i as nat) as int];
                    &&& g.layer == i
                    &&& g.entries@.len() == old(self).model.layers@[i].matrices().len()
                    &&& forall|j: int|
                        0 <= j < g.entries@.len() ==> {
                            &&& (#[trigger] g.entries@[j]).place == old(
                                self,
                            ).model.layers@[i].places()[j / 2]
                            &&& g.entries@[j].half == half_of(j)
                            &&& *g.entries@[j].value == old(self).model.layers@[i].matrices()[j]
                        }
                },
            final(self).model.layers@.len() == old(self).model.layers@.len(),
            forall|i: int|
                #![trigger final(self).model.layers@[i]]
                0 <= i < old(self).model.layers@.len() ==> {
                    let was = old(self).model.layers@[i];
                    let k = adapted_before(old(self).model.layers@, i as nat) as int;
                    &&& was.matrices().len() == 0 ==> final(self).model.layers@[i] == was
                    &&& was.matrices().len() > 0 ==> final(self).model.layers@[i]
                        == was.with_matrices(
                        Seq::new(r@[k].entries@.len(), |j: int| *final(r@[k].entries@[j].value)),
                    )
                },
            old(self).only_layers_changed(*final(self)),
    {
        stack_refs_mut(&mut self.model.layers)
    }

    /// Adapters cannot be frozen.
    pub fn freeze_parameters(&mut self, _recursive: bool)
        ensures
            *final(self) == *old(self),
    {
    }

    /// Adapters are never frozen.
    pub fn unfreeze_parameters(&mut self, _recursive: bool)
        ensures
            *final(self) == *old(self),
    {
    }

    pub fn all_frozen(&self) -> (r: Option<bool>)
        ensures
            r == Some(false),
    {
        Some(false)
    }

    pub fn any_frozen(&self) -> (r: Option<bool>)
        ensures
            r == Some(false),
    {
        Some(false)
    }

    /// The arrays to evaluate before the first use of the model, in order.
    pub fn eval_all(&self) -> (r: Vec<Array>)
        ensures
            r@ == model_evaluated(
                self.model.embeddings,
                self.model.layers@,
                self.model.norm_f,
                self.lm_head,
            ),
    {
        list_evaluated(
            &self.model.embeddings,
            &self.model.layers,
            &self.model.norm_f,
            &self.lm_head,
        )
    }

    /// Attention alone does not carry a hybrid model's past.
    pub fn supports_kv_cache(&self) -> (r: bool)
        ensures
            !r,
    {
        false
    }

    /// Bytes of the quantized weights, of the adapters, and of both and the biases.
    pub fn memory_usage(&self) -> (r: (usize, usize, usize))
        requires
            stack_measurable(self.model.layers@),
        ensures
            stack_memory(self.model.layers@).is(r),
    {
        self.model.memory_usage()
    }

    /// The bytes of quantized weights, adapters and biases, and those with the weights in single
    /// precision. Their ratio is what quantization saves.
    pub fn memory_savings(&self) -> (r: (usize, usize))
        requires
            stack_measurable(self.model.layers@),
            stack_comparable(self.model.layers@),
        ensures
            r.0 == stack_memory(self.model.layers@).total,
            r.1 == full_bytes_upto(self.model.layers@, self.model.layers@.len()) + stack_memory(
                self.model.layers@,
            ).lora,
    {
        compare_layers(&self.model.layers)
    }

    /// What loading gives: the quantized form of the model that the settings give, with the
    /// frozen weights that the map names loaded before they were quantized.
    pub open spec fn is_reloaded(
        self,
        dims: NemotronHDims,
        kinds: Seq<char>,
        config: QLoraConfig,
        weights: Map<Seq<char>, Array>,
    ) -> bool {
        exists|l: NemotronHLoraForCausalLM|
            #[trigger] is_loaded_fresh(l, dims, kinds, config.lora, weights) && self.is_of(
                l,
                config,
            )
    }

    /// Some weight that loading gives cannot be quantized.
    pub open spec fn unloadable(
        dims: NemotronHDims,
        kinds: Seq<char>,
        config: QLoraConfig,
        weights: Map<Seq<char>, Array>,
    ) -> bool {
        exists|l: NemotronHLoraForCausalLM|
            #[trigger] is_loaded_fresh(l, dims, kinds, config.lora, weights)
                && !NemotronHQloraModel::quantizes(l.model.layers@, config)
    }

    /// Starts the model over from its settings with the frozen weights that the map names; the
    /// adapters are fresh ones. Refused, with nothing changed, where a weight cannot be quantized.
    pub fn load_base_weights(&mut self, weights: &NameMap<Array>) -> (r: Result<(), LoraError>)
        requires
            old(self).model.config.dims.valid(),
            old(self).model.qlora_config.lora.valid(),
        ensures
            match r {
                Ok(_) => final(self).is_reloaded(
                    old(self).model.config.dims,
                    old(self).model.config.layer_types@,
                    old(self).model.qlora_config,
                    weights@,
                ),
                Err(e) => {
                    &&& e is Mlx
                    &&& *final(self) == *old(self)
                    &&& !nemotron_buildable(
                        old(self).model.config.dims,
                        old(self).model.config.layer_types@,
                    ) || NemotronHQloraForCausalLM::unloadable(
                        old(self).model.config.dims,
                        old(self).model.config.layer_types@,
                        old(self).model.qlora_config,
                        weights@,
                    )
                },
            },
    {
        let config = self.model.config.duplicate();
        let ghost dims = config.dims;
        let ghost kinds = config.layer_types@;
        let qlora_config = self.model.qlora_config;
        match NemotronHLoraForCausalLM::new(config, qlora_config.lora) {
            Ok(fresh) => {
                let mut lora = fresh;
                let ghost start = lora;
                let _ = lora.load_base_weights(weights);
                let ghost l = lora;
                proof {
                    assert(loads(start, l, weights@));
                    assert(is_loaded_fresh(l, dims, kinds, qlora_config.lora, weights@));
                }
                match NemotronHQloraForCausalLM::from_lora(lora, &qlora_config) {
                    Ok(m) => {
                        *self = m;
                        Ok(())
                    },
                    Err(e) => Err(e),
                }
            },
            Err(e) => Err(e),
        }
    }
}

/// Blocks that agree from block `i` on do the same from there on.
proof fn lemma_same_steps(
    a: Seq<NemotronHQloraBlock>,
    b: Seq<NemotronHQloraBlock>,
    i: int,
    x: Array,
    mask: Option<Array>,
    kv: Option<KVCacheState>,
    states: Option<Seq<MambaCacheEntry>>,
)
    requires
        0 <= i,
        a.len() == b.len(),
        forall|j: int| i <= j < a.len() ==> a[j] == b[j],
    ensures
        nemotron_qlora_steps(a, i, x, mask, kv, states) == nemotron_qlora_steps(
            b,
            i,
            x,
            mask,
            kv,
            states,
        ),
    decreases a.len() - i,
{
    if i < a.len() {
        let end = a[i].step(
            x,
            nemotron_qlora_layer_mask(a[i], mask),
            match kv {
                Some(c) => Some((c, i)),
                None => None,
            },
            nemotron_qlora_entry(states, i),
        );
        let kept = match (states, end.2) {
            (Some(s), Some(e)) => Some(s.update(i, e)),
            _ => states,
        };
        lemma_same_steps(a, b, i + 1, end.0, mask, end.1, kept);
    }
}

/// Restoring the weights of a block keeps all extents.
proof fn lemma_ready_warmed(layers: Seq<NemotronHQloraBlock>, i: int)
    requires
        0 <= i < layers.len(),
        nemotron_qlora_ready(layers),
    ensures
        nemotron_qlora_ready(layers.update(i, layers[i].warmed())),
{
    let after = layers.update(i, layers[i].warmed());
    assert forall|j: int| 0 <= j < after.len() implies (#[trigger] after[j]).mixer.ready() by {
        assert(layers[j].mixer.ready());
        assert(layers[i].mixer.ready());
    }
}

proof fn lemma_steps_agree(a: Seq<NemotronHQloraBlock>, b: Seq<NemotronHQloraBlock>, i: int)
    requires
        0 <= i,
        a.len() == b.len(),
        forall|j: int| i <= j < a.len() ==> a[j] == b[j],
    ensures
        forall|x: Array,
            mask: Option<Array>,
            kv: Option<KVCacheState>,
            states: Option<Seq<MambaCacheEntry>>|
            #[trigger] nemotron_qlora_steps(a, i, x, mask, kv, states) == nemotron_qlora_steps(
                b,
                i,
                x,
                mask,
                kv,
                states,
            ),
{
    assert forall|x: Array,
        mask: Option<Array>,
        kv: Option<KVCacheState>,
        states: Option<Seq<MambaCacheEntry>>|
        #[trigger] nemotron_qlora_steps(a, i, x, mask, kv, states) == nemotron_qlora_steps(
            b,
            i,
            x,
            mask,
            kv,
            states,
        ) by {
        lemma_same_steps(a, b, i, x, mask, kv, states);
    }
}

/// Loading the map into the first model gives the second.
pub open spec fn loads(
    before: NemotronHLoraForCausalLM,
    after: NemotronHLoraForCausalLM,
    weights: Map<Seq<char>, Array>,
) -> bool {
    &&& after.model.layers@.len() == before.model.layers@.len()
    &&& forall|i: int|
        0 <= i < before.model.layers@.len() ==> before.model.layers@[i].loaded_to(
            #[trigger] after.model.layers@[i],
            i as nat,
            listed_kind(before.model.config.layer_types@, i),
            weights,
        )
    &&& after.model.embeddings.weight == lookup(
        weights,
        "backbone.embeddings.weight"@,
        lookup(weights, "model.embed_tokens.weight"@, before.model.embeddings.weight),
    )
    &&& after.model.norm_f == (RmsNorm {
        weight: lookup(
            weights,
            "backbone.norm_f.weight"@,
            lookup(weights, "model.norm.weight"@, before.model.norm_f.weight),
        ),
        ..before.model.norm_f
    })
    &&& after.lm_head == loaded_head(before.lm_head, weights, "lm_head.weight"@)
    &&& after.model.config == before.model.config
    &&& after.model.lora_config == before.model.lora_config
}

/// The model is what loading the map into a fresh one gives.
pub open spec fn is_loaded_fresh(
    l: NemotronHLoraForCausalLM,
    dims: NemotronHDims,
    kinds: Seq<char>,
    lora: LoraConfig,
    weights: Map<Seq<char>, Array>,
) -> bool {
    exists|start: NemotronHLoraForCausalLM|
        start.is_fresh(dims, kinds, lora) && #[trigger] loads(start, l, weights)
}

/// A state-space block has no adapter, and no bytes are counted for it.
pub proof fn law_mamba_stays_frozen(block: NemotronHQloraBlock)
    requires
        block.mixer.mamba(),
    ensures
        block.matrices().len() == 0,
        LoraLayer::trainable(block) == 0,
        MeasuredLayer::memory(block) == Memory::zero(),
        block.warmed() == block,
{
}

/// Quantizing a block keeps where its adapters sit.
pub proof fn law_quantizing_keeps_places(l: NemotronHLoraBlock, config: QLoraConfig)
    ensures
        NemotronHQloraBlock::of(l, config).places() == l.places(),
        NemotronHQloraBlock::of(l, config).mixer.mamba() == l.mixer.mamba(),
{
}

} // verus!
