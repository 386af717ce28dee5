//! The frozen Qwen3 mixture of experts: attention and, in each layer, an MLP or routed experts.

use crate::array::{
    Args, Array, Function, Kernel, Source, apply, arg, kernel, make_arg, matmul, plus, reshape,
    same_args, slice, source, stacked, times, transpose,
};
use crate::attention::{gated, make_gated, make_unfit, rows_of, unfit};
use crate::config::{find_number, lists_number};
use crate::error::{LoraError, misfit};
use crate::moe::stack_all;
use crate::nn::{Embedding, Linear, RmsNorm, fresh_head, make_head};
use crate::scalar::F32;
use crate::shape::Shape;
use vstd::prelude::*;

verus! {

/// The extents and settings of a Qwen3 mixture of experts. What follows from the scaling of
/// rotary positions is given as numbers.
#[derive(Debug)]
pub struct Qwen3MoEConfig {
    pub vocab_size: i32,
    pub hidden_size: i32,
    pub intermediate_size: i32,
    /// Of an expert; without it, that of an MLP.
    pub moe_intermediate_size: Option<i32>,
    pub num_hidden_layers: i32,
    pub num_attention_heads: i32,
    pub num_key_value_heads: Option<i32>,
    pub head_dim: i32,
    pub num_experts: i32,
    pub num_experts_per_tok: i32,
    /// Every so many layers, one has experts.
    pub decoder_sparse_step: i32,
    /// The layers without experts, whatever the step says.
    pub mlp_only_layers: Vec<i32>,
    pub norm_topk_prob: bool,
    pub rms_norm_eps: F32,
    /// The base of the rotary frequencies, behind the scaling.
    pub effective_base: F32,
    /// The factor on rotary positions.
    pub rope_scale: F32,
    pub tie_word_embeddings: bool,
}

impl Qwen3MoEConfig {
    /// Key heads; as many as query heads where nothing is said.
    pub open spec fn kv_heads(self) -> i32 {
        match self.num_key_value_heads {
            Some(n) => n,
            None => self.num_attention_heads,
        }
    }

    pub open spec fn expert_size(self) -> i32 {
        match self.moe_intermediate_size {
            Some(n) => n,
            None => self.intermediate_size,
        }
    }

    /// The layer has experts in place of an MLP.
    pub open spec fn sparse(self, layer: int) -> bool {
        &&& !lists_number(self.mlp_only_layers@, layer)
        &&& self.num_experts > 0
        &&& self.decoder_sparse_step > 0
        &&& (layer + 1) % (self.decoder_sparse_step as int) == 0
    }

    /// The widths fit machine integers, and so do the numbers of layers and of picked experts.
    pub open spec fn valid(self) -> bool {
        &&& i32::MIN <= self.num_attention_heads * self.head_dim <= i32::MAX
        &&& i32::MIN <= self.kv_heads() * self.head_dim <= i32::MAX
        &&& self.num_experts_per_tok >= 0
        &&& 0 <= self.num_hidden_layers < i32::MAX
    }

    /// No extent of the layer is negative.
    pub open spec fn layer_buildable(self, layer: int) -> bool {
        &&& self.hidden_size >= 0
        &&& self.num_attention_heads * self.head_dim >= 0
        &&& self.kv_heads() * self.head_dim >= 0
        &&& if self.sparse(layer) {
            self.expert_size() >= 0
        } else {
            self.intermediate_size >= 0
        }
    }

    /// No extent of the embeddings or of a layer is negative.
    pub open spec fn buildable(self) -> bool {
        &&& self.vocab_size >= 0 && self.hidden_size >= 0
        &&& forall|i: int|
            0 <= i < self.num_hidden_layers ==> #[trigger] self.layer_buildable(i)
    }

    pub fn num_kv_heads(&self) -> (r: i32)
        ensures
            r == self.kv_heads(),
    {
        match self.num_key_value_heads {
            Some(n) => n,
            None => self.num_attention_heads,
        }
    }

    /// Whether the layer has experts in place of an MLP.
    pub fn is_sparse(&self, layer: i32) -> (r: bool)
        requires
            0 <= layer < i32::MAX,
        ensures
            r == self.sparse(layer as int),
    {
        !find_number(&self.mlp_only_layers, layer) && self.num_experts > 0
            && self.decoder_sparse_step > 0 && (layer + 1) % self.decoder_sparse_step == 0
    }
}

/// Frozen attention.
#[derive(Debug)]
pub struct Qwen3MoEAttention {
    pub q_proj: Linear,
    pub k_proj: Linear,
    pub v_proj: Linear,
    pub o_proj: Linear,
    pub q_norm: RmsNorm,
    pub k_norm: RmsNorm,
}

/// A frozen SwiGLU MLP.
#[derive(Debug)]
pub struct Qwen3MoEDenseMLP {
    pub gate_proj: Linear,
    pub up_proj: Linear,
    pub down_proj: Linear,
}

/// A frozen expert: gate `w1`, down `w2` and up `w3`.
#[derive(Debug)]
pub struct GatedExpert {
    pub w1: Linear,
    pub w2: Linear,
    pub w3: Linear,
}

/// Frozen experts behind a router.
#[derive(Debug)]
pub struct Qwen3MoEBlock {
    pub top_k: usize,
    pub norm_topk_prob: bool,
    pub gate: Linear,
    pub experts: Vec<GatedExpert>,
    /// The experts' gate weights, transposed, one behind the other.
    pub stacked_gate_proj: Option<Array>,
    /// The experts' up weights, transposed, one behind the other.
    pub stacked_up_proj: Option<Array>,
    /// The experts' down weights, transposed, one behind the other.
    pub stacked_down_proj: Option<Array>,
    /// The weights that the stacks were made from.
    pub stacked_weight_signature: Option<Args>,
}

#[derive(Debug)]
pub enum Qwen3MoEFeedForward {
    Dense(Qwen3MoEDenseMLP),
    MoE(Qwen3MoEBlock),
}

#[derive(Debug)]
pub struct Qwen3MoEDecoderLayer {
    pub self_attn: Qwen3MoEAttention,
    pub input_layernorm: RmsNorm,
    pub post_attention_layernorm: RmsNorm,
    pub ffn: Qwen3MoEFeedForward,
}

#[derive(Debug)]
pub struct Qwen3MoEModel {
    pub config: Qwen3MoEConfig,
    pub embed_tokens: Embedding,
    pub layers: Vec<Qwen3MoEDecoderLayer>,
    pub norm: RmsNorm,
}

/// The frozen model with a head for logits.
#[derive(Debug)]
pub struct Qwen3MoE {
    pub model: Qwen3MoEModel,
    /// Absent where the embeddings serve as head.
    pub lm_head: Option<Linear>,
}

impl GatedExpert {
    pub open spec fn fresh(hidden: i32, inner: i32) -> GatedExpert {
        GatedExpert {
            w1: Linear::fresh(hidden, inner, false),
            w2: Linear::fresh(inner, hidden, false),
            w3: Linear::fresh(hidden, inner, false),
        }
    }
}

/// What keeps the experts' weights stacked: the three stacks, and the weights they were made from.
pub type StackState = (Option<Array>, Option<Array>, Option<Array>, Option<Args>);

/// The weights of the first `n` experts and those behind: gate, up and down of each in turn.
pub open spec fn signature_from(experts: Seq<GatedExpert>, i: int) -> Args
    decreases experts.len() - i,
{
    if 0 <= i < experts.len() {
        arg(
            Some(experts[i].w1.weight),
            arg(
                Some(experts[i].w3.weight),
                arg(Some(experts[i].w2.weight), signature_from(experts, i + 1)),
            ),
        )
    } else {
        Args::Nil
    }
}

/// The weights of the experts: gate, up and down of each in turn.
pub open spec fn signature(experts: Seq<GatedExpert>) -> Args {
    signature_from(experts, 0)
}

pub open spec fn turned_gates(experts: Seq<GatedExpert>) -> Seq<Array> {
    Seq::new(experts.len(), |i: int| transpose(experts[i].w1.weight))
}

pub open spec fn turned_ups(experts: Seq<GatedExpert>) -> Seq<Array> {
    Seq::new(experts.len(), |i: int| transpose(experts[i].w3.weight))
}

pub open spec fn turned_downs(experts: Seq<GatedExpert>) -> Seq<Array> {
    Seq::new(experts.len(), |i: int| transpose(experts[i].w2.weight))
}

/// Matrices of one shape, one behind the other.
pub open spec fn stack_of(xs: Seq<Array>) -> Array {
    stacked(xs, Shape::D3(0, xs[0].shape.outer(), xs[0].shape.inner()))
}

/// The experts' weights, transposed and stacked: gate, up and down.
pub open spec fn stacks_of(experts: Seq<GatedExpert>) -> (Array, Array, Array) {
    (
        stack_of(turned_gates(experts)),
        stack_of(turned_ups(experts)),
        stack_of(turned_downs(experts)),
    )
}

/// A stack is missing, or was made from other weights.
pub open spec fn stale(s: StackState, experts: Seq<GatedExpert>) -> bool {
    s.0 is None || s.1 is None || s.2 is None || s.3 != Some(signature(experts))
}

/// The stacks, made anew where they are stale.
pub open spec fn restacked(s: StackState, experts: Seq<GatedExpert>) -> StackState {
    if stale(s, experts) {
        let made = stacks_of(experts);
        (Some(made.0), Some(made.1), Some(made.2), Some(signature(experts)))
    } else {
        s
    }
}

pub(crate) fn make_signature(experts: &Vec<GatedExpert>) -> (r: Args)
    ensures
        r == signature(experts@),
{
    let mut r = Args::Nil;
    let mut i: usize = experts.len();
    while i > 0
        invariant
            i <= experts@.len(),
            r == signature_from(experts@, i as int),
        decreases i,
    {
        i = i - 1;
        r = make_arg(Some(&experts[i].w2.weight), r);
        r = make_arg(Some(&experts[i].w3.weight), r);
        r = make_arg(Some(&experts[i].w1.weight), r);
    }
    r
}

fn make_stack_of(xs: &Vec<Array>) -> (r: Array)
    requires
        xs@.len() > 0,
    ensures
        r == stack_of(xs@),
{
    let d = xs[0].shape.pad();
    let outer: i32 = xs[0].shape.outermost();
    stack_all(xs, Shape::D3(0, outer, d.4))
}

pub(crate) fn make_stacks(experts: &Vec<GatedExpert>) -> (r: (Array, Array, Array))
    requires
        experts@.len() > 0,
    ensures
        r == stacks_of(experts@),
{
    let mut gates: Vec<Array> = Vec::new();
    let mut ups: Vec<Array> = Vec::new();
    let mut downs: Vec<Array> = Vec::new();
    let mut i: usize = 0;
    while i < experts.len()
        invariant
            i <= experts@.len(),
            gates@ == turned_gates(experts@).take(i as int),
            ups@ == turned_ups(experts@).take(i as int),
            downs@ == turned_downs(experts@).take(i as int),
        decreases experts.len() - i,
    {
        gates.push(experts[i].w1.weight.t());
        ups.push(experts[i].w3.weight.t());
        downs.push(experts[i].w2.weight.t());
        assert(gates@ =~= turned_gates(experts@).take(i + 1));
        assert(ups@ =~= turned_ups(experts@).take(i + 1));
        assert(downs@ =~= turned_downs(experts@).take(i + 1));
        i = i + 1;
    }
    assert(gates@ =~= turned_gates(experts@));
    assert(ups@ =~= turned_ups(experts@));
    assert(downs@ =~= turned_downs(experts@));
    (make_stack_of(&gates), make_stack_of(&ups), make_stack_of(&downs))
}

/// Makes the stacks anew where they are stale.
pub(crate) fn restack(
    gate: &mut Option<Array>,
    up: &mut Option<Array>,
    down: &mut Option<Array>,
    made_from: &mut Option<Args>,
    experts: &Vec<GatedExpert>,
)
    requires
        experts@.len() > 0,
    ensures
        (*final(gate), *final(up), *final(down), *final(made_from)) == restacked(
            (*old(gate), *old(up), *old(down), *old(made_from)),
            experts@,
        ),
{
    let now = make_signature(experts);
    let current = match &*made_from {
        Some(s) => same_args(s, &now),
        None => false,
    };
    if gate.is_none() || up.is_none() || down.is_none() || !current {
        let (g, u, d) = make_stacks(experts);
        *gate = Some(g);
        *up = Some(u);
        *down = Some(d);
        *made_from = Some(now);
    }
}

/// The rows times the matrices of a stack, row by row.
pub open spec fn row_matmul(x: Array, w: Array) -> Array {
    squeezed(matmul(reshape(x, Shape::D3(x.shape.outer(), 1, x.shape.inner())), w))
}

/// An array of three axes without the middle one, which has extent one.
pub open spec fn squeezed(x: Array) -> Array {
    match x.shape {
        Shape::D3(n, one, c) => if one == 1 {
            reshape(x, Shape::D2(n, c))
        } else {
            unfit(x)
        },
        _ => unfit(x),
    }
}

/// The items of a stack that the indices name, one behind the other.
pub open spec fn taken(stack: Array, ids: Array) -> Array {
    kernel(
        Kernel::Take,
        arg(Some(stack), arg(Some(ids), Args::Nil)),
        match (stack.shape, ids.shape) {
            (Shape::D3(_, r, c), Shape::D1(n)) => Shape::D3(n, r, c),
            _ => stack.shape,
        },
        stack.shape is D3 && ids.shape is D1,
    )
}

/// The places of the `k` greatest numbers of each row.
pub open spec fn top_indices(probs: Array, k: i32) -> Array {
    kernel(
        Kernel::TopIndices { k },
        arg(Some(probs), Args::Nil),
        probs.shape.with_inner(k),
        probs.shape.rank() >= 1 && 0 <= k <= probs.shape.inner(),
    )
}

/// The `k` greatest numbers of each row; divided by their sum, where so wanted.
pub open spec fn top_weights(probs: Array, k: i32, normalized: bool) -> Array {
    kernel(
        Kernel::TopWeights { k, normalized },
        arg(Some(probs), Args::Nil),
        probs.shape.with_inner(k),
        probs.shape.rank() >= 1 && 0 <= k <= probs.shape.inner(),
    )
}

/// The probabilities of the experts, from the router's scores.
pub open spec fn routing_probs(scores: Array) -> Array {
    apply(Function::Softmax, apply(Function::ToFloat32, scores))
}

/// What the expert in one slot gives for each row, times its weight.
pub open spec fn slot_output(
    rows: Array,
    top: Array,
    weights: Array,
    slot: int,
    stacks: (Array, Array, Array),
) -> Array {
    let ids = reshape(
        slice(top, 0, slot as i32, (slot + 1) as i32),
        Shape::D1(top.shape.outer()),
    );
    let gate = row_matmul(rows, taken(stacks.0, ids));
    let up = row_matmul(rows, taken(stacks.1, ids));
    let out = row_matmul(gated(gate, up), taken(stacks.2, ids));
    times(out, slice(weights, 0, slot as i32, (slot + 1) as i32))
}

/// The sum over the first `n` slots.
pub open spec fn slots_sum(
    rows: Array,
    top: Array,
    weights: Array,
    n: nat,
    stacks: (Array, Array, Array),
) -> Array
    decreases n,
{
    if n == 0 {
        source(Source::Zeros, Shape::D2(rows.shape.outer(), rows.shape.inner()))
    } else {
        plus(
            slots_sum(rows, top, weights, (n - 1) as nat, stacks),
            slot_output(rows, top, weights, n - 1, stacks),
        )
    }
}

/// The weighted outputs of the `k` experts with the greatest scores, in the shape of the input.
pub open spec fn routed(
    x: Array,
    scores: Array,
    k: i32,
    normalized: bool,
    stacks: (Array, Array, Array),
) -> Array {
    let probs = routing_probs(scores);
    reshape(
        slots_sum(
            rows_of(x),
            top_indices(probs, k),
            top_weights(probs, k, normalized),
            if k >= 0 {
                k as nat
            } else {
                0
            },
            stacks,
        ),
        x.shape,
    )
}

fn make_row_matmul(x: &Array, w: &Array) -> (r: Array)
    ensures
        r == row_matmul(*x, *w),
{
    let outer: i32 = x.shape.outermost();
    let inner: i32 = x.shape.pad().4;
    let m = x.reshape(Shape::D3(outer, 1, inner)).matmul(w);
    match m.shape {
        Shape::D3(n, one, c) => if one == 1 {
            m.reshape(Shape::D2(n, c))
        } else {
            make_unfit(&m)
        },
        _ => make_unfit(&m),
    }
}

fn make_taken(stack: &Array, ids: &Array) -> (r: Array)
    ensures
        r == taken(*stack, *ids),
{
    let args = make_arg(Some(stack), make_arg(Some(ids), Args::Nil));
    match (stack.shape, ids.shape) {
        (Shape::D3(_, r, c), Shape::D1(n)) => Array::kernel(
            Kernel::Take,
            args,
            Shape::D3(n, r, c),
            true,
        ),
        _ => Array::kernel(Kernel::Take, args, stack.shape, false),
    }
}

fn make_top(probs: &Array, k: i32, normalized: bool) -> (r: (Array, Array))
    ensures
        r == (top_indices(*probs, k), top_weights(*probs, k, normalized)),
{
    let fits = probs.shape.num_axes() >= 1 && 0 <= k && k <= probs.shape.pad().4;
    let shape = probs.shape.replace_inner(k);
    (
        Array::kernel(
            Kernel::TopIndices { k },
            make_arg(Some(probs), Args::Nil),
            shape,
            fits,
        ),
        Array::kernel(
            Kernel::TopWeights { k, normalized },
            make_arg(Some(probs), Args::Nil),
            shape,
            fits,
        ),
    )
}

pub(crate) fn make_routed(
    x: &Array,
    rows: &Array,
    scores: &Array,
    k: i32,
    normalized: bool,
    gates: &Array,
    ups: &Array,
    downs: &Array,
) -> (r: Array)
    requires
        *rows == rows_of(*x),
    ensures
        r == routed(*x, *scores, k, normalized, (*gates, *ups, *downs)),
{
    let probs = scores.apply(Function::ToFloat32).apply(Function::Softmax);
    let (top, weights) = make_top(&probs, k, normalized);
    let ghost stacks = (*gates, *ups, *downs);
    let n: i32 = rows.shape.outermost();
    let width: i32 = rows.shape.pad().4;
    let mut sum = Array::from_source(Source::Zeros, Shape::D2(n, width));
    let mut slot: i32 = 0;
    while slot < k
        invariant
            0 <= slot,
            slot <= k || slot == 0,
            stacks == (*gates, *ups, *downs),
            sum == slots_sum(*rows, top, weights, slot as nat, stacks),
        decreases k - slot,
    {
        let count: i32 = top.shape.outermost();
        let ids = top.slice(0, slot, slot + 1).reshape(Shape::D1(count));
        let gate = make_row_matmul(rows, &make_taken(gates, &ids));
        let up = make_row_matmul(rows, &make_taken(ups, &ids));
        let out = make_row_matmul(&make_gated(&gate, &up), &make_taken(downs, &ids));
        let part = out.multiply(&weights.slice(0, slot, slot + 1));
        sum = sum.add(&part);
        slot = slot + 1;
    }
    sum.reshape(x.shape)
}

impl Qwen3MoEBlock {
    pub open spec fn stacks(self) -> StackState {
        (
            self.stacked_gate_proj,
            self.stacked_up_proj,
            self.stacked_down_proj,
            self.stacked_weight_signature,
        )
    }

    pub open spec fn with_stacks(self, s: StackState) -> Qwen3MoEBlock {
        Qwen3MoEBlock {
            stacked_gate_proj: s.0,
            stacked_up_proj: s.1,
            stacked_down_proj: s.2,
            stacked_weight_signature: s.3,
            ..self
        }
    }

    /// The experts that the settings give, before any weight is loaded.
    pub open spec fn is_fresh(self, config: Qwen3MoEConfig) -> bool {
        &&& self.top_k == config.num_experts_per_tok
        &&& self.norm_topk_prob == config.norm_topk_prob
        &&& self.gate == Linear::fresh(config.hidden_size, config.num_experts, false)
        &&& self.experts@.len() == (if config.num_experts > 0 {
            config.num_experts as nat
        } else {
            0
        })
        &&& forall|i: int|
            0 <= i < self.experts@.len() ==> #[trigger] self.experts@[i] == GatedExpert::fresh(
                config.hidden_size,
                config.expert_size(),
            )
        &&& self.stacks() == (None::<Array>, None::<Array>, None::<Array>, None::<Args>)
    }

    fn new(config: &Qwen3MoEConfig) -> (r: Qwen3MoEBlock)
        requires
            config.num_experts_per_tok >= 0,
        ensures
            r.is_fresh(*config),
    {
        let inner: i32 = match config.moe_intermediate_size {
            Some(n) => n,
            None => config.intermediate_size,
        };
        let hidden: i32 = config.hidden_size;
        let mut experts: Vec<GatedExpert> = Vec::new();
        let mut i: i32 = 0;
        while i < config.num_experts
            invariant
                0 <= i,
                i <= config.num_experts || i == 0,
                experts@.len() == i,
                forall|j: int|
                    0 <= j < i ==> #[trigger] experts@[j] == GatedExpert::fresh(hidden, inner),
            decreases config.num_experts - i,
        {
            experts.push(
                GatedExpert {
                    w1: Linear::new(hidden, inner, false),
                    w2: Linear::new(inner, hidden, false),
                    w3: Linear::new(hidden, inner, false),
                },
            );
            i = i + 1;
        }
        Qwen3MoEBlock {
            top_k: config.num_experts_per_tok as usize,
            norm_topk_prob: config.norm_topk_prob,
            gate: Linear::new(hidden, config.num_experts, false),
            experts,
            stacked_gate_proj: None,
            stacked_up_proj: None,
            stacked_down_proj: None,
            stacked_weight_signature: None,
        }
    }
}

impl Qwen3MoEDecoderLayer {
    /// The layer that the settings give, before any weight is loaded.
    pub open spec fn is_fresh(self, config: Qwen3MoEConfig, layer: int) -> bool {
        let h = config.hidden_size;
        let q = (config.num_attention_heads * config.head_dim) as i32;
        let kv = (config.kv_heads() * config.head_dim) as i32;
        &&& self.self_attn.q_proj == Linear::fresh(h, q, false)
        &&& self.self_attn.k_proj == Linear::fresh(h, kv, false)
        &&& self.self_attn.v_proj == Linear::fresh(h, kv, false)
        &&& self.self_attn.o_proj == Linear::fresh(q, h, false)
        &&& self.self_attn.q_norm == RmsNorm::fresh(config.head_dim, config.rms_norm_eps)
        &&& self.self_attn.k_norm == RmsNorm::fresh(config.head_dim, config.rms_norm_eps)
        &&& self.input_layernorm == RmsNorm::fresh(h, config.rms_norm_eps)
        &&& self.post_attention_layernorm == RmsNorm::fresh(h, config.rms_norm_eps)
        &&& match self.ffn {
            Qwen3MoEFeedForward::Dense(m) => {
                &&& !config.sparse(layer)
                &&& m.gate_proj == Linear::fresh(h, config.intermediate_size, false)
                &&& m.up_proj == Linear::fresh(h, config.intermediate_size, false)
                &&& m.down_proj == Linear::fresh(config.intermediate_size, h, false)
            },
            Qwen3MoEFeedForward::MoE(b) => config.sparse(layer) && b.is_fresh(config),
        }
    }

    fn new(config: &Qwen3MoEConfig, layer: i32) -> (r: Result<Qwen3MoEDecoderLayer, LoraError>)
        requires
            config.valid(),
            0 <= layer < i32::MAX,
        ensures
            match r {
                Ok(l) => config.layer_buildable(layer as int) && l.is_fresh(*config, layer as int),
                Err(e) => e is Mlx && !config.layer_buildable(layer as int),
            },
    {
        let h: i32 = config.hidden_size;
        let n: i32 = config.intermediate_size;
        let q: i32 = config.num_attention_heads * config.head_dim;
        let kv: i32 = config.num_kv_heads() * config.head_dim;
        let inner: i32 = match config.moe_intermediate_size {
            Some(n) => n,
            None => n,
        };
        let sparse = config.is_sparse(layer);
        if h < 0 || q < 0 || kv < 0 || (sparse && inner < 0) || (!sparse && n < 0) {
            return Err(misfit());
        }
        let self_attn = Qwen3MoEAttention {
            q_proj: Linear::new(h, q, false),
            k_proj: Linear::new(h, kv, false),
            v_proj: Linear::new(h, kv, false),
            o_proj: Linear::new(q, h, false),
            q_norm: RmsNorm::new(config.head_dim, config.rms_norm_eps),
            k_norm: RmsNorm::new(config.head_dim, config.rms_norm_eps),
        };
        let ffn = if sparse {
            Qwen3MoEFeedForward::MoE(Qwen3MoEBlock::new(config))
        } else {
            Qwen3MoEFeedForward::Dense(
                Qwen3MoEDenseMLP {
                    gate_proj: Linear::new(h, n, false),
                    up_proj: Linear::new(h, n, false),
                    down_proj: Linear::new(n, h, false),
                },
            )
        };
        Ok(
            Qwen3MoEDecoderLayer {
                self_attn,
                input_layernorm: RmsNorm::new(h, config.rms_norm_eps),
                post_attention_layernorm: RmsNorm::new(h, config.rms_norm_eps),
                ffn,
            },
        )
    }

    /// The layer with its experts stacked.
    pub open spec fn restacked(self) -> Qwen3MoEDecoderLayer {
        match self.ffn {
            Qwen3MoEFeedForward::Dense(_) => self,
            Qwen3MoEFeedForward::MoE(b) => Qwen3MoEDecoderLayer {
                ffn: Qwen3MoEFeedForward::MoE(b.with_stacks(restacked(b.stacks(), b.experts@))),
                ..self
            },
        }
    }

    /// There are experts where the layer has any.
    pub open spec fn ready(self) -> bool {
        self.ffn matches Qwen3MoEFeedForward::MoE(b) ==> b.experts@.len() > 0
    }

    fn restack(&mut self)
        requires
            old(self).ready(),
        ensures
            *final(self) == old(self).restacked(),
    {
        match &mut self.ffn {
            Qwen3MoEFeedForward::Dense(_) => {},
            Qwen3MoEFeedForward::MoE(b) => {
                restack(
                    &mut b.stacked_gate_proj,
                    &mut b.stacked_up_proj,
                    &mut b.stacked_down_proj,
                    &mut b.stacked_weight_signature,
                    &b.experts,
                );
            },
        }
    }
}

impl Qwen3MoE {
    /// The model that the settings give, before any weight is loaded.
    pub open spec fn is_fresh(self, config: Qwen3MoEConfig) -> bool {
        &&& self.model.config == config
        &&& self.model.embed_tokens == Embedding::fresh(config.vocab_size, config.hidden_size)
        &&& self.model.layers@.len() == config.num_hidden_layers
        &&& forall|i: int|
            0 <= i < self.model.layers@.len() ==> (#[trigger] self.model.layers@[i]).is_fresh(
                config,
                i,
            )
        &&& self.model.norm == RmsNorm::fresh(config.hidden_size, config.rms_norm_eps)
        &&& self.lm_head == fresh_head(
            config.tie_word_embeddings,
            config.hidden_size,
            config.vocab_size,
        )
    }

    /// A fresh model. Refused where an extent is negative.
    pub fn new(config: Qwen3MoEConfig) -> (r: Result<Qwen3MoE, LoraError>)
        requires
            config.valid(),
        ensures
            match r {
                Ok(m) => config.buildable() && m.is_fresh(config),
                Err(e) => e is Mlx && !config.buildable(),
            },
    {
        let embed_tokens = match Embedding::new(config.vocab_size, config.hidden_size) {
            Ok(e) => e,
            Err(_) => {
                return Err(misfit());
            },
        };
        let mut layers: Vec<Qwen3MoEDecoderLayer> = Vec::new();
        let mut i: i32 = 0;
        while i < config.num_hidden_layers
            invariant
                0 <= i <= config.num_hidden_layers,
                config.valid(),
                layers@.len() == i,
                forall|j: int| 0 <= j < i ==> #[trigger] config.layer_buildable(j),
                forall|j: int| 0 <= j < i ==> (#[trigger] layers@[j]).is_fresh(config, j),
            decreases config.num_hidden_layers - i,
        {
            match Qwen3MoEDecoderLayer::new(&config, i) {
                Ok(l) => {
                    layers.push(l);
                },
                Err(_) => {
                    return Err(misfit());
                },
            }
            i = i + 1;
        }
        let norm = RmsNorm::new(config.hidden_size, config.rms_norm_eps);
        let lm_head = make_head(config.tie_word_embeddings, config.hidden_size, config.vocab_size);
        Ok(Qwen3MoE { model: Qwen3MoEModel { config, embed_tokens, layers, norm }, lm_head })
    }

    /// Stacks the experts of each layer that has any.
    pub fn init_stacked_moe(&mut self)
        requires
            forall|i: int|
                0 <= i < old(self).model.layers@.len() ==> (#[trigger] old(
                    self,
                ).model.layers@[i]).ready(),
        ensures
            final(self).model.layers@.len() == old(self).model.layers@.len(),
            forall|i: int|
                0 <= i < old(self).model.layers@.len() ==> #[trigger] final(self).model.layers@[i]
                    == old(self).model.layers@[i].restacked(),
            final(self).model.config == old(self).model.config,
            final(self).model.embed_tokens == old(self).model.embed_tokens,
            final(self).model.norm == old(self).model.norm,
            final(self).lm_head == old(self).lm_head,
    {
        let ghost was = self.model.layers@;
        let mut i: usize = 0;
        while i < self.model.layers.len()
            invariant
                i <= self.model.layers@.len(),
                was == old(self).model.layers@,
                self.model.layers@.len() == was.len(),
                forall|j: int| 0 <= j < was.len() ==> (#[trigger] was[j]).ready(),
                forall|j: int|
                    0 <= j < i ==> #[trigger] self.model.layers@[j] == was[j].restacked(),
                forall|j: int| i <= j < was.len() ==> #[trigger] self.model.layers@[j] == was[j],
                self.model.config == old(self).model.config,
                self.model.embed_tokens == old(self).model.embed_tokens,
                self.model.norm == old(self).model.norm,
                self.lm_head == old(self).lm_head,
            decreases self.model.layers.len() - i,
        {
            self.model.layers[i].restack();
            i = i + 1;
        }
    }
}

/// Where the stacks say that they were made from given experts, they were.
pub open spec fn in_step(s: StackState) -> bool {
    forall|e: Seq<GatedExpert>|
        #![trigger signature(e)]
        s.0 is Some && s.1 is Some && s.2 is Some && s.3 == Some(signature(e)) ==> (
            s.0->0,
            s.1->0,
            s.2->0,
        ) == stacks_of(e)
}

proof fn lemma_signature_weights(a: Seq<GatedExpert>, b: Seq<GatedExpert>, i: int)
    requires
        0 <= i <= a.len(),
        i <= b.len(),
        signature_from(a, i) == signature_from(b, i),
    ensures
        a.len() == b.len(),
        forall|j: int|
            i <= j < a.len() ==> {
                &&& (#[trigger] a[j]).w1.weight == b[j].w1.weight
                &&& a[j].w2.weight == b[j].w2.weight
                &&& a[j].w3.weight == b[j].w3.weight
            },
    decreases a.len() - i,
{
    if i < a.len() && i < b.len() {
        lemma_signature_weights(a, b, i + 1);
    }
}

proof fn lemma_signature_stacks(a: Seq<GatedExpert>, b: Seq<GatedExpert>)
    requires
        signature(a) == signature(b),
    ensures
        stacks_of(a) == stacks_of(b),
{
    lemma_signature_weights(a, b, 0);
    assert(turned_gates(a) =~= turned_gates(b));
    assert(turned_ups(a) =~= turned_ups(b));
    assert(turned_downs(a) =~= turned_downs(b));
}

/// Stacks follow the weights: from stacks that are in step with what they say they were made
/// from, such as none at all, restacking leads to the stacks of the current weights, in step
/// again; doing so twice is doing so once.
pub proof fn law_stacks_follow_weights(s: StackState, experts: Seq<GatedExpert>)
    requires
        in_step(s),
    ensures
        in_step((None::<Array>, None::<Array>, None::<Array>, None::<Args>)),
        in_step(restacked(s, experts)),
        restacked(s, experts).3 == Some(signature(experts)),
        ({
            let r = restacked(s, experts);
            r.0 == Some(stacks_of(experts).0) && r.1 == Some(stacks_of(experts).1) && r.2 == Some(
                stacks_of(experts).2,
            )
        }),
        restacked(restacked(s, experts), experts) == restacked(s, experts),
{
    let r = restacked(s, experts);
    assert forall|e: Seq<GatedExpert>| #![trigger signature(e)]
        r.0 is Some && r.1 is Some && r.2 is Some && r.3 == Some(signature(e)) implies (
        r.0->0,
        r.1->0,
        r.2->0,
    ) == stacks_of(e) by {
        if stale(s, experts) {
            lemma_signature_stacks(e, experts);
        }
    }
}

} // verus!
