//! What a Qwen3 mixture of experts gives for inputs of fitting shapes.

use crate::array::{
    Array, args_fit, attend, combine, kernel, mask_fits, matmul, plus, reshape, rope, slice,
    stack_onto, stacked,
};
use crate::attention::{gated, rows_of};
use crate::config::LoraConfig;
use crate::kv_cache::KVCacheState;
use crate::nn::logits;
use crate::qwen3_moe::{
    GatedExpert, Qwen3MoEConfig, Qwen3MoEDecoderLayer, Qwen3MoEFeedForward, in_step,
    law_stacks_follow_weights, routed, routing_probs, row_matmul, slot_output, slots_sum, stacks_of,
    taken, top_indices, top_weights, turned_downs, turned_gates, turned_ups,
};
use crate::qwen3_moe_lora::{
    Qwen3MoELoraAttention, Qwen3MoELoraDecoderLayer, Qwen3MoELoraDenseMLP, Qwen3MoELoraFeedForward,
    Qwen3MoELoraForCausalLM, Qwen3MoELoraMoEBlock, moe_lora_cached_stack, moe_lora_stack,
};
use crate::shape::Shape;
use crate::shapes::{
    batch, cache_at, cache_holds, grouped, is_of, layer_holds, lemma_apply_shape,
    lemma_attend_shape, lemma_cache_step, lemma_causal_covers, lemma_combine_same,
    lemma_embed_shape, lemma_gated_shape, lemma_heads_shape, lemma_kv_width, lemma_logits_shape,
    lemma_lora_shape, lemma_merge_shape, lemma_rms_norm_fits, lemma_rope_shape, lemma_split_shape,
    lemma_swap_middle_shape, lemma_transpose_shape, mask_covers, steps_at,
};
use vstd::prelude::*;

verus! {

impl Qwen3MoELoraAttention {
    /// The extents of the projections are those of the heads.
    pub open spec fn shaped(self, hidden: i32) -> bool {
        let q = (self.n_heads * self.head_dim) as i32;
        let kv = (self.n_kv_heads * self.head_dim) as i32;
        &&& grouped(self.n_heads, self.n_kv_heads, self.head_dim)
        &&& self.q_proj.maps(hidden, q) && self.k_proj.maps(hidden, kv)
        &&& self.v_proj.maps(hidden, kv) && self.o_proj.maps(q, hidden)
        &&& self.q_norm.well_formed(self.head_dim) && self.k_norm.well_formed(self.head_dim)
    }
}

pub proof fn lemma_moe_lora_parts(a: Qwen3MoELoraAttention, x: Array, b: i32, l: i32, hidden: i32)
    requires
        a.shaped(hidden),
        batch(b, l),
        is_of(x, Shape::D3(b, l, hidden)),
    ensures
        is_of(a.queries(x), Shape::D4(b, a.n_heads, l, a.head_dim)),
        is_of(a.keys(x), Shape::D4(b, a.n_kv_heads, l, a.head_dim)),
        is_of(a.values(x), Shape::D4(b, a.n_kv_heads, l, a.head_dim)),
{
    broadcast use {lemma_lora_shape, lemma_rms_norm_fits};

    lemma_kv_width(a.n_heads, a.n_kv_heads, a.head_dim);
    lemma_heads_shape(a.q_proj.output(x), b, l, a.n_heads, a.head_dim);
    lemma_heads_shape(a.k_proj.output(x), b, l, a.n_kv_heads, a.head_dim);
    lemma_swap_middle_shape(
        a.q_norm.output(reshape(a.q_proj.output(x), Shape::D4(b, l, a.n_heads, a.head_dim))),
    );
    lemma_swap_middle_shape(
        a.k_norm.output(reshape(a.k_proj.output(x), Shape::D4(b, l, a.n_kv_heads, a.head_dim))),
    );
    lemma_split_shape(a.v_proj.output(x), b, l, a.n_kv_heads, a.head_dim);
}

proof fn lemma_moe_lora_attention(
    a: Qwen3MoELoraAttention,
    x: Array,
    mask: Option<Array>,
    b: i32,
    l: i32,
    hidden: i32,
)
    requires
        a.shaped(hidden),
        batch(b, l),
        is_of(x, Shape::D3(b, l, hidden)),
        mask_covers(mask, b, a.n_heads, l),
    ensures
        is_of(a.output(x, mask), Shape::D3(b, l, hidden)),
{
    broadcast use {lemma_lora_shape, lemma_rope_shape};

    lemma_moe_lora_parts(a, x, b, l, hidden);
    let q = rope(a.queries(x), a.rope(), 0);
    let k = rope(a.keys(x), a.rope(), 0);
    let v = a.values(x);
    lemma_attend_shape(q, k, v, a.fused_config(mask), mask, b, l, l);
    lemma_merge_shape(
        attend(q, k, v, a.fused_config(mask), mask),
        b,
        l,
        a.n_heads,
        a.head_dim,
    );
}

pub proof fn lemma_moe_lora_cached_attention(
    a: Qwen3MoELoraAttention,
    x: Array,
    mask: Option<Array>,
    cache: KVCacheState,
    n: nat,
    i: int,
    b: i32,
    l: i32,
    s: int,
    hidden: i32,
)
    requires
        a.shaped(hidden),
        batch(b, l),
        0 <= i < n,
        0 <= s,
        s + l <= i32::MAX,
        is_of(x, Shape::D3(b, l, hidden)),
        mask_fits(mask),
        cache_at(cache, n, i, b, a.n_kv_heads, a.head_dim, s, l),
    ensures
        is_of(a.cached_output(x, mask, cache, i).0, Shape::D3(b, l, hidden)),
        cache_at(
            a.cached_output(x, mask, cache, i).1,
            n,
            i + 1,
            b,
            a.n_kv_heads,
            a.head_dim,
            s,
            l,
        ),
{
    broadcast use {lemma_lora_shape, lemma_rope_shape};

    lemma_moe_lora_parts(a, x, b, l, hidden);
    let q = rope(a.queries(x), a.rope(), cache.offset);
    let k = rope(a.keys(x), a.rope(), cache.offset);
    let v = a.values(x);
    lemma_cache_step(cache, n, i, b, a.n_kv_heads, a.head_dim, s, l, k, v);
    let both = cache.joined(i, k, v);
    lemma_attend_shape(q, both.0, both.1, a.fused_config(mask), mask, b, l, (s + l) as i32);
    lemma_merge_shape(
        attend(q, both.0, both.1, a.fused_config(mask), mask),
        b,
        l,
        a.n_heads,
        a.head_dim,
    );
}

impl Qwen3MoELoraDenseMLP {
    /// The extents of the projections go together.
    pub open spec fn shaped(self, hidden: i32) -> bool {
        let n = self.gate_proj.out_features;
        self.gate_proj.maps(hidden, n) && self.up_proj.maps(hidden, n) && self.down_proj.maps(
            n,
            hidden,
        )
    }
}

proof fn lemma_moe_lora_mlp(m: Qwen3MoELoraDenseMLP, x: Array, shape: Shape, hidden: i32)
    requires
        m.shaped(hidden),
        is_of(x, shape),
        shape.rank() >= 2,
        shape.inner() == hidden,
    ensures
        is_of(m.output(x), shape),
{
    broadcast use lemma_lora_shape;

    lemma_gated_shape(
        m.gate_proj.output(x),
        m.up_proj.output(x),
        shape.with_inner(m.gate_proj.out_features),
    );
}

/// The expert's weights have the extents of the given hidden states and inner width.
pub open spec fn expert_shaped(e: GatedExpert, hidden: i32, inner: i32) -> bool {
    &&& is_of(e.w1.weight, Shape::D2(inner, hidden))
    &&& is_of(e.w3.weight, Shape::D2(inner, hidden))
    &&& is_of(e.w2.weight, Shape::D2(hidden, inner))
}

/// All experts do, and there is at least one.
pub open spec fn experts_shaped(experts: Seq<GatedExpert>, hidden: i32, inner: i32) -> bool {
    &&& 0 < experts.len() <= i32::MAX
    &&& hidden >= 0 && inner >= 0
    &&& forall|i: int| 0 <= i < experts.len() ==> expert_shaped(
        #[trigger] experts[i],
        hidden,
        inner,
    )
}

/// Matrices of one shape stack.
pub proof fn lemma_stacked_shape(xs: Seq<Array>, r: i32, c: i32)
    requires
        xs.len() <= i32::MAX,
        forall|i: int| 0 <= i < xs.len() ==> is_of(#[trigger] xs[i], Shape::D2(r, c)),
    ensures
        is_of(stacked(xs, Shape::D3(0, r, c)), Shape::D3(xs.len() as i32, r, c)),
    decreases xs.len(),
{
    reveal(stack_onto);
    if xs.len() > 0 {
        lemma_stacked_shape(xs.drop_last(), r, c);
    }
}

proof fn lemma_stacks_shape(experts: Seq<GatedExpert>, hidden: i32, inner: i32)
    requires
        experts_shaped(experts, hidden, inner),
    ensures
        ({
            let s = stacks_of(experts);
            let n = experts.len() as i32;
            &&& is_of(s.0, Shape::D3(n, hidden, inner))
            &&& is_of(s.1, Shape::D3(n, hidden, inner))
            &&& is_of(s.2, Shape::D3(n, inner, hidden))
        }),
{
    broadcast use lemma_transpose_shape;

    assert(expert_shaped(experts[0], hidden, inner));
    assert forall|i: int| 0 <= i < experts.len() implies is_of(
        #[trigger] turned_gates(experts)[i],
        Shape::D2(hidden, inner),
    ) by {
        assert(expert_shaped(experts[i], hidden, inner));
    }
    assert forall|i: int| 0 <= i < experts.len() implies is_of(
        #[trigger] turned_ups(experts)[i],
        Shape::D2(hidden, inner),
    ) by {
        assert(expert_shaped(experts[i], hidden, inner));
    }
    assert forall|i: int| 0 <= i < experts.len() implies is_of(
        #[trigger] turned_downs(experts)[i],
        Shape::D2(inner, hidden),
    ) by {
        assert(expert_shaped(experts[i], hidden, inner));
    }
    lemma_stacked_shape(turned_gates(experts), hidden, inner);
    lemma_stacked_shape(turned_ups(experts), hidden, inner);
    lemma_stacked_shape(turned_downs(experts), inner, hidden);
}

/// How many elements rows have.
pub proof fn lemma_row_counts(n: i32, i: i32)
    requires
        n >= 0,
        i >= 0,
    ensures
        Shape::D2(n, i).countable(),
        Shape::D2(n, i).count() == n * i,
        Shape::D3(n, 1, i).countable(),
        Shape::D3(n, 1, i).count() == n * i,
        Shape::D1(n).count() == n,
        Shape::D2(n, 1).count() == n,
{
    assert(0 <= n * i <= 0x8000_0000 * 0x8000_0000) by (nonlinear_arith)
        requires
            0 <= n <= 0x8000_0000,
            0 <= i <= 0x8000_0000,
    ;
    assert(1 * 1 * 1 * n * i == n * i) by (nonlinear_arith);
    assert(1 * 1 * n * 1 * i == n * i) by (nonlinear_arith);
    assert(1 * 1 * 1 * 1 * n == n && 1 * 1 * 1 * n * 1 == n) by (nonlinear_arith);
    assert(Shape::D2(n, i).padded() == (1i32, 1i32, 1i32, n, i));
    assert(Shape::D3(n, 1, i).padded() == (1i32, 1i32, n, 1i32, i));
    assert(Shape::D1(n).padded() == (1i32, 1i32, 1i32, 1i32, n));
    assert(Shape::D2(n, 1).padded() == (1i32, 1i32, 1i32, n, 1i32));
}

proof fn lemma_row_matmul_shape(x: Array, w: Array, n: i32, i: i32, o: i32)
    requires
        n >= 0,
        i >= 0,
        o >= 0,
        is_of(x, Shape::D2(n, i)),
        is_of(w, Shape::D3(n, i, o)),
    ensures
        is_of(row_matmul(x, w), Shape::D2(n, o)),
{
    lemma_row_counts(n, i);
    lemma_row_counts(n, o);
    reveal(reshape);
    reveal(matmul);
    let y = reshape(x, Shape::D3(n, 1, i));
    assert(is_of(y, Shape::D3(n, 1, i)));
    assert(is_of(matmul(y, w), Shape::D3(n, 1, o)));
}

proof fn lemma_slot_shape(
    rows: Array,
    top: Array,
    weights: Array,
    slot: int,
    stacks: (Array, Array, Array),
    n: i32,
    k: i32,
    e: i32,
    hidden: i32,
    inner: i32,
)
    requires
        n >= 0,
        hidden >= 0,
        inner >= 0,
        0 <= slot < k,
        is_of(rows, Shape::D2(n, hidden)),
        is_of(top, Shape::D2(n, k)),
        is_of(weights, Shape::D2(n, k)),
        is_of(stacks.0, Shape::D3(e, hidden, inner)),
        is_of(stacks.1, Shape::D3(e, hidden, inner)),
        is_of(stacks.2, Shape::D3(e, inner, hidden)),
    ensures
        is_of(slot_output(rows, top, weights, slot, stacks), Shape::D2(n, hidden)),
{
    lemma_row_counts(n, 1);
    let one = slice(top, 0, slot as i32, (slot + 1) as i32);
    let ids = reshape(one, Shape::D1(n));
    assert(is_of(ids, Shape::D1(n))) by {
        reveal(slice);
        reveal(reshape);
    }
    reveal_with_fuel(args_fit, 4);
    assert(is_of(taken(stacks.0, ids), Shape::D3(n, hidden, inner))) by {
        reveal(kernel);
    }
    assert(is_of(taken(stacks.1, ids), Shape::D3(n, hidden, inner))) by {
        reveal(kernel);
    }
    assert(is_of(taken(stacks.2, ids), Shape::D3(n, inner, hidden))) by {
        reveal(kernel);
    }
    lemma_row_matmul_shape(rows, taken(stacks.0, ids), n, hidden, inner);
    lemma_row_matmul_shape(rows, taken(stacks.1, ids), n, hidden, inner);
    let gate = row_matmul(rows, taken(stacks.0, ids));
    let up = row_matmul(rows, taken(stacks.1, ids));
    lemma_gated_shape(gate, up, Shape::D2(n, inner));
    lemma_row_matmul_shape(gated(gate, up), taken(stacks.2, ids), n, inner, hidden);
    let w = slice(weights, 0, slot as i32, (slot + 1) as i32);
    assert(is_of(w, Shape::D2(n, 1))) by {
        reveal(slice);
    }
    reveal(combine);
}

proof fn lemma_slots_shape(
    rows: Array,
    top: Array,
    weights: Array,
    m: nat,
    stacks: (Array, Array, Array),
    n: i32,
    k: i32,
    e: i32,
    hidden: i32,
    inner: i32,
)
    requires
        n >= 0,
        hidden >= 0,
        inner >= 0,
        m <= k,
        is_of(rows, Shape::D2(n, hidden)),
        is_of(top, Shape::D2(n, k)),
        is_of(weights, Shape::D2(n, k)),
        is_of(stacks.0, Shape::D3(e, hidden, inner)),
        is_of(stacks.1, Shape::D3(e, hidden, inner)),
        is_of(stacks.2, Shape::D3(e, inner, hidden)),
    ensures
        is_of(slots_sum(rows, top, weights, m, stacks), Shape::D2(n, hidden)),
    decreases m,
{
    broadcast use lemma_combine_same;

    if m > 0 {
        lemma_slots_shape(
            rows,
            top,
            weights,
            (m - 1) as nat,
            stacks,
            n,
            k,
            e,
            hidden,
            inner,
        );
        lemma_slot_shape(rows, top, weights, m - 1, stacks, n, k, e, hidden, inner);
    }
}

/// The rows of a batch that can be numbered by an extent.
pub proof fn lemma_rows_shape(x: Array, b: i32, l: i32, hidden: i32)
    requires
        batch(b, l),
        b * l <= i32::MAX,
        hidden >= 0,
        is_of(x, Shape::D3(b, l, hidden)),
    ensures
        is_of(rows_of(x), Shape::D2((b * l) as i32, hidden)),
        Shape::D2((b * l) as i32, hidden).count() == Shape::D3(b, l, hidden).count(),
        Shape::D2((b * l) as i32, hidden).countable(),
{
    reveal(reshape);
    assert(0 < b * l) by (nonlinear_arith)
        requires
            b > 0,
            l > 0,
    ;
    let n = (b * l) as i32;
    lemma_row_counts(n, hidden);
    assert(1 * 1 * b * l * hidden == b * l * hidden) by (nonlinear_arith);
    assert(1 * 1 * b * l * 1 == b * l) by (nonlinear_arith);
    assert(x.shape.with_inner(1) == Shape::D3(b, l, 1));
    assert(Shape::D3(b, l, 1).count() == b * l);
    assert(x.shape.count() == b * l * hidden);
}

/// Routing a batch through shaped experts keeps its shape.
pub proof fn lemma_routed_shape(
    x: Array,
    scores: Array,
    k: i32,
    normalized: bool,
    experts: Seq<GatedExpert>,
    b: i32,
    l: i32,
    hidden: i32,
    inner: i32,
)
    requires
        batch(b, l),
        b * l <= i32::MAX,
        is_of(x, Shape::D3(b, l, hidden)),
        is_of(scores, Shape::D2((b * l) as i32, experts.len() as i32)),
        experts_shaped(experts, hidden, inner),
        0 <= k <= experts.len(),
    ensures
        is_of(routed(x, scores, k, normalized, stacks_of(experts)), Shape::D3(b, l, hidden)),
{
    broadcast use lemma_apply_shape;

    let n = (b * l) as i32;
    let e = experts.len() as i32;
    lemma_rows_shape(x, b, l, hidden);
    lemma_stacks_shape(experts, hidden, inner);
    let probs = routing_probs(scores);
    reveal_with_fuel(args_fit, 3);
    assert(is_of(top_indices(probs, k), Shape::D2(n, k))) by {
        reveal(kernel);
    }
    assert(is_of(top_weights(probs, k, normalized), Shape::D2(n, k))) by {
        reveal(kernel);
    }
    assert(0 < b * l) by (nonlinear_arith)
        requires
            b > 0,
            l > 0,
    ;
    lemma_slots_shape(
        rows_of(x),
        top_indices(probs, k),
        top_weights(probs, k, normalized),
        k as nat,
        stacks_of(experts),
        n,
        k,
        e,
        hidden,
        inner,
    );
    reveal(reshape);
}

impl Qwen3MoELoraMoEBlock {
    /// The router and the experts go together, and the stacks say truly what they were made from.
    pub open spec fn shaped(self, hidden: i32) -> bool {
        &&& experts_shaped(
            self.experts@,
            hidden,
            self.experts@[0].w1.weight.shape.outer(),
        )
        &&& self.gate.maps(hidden, self.experts@.len() as i32)
        &&& self.top_k <= self.experts@.len()
        &&& in_step(self.stacks())
    }
}

impl Qwen3MoELoraFeedForward {
    /// The extents go together.
    pub open spec fn shaped(self, hidden: i32) -> bool {
        match self {
            Qwen3MoELoraFeedForward::Dense(m) => m.shaped(hidden),
            Qwen3MoELoraFeedForward::MoE(e) => e.shaped(hidden),
        }
    }
}

proof fn lemma_moe_lora_ffn(f: Qwen3MoELoraFeedForward, x: Array, b: i32, l: i32, hidden: i32)
    requires
        f.shaped(hidden),
        batch(b, l),
        b * l <= i32::MAX,
        is_of(x, Shape::D3(b, l, hidden)),
    ensures
        is_of(f.output(x), Shape::D3(b, l, hidden)),
{
    match f {
        Qwen3MoELoraFeedForward::Dense(m) => {
            lemma_moe_lora_mlp(m, x, Shape::D3(b, l, hidden), hidden);
        },
        Qwen3MoELoraFeedForward::MoE(e) => {
            let experts = e.experts@;
            let inner = experts[0].w1.weight.shape.outer();
            lemma_rows_shape(x, b, l, hidden);
            lemma_lora_shape(e.gate, rows_of(x));
            law_stacks_follow_weights(e.stacks(), experts);
            lemma_routed_shape(
                x,
                e.gate.output(rows_of(x)),
                e.top_k as i32,
                e.norm_topk_prob,
                experts,
                b,
                l,
                hidden,
                inner,
            );
        },
    }
}

impl Qwen3MoELoraDecoderLayer {
    /// All parts have the extents of the given hidden states and heads.
    pub open spec fn shaped(self, hidden: i32, heads: i32, kv: i32, d: i32) -> bool {
        &&& self.self_attn.shaped(hidden)
        &&& self.self_attn.n_heads == heads && self.self_attn.n_kv_heads == kv
        &&& self.self_attn.head_dim == d
        &&& self.ffn.shaped(hidden)
        &&& self.input_layernorm.well_formed(hidden)
        &&& self.post_attention_layernorm.well_formed(hidden)
    }
}

impl Qwen3MoELoraForCausalLM {
    /// All parts have the extents of the given vocabulary, hidden states and heads.
    pub open spec fn shaped(self, vocab: i32, hidden: i32, heads: i32, kv: i32, d: i32) -> bool {
        &&& self.model.embed_tokens.well_formed(vocab, hidden)
        &&& self.model.norm.well_formed(hidden)
        &&& self.lm_head matches Some(h) ==> h.well_formed(hidden, vocab)
        &&& forall|i: int|
            0 <= i < self.model.layers@.len() ==> (#[trigger] self.model.layers@[i]).shaped(
                hidden,
                heads,
                kv,
                d,
            )
    }
}

proof fn lemma_moe_lora_finish(
    layer: Qwen3MoELoraDecoderLayer,
    h: Array,
    b: i32,
    l: i32,
    hidden: i32,
    heads: i32,
    kv: i32,
    d: i32,
)
    requires
        layer.shaped(hidden, heads, kv, d),
        batch(b, l),
        b * l <= i32::MAX,
        is_of(h, Shape::D3(b, l, hidden)),
    ensures
        is_of(layer.finish(h), Shape::D3(b, l, hidden)),
{
    broadcast use {lemma_combine_same, lemma_rms_norm_fits};

    let normed2 = layer.post_attention_layernorm.output(h);
    lemma_moe_lora_ffn(layer.ffn, normed2, b, l, hidden);
}

proof fn lemma_moe_lora_layer(
    layer: Qwen3MoELoraDecoderLayer,
    x: Array,
    mask: Option<Array>,
    b: i32,
    l: i32,
    hidden: i32,
    heads: i32,
    kv: i32,
    d: i32,
)
    requires
        layer.shaped(hidden, heads, kv, d),
        batch(b, l),
        b * l <= i32::MAX,
        is_of(x, Shape::D3(b, l, hidden)),
        mask_covers(mask, b, heads, l),
    ensures
        is_of(layer.output(x, mask), Shape::D3(b, l, hidden)),
{
    broadcast use {lemma_combine_same, lemma_rms_norm_fits};

    let normed = layer.input_layernorm.output(x);
    lemma_moe_lora_attention(layer.self_attn, normed, mask, b, l, hidden);
    let mixed = layer.self_attn.output(normed, mask);
    lemma_moe_lora_finish(layer, plus(x, mixed), b, l, hidden, heads, kv, d);
}

proof fn lemma_moe_lora_stack(
    layers: Seq<Qwen3MoELoraDecoderLayer>,
    n: nat,
    x: Array,
    mask: Option<Array>,
    b: i32,
    l: i32,
    hidden: i32,
    heads: i32,
    kv: i32,
    d: i32,
)
    requires
        n <= layers.len(),
        forall|i: int|
            0 <= i < layers.len() ==> (#[trigger] layers[i]).shaped(hidden, heads, kv, d),
        batch(b, l),
        b * l <= i32::MAX,
        is_of(x, Shape::D3(b, l, hidden)),
        mask_covers(mask, b, heads, l),
    ensures
        is_of(moe_lora_stack(layers, n, x, mask), Shape::D3(b, l, hidden)),
    decreases n,
{
    if n > 0 {
        lemma_moe_lora_stack(layers, (n - 1) as nat, x, mask, b, l, hidden, heads, kv, d);
        lemma_moe_lora_layer(
            layers[n - 1],
            moe_lora_stack(layers, (n - 1) as nat, x, mask),
            mask,
            b,
            l,
            hidden,
            heads,
            kv,
            d,
        );
    }
}

/// Token indices `[b, l]` give logits `[b, l, vocab]`: nothing in a model of fitting extents is
/// refused.
pub proof fn law_moe_lora_forward_shape(
    m: Qwen3MoELoraForCausalLM,
    ids: Array,
    mask: Option<Array>,
    b: i32,
    l: i32,
    vocab: i32,
    hidden: i32,
    heads: i32,
    kv: i32,
    d: i32,
)
    requires
        m.shaped(vocab, hidden, heads, kv, d),
        batch(b, l),
        b * l <= i32::MAX,
        is_of(ids, Shape::D2(b, l)),
        mask_covers(mask, b, heads, l),
    ensures
        is_of(m.output(ids, mask), Shape::D3(b, l, vocab)),
{
    broadcast use lemma_rms_norm_fits;

    lemma_embed_shape(m.model.embed_tokens, ids, b, l, vocab, hidden);
    lemma_causal_covers(b, heads, l);
    let x = m.model.embed_tokens.output(ids);
    let layers = m.model.layers@;
    lemma_moe_lora_stack(layers, layers.len(), x, mask, b, l, hidden, heads, kv, d);
    let h = m.model.output(ids, mask);
    lemma_logits_shape(m.lm_head, m.model.embed_tokens, h, b, l, vocab, hidden);
}

pub proof fn lemma_moe_lora_cached_stack(
    layers: Seq<Qwen3MoELoraDecoderLayer>,
    n: nat,
    x: Array,
    mask: Option<Array>,
    cache: KVCacheState,
    b: i32,
    l: i32,
    s: int,
    hidden: i32,
    heads: i32,
    kv: i32,
    d: i32,
)
    requires
        n <= layers.len(),
        forall|i: int|
            0 <= i < layers.len() ==> (#[trigger] layers[i]).shaped(hidden, heads, kv, d),
        batch(b, l),
        b * l <= i32::MAX,
        0 <= s,
        s + l <= i32::MAX,
        is_of(x, Shape::D3(b, l, hidden)),
        mask_fits(mask),
        cache_at(cache, layers.len(), 0, b, kv, d, s, l),
    ensures
        is_of(moe_lora_cached_stack(layers, n, x, mask, cache).0, Shape::D3(b, l, hidden)),
        cache_at(
            moe_lora_cached_stack(layers, n, x, mask, cache).1,
            layers.len(),
            n as int,
            b,
            kv,
            d,
            s,
            l,
        ),
    decreases n,
{
    broadcast use {lemma_combine_same, lemma_rms_norm_fits};

    if n > 0 {
        lemma_moe_lora_cached_stack(
            layers,
            (n - 1) as nat,
            x,
            mask,
            cache,
            b,
            l,
            s,
            hidden,
            heads,
            kv,
            d,
        );
        let before = moe_lora_cached_stack(layers, (n - 1) as nat, x, mask, cache);
        let layer = layers[n - 1];
        let normed = layer.input_layernorm.output(before.0);
        lemma_moe_lora_cached_attention(
            layer.self_attn,
            normed,
            mask,
            before.1,
            layers.len(),
            n - 1,
            b,
            l,
            s,
            hidden,
        );
        let end = layer.self_attn.cached_output(normed, mask, before.1, n - 1);
        lemma_moe_lora_finish(layer, plus(before.0, end.0), b, l, hidden, heads, kv, d);
    }
}

/// Step by step over a cache: token indices `[b, l]` behind `s` steps give logits `[b, l, vocab]`,
/// and the cache then holds `s + l` steps. An empty cache holds none.
pub proof fn law_moe_lora_cached_shape(
    m: Qwen3MoELoraForCausalLM,
    ids: Array,
    mask: Option<Array>,
    cache: KVCacheState,
    b: i32,
    l: i32,
    s: int,
    vocab: i32,
    hidden: i32,
    heads: i32,
    kv: i32,
    d: i32,
)
    requires
        m.shaped(vocab, hidden, heads, kv, d),
        m.model.layers@.len() > 0,
        batch(b, l),
        b * l <= i32::MAX,
        0 <= s,
        s + l <= i32::MAX,
        is_of(ids, Shape::D2(b, l)),
        mask_fits(mask),
        cache_holds(cache, m.model.layers@.len(), b, kv, d, s),
    ensures
        ({
            let end = m.model.cached_output(ids, mask, cache);
            &&& is_of(logits(m.lm_head, m.model.embed_tokens, end.0), Shape::D3(b, l, vocab))
            &&& cache_holds(end.1, m.model.layers@.len(), b, kv, d, s + l)
        }),
{
    broadcast use lemma_rms_norm_fits;

    lemma_embed_shape(m.model.embed_tokens, ids, b, l, vocab, hidden);
    let x = m.model.embed_tokens.output(ids);
    let layers = m.model.layers@;
    let n = layers.len();
    assert forall|j: int| 0 <= j < n implies #[trigger] layer_holds(
        cache,
        j,
        b,
        kv,
        d,
        steps_at(0, s, l, j),
    ) by {
        assert(layer_holds(cache, j, b, kv, d, s));
    }
    lemma_moe_lora_cached_stack(layers, n, x, mask, cache, b, l, s, hidden, heads, kv, d);
    let end = m.model.cached_output(ids, mask, cache);
    lemma_logits_shape(m.lm_head, m.model.embed_tokens, end.0, b, l, vocab, hidden);
    assert forall|j: int| 0 <= j < n implies #[trigger] layer_holds(end.1, j, b, kv, d, s + l) by {
        assert(layer_holds(end.1, j, b, kv, d, steps_at(n as int, s, l, j)));
    }
}

/// A fresh layer has fitting extents, where the heads of the settings group evenly and no more
/// experts are picked than there are.
pub proof fn law_moe_lora_fresh_shaped(
    config: Qwen3MoEConfig,
    base: Qwen3MoEDecoderLayer,
    lora: LoraConfig,
    i: int,
)
    requires
        config.valid(),
        config.layer_buildable(i),
        base.is_fresh(config, i),
        lora.valid(),
        grouped(config.num_attention_heads, config.kv_heads(), config.head_dim),
        config.sparse(i) ==> config.num_experts_per_tok <= config.num_experts,
    ensures
        Qwen3MoELoraDecoderLayer::over(config, base, lora).shaped(
            config.hidden_size,
            config.num_attention_heads,
            config.kv_heads(),
            config.head_dim,
        ),
{
    lemma_kv_width(config.num_attention_heads, config.kv_heads(), config.head_dim);
    match base.ffn {
        Qwen3MoEFeedForward::Dense(_) => {},
        Qwen3MoEFeedForward::MoE(e) => {
            let h = config.hidden_size;
            let n = config.expert_size();
            assert(e.experts@[0] == GatedExpert::fresh(h, n));
            assert forall|j: int| 0 <= j < e.experts@.len() implies expert_shaped(
                #[trigger] e.experts@[j],
                h,
                n,
            ) by {
                assert(e.experts@[j] == GatedExpert::fresh(h, n));
            }
        },
    }
}

} // verus!
