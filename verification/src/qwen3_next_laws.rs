//! What a hybrid Qwen3-Next gives for inputs of fitting shapes.

use crate::array::{
    Arithmetic, Array, Function, apply, args_fit, combine, concat, flash_attend, kernel, mask_fits,
    plus, reshape, reshape_rest, rms_norm, rope, slice, sum_axis, times,
};
use crate::attention::{
    first_part, gated, last_part, match_heads, middle_part, plain_attention, rows_of,
};
use crate::config::LoraConfig;
use crate::kernels::{argsort, conv1d, gather_matmul, take_along};
use crate::kv_cache::MambaCacheEntry;
use crate::qwen3_moe_lora_laws::{lemma_row_counts, lemma_rows_shape};
use crate::qwen3_next_lora::{
    Qwen3NextConfig, Qwen3NextLoraAttention, Qwen3NextLoraDecoderLayer, Qwen3NextLoraFeedForward,
    Qwen3NextLoraForCausalLM, Qwen3NextLoraGDN, Qwen3NextLoraMLP, Qwen3NextLoraSharedExpert,
    Qwen3NextLoraSparseMoE, last_steps, qwen3_next_layer_mask, qwen3_next_stack,
};
use crate::shape::Shape;
use crate::shapes::{
    batch, grouped, is_of, lemma_apply_shape, lemma_combine_same, lemma_counts, lemma_embed_shape,
    lemma_flash_shape, lemma_gated_shape, lemma_heads_shape, lemma_kv_width, lemma_linear_shape,
    lemma_logits_shape, lemma_lora_shape, lemma_match_shape, lemma_merge_shape, lemma_plain_shape,
    lemma_rms_norm_fits, lemma_rope_shape, lemma_split_shape, lemma_swap_middle_shape, mask_covers,
};
use vstd::prelude::*;

verus! {

impl Qwen3NextLoraAttention {
    /// The extents of the projections are those of the heads.
    pub open spec fn shaped(self, hidden: i32) -> bool {
        let q = (self.n_heads * self.head_dim) as i32;
        let kv = (self.n_kv_heads * self.head_dim) as i32;
        &&& grouped(self.n_heads, self.n_kv_heads, self.head_dim)
        &&& self.n_heads * (self.head_dim * 2) <= i32::MAX
        &&& self.q_proj.maps(hidden, (self.n_heads * (self.head_dim * 2)) as i32)
        &&& self.k_proj.maps(hidden, kv) && self.v_proj.maps(hidden, kv)
        &&& self.o_proj.maps(q, hidden)
        &&& self.q_norm.well_formed(self.head_dim) && self.k_norm.well_formed(self.head_dim)
    }
}

/// The two halves of the features of a head.
proof fn lemma_head_halves(x: Array, b: i32, l: i32, h: i32, d: i32)
    requires
        d >= 0,
        2 * d <= i32::MAX,
        is_of(x, Shape::D4(b, l, h, (d * 2) as i32)),
    ensures
        is_of(first_part(x, d), Shape::D4(b, l, h, d)),
        is_of(last_part(x, d), Shape::D4(b, l, h, d)),
{
    reveal(slice);
}

/// Features of all heads side by side: `[b, l, h, d]` gives `[b, l, h * d]`.
proof fn lemma_flat_shape(x: Array, b: i32, l: i32, h: i32, d: i32)
    requires
        batch(b, l),
        h >= 0,
        d >= 0,
        h * d <= i32::MAX,
        is_of(x, Shape::D4(b, l, h, d)),
    ensures
        is_of(reshape(x, Shape::D3(b, l, (h * d) as i32)), Shape::D3(b, l, (h * d) as i32)),
        is_of(reshape_rest(x, b, l), Shape::D3(b, l, (h * d) as i32)),
{
    lemma_flat_counts(b, l, h, d);
    reveal(reshape);
    reveal(reshape_rest);
}

proof fn lemma_flat_counts(b: i32, l: i32, h: i32, d: i32)
    requires
        batch(b, l),
        h >= 0,
        d >= 0,
        h * d <= i32::MAX,
    ensures
        Shape::D4(b, l, h, d).countable(),
        Shape::D3(b, l, (h * d) as i32).count() == Shape::D4(b, l, h, d).count(),
        0 <= h * d,
        0 < b * l,
        Shape::D4(b, l, h, d).count() % (b * l) == 0,
        Shape::D4(b, l, h, d).count() / (b * l) == h * d,
{
    lemma_counts(b as int, l as int, h as int, d as int);
    assert(0 <= h * d) by (nonlinear_arith)
        requires
            h >= 0,
            d >= 0,
    ;
    assert(1 * b * l * h * d == b * l * h * d) by (nonlinear_arith);
    assert(1 * 1 * b * l * (h * d) == b * l * (h * d)) by (nonlinear_arith);
    assert(Shape::D4(b, l, h, d).padded() == (1i32, b, l, h, d));
    assert(Shape::D3(b, l, (h * d) as i32).padded() == (1i32, 1i32, b, l, (h * d) as i32));
}

proof fn lemma_qwen3_next_parts(a: Qwen3NextLoraAttention, x: Array, b: i32, l: i32, hidden: i32)
    requires
        a.shaped(hidden),
        batch(b, l),
        is_of(x, Shape::D3(b, l, hidden)),
    ensures
        is_of(a.queries(x), Shape::D4(b, a.n_heads, l, a.head_dim)),
        is_of(a.gate(x), Shape::D3(b, l, (a.n_heads * a.head_dim) as i32)),
        is_of(a.keys(x), Shape::D4(b, a.n_kv_heads, l, a.head_dim)),
        is_of(a.values(x), Shape::D4(b, a.n_kv_heads, l, a.head_dim)),
{
    broadcast use {lemma_lora_shape, lemma_rms_norm_fits};

    let d = a.head_dim;
    lemma_kv_width(a.n_heads, a.n_kv_heads, d);
    assert(d * 2 <= a.n_heads * (d * 2)) by (nonlinear_arith)
        requires
            a.n_heads >= 1,
            d >= 0,
    ;
    let d2 = (d * 2) as i32;
    lemma_heads_shape(a.q_proj.output(x), b, l, a.n_heads, d2);
    let doubled = a.doubled(x);
    lemma_head_halves(doubled, b, l, a.n_heads, d);
    lemma_swap_middle_shape(a.q_norm.output(first_part(doubled, d)));
    lemma_flat_shape(last_part(doubled, d), b, l, a.n_heads, d);
    lemma_heads_shape(a.k_proj.output(x), b, l, a.n_kv_heads, d);
    lemma_swap_middle_shape(
        a.k_norm.output(reshape(a.k_proj.output(x), Shape::D4(b, l, a.n_kv_heads, d))),
    );
    lemma_split_shape(a.v_proj.output(x), b, l, a.n_kv_heads, d);
}

proof fn lemma_qwen3_next_attention(
    a: Qwen3NextLoraAttention,
    x: Array,
    mask: Option<Array>,
    training: bool,
    b: i32,
    l: i32,
    hidden: i32,
)
    requires
        a.shaped(hidden),
        batch(b, l),
        is_of(x, Shape::D3(b, l, hidden)),
        mask_covers(mask, b, a.n_heads, l),
    ensures
        is_of(a.output(x, mask, training), Shape::D3(b, l, hidden)),
{
    broadcast use {lemma_lora_shape, lemma_rope_shape, lemma_combine_same, lemma_apply_shape};

    lemma_qwen3_next_parts(a, x, b, l, hidden);
    let q = rope(a.queries(x), a.rope(), 0);
    let k = rope(a.keys(x), a.rope(), 0);
    let v = a.values(x);
    lemma_flash_shape(a.layer_id, q, k, v, a.fused_config(), b, l, l);
    lemma_merge_shape(
        flash_attend(a.layer_id, q, k, v, a.fused_config()),
        b,
        l,
        a.n_heads,
        a.head_dim,
    );
    lemma_match_shape(k, b, l, a.n_heads, a.n_kv_heads, a.head_dim);
    lemma_match_shape(v, b, l, a.n_heads, a.n_kv_heads, a.head_dim);
    let mk = match_heads(k, a.n_heads, a.n_kv_heads);
    let mv = match_heads(v, a.n_heads, a.n_kv_heads);
    lemma_plain_shape(q, mk, mv, a.scale, mask, b, a.n_heads, l, a.head_dim);
    lemma_merge_shape(plain_attention(q, mk, mv, a.scale, mask), b, l, a.n_heads, a.head_dim);
}

impl Qwen3NextLoraGDN {
    /// The extents of the parts go together.
    pub open spec fn shaped(self, hidden: i32) -> bool {
        let k = self.conv_kernel_size;
        &&& self.num_k_heads > 0 && self.num_v_heads >= 0
            && self.num_v_heads % self.num_k_heads == 0
        &&& self.head_k_dim >= 0 && self.head_v_dim >= 0
        &&& self.key_dim == self.num_k_heads * self.head_k_dim
        &&& self.value_dim == self.num_v_heads * self.head_v_dim
        &&& self.conv_dim == self.key_dim * 2 + self.value_dim
        &&& self.conv_dim > 0
        &&& k >= 1
        &&& is_of(self.conv1d.weight, Shape::D3(self.conv_dim, k, 1))
        &&& mask_fits(self.conv1d.bias)
        &&& self.in_proj_b.well_formed(hidden, self.num_v_heads)
        &&& self.in_proj_a.well_formed(hidden, self.num_v_heads)
        &&& is_of(self.norm.weight, Shape::D1(self.head_v_dim))
        &&& is_of(self.dt_bias, Shape::D1(self.num_v_heads))
        &&& is_of(self.a_log, Shape::D1(self.num_v_heads))
        &&& self.in_proj_qkv.maps(hidden, self.conv_dim)
        &&& self.in_proj_z.maps(hidden, self.value_dim)
        &&& self.out_proj.maps(self.value_dim, hidden)
    }
}

proof fn lemma_conv_shape(
    g: Qwen3NextLoraGDN,
    x: Array,
    state: Option<MambaCacheEntry>,
    b: i32,
    l: i32,
    hidden: i32,
)
    requires
        g.shaped(hidden),
        batch(b, l),
        l + g.conv_kernel_size <= i32::MAX,
        is_of(x, Shape::D3(b, l, hidden)),
        state matches Some(e) ==> state_fits(g, e, b),
    ensures
        is_of(g.conv_out(x, None, state), Shape::D3(b, l, g.conv_dim)),
        is_of(
            g.conv_input(x, None, state),
            Shape::D3(b, (g.conv_kernel_size - 1 + l) as i32, g.conv_dim),
        ),
{
    broadcast use {lemma_lora_shape, lemma_apply_shape};

    let input = g.conv_input(x, None, state);
    let k = g.conv_kernel_size;
    assert(is_of(input, Shape::D3(b, (k - 1 + l) as i32, g.conv_dim))) by {
        reveal(concat);
    }
    reveal(kernel);
    reveal_with_fuel(args_fit, 5);
    assert(1 * g.conv_dim == g.conv_dim);
    assert(is_of(
        conv1d(input, g.conv1d.weight, g.conv1d.bias, g.conv_dim),
        Shape::D3(b, l, g.conv_dim),
    ));
}

proof fn lemma_qwen3_next_gdn(
    g: Qwen3NextLoraGDN,
    x: Array,
    state: Option<MambaCacheEntry>,
    b: i32,
    l: i32,
    hidden: i32,
)
    requires
        g.shaped(hidden),
        batch(b, l),
        l + g.conv_kernel_size <= i32::MAX,
        is_of(x, Shape::D3(b, l, hidden)),
        state matches Some(e) ==> state_fits(g, e, b),
    ensures
        is_of(g.output(x, None, state), Shape::D3(b, l, hidden)),
        is_of(
            g.state_behind(x, None, state),
            Shape::D4(b, g.num_v_heads, g.head_v_dim, g.head_k_dim),
        ),
{
    broadcast use {lemma_lora_shape, lemma_apply_shape, lemma_rms_norm_fits, lemma_linear_shape};

    lemma_conv_shape(g, x, state, b, l, hidden);
    let conv = g.conv_out(x, None, state);
    let key = g.key_dim;
    assert(key >= 0 && g.value_dim >= 0) by {
        assert(g.num_k_heads * g.head_k_dim >= 0) by (nonlinear_arith)
            requires
                g.num_k_heads >= 0,
                g.head_k_dim >= 0,
        ;
        assert(g.num_v_heads * g.head_v_dim >= 0) by (nonlinear_arith)
            requires
                g.num_v_heads >= 0,
                g.head_v_dim >= 0,
        ;
    }
    let q = last_steps(first_part(conv, key), l as int);
    let k = last_steps(middle_part(conv, key, (key * 2) as i32), l as int);
    let v = last_steps(last_part(conv, (key * 2) as i32), l as int);
    assert(is_of(q, Shape::D3(b, l, key)) && is_of(k, Shape::D3(b, l, key)) && is_of(
        v,
        Shape::D3(b, l, g.value_dim),
    )) by {
        reveal(slice);
    }
    lemma_heads_shape(q, b, l, g.num_k_heads, g.head_k_dim);
    lemma_heads_shape(k, b, l, g.num_k_heads, g.head_k_dim);
    lemma_heads_shape(v, b, l, g.num_v_heads, g.head_v_dim);
    lemma_heads_shape(g.in_proj_z.output(x), b, l, g.num_v_heads, g.head_v_dim);
    assert(is_of(g.queries(x, conv), Shape::D4(b, l, g.num_k_heads, g.head_k_dim)));
    assert(is_of(g.keys(x, conv), Shape::D4(b, l, g.num_k_heads, g.head_k_dim)));
    assert(is_of(g.values(x, conv), Shape::D4(b, l, g.num_v_heads, g.head_v_dim)));
    let shape = Shape::D4(b, l, g.num_v_heads, g.head_v_dim);
    assert(is_of(g.recurrence(x, None, state), shape) && is_of(
        g.state_behind(x, None, state),
        Shape::D4(b, g.num_v_heads, g.head_v_dim, g.head_k_dim),
    )) by {
        reveal(kernel);
        reveal_with_fuel(args_fit, 11);
    }
    lemma_gated_shape(
        g.z(x),
        rms_norm(g.recurrence(x, None, state), g.norm.weight, g.norm.eps),
        shape,
    );
    lemma_flat_shape(
        g.norm.output(g.recurrence(x, None, state), g.z(x)),
        b,
        l,
        g.num_v_heads,
        g.head_v_dim,
    );
}

impl Qwen3NextLoraMLP {
    /// The extents of the projections go together.
    pub open spec fn shaped(self, hidden: i32) -> bool {
        let n = self.gate_proj.out_features;
        self.gate_proj.maps(hidden, n) && self.up_proj.maps(hidden, n) && self.down_proj.maps(
            n,
            hidden,
        )
    }
}

proof fn lemma_qwen3_next_mlp(m: Qwen3NextLoraMLP, x: Array, shape: Shape, hidden: i32)
    requires
        m.shaped(hidden),
        is_of(x, shape),
        shape.rank() >= 2,
        shape.inner() == hidden,
    ensures
        is_of(m.output(x), shape),
{
    broadcast use lemma_lora_shape;

    lemma_gated_shape(
        m.gate_proj.output(x),
        m.up_proj.output(x),
        shape.with_inner(m.gate_proj.out_features),
    );
}

impl Qwen3NextLoraSharedExpert {
    /// The extents of the projections go together.
    pub open spec fn shaped(self, hidden: i32) -> bool {
        let n = self.gate_proj.out_features;
        self.gate_proj.maps(hidden, n) && self.up_proj.maps(hidden, n) && self.down_proj.maps(
            n,
            hidden,
        )
    }
}

proof fn lemma_qwen3_next_shared_mlp(
    m: Qwen3NextLoraSharedExpert,
    x: Array,
    shape: Shape,
    hidden: i32,
)
    requires
        m.shaped(hidden),
        is_of(x, shape),
        shape.rank() >= 2,
        shape.inner() == hidden,
    ensures
        is_of(m.output(x), shape),
{
    broadcast use lemma_lora_shape;

    lemma_gated_shape(
        m.gate_proj.output(x),
        m.up_proj.output(x),
        shape.with_inner(m.gate_proj.out_features),
    );
}

impl Qwen3NextLoraSparseMoE {
    /// The extents of router, experts and shared expert go together.
    pub open spec fn shaped(self, hidden: i32) -> bool {
        let n = self.num_experts;
        let inner = self.switch_mlp_down_proj.shape.inner();
        &&& hidden >= 0 && inner >= 0
        &&& 0 < self.top_k <= n
        &&& self.gate.well_formed(hidden, n)
        &&& is_of(self.switch_mlp_gate_proj, Shape::D3(n, inner, hidden))
        &&& is_of(self.switch_mlp_up_proj, Shape::D3(n, inner, hidden))
        &&& is_of(self.switch_mlp_down_proj, Shape::D3(n, hidden, inner))
        &&& self.shared_expert_gate.well_formed(hidden, 1)
        &&& self.shared_expert.shaped(hidden)
    }
}

proof fn lemma_qwen3_next_picked(m: Qwen3NextLoraSparseMoE, rows: Array, n: i32, hidden: i32)
    requires
        m.shaped(hidden),
        is_of(rows, Shape::D2(n, hidden)),
    ensures
        is_of(m.picked(rows), Shape::D2(n, m.top_k)),
        is_of(m.weights(rows), Shape::D2(n, m.top_k)),
{
    broadcast use {lemma_linear_shape, lemma_apply_shape};

    reveal(kernel);
    reveal_with_fuel(args_fit, 4);
    let sorted = argsort(apply(Function::Negative, m.gates(rows)));
    assert(is_of(sorted, Shape::D2(n, m.num_experts)));
    assert(is_of(m.picked(rows), Shape::D2(n, m.top_k))) by {
        reveal(slice);
    }
    let w = take_along(m.gates(rows), m.picked(rows));
    assert(is_of(w, Shape::D2(n, m.top_k)));
    reveal(sum_axis);
    reveal(combine);
}

proof fn lemma_qwen3_next_routed(m: Qwen3NextLoraSparseMoE, rows: Array, n: i32, hidden: i32)
    requires
        m.shaped(hidden),
        n > 0,
        n * m.top_k <= i32::MAX,
        is_of(rows, Shape::D2(n, hidden)),
    ensures
        is_of(m.routed(rows), Shape::D2(n, hidden)),
{
    broadcast use lemma_apply_shape;

    let k = m.top_k;
    let inner = m.switch_mlp_down_proj.shape.inner();
    assert(0 < n * k) by (nonlinear_arith)
        requires
            n > 0,
            k > 0,
    ;
    let all = (n * k) as i32;
    lemma_qwen3_next_picked(m, rows, n, hidden);
    let ids = apply(Function::ToInt32, m.picked(rows));
    let gate = gather_matmul(rows, m.switch_mlp_gate_proj, ids);
    let up = gather_matmul(rows, m.switch_mlp_up_proj, ids);
    assert(is_of(gate, Shape::D3(n, k, inner)) && is_of(up, Shape::D3(n, k, inner))) by {
        reveal(kernel);
        reveal_with_fuel(args_fit, 5);
    }
    lemma_gated_shape(gate, up, Shape::D3(n, k, inner));
    lemma_rows_shape(gated(gate, up), n, k, inner);
    lemma_rows_shape_back(n, k, hidden);
    lemma_rows_shape_back(n, k, 1);
    lemma_row_counts(n, k);
    lemma_row_counts(all, 1);
    lemma_row_counts(n, hidden);
    let flat = reshape(ids, Shape::D2(all, 1));
    assert(is_of(flat, Shape::D2(all, 1))) by {
        reveal(reshape);
    }
    let wide = gather_matmul(rows_of(gated(gate, up)), m.switch_mlp_down_proj, flat);
    assert(is_of(wide, Shape::D3(all, 1, hidden))) by {
        reveal(kernel);
        reveal_with_fuel(args_fit, 5);
    }
    lemma_row_counts(all, hidden);
    let down = reshape(wide, Shape::D3(n, k, hidden));
    let w = reshape(m.weights(rows), Shape::D3(n, k, 1));
    assert(is_of(down, Shape::D3(n, k, hidden)) && is_of(w, Shape::D3(n, k, 1))) by {
        reveal(reshape);
    }
    let weighted = times(down, w);
    assert(is_of(weighted, Shape::D3(n, k, hidden))) by {
        reveal(combine);
    }
    assert(is_of(sum_axis(weighted, 1), Shape::D3(n, 1, hidden))) by {
        reveal(sum_axis);
    }
    reveal(reshape);
}

proof fn lemma_rows_shape_back(n: i32, k: i32, c: i32)
    requires
        n > 0,
        k > 0,
        n * k <= i32::MAX,
        c >= 0,
    ensures
        Shape::D3(n, k, c).countable(),
        Shape::D3(n, k, c).count() == Shape::D2((n * k) as i32, c).count(),
{
    lemma_row_counts((n * k) as i32, c);
    assert(0 < n * k) by (nonlinear_arith)
        requires
            n > 0,
            k > 0,
    ;
    assert(1 * 1 * n * k * c == (n * k) * c) by (nonlinear_arith);
    assert(Shape::D3(n, k, c).padded() == (1i32, 1i32, n, k, c));
}

proof fn lemma_qwen3_next_moe(m: Qwen3NextLoraSparseMoE, x: Array, b: i32, l: i32, hidden: i32)
    requires
        m.shaped(hidden),
        batch(b, l),
        b * l <= i32::MAX,
        b * l * m.top_k <= i32::MAX,
        is_of(x, Shape::D3(b, l, hidden)),
    ensures
        is_of(m.output(x), Shape::D3(b, l, hidden)),
{
    broadcast use {lemma_linear_shape, lemma_apply_shape};

    assert(0 < b * l) by (nonlinear_arith)
        requires
            b > 0,
            l > 0,
    ;
    let n = (b * l) as i32;
    lemma_rows_shape(x, b, l, hidden);
    let rows = rows_of(x);
    lemma_qwen3_next_routed(m, rows, n, hidden);
    lemma_qwen3_next_shared_mlp(m.shared_expert, rows, Shape::D2(n, hidden), hidden);
    let gate = apply(Function::Sigmoid, m.shared_expert_gate.output(rows));
    assert(is_of(gate, Shape::D2(n, 1)));
    assert(is_of(m.shared(rows), Shape::D2(n, hidden))) by {
        reveal(combine);
    }
    lemma_combine_same(Arithmetic::Add, m.routed(rows), m.shared(rows));
    reveal(reshape);
}

impl Qwen3NextLoraDecoderLayer {
    /// All parts have the extents of the given hidden states and heads, kernels and picks are no
    /// greater than given.
    pub open spec fn shaped(self, hidden: i32, heads: i32, kernel: i32, picks: i32) -> bool {
        &&& if self.is_linear {
            self.linear_attn matches Some(g) && g.shaped(hidden) && g.conv_kernel_size <= kernel
        } else {
            self.self_attn matches Some(a) && a.shaped(hidden) && a.n_heads == heads
        }
        &&& match self.mlp {
            Qwen3NextLoraFeedForward::Dense(m) => m.shaped(hidden),
            Qwen3NextLoraFeedForward::MoE(m) => m.shaped(hidden) && m.top_k <= picks,
        }
        &&& self.input_layernorm.well_formed(hidden)
        &&& self.post_attention_layernorm.well_formed(hidden)
    }
}

impl Qwen3NextLoraForCausalLM {
    /// All parts have the extents of the given vocabulary, hidden states and heads.
    pub open spec fn shaped(
        self,
        vocab: i32,
        hidden: i32,
        heads: i32,
        kernel: i32,
        picks: i32,
    ) -> bool {
        &&& self.model.embed_tokens.well_formed(vocab, hidden)
        &&& self.model.norm.well_formed(hidden)
        &&& self.lm_head matches Some(h) ==> h.well_formed(hidden, vocab)
        &&& forall|i: int|
            0 <= i < self.model.layers@.len() ==> (#[trigger] self.model.layers@[i]).shaped(
                hidden,
                heads,
                kernel,
                picks,
            )
    }
}

proof fn lemma_qwen3_next_layer(
    layer: Qwen3NextLoraDecoderLayer,
    x: Array,
    mask: Option<Array>,
    training: bool,
    b: i32,
    l: i32,
    hidden: i32,
    heads: i32,
    kernel: i32,
    picks: i32,
)
    requires
        layer.shaped(hidden, heads, kernel, picks),
        batch(b, l),
        l + kernel <= i32::MAX,
        b * l <= i32::MAX,
        b * l * picks <= i32::MAX,
        is_of(x, Shape::D3(b, l, hidden)),
        mask_covers(mask, b, heads, l),
    ensures
        is_of(
            layer.output(x, qwen3_next_layer_mask(layer, mask), None, training),
            Shape::D3(b, l, hidden),
        ),
{
    broadcast use {lemma_combine_same, lemma_rms_norm_fits};

    let normed = layer.input_layernorm.output(x);
    let mixed = if layer.is_linear {
        lemma_qwen3_next_gdn(layer.linear_attn->0, normed, None, b, l, hidden);
        layer.linear_attn->0.output(normed, None, None)
    } else {
        lemma_qwen3_next_attention(layer.self_attn->0, normed, mask, training, b, l, hidden);
        layer.self_attn->0.output(normed, mask, training)
    };
    let h = plus(x, mixed);
    let normed2 = layer.post_attention_layernorm.output(h);
    match layer.mlp {
        Qwen3NextLoraFeedForward::Dense(m) => {
            lemma_qwen3_next_mlp(m, normed2, Shape::D3(b, l, hidden), hidden);
        },
        Qwen3NextLoraFeedForward::MoE(m) => {
            assert(b * l * m.top_k <= b * l * picks) by (nonlinear_arith)
                requires
                    b > 0,
                    l > 0,
                    m.top_k <= picks,
            ;
            lemma_qwen3_next_moe(m, normed2, b, l, hidden);
        },
    }
}

proof fn lemma_qwen3_next_stack(
    layers: Seq<Qwen3NextLoraDecoderLayer>,
    n: nat,
    x: Array,
    mask: Option<Array>,
    training: bool,
    b: i32,
    l: i32,
    hidden: i32,
    heads: i32,
    kernel: i32,
    picks: i32,
)
    requires
        n <= layers.len(),
        forall|i: int|
            0 <= i < layers.len() ==> (#[trigger] layers[i]).shaped(hidden, heads, kernel, picks),
        batch(b, l),
        l + kernel <= i32::MAX,
        b * l <= i32::MAX,
        b * l * picks <= i32::MAX,
        is_of(x, Shape::D3(b, l, hidden)),
        mask_covers(mask, b, heads, l),
    ensures
        is_of(qwen3_next_stack(layers, n, x, mask, training), Shape::D3(b, l, hidden)),
    decreases n,
{
    if n > 0 {
        lemma_qwen3_next_stack(
            layers,
            (n - 1) as nat,
            x,
            mask,
            training,
            b,
            l,
            hidden,
            heads,
            kernel,
            picks,
        );
        lemma_qwen3_next_layer(
            layers[n - 1],
            qwen3_next_stack(layers, (n - 1) as nat, x, mask, training),
            mask,
            training,
            b,
            l,
            hidden,
            heads,
            kernel,
            picks,
        );
    }
}

/// Token indices `[b, l]` give logits `[b, l, vocab]`: nothing in a model of fitting extents is
/// refused.
pub proof fn law_qwen3_next_forward_shape(
    m: Qwen3NextLoraForCausalLM,
    ids: Array,
    mask: Option<Array>,
    training: bool,
    b: i32,
    l: i32,
    vocab: i32,
    hidden: i32,
    heads: i32,
    kernel: i32,
    picks: i32,
)
    requires
        m.shaped(vocab, hidden, heads, kernel, picks),
        batch(b, l),
        l + kernel <= i32::MAX,
        b * l <= i32::MAX,
        b * l * picks <= i32::MAX,
        is_of(ids, Shape::D2(b, l)),
        mask_covers(mask, b, heads, l),
    ensures
        is_of(m.output(ids, mask, training), Shape::D3(b, l, vocab)),
{
    broadcast use lemma_rms_norm_fits;

    lemma_embed_shape(m.model.embed_tokens, ids, b, l, vocab, hidden);
    let x = m.model.embed_tokens.output(ids);
    let layers = m.model.layers@;
    lemma_qwen3_next_stack(
        layers,
        layers.len(),
        x,
        mask,
        training,
        b,
        l,
        hidden,
        heads,
        kernel,
        picks,
    );
    let h = m.model.output(ids, mask, training);
    lemma_logits_shape(m.lm_head, m.model.embed_tokens, h, b, l, vocab, hidden);
}

/// A fresh layer has fitting extents, where the heads of the settings group evenly and no more
/// experts are picked than there are.
pub proof fn law_qwen3_next_fresh_shaped(
    config: Qwen3NextConfig,
    lora: LoraConfig,
    i: int,
    id: usize,
)
    requires
        config.valid(),
        config.layer_buildable(i),
        lora.valid(),
        !config.linear(i) ==> grouped(
            config.num_attention_heads,
            config.kv_heads(),
            config.head_size(),
        ),
        config.linear(i) ==> {
            &&& config.linear_num_key_heads > 0 && config.linear_key_head_dim >= 0
            &&& config.linear_num_value_heads % config.linear_num_key_heads == 0
            &&& config.conv_dim() > 0 && config.linear_conv_kernel_dim >= 1
        },
        config.sparse(i) ==> 0 < config.num_experts_per_tok <= config.num_experts,
    ensures
        Qwen3NextLoraDecoderLayer::fresh(config, lora, i, id).shaped(
            config.hidden_size,
            config.num_attention_heads,
            config.linear_conv_kernel_dim,
            config.num_experts_per_tok,
        ),
{
    broadcast use lemma_apply_shape;

    if config.linear(i) {
        assert(config.linear_key_head_dim * config.linear_num_key_heads
            == config.linear_num_key_heads * config.linear_key_head_dim) by (nonlinear_arith);
        assert(config.linear_value_head_dim * config.linear_num_value_heads
            == config.linear_num_value_heads * config.linear_value_head_dim) by (nonlinear_arith);
    } else {
        let n = config.num_attention_heads;
        let d = config.head_size();
        lemma_kv_width(n, config.kv_heads(), d);
        assert(n * (d * 2) == n * d * 2) by (nonlinear_arith);
    }
}

/// What a layer keeps of the past has the extents of the layer, where there is anything.
pub open spec fn state_fits(g: Qwen3NextLoraGDN, state: MambaCacheEntry, b: i32) -> bool {
    &&& state.conv_state matches Some(c) ==> is_of(
        c,
        Shape::D3(b, (g.conv_kernel_size - 1) as i32, g.conv_dim),
    )
    &&& state.ssm_state matches Some(s) ==> is_of(
        s,
        Shape::D4(b, g.num_v_heads, g.head_v_dim, g.head_k_dim),
    )
}

/// Step by step over a state: an input `[b, l, hidden]` gives an output of the same shape, and
/// what is kept behind it is there and has the extents of the layer again. An empty state has
/// them.
pub proof fn law_gdn_steps(
    g: Qwen3NextLoraGDN,
    x: Array,
    state: MambaCacheEntry,
    b: i32,
    l: i32,
    hidden: i32,
)
    requires
        g.shaped(hidden),
        batch(b, l),
        l + g.conv_kernel_size <= i32::MAX,
        is_of(x, Shape::D3(b, l, hidden)),
        state_fits(g, state, b),
    ensures
        is_of(g.output(x, None, Some(state)), Shape::D3(b, l, hidden)),
        state_fits(g, g.after(x, None, state), b),
        g.after(x, None, state).conv_state is Some,
        g.after(x, None, state).ssm_state is Some,
        state_fits(g, MambaCacheEntry::empty(), b),
{
    broadcast use {lemma_lora_shape, lemma_linear_shape};

    lemma_qwen3_next_gdn(g, x, Some(state), b, l, hidden);
    lemma_conv_shape(g, x, Some(state), b, l, hidden);
    lemma_heads_shape(g.in_proj_z.output(x), b, l, g.num_v_heads, g.head_v_dim);
    reveal(slice);
}

} // verus!
