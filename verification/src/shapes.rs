//! Which shapes come out, where fitting shapes go in.

use crate::array::{
    Arithmetic, Array, Function, FusedAttentionConfig, RopeConfig, apply, attend, broadcast_to,
    combine, concat, dequantize, embed, flash_attend, mask_fits, matmul, plus, reshape,
    reshape_rest, rms_norm, rope, rope_at, slice, sum_axis, swap_inner, swap_middle, transpose,
};
use crate::attention::{
    causal_mask, first_part, gated, last_part, match_heads, merge_heads, merge_heads_to,
    plain_attention, split_heads, third_first, third_last,
};
use crate::dora::{LinearAdapter, row_norms};
use crate::kv_cache::{KVCacheConfig, KVCacheState};
use crate::lora::{LoraLinear, adapted, biased, dense, initial_bias, low_rank};
use crate::nn::{Embedding, Linear, logits};
use crate::qlora::{QLoraConfig, QLoraLinear};
use crate::scalar::{F32, Scale};
use crate::shape::Shape;
use vstd::prelude::*;

verus! {

/// The array is made of fitting operands and has the shape.
pub open spec fn is_of(x: Array, shape: Shape) -> bool {
    x.fits && x.shape == shape
}

/// A batch of sequences: none empty, and no more steps in all than a machine can number.
pub open spec fn batch(b: i32, l: i32) -> bool {
    b > 0 && l > 0 && b * l <= u32::MAX
}

/// Where there is a mask, it can be added to the scores of all heads.
pub open spec fn mask_covers(mask: Option<Array>, b: i32, heads: i32, l: i32) -> bool {
    mask matches Some(m) ==> m.fits && Shape::D4(b, heads, l, l).broadcast_with(m.shape) == Some(
        Shape::D4(b, heads, l, l),
    )
}

/// Heads of queries in equal groups, one to each head of keys.
pub open spec fn grouped(heads: i32, kv_heads: i32, features: i32) -> bool {
    &&& kv_heads > 0 && heads >= kv_heads && heads % kv_heads == 0
    &&& features >= 0
    &&& heads * features <= i32::MAX
}

pub broadcast proof fn lemma_apply_shape(f: Function, x: Array)
    ensures
        (#[trigger] apply(f, x)).shape == x.shape,
        apply(f, x).fits == x.fits,
{
    reveal(apply);
}

pub broadcast proof fn lemma_transpose_shape(x: Array)
    ensures
        (#[trigger] transpose(x)).shape == x.shape.reversed(),
        transpose(x).fits == x.fits,
{
    reveal(transpose);
}

pub broadcast proof fn lemma_swap_middle_shape(x: Array)
    requires
        x.shape is D4,
    ensures
        (#[trigger] swap_middle(x)).fits == x.fits,
        x.shape matches Shape::D4(a, b, c, d) ==> swap_middle(x).shape == Shape::D4(a, c, b, d),
{
    reveal(swap_middle);
}

/// Arrays of one shape combine to that shape.
pub broadcast proof fn lemma_combine_same(f: Arithmetic, a: Array, b: Array)
    requires
        a.shape == b.shape,
    ensures
        (#[trigger] combine(f, a, b)).shape == a.shape,
        combine(f, a, b).fits == (a.fits && b.fits),
{
    reveal(combine);
}

pub broadcast proof fn lemma_rms_norm_fits(x: Array, weight: Array, eps: F32)
    ensures
        (#[trigger] rms_norm(x, weight, eps)).shape == x.shape,
        x.fits && x.shape.rank() >= 1 && is_of(weight, Shape::D1(x.shape.inner())) ==> rms_norm(
            x,
            weight,
            eps,
        ).fits,
{
    reveal(rms_norm);
}

pub broadcast proof fn lemma_rope_shape(x: Array, config: RopeConfig, offset: i32)
    ensures
        (#[trigger] rope(x, config, offset)).shape == x.shape,
        rope(x, config, offset).fits == (x.fits && x.shape.rank() >= 3),
{
    reveal(rope);
}

pub broadcast proof fn lemma_rope_at_shape(x: Array, config: RopeConfig, positions: Array)
    ensures
        (#[trigger] rope_at(x, config, positions)).shape == x.shape,
        rope_at(x, config, positions).fits == (x.fits && positions.fits && x.shape.rank() >= 3),
{
    reveal(rope_at);
}

/// A matrix from `i` to `o` features maps the innermost axis.
pub broadcast proof fn lemma_dense_shape(x: Array, weight: Array)
    requires
        x.shape.rank() >= 1,
        weight.shape matches Shape::D2(o, i) && x.shape.inner() == i,
    ensures
        (#[trigger] dense(x, weight)).shape == x.shape.with_inner(weight.shape.outer()),
        dense(x, weight).fits == (x.fits && weight.fits),
{
    reveal(matmul);
    lemma_transpose_shape(weight);
}

/// A bias along the innermost axis keeps the shape.
pub proof fn lemma_biased_shape(y: Array, bias: Option<Array>)
    requires
        y.fits,
        y.shape.rank() >= 1,
        bias matches Some(b) ==> is_of(b, Shape::D1(y.shape.inner())),
    ensures
        is_of(biased(y, bias), y.shape),
{
    reveal(combine);
}

/// An adapted layer maps the innermost axis.
pub proof fn lemma_adapted_shape(
    x: Array,
    weight: Array,
    a: Array,
    b: Array,
    scale: Scale,
    bias: Option<Array>,
    i: i32,
    r: i32,
    o: i32,
)
    requires
        x.fits,
        x.shape.rank() >= 1,
        x.shape.inner() == i,
        is_of(weight, Shape::D2(o, i)),
        is_of(a, Shape::D2(r, i)),
        is_of(b, Shape::D2(o, r)),
        bias matches Some(c) ==> is_of(c, Shape::D1(o)),
    ensures
        is_of(adapted(x, weight, a, b, scale, bias), x.shape.with_inner(o)),
{
    lemma_dense_shape(x, weight);
    lemma_dense_shape(x, a);
    lemma_dense_shape(dense(x, a), b);
    lemma_apply_shape(Function::Scaled(scale), dense(dense(x, a), b));
    lemma_combine_same(Arithmetic::Add, dense(x, weight), low_rank(x, a, b, scale));
    lemma_biased_shape(plus(dense(x, weight), low_rank(x, a, b, scale)), bias);
}

/// A layer of fitting extents maps the innermost axis.
pub broadcast proof fn lemma_lora_shape(l: LoraLinear, x: Array)
    requires
        l.well_formed(),
        x.fits,
        x.shape.rank() >= 1,
        x.shape.inner() == l.in_features,
    ensures
        is_of(#[trigger] l.output(x), x.shape.with_inner(l.out_features)),
{
    if l.merged {
        lemma_dense_shape(x, l.weight);
        lemma_biased_shape(dense(x, l.weight), l.bias);
    } else {
        lemma_adapted_shape(
            x,
            l.weight,
            l.lora_a,
            l.lora_b,
            l.scale,
            l.bias,
            l.in_features,
            l.rank,
            l.out_features,
        );
    }
}

impl QLoraLinear {
    /// The extents are those of the arrays, and these in particular.
    pub open spec fn maps(self, inputs: i32, outputs: i32) -> bool {
        &&& self.in_features == inputs && self.out_features == outputs
        &&& inputs >= 0 && outputs >= 0 && self.rank >= 0
        &&& is_of(self.weight(), Shape::D2(outputs, inputs))
        &&& is_of(self.lora_a, Shape::D2(self.rank, inputs))
        &&& is_of(self.lora_b, Shape::D2(outputs, self.rank))
        &&& self.bias matches Some(c) ==> is_of(c, Shape::D1(outputs))
    }
}

/// A layer of fitting extents maps the innermost axis.
pub broadcast proof fn lemma_qlora_shape(l: QLoraLinear, x: Array)
    requires
        l.maps(l.in_features, l.out_features),
        x.fits,
        x.shape.rank() >= 1,
        x.shape.inner() == l.in_features,
    ensures
        is_of(#[trigger] l.output(x), x.shape.with_inner(l.out_features)),
{
    lemma_adapted_shape(
        x,
        l.weight(),
        l.lora_a,
        l.lora_b,
        l.scale,
        l.bias,
        l.in_features,
        l.rank,
        l.out_features,
    );
}

/// The quantized form of a matrix has its extents.
pub proof fn lemma_quantized_maps(
    weight: Array,
    bias: Option<Array>,
    config: QLoraConfig,
    i: i32,
    o: i32,
)
    requires
        config.lora.valid(),
        is_of(weight, Shape::D2(o, i)),
        i >= 0,
        o >= 0,
        bias matches Some(c) ==> is_of(c, Shape::D1(o)),
    ensures
        QLoraLinear::on(weight, bias, config).maps(i, o),
{
    reveal(apply);
    reveal(dequantize);
}

/// A fresh layer has fitting extents.
pub proof fn lemma_fresh_qlora(i: i32, o: i32, config: QLoraConfig, bias: bool)
    requires
        config.lora.valid(),
        i >= 0,
        o >= 0,
    ensures
        QLoraLinear::fresh(i, o, config, bias).maps(i, o),
{
    lemma_quantized_maps(
        QLoraLinear::random_weight(i, o),
        initial_bias(o, bias),
        config,
        i,
        o,
    );
}

impl LinearAdapter {
    /// The extents are those of the arrays, and these in particular.
    pub open spec fn maps(self, inputs: i32, outputs: i32) -> bool {
        match self {
            LinearAdapter::Lora(l) => l.maps(inputs, outputs),
            LinearAdapter::Dora(l) => {
                &&& l.in_features == inputs && l.out_features == outputs
                &&& inputs >= 0 && outputs >= 0 && l.rank >= 0
                &&& is_of(l.weight, Shape::D2(outputs, inputs))
                &&& is_of(l.lora_a, Shape::D2(l.rank, inputs))
                &&& is_of(l.lora_b, Shape::D2(outputs, l.rank))
                &&& is_of(l.magnitude, Shape::D1(outputs))
                &&& l.bias matches Some(c) ==> is_of(c, Shape::D1(outputs))
            },
        }
    }
}

/// A layer of fitting extents maps the innermost axis.
pub proof fn lemma_adapter_shape(l: LinearAdapter, x: Array, i: i32, o: i32)
    requires
        l.maps(i, o),
        x.fits,
        x.shape.rank() >= 1,
        x.shape.inner() == i,
    ensures
        is_of(l.output(x), x.shape.with_inner(o)),
{
    match l {
        LinearAdapter::Lora(l) => {
            lemma_lora_shape(l, x);
        },
        LinearAdapter::Dora(l) => {
            reveal(matmul);
            reveal(apply);
            reveal(combine);
            reveal(reshape);
            reveal(sum_axis);
            assert(is_of(l.direction(), Shape::D2(o, i)));
            assert(is_of(row_norms(l.direction()), Shape::D2(o, 1)));
            assert(reshape(l.magnitude, Shape::D2(o, 1)).fits);
            assert(is_of(l.effective_weight(), Shape::D2(o, i)));
            lemma_dense_shape(x, l.effective_weight());
            lemma_biased_shape(dense(x, l.effective_weight()), l.bias);
        },
    }
}

proof fn lemma_column_count(n: i32)
    ensures
        Shape::D2(n, 1).count() == n,
        Shape::D1(n).count() == n,
{
    assert(1 * 1 * 1 * n * 1 == n) by (nonlinear_arith);
    assert(1 * 1 * 1 * 1 * n == n) by (nonlinear_arith);
    assert(Shape::D2(n, 1).padded() == (1i32, 1i32, 1i32, n, 1i32));
    assert(Shape::D1(n).padded() == (1i32, 1i32, 1i32, 1i32, n));
}

/// A fresh layer has fitting extents.
pub proof fn lemma_fresh_adapter(
    i: i32,
    o: i32,
    rank: i32,
    alpha: F32,
    rs: bool,
    bias: bool,
    dora: bool,
)
    requires
        i >= 0,
        o >= 0,
        rank >= 0,
    ensures
        LinearAdapter::fresh(i, o, rank, alpha, rs, bias, dora).maps(i, o),
{
    reveal(apply);
    reveal(reshape);
    reveal(sum_axis);
    let l = LoraLinear::fresh(i, o, rank, alpha, rs, bias);
    assert(l.well_formed());
    let norms = row_norms(l.weight);
    assert(is_of(norms, Shape::D2(o, 1)));
    lemma_column_count(o);
    assert(is_of(reshape(norms, Shape::D1(o)), Shape::D1(o)));
}

/// Some of the features rotated, the others as they are: the shape stays.
pub proof fn lemma_partly_rotated(x: Array, n: i32, config: RopeConfig, offset: i32)
    requires
        x.fits,
        x.shape is D4,
        x.shape.inner() >= 0,
    ensures
        is_of(concat(rope(first_part(x, n), config, offset), last_part(x, n), 0), x.shape),
{
    reveal(slice);
    reveal(rope);
    reveal(concat);
}

/// The two halves of the innermost of three axes.
pub proof fn lemma_halves(x: Array, b: i32, l: i32, n: i32)
    requires
        n >= 0,
        2 * n <= i32::MAX,
        is_of(x, Shape::D3(b, l, (2 * n) as i32)),
    ensures
        is_of(third_first(x, n), Shape::D3(b, l, n)),
        is_of(third_last(x, n), Shape::D3(b, l, n)),
{
    reveal(slice);
}

pub broadcast proof fn lemma_linear_shape(l: Linear, x: Array)
    requires
        l.weight.shape is D2,
        l.well_formed(x.shape.inner(), l.weight.shape.outer()),
        x.fits,
        x.shape.rank() >= 2,
    ensures
        is_of(#[trigger] l.output(x), x.shape.with_inner(l.weight.shape.outer())),
{
    lemma_dense_shape(x, l.weight);
    lemma_biased_shape(dense(x, l.weight), l.bias);
}

/// Indices `[b, l]` give features `[b, l, n]`.
pub proof fn lemma_embed_shape(e: Embedding, ids: Array, b: i32, l: i32, tokens: i32, n: i32)
    requires
        e.well_formed(tokens, n),
        is_of(ids, Shape::D2(b, l)),
    ensures
        is_of(e.output(ids), Shape::D3(b, l, n)),
{
    reveal(embed);
}

/// Hidden states `[b, l, n]` give logits `[b, l, tokens]`.
pub proof fn lemma_logits_shape(
    head: Option<Linear>,
    table: Embedding,
    hidden: Array,
    b: i32,
    l: i32,
    tokens: i32,
    n: i32,
)
    requires
        table.well_formed(tokens, n),
        head matches Some(h) ==> h.well_formed(n, tokens),
        is_of(hidden, Shape::D3(b, l, n)),
    ensures
        is_of(logits(head, table, hidden), Shape::D3(b, l, tokens)),
{
    match head {
        Some(h) => {
            lemma_linear_shape(h, hidden);
        },
        None => {
            lemma_dense_shape(hidden, table.weight);
        },
    }
}

/// Features of all heads count alike, however they are split.
pub proof fn lemma_counts(b: int, l: int, h: int, d: int)
    requires
        0 < b,
        0 < l,
        b * l <= u32::MAX,
        0 <= h,
        0 <= d,
        h * d <= i32::MAX,
    ensures
        b * l * (h * d) == b * l * h * d,
        b * h * l * d == b * l * h * d,
        0 <= b * l * h * d <= u64::MAX,
        0 < b * l,
        (b * l * h * d) % (b * l) == 0,
        (b * l * h * d) / (b * l) == h * d,
{
    let n = b * l;
    let w = h * d;
    assert(n * w == n * h * d) by (nonlinear_arith)
        requires
            w == h * d,
    ;
    assert(b * h * l * d == b * l * h * d) by (nonlinear_arith);
    assert(0 < n) by (nonlinear_arith)
        requires
            n == b * l,
            0 < b,
            0 < l,
    ;
    assert(0 <= w) by (nonlinear_arith)
        requires
            w == h * d,
            0 <= h,
            0 <= d,
    ;
    assert(0 <= n * w <= 0xffff_ffff * 0x7fff_ffff) by (nonlinear_arith)
        requires
            0 < n <= 0xffff_ffff,
            0 <= w <= 0x7fff_ffff,
    ;
    assert((n * w) % n == 0 && (n * w) / n == w) by {
        vstd::arithmetic::div_mod::lemma_mod_multiples_basic(w, n);
        vstd::arithmetic::div_mod::lemma_div_multiples_vanish(w, n);
        assert(w * n == n * w) by (nonlinear_arith);
    }
}

/// Features of all heads, split into heads: `[b, l, h * d]` gives `[b, l, h, d]`.
pub proof fn lemma_heads_shape(x: Array, b: i32, l: i32, h: i32, d: i32)
    requires
        batch(b, l),
        h >= 0,
        d >= 0,
        h * d <= i32::MAX,
        is_of(x, Shape::D3(b, l, (h * d) as i32)),
    ensures
        is_of(reshape(x, Shape::D4(b, l, h, d)), Shape::D4(b, l, h, d)),
{
    reveal(reshape);
    lemma_counts(b as int, l as int, h as int, d as int);
    assert(0 <= h * d) by (nonlinear_arith)
        requires
            h >= 0,
            d >= 0,
    ;
    assert(x.shape.count() == 1 * 1 * b * l * (h * d));
    assert(Shape::D4(b, l, h, d).count() == 1 * b * l * h * d);
}

/// Features of all heads, head by head: `[b, l, h * d]` gives `[b, h, l, d]`.
pub proof fn lemma_split_shape(x: Array, b: i32, l: i32, h: i32, d: i32)
    requires
        batch(b, l),
        h >= 0,
        d >= 0,
        h * d <= i32::MAX,
        is_of(x, Shape::D3(b, l, (h * d) as i32)),
    ensures
        is_of(split_heads(x, b, l, h, d), Shape::D4(b, h, l, d)),
{
    lemma_heads_shape(x, b, l, h, d);
    lemma_swap_middle_shape(reshape(x, Shape::D4(b, l, h, d)));
}

/// Heads side by side: `[b, h, l, d]` gives `[b, l, h * d]`.
pub proof fn lemma_merge_shape(x: Array, b: i32, l: i32, h: i32, d: i32)
    requires
        batch(b, l),
        h >= 0,
        d >= 0,
        h * d <= i32::MAX,
        is_of(x, Shape::D4(b, h, l, d)),
    ensures
        is_of(merge_heads(x, b, l), Shape::D3(b, l, (h * d) as i32)),
        is_of(
            merge_heads_to(x, b, l, (h * d) as i32),
            Shape::D3(b, l, (h * d) as i32),
        ),
{
    reveal(reshape);
    reveal(reshape_rest);
    lemma_swap_middle_shape(x);
    lemma_counts(b as int, l as int, h as int, d as int);
    assert(0 <= h * d) by (nonlinear_arith)
        requires
            h >= 0,
            d >= 0,
    ;
    let y = swap_middle(x);
    assert(y.shape == Shape::D4(b, l, h, d));
    assert(y.shape.count() == 1 * b * l * h * d);
    assert(Shape::D3(b, l, (h * d) as i32).count() == 1 * 1 * b * l * (h * d));
}

/// The width of all key heads is no more than that of all query heads.
pub proof fn lemma_kv_width(heads: i32, kv: i32, d: i32)
    requires
        grouped(heads, kv, d),
    ensures
        0 <= kv * d <= heads * d,
        0 <= heads * d,
{
    assert(0 <= kv * d <= heads * d) by (nonlinear_arith)
        requires
            0 < kv <= heads,
            d >= 0,
    ;
}

/// Key or value heads as many as query heads: `[b, kv, s, d]` gives `[b, h, s, d]`.
pub proof fn lemma_match_shape(x: Array, b: i32, s: i32, h: i32, kv: i32, d: i32)
    requires
        batch(b, s),
        grouped(h, kv, d),
        is_of(x, Shape::D4(b, kv, s, d)),
    ensures
        is_of(match_heads(x, h, kv), Shape::D4(b, h, s, d)),
{
    if kv < h {
        let rep = (h / kv) as i32;
        vstd::arithmetic::div_mod::lemma_fundamental_div_mod(h as int, kv as int);
        assert(kv * rep == h);
        assert(h / kv <= h) by (nonlinear_arith)
            requires
                h >= 0,
                kv > 0,
        ;
        assert(kv * d <= i32::MAX) by (nonlinear_arith)
            requires
                0 < kv < h,
                d >= 0,
                h * d <= i32::MAX,
        ;
        lemma_counts(b as int, s as int, kv as int, d as int);
        lemma_counts(b as int, s as int, h as int, d as int);
        reveal(reshape);
        reveal(broadcast_to);
        let five = reshape(x, Shape::D5(b, kv, 1, s, d));
        assert(five.fits) by {
            assert(x.shape.count() == 1 * b * kv * s * d);
            assert(five.shape.count() == b * kv * 1 * s * d);
        }
        let wide = broadcast_to(five, Shape::D5(b, kv, rep, s, d));
        assert(wide.fits);
        assert(wide.shape.count() == b * kv * rep * s * d);
        assert(b * kv * rep * s * d == b * h * s * d) by (nonlinear_arith)
            requires
                kv * rep == h,
        ;
        assert(Shape::D4(b, h, s, d).count() == 1 * b * h * s * d);
        assert(reshape(wide, Shape::D4(b, h, s, d)).fits);
    } else {
        assert(h == kv);
    }
}

/// Attention with the heads written out keeps the shape of the queries.
pub proof fn lemma_plain_shape(
    q: Array,
    k: Array,
    v: Array,
    scale: Scale,
    mask: Option<Array>,
    b: i32,
    h: i32,
    l: i32,
    d: i32,
)
    requires
        is_of(q, Shape::D4(b, h, l, d)),
        is_of(k, Shape::D4(b, h, l, d)),
        is_of(v, Shape::D4(b, h, l, d)),
        mask_covers(mask, b, h, l),
    ensures
        is_of(plain_attention(q, k, v, scale, mask), Shape::D4(b, h, l, d)),
{
    reveal(matmul);
    reveal(swap_inner);
    reveal(combine);
    reveal(apply);
}

/// So does attention to keys of another length, where nothing is masked.
pub proof fn lemma_cross_shape(
    q: Array,
    k: Array,
    v: Array,
    scale: Scale,
    b: i32,
    h: i32,
    l: i32,
    s: i32,
    d: i32,
)
    requires
        is_of(q, Shape::D4(b, h, l, d)),
        is_of(k, Shape::D4(b, h, s, d)),
        is_of(v, Shape::D4(b, h, s, d)),
    ensures
        is_of(plain_attention(q, k, v, scale, None), Shape::D4(b, h, l, d)),
{
    reveal(matmul);
    reveal(swap_inner);
    reveal(apply);
}

/// Fused attention keeps the shape of the queries.
pub proof fn lemma_attend_shape(
    q: Array,
    k: Array,
    v: Array,
    config: FusedAttentionConfig,
    mask: Option<Array>,
    b: i32,
    l: i32,
    s: i32,
)
    requires
        grouped(config.num_heads, config.num_kv_heads, config.head_dim),
        is_of(q, Shape::D4(b, config.num_heads, l, config.head_dim)),
        is_of(k, Shape::D4(b, config.num_kv_heads, s, config.head_dim)),
        is_of(v, Shape::D4(b, config.num_kv_heads, s, config.head_dim)),
        mask_fits(mask),
    ensures
        is_of(attend(q, k, v, config, mask), q.shape),
{
    reveal(attend);
}

/// Memory-saving attention keeps the shape of the queries.
pub proof fn lemma_flash_shape(
    layer: usize,
    q: Array,
    k: Array,
    v: Array,
    config: FusedAttentionConfig,
    b: i32,
    l: i32,
    s: i32,
)
    requires
        grouped(config.num_heads, config.num_kv_heads, config.head_dim),
        is_of(q, Shape::D4(b, config.num_heads, l, config.head_dim)),
        is_of(k, Shape::D4(b, config.num_kv_heads, s, config.head_dim)),
        is_of(v, Shape::D4(b, config.num_kv_heads, s, config.head_dim)),
    ensures
        is_of(flash_attend(layer, q, k, v, config), q.shape),
{
    reveal(flash_attend);
}

/// The causal mask can be added to the scores of all heads.
pub proof fn lemma_causal_covers(b: i32, heads: i32, l: i32)
    ensures
        mask_covers(Some(causal_mask(l)), b, heads, l),
{
}

/// A gate and values of one shape give that shape.
pub proof fn lemma_gated_shape(gate: Array, up: Array, shape: Shape)
    requires
        is_of(gate, shape),
        is_of(up, shape),
    ensures
        is_of(gated(gate, up), shape),
{
    lemma_apply_shape(Function::Silu, gate);
    lemma_combine_same(Arithmetic::Multiply, apply(Function::Silu, gate), up);
}

/// Layer `i` of the cache holds `s` steps of `kv` heads.
pub open spec fn layer_holds(cache: KVCacheState, i: int, b: i32, kv: i32, d: i32, s: int) -> bool {
    match cache.entries[i] {
        Some((k, v)) => {
            &&& 0 < s <= i32::MAX
            &&& is_of(k, Shape::D4(b, kv, s as i32, d))
            &&& is_of(v, Shape::D4(b, kv, s as i32, d))
        },
        None => s == 0,
    }
}

/// How many steps layer `j` holds in the middle of a pass that has come to layer `i`.
pub open spec fn steps_at(i: int, s: int, l: i32, j: int) -> int {
    if j < i {
        s + l
    } else {
        s
    }
}

/// A cache in the middle of a pass of `l` steps over `n` layers: those before layer `i` hold the
/// new steps behind `s` old ones, the others hold the old ones.
pub open spec fn cache_at(
    cache: KVCacheState,
    n: nat,
    i: int,
    b: i32,
    kv: i32,
    d: i32,
    s: int,
    l: i32,
) -> bool {
    &&& cache.entries.len() == n
    &&& cache.offset == (if i < n {
        s
    } else {
        s + l
    })
    &&& forall|j: int|
        0 <= j < n ==> #[trigger] layer_holds(
            cache,
            j,
            b,
            kv,
            d,
            steps_at(i, s, l, j),
        )
}

/// A cache whose layers all hold `s` steps.
pub open spec fn cache_holds(cache: KVCacheState, n: nat, b: i32, kv: i32, d: i32, s: int) -> bool {
    &&& cache.entries.len() == n
    &&& cache.offset == s
    &&& forall|j: int| 0 <= j < n ==> #[trigger] layer_holds(cache, j, b, kv, d, s)
}

/// An empty cache holds no steps.
pub proof fn law_fresh_cache_holds(config: KVCacheConfig, b: i32, kv: i32, d: i32)
    ensures
        cache_holds(KVCacheState::fresh(config), config.num_layers as nat, b, kv, d, 0),
{
}

/// New keys and values are accepted, and the cache goes on to the next layer.
pub proof fn lemma_cache_step(
    cache: KVCacheState,
    n: nat,
    i: int,
    b: i32,
    kv: i32,
    d: i32,
    s: int,
    l: i32,
    k: Array,
    v: Array,
)
    requires
        0 <= i < n,
        0 <= s,
        0 < l,
        s + l <= i32::MAX,
        cache_at(cache, n, i, b, kv, d, s, l),
        is_of(k, Shape::D4(b, kv, l, d)),
        is_of(v, Shape::D4(b, kv, l, d)),
    ensures
        cache.accepts(i, k, v),
        is_of(cache.joined(i, k, v).0, Shape::D4(b, kv, (s + l) as i32, d)),
        is_of(cache.joined(i, k, v).1, Shape::D4(b, kv, (s + l) as i32, d)),
        cache_at(cache.extended(i, k, v), n, i + 1, b, kv, d, s, l),
{
    reveal(concat);
    assert(layer_holds(cache, i, b, kv, d, steps_at(i, s, l, i)));
    let after = cache.extended(i, k, v);
    assert forall|j: int| 0 <= j < n implies #[trigger] layer_holds(
        after,
        j,
        b,
        kv,
        d,
        steps_at(i + 1, s, l, j),
    ) by {
        assert(layer_holds(cache, j, b, kv, d, steps_at(i, s, l, j)));
    }
}

} // verus!
