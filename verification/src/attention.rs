//! The steps that attention layers share.

use crate::array::{
    Array, Function, Source, apply, broadcast_to, extent, extent_at, matmul, plus, reshape,
    reshape_rest, slice, source, swap_inner, swap_middle, times,
};
use crate::scalar::Scale;
use crate::shape::Shape;
use vstd::prelude::*;

verus! {

/// The array behind an optional reference.
pub open spec fn given(mask: Option<&Array>) -> Option<Array> {
    match mask {
        Some(m) => Some(*m),
        None => None,
    }
}

/// Where a cut at `n` falls on an axis: at its end where it is shorter, counted from its end where
/// `n` is negative.
pub open spec fn cut(n: i32, extent: i32) -> i32 {
    if extent < 0 {
        0
    } else if n >= extent {
        extent
    } else if n >= 0 {
        n
    } else if n + extent >= 0 {
        (n + extent) as i32
    } else {
        0
    }
}

/// The part before the cut along the innermost axis.
pub open spec fn first_part(x: Array, n: i32) -> Array {
    slice(x, 0, 0, cut(n, x.shape.inner()))
}

/// The part behind the cut along the innermost axis.
pub open spec fn last_part(x: Array, n: i32) -> Array {
    slice(x, 0, cut(n, x.shape.inner()), x.shape.inner())
}

/// The part between two cuts along the innermost axis.
pub open spec fn middle_part(x: Array, m: i32, n: i32) -> Array {
    slice(x, 0, cut(m, x.shape.inner()), cut(n, x.shape.inner()))
}

/// How many axes the third axis is from the innermost.
pub open spec fn third_depth(x: Array) -> u8 {
    (x.shape.rank() - 3) as u8
}

/// The part before the cut along the third axis.
pub open spec fn third_first(x: Array, n: i32) -> Array {
    if x.shape.rank() < 3 {
        unfit(x)
    } else {
        let d = third_depth(x);
        slice(x, d, 0, cut(n, extent_at(x.shape, d)))
    }
}

/// The part behind the cut along the third axis.
pub open spec fn third_last(x: Array, n: i32) -> Array {
    if x.shape.rank() < 3 {
        unfit(x)
    } else {
        let d = third_depth(x);
        slice(x, d, cut(n, extent_at(x.shape, d)), extent_at(x.shape, d))
    }
}

pub(crate) fn find_cut(n: i32, extent: i32) -> (r: i32)
    ensures
        r == cut(n, extent),
{
    if extent < 0 {
        0
    } else if n >= extent {
        extent
    } else if n >= 0 {
        n
    } else if n + extent >= 0 {
        n + extent
    } else {
        0
    }
}

pub(crate) fn make_first_part(x: &Array, n: i32) -> (r: Array)
    ensures
        r == first_part(*x, n),
{
    x.slice(0, 0, find_cut(n, x.shape.pad().4))
}

pub(crate) fn make_last_part(x: &Array, n: i32) -> (r: Array)
    ensures
        r == last_part(*x, n),
{
    let end = x.shape.pad().4;
    x.slice(0, find_cut(n, end), end)
}

pub(crate) fn make_middle_part(x: &Array, m: i32, n: i32) -> (r: Array)
    ensures
        r == middle_part(*x, m, n),
{
    let end = x.shape.pad().4;
    x.slice(0, find_cut(m, end), find_cut(n, end))
}

pub(crate) fn make_third_first(x: &Array, n: i32) -> (r: Array)
    ensures
        r == third_first(*x, n),
{
    let rank = x.shape.num_axes();
    if rank < 3 {
        return make_unfit(x);
    }
    let depth: u8 = (rank - 3) as u8;
    x.slice(depth, 0, find_cut(n, extent(&x.shape, depth)))
}

pub(crate) fn make_third_last(x: &Array, n: i32) -> (r: Array)
    ensures
        r == third_last(*x, n),
{
    let rank = x.shape.num_axes();
    if rank < 3 {
        return make_unfit(x);
    }
    let depth: u8 = (rank - 3) as u8;
    let end = extent(&x.shape, depth);
    x.slice(depth, find_cut(n, end), end)
}

/// `[batch, length, heads * features]` as `[batch, heads, length, features]`.
pub open spec fn split_heads(
    x: Array,
    batch: i32,
    length: i32,
    heads: i32,
    features: i32,
) -> Array {
    swap_middle(reshape(x, Shape::D4(batch, length, heads, features)))
}

/// `[batch, heads, length, features]` as `[batch, length, rest]`.
pub open spec fn merge_heads(x: Array, batch: i32, length: i32) -> Array {
    reshape_rest(swap_middle(x), batch, length)
}

/// `[batch, heads, length, features]` as `[batch, length, width]`.
pub open spec fn merge_heads_to(x: Array, batch: i32, length: i32, width: i32) -> Array {
    reshape(swap_middle(x), Shape::D3(batch, length, width))
}

/// An array whose operands do not fit.
pub open spec fn unfit(x: Array) -> Array {
    Array { fits: false, ..x }
}

/// The rows of an array, whatever axes they are spread over: `[rows, features]`.
pub open spec fn rows_of(x: Array) -> Array {
    let s = x.shape.with_inner(1);
    if s.countable() && s.count() <= i32::MAX {
        reshape(x, Shape::D2(s.count() as i32, x.shape.inner()))
    } else {
        unfit(x)
    }
}

pub(crate) fn make_rows_of(x: &Array) -> (r: Array)
    ensures
        r == rows_of(*x),
{
    match x.shape.replace_inner(1).num_elements() {
        Some(n) => if n <= i32::MAX as u64 {
            x.reshape(Shape::D2(n as i32, x.shape.pad().4))
        } else {
            make_unfit(x)
        },
        None => make_unfit(x),
    }
}

/// Every key or value head repeated for the query heads that share it.
pub open spec fn repeat_heads(x: Array, repeats: i32) -> Array {
    match x.shape {
        Shape::D4(b, h, l, d) => {
            let wide = h * repeats;
            if i32::MIN <= wide <= i32::MAX {
                reshape(
                    broadcast_to(
                        reshape(x, Shape::D5(b, h, 1, l, d)),
                        Shape::D5(b, h, repeats, l, d),
                    ),
                    Shape::D4(b, wide as i32, l, d),
                )
            } else {
                unfit(x)
            }
        },
        _ => unfit(x),
    }
}

/// Key or value heads as many as query heads.
pub open spec fn match_heads(x: Array, n_heads: i32, n_kv_heads: i32) -> Array {
    if n_kv_heads < n_heads {
        repeat_heads(x, (n_heads / n_kv_heads) as i32)
    } else {
        x
    }
}

/// The sum, where there is a mask to add.
pub open spec fn masked(scores: Array, mask: Option<Array>) -> Array {
    match mask {
        Some(m) => plus(scores, m),
        None => scores,
    }
}

/// `softmax(scale * q @ k.T + mask) @ v`.
pub open spec fn plain_attention(
    q: Array,
    k: Array,
    v: Array,
    scale: Scale,
    mask: Option<Array>,
) -> Array {
    matmul(
        apply(
            Function::Softmax,
            masked(apply(Function::Scaled(scale), matmul(q, swap_inner(k))), mask),
        ),
        v,
    )
}

/// The mask under which a query sees no later key.
pub open spec fn causal_mask(n: i32) -> Array {
    source(Source::CausalMask, Shape::D2(n, n))
}

/// The given mask; without one, the causal mask over the length of the input.
pub open spec fn mask_or_causal(mask: Option<Array>, ids: Array) -> Option<Array> {
    match mask {
        Some(m) => Some(m),
        None => Some(causal_mask(ids.shape.second())),
    }
}

/// `silu(gate) * up` of the two projected inputs.
pub open spec fn gated(gate: Array, up: Array) -> Array {
    times(apply(Function::Silu, gate), up)
}

pub(crate) fn make_split_heads(
    x: &Array,
    batch: i32,
    length: i32,
    heads: i32,
    features: i32,
) -> (r: Array)
    ensures
        r == split_heads(*x, batch, length, heads, features),
{
    x.reshape(Shape::D4(batch, length, heads, features)).swap_middle()
}

pub(crate) fn make_merge_heads(x: &Array, batch: i32, length: i32) -> (r: Array)
    ensures
        r == merge_heads(*x, batch, length),
{
    x.swap_middle().reshape_rest(batch, length)
}

pub(crate) fn make_merge_heads_to(x: &Array, batch: i32, length: i32, width: i32) -> (r: Array)
    ensures
        r == merge_heads_to(*x, batch, length, width),
{
    x.swap_middle().reshape(Shape::D3(batch, length, width))
}

pub(crate) fn make_unfit(x: &Array) -> (r: Array)
    ensures
        r == unfit(*x),
{
    let mut r = x.clone();
    r.fits = false;
    r
}

fn make_repeat_heads(x: &Array, repeats: i32) -> (r: Array)
    ensures
        r == repeat_heads(*x, repeats),
{
    match x.shape {
        Shape::D4(b, h, l, d) => match h.checked_mul(repeats) {
            Some(wide) => x.reshape(Shape::D5(b, h, 1, l, d)).broadcast_to(
                Shape::D5(b, h, repeats, l, d),
            ).reshape(Shape::D4(b, wide, l, d)),
            None => make_unfit(x),
        },
        _ => make_unfit(x),
    }
}

/// Key or value heads as many as query heads.
pub(crate) fn make_match_heads(x: &Array, n_heads: i32, n_kv_heads: i32) -> (r: Array)
    requires
        n_kv_heads > 0,
    ensures
        r == match_heads(*x, n_heads, n_kv_heads),
{
    if n_kv_heads < n_heads {
        make_repeat_heads(x, n_heads / n_kv_heads)
    } else {
        x.clone()
    }
}

pub(crate) fn make_plain_attention(
    q: &Array,
    k: &Array,
    v: &Array,
    scale: Scale,
    mask: Option<&Array>,
) -> (r: Array)
    ensures
        r == plain_attention(*q, *k, *v, scale, given(mask)),
{
    let scores = q.matmul(&k.swap_inner()).apply(Function::Scaled(scale));
    let scores = match mask {
        Some(m) => scores.add(m),
        None => scores,
    };
    scores.apply(Function::Softmax).matmul(v)
}

/// The mask under which a query sees no later key.
pub fn create_causal_mask(n: i32) -> (r: Array)
    ensures
        r == causal_mask(n),
{
    Array::from_source(Source::CausalMask, Shape::D2(n, n))
}

pub(crate) fn make_gated(gate: &Array, up: &Array) -> (r: Array)
    ensures
        r == gated(*gate, *up),
{
    gate.apply(Function::Silu).multiply(up)
}

} // verus!
