//! Operations that the runtime brings along, with the shapes that they give.

use crate::array::{Args, Array, Kernel, arg, kernel, make_arg};
use crate::attention::given;
use crate::shape::Shape;
use vstd::prelude::*;

verus! {

/// The places of the numbers of each row, the least first.
pub open spec fn argsort(x: Array) -> Array {
    kernel(Kernel::ArgSort, arg(Some(x), Args::Nil), x.shape, x.shape.rank() >= 1)
}

/// The numbers of each row at the places that the same row of `ids` names.
pub open spec fn take_along(x: Array, ids: Array) -> Array {
    kernel(
        Kernel::TakeAlong,
        arg(Some(x), arg(Some(ids), Args::Nil)),
        ids.shape,
        x.shape.rank() >= 1 && x.shape.with_inner(0) == ids.shape.with_inner(0),
    )
}

/// Each row times the transposes of the matrices of a stack that the row's indices name: rows
/// `[n, i]`, a stack `[e, o, i]` and indices `[n, k]` give `[n, k, o]`.
pub open spec fn gather_matmul(x: Array, w: Array, ids: Array) -> Array {
    let args = arg(Some(x), arg(Some(w), arg(Some(ids), Args::Nil)));
    match (x.shape, w.shape, ids.shape) {
        (Shape::D2(n, i), Shape::D3(_, o, wi), Shape::D2(m, k)) => kernel(
            Kernel::GatherMatmul,
            args,
            Shape::D3(n, k, o),
            n == m && i == wi,
        ),
        _ => kernel(Kernel::GatherMatmul, args, x.shape, false),
    }
}

/// The numbers where the condition holds, and zero elsewhere.
pub open spec fn keep_where(condition: Array, x: Array) -> Array {
    let args = arg(Some(condition), arg(Some(x), Args::Nil));
    match condition.shape.broadcast_with(x.shape) {
        Some(s) => kernel(Kernel::KeepWhere, args, s, true),
        None => kernel(Kernel::KeepWhere, args, x.shape, false),
    }
}

/// Convolution without padding along the second axis, each group of channels for itself:
/// `[b, t, c]` and a weight `[o, k, c / groups]` give `[b, t - k + 1, o]`.
pub open spec fn conv1d(x: Array, weight: Array, bias: Option<Array>, groups: i32) -> Array {
    let args = arg(Some(x), arg(Some(weight), arg(bias, Args::Nil)));
    match (x.shape, weight.shape) {
        (Shape::D3(b, t, c), Shape::D3(o, k, g)) => if 1 <= k <= t && groups > 0 && g * groups == c
            && o >= 0 && o % groups == 0 {
            kernel(Kernel::Conv1d { groups }, args, Shape::D3(b, (t - k + 1) as i32, o), true)
        } else {
            kernel(Kernel::Conv1d { groups }, args, x.shape, false)
        },
        _ => kernel(Kernel::Conv1d { groups }, args, x.shape, false),
    }
}

/// What a gated delta rule is given.
pub open spec fn delta_args(
    q: Array,
    k: Array,
    v: Array,
    a: Array,
    b: Array,
    a_log: Array,
    dt_bias: Array,
    state: Option<Array>,
    mask: Option<Array>,
) -> Args {
    arg(
        Some(q),
        arg(
            Some(k),
            arg(
                Some(v),
                arg(
                    Some(a),
                    arg(
                        Some(b),
                        arg(Some(a_log), arg(Some(dt_bias), arg(state, arg(mask, Args::Nil)))),
                    ),
                ),
            ),
        ),
    )
}

/// Queries and keys `[b, t, hk, dk]`, values `[b, t, hv, dv]` with `hv` a multiple of `hk`, and for
/// each value head a decay, a rate and their parameters.
pub open spec fn delta_fits(
    q: Shape,
    k: Shape,
    v: Shape,
    a: Shape,
    b: Shape,
    a_log: Shape,
    dt_bias: Shape,
) -> bool {
    match (q, v) {
        (Shape::D4(n, t, hk, _), Shape::D4(vn, vt, hv, _)) => {
            &&& k == q
            &&& vn == n && vt == t
            &&& hk > 0 && hv >= 0 && hv % hk == 0
            &&& a == Shape::D3(n, t, hv) && b == a
            &&& a_log == Shape::D1(hv) && dt_bias == Shape::D1(hv)
        },
        _ => false,
    }
}

/// The shape of the state: `[b, hv, dv, dk]`.
pub open spec fn delta_state_shape(q: Shape, v: Shape) -> Shape {
    match (q, v) {
        (Shape::D4(n, _, _, dk), Shape::D4(_, _, hv, dv)) => Shape::D4(n, hv, dv, dk),
        _ => v,
    }
}

/// A state that is given has the shape of the state.
pub open spec fn delta_state_fits(state: Option<Array>, q: Shape, v: Shape) -> bool {
    state matches Some(s) ==> s.shape == delta_state_shape(q, v)
}

/// The outputs of a gated delta rule.
pub open spec fn gated_delta(
    q: Array,
    k: Array,
    v: Array,
    a: Array,
    b: Array,
    a_log: Array,
    dt_bias: Array,
    state: Option<Array>,
    mask: Option<Array>,
    training: bool,
) -> Array {
    kernel(
        Kernel::GatedDelta { training },
        delta_args(q, k, v, a, b, a_log, dt_bias, state, mask),
        v.shape,
        delta_fits(q.shape, k.shape, v.shape, a.shape, b.shape, a_log.shape, dt_bias.shape)
            && delta_state_fits(state, q.shape, v.shape),
    )
}

/// The state behind a gated delta rule.
pub open spec fn gated_delta_state(
    q: Array,
    k: Array,
    v: Array,
    a: Array,
    b: Array,
    a_log: Array,
    dt_bias: Array,
    state: Option<Array>,
    mask: Option<Array>,
    training: bool,
) -> Array {
    kernel(
        Kernel::GatedDeltaState { training },
        delta_args(q, k, v, a, b, a_log, dt_bias, state, mask),
        delta_state_shape(q.shape, v.shape),
        delta_fits(q.shape, k.shape, v.shape, a.shape, b.shape, a_log.shape, dt_bias.shape)
            && delta_state_fits(state, q.shape, v.shape),
    )
}

pub(crate) fn make_argsort(x: &Array) -> (r: Array)
    ensures
        r == argsort(*x),
{
    let fits = x.shape.num_axes() >= 1;
    Array::kernel(Kernel::ArgSort, make_arg(Some(x), Args::Nil), x.shape, fits)
}

pub(crate) fn make_take_along(x: &Array, ids: &Array) -> (r: Array)
    ensures
        r == take_along(*x, *ids),
{
    let fits = x.shape.num_axes() >= 1 && x.shape.replace_inner(0) == ids.shape.replace_inner(0);
    let args = make_arg(Some(x), make_arg(Some(ids), Args::Nil));
    Array::kernel(Kernel::TakeAlong, args, ids.shape, fits)
}

pub(crate) fn make_gather_matmul(x: &Array, w: &Array, ids: &Array) -> (r: Array)
    ensures
        r == gather_matmul(*x, *w, *ids),
{
    let args = make_arg(Some(x), make_arg(Some(w), make_arg(Some(ids), Args::Nil)));
    match (x.shape, w.shape, ids.shape) {
        (Shape::D2(n, i), Shape::D3(_, o, wi), Shape::D2(m, k)) => Array::kernel(
            Kernel::GatherMatmul,
            args,
            Shape::D3(n, k, o),
            n == m && i == wi,
        ),
        _ => Array::kernel(Kernel::GatherMatmul, args, x.shape, false),
    }
}

pub(crate) fn make_keep_where(condition: &Array, x: &Array) -> (r: Array)
    ensures
        r == keep_where(*condition, *x),
{
    let args = make_arg(Some(condition), make_arg(Some(x), Args::Nil));
    match condition.shape.broadcast(&x.shape) {
        Some(s) => Array::kernel(Kernel::KeepWhere, args, s, true),
        None => Array::kernel(Kernel::KeepWhere, args, x.shape, false),
    }
}

/// The product of two machine integers fits one of twice the size.
pub proof fn lemma_product_in_range(a: int, b: int)
    requires
        i32::MIN <= a <= i32::MAX,
        i32::MIN <= b <= i32::MAX,
    ensures
        i64::MIN <= a * b <= i64::MAX,
{
    assert(-0x4000_0000_0000_0000 <= a * b <= 0x4000_0000_0000_0000) by (nonlinear_arith)
        requires
            -0x8000_0000 <= a <= 0x8000_0000,
            -0x8000_0000 <= b <= 0x8000_0000,
    ;
}

pub(crate) fn make_conv1d(
    x: &Array,
    weight: &Array,
    bias: Option<&Array>,
    groups: i32,
) -> (r: Array)
    ensures
        r == conv1d(*x, *weight, given(bias), groups),
{
    let args = make_arg(Some(x), make_arg(Some(weight), make_arg(bias, Args::Nil)));
    match (x.shape, weight.shape) {
        (Shape::D3(b, t, c), Shape::D3(o, k, g)) => {
            proof {
                lemma_product_in_range(g as int, groups as int);
            }
            if 1 <= k && k <= t && groups > 0 && (g as i64) * (groups as i64) == c as i64 && o >= 0
                && o % groups == 0 {
                Array::kernel(Kernel::Conv1d { groups }, args, Shape::D3(b, t - k + 1, o), true)
            } else {
                Array::kernel(Kernel::Conv1d { groups }, args, x.shape, false)
            }
        },
        _ => Array::kernel(Kernel::Conv1d { groups }, args, x.shape, false),
    }
}

fn check_delta(
    q: &Shape,
    k: &Shape,
    v: &Shape,
    a: &Shape,
    b: &Shape,
    a_log: &Shape,
    dt_bias: &Shape,
) -> (r: bool)
    ensures
        r == delta_fits(*q, *k, *v, *a, *b, *a_log, *dt_bias),
{
    match (*q, *v) {
        (Shape::D4(n, t, hk, _), Shape::D4(vn, vt, hv, _)) => *k == *q && vn == n && vt == t && hk
            > 0 && hv >= 0 && hv % hk == 0 && *a == Shape::D3(n, t, hv) && *b == *a
                && *a_log == Shape::D1(hv)
            && *dt_bias == Shape::D1(hv),
        _ => false,
    }
}

fn find_delta_state_shape(q: &Shape, v: &Shape) -> (r: Shape)
    ensures
        r == delta_state_shape(*q, *v),
{
    match (*q, *v) {
        (Shape::D4(n, _, _, dk), Shape::D4(_, _, hv, dv)) => Shape::D4(n, hv, dv, dk),
        _ => *v,
    }
}

fn make_delta_args(
    q: &Array,
    k: &Array,
    v: &Array,
    a: &Array,
    b: &Array,
    a_log: &Array,
    dt_bias: &Array,
    state: Option<&Array>,
    mask: Option<&Array>,
) -> (r: Args)
    ensures
        r == delta_args(*q, *k, *v, *a, *b, *a_log, *dt_bias, given(state), given(mask)),
{
    let rest = make_arg(state, make_arg(mask, Args::Nil));
    let rest = make_arg(Some(a_log), make_arg(Some(dt_bias), rest));
    let rest = make_arg(Some(a), make_arg(Some(b), rest));
    make_arg(Some(q), make_arg(Some(k), make_arg(Some(v), rest)))
}

/// The outputs of a gated delta rule, and the state behind them.
pub(crate) fn make_gated_delta(
    q: &Array,
    k: &Array,
    v: &Array,
    a: &Array,
    b: &Array,
    a_log: &Array,
    dt_bias: &Array,
    state: Option<&Array>,
    mask: Option<&Array>,
    training: bool,
) -> (r: (Array, Array))
    ensures
        r.0 == gated_delta(
            *q,
            *k,
            *v,
            *a,
            *b,
            *a_log,
            *dt_bias,
            given(state),
            given(mask),
            training,
        ),
        r.1 == gated_delta_state(
            *q,
            *k,
            *v,
            *a,
            *b,
            *a_log,
            *dt_bias,
            given(state),
            given(mask),
            training,
        ),
{
    let state_shape = find_delta_state_shape(&q.shape, &v.shape);
    let state_fits = match state {
        Some(s) => s.shape == state_shape,
        None => true,
    };
    let fits = check_delta(
        &q.shape,
        &k.shape,
        &v.shape,
        &a.shape,
        &b.shape,
        &a_log.shape,
        &dt_bias.shape,
    ) && state_fits;
    (
        Array::kernel(
            Kernel::GatedDelta { training },
            make_delta_args(q, k, v, a, b, a_log, dt_bias, state, mask),
            v.shape,
            fits,
        ),
        Array::kernel(
            Kernel::GatedDeltaState { training },
            make_delta_args(q, k, v, a, b, a_log, dt_bias, state, mask),
            state_shape,
            fits,
        ),
    )
}

} // verus!
