//! What layers with experts compute, read off the nodes that they build.

use crate::array::{
    Arithmetic, Array, Function, Kernel, Node, Source, apply, args_fit, reshape, slice, stacked,
};
use crate::attention::{gated, rows_of};
use crate::kernels::gather_matmul;
use crate::qwen3_moe::{
    GatedExpert, StackState, restacked, routed, routing_probs, row_matmul, signature_from,
    slot_output, slots_sum, taken, top_indices, top_weights, turned_downs, turned_gates, turned_ups,
};
use crate::qwen3_moe_lora::Qwen3MoELoraMoEBlock;
use crate::qwen3_moe_qlora::Qwen3MoEQLoraMoEBlock;
use crate::qwen3_next_lora::Qwen3NextLoraSparseMoE;
use crate::reading::{
    Projection, argument, argument_count, first_of, given_at, group_nodes, is_function, is_kernel,
    is_product, is_quotient, is_sum, law_linear_reads, law_lora_reads, law_qlora_reads, second_of,
};
use crate::shape::Shape;
use vstd::prelude::*;

verus! {

/// Part `j` of a sum of `n` parts, the last of which was added last.
pub open spec fn summand(sum: Array, n: nat, j: nat) -> Array
    decreases n,
{
    if n == 0 {
        sum
    } else if j == n - 1 {
        second_of(sum)
    } else {
        summand(first_of(sum), (n - 1) as nat, j)
    }
}

/// What a sum of `n` parts starts from.
pub open spec fn start_of(sum: Array, n: nat) -> Array
    decreases n,
{
    if n == 0 {
        sum
    } else {
        start_of(first_of(sum), (n - 1) as nat)
    }
}

/// Each of the last `n` steps down the first operands is a sum.
pub open spec fn is_sum_of(sum: Array, n: nat) -> bool
    decreases n,
{
    n > 0 ==> is_sum(sum, first_of(sum), second_of(sum)) && is_sum_of(
        first_of(sum),
        (n - 1) as nat,
    )
}

/// Each row times the matrix of the stack that the row's index names.
pub open spec fn is_row_product(y: Array, x: Array, stack: Array, ids: Array) -> bool {
    let product = first_of(y);
    let taken = second_of(product);
    &&& *y.node == Node::Reshape(product)
    &&& *product.node == Node::Matmul(first_of(product), taken)
    &&& *first_of(product).node == Node::Reshape(x)
    &&& is_kernel(taken, Kernel::Take)
    &&& given_at(taken, 0) == Some(stack)
    &&& given_at(taken, 1) == Some(ids)
}

/// One column of a matrix.
pub open spec fn is_column(y: Array, x: Array, j: int) -> bool {
    *y.node == (Node::Slice { x, depth: 0, from: j as i32, to: (j + 1) as i32 })
}

/// The outputs of the experts that column `j` of the top indices names, `down(silu(gate) * up)`,
/// times column `j` of the top weights.
pub open spec fn is_expert_part(
    part: Array,
    rows: Array,
    top: Array,
    weights: Array,
    j: int,
    stacks: (Array, Array, Array),
) -> bool {
    let out = first_of(part);
    let ids = (given_at(second_of(first_of(out)), 1))->0;
    let inner = first_of(first_of(first_of(out)));
    let gate = first_of(first_of(inner));
    &&& is_product(part, out, second_of(part))
    &&& is_column(second_of(part), weights, j)
    &&& is_row_product(out, inner, stacks.2, ids)
    &&& *ids.node == Node::Reshape(first_of(ids))
    &&& is_column(first_of(ids), top, j)
    &&& is_product(inner, first_of(inner), second_of(inner))
    &&& is_function(first_of(inner), Function::Silu, gate)
    &&& is_row_product(gate, rows, stacks.0, ids)
    &&& is_row_product(second_of(inner), rows, stacks.1, ids)
}

/// The sum over the `k` best experts of each row: for each column `j` of the top indices there is
/// a part whose experts are those of that column and whose weights are that column of the top
/// weights. Both come from the softmax of the scores in single precision.
pub open spec fn routes(
    y: Array,
    x: Array,
    scores: Array,
    k: i32,
    normalized: bool,
    stacks: (Array, Array, Array),
    j: int,
) -> bool {
    let sum = first_of(y);
    let part = summand(sum, k as nat, j as nat);
    let weights = first_of(second_of(part));
    let top = first_of(first_of((given_at(second_of(first_of(first_of(part))), 1))->0));
    let probs = given_at(top, 0)->0;
    let inner = first_of(first_of(first_of(first_of(part))));
    let rows = first_of(first_of(first_of(first_of(first_of(inner)))));
    &&& *y.node == Node::Reshape(sum)
    &&& is_sum_of(sum, k as nat)
    &&& *start_of(sum, k as nat).node == Node::Source(Source::Zeros)
    &&& is_expert_part(part, rows, top, weights, j, stacks)
    &&& *rows.node == Node::Reshape(x)
    &&& is_kernel(top, Kernel::TopIndices { k })
    &&& given_at(top, 0) is Some
    &&& is_kernel(weights, Kernel::TopWeights { k, normalized })
    &&& given_at(weights, 0) == Some(probs)
    &&& is_function(probs, Function::Softmax, first_of(probs))
    &&& is_function(first_of(probs), Function::ToFloat32, scores)
}

proof fn lemma_slot_reads(
    rows: Array,
    top: Array,
    weights: Array,
    j: int,
    stacks: (Array, Array, Array),
)
    requires
        0 <= j < i32::MAX,
        slot_output(rows, top, weights, j, stacks).fits,
    ensures
        ({
            let part = slot_output(rows, top, weights, j, stacks);
            let ids = (given_at(second_of(first_of(first_of(part))), 1))->0;
            let inner = first_of(first_of(first_of(first_of(part))));
            &&& is_expert_part(part, rows, top, weights, j, stacks)
            &&& first_of(second_of(part)) == weights
            &&& first_of(first_of(ids)) == top
            &&& first_of(first_of(first_of(first_of(first_of(inner))))) == rows
        }),
{
    broadcast use group_nodes;

    reveal_with_fuel(argument, 4);
    reveal_with_fuel(args_fit, 4);
}

proof fn lemma_slots_read(
    rows: Array,
    top: Array,
    weights: Array,
    n: nat,
    stacks: (Array, Array, Array),
    j: int,
)
    requires
        0 <= j < n <= i32::MAX,
        slots_sum(rows, top, weights, n, stacks).fits,
    ensures
        summand(slots_sum(rows, top, weights, n, stacks), n, j as nat) == slot_output(
            rows,
            top,
            weights,
            j,
            stacks,
        ),
        slot_output(rows, top, weights, j, stacks).fits,
    decreases n,
{
    broadcast use group_nodes;

    if j < n - 1 {
        lemma_slots_read(rows, top, weights, (n - 1) as nat, stacks, j);
    }
}

proof fn lemma_slots_sum(
    rows: Array,
    top: Array,
    weights: Array,
    n: nat,
    stacks: (Array, Array, Array),
)
    ensures
        is_sum_of(slots_sum(rows, top, weights, n, stacks), n),
        *start_of(slots_sum(rows, top, weights, n, stacks), n).node == Node::Source(Source::Zeros),
    decreases n,
{
    broadcast use group_nodes;

    if n > 0 {
        lemma_slots_sum(rows, top, weights, (n - 1) as nat, stacks);
    }
}

/// Routing sums the weighted outputs of the `k` best experts of each row, each of the `k` columns
/// once.
pub proof fn law_routed_reads(
    x: Array,
    scores: Array,
    k: i32,
    normalized: bool,
    stacks: (Array, Array, Array),
    j: int,
)
    requires
        0 <= j < k,
        routed(x, scores, k, normalized, stacks).fits,
    ensures
        routes(routed(x, scores, k, normalized, stacks), x, scores, k, normalized, stacks, j),
{
    broadcast use group_nodes;

    reveal_with_fuel(argument, 4);
    let probs = routing_probs(scores);
    let top = top_indices(probs, k);
    let weights = top_weights(probs, k, normalized);
    let rows = rows_of(x);
    lemma_slots_sum(rows, top, weights, k as nat, stacks);
    lemma_slots_read(rows, top, weights, k as nat, stacks, j);
    lemma_slot_reads(rows, top, weights, j, stacks);
    lemma_slots_rows(rows, top, weights, k as nat, stacks);
}

proof fn lemma_slots_rows(
    rows: Array,
    top: Array,
    weights: Array,
    n: nat,
    stacks: (Array, Array, Array),
)
    requires
        0 < n <= i32::MAX,
        slots_sum(rows, top, weights, n, stacks).fits,
    ensures
        rows.fits,
        top.fits,
        weights.fits,
{
    broadcast use group_nodes;

    reveal_with_fuel(argument, 4);
    reveal_with_fuel(args_fit, 4);
    let part = slot_output(rows, top, weights, n - 1, stacks);
    assert(part.fits);
    let ids = reshape(
        slice(top, 0, (n - 1) as i32, n as i32),
        Shape::D1(top.shape.outer()),
    );
    let gate = row_matmul(rows, taken(stacks.0, ids));
    let up = row_matmul(rows, taken(stacks.1, ids));
    assert(gated(gate, up).fits);
    assert(gate.fits);
}

/// A block of experts routes by what its gate makes of the rows, for each of its columns.
pub proof fn law_moe_lora_block_reads(b: Qwen3MoELoraMoEBlock, x: Array, j: int)
    requires
        0 <= j < b.top_k <= i32::MAX,
        b.output(x).fits,
    ensures
        ({
            let s = restacked(b.stacks(), b.experts@);
            let scores = b.gate.output(rows_of(x));
            &&& routes(
                b.output(x),
                x,
                scores,
                b.top_k as i32,
                b.norm_topk_prob,
                (s.0->0, s.1->0, s.2->0),
                j,
            )
            &&& b.gate.makes(b.gate.fed(scores), scores)
            &&& b.gate.fed(scores).fits ==> *b.gate.fed(scores).node == Node::Reshape(x)
        }),
{
    broadcast use {group_nodes, law_lora_reads};

    let s = restacked(b.stacks(), b.experts@);
    law_routed_reads(
        x,
        b.gate.output(rows_of(x)),
        b.top_k as i32,
        b.norm_topk_prob,
        (s.0->0, s.1->0, s.2->0),
        j,
    );
}

/// The same of a block whose gate is quantized.
pub proof fn law_moe_qlora_block_reads(b: Qwen3MoEQLoraMoEBlock, x: Array, j: int)
    requires
        0 <= j < b.top_k <= i32::MAX,
        b.output(x).fits,
    ensures
        ({
            let s = restacked(b.stacks(), b.experts@);
            let scores = b.gate.output(rows_of(x));
            &&& routes(
                b.output(x),
                x,
                scores,
                b.top_k as i32,
                b.norm_topk_prob,
                (s.0->0, s.1->0, s.2->0),
                j,
            )
            &&& b.gate.makes(b.gate.fed(scores), scores)
            &&& b.gate.fed(scores).fits ==> *b.gate.fed(scores).node == Node::Reshape(x)
        }),
{
    broadcast use {group_nodes, law_qlora_reads};

    let s = restacked(b.stacks(), b.experts@);
    law_routed_reads(
        x,
        b.gate.output(rows_of(x)),
        b.top_k as i32,
        b.norm_topk_prob,
        (s.0->0, s.1->0, s.2->0),
        j,
    );
}

/// No expert is left out and none is used twice in place of another: parts for different columns
/// take different columns of the indices and of the weights.
pub proof fn law_columns_apart(
    x: Array,
    scores: Array,
    k: i32,
    normalized: bool,
    stacks: (Array, Array, Array),
    i: int,
    j: int,
)
    requires
        0 <= i < j < k,
        routed(x, scores, k, normalized, stacks).fits,
    ensures
        ({
            let sum = first_of(routed(x, scores, k, normalized, stacks));
            let one = summand(sum, k as nat, i as nat);
            let two = summand(sum, k as nat, j as nat);
            &&& one != two
            &&& second_of(one) != second_of(two)
            &&& given_at(second_of(first_of(first_of(one))), 1) != given_at(
                second_of(first_of(first_of(two))),
                1,
            )
        }),
{
    law_routed_reads(x, scores, k, normalized, stacks, i);
    law_routed_reads(x, scores, k, normalized, stacks, j);
}

/// Item `e` of a stack that was built item by item.
pub open spec fn stack_item(stack: Array, n: nat, e: nat) -> Array
    decreases n,
{
    if n == 0 {
        stack
    } else if e == n - 1 {
        second_of(stack)
    } else {
        stack_item(first_of(stack), (n - 1) as nat, e)
    }
}

pub proof fn lemma_stack_item(xs: Seq<Array>, empty: Shape, e: int)
    requires
        0 <= e < xs.len(),
    ensures
        stack_item(stacked(xs, empty), xs.len(), e as nat) == xs[e],
    decreases xs.len(),
{
    broadcast use group_nodes;

    if e < xs.len() - 1 {
        lemma_stack_item(xs.drop_last(), empty, e);
    }
}

/// Stacks that are made anew hold, expert by expert, the transposes of their gate, of their up and
/// of the down projection.
pub proof fn law_stacks_read(s: StackState, experts: Seq<GatedExpert>, e: int)
    requires
        0 <= e < experts.len(),
        s.0 is None || s.1 is None || s.2 is None || s.3 is None,
    ensures
        ({
            let made = restacked(s, experts);
            let n = experts.len();
            &&& made.0 is Some && made.1 is Some && made.2 is Some
            &&& *stack_item(made.0->0, n, e as nat).node == Node::Transpose(experts[e].w1.weight)
            &&& *stack_item(made.1->0, n, e as nat).node == Node::Transpose(experts[e].w3.weight)
            &&& *stack_item(made.2->0, n, e as nat).node == Node::Transpose(experts[e].w2.weight)
        }),
{
    broadcast use group_nodes;

    let g = turned_gates(experts);
    let u = turned_ups(experts);
    let d = turned_downs(experts);
    lemma_stack_item(g, Shape::D3(0, g[0].shape.outer(), g[0].shape.inner()), e);
    lemma_stack_item(u, Shape::D3(0, u[0].shape.outer(), u[0].shape.inner()), e);
    lemma_stack_item(d, Shape::D3(0, d[0].shape.outer(), d[0].shape.inner()), e);
}

/// A kept stack is used again only where no weight of any expert has changed since.
pub proof fn law_stacks_not_stale(s: StackState, experts: Seq<GatedExpert>, e: int)
    requires
        0 <= e < experts.len(),
        s.3 is Some,
        restacked(s, experts) == s,
    ensures
        argument(s.3->0, (3 * e) as nat) == Some(experts[e].w1.weight),
        argument(s.3->0, (3 * e + 1) as nat) == Some(experts[e].w3.weight),
        argument(s.3->0, (3 * e + 2) as nat) == Some(experts[e].w2.weight),
        argument_count(s.3->0) == 3 * experts.len(),
{
    lemma_signature_reads(experts, 0, e);
}

proof fn lemma_signature_reads(experts: Seq<GatedExpert>, i: int, e: int)
    requires
        0 <= i <= e < experts.len(),
    ensures
        argument(signature_from(experts, i), (3 * (e - i)) as nat) == Some(experts[e].w1.weight),
        argument(signature_from(experts, i), (3 * (e - i) + 1) as nat) == Some(
            experts[e].w3.weight,
        ),
        argument(signature_from(experts, i), (3 * (e - i) + 2) as nat) == Some(
            experts[e].w2.weight,
        ),
        argument_count(signature_from(experts, i)) == 3 * (experts.len() - i),
    decreases experts.len() - i,
{
    reveal_with_fuel(argument, 4);
    reveal_with_fuel(argument_count, 4);
    if i < e {
        lemma_signature_reads(experts, i + 1, e);
    } else if i + 1 < experts.len() {
        lemma_signature_reads(experts, i + 1, i + 1);
    }
}

/// The weighted sum of the best experts of each row, and the shared expert times the sigmoid of
/// its gate, in the shape of the input.
pub proof fn law_qwen3_next_sparse_reads(m: Qwen3NextLoraSparseMoE, x: Array)
    requires
        m.output(x).fits,
    ensures
        ({
            let y = m.output(x);
            let sum = first_of(y);
            let shared = second_of(sum);
            let rows = m.shared_expert_gate.fed(first_of(first_of(shared)));
            &&& *y.node == Node::Reshape(sum)
            &&& is_sum(sum, first_of(sum), shared)
            &&& is_product(shared, first_of(shared), second_of(shared))
            &&& is_function(first_of(shared), Function::Sigmoid, first_of(first_of(shared)))
            &&& m.shared_expert_gate.makes(rows, first_of(first_of(shared)))
            &&& second_of(shared) == m.shared_expert.output(rows)
            &&& *rows.node == Node::Reshape(x)
            &&& switch_routes(first_of(sum), rows, m)
        }),
{
    broadcast use {group_nodes, law_linear_reads};

    let rows = rows_of(x);
    assert(rows.fits);
    lemma_switch_routes(m, rows);
}

/// The places of the greatest probabilities come first.
pub open spec fn is_picked(picked: Array, rows: Array, m: Qwen3NextLoraSparseMoE) -> bool {
    let order = first_of(picked);
    let negative = given_at(order, 0)->0;
    &&& *picked.node matches Node::Slice { x: _, depth, from, to } && depth == 0 && from == 0 && (
    0 <= m.top_k <= order.shape.inner() ==> to == m.top_k)
    &&& is_kernel(order, Kernel::ArgSort)
    &&& given_at(order, 0) is Some
    &&& is_function(negative, Function::Negative, first_of(negative))
    &&& is_probs(first_of(negative), rows, m)
}

/// The softmax of what `gate` makes of the rows, in single precision.
pub open spec fn is_probs(probs: Array, rows: Array, m: Qwen3NextLoraSparseMoE) -> bool {
    let wide = first_of(probs);
    &&& is_function(probs, Function::Softmax, wide)
    &&& is_function(wide, Function::ToFloat32, first_of(wide))
    &&& m.gate.makes(rows, first_of(wide))
}

/// The probabilities at the picked places; over their sum, where so wanted.
pub open spec fn is_picked_weights(w: Array, rows: Array, m: Qwen3NextLoraSparseMoE) -> bool {
    let raw = if m.norm_topk_prob {
        first_of(w)
    } else {
        w
    };
    &&& m.norm_topk_prob ==> {
        let least = second_of(w);
        &&& is_quotient(w, raw, least)
        &&& *least.node == Node::Combine(Arithmetic::Maximum, first_of(least), second_of(least))
        &&& *first_of(least).node == (Node::SumAxis { x: raw, depth: 0 })
    }
    &&& is_kernel(raw, Kernel::TakeAlong)
    &&& given_at(raw, 0) is Some && is_probs(given_at(raw, 0)->0, rows, m)
    &&& given_at(raw, 1) is Some && is_picked(given_at(raw, 1)->0, rows, m)
}

/// Each row through the matrices of a stack that its picked places name.
pub open spec fn is_gathered(y: Array, x: Array, stack: Array, ids: Array) -> bool {
    &&& is_kernel(y, Kernel::GatherMatmul)
    &&& given_at(y, 0) == Some(x)
    &&& given_at(y, 1) == Some(stack)
    &&& given_at(y, 2) == Some(ids)
}

/// `down(silu(gate) * up)` of the picked experts, times the picked weights, summed.
pub open spec fn switch_routes(y: Array, rows: Array, m: Qwen3NextLoraSparseMoE) -> bool {
    let sum = first_of(y);
    let weighted = first_of(sum);
    let down = first_of(weighted);
    let raw = first_of(down);
    let wide = given_at(raw, 0)->0;
    let inner = first_of(wide);
    let gate = first_of(first_of(inner));
    let ids = given_at(gate, 2)->0;
    let w = first_of(second_of(weighted));
    &&& *y.node == Node::Reshape(sum)
    &&& *sum.node == (Node::SumAxis { x: weighted, depth: 1 })
    &&& is_product(weighted, down, second_of(weighted))
    &&& *second_of(weighted).node == Node::Reshape(w)
    &&& is_picked_weights(w, rows, m)
    &&& *down.node == Node::Reshape(raw)
    &&& is_kernel(raw, Kernel::GatherMatmul)
    &&& given_at(raw, 1) == Some(m.switch_mlp_down_proj)
    &&& given_at(raw, 2) is Some && *(given_at(raw, 2)->0).node == Node::Reshape(ids)
    &&& given_at(raw, 0) is Some && *wide.node == Node::Reshape(inner)
    &&& is_product(inner, first_of(inner), second_of(inner))
    &&& is_function(first_of(inner), Function::Silu, gate)
    &&& is_gathered(gate, rows, m.switch_mlp_gate_proj, ids)
    &&& is_gathered(second_of(inner), rows, m.switch_mlp_up_proj, ids)
    &&& is_function(ids, Function::ToInt32, first_of(ids))
    &&& is_picked(first_of(ids), rows, m)
}

proof fn lemma_picked(m: Qwen3NextLoraSparseMoE, rows: Array)
    ensures
        is_probs(m.gates(rows), rows, m),
        is_picked(m.picked(rows), rows, m),
        is_picked_weights(m.weights(rows), rows, m),
{
    broadcast use {group_nodes, law_linear_reads};

    reveal_with_fuel(argument, 4);
}

proof fn lemma_switch_routes(m: Qwen3NextLoraSparseMoE, rows: Array)
    requires
        m.routed(rows).fits,
    ensures
        switch_routes(m.routed(rows), rows, m),
{
    broadcast use group_nodes;

    reveal_with_fuel(argument, 4);
    reveal_with_fuel(args_fit, 4);
    lemma_picked(m, rows);
    let ids = apply(Function::ToInt32, m.picked(rows));
    let gate = gather_matmul(rows, m.switch_mlp_gate_proj, ids);
    let up = gather_matmul(rows, m.switch_mlp_up_proj, ids);
    assert(rows_of(gated(gate, up)).fits);
}

} // verus!
