//! The arrays of a model that are worth evaluating before its first use.

use crate::array::Array;
use crate::nn::{Embedding, Linear, RmsNorm};
use vstd::prelude::*;

verus! {

/// A layer with arrays to evaluate.
pub trait EvalLayer: Sized {
    /// The arrays, in the order in which they are evaluated.
    spec fn evaluated(self) -> Seq<Array>;

    fn push_evaluated(&self, out: &mut Vec<Array>)
        ensures
            final(out)@ == old(out)@ + self.evaluated(),
    ;
}

/// The arrays of the first `n` layers.
pub open spec fn stack_evaluated<T: EvalLayer>(layers: Seq<T>, n: nat) -> Seq<Array>
    decreases n,
{
    if n == 0 {
        seq![]
    } else {
        stack_evaluated(layers, (n - 1) as nat) + layers[n - 1].evaluated()
    }
}

/// The weight of the head, where there is one.
pub open spec fn head_evaluated(head: Option<Linear>) -> Seq<Array> {
    match head {
        Some(h) => seq![h.weight],
        None => seq![],
    }
}

/// The embeddings, the layers, the last normalization and the head.
pub open spec fn model_evaluated<T: EvalLayer>(
    embeddings: Embedding,
    layers: Seq<T>,
    norm: RmsNorm,
    head: Option<Linear>,
) -> Seq<Array> {
    seq![embeddings.weight] + stack_evaluated(layers, layers.len()) + seq![norm.weight]
        + head_evaluated(head)
}

pub(crate) fn push_layers<T: EvalLayer>(layers: &Vec<T>, out: &mut Vec<Array>)
    ensures
        final(out)@ == old(out)@ + stack_evaluated(layers@, layers@.len()),
{
    let mut i: usize = 0;
    assert(out@ =~= old(out)@ + stack_evaluated(layers@, 0));
    while i < layers.len()
        invariant
            i <= layers@.len(),
            out@ == old(out)@ + stack_evaluated(layers@, i as nat),
        decreases layers.len() - i,
    {
        layers[i].push_evaluated(out);
        assert(out@ =~= old(out)@ + stack_evaluated(layers@, (i + 1) as nat));
        i = i + 1;
    }
}

pub(crate) fn list_evaluated<T: EvalLayer>(
    embeddings: &Embedding,
    layers: &Vec<T>,
    norm: &RmsNorm,
    head: &Option<Linear>,
) -> (r: Vec<Array>)
    ensures
        r@ == model_evaluated(*embeddings, layers@, *norm, *head),
{
    let mut out: Vec<Array> = Vec::new();
    out.push(embeddings.weight.clone());
    assert(out@ =~= seq![embeddings.weight]);
    push_layers(layers, &mut out);
    out.push(norm.weight.clone());
    match head {
        Some(h) => {
            out.push(h.weight.clone());
        },
        None => {},
    }
    assert(out@ =~= model_evaluated(*embeddings, layers@, *norm, *head));
    out
}

} // verus!
