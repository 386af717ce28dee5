//! Frozen layers.

use crate::array::{Array, Function, Source, apply, embed, rms_norm, source};
use crate::error::{LoraError, checked, misfit, outcome};
use crate::lora::{biased, dense, run_biased, run_dense};
use crate::scalar::{F32, Scale};
use crate::shape::Shape;
use vstd::prelude::*;

verus! {

/// Root-mean-square normalization.
#[derive(Debug)]
pub struct RmsNorm {
    /// `[features]`.
    pub weight: Array,
    pub eps: F32,
}

impl RmsNorm {
    /// A layer of ones.
    pub open spec fn fresh(n: i32, eps: F32) -> RmsNorm {
        RmsNorm { weight: source(Source::Ones, Shape::D1(n)), eps }
    }

    pub open spec fn output(self, x: Array) -> Array {
        rms_norm(x, self.weight, self.eps)
    }

    /// The weight has one element to each of `n` features.
    pub open spec fn well_formed(self, n: i32) -> bool {
        self.weight.fits && self.weight.shape == Shape::D1(n)
    }

    pub fn new(n: i32, eps: F32) -> (r: RmsNorm)
        ensures
            r == RmsNorm::fresh(n, eps),
    {
        RmsNorm { weight: Array::from_source(Source::Ones, Shape::D1(n)), eps }
    }

    pub fn run(&self, x: &Array) -> (r: Array)
        ensures
            r == self.output(*x),
    {
        x.rms_norm(&self.weight, self.eps)
    }

    /// The normalized input.
    pub fn forward(&self, x: &Array) -> (r: Result<Array, LoraError>)
        ensures
            outcome(r, self.output(*x)),
    {
        checked(self.run(x))
    }
}

/// A table of rows, one to each token.
#[derive(Debug)]
pub struct Embedding {
    /// `[tokens, features]`.
    pub weight: Array,
}

impl Embedding {
    /// Normal random numbers over the square root of the number of features.
    pub open spec fn fresh(tokens: i32, features: i32) -> Embedding {
        Embedding {
            weight: apply(
                Function::Scaled(Scale::InverseSqrt { n: features }),
                source(Source::Normal, Shape::D2(tokens, features)),
            ),
        }
    }

    pub open spec fn output(self, ids: Array) -> Array {
        embed(ids, self.weight)
    }

    /// The table read as a linear layer from features to tokens.
    pub open spec fn linear_output(self, x: Array) -> Array {
        dense(x, self.weight)
    }

    pub open spec fn well_formed(self, tokens: i32, features: i32) -> bool {
        self.weight.fits && self.weight.shape == Shape::D2(tokens, features)
    }

    pub fn new(tokens: i32, features: i32) -> (r: Result<Embedding, LoraError>)
        ensures
            match r {
                Ok(e) => tokens >= 0 && features >= 0 && e == Embedding::fresh(tokens, features),
                Err(e) => e is Mlx && !(tokens >= 0 && features >= 0),
            },
    {
        if tokens < 0 || features < 0 {
            return Err(misfit());
        }
        let table = Array::from_source(Source::Normal, Shape::D2(tokens, features));
        Ok(Embedding { weight: table.apply(Function::Scaled(Scale::InverseSqrt { n: features })) })
    }

    pub fn run(&self, ids: &Array) -> (r: Array)
        ensures
            r == self.output(*ids),
    {
        ids.embed(&self.weight)
    }

    pub fn as_linear(&self, x: &Array) -> (r: Array)
        ensures
            r == self.linear_output(*x),
    {
        run_dense(x, &self.weight)
    }
}

/// A linear layer.
#[derive(Debug)]
pub struct Linear {
    /// `[outputs, inputs]`.
    pub weight: Array,
    /// `[outputs]`.
    pub bias: Option<Array>,
}

/// Random numbers between minus and plus the inverse square root of the number of inputs.
pub open spec fn initial_linear(shape: Shape, inputs: i32) -> Array {
    source(Source::UniformInverseSqrt { n: inputs }, shape)
}

impl Linear {
    pub open spec fn fresh(inputs: i32, outputs: i32, use_bias: bool) -> Linear {
        Linear {
            weight: initial_linear(Shape::D2(outputs, inputs), inputs),
            bias: if use_bias {
                Some(initial_linear(Shape::D1(outputs), inputs))
            } else {
                None
            },
        }
    }

    pub open spec fn output(self, x: Array) -> Array {
        biased(dense(x, self.weight), self.bias)
    }

    pub open spec fn well_formed(self, inputs: i32, outputs: i32) -> bool {
        &&& self.weight.fits && self.weight.shape == Shape::D2(outputs, inputs)
        &&& self.bias matches Some(b) ==> b.fits && b.shape == Shape::D1(outputs)
    }

    pub fn new(inputs: i32, outputs: i32, use_bias: bool) -> (r: Linear)
        ensures
            r == Linear::fresh(inputs, outputs, use_bias),
    {
        Linear {
            weight: Array::from_source(
                Source::UniformInverseSqrt { n: inputs },
                Shape::D2(outputs, inputs),
            ),
            bias: if use_bias {
                Some(
                    Array::from_source(
                        Source::UniformInverseSqrt { n: inputs },
                        Shape::D1(outputs),
                    ),
                )
            } else {
                None
            },
        }
    }

    pub fn run(&self, x: &Array) -> (r: Array)
        ensures
            r == self.output(*x),
    {
        run_biased(run_dense(x, &self.weight), &self.bias)
    }
}

/// Logits by the head, or by the table of embeddings where there is no head.
pub open spec fn logits(head: Option<Linear>, table: Embedding, hidden: Array) -> Array {
    match head {
        Some(h) => h.output(hidden),
        None => table.linear_output(hidden),
    }
}

pub(crate) fn run_logits(head: &Option<Linear>, table: &Embedding, hidden: &Array) -> (r: Array)
    ensures
        r == logits(*head, *table, *hidden),
{
    match head {
        Some(h) => h.run(hidden),
        None => table.as_linear(hidden),
    }
}

/// The weight behind the logits.
pub open spec fn logits_weight(head: Option<Linear>, table: Embedding) -> Array {
    match head {
        Some(h) => h.weight,
        None => table.weight,
    }
}

pub(crate) fn get_logits_weight(head: &Option<Linear>, table: &Embedding) -> (r: Array)
    ensures
        r == logits_weight(*head, *table),
{
    match head {
        Some(h) => h.weight.clone(),
        None => table.weight.clone(),
    }
}

/// The head of a model that does not tie it to its embeddings.
pub open spec fn fresh_head(tied: bool, hidden: i32, vocab: i32) -> Option<Linear> {
    if tied {
        None
    } else {
        Some(Linear::fresh(hidden, vocab, false))
    }
}

pub(crate) fn make_head(tied: bool, hidden: i32, vocab: i32) -> (r: Option<Linear>)
    ensures
        r == fresh_head(tied, hidden, vocab),
{
    if tied {
        None
    } else {
        Some(Linear::new(hidden, vocab, false))
    }
}

} // verus!
