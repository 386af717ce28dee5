//! Linear layers with low-rank adapters.

use crate::array::{Array, Function, Source, apply, matmul, plus, source, transpose};
use crate::error::{LoraError, checked, misfit, outcome};
use crate::scalar::{F32, Scale, adapter_scale, make_adapter_scale};
use crate::shape::Shape;
use vstd::prelude::*;

verus! {

/// `x @ W.T`.
pub open spec fn dense(x: Array, weight: Array) -> Array {
    matmul(x, transpose(weight))
}

/// `scale * (x @ A.T) @ B.T`.
pub open spec fn low_rank(x: Array, a: Array, b: Array, scale: Scale) -> Array {
    apply(Function::Scaled(scale), dense(dense(x, a), b))
}

/// The sum, where there is a bias to add.
pub open spec fn biased(y: Array, bias: Option<Array>) -> Array {
    match bias {
        Some(b) => plus(y, b),
        None => y,
    }
}

/// `x @ W.T + scale * (x @ A.T) @ B.T`, and the bias on top.
pub open spec fn adapted(
    x: Array,
    weight: Array,
    a: Array,
    b: Array,
    scale: Scale,
    bias: Option<Array>,
) -> Array {
    biased(plus(dense(x, weight), low_rank(x, a, b, scale)), bias)
}

pub(crate) fn run_dense(x: &Array, weight: &Array) -> (r: Array)
    ensures
        r == dense(*x, *weight),
{
    x.matmul(&weight.t())
}

pub(crate) fn run_biased(y: Array, bias: &Option<Array>) -> (r: Array)
    ensures
        r == biased(y, *bias),
{
    match bias {
        Some(b) => y.add(b),
        None => y,
    }
}

pub(crate) fn run_adapted(
    x: &Array,
    weight: &Array,
    a: &Array,
    b: &Array,
    scale: Scale,
    bias: &Option<Array>,
) -> (r: Array)
    ensures
        r == adapted(*x, *weight, *a, *b, scale, *bias),
{
    let base = run_dense(x, weight);
    let xa = run_dense(x, a);
    let xab = run_dense(&xa, b);
    let y = base.add(&xab.apply(Function::Scaled(scale)));
    run_biased(y, bias)
}

/// A matrix of these extents has elements that a machine word counts.
pub open spec fn small(m: i32, n: i32) -> bool {
    m >= 0 && n >= 0 && m * n <= usize::MAX
}

pub(crate) fn area(m: i32, n: i32) -> (r: usize)
    requires
        small(m, n),
    ensures
        r == m * n,
{
    m as usize * n as usize
}

/// The elements of the two matrices of an adapter can be counted.
pub open spec fn pair_countable(inputs: i32, outputs: i32, rank: i32) -> bool {
    &&& inputs >= 0 && outputs >= 0 && rank >= 0
    &&& rank * inputs + outputs * rank <= usize::MAX
}

pub(crate) fn count_pair(inputs: i32, outputs: i32, rank: i32) -> (r: usize)
    requires
        pair_countable(inputs, outputs, rank),
    ensures
        r == rank * inputs + outputs * rank,
{
    assert(rank * inputs >= 0 && outputs * rank >= 0) by (nonlinear_arith)
        requires
            inputs >= 0,
            outputs >= 0,
            rank >= 0,
    ;
    area(rank, inputs) + area(outputs, rank)
}

/// A layer with the two trainable matrices of an adapter.
pub trait Adapter: Sized {
    /// The matrix `A`.
    spec fn a(self) -> Array;

    /// The matrix `B`.
    spec fn b(self) -> Array;

    /// The layer with other matrices.
    spec fn with(self, a: Array, b: Array) -> Self;

    /// The number of trainable elements.
    spec fn trainable(self) -> nat;

    /// The trainable elements can be counted.
    spec fn countable(self) -> bool;

    proof fn lemma_with(self, a: Array, b: Array)
        ensures
            self.with(a, b).a() == a,
            self.with(a, b).b() == b,
            self.with(self.a(), self.b()) == self,
            forall|c: Array, d: Array| #[trigger] self.with(a, b).with(c, d) == self.with(c, d),
    ;

    fn matrix_a(&self) -> (r: &Array)
        ensures
            *r == self.a(),
    ;

    fn matrix_b(&self) -> (r: &Array)
        ensures
            *r == self.b(),
    ;

    fn put(&mut self, a: Array, b: Array)
        ensures
            *final(self) == old(self).with(a, b),
    ;

    fn matrices_mut<'a>(&'a mut self) -> (r: (&'a mut Array, &'a mut Array))
        ensures
            *r.0 == old(self).a(),
            *r.1 == old(self).b(),
            *final(self) == old(self).with(*final(r.0), *final(r.1)),
    ;

    fn count(&self) -> (r: usize)
        requires
            self.countable(),
        ensures
            r == self.trainable(),
    ;
}

/// A linear layer with a frozen weight and a trainable low-rank adapter.
#[derive(Debug)]
pub struct LoraLinear {
    pub in_features: i32,
    pub out_features: i32,
    pub rank: i32,
    pub scale: Scale,
    /// `[out_features, in_features]`, frozen.
    pub weight: Array,
    /// `[out_features]`, frozen.
    pub bias: Option<Array>,
    /// `[rank, in_features]`, trainable.
    pub lora_a: Array,
    /// `[out_features, rank]`, trainable.
    pub lora_b: Array,
    /// Whether the weight holds the adapter's product already.
    pub merged: bool,
}

/// Zeros, where there is a bias.
pub open spec fn initial_bias(n: i32, use_bias: bool) -> Option<Array> {
    if use_bias {
        Some(source(Source::Zeros, Shape::D1(n)))
    } else {
        None
    }
}

pub(crate) fn make_initial_bias(n: i32, use_bias: bool) -> (r: Option<Array>)
    ensures
        r == initial_bias(n, use_bias),
{
    if use_bias {
        Some(Array::from_source(Source::Zeros, Shape::D1(n)))
    } else {
        None
    }
}

/// The matrix `A` of a fresh adapter: small random numbers.
pub open spec fn initial_a(rank: i32, n: i32) -> Array {
    source(Source::Uniform { fan_in: n }, Shape::D2(rank, n))
}

/// The matrix `B` of a fresh adapter: zeros, so that the adapter adds nothing yet.
pub open spec fn initial_b(n: i32, rank: i32) -> Array {
    source(Source::Zeros, Shape::D2(n, rank))
}

impl LoraLinear {
    /// A fresh adapter on a given weight.
    pub open spec fn on(
        weight: Array,
        bias: Option<Array>,
        in_features: i32,
        out_features: i32,
        rank: i32,
        alpha: F32,
        use_rslora: bool,
    ) -> LoraLinear {
        LoraLinear {
            in_features,
            out_features,
            rank,
            scale: adapter_scale(alpha, rank, use_rslora),
            weight,
            bias,
            lora_a: initial_a(rank, in_features),
            lora_b: initial_b(out_features, rank),
            merged: false,
        }
    }

    /// A fresh adapter on a random weight.
    pub open spec fn fresh(
        in_features: i32,
        out_features: i32,
        rank: i32,
        alpha: F32,
        use_rslora: bool,
        use_bias: bool,
    ) -> LoraLinear {
        LoraLinear::on(
            source(Source::Uniform { fan_in: in_features }, Shape::D2(out_features, in_features)),
            initial_bias(out_features, use_bias),
            in_features,
            out_features,
            rank,
            alpha,
            use_rslora,
        )
    }

    /// The extents are those of the arrays.
    pub open spec fn well_formed(self) -> bool {
        &&& self.in_features >= 0 && self.out_features >= 0 && self.rank >= 0
        &&& self.weight.fits && self.weight.shape == Shape::D2(self.out_features, self.in_features)
        &&& self.lora_a.fits && self.lora_a.shape == Shape::D2(self.rank, self.in_features)
        &&& self.lora_b.fits && self.lora_b.shape == Shape::D2(self.out_features, self.rank)
        &&& self.bias matches Some(b) ==> b.fits && b.shape == Shape::D1(self.out_features)
    }

    /// The extents are those of the arrays, and these in particular.
    pub open spec fn maps(self, inputs: i32, outputs: i32) -> bool {
        self.well_formed() && self.in_features == inputs && self.out_features == outputs
    }

    /// `x @ W.T + scale * (x @ A.T) @ B.T`, and the bias on top. Without the adapter's part
    /// once the weight holds it.
    pub open spec fn output(self, x: Array) -> Array {
        if self.merged {
            biased(dense(x, self.weight), self.bias)
        } else {
            adapted(x, self.weight, self.lora_a, self.lora_b, self.scale, self.bias)
        }
    }

    /// `W + scale * B @ A`, once.
    pub open spec fn merge_result(self) -> LoraLinear {
        if self.merged {
            self
        } else {
            LoraLinear {
                weight: plus(
                    self.weight,
                    apply(Function::Scaled(self.scale), matmul(self.lora_b, self.lora_a)),
                ),
                merged: true,
                ..self
            }
        }
    }

    /// The layer with another frozen weight, which does not hold the adapter's product.
    pub open spec fn with_weight(self, weight: Array) -> LoraLinear {
        LoraLinear { weight, merged: false, ..self }
    }

    /// A fresh adapter on a random weight.
    pub fn new(
        in_features: i32,
        out_features: i32,
        rank: i32,
        alpha: F32,
        use_rslora: bool,
        use_bias: bool,
    ) -> (r: Result<LoraLinear, LoraError>)
        ensures
            match r {
                Ok(l) => in_features >= 0 && out_features >= 0 && rank >= 0 && l
                    == LoraLinear::fresh(
                    in_features,
                    out_features,
                    rank,
                    alpha,
                    use_rslora,
                    use_bias,
                ),
                Err(e) => e is Mlx && !(in_features >= 0 && out_features >= 0 && rank >= 0),
            },
    {
        if in_features < 0 || out_features < 0 || rank < 0 {
            return Err(misfit());
        }
        let weight = Array::from_source(
            Source::Uniform { fan_in: in_features },
            Shape::D2(out_features, in_features),
        );
        let bias = make_initial_bias(out_features, use_bias);
        Ok(
            LoraLinear {
                in_features,
                out_features,
                rank,
                scale: make_adapter_scale(alpha, rank, use_rslora),
                weight,
                bias,
                lora_a: Array::from_source(
                    Source::Uniform { fan_in: in_features },
                    Shape::D2(rank, in_features),
                ),
                lora_b: Array::from_source(Source::Zeros, Shape::D2(out_features, rank)),
                merged: false,
            },
        )
    }

    /// A fresh adapter on a given linear layer, which must be a matrix.
    pub fn from_linear(
        weight: &Array,
        bias: &Option<Array>,
        rank: i32,
        alpha: F32,
        use_rslora: bool,
    ) -> (r: Result<LoraLinear, LoraError>)
        ensures
            match r {
                Ok(l) => weight.shape matches Shape::D2(out, inn) && inn >= 0 && out >= 0
                    && rank >= 0 && l == LoraLinear::on(
                    *weight,
                    *bias,
                    inn,
                    out,
                    rank,
                    alpha,
                    use_rslora,
                ),
                Err(e) => e is Mlx && !(weight.shape matches Shape::D2(out, inn) && inn >= 0 && out
                    >= 0 && rank >= 0),
            },
    {
        match weight.shape {
            Shape::D2(out_features, in_features) => {
                if in_features < 0 || out_features < 0 || rank < 0 {
                    return Err(misfit());
                }
                Ok(
                    LoraLinear {
                        in_features,
                        out_features,
                        rank,
                        scale: make_adapter_scale(alpha, rank, use_rslora),
                        weight: weight.clone(),
                        bias: clone_option(bias),
                        lora_a: Array::from_source(
                            Source::Uniform { fan_in: in_features },
                            Shape::D2(rank, in_features),
                        ),
                        lora_b: Array::from_source(Source::Zeros, Shape::D2(out_features, rank)),
                        merged: false,
                    },
                )
            },
            _ => Err(misfit()),
        }
    }

    /// The layer's output.
    pub fn forward(&self, x: &Array) -> (r: Result<Array, LoraError>)
        ensures
            outcome(r, self.output(*x)),
    {
        checked(self.run(x))
    }

    pub(crate) fn run(&self, x: &Array) -> (r: Array)
        ensures
            r == self.output(*x),
    {
        if self.merged {
            run_biased(run_dense(x, &self.weight), &self.bias)
        } else {
            run_adapted(x, &self.weight, &self.lora_a, &self.lora_b, self.scale, &self.bias)
        }
    }

    /// The number of trainable elements: `rank * in_features + out_features * rank`.
    pub fn num_trainable_params(&self) -> (r: usize)
        requires
            self.countable(),
        ensures
            r == self.trainable(),
    {
        count_pair(self.in_features, self.out_features, self.rank)
    }

    /// Adds the adapter's product to the weight. Refused, with nothing changed, where the
    /// operands do not fit.
    pub fn merge(&mut self) -> (r: Result<(), LoraError>)
        ensures
            match r {
                Ok(_) => old(self).mergeable() && *final(self) == old(self).merge_result(),
                Err(e) => e is Mlx && !old(self).mergeable() && *final(self) == *old(self),
            },
    {
        if !self.merged {
            let product = self.lora_b.matmul(&self.lora_a);
            let weight = self.weight.add(&product.apply(Function::Scaled(self.scale)));
            if !weight.fits {
                return Err(misfit());
            }
            self.weight = weight;
            self.merged = true;
        }
        Ok(())
    }

    /// Merging is not refused.
    pub open spec fn mergeable(self) -> bool {
        self.merged || self.merge_result().weight.fits
    }

    pub(crate) fn put_weight(&mut self, weight: Array)
        ensures
            *final(self) == old(self).with_weight(weight),
    {
        self.weight = weight;
        self.merged = false;
    }
}

pub(crate) fn clone_option(x: &Option<Array>) -> (r: Option<Array>)
    ensures
        r == *x,
{
    match x {
        Some(a) => Some(a.clone()),
        None => None,
    }
}

impl Adapter for LoraLinear {
    open spec fn a(self) -> Array {
        self.lora_a
    }

    open spec fn b(self) -> Array {
        self.lora_b
    }

    open spec fn with(self, a: Array, b: Array) -> LoraLinear {
        LoraLinear { lora_a: a, lora_b: b, ..self }
    }

    open spec fn trainable(self) -> nat {
        (self.rank * self.in_features + self.out_features * self.rank) as nat
    }

    open spec fn countable(self) -> bool {
        pair_countable(self.in_features, self.out_features, self.rank)
    }

    proof fn lemma_with(self, a: Array, b: Array) {
    }

    fn matrix_a(&self) -> (r: &Array) {
        &self.lora_a
    }

    fn matrix_b(&self) -> (r: &Array) {
        &self.lora_b
    }

    fn put(&mut self, a: Array, b: Array) {
        self.lora_a = a;
        self.lora_b = b;
    }

    fn matrices_mut<'a>(&'a mut self) -> (r: (&'a mut Array, &'a mut Array)) {
        (&mut self.lora_a, &mut self.lora_b)
    }

    fn count(&self) -> (r: usize) {
        self.num_trainable_params()
    }
}

/// Merging twice is merging once. A merge is undone by loading the frozen weight again.
pub proof fn law_merge_undone_by_loading(l: LoraLinear)
    ensures
        l.merge_result().merge_result() == l.merge_result(),
        l.merge_result().merged,
        !l.merged ==> l.merge_result().with_weight(l.weight) == l,
        l.merge_result().lora_a == l.lora_a && l.merge_result().lora_b == l.lora_b,
{
}

/// A merged layer applies one matrix, `W + scale * B @ A`, where an unmerged one applies `W` and
/// the adapter beside it.
pub proof fn law_merged_output(l: LoraLinear, x: Array)
    requires
        !l.merged,
    ensures
        l.merge_result().output(x) == biased(
            dense(
                x,
                plus(
                    l.weight,
                    apply(Function::Scaled(l.scale), matmul(l.lora_b, l.lora_a)),
                ),
            ),
            l.bias,
        ),
{
}

/// The trainable elements are those of the two matrices.
pub proof fn law_trainable_elements(l: LoraLinear)
    requires
        l.well_formed(),
    ensures
        l.trainable() == l.lora_a.shape.count() + l.lora_b.shape.count(),
{
    lemma_matrix_count(l.rank, l.in_features);
    lemma_matrix_count(l.out_features, l.rank);
    assert(l.rank * l.in_features >= 0 && l.out_features * l.rank >= 0) by (nonlinear_arith)
        requires
            l.rank >= 0,
            l.in_features >= 0,
            l.out_features >= 0,
    ;
}

pub(crate) proof fn lemma_matrix_count(m: i32, n: i32)
    ensures
        Shape::D2(m, n).count() == m * n,
{
    assert(1 * 1 * 1 * m * n == m * n) by (nonlinear_arith);
    assert(Shape::D2(m, n).padded() == (1i32, 1i32, 1i32, m, n));
}

} // verus!
