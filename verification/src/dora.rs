//! Adapters that train the magnitudes of a weight's rows beside its direction.

use crate::array::{
    Arithmetic, Array, Function, apply, combine, matmul, plus, reshape, sum_axis, times,
};
use crate::error::{LoraError, checked, misfit, outcome};
use crate::lora::{
    Adapter, LoraLinear, biased, count_pair, dense, pair_countable, run_biased, run_dense,
};
use crate::names::{Half, Proj, Section};
use crate::params::{LoraLayer, ParamMut, Place, at};
use crate::scalar::{F32, Scale};
use crate::shape::Shape;
use vstd::prelude::*;

verus! {

/// The norms of the rows: `[rows, 1]`.
pub open spec fn row_norms(w: Array) -> Array {
    apply(Function::Sqrt, sum_axis(apply(Function::Square, w), 0))
}

pub(crate) fn make_row_norms(w: &Array) -> (r: Array)
    ensures
        r == row_norms(*w),
{
    w.apply(Function::Square).sum_axis(0).apply(Function::Sqrt)
}

/// A linear layer with a frozen weight, a low-rank adapter of its direction and trainable
/// magnitudes.
#[derive(Debug)]
pub struct DoraLinear {
    pub in_features: i32,
    pub out_features: i32,
    pub rank: i32,
    pub scale: Scale,
    /// `[out_features, in_features]`, frozen.
    pub weight: Array,
    /// `[out_features]`, frozen.
    pub bias: Option<Array>,
    /// `[rank, in_features]`, trainable.
    pub lora_a: Array,
    /// `[out_features, rank]`, trainable.
    pub lora_b: Array,
    /// `[out_features]`, trainable.
    pub magnitude: Array,
    /// Whether the weight holds direction and magnitudes already.
    pub merged: bool,
}

impl DoraLinear {
    /// A fresh adapter on a random weight: the magnitudes are the norms of its rows.
    pub open spec fn fresh(
        in_features: i32,
        out_features: i32,
        rank: i32,
        alpha: F32,
        use_rslora: bool,
        use_bias: bool,
    ) -> DoraLinear {
        let l = LoraLinear::fresh(in_features, out_features, rank, alpha, use_rslora, use_bias);
        DoraLinear {
            in_features,
            out_features,
            rank,
            scale: l.scale,
            weight: l.weight,
            bias: l.bias,
            lora_a: l.lora_a,
            lora_b: l.lora_b,
            magnitude: reshape(row_norms(l.weight), Shape::D1(out_features)),
            merged: false,
        }
    }

    /// `W + scale * B @ A`.
    pub open spec fn direction(self) -> Array {
        plus(
            self.weight,
            apply(Function::Scaled(self.scale), matmul(self.lora_b, self.lora_a)),
        )
    }

    /// The rows of the direction, each brought to its magnitude; the weight as it is once it
    /// holds them.
    pub open spec fn effective_weight(self) -> Array {
        if self.merged {
            self.weight
        } else {
            times(
                self.direction(),
                combine(
                    Arithmetic::Divide,
                    reshape(self.magnitude, Shape::D2(self.out_features, 1)),
                    row_norms(self.direction()),
                ),
            )
        }
    }

    pub open spec fn output(self, x: Array) -> Array {
        biased(dense(x, self.effective_weight()), self.bias)
    }

    /// Merging is not refused.
    pub open spec fn mergeable(self) -> bool {
        self.merged || self.effective_weight().fits
    }

    pub open spec fn merge_result(self) -> DoraLinear {
        DoraLinear { weight: self.effective_weight(), merged: true, ..self }
    }

    pub fn new(
        in_features: i32,
        out_features: i32,
        rank: i32,
        alpha: F32,
        use_rslora: bool,
        use_bias: bool,
    ) -> (r: Result<DoraLinear, LoraError>)
        ensures
            match r {
                Ok(l) => in_features >= 0 && out_features >= 0 && rank >= 0 && l
                    == DoraLinear::fresh(
                    in_features,
                    out_features,
                    rank,
                    alpha,
                    use_rslora,
                    use_bias,
                ),
                Err(e) => e is Mlx && !(in_features >= 0 && out_features >= 0 && rank >= 0),
            },
    {
        match LoraLinear::new(in_features, out_features, rank, alpha, use_rslora, use_bias) {
            Ok(l) => {
                let magnitude = make_row_norms(&l.weight).reshape(Shape::D1(out_features));
                Ok(
                    DoraLinear {
                        in_features,
                        out_features,
                        rank,
                        scale: l.scale,
                        weight: l.weight,
                        bias: l.bias,
                        lora_a: l.lora_a,
                        lora_b: l.lora_b,
                        magnitude,
                        merged: false,
                    },
                )
            },
            Err(e) => Err(e),
        }
    }

    fn run_weight(&self) -> (r: Array)
        ensures
            r == self.effective_weight(),
    {
        if self.merged {
            return self.weight.clone();
        }
        let product = self.lora_b.matmul(&self.lora_a);
        let direction = self.weight.add(&product.apply(Function::Scaled(self.scale)));
        let goal = self.magnitude.reshape(Shape::D2(self.out_features, 1));
        let factor = goal.combine(Arithmetic::Divide, &make_row_norms(&direction));
        direction.multiply(&factor)
    }

    pub(crate) fn run(&self, x: &Array) -> (r: Array)
        ensures
            r == self.output(*x),
    {
        run_biased(run_dense(x, &self.run_weight()), &self.bias)
    }

    /// Puts direction and magnitudes into the weight. Refused, with nothing changed, where the
    /// operands do not fit.
    pub fn merge(&mut self) -> (r: Result<(), LoraError>)
        ensures
            match r {
                Ok(_) => old(self).mergeable() && *final(self) == old(self).merge_result(),
                Err(e) => e is Mlx && !old(self).mergeable() && *final(self) == *old(self),
            },
    {
        if !self.merged {
            let weight = self.run_weight();
            if !weight.fits {
                return Err(misfit());
            }
            self.weight = weight;
            self.merged = true;
        }
        Ok(())
    }
}

/// A linear layer with an adapter of one kind or the other.
#[derive(Debug)]
pub enum LinearAdapter {
    Lora(LoraLinear),
    Dora(DoraLinear),
}

impl LinearAdapter {
    pub open spec fn fresh(
        in_features: i32,
        out_features: i32,
        rank: i32,
        alpha: F32,
        use_rslora: bool,
        use_bias: bool,
        use_dora: bool,
    ) -> LinearAdapter {
        if use_dora {
            LinearAdapter::Dora(
                DoraLinear::fresh(in_features, out_features, rank, alpha, use_rslora, use_bias),
            )
        } else {
            LinearAdapter::Lora(
                LoraLinear::fresh(in_features, out_features, rank, alpha, use_rslora, use_bias),
            )
        }
    }

    pub open spec fn output(self, x: Array) -> Array {
        match self {
            LinearAdapter::Lora(l) => l.output(x),
            LinearAdapter::Dora(d) => d.output(x),
        }
    }

    pub open spec fn mergeable(self) -> bool {
        match self {
            LinearAdapter::Lora(l) => l.mergeable(),
            LinearAdapter::Dora(d) => d.mergeable(),
        }
    }

    pub open spec fn merge_result(self) -> LinearAdapter {
        match self {
            LinearAdapter::Lora(l) => LinearAdapter::Lora(l.merge_result()),
            LinearAdapter::Dora(d) => LinearAdapter::Dora(d.merge_result()),
        }
    }

    pub open spec fn frozen_weight(self) -> Array {
        match self {
            LinearAdapter::Lora(l) => l.weight,
            LinearAdapter::Dora(d) => d.weight,
        }
    }

    /// The layer with another frozen weight.
    pub open spec fn with_weight(self, weight: Array) -> LinearAdapter {
        match self {
            LinearAdapter::Lora(l) => LinearAdapter::Lora(l.with_weight(weight)),
            LinearAdapter::Dora(d) => LinearAdapter::Dora(
                DoraLinear { weight, merged: false, ..d },
            ),
        }
    }

    /// The trainable arrays: the two matrices, and the magnitudes where there are any.
    pub open spec fn tensors(self) -> Seq<Array> {
        match self {
            LinearAdapter::Lora(l) => seq![l.lora_a, l.lora_b],
            LinearAdapter::Dora(d) => seq![d.lora_a, d.lora_b, d.magnitude],
        }
    }

    /// The layer with other trainable arrays.
    pub open spec fn with_tensors(self, t: Seq<Array>) -> LinearAdapter {
        match self {
            LinearAdapter::Lora(l) => LinearAdapter::Lora(
                LoraLinear { lora_a: t[0], lora_b: t[1], ..l },
            ),
            LinearAdapter::Dora(d) => LinearAdapter::Dora(
                DoraLinear { lora_a: t[0], lora_b: t[1], magnitude: t[2], ..d },
            ),
        }
    }

    pub fn new(
        in_features: i32,
        out_features: i32,
        rank: i32,
        alpha: F32,
        use_rslora: bool,
        use_bias: bool,
        use_dora: bool,
    ) -> (r: Result<LinearAdapter, LoraError>)
        ensures
            match r {
                Ok(l) => in_features >= 0 && out_features >= 0 && rank >= 0 && l
                    == LinearAdapter::fresh(
                    in_features,
                    out_features,
                    rank,
                    alpha,
                    use_rslora,
                    use_bias,
                    use_dora,
                ),
                Err(e) => e is Mlx && !(in_features >= 0 && out_features >= 0 && rank >= 0),
            },
    {
        if use_dora {
            match DoraLinear::new(in_features, out_features, rank, alpha, use_rslora, use_bias) {
                Ok(d) => Ok(LinearAdapter::Dora(d)),
                Err(e) => Err(e),
            }
        } else {
            match LoraLinear::new(in_features, out_features, rank, alpha, use_rslora, use_bias) {
                Ok(l) => Ok(LinearAdapter::Lora(l)),
                Err(e) => Err(e),
            }
        }
    }

    pub(crate) fn run(&self, x: &Array) -> (r: Array)
        ensures
            r == self.output(*x),
    {
        match self {
            LinearAdapter::Lora(l) => l.run(x),
            LinearAdapter::Dora(d) => d.run(x),
        }
    }

    /// The layer's output.
    pub fn forward(&self, x: &Array) -> (r: Result<Array, LoraError>)
        ensures
            outcome(r, self.output(*x)),
    {
        checked(self.run(x))
    }

    /// Puts what is trained into the weight. Refused, with nothing changed, where the operands do
    /// not fit.
    pub fn merge(&mut self) -> (r: Result<(), LoraError>)
        ensures
            match r {
                Ok(_) => old(self).mergeable() && *final(self) == old(self).merge_result(),
                Err(e) => e is Mlx && !old(self).mergeable() && *final(self) == *old(self),
            },
    {
        match self {
            LinearAdapter::Lora(l) => l.merge(),
            LinearAdapter::Dora(d) => d.merge(),
        }
    }

    pub fn weight(&self) -> (r: &Array)
        ensures
            *r == self.frozen_weight(),
    {
        match self {
            LinearAdapter::Lora(l) => &l.weight,
            LinearAdapter::Dora(d) => &d.weight,
        }
    }

    pub(crate) fn put_weight(&mut self, weight: Array)
        ensures
            *final(self) == old(self).with_weight(weight),
    {
        match self {
            LinearAdapter::Lora(l) => {
                l.put_weight(weight);
            },
            LinearAdapter::Dora(d) => {
                d.weight = weight;
                d.merged = false;
            },
        }
    }

    /// The number of trainable elements.
    pub fn num_trainable_params(&self) -> (r: usize)
        requires
            self.countable(),
        ensures
            r == self.trainable(),
    {
        match self {
            LinearAdapter::Lora(l) => l.num_trainable_params(),
            LinearAdapter::Dora(d) => count_pair(d.in_features, d.out_features, d.rank)
                + d.out_features as usize,
        }
    }
}

impl Adapter for LinearAdapter {
    open spec fn a(self) -> Array {
        match self {
            LinearAdapter::Lora(l) => l.lora_a,
            LinearAdapter::Dora(d) => d.lora_a,
        }
    }

    open spec fn b(self) -> Array {
        match self {
            LinearAdapter::Lora(l) => l.lora_b,
            LinearAdapter::Dora(d) => d.lora_b,
        }
    }

    open spec fn with(self, a: Array, b: Array) -> LinearAdapter {
        match self {
            LinearAdapter::Lora(l) => LinearAdapter::Lora(
                LoraLinear { lora_a: a, lora_b: b, ..l },
            ),
            LinearAdapter::Dora(d) => LinearAdapter::Dora(
                DoraLinear { lora_a: a, lora_b: b, ..d },
            ),
        }
    }

    open spec fn trainable(self) -> nat {
        match self {
            LinearAdapter::Lora(l) => l.trainable(),
            LinearAdapter::Dora(d) => (d.rank * d.in_features + d.out_features * d.rank
                + d.out_features) as nat,
        }
    }

    open spec fn countable(self) -> bool {
        match self {
            LinearAdapter::Lora(l) => l.countable(),
            LinearAdapter::Dora(d) => pair_countable(d.in_features, d.out_features, d.rank)
                && d.rank * d.in_features + d.out_features * d.rank + d.out_features <= usize::MAX,
        }
    }

    proof fn lemma_with(self, a: Array, b: Array) {
    }

    fn matrix_a(&self) -> (r: &Array) {
        match self {
            LinearAdapter::Lora(l) => &l.lora_a,
            LinearAdapter::Dora(d) => &d.lora_a,
        }
    }

    fn matrix_b(&self) -> (r: &Array) {
        match self {
            LinearAdapter::Lora(l) => &l.lora_b,
            LinearAdapter::Dora(d) => &d.lora_b,
        }
    }

    fn put(&mut self, a: Array, b: Array) {
        match self {
            LinearAdapter::Lora(l) => {
                l.lora_a = a;
                l.lora_b = b;
            },
            LinearAdapter::Dora(d) => {
                d.lora_a = a;
                d.lora_b = b;
            },
        }
    }

    fn matrices_mut<'a>(&'a mut self) -> (r: (&'a mut Array, &'a mut Array)) {
        match self {
            LinearAdapter::Lora(l) => (&mut l.lora_a, &mut l.lora_b),
            LinearAdapter::Dora(d) => (&mut d.lora_a, &mut d.lora_b),
        }
    }

    fn count(&self) -> (r: usize) {
        self.num_trainable_params()
    }
}

/// Which trainable array of an adapter stands at place `j`.
pub open spec fn tensor_half(j: int) -> Half {
    if j == 0 {
        Half::A
    } else if j == 1 {
        Half::B
    } else {
        Half::Magnitude
    }
}

/// The trainable arrays of one adapter, open to replacement.
pub struct AdapterParamMut<'a> {
    pub place: Place,
    pub entries: Vec<ParamMut<'a>>,
}

pub(crate) fn adapter_tensors_mut<'a>(l: &'a mut LinearAdapter, section: Section, proj: Proj) -> (r:
    AdapterParamMut<'a>)
    ensures
        r.place == at(section, proj),
        r.entries@.len() == old(l).tensors().len(),
        forall|j: int|
            0 <= j < r.entries@.len() ==> {
                &&& (#[trigger] r.entries@[j]).place == at(section, proj)
                &&& r.entries@[j].half == tensor_half(j)
                &&& *r.entries@[j].value == old(l).tensors()[j]
            },
        *final(l) == old(l).with_tensors(
            Seq::new(r.entries@.len(), |j: int| *final(r.entries@[j].value)),
        ),
{
    let place = Place { section, proj };
    let mut entries: Vec<ParamMut<'a>> = Vec::new();
    match l {
        LinearAdapter::Lora(l) => {
            entries.push(ParamMut { place, half: Half::A, value: &mut l.lora_a });
            entries.push(ParamMut { place, half: Half::B, value: &mut l.lora_b });
        },
        LinearAdapter::Dora(d) => {
            entries.push(ParamMut { place, half: Half::A, value: &mut d.lora_a });
            entries.push(ParamMut { place, half: Half::B, value: &mut d.lora_b });
            entries.push(ParamMut { place, half: Half::Magnitude, value: &mut d.magnitude });
        },
    }
    AdapterParamMut { place, entries }
}

} // verus!
