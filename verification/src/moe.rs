//! Frozen mixtures of experts.

use crate::array::{
    Args, Array, Kernel, RouterConfig, Source, arg, kernel, make_arg, source, stacked,
};
use crate::nn::Linear;
use crate::shape::Shape;
use vstd::prelude::*;

verus! {

/// A frozen expert.
#[derive(Debug)]
pub struct Expert {
    pub up_proj: Linear,
    pub down_proj: Linear,
}

/// What picks experts for a token.
#[derive(Debug)]
pub struct Router {
    /// `[experts, features]`.
    pub gate: Linear,
    /// `[experts]`, added to the scores by which experts are picked.
    pub e_score_correction_bias: Array,
}

/// A frozen mixture: a router and the experts that it picks from.
#[derive(Debug)]
pub struct MoELayer {
    pub config: RouterConfig,
    pub hidden_size: i32,
    pub inner_size: i32,
    pub router: Router,
    pub experts: Vec<Expert>,
}

pub open spec fn up_weights(experts: Seq<Expert>) -> Seq<Array> {
    Seq::new(experts.len(), |i: int| experts[i].up_proj.weight)
}

pub open spec fn down_weights(experts: Seq<Expert>) -> Seq<Array> {
    Seq::new(experts.len(), |i: int| experts[i].down_proj.weight)
}

/// The bias, or zeros where there is none.
pub open spec fn bias_or_zeros(l: Linear, n: i32) -> Array {
    match l.bias {
        Some(b) => b,
        None => source(Source::Zeros, Shape::D1(n)),
    }
}

fn make_bias_or_zeros(l: &Linear, n: i32) -> (r: Array)
    ensures
        r == bias_or_zeros(*l, n),
{
    match &l.bias {
        Some(b) => b.clone(),
        None => Array::from_source(Source::Zeros, Shape::D1(n)),
    }
}

pub open spec fn up_biases(experts: Seq<Expert>, n: i32) -> Seq<Array> {
    Seq::new(experts.len(), |i: int| bias_or_zeros(experts[i].up_proj, n))
}

pub open spec fn down_biases(experts: Seq<Expert>, n: i32) -> Seq<Array> {
    Seq::new(experts.len(), |i: int| bias_or_zeros(experts[i].down_proj, n))
}

/// The items one behind the other.
pub(crate) fn stack_all(xs: &Vec<Array>, empty: Shape) -> (r: Array)
    ensures
        r == stacked(xs@, empty),
{
    let mut r = Array::from_source(Source::Zeros, empty);
    let mut i: usize = 0;
    assert(xs@.take(0) =~= Seq::<Array>::empty());
    while i < xs.len()
        invariant
            i <= xs@.len(),
            r == stacked(xs@.take(i as int), empty),
        decreases xs.len() - i,
    {
        r = r.stack_onto(&xs[i]);
        assert(xs@.take(i + 1).drop_last() =~= xs@.take(i as int));
        i = i + 1;
    }
    assert(xs@.take(i as int) =~= xs@);
    r
}

impl MoELayer {
    /// A fresh expert.
    pub open spec fn fresh_expert(hidden: i32, inner: i32, bias: bool) -> Expert {
        Expert {
            up_proj: Linear::fresh(hidden, inner, bias),
            down_proj: Linear::fresh(inner, hidden, bias),
        }
    }

    /// The mixture that the settings give, before any weight is loaded.
    pub open spec fn is_fresh(
        self,
        config: RouterConfig,
        hidden: i32,
        inner: i32,
        bias: bool,
    ) -> bool {
        &&& self.config == config
        &&& self.hidden_size == hidden
        &&& self.inner_size == inner
        &&& self.router.gate == Linear::fresh(hidden, config.num_experts, false)
        &&& self.router.e_score_correction_bias == source(
            Source::Zeros,
            Shape::D1(config.num_experts),
        )
        &&& self.experts@.len() == (if config.num_experts > 0 {
            config.num_experts as nat
        } else {
            0
        })
        &&& forall|i: int|
            0 <= i < self.experts@.len() ==> #[trigger] self.experts@[i] == MoELayer::fresh_expert(
                hidden,
                inner,
                bias,
            )
    }

    /// The experts' first weights, stacked.
    pub open spec fn up_stack(self) -> Array {
        stacked(up_weights(self.experts@), Shape::D3(0, self.inner_size, self.hidden_size))
    }

    /// The experts' second weights, stacked.
    pub open spec fn down_stack(self) -> Array {
        stacked(down_weights(self.experts@), Shape::D3(0, self.hidden_size, self.inner_size))
    }

    /// The experts' first biases, stacked.
    pub open spec fn up_bias_stack(self) -> Array {
        stacked(up_biases(self.experts@, self.inner_size), Shape::D2(0, self.inner_size))
    }

    /// The experts' second biases, stacked.
    pub open spec fn down_bias_stack(self) -> Array {
        stacked(down_biases(self.experts@, self.hidden_size), Shape::D2(0, self.hidden_size))
    }

    /// What the mixing depends on.
    pub open spec fn args(self, x: Array, up: Array, down: Array) -> Args {
        arg(
            Some(x),
            arg(
                Some(self.router.gate.weight),
                arg(
                    Some(self.router.e_score_correction_bias),
                    arg(
                        Some(up),
                        arg(
                            Some(down),
                            arg(
                                Some(self.up_bias_stack()),
                                arg(Some(self.down_bias_stack()), Args::Nil),
                            ),
                        ),
                    ),
                ),
            ),
        )
    }

    /// The weighted outputs of the picked experts, expert by expert.
    pub open spec fn output(self, x: Array) -> Array {
        kernel(
            Kernel::RouteEach(self.config),
            self.args(x, self.up_stack(), self.down_stack()),
            x.shape,
            x.shape.rank() >= 1 && x.shape.inner() == self.hidden_size,
        )
    }

    /// The same from weights that are stacked already.
    pub open spec fn stacked_output(self, x: Array, up: Array, down: Array) -> Array {
        kernel(
            Kernel::RouteStacked(self.config),
            self.args(x, up, down),
            x.shape,
            x.shape.rank() >= 1 && x.shape.inner() == self.hidden_size,
        )
    }

    pub fn new(config: RouterConfig, hidden: i32, inner: i32, bias: bool) -> (r: MoELayer)
        ensures
            r.is_fresh(config, hidden, inner, bias),
    {
        let mut experts: Vec<Expert> = Vec::new();
        let mut i: i32 = 0;
        while i < config.num_experts
            invariant
                0 <= i,
                i <= config.num_experts || i == 0,
                experts@.len() == i,
                forall|j: int|
                    0 <= j < i ==> #[trigger] experts@[j] == MoELayer::fresh_expert(
                        hidden,
                        inner,
                        bias,
                    ),
            decreases config.num_experts - i,
        {
            experts.push(
                Expert {
                    up_proj: Linear::new(hidden, inner, bias),
                    down_proj: Linear::new(inner, hidden, bias),
                },
            );
            i = i + 1;
        }
        MoELayer {
            config,
            hidden_size: hidden,
            inner_size: inner,
            router: Router {
                gate: Linear::new(hidden, config.num_experts, false),
                e_score_correction_bias: Array::from_source(
                    Source::Zeros,
                    Shape::D1(config.num_experts),
                ),
            },
            experts,
        }
    }

    fn stack_up(&self) -> (r: Array)
        ensures
            r == self.up_stack(),
    {
        let ghost all = up_weights(self.experts@);
        let mut xs: Vec<Array> = Vec::new();
        let mut i: usize = 0;
        while i < self.experts.len()
            invariant
                i <= self.experts@.len(),
                all == up_weights(self.experts@),
                xs@ == all.take(i as int),
            decreases self.experts.len() - i,
        {
            xs.push(self.experts[i].up_proj.weight.clone());
            assert(xs@ =~= all.take(i + 1));
            i = i + 1;
        }
        assert(xs@ =~= all);
        stack_all(&xs, Shape::D3(0, self.inner_size, self.hidden_size))
    }

    fn stack_down(&self) -> (r: Array)
        ensures
            r == self.down_stack(),
    {
        let ghost all = down_weights(self.experts@);
        let mut xs: Vec<Array> = Vec::new();
        let mut i: usize = 0;
        while i < self.experts.len()
            invariant
                i <= self.experts@.len(),
                all == down_weights(self.experts@),
                xs@ == all.take(i as int),
            decreases self.experts.len() - i,
        {
            xs.push(self.experts[i].down_proj.weight.clone());
            assert(xs@ =~= all.take(i + 1));
            i = i + 1;
        }
        assert(xs@ =~= all);
        stack_all(&xs, Shape::D3(0, self.hidden_size, self.inner_size))
    }

    fn stack_up_bias(&self) -> (r: Array)
        ensures
            r == self.up_bias_stack(),
    {
        let ghost all = up_biases(self.experts@, self.inner_size);
        let mut xs: Vec<Array> = Vec::new();
        let mut i: usize = 0;
        while i < self.experts.len()
            invariant
                i <= self.experts@.len(),
                all == up_biases(self.experts@, self.inner_size),
                xs@ == all.take(i as int),
            decreases self.experts.len() - i,
        {
            xs.push(make_bias_or_zeros(&self.experts[i].up_proj, self.inner_size));
            assert(xs@ =~= all.take(i + 1));
            i = i + 1;
        }
        assert(xs@ =~= all);
        stack_all(&xs, Shape::D2(0, self.inner_size))
    }

    fn stack_down_bias(&self) -> (r: Array)
        ensures
            r == self.down_bias_stack(),
    {
        let ghost all = down_biases(self.experts@, self.hidden_size);
        let mut xs: Vec<Array> = Vec::new();
        let mut i: usize = 0;
        while i < self.experts.len()
            invariant
                i <= self.experts@.len(),
                all == down_biases(self.experts@, self.hidden_size),
                xs@ == all.take(i as int),
            decreases self.experts.len() - i,
        {
            xs.push(make_bias_or_zeros(&self.experts[i].down_proj, self.hidden_size));
            assert(xs@ =~= all.take(i + 1));
            i = i + 1;
        }
        assert(xs@ =~= all);
        stack_all(&xs, Shape::D2(0, self.hidden_size))
    }

    fn make_args(&self, x: &Array, up: &Array, down: &Array) -> (r: Args)
        ensures
            r == self.args(*x, *up, *down),
    {
        let r = make_arg(Some(&self.stack_down_bias()), Args::Nil);
        let r = make_arg(Some(&self.stack_up_bias()), r);
        let r = make_arg(Some(up), make_arg(Some(down), r));
        let r = make_arg(Some(&self.router.e_score_correction_bias), r);
        make_arg(Some(x), make_arg(Some(&self.router.gate.weight), r))
    }

    pub(crate) fn run(&self, x: &Array) -> (r: Array)
        ensures
            r == self.output(*x),
    {
        let args = self.make_args(x, &self.stack_up(), &self.stack_down());
        let fits = x.shape.num_axes() >= 1 && x.shape.pad().4 == self.hidden_size;
        Array::kernel(Kernel::RouteEach(self.config), args, x.shape, fits)
    }

    pub(crate) fn run_stacked(&self, x: &Array, up: &Array, down: &Array) -> (r: Array)
        ensures
            r == self.stacked_output(*x, *up, *down),
    {
        let args = self.make_args(x, up, down);
        let fits = x.shape.num_axes() >= 1 && x.shape.pad().4 == self.hidden_size;
        Array::kernel(Kernel::RouteStacked(self.config), args, x.shape, fits)
    }
}

} // verus!
