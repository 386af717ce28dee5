//! Lazily evaluated arrays.
//!
//! An [`Array`] is a node of a computation: what it is made from, and the shape that follows.
//! Building a node computes no element. A tensor runtime evaluates nodes.

use crate::mamba::Conv1d;
use crate::nn::RmsNorm;
use crate::quantization::QuantScheme;
use crate::scalar::{F32, Scale};
use crate::shape::{Shape, make_of_rank, of_rank};
use std::rc::Rc;
use vstd::prelude::*;

verus! {

/// A function of one array that keeps its shape.
#[derive(Clone, Copy, PartialEq, Eq, Structural, Debug)]
pub enum Function {
    Silu,
    Gelu,
    Relu,
    Square,
    Sqrt,
    Sigmoid,
    Softplus,
    Negative,
    Exp,
    /// Along the innermost axis.
    Softmax,
    /// Every element times a factor.
    Scaled(Scale),
    /// To single precision.
    ToFloat32,
    /// To integers.
    ToInt32,
    /// The natural logarithm.
    Log,
}

/// A function of two arrays that broadcast to one shape.
#[derive(Clone, Copy, PartialEq, Eq, Structural, Debug)]
pub enum Arithmetic {
    Add,
    Subtract,
    Multiply,
    Divide,
    Maximum,
}

/// How an array comes into being.
#[derive(Clone, Copy, PartialEq, Eq, Structural, Debug)]
pub enum Source {
    /// An array that the runtime holds under this number.
    Held(u64),
    Zeros,
    Ones,
    /// Drawn afresh, evenly between minus and plus `sqrt(3 / fan_in)`. Equal nodes stand for
    /// equal distributions, not for equal elements.
    Uniform { fan_in: i32 },
    /// Drawn afresh, evenly between minus and plus `1 / sqrt(n)`.
    UniformInverseSqrt { n: i32 },
    /// Drawn afresh, evenly between the two numbers.
    UniformBetween { low: F32, high: F32 },
    /// Drawn afresh from the standard normal distribution.
    Normal,
    /// Zero on and below the diagonal, minus infinity above.
    CausalMask,
    /// The same number everywhere.
    Full { value: F32 },
}

/// Which keys a query may see.
#[derive(Clone, Copy, PartialEq, Eq, Structural, Debug)]
pub enum AttentionMaskType {
    /// Every key, but for an explicit mask.
    Unmasked,
    Causal,
    SlidingWindow(i32),
}

/// The settings of one fused attention.
#[derive(Clone, Copy, PartialEq, Eq, Structural, Debug)]
pub struct FusedAttentionConfig {
    pub num_heads: i32,
    pub num_kv_heads: i32,
    pub head_dim: i32,
    pub scale: Scale,
    pub mask_type: AttentionMaskType,
}

/// Rotary position embedding: how many features rotate, the base of the frequencies, and the
/// factor on the positions.
#[derive(Clone, Copy, PartialEq, Eq, Structural, Debug)]
pub struct RopeConfig {
    pub dims: i32,
    pub base: F32,
    pub scale: F32,
}

/// How weights are quantized: elements to a block, and whether the blocks' scales are
/// stored in fewer bits too.
#[derive(Clone, Copy, PartialEq, Eq, Structural, Debug)]
pub struct NF4Config {
    pub block_size: usize,
    pub double_quant: bool,
}

/// The settings of a state-space mixer.
#[derive(Clone, Copy, PartialEq, Eq, Structural, Debug)]
pub struct MambaConfig {
    pub num_heads: i32,
    pub head_dim: i32,
    pub state_size: i32,
    pub conv_kernel: i32,
    pub n_groups: i32,
    pub time_step_min: F32,
    pub time_step_max: F32,
    pub eps: F32,
}

/// The settings of a router of experts.
#[derive(Clone, Copy, PartialEq, Eq, Structural, Debug)]
pub struct RouterConfig {
    pub num_experts: i32,
    pub top_k: i32,
    pub n_group: i32,
    pub topk_group: i32,
    pub norm_topk_prob: bool,
    pub routed_scaling_factor: F32,
}

/// A computation that the runtime brings along.
#[derive(Clone, Copy, PartialEq, Eq, Structural, Debug)]
pub enum Kernel {
    /// The output of a state-space mixer.
    Mamba(MambaConfig),
    /// The state of its convolution behind it.
    MambaConvState(MambaConfig),
    /// The state of its recurrence behind it.
    MambaSsmState(MambaConfig),
    /// The weighted outputs of the experts that a router picks, expert by expert.
    RouteEach(RouterConfig),
    /// The same from weights that are stacked already.
    RouteStacked(RouterConfig),
    /// The places of the `k` greatest numbers of each row.
    TopIndices { k: i32 },
    /// The `k` greatest numbers of each row; divided by their sum, where so wanted.
    TopWeights { k: i32, normalized: bool },
    /// The items of a stack that the indices name.
    Take,
    /// The places of the numbers of each row, the least first.
    ArgSort,
    /// The numbers of each row at the places that the same row of another array names.
    TakeAlong,
    /// Each row times the transposes of the matrices of a stack that the row's indices name.
    GatherMatmul,
    /// The numbers where a condition holds, and zero elsewhere.
    KeepWhere,
    /// Convolution along the second axis, each group of channels for itself.
    Conv1d { groups: i32 },
    /// The outputs of a gated delta rule. In training, step by step.
    GatedDelta { training: bool },
    /// The state behind them.
    GatedDeltaState { training: bool },
}

/// What a kernel is given, some of which may be absent.
#[derive(Debug)]
pub enum Args {
    Nil,
    Cons(Option<Array>, Rc<Args>),
}

/// What an array is made from.
#[allow(inconsistent_fields)]
#[derive(Debug)]
pub enum Node {
    Source(Source),
    Apply(Function, Array),
    Combine(Arithmetic, Array, Array),
    Matmul(Array, Array),
    /// The axes in the opposite order.
    Transpose(Array),
    /// The two middle ones of four axes exchanged.
    SwapMiddle(Array),
    /// The two innermost axes exchanged.
    SwapInner(Array),
    /// The same elements in another shape.
    Reshape(Array),
    BroadcastTo(Array),
    /// The part from `from` up to `to` along the axis that is `depth` axes from the innermost.
    Slice { x: Array, depth: u8, from: i32, to: i32 },
    /// Two arrays one behind the other along the axis that is `depth` axes from the innermost.
    Concat { a: Array, b: Array, depth: u8 },
    /// A weight as its quantized form gives it back.
    Dequantize { weight: Array, config: NF4Config, scheme: QuantScheme },
    /// The sums along the axis that is `depth` axes from the innermost, which stays with extent
    /// one.
    SumAxis { x: Array, depth: u8 },
    /// The arrays of a stack and one more behind them.
    StackOnto(Array, Array),
    Kernel(Kernel, Args),
    RmsNorm { x: Array, weight: Array, eps: F32 },
    /// The rows of a table that the indices name.
    Embed { ids: Array, table: Array },
    Rope { x: Array, config: RopeConfig, offset: i32 },
    RopeAt { x: Array, config: RopeConfig, positions: Array },
    Attend { q: Array, k: Array, v: Array, config: FusedAttentionConfig, mask: Option<Array> },
    /// The same attention by the kernel that keeps what a backward pass needs, under the number
    /// of the layer.
    FlashAttend { layer: usize, q: Array, k: Array, v: Array, config: FusedAttentionConfig },
}

/// A lazily evaluated array.
#[derive(Debug)]
pub struct Array {
    pub shape: Shape,
    /// Whether each operation below, this one included, got operands of fitting shapes.
    pub fits: bool,
    pub node: Rc<Node>,
}

impl Clone for Array {
    fn clone(&self) -> (r: Array)
        ensures
            r == *self,
    {
        Array { shape: self.shape, fits: self.fits, node: self.node.clone() }
    }
}

pub open spec fn make(shape: Shape, fits: bool, node: Node) -> Array {
    Array { shape, fits, node: Rc::new(node) }
}

pub open spec fn source(s: Source, shape: Shape) -> Array {
    make(shape, true, Node::Source(s))
}

#[verifier::opaque]
pub open spec fn apply(f: Function, x: Array) -> Array {
    make(x.shape, x.fits, Node::Apply(f, x))
}

#[verifier::opaque]
pub open spec fn combine(f: Arithmetic, a: Array, b: Array) -> Array {
    match a.shape.broadcast_with(b.shape) {
        Some(s) => make(s, a.fits && b.fits, Node::Combine(f, a, b)),
        None => make(a.shape, false, Node::Combine(f, a, b)),
    }
}

pub open spec fn plus(a: Array, b: Array) -> Array {
    combine(Arithmetic::Add, a, b)
}

pub open spec fn times(a: Array, b: Array) -> Array {
    combine(Arithmetic::Multiply, a, b)
}

/// A vector counts as a row on the left and as a column on the right; its added axis goes.
pub open spec fn matmul_shape(a: Shape, b: Shape) -> Option<Shape> {
    if a.rank() == 0 || b.rank() == 0 {
        None
    } else if a.rank() == 1 && b.rank() == 1 {
        if a.inner() == b.inner() {
            Some(Shape::D0)
        } else {
            None
        }
    } else if a.rank() == 1 {
        match Shape::D2(1, a.inner()).matrix_product(b) {
            Some(s) => Some(s.pop().pop().push(s.inner())),
            None => None,
        }
    } else if b.rank() == 1 {
        match a.matrix_product(Shape::D2(b.inner(), 1)) {
            Some(s) => Some(s.pop()),
            None => None,
        }
    } else {
        a.matrix_product(b)
    }
}

#[verifier::opaque]
pub open spec fn matmul(a: Array, b: Array) -> Array {
    match matmul_shape(a.shape, b.shape) {
        Some(s) => make(s, a.fits && b.fits, Node::Matmul(a, b)),
        None => make(a.shape, false, Node::Matmul(a, b)),
    }
}

/// All arrays that are there are made of fitting operands.
pub open spec fn args_fit(args: Args) -> bool
    decreases args,
{
    match args {
        Args::Nil => true,
        Args::Cons(x, rest) => mask_fits(x) && args_fit(*rest),
    }
}

/// What a kernel gives for its arguments, of the given shape.
#[verifier::opaque]
pub open spec fn kernel(k: Kernel, args: Args, shape: Shape, fits: bool) -> Array {
    make(shape, args_fit(args) && fits, Node::Kernel(k, args))
}

/// One more argument in front.
pub open spec fn arg(x: Option<Array>, rest: Args) -> Args {
    Args::Cons(x, Rc::new(rest))
}

/// The shape of a stack after one more item of the given shape.
pub open spec fn stack_shape(stack: Shape, x: Shape) -> Option<Shape> {
    match (stack, x) {
        (Shape::D2(n, c), Shape::D1(xc)) => if c == xc && 0 <= n < i32::MAX {
            Some(Shape::D2((n + 1) as i32, c))
        } else {
            None
        },
        (Shape::D3(n, r, c), Shape::D2(xr, xc)) => if r == xr && c == xc && 0 <= n < i32::MAX {
            Some(Shape::D3((n + 1) as i32, r, c))
        } else {
            None
        },
        _ => None,
    }
}

/// One more item behind those of a stack.
#[verifier::opaque]
pub open spec fn stack_onto(stack: Array, x: Array) -> Array {
    match stack_shape(stack.shape, x.shape) {
        Some(s) => make(s, stack.fits && x.fits, Node::StackOnto(stack, x)),
        None => make(stack.shape, false, Node::StackOnto(stack, x)),
    }
}

/// The items one behind the other, from a stack of the given shape that holds none.
pub open spec fn stacked(xs: Seq<Array>, empty: Shape) -> Array
    decreases xs.len(),
{
    if xs.len() == 0 {
        source(Source::Zeros, empty)
    } else {
        stack_onto(stacked(xs.drop_last(), empty), xs.last())
    }
}

#[verifier::opaque]
pub open spec fn transpose(x: Array) -> Array {
    make(x.shape.reversed(), x.fits, Node::Transpose(x))
}

#[verifier::opaque]
pub open spec fn swap_middle(x: Array) -> Array {
    match x.shape {
        Shape::D4(a, b, c, d) => make(Shape::D4(a, c, b, d), x.fits, Node::SwapMiddle(x)),
        _ => make(x.shape, false, Node::SwapMiddle(x)),
    }
}

#[verifier::opaque]
pub open spec fn swap_inner(x: Array) -> Array {
    match x.shape {
        Shape::D2(a, b) => make(Shape::D2(b, a), x.fits, Node::SwapInner(x)),
        Shape::D3(a, b, c) => make(Shape::D3(a, c, b), x.fits, Node::SwapInner(x)),
        Shape::D4(a, b, c, d) => make(Shape::D4(a, b, d, c), x.fits, Node::SwapInner(x)),
        Shape::D5(a, b, c, d, e) => make(Shape::D5(a, b, c, e, d), x.fits, Node::SwapInner(x)),
        _ => make(x.shape, false, Node::SwapInner(x)),
    }
}

#[verifier::opaque]
pub open spec fn reshape(x: Array, shape: Shape) -> Array {
    let fits = x.shape.countable() && shape.nonnegative() && shape.count() == x.shape.count();
    make(shape, x.fits && fits, Node::Reshape(x))
}

/// Three axes, the innermost of which takes what the given two leave.
#[verifier::opaque]
pub open spec fn reshape_rest(x: Array, a: i32, b: i32) -> Array {
    let known = a * b;
    if x.shape.countable() && a > 0 && b > 0 && x.shape.count() % known == 0
        && x.shape.count() / known <= i32::MAX {
        make(
            Shape::D3(a, b, (x.shape.count() / known) as i32),
            x.fits,
            Node::Reshape(x),
        )
    } else {
        make(Shape::D3(a, b, 0), false, Node::Reshape(x))
    }
}

#[verifier::opaque]
pub open spec fn broadcast_to(x: Array, shape: Shape) -> Array {
    make(shape, x.fits && x.shape.broadcast_with(shape) == Some(shape), Node::BroadcastTo(x))
}

/// The extent of the axis that is `depth` axes from the innermost.
pub open spec fn extent_at(s: Shape, depth: u8) -> i32 {
    let d = s.padded();
    if depth == 0 {
        d.4
    } else if depth == 1 {
        d.3
    } else if depth == 2 {
        d.2
    } else if depth == 3 {
        d.1
    } else {
        d.0
    }
}

/// The shape with another extent for the axis that is `depth` axes from the innermost.
pub open spec fn with_extent(s: Shape, depth: u8, n: i32) -> Shape {
    let d = s.padded();
    let e = if depth == 0 {
        (d.0, d.1, d.2, d.3, n)
    } else if depth == 1 {
        (d.0, d.1, d.2, n, d.4)
    } else if depth == 2 {
        (d.0, d.1, n, d.3, d.4)
    } else if depth == 3 {
        (d.0, n, d.2, d.3, d.4)
    } else {
        (n, d.1, d.2, d.3, d.4)
    };
    of_rank(s.rank(), e)
}

#[verifier::opaque]
pub open spec fn slice(x: Array, depth: u8, from: i32, to: i32) -> Array {
    if depth < x.shape.rank() && 0 <= from <= to && to <= extent_at(x.shape, depth) {
        make(
            with_extent(x.shape, depth, (to - from) as i32),
            x.fits,
            Node::Slice { x, depth, from, to },
        )
    } else {
        make(x.shape, false, Node::Slice { x, depth, from, to })
    }
}

#[verifier::opaque]
pub open spec fn concat(a: Array, b: Array, depth: u8) -> Array {
    let n = extent_at(a.shape, depth) + extent_at(b.shape, depth);
    if a.shape.rank() == b.shape.rank() && depth < a.shape.rank() && i32::MIN <= n <= i32::MAX
        && with_extent(a.shape, depth, 0) == with_extent(b.shape, depth, 0) {
        make(
            with_extent(a.shape, depth, n as i32),
            a.fits && b.fits,
            Node::Concat { a, b, depth },
        )
    } else {
        make(a.shape, false, Node::Concat { a, b, depth })
    }
}

#[verifier::opaque]
pub open spec fn dequantize(
    weight: Array,
    config: NF4Config,
    scheme: QuantScheme,
    rows: i32,
    columns: i32,
) -> Array {
    make(
        Shape::D2(rows, columns),
        weight.fits && weight.shape == Shape::D2(rows, columns),
        Node::Dequantize { weight, config, scheme },
    )
}

#[verifier::opaque]
pub open spec fn sum_axis(x: Array, depth: u8) -> Array {
    if depth < x.shape.rank() {
        make(with_extent(x.shape, depth, 1), x.fits, Node::SumAxis { x, depth })
    } else {
        make(x.shape, false, Node::SumAxis { x, depth })
    }
}

#[verifier::opaque]
pub open spec fn rms_norm(x: Array, weight: Array, eps: F32) -> Array {
    let fits = x.shape.rank() >= 1 && weight.shape == Shape::D1(x.shape.inner());
    make(x.shape, x.fits && weight.fits && fits, Node::RmsNorm { x, weight, eps })
}

#[verifier::opaque]
pub open spec fn embed(ids: Array, table: Array) -> Array {
    match table.shape {
        Shape::D2(_, d) => make(
            ids.shape.push(d),
            ids.fits && table.fits && ids.shape.rank() <= 4,
            Node::Embed { ids, table },
        ),
        _ => make(ids.shape.push(0), false, Node::Embed { ids, table }),
    }
}

#[verifier::opaque]
pub open spec fn rope(x: Array, config: RopeConfig, offset: i32) -> Array {
    make(x.shape, x.fits && x.shape.rank() >= 3, Node::Rope { x, config, offset })
}

#[verifier::opaque]
pub open spec fn rope_at(x: Array, config: RopeConfig, positions: Array) -> Array {
    make(
        x.shape,
        x.fits && positions.fits && x.shape.rank() >= 3,
        Node::RopeAt { x, config, positions },
    )
}

/// Queries, keys and values `[batch, heads, length, features]` fit one attention: one batch,
/// as many keys as values, key features as query features, and a whole number of query heads
/// to each key head.
pub open spec fn attention_fits(
    q: Shape,
    k: Shape,
    v: Shape,
    config: FusedAttentionConfig,
) -> bool {
    match (q, k, v) {
        (Shape::D4(b, h, _, d), Shape::D4(kb, kh, s, kd), Shape::D4(vb, vh, vs, _)) => {
            &&& b == kb && b == vb
            &&& kh == vh && s == vs && d == kd
            &&& h == config.num_heads && kh == config.num_kv_heads && d == config.head_dim
            &&& kh > 0 && h >= 0 && h % kh == 0
        },
        _ => false,
    }
}

pub open spec fn mask_fits(mask: Option<Array>) -> bool {
    mask matches Some(m) ==> m.fits
}

#[verifier::opaque]
pub open spec fn attend(
    q: Array,
    k: Array,
    v: Array,
    config: FusedAttentionConfig,
    mask: Option<Array>,
) -> Array {
    make(
        q.shape.with_inner(v.shape.inner()),
        q.fits && k.fits && v.fits && mask_fits(mask) && attention_fits(
            q.shape,
            k.shape,
            v.shape,
            config,
        ),
        Node::Attend { q, k, v, config, mask },
    )
}

#[verifier::opaque]
pub open spec fn flash_attend(
    layer: usize,
    q: Array,
    k: Array,
    v: Array,
    config: FusedAttentionConfig,
) -> Array {
    make(
        q.shape.with_inner(v.shape.inner()),
        q.fits && k.fits && v.fits && attention_fits(q.shape, k.shape, v.shape, config),
        Node::FlashAttend { layer, q, k, v, config },
    )
}

impl Array {
    /// An array that the runtime holds under `id`.
    pub fn held(id: u64, shape: Shape) -> (r: Array)
        ensures
            r == source(Source::Held(id), shape),
    {
        Array::from_source(Source::Held(id), shape)
    }

    pub(crate) fn from_source(s: Source, shape: Shape) -> (r: Array)
        ensures
            r == source(s, shape),
    {
        Array { shape, fits: true, node: Rc::new(Node::Source(s)) }
    }

    /// The extents of the axes, outermost first.
    pub fn shape(&self) -> (r: Vec<i32>)
        ensures
            r@ == self.shape.dims(),
    {
        self.shape.to_vec()
    }

    pub fn apply(&self, f: Function) -> (r: Array)
        ensures
            r == apply(f, *self),
    {
        proof {
            reveal(apply);
        }
        Array { shape: self.shape, fits: self.fits, node: Rc::new(Node::Apply(f, self.clone())) }
    }

    pub fn combine(&self, f: Arithmetic, other: &Array) -> (r: Array)
        ensures
            r == combine(f, *self, *other),
    {
        proof {
            reveal(combine);
        }
        let node = Rc::new(Node::Combine(f, self.clone(), other.clone()));
        match self.shape.broadcast(&other.shape) {
            Some(shape) => Array { shape, fits: self.fits && other.fits, node },
            None => Array { shape: self.shape, fits: false, node },
        }
    }

    pub fn add(&self, other: &Array) -> (r: Array)
        ensures
            r == plus(*self, *other),
    {
        self.combine(Arithmetic::Add, other)
    }

    pub fn multiply(&self, other: &Array) -> (r: Array)
        ensures
            r == times(*self, *other),
    {
        self.combine(Arithmetic::Multiply, other)
    }

    pub fn matmul(&self, other: &Array) -> (r: Array)
        ensures
            r == matmul(*self, *other),
    {
        proof {
            reveal(matmul);
        }
        let a = self.shape;
        let b = other.shape;
        let ra = a.num_axes();
        let rb = b.num_axes();
        let shape: Option<Shape> = if ra == 0 || rb == 0 {
            None
        } else if ra == 1 && rb == 1 {
            if a.pad().4 == b.pad().4 {
                Some(Shape::D0)
            } else {
                None
            }
        } else if ra == 1 {
            match Shape::D2(1, a.pad().4).multiply_matrices(&b) {
                Some(s) => Some(s.without_inner().without_inner().append(s.pad().4)),
                None => None,
            }
        } else if rb == 1 {
            match a.multiply_matrices(&Shape::D2(b.pad().4, 1)) {
                Some(s) => Some(s.without_inner()),
                None => None,
            }
        } else {
            a.multiply_matrices(&b)
        };
        let node = Rc::new(Node::Matmul(self.clone(), other.clone()));
        match shape {
            Some(shape) => Array { shape, fits: self.fits && other.fits, node },
            None => Array { shape: a, fits: false, node },
        }
    }

    /// The axes in the opposite order.
    pub fn t(&self) -> (r: Array)
        ensures
            r == transpose(*self),
    {
        proof {
            reveal(transpose);
        }
        Array {
            shape: self.shape.reverse(),
            fits: self.fits,
            node: Rc::new(Node::Transpose(self.clone())),
        }
    }

    pub fn swap_middle(&self) -> (r: Array)
        ensures
            r == swap_middle(*self),
    {
        proof {
            reveal(swap_middle);
        }
        let node = Rc::new(Node::SwapMiddle(self.clone()));
        match self.shape {
            Shape::D4(a, b, c, d) => Array { shape: Shape::D4(a, c, b, d), fits: self.fits, node },
            _ => Array { shape: self.shape, fits: false, node },
        }
    }

    pub fn swap_inner(&self) -> (r: Array)
        ensures
            r == swap_inner(*self),
    {
        proof {
            reveal(swap_inner);
        }
        let node = Rc::new(Node::SwapInner(self.clone()));
        match self.shape {
            Shape::D2(a, b) => Array { shape: Shape::D2(b, a), fits: self.fits, node },
            Shape::D3(a, b, c) => Array { shape: Shape::D3(a, c, b), fits: self.fits, node },
            Shape::D4(a, b, c, d) => Array { shape: Shape::D4(a, b, d, c), fits: self.fits, node },
            Shape::D5(a, b, c, d, e) => Array {
                shape: Shape::D5(a, b, c, e, d),
                fits: self.fits,
                node,
            },
            _ => Array { shape: self.shape, fits: false, node },
        }
    }

    pub fn reshape(&self, shape: Shape) -> (r: Array)
        ensures
            r == reshape(*self, shape),
    {
        proof {
            reveal(reshape);
        }
        let fits = match (self.shape.num_elements(), shape.num_elements()) {
            (Some(m), Some(n)) => m == n,
            _ => false,
        };
        Array { shape, fits: self.fits && fits, node: Rc::new(Node::Reshape(self.clone())) }
    }

    pub fn reshape_rest(&self, a: i32, b: i32) -> (r: Array)
        ensures
            r == reshape_rest(*self, a, b),
    {
        proof {
            reveal(reshape_rest);
        }
        let node = Rc::new(Node::Reshape(self.clone()));
        match self.shape.num_elements() {
            Some(n) => if a > 0 && b > 0 {
                assert(a * b <= 0x7fff_ffff * 0x7fff_ffff) by (nonlinear_arith)
                    requires
                        0 < a <= 0x7fff_ffff,
                        0 < b <= 0x7fff_ffff,
                ;
                assert(a * b > 0) by (nonlinear_arith)
                    requires
                        0 < a,
                        0 < b,
                ;
                let known: u64 = (a as u64) * (b as u64);
                if n % known == 0 && n / known <= i32::MAX as u64 {
                    let rest: i32 = (n / known) as i32;
                    return Array { shape: Shape::D3(a, b, rest), fits: self.fits, node };
                }
            },
            None => {},
        }
        Array { shape: Shape::D3(a, b, 0), fits: false, node }
    }

    pub fn broadcast_to(&self, shape: Shape) -> (r: Array)
        ensures
            r == broadcast_to(*self, shape),
    {
        proof {
            reveal(broadcast_to);
        }
        let fits = match self.shape.broadcast(&shape) {
            Some(s) => s == shape,
            None => false,
        };
        Array { shape, fits: self.fits && fits, node: Rc::new(Node::BroadcastTo(self.clone())) }
    }

    /// This weight as its quantized form gives it back.
    pub fn dequantize(
        &self,
        config: NF4Config,
        scheme: QuantScheme,
        rows: i32,
        columns: i32,
    ) -> (r: Array)
        ensures
            r == dequantize(*self, config, scheme, rows, columns),
    {
        proof {
            reveal(dequantize);
        }
        Array {
            shape: Shape::D2(rows, columns),
            fits: self.fits && self.shape == Shape::D2(rows, columns),
            node: Rc::new(Node::Dequantize { weight: self.clone(), config, scheme }),
        }
    }

    /// The sums along an axis, which stays with extent one.
    pub fn sum_axis(&self, depth: u8) -> (r: Array)
        ensures
            r == sum_axis(*self, depth),
    {
        proof {
            reveal(sum_axis);
        }
        let node = Rc::new(Node::SumAxis { x: self.clone(), depth });
        if (depth as usize) < self.shape.num_axes() {
            Array { shape: replace_extent(&self.shape, depth, 1), fits: self.fits, node }
        } else {
            Array { shape: self.shape, fits: false, node }
        }
    }

    pub fn rms_norm(&self, weight: &Array, eps: F32) -> (r: Array)
        ensures
            r == rms_norm(*self, *weight, eps),
    {
        proof {
            reveal(rms_norm);
        }
        let fits = self.shape.num_axes() >= 1 && weight.shape == Shape::D1(self.shape.pad().4);
        Array {
            shape: self.shape,
            fits: self.fits && weight.fits && fits,
            node: Rc::new(Node::RmsNorm { x: self.clone(), weight: weight.clone(), eps }),
        }
    }

    pub fn embed(&self, table: &Array) -> (r: Array)
        ensures
            r == embed(*self, *table),
    {
        proof {
            reveal(embed);
        }
        let node = Rc::new(Node::Embed { ids: self.clone(), table: table.clone() });
        match table.shape {
            Shape::D2(_, d) => Array {
                shape: self.shape.append(d),
                fits: self.fits && table.fits && self.shape.num_axes() <= 4,
                node,
            },
            _ => Array { shape: self.shape.append(0), fits: false, node },
        }
    }

    pub fn rope(&self, config: RopeConfig, offset: i32) -> (r: Array)
        ensures
            r == rope(*self, config, offset),
    {
        proof {
            reveal(rope);
        }
        Array {
            shape: self.shape,
            fits: self.fits && self.shape.num_axes() >= 3,
            node: Rc::new(Node::Rope { x: self.clone(), config, offset }),
        }
    }

    pub fn rope_at(&self, config: RopeConfig, positions: &Array) -> (r: Array)
        ensures
            r == rope_at(*self, config, *positions),
    {
        proof {
            reveal(rope_at);
        }
        Array {
            shape: self.shape,
            fits: self.fits && positions.fits && self.shape.num_axes() >= 3,
            node: Rc::new(Node::RopeAt { x: self.clone(), config, positions: positions.clone() }),
        }
    }

    /// One more item behind those of this stack.
    pub fn stack_onto(&self, x: &Array) -> (r: Array)
        ensures
            r == stack_onto(*self, *x),
    {
        proof {
            reveal(stack_onto);
        }
        let node = Rc::new(Node::StackOnto(self.clone(), x.clone()));
        match (self.shape, x.shape) {
            (Shape::D2(n, c), Shape::D1(xc)) => if c == xc && 0 <= n && n < i32::MAX {
                return Array { shape: Shape::D2(n + 1, c), fits: self.fits && x.fits, node };
            },
            (Shape::D3(n, r, c), Shape::D2(xr, xc)) => if r == xr && c == xc && 0 <= n && n
                < i32::MAX {
                return Array { shape: Shape::D3(n + 1, r, c), fits: self.fits && x.fits, node };
            },
            _ => {},
        }
        Array { shape: self.shape, fits: false, node }
    }

    /// What a kernel gives for its arguments, of the given shape.
    pub(crate) fn kernel(k: Kernel, args: Args, shape: Shape, fits: bool) -> (r: Array)
        ensures
            r == kernel(k, args, shape, fits),
    {
        proof {
            reveal(kernel);
        }
        let fits = check_args(&args) && fits;
        Array { shape, fits, node: Rc::new(Node::Kernel(k, args)) }
    }

    /// This array and another one behind it along the axis that is `depth` axes from the
    /// innermost.
    pub fn concat(&self, other: &Array, depth: u8) -> (r: Array)
        ensures
            r == concat(*self, *other, depth),
    {
        proof {
            reveal(concat);
        }
        let m = extent(&self.shape, depth);
        let n = extent(&other.shape, depth);
        let node = Rc::new(Node::Concat { a: self.clone(), b: other.clone(), depth });
        if self.shape.num_axes() == other.shape.num_axes() && (depth as usize)
            < self.shape.num_axes() && replace_extent(&self.shape, depth, 0) == replace_extent(
            &other.shape,
            depth,
            0,
        ) {
            match m.checked_add(n) {
                Some(sum) => {
                    return Array {
                        shape: replace_extent(&self.shape, depth, sum),
                        fits: self.fits && other.fits,
                        node,
                    };
                },
                None => {},
            }
        }
        Array { shape: self.shape, fits: false, node }
    }

    /// The part from `from` up to `to` along the axis that is `depth` axes from the innermost.
    pub fn slice(&self, depth: u8, from: i32, to: i32) -> (r: Array)
        ensures
            r == slice(*self, depth, from, to),
    {
        proof {
            reveal(slice);
        }
        let node = Rc::new(Node::Slice { x: self.clone(), depth, from, to });
        if (depth as usize) < self.shape.num_axes() && 0 <= from && from <= to && to <= extent(
            &self.shape,
            depth,
        ) {
            Array {
                shape: replace_extent(&self.shape, depth, to - from),
                fits: self.fits,
                node,
            }
        } else {
            Array { shape: self.shape, fits: false, node }
        }
    }

    /// Fused attention, these being the queries.
    pub fn attend(
        &self,
        k: &Array,
        v: &Array,
        config: FusedAttentionConfig,
        mask: Option<&Array>,
    ) -> (r: Array)
        ensures
            r == attend(
                *self,
                *k,
                *v,
                config,
                match mask {
                    Some(m) => Some(*m),
                    None => None,
                },
            ),
    {
        proof {
            reveal(attend);
        }
        let mask: Option<Array> = match mask {
            Some(m) => Some(m.clone()),
            None => None,
        };
        let mask_fits = match &mask {
            Some(m) => m.fits,
            None => true,
        };
        let fits = self.fits && k.fits && v.fits && mask_fits && check_attention(
            &self.shape,
            &k.shape,
            &v.shape,
            &config,
        );
        Array {
            shape: self.shape.replace_inner(v.shape.pad().4),
            fits,
            node: Rc::new(
                Node::Attend { q: self.clone(), k: k.clone(), v: v.clone(), config, mask },
            ),
        }
    }

    /// The same attention by the kernel for training, these being the queries.
    pub fn flash_attend(
        &self,
        layer: usize,
        k: &Array,
        v: &Array,
        config: FusedAttentionConfig,
    ) -> (r: Array)
        ensures
            r == flash_attend(layer, *self, *k, *v, config),
    {
        proof {
            reveal(flash_attend);
        }
        let fits = self.fits && k.fits && v.fits && check_attention(
            &self.shape,
            &k.shape,
            &v.shape,
            &config,
        );
        Array {
            shape: self.shape.replace_inner(v.shape.pad().4),
            fits,
            node: Rc::new(
                Node::FlashAttend {
                    layer,
                    q: self.clone(),
                    k: k.clone(),
                    v: v.clone(),
                    config,
                },
            ),
        }
    }
}

fn check_args(args: &Args) -> (r: bool)
    ensures
        r == args_fit(*args),
    decreases args,
{
    match args {
        Args::Nil => true,
        Args::Cons(x, rest) => {
            let first = match x {
                Some(a) => a.fits,
                None => true,
            };
            first && check_args(rest)
        },
    }
}

pub(crate) fn make_arg(x: Option<&Array>, rest: Args) -> (r: Args)
    ensures
        r == arg(
            match x {
                Some(a) => Some(*a),
                None => None,
            },
            rest,
        ),
{
    let x: Option<Array> = match x {
        Some(a) => Some(a.clone()),
        None => None,
    };
    Args::Cons(x, Rc::new(rest))
}

/// Whether two arrays are made in the same way from the same sources.
pub(crate) fn same_array(a: &Array, b: &Array) -> (r: bool)
    ensures
        r == (*a == *b),
    decreases a,
{
    a.shape == b.shape && a.fits == b.fits && same_node(&a.node, &b.node)
}

fn same_option(a: &Option<Array>, b: &Option<Array>) -> (r: bool)
    ensures
        r == (*a == *b),
    decreases a,
{
    match (a, b) {
        (Some(x), Some(y)) => same_array(x, y),
        (None, None) => true,
        _ => false,
    }
}

/// Whether two lists hold the same arrays.
pub(crate) fn same_args(a: &Args, b: &Args) -> (r: bool)
    ensures
        r == (*a == *b),
    decreases a,
{
    match (a, b) {
        (Args::Nil, Args::Nil) => true,
        (Args::Cons(x, xs), Args::Cons(y, ys)) => same_option(x, y) && same_args(xs, ys),
        _ => false,
    }
}

fn same_node(a: &Node, b: &Node) -> (r: bool)
    ensures
        r == (*a == *b),
    decreases a,
{
    match (a, b) {
        (Node::Source(x), Node::Source(y)) => *x == *y,
        (Node::Apply(f, x), Node::Apply(g, y)) => *f == *g && same_array(x, y),
        (Node::Combine(f, x, u), Node::Combine(g, y, v)) => *f == *g && same_array(x, y)
            && same_array(u, v),
        (Node::Matmul(x, u), Node::Matmul(y, v)) => same_array(x, y) && same_array(u, v),
        (Node::Transpose(x), Node::Transpose(y)) => same_array(x, y),
        (Node::SwapMiddle(x), Node::SwapMiddle(y)) => same_array(x, y),
        (Node::SwapInner(x), Node::SwapInner(y)) => same_array(x, y),
        (Node::Reshape(x), Node::Reshape(y)) => same_array(x, y),
        (Node::BroadcastTo(x), Node::BroadcastTo(y)) => same_array(x, y),
        (
            Node::Slice { x, depth, from, to },
            Node::Slice { x: y, depth: d, from: f, to: t },
        ) => *depth == *d && *from == *f && *to == *t && same_array(x, y),
        (
            Node::Concat { a: x, b: u, depth },
            Node::Concat { a: y, b: v, depth: d },
        ) => *depth == *d && same_array(x, y) && same_array(u, v),
        (
            Node::Dequantize { weight: x, config, scheme },
            Node::Dequantize { weight: y, config: c, scheme: s },
        ) => *config == *c && *scheme == *s && same_array(x, y),
        (Node::SumAxis { x, depth }, Node::SumAxis { x: y, depth: d }) => *depth == *d
            && same_array(x, y),
        (Node::StackOnto(x, u), Node::StackOnto(y, v)) => same_array(x, y) && same_array(u, v),
        (Node::Kernel(j, x), Node::Kernel(k, y)) => *j == *k && same_args(x, y),
        (
            Node::RmsNorm { x, weight, eps },
            Node::RmsNorm { x: y, weight: w, eps: e },
        ) => *eps == *e && same_array(x, y) && same_array(weight, w),
        (
            Node::Embed { ids, table },
            Node::Embed { ids: i, table: t },
        ) => same_array(ids, i) && same_array(table, t),
        (
            Node::Rope { x, config, offset },
            Node::Rope { x: y, config: c, offset: o },
        ) => *config == *c && *offset == *o && same_array(x, y),
        (
            Node::RopeAt { x, config, positions },
            Node::RopeAt { x: y, config: c, positions: p },
        ) => *config == *c && same_array(x, y) && same_array(positions, p),
        (
            Node::Attend { q, k, v, config, mask },
            Node::Attend { q: q2, k: k2, v: v2, config: c, mask: m },
        ) => *config == *c && same_array(q, q2) && same_array(k, k2) && same_array(v, v2)
            && same_option(mask, m),
        (
            Node::FlashAttend { layer, q, k, v, config },
            Node::FlashAttend { layer: l, q: q2, k: k2, v: v2, config: c },
        ) => *layer == *l && *config == *c && same_array(q, q2) && same_array(k, k2)
            && same_array(v, v2),
        _ => false,
    }
}

fn check_attention(q: &Shape, k: &Shape, v: &Shape, config: &FusedAttentionConfig) -> (r: bool)
    ensures
        r == attention_fits(*q, *k, *v, *config),
{
    match (*q, *k, *v) {
        (Shape::D4(b, h, _, d), Shape::D4(kb, kh, s, kd), Shape::D4(vb, vh, vs, _)) => {
            b == kb && b == vb && kh == vh && s == vs && d == kd && h == config.num_heads && kh
                == config.num_kv_heads && d == config.head_dim && kh > 0 && h >= 0 && h % kh == 0
        },
        _ => false,
    }
}

pub(crate) fn extent(s: &Shape, depth: u8) -> (r: i32)
    ensures
        r == extent_at(*s, depth),
{
    let d = s.pad();
    if depth == 0 {
        d.4
    } else if depth == 1 {
        d.3
    } else if depth == 2 {
        d.2
    } else if depth == 3 {
        d.1
    } else {
        d.0
    }
}

pub(crate) fn replace_extent(s: &Shape, depth: u8, n: i32) -> (r: Shape)
    ensures
        r == with_extent(*s, depth, n),
{
    let d = s.pad();
    let e = if depth == 0 {
        (d.0, d.1, d.2, d.3, n)
    } else if depth == 1 {
        (d.0, d.1, d.2, n, d.4)
    } else if depth == 2 {
        (d.0, d.1, n, d.3, d.4)
    } else if depth == 3 {
        (d.0, n, d.2, d.3, d.4)
    } else {
        (n, d.1, d.2, d.3, d.4)
    };
    make_of_rank(s.num_axes(), e)
}

/// Normalization keeps the shape.
pub broadcast proof fn lemma_rms_norm_shape(x: Array, weight: Array, eps: F32)
    ensures
        (#[trigger] rms_norm(x, weight, eps)).shape == x.shape,
{
    reveal(rms_norm);
}

/// Broadcasting takes away no axis of the first operand.
pub broadcast proof fn lemma_combine_rank(f: Arithmetic, a: Array, b: Array)
    ensures
        (#[trigger] combine(f, a, b)).shape.rank() >= a.shape.rank(),
{
    reveal(combine);
}

/// Operands that do not fit spoil the result.
pub broadcast proof fn lemma_combine_fits(f: Arithmetic, a: Array, b: Array)
    ensures
        (#[trigger] combine(f, a, b)).fits ==> a.fits && b.fits,
{
    reveal(combine);
}

/// Embedding adds an axis.
pub broadcast proof fn lemma_embed_rank(ids: Array, table: Array)
    requires
        ids.shape.rank() >= 1,
    ensures
        (#[trigger] embed(ids, table)).shape.rank() >= 2,
{
    reveal(embed);
}

/// Embedding adds an axis to two or more.
pub broadcast proof fn lemma_embed_rank_from(ids: Array, table: Array)
    requires
        ids.shape.rank() >= 2,
    ensures
        (#[trigger] embed(ids, table)).shape.rank() >= 3,
{
    reveal(embed);
}

} // verus!
