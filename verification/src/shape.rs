//! Shapes of arrays: up to five axes, outermost first.

use vstd::prelude::*;

verus! {

/// The extents of an array's axes.
#[derive(Clone, Copy, PartialEq, Eq, Structural, Debug)]
pub enum Shape {
    /// A scalar.
    D0,
    D1(i32),
    D2(i32, i32),
    D3(i32, i32, i32),
    D4(i32, i32, i32, i32),
    D5(i32, i32, i32, i32, i32),
}

/// The common extent of two axes under broadcasting, if there is one.
pub open spec fn common_extent(a: i32, b: i32) -> Option<i32> {
    if a == b || b == 1 {
        Some(a)
    } else if a == 1 {
        Some(b)
    } else {
        None
    }
}

fn find_common_extent(a: i32, b: i32) -> (r: Option<i32>)
    ensures
        r == common_extent(a, b),
{
    if a == b || b == 1 {
        Some(a)
    } else if a == 1 {
        Some(b)
    } else {
        None
    }
}

/// The shape with the `rank` last of the five given extents.
pub open spec fn of_rank(rank: nat, d: (i32, i32, i32, i32, i32)) -> Shape {
    if rank == 0 {
        Shape::D0
    } else if rank == 1 {
        Shape::D1(d.4)
    } else if rank == 2 {
        Shape::D2(d.3, d.4)
    } else if rank == 3 {
        Shape::D3(d.2, d.3, d.4)
    } else if rank == 4 {
        Shape::D4(d.1, d.2, d.3, d.4)
    } else {
        Shape::D5(d.0, d.1, d.2, d.3, d.4)
    }
}

pub(crate) fn make_of_rank(rank: usize, d: (i32, i32, i32, i32, i32)) -> (r: Shape)
    ensures
        r == of_rank(rank as nat, d),
{
    if rank == 0 {
        Shape::D0
    } else if rank == 1 {
        Shape::D1(d.4)
    } else if rank == 2 {
        Shape::D2(d.3, d.4)
    } else if rank == 3 {
        Shape::D3(d.2, d.3, d.4)
    } else if rank == 4 {
        Shape::D4(d.1, d.2, d.3, d.4)
    } else {
        Shape::D5(d.0, d.1, d.2, d.3, d.4)
    }
}

impl Shape {
    /// The extents, outermost first.
    pub open spec fn dims(self) -> Seq<i32> {
        match self {
            Shape::D0 => seq![],
            Shape::D1(a) => seq![a],
            Shape::D2(a, b) => seq![a, b],
            Shape::D3(a, b, c) => seq![a, b, c],
            Shape::D4(a, b, c, d) => seq![a, b, c, d],
            Shape::D5(a, b, c, d, e) => seq![a, b, c, d, e],
        }
    }

    /// The number of axes.
    pub open spec fn rank(self) -> nat {
        match self {
            Shape::D0 => 0,
            Shape::D1(_) => 1,
            Shape::D2(_, _) => 2,
            Shape::D3(_, _, _) => 3,
            Shape::D4(_, _, _, _) => 4,
            Shape::D5(_, _, _, _, _) => 5,
        }
    }

    /// The extents behind leading axes of extent one, five in all.
    pub open spec fn padded(self) -> (i32, i32, i32, i32, i32) {
        match self {
            Shape::D0 => (1, 1, 1, 1, 1),
            Shape::D1(a) => (1, 1, 1, 1, a),
            Shape::D2(a, b) => (1, 1, 1, a, b),
            Shape::D3(a, b, c) => (1, 1, a, b, c),
            Shape::D4(a, b, c, d) => (1, a, b, c, d),
            Shape::D5(a, b, c, d, e) => (a, b, c, d, e),
        }
    }

    /// The innermost extent; one for a scalar.
    pub open spec fn inner(self) -> i32 {
        self.padded().4
    }

    /// The outermost extent; one where there is no axis.
    pub open spec fn outer(self) -> i32 {
        match self {
            Shape::D0 => 1,
            Shape::D1(a) => a,
            Shape::D2(a, _) => a,
            Shape::D3(a, _, _) => a,
            Shape::D4(a, _, _, _) => a,
            Shape::D5(a, _, _, _, _) => a,
        }
    }

    /// The second extent of an array of at least two axes.
    pub open spec fn second(self) -> i32 {
        self.dims()[1]
    }

    /// The number of elements.
    pub open spec fn count(self) -> int {
        let d = self.padded();
        d.0 * d.1 * d.2 * d.3 * d.4
    }

    /// No extent is negative.
    pub open spec fn nonnegative(self) -> bool {
        let d = self.padded();
        d.0 >= 0 && d.1 >= 0 && d.2 >= 0 && d.3 >= 0 && d.4 >= 0
    }

    /// The elements can be counted: no extent is negative, and the count fits a machine word.
    pub open spec fn countable(self) -> bool {
        self.nonnegative() && self.count() <= u64::MAX
    }

    /// The shape with another innermost extent.
    pub open spec fn with_inner(self, n: i32) -> Shape {
        let d = self.padded();
        of_rank(self.rank(), (d.0, d.1, d.2, d.3, n))
    }

    /// The shape with one more axis inside.
    pub open spec fn push(self, n: i32) -> Shape {
        let d = self.padded();
        of_rank(self.rank() + 1, (d.1, d.2, d.3, d.4, n))
    }

    /// The shape without its innermost axis.
    pub open spec fn pop(self) -> Shape {
        let d = self.padded();
        of_rank((self.rank() - 1) as nat, (1, d.0, d.1, d.2, d.3))
    }

    /// The axes in the opposite order.
    pub open spec fn reversed(self) -> Shape {
        match self {
            Shape::D0 => Shape::D0,
            Shape::D1(a) => Shape::D1(a),
            Shape::D2(a, b) => Shape::D2(b, a),
            Shape::D3(a, b, c) => Shape::D3(c, b, a),
            Shape::D4(a, b, c, d) => Shape::D4(d, c, b, a),
            Shape::D5(a, b, c, d, e) => Shape::D5(e, d, c, b, a),
        }
    }

    /// The shape that two shapes broadcast to, if they do.
    pub open spec fn broadcast_with(self, other: Shape) -> Option<Shape> {
        let a = self.padded();
        let b = other.padded();
        let rank = if self.rank() < other.rank() { other.rank() } else { self.rank() };
        match (
            common_extent(a.0, b.0),
            common_extent(a.1, b.1),
            common_extent(a.2, b.2),
            common_extent(a.3, b.3),
            common_extent(a.4, b.4),
        ) {
            (Some(d0), Some(d1), Some(d2), Some(d3), Some(d4)) => Some(
                of_rank(rank, (d0, d1, d2, d3, d4)),
            ),
            _ => None,
        }
    }

    /// The shape of the matrix product of two arrays of at least two axes: the two innermost
    /// axes multiply, the others broadcast.
    pub open spec fn matrix_product(self, other: Shape) -> Option<Shape> {
        let a = self.padded();
        let b = other.padded();
        let rank = if self.rank() < other.rank() { other.rank() } else { self.rank() };
        match (common_extent(a.0, b.0), common_extent(a.1, b.1), common_extent(a.2, b.2)) {
            (Some(d0), Some(d1), Some(d2)) => if a.4 == b.3 {
                Some(of_rank(rank, (d0, d1, d2, a.3, b.4)))
            } else {
                None
            },
            _ => None,
        }
    }

    /// The number of axes.
    pub fn num_axes(&self) -> (r: usize)
        ensures
            r == self.rank(),
            r <= 5,
    {
        match *self {
            Shape::D0 => 0,
            Shape::D1(_) => 1,
            Shape::D2(_, _) => 2,
            Shape::D3(_, _, _) => 3,
            Shape::D4(_, _, _, _) => 4,
            Shape::D5(_, _, _, _, _) => 5,
        }
    }

    /// The extents, outermost first.
    pub fn to_vec(&self) -> (r: Vec<i32>)
        ensures
            r@ == self.dims(),
    {
        match *self {
            Shape::D0 => Vec::new(),
            Shape::D1(a) => vec![a],
            Shape::D2(a, b) => vec![a, b],
            Shape::D3(a, b, c) => vec![a, b, c],
            Shape::D4(a, b, c, d) => vec![a, b, c, d],
            Shape::D5(a, b, c, d, e) => vec![a, b, c, d, e],
        }
    }

    pub(crate) fn pad(&self) -> (r: (i32, i32, i32, i32, i32))
        ensures
            r == self.padded(),
    {
        match *self {
            Shape::D0 => (1, 1, 1, 1, 1),
            Shape::D1(a) => (1, 1, 1, 1, a),
            Shape::D2(a, b) => (1, 1, 1, a, b),
            Shape::D3(a, b, c) => (1, 1, a, b, c),
            Shape::D4(a, b, c, d) => (1, a, b, c, d),
            Shape::D5(a, b, c, d, e) => (a, b, c, d, e),
        }
    }

    /// The outermost extent; one where there is no axis.
    pub(crate) fn outermost(&self) -> (r: i32)
        ensures
            r == self.outer(),
    {
        match *self {
            Shape::D0 => 1,
            Shape::D1(a) => a,
            Shape::D2(a, _) => a,
            Shape::D3(a, _, _) => a,
            Shape::D4(a, _, _, _) => a,
            Shape::D5(a, _, _, _, _) => a,
        }
    }

    /// The extents of the two outermost axes.
    pub(crate) fn outer_two(&self) -> (r: (i32, i32))
        requires
            self.rank() >= 2,
        ensures
            r.0 == self.outer(),
            r.1 == self.second(),
    {
        match *self {
            Shape::D2(a, b) => (a, b),
            Shape::D3(a, b, _) => (a, b),
            Shape::D4(a, b, _, _) => (a, b),
            Shape::D5(a, b, _, _, _) => (a, b),
            _ => (1, 1),
        }
    }

    pub(crate) fn replace_inner(&self, n: i32) -> (r: Shape)
        ensures
            r == self.with_inner(n),
    {
        let d = self.pad();
        make_of_rank(self.num_axes(), (d.0, d.1, d.2, d.3, n))
    }

    pub(crate) fn append(&self, n: i32) -> (r: Shape)
        ensures
            r == self.push(n),
    {
        let d = self.pad();
        make_of_rank(self.num_axes() + 1, (d.1, d.2, d.3, d.4, n))
    }

    pub(crate) fn without_inner(&self) -> (r: Shape)
        requires
            self.rank() >= 1,
        ensures
            r == self.pop(),
    {
        let d = self.pad();
        make_of_rank(self.num_axes() - 1, (1, d.0, d.1, d.2, d.3))
    }

    pub(crate) fn reverse(&self) -> (r: Shape)
        ensures
            r == self.reversed(),
    {
        match *self {
            Shape::D0 => Shape::D0,
            Shape::D1(a) => Shape::D1(a),
            Shape::D2(a, b) => Shape::D2(b, a),
            Shape::D3(a, b, c) => Shape::D3(c, b, a),
            Shape::D4(a, b, c, d) => Shape::D4(d, c, b, a),
            Shape::D5(a, b, c, d, e) => Shape::D5(e, d, c, b, a),
        }
    }

    pub(crate) fn broadcast(&self, other: &Shape) -> (r: Option<Shape>)
        ensures
            r == self.broadcast_with(*other),
    {
        let a = self.pad();
        let b = other.pad();
        let ra = self.num_axes();
        let rb = other.num_axes();
        let rank = if ra < rb {
            rb
        } else {
            ra
        };
        match (
            find_common_extent(a.0, b.0),
            find_common_extent(a.1, b.1),
            find_common_extent(a.2, b.2),
            find_common_extent(a.3, b.3),
            find_common_extent(a.4, b.4),
        ) {
            (Some(d0), Some(d1), Some(d2), Some(d3), Some(d4)) => Some(
                make_of_rank(rank, (d0, d1, d2, d3, d4)),
            ),
            _ => None,
        }
    }

    pub(crate) fn multiply_matrices(&self, other: &Shape) -> (r: Option<Shape>)
        ensures
            r == self.matrix_product(*other),
    {
        let a = self.pad();
        let b = other.pad();
        let ra = self.num_axes();
        let rb = other.num_axes();
        let rank = if ra < rb {
            rb
        } else {
            ra
        };
        match (
            find_common_extent(a.0, b.0),
            find_common_extent(a.1, b.1),
            find_common_extent(a.2, b.2),
        ) {
            (Some(d0), Some(d1), Some(d2)) => if a.4 == b.3 {
                Some(make_of_rank(rank, (d0, d1, d2, a.3, b.4)))
            } else {
                None
            },
            _ => None,
        }
    }

    /// The number of elements, where they can be counted.
    pub fn num_elements(&self) -> (r: Option<u64>)
        ensures
            r is Some <==> self.countable(),
            r matches Some(n) ==> n == self.count(),
    {
        let d = self.pad();
        if d.0 < 0 || d.1 < 0 || d.2 < 0 || d.3 < 0 || d.4 < 0 {
            return None;
        }
        if d.0 == 0 || d.1 == 0 || d.2 == 0 || d.3 == 0 || d.4 == 0 {
            assert(self.count() == 0) by (nonlinear_arith)
                requires
                    self.count() == d.0 * d.1 * d.2 * d.3 * d.4,
                    d.0 == 0 || d.1 == 0 || d.2 == 0 || d.3 == 0 || d.4 == 0,
            ;
            return Some(0);
        }
        let ghost c01 = d.0 * d.1;
        let ghost c012 = c01 * d.2;
        let ghost c0123 = c012 * d.3;
        let ghost c = c0123 * d.4;
        proof {
            assert(c == self.count());
            lemma_partial_products(d.0 as int, d.1 as int, d.2 as int, d.3 as int, d.4 as int);
        }
        let p1: u64 = d.0 as u64;
        match p1.checked_mul(d.1 as u64) {
            None => None,
            Some(p2) => match p2.checked_mul(d.2 as u64) {
                None => None,
                Some(p3) => match p3.checked_mul(d.3 as u64) {
                    None => None,
                    Some(p4) => p4.checked_mul(d.4 as u64),
                },
            },
        }
    }
}

/// Partial products of positive factors do not exceed the whole product.
proof fn lemma_partial_products(a: int, b: int, c: int, d: int, e: int)
    requires
        a >= 1,
        b >= 1,
        c >= 1,
        d >= 1,
        e >= 1,
    ensures
        a * b <= a * b * c * d * e,
        a * b * c <= a * b * c * d * e,
        a * b * c * d <= a * b * c * d * e,
{
    assert(a * b >= 1) by (nonlinear_arith)
        requires
            a >= 1,
            b >= 1,
    ;
    assert(a * b * c >= a * b) by (nonlinear_arith)
        requires
            a * b >= 1,
            c >= 1,
    ;
    assert(a * b * c * d >= a * b * c) by (nonlinear_arith)
        requires
            a * b * c >= 1,
            d >= 1,
    ;
    assert(a * b * c * d * e >= a * b * c * d) by (nonlinear_arith)
        requires
            a * b * c * d >= 1,
            e >= 1,
    ;
}

} // verus!
