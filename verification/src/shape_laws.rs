//! Extents of results, extent by extent, and names of numbers, digit by digit.

use crate::names::{decimal, digit_char};
use crate::shape::Shape;
use vstd::prelude::*;

verus! {

/// The extent that lies `k` places from the last; one where the array has no such extent.
pub open spec fn extent_from_last(s: Shape, k: int) -> int {
    if 0 <= k < s.dims().len() {
        s.dims()[s.dims().len() - 1 - k] as int
    } else {
        1
    }
}

/// Two extents agree, or one of them is one and is repeated.
pub open spec fn spreads(a: int, b: int, c: int) -> bool {
    ||| a == b && c == a
    ||| a == 1 && c == b
    ||| b == 1 && c == a
}

/// The product of all extents.
pub open spec fn product(s: Seq<i32>) -> int
    decreases s.len(),
{
    if s.len() == 0 {
        1
    } else {
        product(s.drop_last()) * s.last()
    }
}

/// Extents are matched from the last; the result has as many as the longer of the two.
pub proof fn law_broadcast_extents(a: Shape, b: Shape)
    ensures
        a.broadcast_with(b) matches Some(c) ==> {
            &&& c.dims().len() == if a.dims().len() < b.dims().len() {
                b.dims().len()
            } else {
                a.dims().len()
            }
            &&& forall|k: int|
                0 <= k < 5 ==> spreads(
                    extent_from_last(a, k),
                    extent_from_last(b, k),
                    #[trigger] extent_from_last(c, k),
                )
        },
        a.broadcast_with(b) is None ==> exists|k: int|
            0 <= k < 5 && #[trigger] extent_from_last(a, k) != extent_from_last(b, k)
                && extent_from_last(a, k) != 1 && extent_from_last(b, k) != 1,
        a.broadcast_with(b) == b.broadcast_with(a),
        a.broadcast_with(a) == Some(a),
        a.broadcast_with(Shape::D0) == Some(a),
{
    assert(extent_from_last(a, 0) == a.padded().4 && extent_from_last(b, 0) == b.padded().4);
    assert(extent_from_last(a, 1) == a.padded().3 && extent_from_last(b, 1) == b.padded().3);
    assert(extent_from_last(a, 2) == a.padded().2 && extent_from_last(b, 2) == b.padded().2);
    assert(extent_from_last(a, 3) == a.padded().1 && extent_from_last(b, 3) == b.padded().1);
    assert(extent_from_last(a, 4) == a.padded().0 && extent_from_last(b, 4) == b.padded().0);
    if let Some(c) = a.broadcast_with(b) {
        assert(extent_from_last(c, 0) == c.padded().4);
        assert(extent_from_last(c, 1) == c.padded().3);
        assert(extent_from_last(c, 2) == c.padded().2);
        assert(extent_from_last(c, 3) == c.padded().1);
        assert(extent_from_last(c, 4) == c.padded().0);
    }
}

/// A product of matrices has the rows of the first and the columns of the second, and there is one
/// just where the columns of the first are as many as the rows of the second.
pub proof fn law_product_extents(m: i32, n: i32, p: i32, q: i32, batch: i32)
    ensures
        Shape::D2(m, n).matrix_product(Shape::D2(p, q)) == (if n == p {
            Some(Shape::D2(m, q))
        } else {
            None
        }),
        Shape::D3(batch, m, n).matrix_product(Shape::D2(p, q)) == (if n == p {
            Some(Shape::D3(batch, m, q))
        } else {
            None
        }),
        Shape::D3(batch, m, n).matrix_product(Shape::D3(batch, p, q)) == (if n == p {
            Some(Shape::D3(batch, m, q))
        } else {
            None
        }),
{
}

/// Transposing turns the order of the extents round, and twice is once too often.
pub proof fn law_reversed_extents(a: Shape)
    ensures
        a.reversed().dims() =~= a.dims().reverse(),
        a.reversed().reversed() == a,
{
}

/// A further extent goes behind the others, and taking the last away undoes it.
pub proof fn law_pushed_extent(a: Shape, n: i32)
    requires
        a.rank() < 5,
    ensures
        a.push(n).dims() =~= a.dims().push(n),
        a.push(n).pop() == a,
        a.push(n).inner() == n,
{
}

/// Only the last extent is put in place.
pub proof fn law_inner_extent(a: Shape, n: i32)
    requires
        a.rank() > 0,
    ensures
        a.with_inner(n).dims() =~= a.dims().update(a.dims().len() - 1, n),
        a.with_inner(a.inner()) == a,
        a.inner() == a.dims().last(),
        a.outer() == a.dims().first(),
{
}

/// An array has as many elements as its extents multiply to.
pub proof fn law_element_count(a: Shape)
    ensures
        a.count() == product(a.dims()),
{
    reveal_with_fuel(product, 6);
    let s = a.dims();
    let d = a.padded();
    match a {
        Shape::D0 => {},
        Shape::D1(v) => {
            assert(product(s) == 1 * v);
            assert((1 * 1 * 1 * 1 * v) as int == 1 * v) by (nonlinear_arith);
        },
        Shape::D2(v, w) => {
            assert(s.drop_last() =~= seq![v]);
            assert(product(s) == 1 * v * w);
            assert((1 * 1 * 1 * v * w) as int == 1 * v * w) by (nonlinear_arith);
        },
        Shape::D3(v, w, x) => {
            assert(s.drop_last() =~= seq![v, w]);
            assert(s.drop_last().drop_last() =~= seq![v]);
            assert(product(s) == 1 * v * w * x);
            assert((1 * 1 * v * w * x) as int == 1 * v * w * x) by (nonlinear_arith);
        },
        Shape::D4(v, w, x, y) => {
            assert(s.drop_last() =~= seq![v, w, x]);
            assert(s.drop_last().drop_last() =~= seq![v, w]);
            assert(s.drop_last().drop_last().drop_last() =~= seq![v]);
            assert(product(s) == 1 * v * w * x * y);
            assert((1 * v * w * x * y) as int == 1 * v * w * x * y) by (nonlinear_arith);
        },
        Shape::D5(v, w, x, y, z) => {
            assert(s.drop_last() =~= seq![v, w, x, y]);
            assert(s.drop_last().drop_last() =~= seq![v, w, x]);
            assert(s.drop_last().drop_last().drop_last() =~= seq![v, w]);
            assert(s.drop_last().drop_last().drop_last().drop_last() =~= seq![v]);
            assert(product(s) == 1 * v * w * x * y * z);
            assert((v * w * x * y * z) as int == 1 * v * w * x * y * z) by (nonlinear_arith);
        },
    }
}

/// The number that digits stand for.
pub open spec fn number_of(s: Seq<char>) -> int
    decreases s.len(),
{
    if s.len() == 0 {
        0
    } else {
        number_of(s.drop_last()) * 10 + (s.last() as int - '0' as int)
    }
}

/// A number in decimal notation reads back as the number, has only digits, and does not start
/// with a zero unless it is one.
pub proof fn law_decimal_reads_back(n: nat)
    ensures
        number_of(decimal(n)) == n,
        forall|i: int| 0 <= i < decimal(n).len() ==> '0' <= #[trigger] decimal(n)[i] <= '9',
        decimal(n).len() > 0,
        n > 0 ==> decimal(n)[0] != '0',
    decreases n,
{
    reveal_with_fuel(number_of, 2);
    if n >= 10 {
        law_decimal_reads_back(n / 10);
        let s = decimal(n);
        assert(s.drop_last() =~= decimal(n / 10));
        assert(s.last() == digit_char(n % 10));
        assert(s[0] == decimal(n / 10)[0]);
        assert forall|i: int| 0 <= i < s.len() implies '0' <= #[trigger] s[i] <= '9' by {
            if i < s.len() - 1 {
                assert(s[i] == decimal(n / 10)[i]);
            }
        }
    } else {
        assert(decimal(n).drop_last() =~= Seq::<char>::empty());
        assert(decimal(n).last() == digit_char(n));
    }
}

} // verus!
