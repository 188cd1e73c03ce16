use vstd::prelude::*;
use crate::scalar::Scalar;
use crate::vector::Vector3;

verus! {

/// The state of one grid point.
#[derive(Clone, Copy)]
pub struct Cell<T> {
    pub e: Vector3<T>,
    pub b: Vector3<T>,
    /// Position, in the run's source list, of the source that drives this
    /// point's current density; 0 is the inert source.
    pub source_index: usize,
}

impl<T: Scalar> Cell<T> {
    pub open spec fn spec_zero() -> Self {
        Cell { e: Vector3::spec_zero(), b: Vector3::spec_zero(), source_index: 0 }
    }

    /// A point with zero fields, driven by the inert source.
    pub fn zero() -> (r: Self)
        ensures
            r == Self::spec_zero(),
    {
        Cell { e: Vector3::zero(), b: Vector3::zero(), source_index: 0 }
    }

    /// Fieldwise sum of two points; the result is inert.
    pub fn plus(&self, rhs: &Self) -> (r: Self)
        ensures
            r == (Cell { e: self.e.spec_plus(rhs.e), b: self.b.spec_plus(rhs.b), source_index: 0 }),
    {
        Cell { e: self.e.plus(&rhs.e), b: self.b.plus(&rhs.b), source_index: 0 }
    }

    /// Fieldwise difference of two points; the result is inert.
    pub fn minus(&self, rhs: &Self) -> (r: Self)
        ensures
            r == (Cell { e: self.e.spec_minus(rhs.e), b: self.b.spec_minus(rhs.b), source_index: 0 }),
    {
        Cell { e: self.e.minus(&rhs.e), b: self.b.minus(&rhs.b), source_index: 0 }
    }
}

/// Position of point `(x, y, z)` in the row-major order of a cube of side `n`:
/// `x` varies fastest, `z` slowest.
pub open spec fn flat_index(n: int, x: int, y: int, z: int) -> int {
    z * n * n + y * n + x
}

pub open spec fn cube(n: int) -> int {
    n * n * n
}

pub open spec fn x_of(n: int, i: int) -> int {
    i % n
}

pub open spec fn y_of(n: int, i: int) -> int {
    (i / n) % n
}

pub open spec fn z_of(n: int, i: int) -> int {
    i / (n * n)
}

/// Row-major positions of a cube are exactly its points.
pub proof fn lemma_flat_index_bounds(n: int, x: int, y: int, z: int)
    requires
        0 <= x < n,
        0 <= y < n,
        0 <= z < n,
    ensures
        0 <= flat_index(n, x, y, z) < cube(n),
        x_of(n, flat_index(n, x, y, z)) == x,
        y_of(n, flat_index(n, x, y, z)) == y,
        z_of(n, flat_index(n, x, y, z)) == z,
{
    assert(0 <= z * n * n + y * n + x < n * n * n) by (nonlinear_arith)
        requires 0 <= x < n, 0 <= y < n, 0 <= z < n;
    let i = z * n * n + y * n + x;
    assert(i == (z * n + y) * n + x) by (nonlinear_arith) requires i == z * n * n + y * n + x;
    vstd::arithmetic::div_mod::lemma_fundamental_div_mod_converse(i, n, z * n + y, x);
    assert(0 <= y * n + x < n * n) by (nonlinear_arith)
        requires 0 <= x < n, 0 <= y < n;
    assert(i == z * (n * n) + (y * n + x)) by (nonlinear_arith) requires i == z * n * n + y * n + x;
    vstd::arithmetic::div_mod::lemma_fundamental_div_mod_converse(i, n * n, z, y * n + x);
    vstd::arithmetic::div_mod::lemma_fundamental_div_mod_converse(z * n + y, n, z, y);
}

/// Every row-major position of a cube is a point of it.
pub proof fn lemma_coordinates_in_range(n: int, i: int)
    requires
        1 <= n,
        0 <= i < cube(n),
    ensures
        0 <= x_of(n, i) < n,
        0 <= y_of(n, i) < n,
        0 <= z_of(n, i) < n,
        flat_index(n, x_of(n, i), y_of(n, i), z_of(n, i)) == i,
{
    vstd::arithmetic::div_mod::lemma_mod_bound(i, n);
    assert(0 <= i / n) by {
        vstd::arithmetic::div_mod::lemma_div_pos_is_pos(i, n);
    }
    vstd::arithmetic::div_mod::lemma_mod_bound(i / n, n);
    assert(n * n > 0) by (nonlinear_arith) requires n >= 1;
    assert(i < (n * n) * n) by (nonlinear_arith) requires i < n * n * n;
    vstd::arithmetic::div_mod::lemma_multiply_divide_lt(i, n * n, n);
    vstd::arithmetic::div_mod::lemma_div_pos_is_pos(i, n * n);
    vstd::arithmetic::div_mod::lemma_fundamental_div_mod(i, n);
    vstd::arithmetic::div_mod::lemma_fundamental_div_mod(i / n, n);
    vstd::arithmetic::div_mod::lemma_div_denominator(i, n, n);
    let q = i / n;
    assert(i == z_of(n, i) * n * n + y_of(n, i) * n + x_of(n, i)) by (nonlinear_arith)
        requires
            i == n * q + i % n,
            q == n * (q / n) + q % n,
            q / n == i / (n * n),
            x_of(n, i) == i % n,
            y_of(n, i) == q % n,
            z_of(n, i) == i / (n * n);
}

/// A cubic grid of points, stored row-major in one flat vector.
pub struct Lattice<T> {
    pub side: usize,
    pub cells: Vec<Cell<T>>,
}

impl<T: Scalar> Lattice<T> {
    /// The grid holds `side³` points, and each axis has at least two of them, so
    /// that every point has a neighbour along every axis.
    pub open spec fn wf(&self) -> bool {
        &&& 2 <= self.side
        &&& cube(self.side as int) <= usize::MAX
        &&& self.cells@.len() == cube(self.side as int)
    }

    /// Every point is driven by one of the first `count` sources.
    pub open spec fn sources_below(&self, count: int) -> bool {
        forall|i: int| 0 <= i < self.cells@.len() ==> self.cells@[i].source_index < count
    }

    /// A grid of side `side` with zero fields everywhere, all points inert.
    pub fn blank(side: usize) -> (r: Self)
        requires
            2 <= side,
            cube(side as int) <= usize::MAX,
        ensures
            r.wf(),
            r.side == side,
            forall|i: int| 0 <= i < r.cells@.len() ==> r.cells@[i] == Cell::<T>::spec_zero(),
    {
        proof {
            assert(side * side <= side * side * side) by (nonlinear_arith) requires side >= 2;
        }
        let total: usize = side * side * side;
        let mut cells: Vec<Cell<T>> = Vec::new();
        while cells.len() < total
            invariant
                total == cube(side as int),
                cells@.len() <= total,
                forall|i: int| 0 <= i < cells@.len() ==> cells@[i] == Cell::<T>::spec_zero(),
            decreases total - cells@.len(),
        {
            cells.push(Cell::zero());
        }
        Lattice { side, cells }
    }

    /// The position of `(x, y, z)` in `cells`.
    pub fn index(&self, x: usize, y: usize, z: usize) -> (r: usize)
        requires
            self.wf(),
            x < self.side,
            y < self.side,
            z < self.side,
        ensures
            r == flat_index(self.side as int, x as int, y as int, z as int),
            r < self.cells@.len(),
    {
        proof {
            lemma_flat_index_bounds(self.side as int, x as int, y as int, z as int);
        }
        let n = self.side;
        proof {
            assert(z * n <= z * n * n) by (nonlinear_arith) requires n >= 2;
        }
        z * n * n + y * n + x
    }
}

} // verus!

verus! {

/// The row-major successor of point `(x, y, z)` in a cube of side `n`; past the
/// last point it is `(0, 0, n)`.
pub fn advance(n: usize, x: usize, y: usize, z: usize) -> (r: (usize, usize, usize))
    requires
        2 <= n,
        x < n,
        y < n,
        z < n,
    ensures
        r.0 < n,
        r.1 < n,
        r.2 <= n,
        flat_index(n as int, r.0 as int, r.1 as int, r.2 as int) == flat_index(n as int, x as int, y as int, z as int) + 1,
{
    if x + 1 < n {
        (x + 1, y, z)
    } else if y + 1 < n {
        proof {
            assert((y + 1) * n == y * n + n) by (nonlinear_arith);
        }
        (0, y + 1, z)
    } else {
        proof {
            assert((z + 1) * n * n == z * n * n + (n - 1) * n + n) by (nonlinear_arith);
        }
        (0, 0, z + 1)
    }
}

} // verus!
