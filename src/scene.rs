use vstd::prelude::*;
use crate::scalar::Scalar;
use crate::vector::Vector3;
use crate::source::{Axis, SourceObject};
use crate::lattice::{Cell, Lattice, flat_index, cube, x_of, y_of, z_of, lemma_flat_index_bounds, advance};

verus! {

/// Why a placement was refused.
#[derive(Clone, Copy, PartialEq, Eq, Structural, Debug)]
pub enum PlacementError {
    /// A coordinate lies outside `[0, side)`.
    OutOfRange,
}

/// The coordinate of point `i` along `axis`.
pub open spec fn coordinate(n: int, axis: Axis, i: int) -> int {
    match axis {
        Axis::X => x_of(n, i),
        Axis::Y => y_of(n, i),
        Axis::Z => z_of(n, i),
    }
}

/// Point `i` lies on the line along `axis` whose other two coordinates, in
/// x, y, z order, are `first` and `second`.
pub open spec fn on_line(n: int, axis: Axis, first: int, second: int, i: int) -> bool {
    match axis {
        Axis::X => y_of(n, i) == first && z_of(n, i) == second,
        Axis::Y => x_of(n, i) == first && z_of(n, i) == second,
        Axis::Z => x_of(n, i) == first && y_of(n, i) == second,
    }
}

/// The initial state of a run: the grid and the sources its points refer to.
pub struct Scene<T> {
    pub lattice: Lattice<T>,
    pub sources: Vec<SourceObject<T>>,
}

impl<T: Scalar> Scene<T> {
    /// The grid is well formed, the first source is the inert one, and every
    /// point refers to an existing source.
    pub open spec fn wf(&self) -> bool {
        &&& self.lattice.wf()
        &&& self.sources@.len() >= 1
        &&& self.sources@[0] is Inert
        &&& self.lattice.sources_below(self.sources@.len() as int)
    }

    /// An empty scene: zero fields, only the inert source.
    pub fn new(side: usize) -> (r: Self)
        requires
            2 <= side,
            cube(side as int) <= usize::MAX,
        ensures
            r.wf(),
            r.lattice.side == side,
            r.sources@ == seq![SourceObject::<T>::Inert],
            forall|i: int| 0 <= i < r.lattice.cells@.len() ==> r.lattice.cells@[i] == Cell::<T>::spec_zero(),
    {
        let lattice = Lattice::blank(side);
        let mut sources: Vec<SourceObject<T>> = Vec::new();
        sources.push(SourceObject::Inert);
        Scene { lattice, sources }
    }

    /// Sets the fields of one point, which becomes inert.
    pub fn place_point(&mut self, x: usize, y: usize, z: usize, e: Vector3<T>, b: Vector3<T>) -> (r: Result<(), PlacementError>)
        requires
            old(self).wf(),
        ensures
            final(self).wf(),
            final(self).sources == old(self).sources,
            final(self).lattice.side == old(self).lattice.side,
            r is Err <==> !(x < old(self).lattice.side && y < old(self).lattice.side && z < old(self).lattice.side),
            r is Err ==> final(self).lattice.cells@ == old(self).lattice.cells@,
            r is Ok ==> final(self).lattice.cells@ == old(self).lattice.cells@.update(
                flat_index(old(self).lattice.side as int, x as int, y as int, z as int),
                Cell { e, b, source_index: 0 },
            ),
    {
        if x >= self.lattice.side || y >= self.lattice.side || z >= self.lattice.side {
            return Err(PlacementError::OutOfRange);
        }
        let i = self.lattice.index(x, y, z);
        self.lattice.cells.set(i, Cell { e, b, source_index: 0 });
        Ok(())
    }

    /// Sets the fields of every point of the plane `axis = location`; those
    /// points become inert.
    pub fn place_plane(&mut self, axis: Axis, location: usize, e: Vector3<T>, b: Vector3<T>) -> (r: Result<(), PlacementError>)
        requires
            old(self).wf(),
        ensures
            final(self).wf(),
            final(self).sources == old(self).sources,
            final(self).lattice.side == old(self).lattice.side,
            r is Err <==> location >= old(self).lattice.side,
            r is Err ==> final(self).lattice.cells@ == old(self).lattice.cells@,
            r is Ok ==> forall|i: int| 0 <= i < final(self).lattice.cells@.len() ==>
                #[trigger] final(self).lattice.cells@[i] == if coordinate(old(self).lattice.side as int, axis, i) == location {
                    Cell { e, b, source_index: 0 }
                } else {
                    old(self).lattice.cells@[i]
                },
    {
        let n = self.lattice.side;
        if location >= n {
            return Err(PlacementError::OutOfRange);
        }
        let ghost before = self.lattice.cells@;
        let total = self.lattice.cells.len();
        let mut i: usize = 0;
        let mut x: usize = 0;
        let mut y: usize = 0;
        let mut z: usize = 0;
        while i < total
            invariant
                self.wf(),
                self.sources == old(self).sources,
                self.lattice.side == n,
                n == old(self).lattice.side,
                total == self.lattice.cells@.len(),
                total == cube(n as int),
                before == old(self).lattice.cells@,
                x < n,
                y < n,
                z <= n,
                i == flat_index(n as int, x as int, y as int, z as int),
                i <= total,
                i < total ==> z < n,
                forall|j: int| i <= j < total ==> self.lattice.cells@[j] == before[j],
                forall|j: int| 0 <= j < i ==> #[trigger] self.lattice.cells@[j] == if coordinate(n as int, axis, j) == location {
                    Cell { e, b, source_index: 0 }
                } else {
                    before[j]
                },
            decreases total - i,
        {
            proof {
                lemma_flat_index_bounds(n as int, x as int, y as int, z as int);
            }
            let here = match axis {
                Axis::X => x,
                Axis::Y => y,
                Axis::Z => z,
            };
            if here == location {
                self.lattice.cells.set(i, Cell { e, b, source_index: 0 });
            }
            let next = advance(n, x, y, z);
            x = next.0;
            y = next.1;
            z = next.2;
            i = i + 1;
            proof {
                if i < total {
                    if z >= n {
                        assert(flat_index(n as int, x as int, y as int, z as int) >= cube(n as int)) by (nonlinear_arith)
                            requires z >= n, x >= 0, y >= 0, n >= 0;
                    }
                }
            }
        }
        Ok(())
    }

    /// Drives every point of a line along `axis` by a new oscillating source,
    /// appended to the source list; the fields of those points are kept. The
    /// line's other two coordinates, in x, y, z order, are `first` and `second`.
    pub fn place_wire(&mut self, axis: Axis, first: usize, second: usize, amplitude: T, angular_frequency: T) -> (r: Result<(), PlacementError>)
        requires
            old(self).wf(),
        ensures
            final(self).wf(),
            final(self).lattice.side == old(self).lattice.side,
            r is Err <==> !(first < old(self).lattice.side && second < old(self).lattice.side),
            r is Err ==> final(self).lattice.cells@ == old(self).lattice.cells@ && final(self).sources == old(self).sources,
            r is Ok ==> final(self).sources@ == old(self).sources@.push(
                SourceObject::OscillatingLine { amplitude, angular_frequency, axis },
            ),
            r is Ok ==> forall|i: int| 0 <= i < final(self).lattice.cells@.len() ==>
                #[trigger] final(self).lattice.cells@[i] == if on_line(old(self).lattice.side as int, axis, first as int, second as int, i) {
                    Cell { source_index: old(self).sources@.len() as usize, ..old(self).lattice.cells@[i] }
                } else {
                    old(self).lattice.cells@[i]
                },
    {
        let n = self.lattice.side;
        if first >= n || second >= n {
            return Err(PlacementError::OutOfRange);
        }
        let ghost before = self.lattice.cells@;
        let index = self.sources.len();
        self.sources.push(SourceObject::OscillatingLine { amplitude, angular_frequency, axis });
        let total = self.lattice.cells.len();
        let mut i: usize = 0;
        let mut x: usize = 0;
        let mut y: usize = 0;
        let mut z: usize = 0;
        while i < total
            invariant
                self.lattice.wf(),
                self.sources@ == old(self).sources@.push(SourceObject::OscillatingLine { amplitude, angular_frequency, axis }),
                index == old(self).sources@.len(),
                old(self).wf(),
                self.lattice.side == n,
                n == old(self).lattice.side,
                total == self.lattice.cells@.len(),
                total == cube(n as int),
                before == old(self).lattice.cells@,
                x < n,
                y < n,
                z <= n,
                i == flat_index(n as int, x as int, y as int, z as int),
                i <= total,
                i < total ==> z < n,
                forall|j: int| i <= j < total ==> self.lattice.cells@[j] == before[j],
                forall|j: int| 0 <= j < i ==> #[trigger] self.lattice.cells@[j] == if on_line(n as int, axis, first as int, second as int, j) {
                    Cell { source_index: index, ..before[j] }
                } else {
                    before[j]
                },
            decreases total - i,
        {
            proof {
                lemma_flat_index_bounds(n as int, x as int, y as int, z as int);
            }
            let hit = match axis {
                Axis::X => y == first && z == second,
                Axis::Y => x == first && z == second,
                Axis::Z => x == first && y == second,
            };
            if hit {
                let cell = self.lattice.cells[i];
                self.lattice.cells.set(i, Cell { source_index: index, ..cell });
            }
            let next = advance(n, x, y, z);
            x = next.0;
            y = next.1;
            z = next.2;
            i = i + 1;
            proof {
                if i < total {
                    if z >= n {
                        assert(flat_index(n as int, x as int, y as int, z as int) >= cube(n as int)) by (nonlinear_arith)
                            requires z >= n, x >= 0, y >= 0, n >= 0;
                    }
                }
            }
        }
        Ok(())
    }
}

} // verus!
