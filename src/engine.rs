use vstd::prelude::*;
use crate::scalar::Scalar;
use crate::vector::Vector3;
use crate::source::{Axis, SourceObject};
use crate::lattice::{Cell, Lattice, flat_index, cube, x_of, y_of, z_of, lemma_flat_index_bounds, lemma_coordinates_in_range, advance};
use crate::boundary::{BoundaryCondition, Difference, difference, difference_of, reads_within};
use crate::scene::Scene;
use crate::encoder::{header_bytes, header_round_trip, le_value, push_header};
use crate::frame::{kept_records, write_records};

verus! {

/// The scalar parameters of a run, fixed for its whole duration.
#[derive(Clone, Copy)]
pub struct RunParameters<T> {
    /// Permittivity.
    pub e0: T,
    /// Permeability.
    pub m0: T,
    /// Timestep.
    pub dt: T,
    /// Steps of the run, the initial condition counting as the first.
    pub steps: u32,
    pub boundary: BoundaryCondition,
    /// Only every this-many steps is exported.
    pub temporal_decimation: u32,
    /// Only points whose coordinates plus one are multiples of this are exported.
    pub spatial_decimation: u32,
    /// Grid points per unit length.
    pub density: u32,
}

impl<T> RunParameters<T> {
    pub open spec fn wf(&self) -> bool {
        &&& 1 <= self.steps
        &&& 1 <= self.temporal_decimation
        &&& 1 <= self.spatial_decimation
    }
}

/// Step `step` is exported.
pub open spec fn is_export_step(step: int, temporal_decimation: int) -> bool {
    step % temporal_decimation == 0
}

/// The position of the point that has coordinate `p` along `axis` and shares
/// its other coordinates with `(x, y, z)`.
pub open spec fn along_index(n: int, axis: Axis, p: int, x: int, y: int, z: int) -> int {
    match axis {
        Axis::X => flat_index(n, p, y, z),
        Axis::Y => flat_index(n, x, p, z),
        Axis::Z => flat_index(n, x, y, p),
    }
}

/// The coordinate of `(x, y, z)` along `axis`.
pub open spec fn coordinate_along(axis: Axis, x: int, y: int, z: int) -> int {
    match axis {
        Axis::X => x,
        Axis::Y => y,
        Axis::Z => z,
    }
}

/// The derivatives of `E` and of `B` along `axis` at `(x, y, z)` of `cells`,
/// a cube of side `n`: the difference that the boundary policy prescribes
/// there, scaled by `density` (and by one half where the policy halves it).
pub open spec fn spec_axis_derivatives<T: Scalar>(
    cells: Seq<Cell<T>>,
    n: int,
    axis: Axis,
    x: int,
    y: int,
    z: int,
    boundary: BoundaryCondition,
    density: T,
) -> (Vector3<T>, Vector3<T>) {
    let half = T::spec_half();
    match difference_of(boundary, coordinate_along(axis, x, y, z), n) {
        Difference::Forward { hi } => {
            let c = cells[along_index(n, axis, hi as int, x, y, z)];
            (c.e.spec_scaled(density).spec_scaled(half), c.b.spec_scaled(density).spec_scaled(half))
        },
        Difference::Backward { lo } => {
            let c = cells[along_index(n, axis, lo as int, x, y, z)];
            let w = half.spec_negated();
            (c.e.spec_scaled(density).spec_scaled(w), c.b.spec_scaled(density).spec_scaled(w))
        },
        Difference::OneSided { hi, lo } => {
            let h = cells[along_index(n, axis, hi as int, x, y, z)];
            let l = cells[along_index(n, axis, lo as int, x, y, z)];
            (h.e.spec_minus(l.e).spec_scaled(density), h.b.spec_minus(l.b).spec_scaled(density))
        },
        Difference::Centered { hi, lo } => {
            let h = cells[along_index(n, axis, hi as int, x, y, z)];
            let l = cells[along_index(n, axis, lo as int, x, y, z)];
            (
                h.e.spec_minus(l.e).spec_scaled(density).spec_scaled(half),
                h.b.spec_minus(l.b).spec_scaled(density).spec_scaled(half),
            )
        },
    }
}

/// The curl of a field from its derivatives along x, y and z.
pub open spec fn spec_curl<T: Scalar>(dx: Vector3<T>, dy: Vector3<T>, dz: Vector3<T>) -> Vector3<T> {
    Vector3 { x: dy.z.spec_minus(dz.y), y: dz.x.spec_minus(dx.z), z: dx.y.spec_minus(dy.x) }
}

/// The state of point `(x, y, z)` one step later: `B - dt·curl E` and
/// `E + dt·(curl B / (e0·m0) - J / e0)`, both from the same time slice, where
/// `J` is the entry of `currents` for the point's source; the source is kept.
pub open spec fn spec_updated_cell<T: Scalar>(
    cells: Seq<Cell<T>>,
    n: int,
    x: int,
    y: int,
    z: int,
    currents: Seq<Vector3<T>>,
    params: RunParameters<T>,
) -> Cell<T> {
    let density = T::spec_from_count(params.density);
    let dx = spec_axis_derivatives(cells, n, Axis::X, x, y, z, params.boundary, density);
    let dy = spec_axis_derivatives(cells, n, Axis::Y, x, y, z, params.boundary, density);
    let dz = spec_axis_derivatives(cells, n, Axis::Z, x, y, z, params.boundary, density);
    let curl_e = spec_curl(dx.0, dy.0, dz.0);
    let curl_b = spec_curl(dx.1, dy.1, dz.1);
    let node = cells[flat_index(n, x, y, z)];
    let j = currents[node.source_index as int];
    let drive = curl_b.spec_divided(params.e0.spec_times(params.m0)).spec_minus(j.spec_divided(params.e0));
    Cell { e: node.e.spec_plus(drive.spec_scaled(params.dt)), b: node.b.spec_minus(curl_e.spec_scaled(params.dt)), source_index: node.source_index }
}

/// Every point of `cells` one step later, in row-major order.
pub open spec fn spec_next_cells<T: Scalar>(
    cells: Seq<Cell<T>>,
    n: int,
    currents: Seq<Vector3<T>>,
    params: RunParameters<T>,
) -> Seq<Cell<T>> {
    Seq::new(cube(n) as nat, |i: int| spec_updated_cell(cells, n, x_of(n, i), y_of(n, i), z_of(n, i), currents, params))
}

/// The current density of every source at time `t`, in source order.
pub open spec fn spec_currents<T: Scalar>(sources: Seq<SourceObject<T>>, t: T) -> Seq<Vector3<T>> {
    Seq::new(sources.len(), |k: int| sources[k].spec_density(t))
}

/// The simulated time of step `step`: `step · dt`.
pub open spec fn spec_time<T: Scalar>(params: RunParameters<T>, step: u32) -> T {
    T::spec_from_count(step).spec_times(params.dt)
}

/// `cells` after step `step`, with every source's current density taken at
/// that step's time.
pub open spec fn spec_evolve<T: Scalar>(
    cells: Seq<Cell<T>>,
    n: int,
    sources: Seq<SourceObject<T>>,
    params: RunParameters<T>,
    step: u32,
) -> Seq<Cell<T>> {
    spec_next_cells(cells, n, spec_currents(sources, spec_time(params, step)), params)
}

/// The grid before step `upto` of a run that starts from `initial`: the
/// initial grid evolved through steps `1 .. upto`.
pub open spec fn spec_history<T: Scalar>(
    initial: Seq<Cell<T>>,
    n: int,
    sources: Seq<SourceObject<T>>,
    params: RunParameters<T>,
    upto: u32,
) -> Seq<Cell<T>>
    decreases upto,
{
    if upto <= 1 {
        initial
    } else {
        spec_evolve(spec_history(initial, n, sources, params, (upto - 1) as u32), n, sources, params, (upto - 1) as u32)
    }
}

/// The bytes exported by step `step`, whose result is `cells`: nothing unless
/// the step is exported, else the records of the points kept.
pub open spec fn spec_step_bytes<T: Scalar>(cells: Seq<Cell<T>>, n: int, params: RunParameters<T>, step: u32) -> Seq<u8> {
    if is_export_step(step as int, params.temporal_decimation as int) {
        kept_records(cells, n, params.spatial_decimation as int, cube(n))
    } else {
        seq![]
    }
}

/// The bytes exported by steps `1 .. upto` of a run that starts from `initial`.
pub open spec fn spec_stream<T: Scalar>(
    initial: Seq<Cell<T>>,
    n: int,
    sources: Seq<SourceObject<T>>,
    params: RunParameters<T>,
    upto: u32,
) -> Seq<u8>
    decreases upto,
{
    if upto <= 1 {
        seq![]
    } else {
        spec_stream(initial, n, sources, params, (upto - 1) as u32)
            + spec_step_bytes(spec_history(initial, n, sources, params, upto), n, params, (upto - 1) as u32)
    }
}

/// The stream header: the bit patterns of the effective spatial scale
/// `density / spatial_decimation` and of the effective timestep
/// `dt · temporal_decimation`.
pub open spec fn spec_header<T: Scalar>(params: RunParameters<T>) -> Seq<u8> {
    let scale = T::spec_from_count(params.density).spec_over(T::spec_from_count(params.spatial_decimation));
    let dt = params.dt.spec_times(T::spec_from_count(params.temporal_decimation));
    header_bytes(scale.spec_bits(), dt.spec_bits())
}

/// Reading back the header of a stream gives the bit patterns of the effective
/// spatial scale and of the effective timestep, whatever follows it.
pub proof fn stream_header_round_trip<T: Scalar>(params: RunParameters<T>, rest: Seq<u8>)
    ensures
        le_value(spec_header(params) + rest, 0)
            == T::spec_from_count(params.density).spec_over(T::spec_from_count(params.spatial_decimation)).spec_bits(),
        le_value(spec_header(params) + rest, 4)
            == params.dt.spec_times(T::spec_from_count(params.temporal_decimation)).spec_bits(),
{
    let scale = T::spec_from_count(params.density).spec_over(T::spec_from_count(params.spatial_decimation));
    let dt = params.dt.spec_times(T::spec_from_count(params.temporal_decimation));
    header_round_trip(scale.spec_bits(), dt.spec_bits(), rest);
}

/// Away from the faces the two boundary policies give the same derivatives.
pub proof fn interior_derivatives_agree<T: Scalar>(
    cells: Seq<Cell<T>>,
    n: int,
    axis: Axis,
    x: int,
    y: int,
    z: int,
    density: T,
)
    requires
        0 < coordinate_along(axis, x, y, z) < n - 1,
    ensures
        spec_axis_derivatives(cells, n, axis, x, y, z, BoundaryCondition::Clip, density)
            == spec_axis_derivatives(cells, n, axis, x, y, z, BoundaryCondition::Fit, density),
{
}

/// `a` is a zero of either sign.
pub open spec fn is_zero<T: Scalar>(a: T) -> bool {
    a == T::spec_zero() || a == T::spec_zero().spec_negated()
}

pub open spec fn is_zero_vector<T: Scalar>(v: Vector3<T>) -> bool {
    is_zero(v.x) && is_zero(v.y) && is_zero(v.z)
}

/// The sample arithmetic keeps zeros with these parameters: a zero scaled by
/// the density, by ±½ or by `dt`, or divided by `e0·m0` or by `e0`, is a zero;
/// the difference of two zeros is a zero; and the positive zero plus or minus a
/// zero is the positive zero. IEEE-754 arithmetic does so whenever `dt` is
/// finite and `e0` and `m0` are finite and non-zero.
pub open spec fn keeps_zero<T: Scalar>(params: RunParameters<T>) -> bool {
    let density = T::spec_from_count(params.density);
    let half = T::spec_half();
    &&& forall|a: T| is_zero(a) ==> is_zero(#[trigger] a.spec_times(density))
    &&& forall|a: T| is_zero(a) ==> is_zero(#[trigger] a.spec_times(half))
    &&& forall|a: T| is_zero(a) ==> is_zero(#[trigger] a.spec_times(half.spec_negated()))
    &&& forall|a: T| is_zero(a) ==> is_zero(#[trigger] a.spec_times(params.dt))
    &&& forall|a: T| is_zero(a) ==> is_zero(#[trigger] a.spec_over(params.e0.spec_times(params.m0)))
    &&& forall|a: T| is_zero(a) ==> is_zero(#[trigger] a.spec_over(params.e0))
    &&& forall|a: T, b: T| is_zero(a) && is_zero(b) ==> is_zero(#[trigger] a.spec_minus(b))
    &&& forall|a: T| is_zero(a) ==> #[trigger] T::spec_zero().spec_plus(a) == T::spec_zero()
    &&& forall|a: T| is_zero(a) ==> #[trigger] T::spec_zero().spec_minus(a) == T::spec_zero()
}

/// Every point of `cells` has zero fields and the inert source.
pub open spec fn all_zero<T: Scalar>(cells: Seq<Cell<T>>, n: int) -> bool {
    &&& cells.len() == cube(n)
    &&& forall|i: int| 0 <= i < cube(n) ==> #[trigger] cells[i] == Cell::<T>::spec_zero()
}

proof fn lemma_zero_derivatives<T: Scalar>(
    cells: Seq<Cell<T>>,
    n: int,
    axis: Axis,
    x: int,
    y: int,
    z: int,
    params: RunParameters<T>,
)
    requires
        2 <= n,
        0 <= x < n,
        0 <= y < n,
        0 <= z < n,
        all_zero(cells, n),
        keeps_zero(params),
    ensures
        is_zero_vector(spec_axis_derivatives(cells, n, axis, x, y, z, params.boundary, T::spec_from_count(params.density)).0),
        is_zero_vector(spec_axis_derivatives(cells, n, axis, x, y, z, params.boundary, T::spec_from_count(params.density)).1),
{
    let c = coordinate_along(axis, x, y, z);
    let d = difference_of(params.boundary, c, n);
    assert(reads_within(d, n));
    assert forall|p: int| 0 <= p < n implies #[trigger] cells[along_index(n, axis, p, x, y, z)] == Cell::<T>::spec_zero() by {
        match axis {
            Axis::X => lemma_flat_index_bounds(n, p, y, z),
            Axis::Y => lemma_flat_index_bounds(n, x, p, z),
            Axis::Z => lemma_flat_index_bounds(n, x, y, p),
        }
    }
    assert(is_zero(T::spec_zero()));
}

/// With zero-keeping arithmetic, a grid of zero fields whose points are all
/// inert is still zero, and still inert, one step later.
pub proof fn zero_state_is_fixed<T: Scalar>(
    cells: Seq<Cell<T>>,
    n: int,
    sources: Seq<SourceObject<T>>,
    params: RunParameters<T>,
    step: u32,
)
    requires
        2 <= n,
        all_zero(cells, n),
        sources.len() >= 1,
        sources[0] is Inert,
        keeps_zero(params),
    ensures
        all_zero(spec_evolve(cells, n, sources, params, step), n),
{
    let currents = spec_currents(sources, spec_time(params, step));
    let next = spec_evolve(cells, n, sources, params, step);
    assert forall|i: int| 0 <= i < cube(n) implies #[trigger] next[i] == Cell::<T>::spec_zero() by {
        lemma_coordinates_in_range(n, i);
        let (x, y, z) = (x_of(n, i), y_of(n, i), z_of(n, i));
        lemma_zero_derivatives(cells, n, Axis::X, x, y, z, params);
        lemma_zero_derivatives(cells, n, Axis::Y, x, y, z, params);
        lemma_zero_derivatives(cells, n, Axis::Z, x, y, z, params);
        assert(cells[flat_index(n, x, y, z)] == Cell::<T>::spec_zero());
        assert(currents[0] == Vector3::<T>::spec_zero());
        assert(is_zero(T::spec_zero()));
    }
}

/// With zero-keeping arithmetic, a run that starts from zero fields with every
/// point inert stays exactly zero after any number of steps.
pub proof fn zero_state_stays_zero<T: Scalar>(
    cells: Seq<Cell<T>>,
    n: int,
    sources: Seq<SourceObject<T>>,
    params: RunParameters<T>,
    upto: u32,
)
    requires
        2 <= n,
        all_zero(cells, n),
        sources.len() >= 1,
        sources[0] is Inert,
        keeps_zero(params),
    ensures
        all_zero(spec_history(cells, n, sources, params, upto), n),
    decreases upto,
{
    if upto > 1 {
        zero_state_stays_zero(cells, n, sources, params, (upto - 1) as u32);
        zero_state_is_fixed(spec_history(cells, n, sources, params, (upto - 1) as u32), n, sources, params, (upto - 1) as u32);
    }
}

fn along<T: Scalar>(lattice: &Lattice<T>, axis: Axis, p: usize, x: usize, y: usize, z: usize) -> (r: usize)
    requires
        lattice.wf(),
        p < lattice.side,
        x < lattice.side,
        y < lattice.side,
        z < lattice.side,
    ensures
        r < lattice.cells@.len(),
        r == along_index(lattice.side as int, axis, p as int, x as int, y as int, z as int),
{
    match axis {
        Axis::X => lattice.index(p, y, z),
        Axis::Y => lattice.index(x, p, z),
        Axis::Z => lattice.index(x, y, p),
    }
}

/// The derivatives of `E` and of `B` along `axis` at `(x, y, z)`, under the
/// boundary policy, scaled by `density`.
pub fn axis_derivatives<T: Scalar>(
    lattice: &Lattice<T>,
    axis: Axis,
    x: usize,
    y: usize,
    z: usize,
    boundary: BoundaryCondition,
    density: T,
) -> (r: (Vector3<T>, Vector3<T>))
    requires
        lattice.wf(),
        x < lattice.side,
        y < lattice.side,
        z < lattice.side,
    ensures
        r == spec_axis_derivatives(lattice.cells@, lattice.side as int, axis, x as int, y as int, z as int, boundary, density),
{
    let i = match axis {
        Axis::X => x,
        Axis::Y => y,
        Axis::Z => z,
    };
    match difference(boundary, i, lattice.side) {
        Difference::Forward { hi } => {
            let c = lattice.cells[along(lattice, axis, hi, x, y, z)];
            (c.e.scaled(density).scaled(T::half()), c.b.scaled(density).scaled(T::half()))
        },
        Difference::Backward { lo } => {
            let c = lattice.cells[along(lattice, axis, lo, x, y, z)];
            let w = T::half().negated();
            (c.e.scaled(density).scaled(w), c.b.scaled(density).scaled(w))
        },
        Difference::OneSided { hi, lo } => {
            let h = lattice.cells[along(lattice, axis, hi, x, y, z)];
            let l = lattice.cells[along(lattice, axis, lo, x, y, z)];
            (h.e.minus(&l.e).scaled(density), h.b.minus(&l.b).scaled(density))
        },
        Difference::Centered { hi, lo } => {
            let h = lattice.cells[along(lattice, axis, hi, x, y, z)];
            let l = lattice.cells[along(lattice, axis, lo, x, y, z)];
            (
                h.e.minus(&l.e).scaled(density).scaled(T::half()),
                h.b.minus(&l.b).scaled(density).scaled(T::half()),
            )
        },
    }
}

/// The curl of a field from its derivatives along x, y and z:
/// `(dy.z - dz.y, dz.x - dx.z, dx.y - dy.x)`.
pub fn curl<T: Scalar>(dx: &Vector3<T>, dy: &Vector3<T>, dz: &Vector3<T>) -> (r: Vector3<T>)
    ensures
        r == spec_curl(*dx, *dy, *dz),
{
    Vector3::new(dy.z.minus(dz.y), dz.x.minus(dx.z), dx.y.minus(dy.x))
}

/// The state of point `(x, y, z)` after one step.
pub fn updated_cell<T: Scalar>(
    lattice: &Lattice<T>,
    x: usize,
    y: usize,
    z: usize,
    currents: &Vec<Vector3<T>>,
    params: &RunParameters<T>,
) -> (r: Cell<T>)
    requires
        lattice.wf(),
        lattice.sources_below(currents@.len() as int),
        x < lattice.side,
        y < lattice.side,
        z < lattice.side,
    ensures
        r == spec_updated_cell(lattice.cells@, lattice.side as int, x as int, y as int, z as int, currents@, *params),
{
    let density = T::from_count(params.density);
    let (de_x, db_x) = axis_derivatives(lattice, Axis::X, x, y, z, params.boundary, density);
    let (de_y, db_y) = axis_derivatives(lattice, Axis::Y, x, y, z, params.boundary, density);
    let (de_z, db_z) = axis_derivatives(lattice, Axis::Z, x, y, z, params.boundary, density);
    let curl_e = curl(&de_x, &de_y, &de_z);
    let curl_b = curl(&db_x, &db_y, &db_z);
    let node = lattice.cells[lattice.index(x, y, z)];
    let j = currents[node.source_index];
    let b = node.b.minus(&curl_e.scaled(params.dt));
    let drive = curl_b.divided(params.e0.times(params.m0)).minus(&j.divided(params.e0));
    let e = node.e.plus(&drive.scaled(params.dt));
    Cell { e, b, source_index: node.source_index }
}

/// The current density of every source at time `t`, in source order.
pub fn current_table<T: Scalar>(sources: &Vec<SourceObject<T>>, t: T) -> (r: Vec<Vector3<T>>)
    ensures
        r@ == spec_currents(sources@, t),
{
    let mut table: Vec<Vector3<T>> = Vec::new();
    let mut k: usize = 0;
    while k < sources.len()
        invariant
            k <= sources@.len(),
            table@ == spec_currents(sources@.subrange(0, k as int), t),
        decreases sources@.len() - k,
    {
        table.push(sources[k].current_density(t));
        k = k + 1;
        assert(table@ =~= spec_currents(sources@.subrange(0, k as int), t));
    }
    assert(sources@.subrange(0, k as int) =~= sources@);
    table
}

/// Fills `next` with the state of every point of `current` one step later.
pub fn step<T: Scalar>(
    current: &Lattice<T>,
    next: &mut Lattice<T>,
    currents: &Vec<Vector3<T>>,
    params: &RunParameters<T>,
)
    requires
        current.wf(),
        old(next).wf(),
        old(next).side == current.side,
        current.sources_below(currents@.len() as int),
    ensures
        final(next).wf(),
        final(next).side == current.side,
        final(next).cells@ == spec_next_cells(current.cells@, current.side as int, currents@, *params),
        forall|i: int| 0 <= i < current.cells@.len() ==>
            #[trigger] final(next).cells@[i].source_index == current.cells@[i].source_index,
{
    let n = current.side;
    let total = current.cells.len();
    let mut i: usize = 0;
    let mut x: usize = 0;
    let mut y: usize = 0;
    let mut z: usize = 0;
    while i < total
        invariant
            current.wf(),
            next.wf(),
            next.side == n,
            n == current.side,
            current.sources_below(currents@.len() as int),
            total == current.cells@.len(),
            total == cube(n as int),
            x < n,
            y < n,
            z <= n,
            i == flat_index(n as int, x as int, y as int, z as int),
            i <= total,
            i < total ==> z < n,
            forall|j: int| 0 <= j < i ==> #[trigger] next.cells@[j] == spec_updated_cell(
                current.cells@, n as int, x_of(n as int, j), y_of(n as int, j), z_of(n as int, j), currents@, *params),
            forall|j: int| 0 <= j < i ==> #[trigger] next.cells@[j].source_index == current.cells@[j].source_index,
        decreases total - i,
    {
        proof {
            lemma_flat_index_bounds(n as int, x as int, y as int, z as int);
        }
        let cell = updated_cell(current, x, y, z, currents, params);
        next.cells.set(i, cell);
        let following = advance(n, x, y, z);
        x = following.0;
        y = following.1;
        z = following.2;
        i = i + 1;
        proof {
            if i < total {
                if z >= n {
                    assert(flat_index(n as int, x as int, y as int, z as int) >= cube(n as int)) by (nonlinear_arith)
                        requires z >= n, x >= 0, y >= 0, n >= 0;
                }
            }
        }
    }
    assert(next.cells@ =~= spec_next_cells(current.cells@, n as int, currents@, *params));
}

/// Appends the stream header.
pub fn write_header<T: Scalar>(params: &RunParameters<T>, out: &mut Vec<u8>)
    ensures
        final(out)@ == old(out)@ + spec_header(*params),
{
    let scale = T::from_count(params.density).over(T::from_count(params.spatial_decimation));
    let dt = params.dt.times(T::from_count(params.temporal_decimation));
    let scale_bits = scale.to_bits();
    let dt_bits = dt.to_bits();
    push_header(out, scale_bits, dt_bits);
}

/// A run in progress: the double-buffered grid, the sources, the parameters,
/// and the index of the step to perform next.
pub struct Simulation<T> {
    pub current: Lattice<T>,
    pub next: Lattice<T>,
    pub sources: Vec<SourceObject<T>>,
    pub params: RunParameters<T>,
    pub step_index: u32,
}

impl<T: Scalar> Simulation<T> {
    pub open spec fn wf(&self) -> bool {
        &&& self.current.wf()
        &&& self.next.wf()
        &&& self.next.side == self.current.side
        &&& self.current.sources_below(self.sources@.len() as int)
        &&& self.params.wf()
        &&& 1 <= self.step_index <= self.params.steps
    }

    /// All steps have been performed.
    pub open spec fn done(&self) -> bool {
        self.step_index >= self.params.steps
    }

    /// Starts a run: writes the stream header and the undecimated initial frame,
    /// and makes step 1 the next one.
    pub fn prime(scene: Scene<T>, params: RunParameters<T>, out: &mut Vec<u8>) -> (r: Self)
        requires
            scene.wf(),
            params.wf(),
        ensures
            r.wf(),
            r.current == scene.lattice,
            r.sources == scene.sources,
            r.params == params,
            r.step_index == 1,
            final(out)@ == old(out)@ + spec_header(params)
                + kept_records(scene.lattice.cells@, scene.lattice.side as int, 1, cube(scene.lattice.side as int)),
    {
        write_header(&params, out);
        write_records(&scene.lattice, 1, out);
        let next = Lattice::blank(scene.lattice.side);
        Simulation { current: scene.lattice, next, sources: scene.sources, params, step_index: 1 }
    }

    /// Performs the next step: recomputes every source's current density at
    /// time `step_index · dt`, derives the next state of every point, appends
    /// its records when the step is exported, and swaps the buffers.
    pub fn advance(&mut self, out: &mut Vec<u8>)
        requires
            old(self).wf(),
            !old(self).done(),
        ensures
            final(self).wf(),
            final(self).step_index == old(self).step_index + 1,
            final(self).params == old(self).params,
            final(self).sources == old(self).sources,
            final(self).current.side == old(self).current.side,
            final(self).current.cells@ == spec_evolve(
                old(self).current.cells@,
                old(self).current.side as int,
                old(self).sources@,
                old(self).params,
                old(self).step_index,
            ),
            final(out)@ == old(out)@ + spec_step_bytes(
                final(self).current.cells@,
                old(self).current.side as int,
                old(self).params,
                old(self).step_index,
            ),
    {
        let s = self.step_index;
        let t = T::from_count(s).times(self.params.dt);
        let currents = current_table(&self.sources, t);
        step(&self.current, &mut self.next, &currents, &self.params);
        if s % self.params.temporal_decimation == 0 {
            write_records(&self.next, self.params.spatial_decimation as usize, out);
        } else {
            assert(out@ =~= old(out)@ + seq![]);
        }
        std::mem::swap(&mut self.current, &mut self.next);
        self.step_index = s + 1;
    }
}

/// Performs a whole run: the header, the initial frame, then every step with
/// its exported records. Returns the final state of the grid.
pub fn run<T: Scalar>(scene: Scene<T>, params: RunParameters<T>, out: &mut Vec<u8>) -> (r: Lattice<T>)
    requires
        scene.wf(),
        params.wf(),
    ensures
        r.wf(),
        r.side == scene.lattice.side,
        r.cells@ == spec_history(scene.lattice.cells@, scene.lattice.side as int, scene.sources@, params, params.steps),
        final(out)@ == old(out)@ + spec_header(params)
            + kept_records(scene.lattice.cells@, scene.lattice.side as int, 1, cube(scene.lattice.side as int))
            + spec_stream(scene.lattice.cells@, scene.lattice.side as int, scene.sources@, params, params.steps),
{
    let ghost n = scene.lattice.side as int;
    let ghost initial = scene.lattice.cells@;
    let ghost sources = scene.sources@;
    let ghost prefix = old(out)@ + spec_header(params) + kept_records(initial, n, 1, cube(n));
    let mut sim = Simulation::prime(scene, params, out);
    assert(out@ =~= prefix + spec_stream(initial, n, sources, params, 1));
    while sim.step_index < sim.params.steps
        invariant
            sim.wf(),
            sim.params == params,
            sim.sources@ == sources,
            sim.current.side == n,
            sim.current.cells@ == spec_history(initial, n, sources, params, sim.step_index),
            out@ == prefix + spec_stream(initial, n, sources, params, sim.step_index),
        decreases params.steps - sim.step_index,
    {
        let ghost k = sim.step_index;
        sim.advance(out);
        assert(out@ =~= prefix + spec_stream(initial, n, sources, params, (k + 1) as u32));
    }
    sim.current
}

} // verus!
