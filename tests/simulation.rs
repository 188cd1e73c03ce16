use fdtd_sim::boundary::{difference, BoundaryCondition, Difference};
use fdtd_sim::encoder::{decode_header, marker, push_header, push_le, push_record, read_le};
use fdtd_sim::engine::{axis_derivatives, curl, run, write_header, RunParameters, Simulation};
use fdtd_sim::lattice::{advance, Cell, Lattice};
use fdtd_sim::names::{boundary_from_lowercase, parse_axis, parse_boundary};
use fdtd_sim::scalar::Scalar;
use fdtd_sim::scene::{PlacementError, Scene};
use fdtd_sim::source::{Axis, SourceObject};
use fdtd_sim::vector::Vector3;

#[derive(Clone, Copy, Debug, PartialEq)]
struct F(f32);

impl Scalar for F {
    fn spec_zero() -> Self {
        Self::zero()
    }
    fn spec_one() -> Self {
        Self::one()
    }
    fn spec_half() -> Self {
        Self::half()
    }
    fn spec_from_count(n: u32) -> Self {
        Self::from_count(n)
    }
    fn spec_plus(self, rhs: Self) -> Self {
        self.plus(rhs)
    }
    fn spec_minus(self, rhs: Self) -> Self {
        self.minus(rhs)
    }
    fn spec_times(self, rhs: Self) -> Self {
        self.times(rhs)
    }
    fn spec_over(self, rhs: Self) -> Self {
        self.over(rhs)
    }
    fn spec_negated(self) -> Self {
        self.negated()
    }
    fn spec_sine(self) -> Self {
        self.sine()
    }
    fn spec_bits(self) -> u32 {
        self.to_bits()
    }
    fn zero() -> Self {
        F(0.0)
    }
    fn one() -> Self {
        F(1.0)
    }
    fn half() -> Self {
        F(0.5)
    }
    fn from_count(n: u32) -> Self {
        F(n as f32)
    }
    fn plus(self, rhs: Self) -> Self {
        F(self.0 + rhs.0)
    }
    fn minus(self, rhs: Self) -> Self {
        F(self.0 - rhs.0)
    }
    fn times(self, rhs: Self) -> Self {
        F(self.0 * rhs.0)
    }
    fn over(self, rhs: Self) -> Self {
        F(self.0 / rhs.0)
    }
    fn negated(self) -> Self {
        F(-self.0)
    }
    fn sine(self) -> Self {
        F(self.0.sin())
    }
    fn to_bits(self) -> u32 {
        self.0.to_bits()
    }
}

fn v(x: f32, y: f32, z: f32) -> Vector3<F> {
    Vector3::new(F(x), F(y), F(z))
}

fn params(steps: u32, boundary: BoundaryCondition, dt: f32, density: u32) -> RunParameters<F> {
    RunParameters {
        e0: F(1.0),
        m0: F(1.0),
        dt: F(dt),
        steps,
        boundary,
        temporal_decimation: 1,
        spatial_decimation: 1,
        density,
    }
}

fn energy(l: &Lattice<F>) -> f32 {
    let mut sum = 0.0f32;
    for c in &l.cells {
        for s in [c.e.x, c.e.y, c.e.z, c.b.x, c.b.y, c.b.z] {
            sum += s.0 * s.0;
        }
    }
    sum
}

#[test]
fn interior_policies_agree() {
    let n: usize = 7;
    for i in 1..n - 1 {
        assert_eq!(difference(BoundaryCondition::Clip, i, n), difference(BoundaryCondition::Fit, i, n));
        assert_eq!(difference(BoundaryCondition::Clip, i, n), Difference::Centered { hi: i + 1, lo: i - 1 });
    }
    let mut scene: Scene<F> = Scene::new(5);
    let mut k = 0.0f32;
    for z in 0..5 {
        for y in 0..5 {
            for x in 0..5 {
                k += 1.0;
                scene.place_point(x, y, z, v(k, k * k, -k), v(1.0 / k, 2.0 * k, k - 3.0)).unwrap();
            }
        }
    }
    for z in 1..4 {
        for y in 1..4 {
            for x in 1..4 {
                for axis in [Axis::X, Axis::Y, Axis::Z] {
                    let a = axis_derivatives(&scene.lattice, axis, x, y, z, BoundaryCondition::Clip, F(30.0));
                    let b = axis_derivatives(&scene.lattice, axis, x, y, z, BoundaryCondition::Fit, F(30.0));
                    assert_eq!((a.0.x, a.0.y, a.0.z, a.1.x, a.1.y, a.1.z), (b.0.x, b.0.y, b.0.z, b.1.x, b.1.y, b.1.z));
                }
            }
        }
    }
}

#[test]
fn faces_follow_each_policy() {
    assert_eq!(difference(BoundaryCondition::Clip, 0, 5), Difference::Forward { hi: 1 });
    assert_eq!(difference(BoundaryCondition::Clip, 4, 5), Difference::Backward { lo: 3 });
    assert_eq!(difference(BoundaryCondition::Fit, 0, 5), Difference::OneSided { hi: 1, lo: 0 });
    assert_eq!(difference(BoundaryCondition::Fit, 4, 5), Difference::OneSided { hi: 4, lo: 3 });
    let mut scene: Scene<F> = Scene::new(3);
    scene.place_point(0, 0, 0, v(2.0, 0.0, 0.0), v(0.0, 0.0, 0.0)).unwrap();
    scene.place_point(1, 0, 0, v(6.0, 0.0, 0.0), v(0.0, 0.0, 0.0)).unwrap();
    let clip = axis_derivatives(&scene.lattice, Axis::X, 0, 0, 0, BoundaryCondition::Clip, F(10.0));
    assert_eq!(clip.0.x, F(30.0));
    let fit = axis_derivatives(&scene.lattice, Axis::X, 0, 0, 0, BoundaryCondition::Fit, F(10.0));
    assert_eq!(fit.0.x, F(40.0));
    let clip_end = axis_derivatives(&scene.lattice, Axis::X, 2, 0, 0, BoundaryCondition::Clip, F(10.0));
    assert_eq!(clip_end.0.x, F(-30.0));
    let fit_end = axis_derivatives(&scene.lattice, Axis::X, 2, 0, 0, BoundaryCondition::Fit, F(10.0));
    assert_eq!(fit_end.0.x, F(-60.0));
}

#[test]
fn zero_state_stays_zero() {
    for boundary in [BoundaryCondition::Clip, BoundaryCondition::Fit] {
        let scene: Scene<F> = Scene::new(4);
        let mut out = Vec::new();
        let last = run(scene, params(6, boundary, 0.01, 30), &mut out);
        for c in &last.cells {
            for s in [c.e.x, c.e.y, c.e.z, c.b.x, c.b.y, c.b.z] {
                assert_eq!(s.0, 0.0);
            }
            assert_eq!(c.source_index, 0);
        }
    }
}

#[test]
fn energy_stays_bounded() {
    let mut scene: Scene<F> = Scene::new(6);
    scene.place_point(3, 3, 3, v(1.0, 0.5, -0.25), v(0.0, 0.2, 0.1)).unwrap();
    let initial = energy(&scene.lattice);
    let mut out = Vec::new();
    let mut sim = Simulation::prime(scene, params(60, BoundaryCondition::Clip, 0.001, 6), &mut out);
    while sim.step_index < sim.params.steps {
        sim.advance(&mut out);
        let now = energy(&sim.current);
        assert!(now.is_finite());
        assert!(now <= 1.1 * initial, "energy {} grew past {}", now, initial);
    }
}

#[test]
fn two_cube_frame_markers() {
    let scene: Scene<F> = Scene::new(2);
    let mut out = Vec::new();
    run(scene, params(1, BoundaryCondition::Clip, 0.01, 30), &mut out);
    assert_eq!(out.len(), 8 + 8 * 30);
    let markers: Vec<u8> = (0..8).map(|i| out[8 + 30 * i + 29]).collect();
    assert_eq!(markers, vec![2, 3, 2, 4, 2, 3, 2, 5]);
    for i in 0..8 {
        let r = &out[8 + 30 * i..8 + 30 * i + 30];
        assert_eq!((r[4], r[9], r[14], r[19], r[24]), (0, 0, 1, 0, 0));
    }
}

#[test]
fn header_round_trip() {
    let mut p = params(3, BoundaryCondition::Fit, 0.01, 30);
    p.spatial_decimation = 3;
    p.temporal_decimation = 5;
    let mut out = Vec::new();
    write_header(&p, &mut out);
    let (scale, dt) = decode_header(&out).unwrap();
    let scale = f32::from_bits(scale);
    let dt = f32::from_bits(dt);
    let spatial = 30.0 / scale;
    let temporal = dt / 0.01;
    assert!((spatial - 3.0).abs() < 1e-4);
    assert!((temporal - 5.0).abs() < 1e-4);
    assert_eq!(spatial.round(), 3.0);
    assert_eq!(temporal.round(), 5.0);
}

#[test]
fn point_source_one_step() {
    let mut scene: Scene<F> = Scene::new(5);
    let (e, b) = ((1.0f32, 2.0f32, 3.0f32), (0.5f32, -1.0f32, 2.0f32));
    scene.place_point(2, 2, 2, v(e.0, e.1, e.2), v(b.0, b.1, b.2)).unwrap();
    let dt = 0.1f32;
    let mut out = Vec::new();
    let last = run(scene, params(2, BoundaryCondition::Clip, dt, 1), &mut out);
    let at = |x: usize, y: usize, z: usize| last.cells[z * 25 + y * 5 + x];
    // The centre has no non-zero neighbour: its derivatives vanish.
    let c = at(2, 2, 2);
    assert_eq!((c.e.x.0, c.e.y.0, c.e.z.0), e);
    assert_eq!((c.b.x.0, c.b.y.0, c.b.z.0), b);
    // A neighbour at offset +1 along an axis sees -v/2 along it, -1 sees +v/2.
    let neighbours = [(3, 2, 2, 0, -0.5f32), (1, 2, 2, 0, 0.5), (2, 3, 2, 1, -0.5), (2, 1, 2, 1, 0.5), (2, 2, 3, 2, -0.5), (2, 2, 1, 2, 0.5)];
    for (x, y, z, axis, w) in neighbours {
        let d = |f: (f32, f32, f32)| -> [[f32; 3]; 3] {
            let mut m = [[0.0f32; 3]; 3];
            m[axis] = [f.0 * w, f.1 * w, f.2 * w];
            m
        };
        let curl_of = |m: [[f32; 3]; 3]| (m[1][2] - m[2][1], m[2][0] - m[0][2], m[0][1] - m[1][0]);
        let ce = curl_of(d(e));
        let cb = curl_of(d(b));
        let got = at(x, y, z);
        assert_eq!((got.b.x.0, got.b.y.0, got.b.z.0), (0.0 - ce.0 * dt, 0.0 - ce.1 * dt, 0.0 - ce.2 * dt));
        assert_eq!((got.e.x.0, got.e.y.0, got.e.z.0), (0.0 + cb.0 * dt, 0.0 + cb.1 * dt, 0.0 + cb.2 * dt));
    }
    // A point two cells away is untouched after one step.
    let far = at(4, 2, 2);
    assert_eq!((far.e.x.0, far.e.y.0, far.e.z.0, far.b.x.0, far.b.y.0, far.b.z.0), (0.0, 0.0, 0.0, 0.0, 0.0, 0.0));
}

#[test]
fn wire_current_density() {
    let wire = SourceObject::OscillatingLine { amplitude: F(1.0), angular_frequency: F(1.0), axis: Axis::X };
    let j0 = wire.current_density(F(0.0));
    assert_eq!((j0.x.0, j0.y.0, j0.z.0), (0.0, 0.0, 0.0));
    let t = std::f32::consts::PI / 2.0;
    let j = wire.current_density(F(t));
    assert_eq!((j.x.0, j.y.0, j.z.0), (1.0, 0.0, 0.0));
    let z_wire = SourceObject::OscillatingLine { amplitude: F(2.0), angular_frequency: F(2.0), axis: Axis::Z };
    let jz = z_wire.current_density(F(t / 2.0));
    assert_eq!((jz.x.0, jz.y.0, jz.z.0), (0.0, 0.0, 2.0));
    let inert: SourceObject<F> = SourceObject::Inert;
    let ji = inert.current_density(F(t));
    assert_eq!((ji.x.0, ji.y.0, ji.z.0), (0.0, 0.0, 0.0));
}

#[test]
fn wire_placement_marks_its_line() {
    let mut scene: Scene<F> = Scene::new(4);
    scene.place_point(0, 1, 2, v(1.0, 0.0, 0.0), v(0.0, 0.0, 0.0)).unwrap();
    scene.place_wire(Axis::X, 1, 2, F(1.0), F(1.0)).unwrap();
    scene.place_wire(Axis::Z, 3, 0, F(1.0), F(1.0)).unwrap();
    assert_eq!(scene.sources.len(), 3);
    for z in 0..4 {
        for y in 0..4 {
            for x in 0..4 {
                let c = scene.lattice.cells[z * 16 + y * 4 + x];
                let expected = if y == 1 && z == 2 {
                    1
                } else if x == 3 && y == 0 {
                    2
                } else {
                    0
                };
                assert_eq!(c.source_index, expected);
            }
        }
    }
    assert_eq!(scene.lattice.cells[2 * 16 + 4].e.x, F(1.0));
    assert_eq!(scene.place_wire(Axis::Y, 4, 0, F(1.0), F(1.0)), Err(PlacementError::OutOfRange));
    assert_eq!(scene.sources.len(), 3);
}

#[test]
fn driven_wire_radiates() {
    let mut scene: Scene<F> = Scene::new(5);
    scene.place_wire(Axis::X, 2, 2, F(1.0), F(10.0)).unwrap();
    let mut out = Vec::new();
    let last = run(scene, params(3, BoundaryCondition::Clip, 0.1, 1), &mut out);
    let c = last.cells[2 * 25 + 2 * 5 + 1];
    assert_eq!(c.source_index, 1);
    assert!(c.e.x.0 < 0.0);
    let off = last.cells[0];
    assert_eq!(off.source_index, 0);
}

#[test]
fn placements_reject_out_of_range() {
    let mut scene: Scene<F> = Scene::new(3);
    assert_eq!(scene.place_point(3, 0, 0, v(1.0, 1.0, 1.0), v(1.0, 1.0, 1.0)), Err(PlacementError::OutOfRange));
    assert_eq!(scene.place_plane(Axis::Y, 3, v(1.0, 1.0, 1.0), v(1.0, 1.0, 1.0)), Err(PlacementError::OutOfRange));
    assert_eq!(scene.place_wire(Axis::Z, 0, 5, F(1.0), F(1.0)), Err(PlacementError::OutOfRange));
    assert!(scene.lattice.cells.iter().all(|c| c.e.x == F(0.0)));
}

#[test]
fn plane_placement_fills_its_plane() {
    let mut scene: Scene<F> = Scene::new(3);
    scene.place_plane(Axis::Y, 1, v(1.0, 2.0, 3.0), v(4.0, 5.0, 6.0)).unwrap();
    for z in 0..3 {
        for y in 0..3 {
            for x in 0..3 {
                let c = scene.lattice.cells[z * 9 + y * 3 + x];
                let want = if y == 1 { (1.0, 6.0) } else { (0.0, 0.0) };
                assert_eq!((c.e.x.0, c.b.z.0), want);
            }
        }
    }
}

#[test]
fn decimated_stream_length() {
    let scene: Scene<F> = Scene::new(4);
    let mut p = params(5, BoundaryCondition::Fit, 0.01, 30);
    p.spatial_decimation = 2;
    p.temporal_decimation = 2;
    let mut out = Vec::new();
    run(scene, p, &mut out);
    // Frame 0 is whole; steps 2 and 4 keep the points with odd coordinates.
    assert_eq!(out.len(), 8 + 30 * (64 + 2 * 8));
    let tail: Vec<u8> = (0..8).map(|i| out[8 + 30 * 64 + 30 * i + 29]).collect();
    assert_eq!(tail, vec![2, 3, 2, 4, 2, 3, 2, 5]);
}

#[test]
fn markers_by_position() {
    assert_eq!(marker(30, 0, 0, 0), 2);
    assert_eq!(marker(30, 29, 0, 0), 3);
    assert_eq!(marker(30, 29, 29, 0), 4);
    assert_eq!(marker(30, 29, 29, 29), 5);
    assert_eq!(marker(30, 28, 29, 29), 2);
}

#[test]
fn record_bytes_layout() {
    let mut out = vec![9u8];
    push_record(&mut out, (0x01020304, 5, 6), (7, 8, 0xAABBCCDD), 4);
    assert_eq!(
        out,
        vec![9, 4, 3, 2, 1, 0, 5, 0, 0, 0, 0, 6, 0, 0, 0, 1, 7, 0, 0, 0, 0, 8, 0, 0, 0, 0, 0xDD, 0xCC, 0xBB, 0xAA, 4]
    );
    let mut le = Vec::new();
    push_le(&mut le, 1.5f32.to_bits());
    assert_eq!(le, 1.5f32.to_le_bytes().to_vec());
    assert_eq!(read_le(&le, 0), 1.5f32.to_bits());
}

#[test]
fn short_header_is_rejected() {
    assert_eq!(decode_header(&vec![1, 2, 3, 4, 5, 6, 7]), None);
    let mut out = Vec::new();
    push_header(&mut out, 0xDEADBEEF, 42);
    out.push(7);
    assert_eq!(decode_header(&out), Some((0xDEADBEEF, 42)));
}

#[test]
fn boundary_names() {
    assert_eq!(parse_boundary("clip"), Some(BoundaryCondition::Clip));
    assert_eq!(parse_boundary("CLIP"), Some(BoundaryCondition::Clip));
    assert_eq!(parse_boundary("Fit"), Some(BoundaryCondition::Fit));
    assert_eq!(parse_boundary("fits"), None);
    assert_eq!(parse_boundary(""), None);
    assert_eq!(boundary_from_lowercase("FIT"), None);
    assert_eq!(boundary_from_lowercase("fit"), Some(BoundaryCondition::Fit));
}

#[test]
fn axis_names() {
    assert_eq!(parse_axis("x"), Some(Axis::X));
    assert_eq!(parse_axis("y"), Some(Axis::Y));
    assert_eq!(parse_axis("z"), Some(Axis::Z));
    assert_eq!(parse_axis("X"), None);
}

#[test]
fn row_major_walk() {
    assert_eq!(advance(3, 0, 0, 0), (1, 0, 0));
    assert_eq!(advance(3, 2, 0, 0), (0, 1, 0));
    assert_eq!(advance(3, 2, 2, 0), (0, 0, 1));
    assert_eq!(advance(3, 2, 2, 2), (0, 0, 3));
    let l: Lattice<F> = Lattice::blank(3);
    assert_eq!(l.cells.len(), 27);
    assert_eq!(l.index(1, 2, 1), 16);
}

#[test]
fn vector_and_cell_arithmetic() {
    let a = v(1.0, 2.0, 3.0);
    let b = v(0.5, 0.25, 4.0);
    let s = a.plus(&b);
    assert_eq!((s.x.0, s.y.0, s.z.0), (1.5, 2.25, 7.0));
    let d = a.minus(&b);
    assert_eq!((d.x.0, d.y.0, d.z.0), (0.5, 1.75, -1.0));
    let m = a.scaled(F(2.0));
    assert_eq!((m.x.0, m.y.0, m.z.0), (2.0, 4.0, 6.0));
    let q = a.divided(F(2.0));
    assert_eq!((q.x.0, q.y.0, q.z.0), (0.5, 1.0, 1.5));
    let c = curl(&v(0.0, 1.0, 2.0), &v(3.0, 4.0, 5.0), &v(6.0, 7.0, 8.0));
    assert_eq!((c.x.0, c.y.0, c.z.0), (5.0 - 7.0, 6.0 - 2.0, 1.0 - 3.0));
    let p = Cell { e: a, b, source_index: 3 };
    let sum = p.plus(&p);
    assert_eq!((sum.e.x.0, sum.b.z.0, sum.source_index), (2.0, 8.0, 0));
    let diff = p.minus(&Cell::zero());
    assert_eq!((diff.e.y.0, diff.source_index), (2.0, 0));
}

#[test]
fn full_size_grid_frame() {
    let scene: Scene<F> = Scene::new(30);
    let mut out = Vec::new();
    let mut p = params(2, BoundaryCondition::Clip, 0.01, 30);
    p.spatial_decimation = 30;
    run(scene, p, &mut out);
    // Frame 0 holds every point; step 1 keeps only the far corner.
    assert_eq!(out.len(), 8 + 30 * (27000 + 1));
    assert_eq!(out[8 + 30 * 27000 - 1], 5);
    assert_eq!(out[8 + 30 * 27000 + 29], 5);
    assert_eq!(out[8 + 30 * 29 + 29], 3);
    assert_eq!(out[8 + 30 * 899 + 29], 4);
}
