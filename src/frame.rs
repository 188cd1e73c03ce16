use vstd::prelude::*;
use crate::scalar::Scalar;
use crate::lattice::{Cell, Lattice, cube, x_of, y_of, z_of, flat_index, lemma_flat_index_bounds, advance};
use crate::encoder::{RECORD_LEN, marker_of, record_bytes, record_shape, push_record, lemma_record_shape, marker};

verus! {

/// Point `i` of a cube of side `n` passes the spatial-decimation predicate:
/// each of `x + 1`, `y + 1`, `z + 1` is a multiple of `decimation`.
pub open spec fn kept(n: int, decimation: int, i: int) -> bool {
    &&& (x_of(n, i) + 1) % decimation == 0
    &&& (y_of(n, i) + 1) % decimation == 0
    &&& (z_of(n, i) + 1) % decimation == 0
}

/// The markers of the records written for the first `count` points, in
/// row-major order, keeping only the points that pass the predicate.
pub open spec fn kept_markers(n: int, decimation: int, count: int) -> Seq<u8>
    decreases count,
{
    if count <= 0 {
        seq![]
    } else {
        let i = count - 1;
        let rest = kept_markers(n, decimation, i);
        if kept(n, decimation, i) {
            rest.push(marker_of(n, x_of(n, i), y_of(n, i), z_of(n, i)))
        } else {
            rest
        }
    }
}

/// `s` is a run of records whose markers are `markers`, in order.
pub open spec fn records_with_markers(s: Seq<u8>, markers: Seq<u8>) -> bool {
    &&& s.len() == RECORD_LEN * markers.len()
    &&& forall|j: int| 0 <= j < markers.len() ==>
        #[trigger] record_shape(s.subrange(RECORD_LEN * j, RECORD_LEN * j + RECORD_LEN), markers[j])
}

/// The record of one cell: the bit patterns of its `E` and `B`, then `marker`.
pub open spec fn cell_record<T: Scalar>(c: Cell<T>, marker: u8) -> Seq<u8> {
    record_bytes(
        (c.e.x.spec_bits(), c.e.y.spec_bits(), c.e.z.spec_bits()),
        (c.b.x.spec_bits(), c.b.y.spec_bits(), c.b.z.spec_bits()),
        marker,
    )
}

/// The bytes written for the first `count` points of `cells`, a cube of side
/// `n`, in row-major order: the record of each point that passes the
/// spatial-decimation predicate, closed by its positional marker.
pub open spec fn kept_records<T: Scalar>(cells: Seq<Cell<T>>, n: int, decimation: int, count: int) -> Seq<u8>
    decreases count,
{
    if count <= 0 {
        seq![]
    } else {
        let i = count - 1;
        let rest = kept_records(cells, n, decimation, i);
        if kept(n, decimation, i) {
            rest + cell_record(cells[i], marker_of(n, x_of(n, i), y_of(n, i), z_of(n, i)))
        } else {
            rest
        }
    }
}

/// Two runs of records, one after the other, are a run of records.
pub proof fn lemma_records_concat(a: Seq<u8>, ma: Seq<u8>, b: Seq<u8>, mb: Seq<u8>)
    requires
        records_with_markers(a, ma),
        records_with_markers(b, mb),
    ensures
        records_with_markers(a + b, ma + mb),
{
    let s = a + b;
    let m = ma + mb;
    assert forall|j: int| 0 <= j < m.len() implies #[trigger] record_shape(s.subrange(RECORD_LEN * j, RECORD_LEN * j + RECORD_LEN), m[j]) by {
        if j < ma.len() {
            assert(s.subrange(RECORD_LEN * j, RECORD_LEN * j + RECORD_LEN) =~= a.subrange(RECORD_LEN * j, RECORD_LEN * j + RECORD_LEN));
        } else {
            let k = j - ma.len();
            assert(record_shape(b.subrange(RECORD_LEN * k, RECORD_LEN * k + RECORD_LEN), mb[k]));
            assert(s.subrange(RECORD_LEN * j, RECORD_LEN * j + RECORD_LEN) =~= b.subrange(RECORD_LEN * k, RECORD_LEN * k + RECORD_LEN));
        }
    }
}

/// The bytes of a frame are a run of records whose markers are those of the
/// points kept.
pub proof fn lemma_kept_records_markers<T: Scalar>(cells: Seq<Cell<T>>, n: int, decimation: int, count: int)
    ensures
        records_with_markers(kept_records(cells, n, decimation, count), kept_markers(n, decimation, count)),
    decreases count,
{
    if count <= 0 {
        assert(records_with_markers(seq![], seq![]));
    } else {
        let i = count - 1;
        lemma_kept_records_markers(cells, n, decimation, i);
        if kept(n, decimation, i) {
            let m = marker_of(n, x_of(n, i), y_of(n, i), z_of(n, i));
            let c = cells[i];
            let rec = cell_record(c, m);
            lemma_record_shape(
                (c.e.x.spec_bits(), c.e.y.spec_bits(), c.e.z.spec_bits()),
                (c.b.x.spec_bits(), c.b.y.spec_bits(), c.b.z.spec_bits()),
                m,
            );
            assert(records_with_markers(rec, seq![m])) by {
                assert(rec.subrange(0, RECORD_LEN as int) =~= rec);
            }
            lemma_records_concat(kept_records(cells, n, decimation, i), kept_markers(n, decimation, i), rec, seq![m]);
            assert(kept_markers(n, decimation, i).push(m) =~= kept_markers(n, decimation, i) + seq![m]);
        }
    }
}

/// The markers of the first `count` points, in row-major order.
pub open spec fn point_markers(n: int, count: int) -> Seq<u8> {
    Seq::new(count as nat, |i: int| marker_of(n, x_of(n, i), y_of(n, i), z_of(n, i)))
}

/// With no decimation every point is kept: a frame holds one record per point.
pub proof fn lemma_undecimated_markers(n: int, count: int)
    requires
        0 <= count,
    ensures
        kept_markers(n, 1, count) == point_markers(n, count),
    decreases count,
{
    if count > 0 {
        lemma_undecimated_markers(n, count - 1);
        assert(point_markers(n, count) =~= point_markers(n, count - 1).push(
            marker_of(n, x_of(n, count - 1), y_of(n, count - 1), z_of(n, count - 1)),
        ));
    } else {
        assert(point_markers(n, count) =~= seq![]);
    }
}

/// Appends, in row-major order, the record of every point of `lattice` that
/// passes the spatial-decimation predicate, each closed by its positional marker.
pub fn write_records<T: Scalar>(lattice: &Lattice<T>, decimation: usize, out: &mut Vec<u8>)
    requires
        lattice.wf(),
        1 <= decimation,
    ensures
        final(out)@ == old(out)@ + kept_records(lattice.cells@, lattice.side as int, decimation as int, cube(lattice.side as int)),
{
    let ghost start = out@;
    let n = lattice.side;
    let total = lattice.cells.len();
    let mut i: usize = 0;
    let mut x: usize = 0;
    let mut y: usize = 0;
    let mut z: usize = 0;
    assert(out@ =~= start + kept_records(lattice.cells@, n as int, decimation as int, 0));
    while i < total
        invariant
            lattice.wf(),
            n == lattice.side,
            1 <= decimation,
            total == lattice.cells@.len(),
            total == cube(n as int),
            x < n,
            y < n,
            z <= n,
            i == flat_index(n as int, x as int, y as int, z as int),
            i <= total,
            i < total ==> z < n,
            out@ == start + kept_records(lattice.cells@, n as int, decimation as int, i as int),
        decreases total - i,
    {
        proof {
            lemma_flat_index_bounds(n as int, x as int, y as int, z as int);
        }
        if (x + 1) % decimation == 0 && (y + 1) % decimation == 0 && (z + 1) % decimation == 0 {
            let c = lattice.cells[i];
            let m = marker(n, x, y, z);
            let e = (c.e.x.to_bits(), c.e.y.to_bits(), c.e.z.to_bits());
            let b = (c.b.x.to_bits(), c.b.y.to_bits(), c.b.z.to_bits());
            push_record(out, e, b, m);
            assert(out@ =~= start + kept_records(lattice.cells@, n as int, decimation as int, i as int + 1));
        }
        let next = advance(n, x, y, z);
        x = next.0;
        y = next.1;
        z = next.2;
        i = i + 1;
        proof {
            if i < total {
                if z >= n {
                    assert(flat_index(n as int, x as int, y as int, z as int) >= cube(n as int)) by (nonlinear_arith)
                        requires z >= n, x >= 0, y >= 0, n >= 0;
                }
            }
        }
    }
}

} // verus!

verus! {

/// An undecimated frame of a 2×2×2 grid is eight records whose markers are
/// continue, end-of-row, continue, end-of-plane, continue, end-of-row,
/// continue, end-of-volume.
pub proof fn two_cube_frame_markers<T: Scalar>(cells: Seq<Cell<T>>)
    ensures
        records_with_markers(kept_records(cells, 2, 1, cube(2)), seq![2u8, 3, 2, 4, 2, 3, 2, 5]),
        point_markers(2, cube(2)) == seq![2u8, 3, 2, 4, 2, 3, 2, 5],
        kept_markers(2, 1, cube(2)) == seq![2u8, 3, 2, 4, 2, 3, 2, 5],
{
    let expected = seq![2u8, 3, 2, 4, 2, 3, 2, 5];
    assert forall|i: int| 0 <= i < 8 implies marker_of(2, x_of(2, i), y_of(2, i), z_of(2, i)) == #[trigger] expected[i] by {
        assert(x_of(2, i) == i % 2);
        assert(y_of(2, i) == (i / 2) % 2);
        assert(z_of(2, i) == i / 4);
    }
    assert(point_markers(2, 8) =~= expected);
    lemma_undecimated_markers(2, 8);
    lemma_kept_records_markers(cells, 2, 1, 8);
}

} // verus!
