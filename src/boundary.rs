use vstd::prelude::*;

verus! {

/// How a directional derivative is estimated at the outer faces of the grid.
#[derive(Clone, Copy, PartialEq, Eq, Structural, Debug)]
pub enum BoundaryCondition {
    /// The field outside the domain is taken to be identically zero.
    Clip,
    /// The boundary is the true edge of the field: one-sided differences.
    Fit,
}

/// The finite difference used for the derivative at one position along an axis.
/// Positions are indices along that axis; the derivative is the given
/// combination of samples times the grid density.
#[derive(Clone, Copy, PartialEq, Eq, Structural, Debug)]
pub enum Difference {
    /// `0.5 * value(hi)`: the backward neighbour is read as zero.
    Forward { hi: usize },
    /// `-0.5 * value(lo)`: the forward neighbour is read as zero.
    Backward { lo: usize },
    /// `value(hi) - value(lo)`, the one-sided difference.
    OneSided { hi: usize, lo: usize },
    /// `0.5 * (value(hi) - value(lo))`, the centred difference.
    Centered { hi: usize, lo: usize },
}

/// The difference that a policy prescribes at position `i` of an axis of `n` points.
pub open spec fn difference_of(bc: BoundaryCondition, i: int, n: int) -> Difference {
    if i == 0 {
        match bc {
            BoundaryCondition::Clip => Difference::Forward { hi: 1 },
            BoundaryCondition::Fit => Difference::OneSided { hi: 1, lo: 0 },
        }
    } else if i == n - 1 {
        match bc {
            BoundaryCondition::Clip => Difference::Backward { lo: (n - 2) as usize },
            BoundaryCondition::Fit => Difference::OneSided { hi: (n - 1) as usize, lo: (n - 2) as usize },
        }
    } else {
        Difference::Centered { hi: (i + 1) as usize, lo: (i - 1) as usize }
    }
}

/// Twice the value of a difference, per unit of density, over integer samples
/// `v`: an exact model of the arithmetic, in which the policies' formulas can be
/// compared without rounding.
pub open spec fn twice_value(d: Difference, v: Seq<int>) -> int {
    match d {
        Difference::Forward { hi } => v[hi as int],
        Difference::Backward { lo } => -v[lo as int],
        Difference::OneSided { hi, lo } => 2 * (v[hi as int] - v[lo as int]),
        Difference::Centered { hi, lo } => v[hi as int] - v[lo as int],
    }
}

/// Twice the derivative, per unit of density, at position `i` of integer
/// samples `v`, as each policy defines it (the exact model of the policies).
pub open spec fn twice_derivative(bc: BoundaryCondition, v: Seq<int>, i: int) -> int {
    let n = v.len() as int;
    if i == 0 {
        match bc {
            BoundaryCondition::Clip => v[1],
            BoundaryCondition::Fit => 2 * (v[1] - v[0]),
        }
    } else if i == n - 1 {
        match bc {
            BoundaryCondition::Clip => -v[n - 2],
            BoundaryCondition::Fit => 2 * (v[n - 1] - v[n - 2]),
        }
    } else {
        v[i + 1] - v[i - 1]
    }
}

/// Every position that a difference reads lies on the axis.
pub open spec fn reads_within(d: Difference, n: int) -> bool {
    match d {
        Difference::Forward { hi } => hi < n,
        Difference::Backward { lo } => lo < n,
        Difference::OneSided { hi, lo } => hi < n && lo < n,
        Difference::Centered { hi, lo } => hi < n && lo < n,
    }
}

/// The difference for position `i` on an axis of `n` points.
pub fn difference(bc: BoundaryCondition, i: usize, n: usize) -> (r: Difference)
    requires
        2 <= n,
        i < n,
    ensures
        r == difference_of(bc, i as int, n as int),
        reads_within(r, n as int),
{
    if i == 0 {
        match bc {
            BoundaryCondition::Clip => Difference::Forward { hi: 1 },
            BoundaryCondition::Fit => Difference::OneSided { hi: 1, lo: 0 },
        }
    } else if i == n - 1 {
        match bc {
            BoundaryCondition::Clip => Difference::Backward { lo: n - 2 },
            BoundaryCondition::Fit => Difference::OneSided { hi: n - 1, lo: n - 2 },
        }
    } else {
        Difference::Centered { hi: i + 1, lo: i - 1 }
    }
}

/// In the exact model, the prescribed difference computes the policy's derivative.
pub proof fn difference_computes_derivative(bc: BoundaryCondition, v: Seq<int>, i: int)
    requires
        2 <= v.len() <= usize::MAX,
        0 <= i < v.len(),
    ensures
        twice_value(difference_of(bc, i, v.len() as int), v) == twice_derivative(bc, v, i),
{
}

/// Away from the faces the two boundary policies prescribe the same difference,
/// and so, in the exact model, give the same derivative for every field.
pub proof fn interior_policies_agree(v: Seq<int>, i: int)
    requires
        0 < i < v.len() - 1,
    ensures
        difference_of(BoundaryCondition::Clip, i, v.len() as int)
            == difference_of(BoundaryCondition::Fit, i, v.len() as int),
        twice_derivative(BoundaryCondition::Clip, v, i) == twice_derivative(BoundaryCondition::Fit, v, i),
{
}

/// In the exact model, a field that is zero everywhere has zero derivative
/// everywhere, under both policies.
pub proof fn zero_field_has_zero_derivative(bc: BoundaryCondition, v: Seq<int>, i: int)
    requires
        2 <= v.len(),
        0 <= i < v.len(),
        forall|k: int| 0 <= k < v.len() ==> v[k] == 0,
    ensures
        twice_derivative(bc, v, i) == 0,
{
}

} // verus!
