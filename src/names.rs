use vstd::prelude::*;
use crate::boundary::BoundaryCondition;
use crate::source::Axis;

verus! {

/// What `str::to_lowercase` makes of a sequence of characters.
pub uninterp spec fn lower_of(s: Seq<char>) -> Seq<char>;

/// Relies on `str::to_lowercase`: the lowercase form of the string, which
/// depends on the string alone.
#[verifier::external_body]
fn lowercase(s: &str) -> (r: String)
    ensures
        r@ == lower_of(s@),
{
    s.to_lowercase()
}

/// The boundary policy that a lowercase name denotes.
pub open spec fn boundary_named(s: Seq<char>) -> Option<BoundaryCondition> {
    if s == seq!['c', 'l', 'i', 'p'] {
        Some(BoundaryCondition::Clip)
    } else if s == seq!['f', 'i', 't'] {
        Some(BoundaryCondition::Fit)
    } else {
        None
    }
}

/// The axis that a name denotes.
pub open spec fn axis_named(s: Seq<char>) -> Option<Axis> {
    if s == seq!['x'] {
        Some(Axis::X)
    } else if s == seq!['y'] {
        Some(Axis::Y)
    } else if s == seq!['z'] {
        Some(Axis::Z)
    } else {
        None
    }
}

/// `s` holds exactly the characters of `word`.
fn spells(s: &str, word: &str) -> (r: bool)
    ensures
        r == (s@ == word@),
{
    let n = s.unicode_len();
    if n != word.unicode_len() {
        return false;
    }
    let mut k: usize = 0;
    while k < n
        invariant
            n == s@.len(),
            n == word@.len(),
            k <= n,
            forall|j: int| 0 <= j < k ==> s@[j] == word@[j],
        decreases n - k,
    {
        if s.get_char(k) != word.get_char(k) {
            return false;
        }
        k = k + 1;
    }
    assert(s@ =~= word@);
    true
}

/// The boundary policy named by an already lowercase name: `clip` or `fit`.
pub fn boundary_from_lowercase(name: &str) -> (r: Option<BoundaryCondition>)
    ensures
        r == boundary_named(name@),
{
    proof {
        reveal_strlit("clip");
        reveal_strlit("fit");
        assert("clip"@ =~= seq!['c', 'l', 'i', 'p']);
        assert("fit"@ =~= seq!['f', 'i', 't']);
    }
    if spells(name, "clip") {
        Some(BoundaryCondition::Clip)
    } else if spells(name, "fit") {
        Some(BoundaryCondition::Fit)
    } else {
        None
    }
}

/// The boundary policy named by `name`, in any letter case; `None` for a name
/// that is neither `clip` nor `fit`.
pub fn parse_boundary(name: &str) -> (r: Option<BoundaryCondition>)
    ensures
        r == boundary_named(lower_of(name@)),
{
    let lower = lowercase(name);
    boundary_from_lowercase(lower.as_str())
}

/// The axis named `x`, `y` or `z`; `None` for any other name.
pub fn parse_axis(name: &str) -> (r: Option<Axis>)
    ensures
        r == axis_named(name@),
{
    proof {
        reveal_strlit("x");
        reveal_strlit("y");
        reveal_strlit("z");
        assert("x"@ =~= seq!['x']);
        assert("y"@ =~= seq!['y']);
        assert("z"@ =~= seq!['z']);
    }
    if spells(name, "x") {
        Some(Axis::X)
    } else if spells(name, "y") {
        Some(Axis::Y)
    } else if spells(name, "z") {
        Some(Axis::Z)
    } else {
        None
    }
}

} // verus!
