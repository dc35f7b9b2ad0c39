//! The numeric routines that matching relies on but does not contain.
//!
//! Fitting one set of arm joints onto another, and measuring how far two
//! points lie apart, is arithmetic on single-precision numbers. A caller
//! supplies both routines; matching decides what to hand them and what
//! follows from their answers.

use vstd::prelude::*;
use crate::arms::{Arms, ARM_JOINTS};
use crate::joints::Position2D;
use crate::scalar::{Scalar, MINUS_ONE_BITS, ONE_BITS};

verus! {

/// The outcome of fitting reference arms onto live arms by a uniform scale
/// and a rotation: the angle of the rotation, and both sets of joints in the
/// frame in which they are compared. The live joints are only centred; the
/// reference joints are scaled, centred and rotated.
#[derive(Clone, Copy, Debug, PartialEq, Eq, Structural)]
pub struct Alignment {
    pub rotation_angle: Scalar,
    pub aligned_live: Arms,
    pub aligned_reference: Arms,
}

/// Whether a scale can be taken from the lengths of the arm chains of the
/// live and the reference joints: both are numbers above zero. Where all
/// joints of a skeleton coincide there is none, and no fit.
pub open spec fn scale_exists(total_live: Scalar, total_reference: Scalar) -> bool {
    total_live.positive() && total_reference.positive()
}

/// The factor that keeps a fitted map a rotation where the decomposition
/// alone would give a reflection: one for a determinant above zero, minus
/// one for any other.
pub open spec fn guard_of(determinant: Scalar) -> Scalar {
    if determinant.positive() {
        Scalar { bits: ONE_BITS }
    } else {
        Scalar { bits: MINUS_ONE_BITS }
    }
}

/// Whether a fit can go on with these two chain lengths.
pub fn chains_measurable(total_live: Scalar, total_reference: Scalar) -> (r: bool)
    ensures
        r == scale_exists(total_live, total_reference),
{
    total_live.is_positive() && total_reference.is_positive()
}

/// The factor for the second axis of a fitted map, by the determinant of the
/// map without it.
pub fn reflection_guard(determinant: Scalar) -> (r: Scalar)
    ensures
        r == guard_of(determinant),
{
    if determinant.is_positive() {
        Scalar::one()
    } else {
        Scalar::minus_one()
    }
}

/// The two routines as mathematical functions: what fitting `reference` onto
/// `live` gives, `None` where no fit exists, and the distance of two points.
pub struct Kernel {
    pub align: spec_fn(Arms, Arms) -> Option<Alignment>,
    pub distance: spec_fn(Position2D, Position2D) -> Scalar,
}

/// Whether a fitting routine can be called on every pair of arms.
pub open spec fn can_align<A: Fn(Arms, Arms) -> Option<Alignment>>(align: A) -> bool {
    forall|reference: Arms, live: Arms| call_requires(align, (reference, live))
}

/// Whether a measuring routine can be called on every pair of points.
pub open spec fn can_measure<D: Fn(Position2D, Position2D) -> Scalar>(distance: D) -> bool {
    forall|p: Position2D, q: Position2D| call_requires(distance, (p, q))
}

/// Whether whatever a fitting routine returns is the value of `f`.
pub open spec fn aligns_as<A: Fn(Arms, Arms) -> Option<Alignment>>(
    align: A,
    f: spec_fn(Arms, Arms) -> Option<Alignment>,
) -> bool {
    forall|reference: Arms, live: Arms, fit: Option<Alignment>|
        call_ensures(align, (reference, live), fit) ==> fit == f(reference, live)
}

/// Whether whatever a measuring routine returns is the value of `g`.
pub open spec fn measures_as<D: Fn(Position2D, Position2D) -> Scalar>(
    distance: D,
    g: spec_fn(Position2D, Position2D) -> Scalar,
) -> bool {
    forall|p: Position2D, q: Position2D, d: Scalar|
        call_ensures(distance, (p, q), d) ==> d == g(p, q)
}

/// Whether two routines compute the functions of `kernel`.
pub open spec fn computes<
    A: Fn(Arms, Arms) -> Option<Alignment>,
    D: Fn(Position2D, Position2D) -> Scalar,
>(align: A, distance: D, kernel: Kernel) -> bool {
    aligns_as(align, kernel.align) && measures_as(distance, kernel.distance)
}

/// The distances of the eight pairs of joints of an alignment, each from the
/// reference joint to the live joint, in the fixed order.
pub open spec fn distances_of(
    g: spec_fn(Position2D, Position2D) -> Scalar,
    fit: Alignment,
) -> Seq<Scalar> {
    Seq::new(
        ARM_JOINTS as nat,
        |i: int| g(fit.aligned_reference.points()[i], fit.aligned_live.points()[i]),
    )
}

/// Whether `distances` are what a measuring routine gave for the eight pairs
/// of joints of an alignment.
pub open spec fn measured_by<D: Fn(Position2D, Position2D) -> Scalar>(
    distance: D,
    fit: Alignment,
    distances: Seq<Scalar>,
) -> bool {
    &&& distances.len() == ARM_JOINTS
    &&& forall|i: int|
        0 <= i < ARM_JOINTS ==> call_ensures(
            distance,
            (fit.aligned_reference.points()[i], fit.aligned_live.points()[i]),
            #[trigger] distances[i],
        )
}

/// Measures the eight pairs of joints of an alignment.
pub fn pair_distances<D: Fn(Position2D, Position2D) -> Scalar>(
    fit: &Alignment,
    distance: &D,
) -> (r: Vec<Scalar>)
    requires
        can_measure(*distance),
    ensures
        measured_by(*distance, *fit, r@),
        forall|g: spec_fn(Position2D, Position2D) -> Scalar| #[trigger]
            measures_as(*distance, g) ==> r@ == distances_of(g, *fit),
{
    let from = fit.aligned_reference.to_vec();
    let to = fit.aligned_live.to_vec();
    let mut r: Vec<Scalar> = Vec::new();
    let mut i: usize = 0;
    while i < ARM_JOINTS
        invariant
            i <= ARM_JOINTS,
            can_measure(*distance),
            from@ == fit.aligned_reference.points(),
            to@ == fit.aligned_live.points(),
            r@.len() == i,
            forall|j: int|
                0 <= j < i ==> call_ensures(
                    *distance,
                    (fit.aligned_reference.points()[j], fit.aligned_live.points()[j]),
                    #[trigger] r@[j],
                ),
        decreases ARM_JOINTS - i,
    {
        let d = distance(from[i], to[i]);
        r.push(d);
        i += 1;
    }
    assert forall|g: spec_fn(Position2D, Position2D) -> Scalar| #[trigger]
        measures_as(*distance, g) implies r@ == distances_of(g, *fit) by {
        assert(r@ =~= distances_of(g, *fit));
    }
    r
}

} // verus!
