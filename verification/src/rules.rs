//! The rules by which one alignment is accepted or rejected.

use vstd::prelude::*;
use crate::arms::Arms;
use crate::kernel::Alignment;
use crate::scalar::Scalar;

verus! {

/// The two thresholds of matching. Both are meant to be positive numbers; a
/// threshold that is a NaN lets nothing through.
#[derive(Clone, Copy, Debug, PartialEq, Eq, Structural)]
pub struct Settings {
    /// The largest distance that the worst-fitting joint may have.
    pub joint_cutoff: Scalar,
    /// The largest angle, either way, by which the body may be turned.
    pub rotation_cutoff: Scalar,
}

/// What is known of a pose whose rotation was accepted: the angle, both sets
/// of joints as they were compared, and the distance of the worst-fitting
/// pair of joints.
#[derive(Clone, Copy, Debug, PartialEq, Eq, Structural)]
pub struct Report {
    pub rotation: Scalar,
    pub skeleton: Arms,
    pub pose: Arms,
    pub max_dist: Scalar,
}

/// The rotation test: the absolute value of the angle is at most the cutoff.
pub open spec fn rotation_within(settings: Settings, angle: Scalar) -> bool {
    angle.abs_spec().le_spec(settings.rotation_cutoff)
}

/// The greatest of a list of distances, read from first to last: a distance
/// replaces the greatest so far unless it is less than it. Where no distance
/// is a NaN this is their maximum, and of equal ones the last. A NaN is less
/// than nothing and nothing is less than it: it replaces what came before
/// and is replaced by what comes after.
pub open spec fn furthest_of(distances: Seq<Scalar>) -> Option<Scalar>
    decreases distances.len(),
{
    if distances.len() == 0 {
        None
    } else {
        match furthest_of(distances.drop_last()) {
            Some(greatest) => if distances.last().lt_spec(greatest) {
                Some(greatest)
            } else {
                Some(distances.last())
            },
            None => Some(distances.last()),
        }
    }
}

/// The report on an accepted alignment whose pairs of joints lie `distances`
/// apart.
pub open spec fn report_of(fit: Alignment, distances: Seq<Scalar>) -> Report {
    Report {
        rotation: fit.rotation_angle,
        skeleton: fit.aligned_live,
        pose: fit.aligned_reference,
        max_dist: furthest_of(distances)->0,
    }
}

/// The distance test: a pose matches when its worst-fitting joint is no
/// further off than the cutoff, and its score is then that distance.
pub open spec fn score_of(settings: Settings, report: Report) -> Option<Scalar> {
    if report.max_dist.le_spec(settings.joint_cutoff) {
        Some(report.max_dist)
    } else {
        None
    }
}

/// The place of the least of a list of scores, read from first to last: a
/// score replaces the least so far only if it is less than it, so of equal
/// scores the first keeps its place. A place without a score is passed over.
pub open spec fn closest_among(scores: Seq<Option<Scalar>>) -> Option<int>
    decreases scores.len(),
{
    if scores.len() == 0 {
        None
    } else {
        let earlier = closest_among(scores.drop_last());
        match scores.last() {
            Some(score) => match earlier {
                Some(best) => if score.lt_spec(scores[best]->0) {
                    Some(scores.len() - 1)
                } else {
                    earlier
                },
                None => Some(scores.len() - 1),
            },
            None => earlier,
        }
    }
}

impl Settings {
    /// Whether both thresholds are positive numbers.
    pub open spec fn valid(self) -> bool {
        self.joint_cutoff.positive() && self.rotation_cutoff.positive()
    }

    /// Whether both thresholds are positive numbers. Matching does not ask
    /// for it: a threshold that is a NaN or below zero lets nothing through.
    pub fn is_valid(&self) -> (r: bool)
        ensures
            r == self.valid(),
    {
        self.joint_cutoff.is_positive() && self.rotation_cutoff.is_positive()
    }
}

/// Whether the rotation of an alignment is tolerated.
pub fn rotation_accepted(settings: &Settings, angle: Scalar) -> (r: bool)
    ensures
        r == rotation_within(*settings, angle),
{
    angle.abs().le(settings.rotation_cutoff)
}

/// The greatest of a list of distances; `None` for the empty list.
pub fn furthest(distances: &Vec<Scalar>) -> (r: Option<Scalar>)
    ensures
        r == furthest_of(distances@),
        r is Some <==> distances@.len() > 0,
{
    let mut greatest: Option<Scalar> = None;
    let mut i: usize = 0;
    while i < distances.len()
        invariant
            i <= distances.len(),
            greatest == furthest_of(distances@.take(i as int)),
            greatest is Some <==> i > 0,
        decreases distances.len() - i,
    {
        let d = distances[i];
        assert(distances@.take(i + 1).drop_last() =~= distances@.take(i as int));
        greatest = match greatest {
            Some(g) => if d.lt(g) {
                Some(g)
            } else {
                Some(d)
            },
            None => Some(d),
        };
        i += 1;
    }
    assert(distances@.take(i as int) =~= distances@);
    greatest
}

/// The place of the least of a list of scores; `None` where no place has one.
pub fn closest(scores: &Vec<Option<Scalar>>) -> (r: Option<usize>)
    ensures
        match r {
            Some(place) => closest_among(scores@) == Some(place as int),
            None => closest_among(scores@) is None,
        },
        r matches Some(place) ==> place < scores@.len() && scores@[place as int] is Some,
{
    let mut best: Option<(usize, Scalar)> = None;
    let mut i: usize = 0;
    while i < scores.len()
        invariant
            i <= scores.len(),
            match best {
                Some((place, least)) => closest_among(scores@.take(i as int)) == Some(place as int)
                    && place < i && scores@[place as int] == Some(least),
                None => closest_among(scores@.take(i as int)) is None,
            },
        decreases scores.len() - i,
    {
        assert(scores@.take(i + 1).drop_last() =~= scores@.take(i as int));
        match scores[i] {
            Some(score) => {
                match best {
                    Some((_, least)) => {
                        if score.lt(least) {
                            best = Some((i, score));
                        }
                    },
                    None => {
                        best = Some((i, score));
                    },
                }
            },
            None => {},
        }
        i += 1;
    }
    assert(scores@.take(i as int) =~= scores@);
    match best {
        Some((place, _)) => Some(place),
        None => None,
    }
}

impl Report {
    /// Puts together the report on an accepted alignment whose pairs of
    /// joints lie `distances` apart; `None` where there is no distance.
    pub fn new(fit: &Alignment, distances: &Vec<Scalar>) -> (r: Option<Report>)
        ensures
            r is Some <==> distances@.len() > 0,
            r matches Some(report) ==> report == report_of(*fit, distances@),
    {
        match furthest(distances) {
            Some(max_dist) => Some(
                Report {
                    rotation: fit.rotation_angle,
                    skeleton: fit.aligned_live,
                    pose: fit.aligned_reference,
                    max_dist,
                },
            ),
            None => None,
        }
    }

    /// The score of the pose, if it passes the distance test.
    pub fn score(&self, settings: &Settings) -> (r: Option<Scalar>)
        ensures
            r == score_of(*settings, *self),
    {
        if self.max_dist.le(settings.joint_cutoff) {
            Some(self.max_dist)
        } else {
            None
        }
    }
}

/// Among distances of which none is a NaN, the furthest is one of them and
/// none of them is greater.
pub proof fn lemma_furthest_is_maximum(distances: Seq<Scalar>)
    requires
        distances.len() > 0,
        forall|i: int| 0 <= i < distances.len() ==> !distances[i].nan(),
    ensures
        furthest_of(distances) is Some,
        exists|i: int| 0 <= i < distances.len() && distances[i] == furthest_of(distances)->0,
        forall|i: int|
            0 <= i < distances.len() ==> (#[trigger] distances[i]).le_spec(
                furthest_of(distances)->0,
            ),
    decreases distances.len(),
{
    let earlier = distances.drop_last();
    let last = distances.len() - 1;
    if earlier.len() == 0 {
        assert(furthest_of(earlier) is None);
        assert(distances[last] == furthest_of(distances)->0);
    } else {
        lemma_furthest_is_maximum(earlier);
        let greatest = furthest_of(earlier)->0;
        let k = choose|i: int| 0 <= i < earlier.len() && earlier[i] == greatest;
        assert(distances[k] == greatest);
        if distances[last].lt_spec(greatest) {
            assert(distances[k] == furthest_of(distances)->0);
        } else {
            assert(distances[last] == furthest_of(distances)->0);
        }
        assert forall|i: int| 0 <= i < distances.len() implies (#[trigger] distances[i]).le_spec(
            furthest_of(distances)->0,
        ) by {
            if i < last {
                assert(earlier[i] == distances[i]);
                assert(earlier[i].le_spec(greatest));
            }
        }
    }
}

/// Among scores of which none is a NaN, the closest is the least, and the
/// first of those that are least; there is none exactly where no place has
/// a score.
pub proof fn lemma_closest_is_least(scores: Seq<Option<Scalar>>)
    requires
        forall|i: int| 0 <= i < scores.len() && scores[i] is Some ==> !(#[trigger] scores[i])->0.nan(),
    ensures
        match closest_among(scores) {
            Some(best) => {
                &&& 0 <= best < scores.len()
                &&& scores[best] is Some
                &&& forall|i: int|
                    0 <= i < scores.len() && (#[trigger] scores[i]) is Some ==> scores[best]->0.le_spec(
                        scores[i]->0,
                    ) && (i < best ==> scores[best]->0.lt_spec(scores[i]->0))
            },
            None => forall|i: int| 0 <= i < scores.len() ==> (#[trigger] scores[i]) is None,
        },
    decreases scores.len(),
{
    if scores.len() > 0 {
        let earlier = scores.drop_last();
        lemma_closest_is_least(earlier);
        assert forall|i: int| 0 <= i < earlier.len() implies earlier[i] == scores[i] by {}
    }
}

} // verus!
