//! What holds of matching as a whole.

use vstd::prelude::*;
use crate::arms::{arms_complete, arms_of};
use crate::detector::{assess_spec, check_poses_spec, pose_score, scores_of};
use crate::joint_pos::{joints_of, lemma_usable_joints};
use crate::joints::{code_of, is_arm_joint, Joint, Joint2DType, Position2D};
use crate::kernel::{distances_of, Kernel};
use crate::pose::{pose_at, pose_index, Pose, POSE_COUNT};
use crate::rules::{lemma_closest_is_least, lemma_furthest_is_maximum, Settings};

verus! {

/// Whether the thresholds `loose` let through whatever `tight` lets through:
/// each cutoff of `loose` is that of `tight` or a greater number.
pub open spec fn no_tighter(tight: Settings, loose: Settings) -> bool {
    &&& tight.joint_cutoff == loose.joint_cutoff || tight.joint_cutoff.le_spec(loose.joint_cutoff)
    &&& tight.rotation_cutoff == loose.rotation_cutoff || tight.rotation_cutoff.le_spec(
        loose.rotation_cutoff,
    )
}

/// A frame without any reading of some arm joint matches no pose, whatever
/// the thresholds, the library and the numeric routines.
pub proof fn lemma_missing_joint_matches_nothing(
    settings: Settings,
    library: Map<Pose, Map<Joint2DType, Position2D>>,
    frame: Seq<Joint>,
    missing: Joint2DType,
    kernel: Kernel,
)
    requires
        is_arm_joint(missing),
        forall|i: int| 0 <= i < frame.len() ==> (#[trigger] frame[i]).joint_type_code != code_of(
            missing,
        ),
    ensures
        !arms_complete(joints_of(frame)),
        forall|pose: Pose| pose_score(settings, library, joints_of(frame), kernel, pose) is None,
        check_poses_spec(settings, library, joints_of(frame), kernel) is None,
{
    let live = joints_of(frame);
    lemma_usable_joints(frame, missing);
    assert(!live.contains_key(missing)) by {
        if live.contains_key(missing) {
            let i = choose|i: int|
                0 <= i < frame.len() && (#[trigger] frame[i]).usable_as() == Some(missing);
            assert(frame[i].joint_type_code != code_of(missing));
        }
    }
    lemma_incomplete_matches_nothing(settings, library, live, kernel);
}

/// Joints that lack an arm joint match no pose.
pub proof fn lemma_incomplete_matches_nothing(
    settings: Settings,
    library: Map<Pose, Map<Joint2DType, Position2D>>,
    live: Map<Joint2DType, Position2D>,
    kernel: Kernel,
)
    requires
        !arms_complete(live),
    ensures
        forall|pose: Pose| pose_score(settings, library, live, kernel, pose) is None,
        check_poses_spec(settings, library, live, kernel) is None,
{
    lemma_best_match(settings, library, live, kernel);
}

/// The pose that is found has the least score of all poses that match, and
/// is declared before every other pose with that score; no pose is found
/// exactly when none matches.
pub proof fn lemma_best_match(
    settings: Settings,
    library: Map<Pose, Map<Joint2DType, Position2D>>,
    live: Map<Joint2DType, Position2D>,
    kernel: Kernel,
)
    ensures
        match check_poses_spec(settings, library, live, kernel) {
            Some(found) => pose_score(settings, library, live, kernel, found) matches Some(least)
                && forall|pose: Pose|
                (#[trigger] pose_score(settings, library, live, kernel, pose)) matches Some(score)
                    ==> least.le_spec(score) && (pose_index(pose) < pose_index(found)
                    ==> least.lt_spec(score)),
            None => forall|pose: Pose|
                (#[trigger] pose_score(settings, library, live, kernel, pose)) is None,
        },
{
    let scores = scores_of(settings, library, live, kernel);
    lemma_scores_are_numbers(settings, library, live, kernel);
    lemma_closest_is_least(scores);
    assert forall|pose: Pose|
        pose_at(pose_index(pose)) == pose && 0 <= pose_index(pose) < POSE_COUNT
            && #[trigger] pose_score(settings, library, live, kernel, pose) == scores[pose_index(
            pose,
        )] by {}
}

/// A score is never a NaN, and never above the distance cutoff.
pub proof fn lemma_scores_are_numbers(
    settings: Settings,
    library: Map<Pose, Map<Joint2DType, Position2D>>,
    live: Map<Joint2DType, Position2D>,
    kernel: Kernel,
)
    ensures
        forall|pose: Pose|
            (#[trigger] pose_score(settings, library, live, kernel, pose)) matches Some(score)
                ==> !score.nan() && score.le_spec(settings.joint_cutoff),
{
}

/// Raising a threshold can turn no match into a match and never a match into
/// none: a pose that matches under `tight` matches under `loose` with the
/// same score, and where some pose is found under `tight`, some pose is found
/// under `loose`.
pub proof fn lemma_thresholds_monotone(
    tight: Settings,
    loose: Settings,
    library: Map<Pose, Map<Joint2DType, Position2D>>,
    live: Map<Joint2DType, Position2D>,
    kernel: Kernel,
)
    requires
        no_tighter(tight, loose),
    ensures
        forall|pose: Pose|
            (#[trigger] pose_score(tight, library, live, kernel, pose)) is Some ==> pose_score(
                loose,
                library,
                live,
                kernel,
                pose,
            ) == pose_score(tight, library, live, kernel, pose),
        check_poses_spec(tight, library, live, kernel) is Some ==> check_poses_spec(
            loose,
            library,
            live,
            kernel,
        ) is Some,
{
    assert forall|pose: Pose|
        (#[trigger] pose_score(tight, library, live, kernel, pose)) is Some implies pose_score(
        loose,
        library,
        live,
        kernel,
        pose,
    ) == pose_score(tight, library, live, kernel, pose) by {
        let reference = library[pose];
        assert(assess_spec(tight, reference, live, kernel) is Some);
        assert(assess_spec(loose, reference, live, kernel) == assess_spec(
            tight,
            reference,
            live,
            kernel,
        ));
    }
    lemma_best_match(tight, library, live, kernel);
    lemma_best_match(loose, library, live, kernel);
    if check_poses_spec(tight, library, live, kernel) is Some {
        let found = check_poses_spec(tight, library, live, kernel)->0;
        assert(pose_score(tight, library, live, kernel, found) is Some);
        assert(pose_score(loose, library, live, kernel, found) is Some);
    }
}

/// What the matching of a skeleton to its own pose rests on: where the
/// fitting routine lays a pose onto the live joints without turning it, and
/// the measuring routine finds no pair of joints apart, the pose matches with
/// a score of zero under any thresholds that are not below zero, and the
/// pose that is found has a score that is no greater.
pub proof fn lemma_exact_fit_matches(
    settings: Settings,
    library: Map<Pose, Map<Joint2DType, Position2D>>,
    live: Map<Joint2DType, Position2D>,
    kernel: Kernel,
    pose: Pose,
)
    requires
        !settings.joint_cutoff.nan() && settings.joint_cutoff.rank() >= 0,
        !settings.rotation_cutoff.nan() && settings.rotation_cutoff.rank() >= 0,
        library.contains_key(pose),
        arms_complete(library[pose]),
        arms_complete(live),
        (kernel.align)(arms_of(library[pose]), arms_of(live)) matches Some(fit)
            && fit.rotation_angle.rank() == 0 && forall|i: int|
            0 <= i < 8 ==> (#[trigger] distances_of(kernel.distance, fit)[i]).rank() == 0,
    ensures
        pose_score(settings, library, live, kernel, pose) matches Some(score) && score.rank() == 0,
        check_poses_spec(settings, library, live, kernel) matches Some(found) && pose_score(
            settings,
            library,
            live,
            kernel,
            found,
        ) matches Some(least) && least.rank() <= 0,
{
    let fit = (kernel.align)(arms_of(library[pose]), arms_of(live))->0;
    let distances = distances_of(kernel.distance, fit);
    assert forall|i: int| 0 <= i < distances.len() implies !(#[trigger] distances[i]).nan() by {
        assert(distances[i].rank() == 0);
    }
    lemma_furthest_is_maximum(distances);
    lemma_best_match(settings, library, live, kernel);
}

/// What the indifference of matching to where a skeleton stands, and to how
/// large it is, rests on: two sets of live joints onto which the fitting
/// routine fits every pose of the library alike are taken for the same pose.
pub proof fn lemma_same_fits_same_result(
    settings: Settings,
    library: Map<Pose, Map<Joint2DType, Position2D>>,
    live: Map<Joint2DType, Position2D>,
    moved: Map<Joint2DType, Position2D>,
    kernel: Kernel,
)
    requires
        arms_complete(live) == arms_complete(moved),
        forall|pose: Pose| #[trigger]
            library.contains_key(pose) ==> (kernel.align)(arms_of(library[pose]), arms_of(live)) == (
            kernel.align)(arms_of(library[pose]), arms_of(moved)),
    ensures
        forall|pose: Pose|
            pose_score(settings, library, live, kernel, pose) == pose_score(
                settings,
                library,
                moved,
                kernel,
                pose,
            ),
        check_poses_spec(settings, library, live, kernel) == check_poses_spec(
            settings,
            library,
            moved,
            kernel,
        ),
{
    assert forall|pose: Pose|
        pose_score(settings, library, live, kernel, pose) == pose_score(
            settings,
            library,
            moved,
            kernel,
            pose,
        ) by {
        if library.contains_key(pose) {
            assert(assess_spec(settings, library[pose], live, kernel) == assess_spec(
                settings,
                library[pose],
                moved,
                kernel,
            ));
        }
    }
    assert(scores_of(settings, library, live, kernel) =~= scores_of(
        settings,
        library,
        moved,
        kernel,
    ));
}

} // verus!
