//! The matcher: a skeleton frame against every pose of a library, or against
//! one pose with a record of what was compared.

use vstd::prelude::*;
use crate::arms::{arms, arms_complete, arms_of, Arms};
use crate::joint_pos::{joints_map, joints_of, JointPos};
use crate::joints::{Joint, Joint2DType, Position2D};
use crate::kernel::{
    can_align, can_measure, computes, distances_of, measured_by, pair_distances, Alignment, Kernel,
};
use crate::pose::{pose_at, Pose, PoseData, POSE_COUNT};
use crate::rules::{
    closest, closest_among, report_of, rotation_accepted, rotation_within, score_of, Report,
    Settings,
};
use crate::scalar::Scalar;

verus! {

/// What is known of `reference` against `live`, once its rotation is accepted.
///
/// There is no report where either side lacks an arm joint, where no fit
/// exists, or where the body is turned further than the cutoff allows.
pub open spec fn assess_spec(
    settings: Settings,
    reference: Map<Joint2DType, Position2D>,
    live: Map<Joint2DType, Position2D>,
    kernel: Kernel,
) -> Option<Report> {
    if arms_complete(reference) && arms_complete(live) {
        match (kernel.align)(arms_of(reference), arms_of(live)) {
            Some(fit) => if rotation_within(settings, fit.rotation_angle) {
                Some(report_of(fit, distances_of(kernel.distance, fit)))
            } else {
                None
            },
            None => None,
        }
    } else {
        None
    }
}

/// The report on the pose `name` of a library against `live`.
pub open spec fn detect_pose_spec(
    settings: Settings,
    library: Map<Pose, Map<Joint2DType, Position2D>>,
    name: Pose,
    live: Map<Joint2DType, Position2D>,
    kernel: Kernel,
) -> Option<Report> {
    if library.contains_key(name) {
        assess_spec(settings, library[name], live, kernel)
    } else {
        None
    }
}

/// The score of `reference` against `live`: the distance of the worst-fitting
/// joint, if the pose passes both the rotation test and the distance test.
pub open spec fn check_pose_spec(
    settings: Settings,
    reference: Map<Joint2DType, Position2D>,
    live: Map<Joint2DType, Position2D>,
    kernel: Kernel,
) -> Option<Scalar> {
    match assess_spec(settings, reference, live, kernel) {
        Some(report) => score_of(settings, report),
        None => None,
    }
}

/// The score of a pose of the library; `None` also for a pose that the
/// library does not know.
pub open spec fn pose_score(
    settings: Settings,
    library: Map<Pose, Map<Joint2DType, Position2D>>,
    live: Map<Joint2DType, Position2D>,
    kernel: Kernel,
    pose: Pose,
) -> Option<Scalar> {
    if library.contains_key(pose) {
        check_pose_spec(settings, library[pose], live, kernel)
    } else {
        None
    }
}

/// The scores of all poses, in the order of their declaration.
pub open spec fn scores_of(
    settings: Settings,
    library: Map<Pose, Map<Joint2DType, Position2D>>,
    live: Map<Joint2DType, Position2D>,
    kernel: Kernel,
) -> Seq<Option<Scalar>> {
    Seq::new(POSE_COUNT as nat, |i: int| pose_score(settings, library, live, kernel, pose_at(i)))
}

/// The pose that `live` is taken for: of the poses of the library that match,
/// the one with the least score, and of several with the least score the one
/// declared first.
pub open spec fn check_poses_spec(
    settings: Settings,
    library: Map<Pose, Map<Joint2DType, Position2D>>,
    live: Map<Joint2DType, Position2D>,
    kernel: Kernel,
) -> Option<Pose> {
    match closest_among(scores_of(settings, library, live, kernel)) {
        Some(place) => Some(pose_at(place)),
        None => None,
    }
}

/// What was compared when a pose was last reported on. Nothing is kept of
/// earlier reports.
#[derive(Clone, Copy, Debug, PartialEq, Eq, Structural)]
pub struct Lasts {
    /// Whether reports are recorded at all.
    pub capture: bool,
    /// The live joints, centred.
    pub skeleton: Option<Arms>,
    /// The reference joints, scaled, centred and rotated.
    pub pose: Option<Arms>,
    /// The distance of the worst-fitting joint.
    pub max_dist: Option<Scalar>,
    /// The angle of the rotation.
    pub rotations: Option<Scalar>,
}

impl Lasts {
    /// The record after a trial: a report replaces what was recorded, where
    /// recording is on; a trial without a report leaves the record as it was.
    pub open spec fn recorded(self, report: Option<Report>) -> Lasts {
        match report {
            Some(r) => if self.capture {
                Lasts {
                    capture: true,
                    skeleton: Some(r.skeleton),
                    pose: Some(r.pose),
                    max_dist: Some(r.max_dist),
                    rotations: Some(r.rotation),
                }
            } else {
                self
            },
            None => self,
        }
    }

    /// An empty record.
    pub fn new(capture: bool) -> (r: Lasts)
        ensures
            r == (Lasts { capture, skeleton: None, pose: None, max_dist: None, rotations: None }),
    {
        Lasts { capture, skeleton: None, pose: None, max_dist: None, rotations: None }
    }

    /// Records the outcome of a trial.
    pub fn record(&mut self, report: &Option<Report>)
        ensures
            *final(self) == old(self).recorded(*report),
    {
        match report {
            Some(r) => if self.capture {
                self.skeleton = Some(r.skeleton);
                self.pose = Some(r.pose);
                self.max_dist = Some(r.max_dist);
                self.rotations = Some(r.rotation);
            },
            None => {},
        }
    }
}

/// Matches skeleton frames against a library of poses.
pub struct Detector {
    /// The thresholds; they may be changed between two frames.
    pub settings: Settings,
    /// The library; matching only reads it.
    pub poses: PoseData,
    /// The record of the last report; only [`Tester::test`] writes it.
    pub lasts: Lasts,
}

impl Detector {
    /// A detector with the given thresholds and library, which records nothing.
    pub fn with_poses(settings: Settings, poses: PoseData) -> (r: Detector)
        ensures
            r.settings == settings,
            r.poses == poses,
            r.lasts == (Lasts {
                capture: false,
                skeleton: None,
                pose: None,
                max_dist: None,
                rotations: None,
            }),
    {
        Detector { poses, settings, lasts: Lasts::new(false) }
    }

    /// Reports on one reference pose against the joints of a skeleton.
    pub fn assess<A: Fn(Arms, Arms) -> Option<Alignment>, D: Fn(Position2D, Position2D) -> Scalar>(
        &self,
        pose: &JointPos,
        joints: &JointPos,
        align: &A,
        distance: &D,
    ) -> (r: Option<Report>)
        requires
            can_align(*align),
            can_measure(*distance),
        ensures
            !(arms_complete(pose@) && arms_complete(joints@)) ==> r is None,
            r matches Some(report) ==> exists|fit: Alignment, distances: Seq<Scalar>|
                {
                    &&& call_ensures(*align, (arms_of(pose@), arms_of(joints@)), Some(fit))
                    &&& rotation_within(self.settings, fit.rotation_angle)
                    &&& #[trigger] measured_by(*distance, fit, distances)
                    &&& report == report_of(fit, distances)
                },
            r is None && arms_complete(pose@) && arms_complete(joints@) ==> exists|
                fit: Option<Alignment>,
            |
                {
                    &&& #[trigger] call_ensures(*align, (arms_of(pose@), arms_of(joints@)), fit)
                    &&& fit matches Some(found) ==> !rotation_within(
                        self.settings,
                        found.rotation_angle,
                    )
                },
            forall|kernel: Kernel| #[trigger]
                computes(*align, *distance, kernel) ==> r == assess_spec(
                    self.settings,
                    pose@,
                    joints@,
                    kernel,
                ),
    {
        let pose_arms = match arms(pose) {
            Ok(a) => a,
            Err(_) => return None,
        };
        let joints_arms = match arms(joints) {
            Ok(a) => a,
            Err(_) => return None,
        };
        let fit = match align(pose_arms, joints_arms) {
            Some(fit) => fit,
            None => return None,
        };
        if !rotation_accepted(&self.settings, fit.rotation_angle) {
            return None;
        }
        let distances = pair_distances(&fit, distance);
        assert(measured_by(*distance, fit, distances@));
        Report::new(&fit, &distances)
    }

    /// Scores one reference pose against the joints of a skeleton.
    pub fn check_pose<
        A: Fn(Arms, Arms) -> Option<Alignment>,
        D: Fn(Position2D, Position2D) -> Scalar,
    >(&self, pose: &JointPos, joints: &JointPos, align: &A, distance: &D) -> (r: Option<Scalar>)
        requires
            can_align(*align),
            can_measure(*distance),
        ensures
            !(arms_complete(pose@) && arms_complete(joints@)) ==> r is None,
            r matches Some(score) ==> score.le_spec(self.settings.joint_cutoff),
            forall|kernel: Kernel| #[trigger]
                computes(*align, *distance, kernel) ==> r == check_pose_spec(
                    self.settings,
                    pose@,
                    joints@,
                    kernel,
                ),
    {
        match self.assess(pose, joints, align, distance) {
            Some(report) => report.score(&self.settings),
            None => None,
        }
    }

    /// Scores every pose, in the order of declaration; a pose that the
    /// library does not know has no score.
    pub fn scores<A: Fn(Arms, Arms) -> Option<Alignment>, D: Fn(Position2D, Position2D) -> Scalar>(
        &self,
        joints: &JointPos,
        align: &A,
        distance: &D,
    ) -> (r: Vec<Option<Scalar>>)
        requires
            can_align(*align),
            can_measure(*distance),
        ensures
            r@.len() == POSE_COUNT,
            forall|i: int|
                0 <= i < POSE_COUNT && (#[trigger] r@[i]) is Some ==> {
                    &&& self.poses@.contains_key(pose_at(i))
                    &&& arms_complete(self.poses@[pose_at(i)])
                    &&& arms_complete(joints@)
                    &&& r@[i]->0.le_spec(self.settings.joint_cutoff)
                },
            forall|kernel: Kernel| #[trigger]
                computes(*align, *distance, kernel) ==> r@ == scores_of(
                    self.settings,
                    self.poses@,
                    joints@,
                    kernel,
                ),
    {
        let mut scores: Vec<Option<Scalar>> = Vec::new();
        let mut i: usize = 0;
        while i < POSE_COUNT
            invariant
                i <= POSE_COUNT,
                can_align(*align),
                can_measure(*distance),
                scores@.len() == i,
                forall|j: int|
                    0 <= j < i && (#[trigger] scores@[j]) is Some ==> {
                        &&& self.poses@.contains_key(pose_at(j))
                        &&& arms_complete(self.poses@[pose_at(j)])
                        &&& arms_complete(joints@)
                        &&& scores@[j]->0.le_spec(self.settings.joint_cutoff)
                    },
                forall|kernel: Kernel, j: int| #[trigger]
                    computes(*align, *distance, kernel) && 0 <= j < i ==> #[trigger] scores@[j]
                        == pose_score(self.settings, self.poses@, joints@, kernel, pose_at(j)),
            decreases POSE_COUNT - i,
        {
            let closeness = match Pose::from_index(i) {
                Some(name) => match self.poses.get(name) {
                    Some(pose) => self.check_pose(pose, joints, align, distance),
                    None => None,
                },
                None => None,
            };
            scores.push(closeness);
            i += 1;
        }
        assert forall|kernel: Kernel| #[trigger]
            computes(*align, *distance, kernel) implies scores@ == scores_of(
            self.settings,
            self.poses@,
            joints@,
            kernel,
        ) by {
            assert(scores@ =~= scores_of(self.settings, self.poses@, joints@, kernel));
        }
        scores
    }

    /// Finds the pose of the library that fits the joints of a skeleton best.
    pub fn check_poses<
        A: Fn(Arms, Arms) -> Option<Alignment>,
        D: Fn(Position2D, Position2D) -> Scalar,
    >(&self, joints: &JointPos, align: &A, distance: &D) -> (r: Option<Pose>)
        requires
            can_align(*align),
            can_measure(*distance),
        ensures
            !arms_complete(joints@) ==> r is None,
            r matches Some(pose) ==> self.poses@.contains_key(pose) && arms_complete(
                self.poses@[pose],
            ),
            forall|kernel: Kernel| #[trigger]
                computes(*align, *distance, kernel) ==> r == check_poses_spec(
                    self.settings,
                    self.poses@,
                    joints@,
                    kernel,
                ),
    {
        let scores = self.scores(joints, align, distance);
        match closest(&scores) {
            Some(place) => Pose::from_index(place),
            None => None,
        }
    }

    /// Tells which pose of the library a skeleton frame shows, if any.
    ///
    /// The usable joints are picked out of the frame; every pose of the
    /// library is fitted onto them by `align` and measured by `distance`; of
    /// the poses that pass the rotation test and the distance test, the one
    /// whose worst-fitting joint is nearest wins. Whatever keeps a pose from
    /// matching is no error: the answer is `None` when no pose matches.
    pub fn detect<
        A: Fn(Arms, Arms) -> Option<Alignment>,
        D: Fn(Position2D, Position2D) -> Scalar,
    >(&self, skeleton: &Vec<Joint>, align: A, distance: D) -> (r: Option<Pose>)
        requires
            can_align(align),
            can_measure(distance),
        ensures
            !arms_complete(joints_of(skeleton@)) ==> r is None,
            r matches Some(pose) ==> self.poses@.contains_key(pose) && arms_complete(
                self.poses@[pose],
            ),
            forall|kernel: Kernel| #[trigger]
                computes(align, distance, kernel) ==> r == check_poses_spec(
                    self.settings,
                    self.poses@,
                    joints_of(skeleton@),
                    kernel,
                ),
    {
        let joints = joints_map(skeleton);
        self.check_poses(&joints, &align, &distance)
    }

    /// Reports on one pose of the library against a skeleton frame; there is
    /// no report on a pose that the library does not know.
    pub fn detect_pose<
        A: Fn(Arms, Arms) -> Option<Alignment>,
        D: Fn(Position2D, Position2D) -> Scalar,
    >(&self, name: Pose, skeleton: &Vec<Joint>, align: &A, distance: &D) -> (r: Option<Report>)
        requires
            can_align(*align),
            can_measure(*distance),
        ensures
            !self.poses@.contains_key(name) ==> r is None,
            !arms_complete(joints_of(skeleton@)) ==> r is None,
            forall|kernel: Kernel| #[trigger]
                computes(*align, *distance, kernel) ==> r == detect_pose_spec(
                    self.settings,
                    self.poses@,
                    name,
                    joints_of(skeleton@),
                    kernel,
                ),
    {
        let joints = joints_map(skeleton);
        match self.poses.get(name) {
            Some(pose) => self.assess(pose, &joints, align, distance),
            None => None,
        }
    }
}

/// Matches skeleton frames against one pose, and keeps what was compared.
pub struct Tester {
    pub detector: Detector,
    /// The pose that is tested for.
    pub name: Pose,
}

impl Tester {
    /// A tester for the pose `name` with the reference joints `pose`, which
    /// records every report.
    pub fn test_pose(settings: Settings, name: Pose, pose: JointPos) -> (r: Tester)
        ensures
            r.name == name,
            r.detector.settings == settings,
            r.detector.poses@ == Map::<Pose, Map<Joint2DType, Position2D>>::empty().insert(
                name,
                pose@,
            ),
            r.detector.lasts == (Lasts {
                capture: true,
                skeleton: None,
                pose: None,
                max_dist: None,
                rotations: None,
            }),
    {
        let mut poses = PoseData::new();
        poses.insert(name, pose);
        let mut detector = Detector::with_poses(settings, poses);
        detector.lasts.capture = true;
        Tester { name, detector }
    }

    /// Tells whether a skeleton frame shows the pose, and records what was
    /// compared where the rotation was accepted, whether or not the distance
    /// test then passed.
    pub fn test<A: Fn(Arms, Arms) -> Option<Alignment>, D: Fn(Position2D, Position2D) -> Scalar>(
        &mut self,
        skeleton: &Vec<Joint>,
        align: A,
        distance: D,
    ) -> (r: Option<Pose>)
        requires
            can_align(align),
            can_measure(distance),
        ensures
            final(self).name == old(self).name,
            final(self).detector.settings == old(self).detector.settings,
            final(self).detector.poses == old(self).detector.poses,
            final(self).detector.lasts.capture == old(self).detector.lasts.capture,
            r is None || r == Some(old(self).name),
            !arms_complete(joints_of(skeleton@)) ==> r is None && final(self).detector.lasts == old(
                self,
            ).detector.lasts,
            forall|kernel: Kernel| #[trigger]
                computes(align, distance, kernel) ==> {
                    let report = detect_pose_spec(
                        old(self).detector.settings,
                        old(self).detector.poses@,
                        old(self).name,
                        joints_of(skeleton@),
                        kernel,
                    );
                    &&& final(self).detector.lasts == old(self).detector.lasts.recorded(report)
                    &&& r == match report {
                        Some(found) => match score_of(old(self).detector.settings, found) {
                            Some(_) => Some(old(self).name),
                            None => None,
                        },
                        None => None,
                    }
                },
    {
        let report = self.detector.detect_pose(self.name, skeleton, &align, &distance);
        self.detector.lasts.record(&report);
        match report {
            Some(found) => match found.score(&self.detector.settings) {
                Some(_) => Some(self.name),
                None => None,
            },
            None => None,
        }
    }
}

} // verus!
