//! The eight arm joints in their fixed order, the anchors of every alignment.

use vstd::prelude::*;
use crate::joint_pos::JointPos;
use crate::joints::{is_arm_joint, Joint2DType, Position2D};

verus! {

/// How many joints an alignment works on.
pub const ARM_JOINTS: usize = 8;

/// The positions of the eight arm joints. Their order is right arm first,
/// then left arm, each from the shoulder outwards.
#[derive(Clone, Copy, Debug, PartialEq, Eq, Structural)]
pub struct Arms {
    pub right_shoulder: Position2D,
    pub right_elbow: Position2D,
    pub right_wrist: Position2D,
    pub right_hand: Position2D,
    pub left_shoulder: Position2D,
    pub left_elbow: Position2D,
    pub left_wrist: Position2D,
    pub left_hand: Position2D,
}

/// The error of an arm joint that a map does not hold.
#[derive(Clone, Copy, Debug, PartialEq, Eq, Structural)]
pub struct JointMissing;

/// Whether a map holds all eight arm joints.
pub open spec fn arms_complete(joints: Map<Joint2DType, Position2D>) -> bool {
    forall|t: Joint2DType| is_arm_joint(t) ==> #[trigger] joints.contains_key(t)
}

/// The arm joints of a map that holds them all.
pub open spec fn arms_of(joints: Map<Joint2DType, Position2D>) -> Arms {
    Arms {
        right_shoulder: joints[Joint2DType::RightShoulder],
        right_elbow: joints[Joint2DType::RightElbow],
        right_wrist: joints[Joint2DType::RightWrist],
        right_hand: joints[Joint2DType::RightHand],
        left_shoulder: joints[Joint2DType::LeftShoulder],
        left_elbow: joints[Joint2DType::LeftElbow],
        left_wrist: joints[Joint2DType::LeftWrist],
        left_hand: joints[Joint2DType::LeftHand],
    }
}

impl Arms {
    /// The eight positions in their fixed order.
    pub open spec fn points(self) -> Seq<Position2D> {
        seq![
            self.right_shoulder,
            self.right_elbow,
            self.right_wrist,
            self.right_hand,
            self.left_shoulder,
            self.left_elbow,
            self.left_wrist,
            self.left_hand,
        ]
    }

    /// The eight positions in their fixed order.
    pub fn to_vec(&self) -> (r: Vec<Position2D>)
        ensures
            r@ == self.points(),
    {
        let mut r: Vec<Position2D> = Vec::new();
        r.push(self.right_shoulder);
        r.push(self.right_elbow);
        r.push(self.right_wrist);
        r.push(self.right_hand);
        r.push(self.left_shoulder);
        r.push(self.left_elbow);
        r.push(self.left_wrist);
        r.push(self.left_hand);
        assert(r@ =~= self.points());
        r
    }

    /// Eight positions in the fixed order, as arms; `None` for any other
    /// number of positions.
    pub fn from_points(points: &Vec<Position2D>) -> (r: Option<Arms>)
        ensures
            r is Some <==> points@.len() == ARM_JOINTS,
            r matches Some(arms) ==> arms.points() == points@,
    {
        if points.len() != ARM_JOINTS {
            return None;
        }
        let arms = Arms {
            right_shoulder: points[0],
            right_elbow: points[1],
            right_wrist: points[2],
            right_hand: points[3],
            left_shoulder: points[4],
            left_elbow: points[5],
            left_wrist: points[6],
            left_hand: points[7],
        };
        assert(arms.points() =~= points@);
        Some(arms)
    }
}

/// The map that holds the eight joints of `arms` and nothing else.
pub open spec fn arm_map(arms: Arms) -> Map<Joint2DType, Position2D> {
    Map::empty().insert(Joint2DType::RightShoulder, arms.right_shoulder).insert(
        Joint2DType::RightElbow,
        arms.right_elbow,
    ).insert(Joint2DType::RightWrist, arms.right_wrist).insert(
        Joint2DType::RightHand,
        arms.right_hand,
    ).insert(Joint2DType::LeftShoulder, arms.left_shoulder).insert(
        Joint2DType::LeftElbow,
        arms.left_elbow,
    ).insert(Joint2DType::LeftWrist, arms.left_wrist).insert(
        Joint2DType::LeftHand,
        arms.left_hand,
    )
}

impl JointPos {
    /// The map that holds the eight joints of `arms` and nothing else.
    pub fn from_arms(arms: &Arms) -> (r: JointPos)
        ensures
            r@ == arm_map(*arms),
            arms_complete(r@),
            arms_of(r@) == *arms,
    {
        let mut map = JointPos::new();
        map.insert(Joint2DType::RightShoulder, arms.right_shoulder);
        map.insert(Joint2DType::RightElbow, arms.right_elbow);
        map.insert(Joint2DType::RightWrist, arms.right_wrist);
        map.insert(Joint2DType::RightHand, arms.right_hand);
        map.insert(Joint2DType::LeftShoulder, arms.left_shoulder);
        map.insert(Joint2DType::LeftElbow, arms.left_elbow);
        map.insert(Joint2DType::LeftWrist, arms.left_wrist);
        map.insert(Joint2DType::LeftHand, arms.left_hand);
        proof {
            lemma_arm_map(*arms);
        }
        map
    }
}

/// Selects the arm joints of a map, in their fixed order.
///
/// A skeleton of which any arm joint is untracked cannot be scored: the
/// selection succeeds exactly when all eight are there.
pub fn arms(joints: &JointPos) -> (r: Result<Arms, JointMissing>)
    ensures
        arms_complete(joints@) ==> r == Ok::<Arms, JointMissing>(arms_of(joints@)),
        !arms_complete(joints@) ==> r is Err,
{
    proof {
        lemma_arms_complete(joints@);
    }
    let right_shoulder = match joints.get(Joint2DType::RightShoulder) {
        Some(p) => p,
        None => return Err(JointMissing),
    };
    let right_elbow = match joints.get(Joint2DType::RightElbow) {
        Some(p) => p,
        None => return Err(JointMissing),
    };
    let right_wrist = match joints.get(Joint2DType::RightWrist) {
        Some(p) => p,
        None => return Err(JointMissing),
    };
    let right_hand = match joints.get(Joint2DType::RightHand) {
        Some(p) => p,
        None => return Err(JointMissing),
    };
    let left_shoulder = match joints.get(Joint2DType::LeftShoulder) {
        Some(p) => p,
        None => return Err(JointMissing),
    };
    let left_elbow = match joints.get(Joint2DType::LeftElbow) {
        Some(p) => p,
        None => return Err(JointMissing),
    };
    let left_wrist = match joints.get(Joint2DType::LeftWrist) {
        Some(p) => p,
        None => return Err(JointMissing),
    };
    let left_hand = match joints.get(Joint2DType::LeftHand) {
        Some(p) => p,
        None => return Err(JointMissing),
    };
    Ok(
        Arms {
            right_shoulder,
            right_elbow,
            right_wrist,
            right_hand,
            left_shoulder,
            left_elbow,
            left_wrist,
            left_hand,
        },
    )
}

/// A map is complete exactly when it holds each of the eight joints by name.
pub proof fn lemma_arms_complete(joints: Map<Joint2DType, Position2D>)
    ensures
        arms_complete(joints) <==> {
            &&& joints.contains_key(Joint2DType::RightShoulder)
            &&& joints.contains_key(Joint2DType::RightElbow)
            &&& joints.contains_key(Joint2DType::RightWrist)
            &&& joints.contains_key(Joint2DType::RightHand)
            &&& joints.contains_key(Joint2DType::LeftShoulder)
            &&& joints.contains_key(Joint2DType::LeftElbow)
            &&& joints.contains_key(Joint2DType::LeftWrist)
            &&& joints.contains_key(Joint2DType::LeftHand)
        },
{
    if arms_complete(joints) {
        assert(is_arm_joint(Joint2DType::RightShoulder));
        assert(is_arm_joint(Joint2DType::RightElbow));
        assert(is_arm_joint(Joint2DType::RightWrist));
        assert(is_arm_joint(Joint2DType::RightHand));
        assert(is_arm_joint(Joint2DType::LeftShoulder));
        assert(is_arm_joint(Joint2DType::LeftElbow));
        assert(is_arm_joint(Joint2DType::LeftWrist));
        assert(is_arm_joint(Joint2DType::LeftHand));
    }
}

/// The map of a set of arms is complete, and its arms are those it was made of.
pub proof fn lemma_arm_map(arms: Arms)
    ensures
        arms_complete(arm_map(arms)),
        arms_of(arm_map(arms)) == arms,
{
    lemma_arms_complete(arm_map(arms));
}

} // verus!
