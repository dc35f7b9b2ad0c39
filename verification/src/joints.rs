//! The joint model: the closed set of joint identifiers, the numbers a sensor
//! gives them, positions in the image plane, and one raw reading of a frame.

use vstd::prelude::*;
use crate::scalar::Scalar;

verus! {

/// The joints a sensor can report, in the order of their sensor codes.
#[derive(Clone, Copy, Debug, PartialEq, Eq, Hash, Structural)]
pub enum Joint2DType {
    /// The code that the sensor keeps for no joint.
    Reserved,
    Head,
    Neck,
    Torso,
    Waist,
    LeftCollar,
    LeftShoulder,
    LeftElbow,
    LeftWrist,
    LeftHand,
    LeftFingertip, // Possibly unused by current sensors.
    RightCollar,
    RightShoulder,
    RightElbow,
    RightWrist,
    RightHand,
    RightFingertip, // Possibly unused by current sensors.
    LeftHip,
    LeftKnee,
    LeftAnkle,
    LeftFoot, // Possibly unused by current sensors.
    RightHip,
    RightKnee,
    RightAnkle,
    RightFoot, // Possibly unused by current sensors.
}

/// How many joint identifiers there are; the sensor codes are the numbers below it.
pub const JOINT_COUNT: u32 = 25;

/// The sensor code of a joint.
pub open spec fn code_of(item: Joint2DType) -> u32 {
    match item {
        Joint2DType::Reserved => 0,
        Joint2DType::Head => 1,
        Joint2DType::Neck => 2,
        Joint2DType::Torso => 3,
        Joint2DType::Waist => 4,
        Joint2DType::LeftCollar => 5,
        Joint2DType::LeftShoulder => 6,
        Joint2DType::LeftElbow => 7,
        Joint2DType::LeftWrist => 8,
        Joint2DType::LeftHand => 9,
        Joint2DType::LeftFingertip => 10,
        Joint2DType::RightCollar => 11,
        Joint2DType::RightShoulder => 12,
        Joint2DType::RightElbow => 13,
        Joint2DType::RightWrist => 14,
        Joint2DType::RightHand => 15,
        Joint2DType::RightFingertip => 16,
        Joint2DType::LeftHip => 17,
        Joint2DType::LeftKnee => 18,
        Joint2DType::LeftAnkle => 19,
        Joint2DType::LeftFoot => 20,
        Joint2DType::RightHip => 21,
        Joint2DType::RightKnee => 22,
        Joint2DType::RightAnkle => 23,
        Joint2DType::RightFoot => 24,
    }
}

/// The joint with a given sensor code, if the code is one a sensor uses.
pub open spec fn joint_of_code(code: u32) -> Option<Joint2DType> {
    match code {
        0 => Some(Joint2DType::Reserved),
        1 => Some(Joint2DType::Head),
        2 => Some(Joint2DType::Neck),
        3 => Some(Joint2DType::Torso),
        4 => Some(Joint2DType::Waist),
        5 => Some(Joint2DType::LeftCollar),
        6 => Some(Joint2DType::LeftShoulder),
        7 => Some(Joint2DType::LeftElbow),
        8 => Some(Joint2DType::LeftWrist),
        9 => Some(Joint2DType::LeftHand),
        10 => Some(Joint2DType::LeftFingertip),
        11 => Some(Joint2DType::RightCollar),
        12 => Some(Joint2DType::RightShoulder),
        13 => Some(Joint2DType::RightElbow),
        14 => Some(Joint2DType::RightWrist),
        15 => Some(Joint2DType::RightHand),
        16 => Some(Joint2DType::RightFingertip),
        17 => Some(Joint2DType::LeftHip),
        18 => Some(Joint2DType::LeftKnee),
        19 => Some(Joint2DType::LeftAnkle),
        20 => Some(Joint2DType::LeftFoot),
        21 => Some(Joint2DType::RightHip),
        22 => Some(Joint2DType::RightKnee),
        23 => Some(Joint2DType::RightAnkle),
        24 => Some(Joint2DType::RightFoot),
        _ => None,
    }
}

/// The arm joints, the only ones that take part in matching: shoulder, elbow,
/// wrist and hand of both sides.
pub open spec fn is_arm_joint(joint_type: Joint2DType) -> bool {
    match joint_type {
        Joint2DType::LeftShoulder
        | Joint2DType::LeftElbow
        | Joint2DType::LeftWrist
        | Joint2DType::LeftHand
        | Joint2DType::RightShoulder
        | Joint2DType::RightElbow
        | Joint2DType::RightWrist
        | Joint2DType::RightHand => true,
        _ => false,
    }
}

impl Joint2DType {
    /// The joint that a sensor reports under `code`; `None` for a code that no
    /// joint has.
    pub fn from_code(code: u32) -> (r: Option<Joint2DType>)
        ensures
            r == joint_of_code(code),
            r is Some <==> code < JOINT_COUNT,
    {
        match code {
        0 => Some(Joint2DType::Reserved),
        1 => Some(Joint2DType::Head),
        2 => Some(Joint2DType::Neck),
        3 => Some(Joint2DType::Torso),
        4 => Some(Joint2DType::Waist),
        5 => Some(Joint2DType::LeftCollar),
        6 => Some(Joint2DType::LeftShoulder),
        7 => Some(Joint2DType::LeftElbow),
        8 => Some(Joint2DType::LeftWrist),
        9 => Some(Joint2DType::LeftHand),
        10 => Some(Joint2DType::LeftFingertip),
        11 => Some(Joint2DType::RightCollar),
        12 => Some(Joint2DType::RightShoulder),
        13 => Some(Joint2DType::RightElbow),
        14 => Some(Joint2DType::RightWrist),
        15 => Some(Joint2DType::RightHand),
        16 => Some(Joint2DType::RightFingertip),
        17 => Some(Joint2DType::LeftHip),
        18 => Some(Joint2DType::LeftKnee),
        19 => Some(Joint2DType::LeftAnkle),
        20 => Some(Joint2DType::LeftFoot),
        21 => Some(Joint2DType::RightHip),
        22 => Some(Joint2DType::RightKnee),
        23 => Some(Joint2DType::RightAnkle),
        24 => Some(Joint2DType::RightFoot),
            _ => None,
        }
    }
}

/// The sensor code of `item`.
pub fn j2d_to_j(item: Joint2DType) -> (code: u32)
    ensures
        code == code_of(item),
        code < JOINT_COUNT,
        joint_of_code(code) == Some(item),
{
    match item {
        Joint2DType::Reserved => 0,
        Joint2DType::Head => 1,
        Joint2DType::Neck => 2,
        Joint2DType::Torso => 3,
        Joint2DType::Waist => 4,
        Joint2DType::LeftCollar => 5,
        Joint2DType::LeftShoulder => 6,
        Joint2DType::LeftElbow => 7,
        Joint2DType::LeftWrist => 8,
        Joint2DType::LeftHand => 9,
        Joint2DType::LeftFingertip => 10,
        Joint2DType::RightCollar => 11,
        Joint2DType::RightShoulder => 12,
        Joint2DType::RightElbow => 13,
        Joint2DType::RightWrist => 14,
        Joint2DType::RightHand => 15,
        Joint2DType::RightFingertip => 16,
        Joint2DType::LeftHip => 17,
        Joint2DType::LeftKnee => 18,
        Joint2DType::LeftAnkle => 19,
        Joint2DType::LeftFoot => 20,
        Joint2DType::RightHip => 21,
        Joint2DType::RightKnee => 22,
        Joint2DType::RightAnkle => 23,
        Joint2DType::RightFoot => 24,
    }
}

/// Whether a joint takes part in matching.
pub fn available_joints(joint_type: &Joint2DType) -> (r: bool)
    ensures
        r == is_arm_joint(*joint_type),
{
    match joint_type {
        Joint2DType::LeftShoulder
        | Joint2DType::LeftElbow
        | Joint2DType::LeftWrist
        | Joint2DType::LeftHand
        | Joint2DType::RightShoulder
        | Joint2DType::RightElbow
        | Joint2DType::RightWrist
        | Joint2DType::RightHand => true,
        _ => false,
    }
}

/// Codes and joints correspond one to one: a joint's code leads back to the
/// joint, a code that names a joint is that joint's code, and the codes that
/// name a joint are exactly those below [`JOINT_COUNT`].
pub proof fn lemma_codes_one_to_one(item: Joint2DType, code: u32)
    ensures
        joint_of_code(code_of(item)) == Some(item),
        code_of(item) < JOINT_COUNT,
        joint_of_code(code) is Some <==> code < JOINT_COUNT,
        joint_of_code(code) == Some(item) <==> code == code_of(item),
{
}

/// A point of the image plane, in frame coordinates: a visible point has both
/// coordinates between zero and one, and `y` grows downwards.
#[derive(Clone, Copy, Debug, PartialEq, Eq, Structural)]
pub struct Position2D {
    pub x: Scalar,
    pub y: Scalar,
}

impl Position2D {
    /// Whether both coordinates lie between zero and one, ends included.
    pub open spec fn in_frame_spec(self) -> bool {
        self.x.in_unit_interval_spec() && self.y.in_unit_interval_spec()
    }

    /// The position with the coordinates `x` and `y`.
    pub fn new(x: Scalar, y: Scalar) -> (r: Position2D)
        ensures
            r.x == x,
            r.y == y,
    {
        Position2D { x, y }
    }

    /// Makes a position of the bit patterns of its two coordinates.
    pub fn from_bits(x: u32, y: u32) -> (r: Position2D)
        ensures
            r.x.bits == x,
            r.y.bits == y,
    {
        Position2D { x: Scalar { bits: x }, y: Scalar { bits: y } }
    }

    /// Whether both coordinates lie between zero and one, ends included.
    pub fn in_frame(&self) -> (r: bool)
        ensures
            r == self.in_frame_spec(),
    {
        self.x.in_unit_interval() && self.y.in_unit_interval()
    }
}

/// One joint of a skeleton frame, as far as matching reads it: the code under
/// which the sensor reports the joint, and its projection onto the image.
#[derive(Clone, Copy, Debug, PartialEq, Eq, Structural)]
pub struct Joint {
    /// The code of the joint, as the sensor numbers them.
    pub joint_type_code: u32,
    /// Where the joint is projected to.
    pub proj: Position2D,
}

impl Joint {
    /// The joint that this reading is kept under, if it is kept at all: its
    /// code names an arm joint, and its projection lies in the frame. A reading
    /// out of the frame is a joint that the sensor lost; it is dropped, not
    /// moved to the edge.
    pub open spec fn usable_as(self) -> Option<Joint2DType> {
        match joint_of_code(self.joint_type_code) {
            Some(t) => if self.proj.in_frame_spec() && is_arm_joint(t) {
                Some(t)
            } else {
                None
            },
            None => None,
        }
    }

    /// The reading of the joint with the code `joint_type_code` at `proj`.
    pub fn new(joint_type_code: u32, proj: Position2D) -> (r: Joint)
        ensures
            r.joint_type_code == joint_type_code,
            r.proj == proj,
    {
        Joint { joint_type_code, proj }
    }

    /// Under which joint this reading is kept, if it is.
    pub fn usable(&self) -> (r: Option<Joint2DType>)
        ensures
            r == self.usable_as(),
    {
        match Joint2DType::from_code(self.joint_type_code) {
            Some(t) => if self.proj.in_frame() && available_joints(&t) {
                Some(t)
            } else {
                None
            },
            None => None,
        }
    }
}

} // verus!
