//! The reference poses that come with the library.
//!
//! Each table holds one pose as it was recorded: the bit patterns of `x` and
//! `y` of the eight arm joints, in the fixed order of the arms.

use vstd::prelude::*;
use crate::arms::{arm_map, arms_complete, lemma_arm_map, Arms};
use crate::joint_pos::JointPos;
use crate::joints::{Joint2DType, Position2D};
use crate::pose::{Pose, PoseData};
use crate::scalar::Scalar;

verus! {

/// A dab to the right.
pub const DAB_R: [u32; 16] = [
    0x3f046b12, 0x3ef94f80,
    0x3eb339f3, 0x3ed61cf8,
    0x3e561757, 0x3ea52e36,
    0x3e360edf, 0x3e9a5296,
    0x3f3037d2, 0x3efed99a,
    0x3f162463, 0x3f07c5dd,
    0x3eea6085, 0x3ece6b10,
    0x3edda80c, 0x3ec1d91c,
];

/// A dab to the left.
pub const DAB_L: [u32; 16] = [
    0x3eada2ac, 0x3efd66dd,
    0x3eb952a0, 0x3eeb7d5a,
    0x3f04b965, 0x3eb70918,
    0x3f0cddc5, 0x3eac6007,
    0x3f0c3c3b, 0x3ef4218a,
    0x3f328110, 0x3ec59dcc,
    0x3f549027, 0x3e8ce13a,
    0x3f5c08dd, 0x3e806ef8,
];

/// Both hands up.
pub const HANDS_UP: [u32; 16] = [
    0x3ec54d2b, 0x3efc33e2,
    0x3e4ea044, 0x3f0b90df,
    0x3e26a30a, 0x3ed2c482,
    0x3e1d988f, 0x3ec34fbe,
    0x3f1f4635, 0x3efa9a33,
    0x3f4fb4a1, 0x3f067e18,
    0x3f58b8d6, 0x3ecf9e1b,
    0x3f5acafc, 0x3ec185d9,
];

/// Both hands joined above the head.
pub const ROOF: [u32; 16] = [
    0x3eab0392, 0x3eea9c76,
    0x3e7554d5, 0x3eb49a39,
    0x3e5d60f1, 0x3e3ee6f4,
    0x3e582061, 0x3e198f2c,
    0x3f10e041, 0x3ee8f788,
    0x3f2395f7, 0x3eaa11f2,
    0x3f262ee9, 0x3e33a03c,
    0x3f26c203, 0x3e101d93,
];

/// Arms spread, leaning to the right.
pub const FLYING_R: [u32; 16] = [
    0x3ebd95d6, 0x3efc9af8,
    0x3e96a8e1, 0x3f1a4f4c,
    0x3e2a2001, 0x3f2c54a5,
    0x3e100c9a, 0x3f2fe994,
    0x3f17d363, 0x3eec758b,
    0x3f3ec37b, 0x3ec5f17c,
    0x3f620554, 0x3e937a80,
    0x3f6999a2, 0x3e88a147,
];

/// Arms spread, leaning to the left.
pub const FLYING_L: [u32; 16] = [
    0x3ee3636c, 0x3ef5a262,
    0x3e9ca966, 0x3ecd81f3,
    0x3e2fae14, 0x3e8aea93,
    0x3e0fb77a, 0x3e76e7bd,
    0x3f2df869, 0x3f02274a,
    0x3f4a0b35, 0x3f1f2426,
    0x3f661b91, 0x3f3255b9,
    0x3f6b6e7b, 0x3f35f9da,
];

/// The arms that a table holds.
pub open spec fn table_arms(table: [u32; 16]) -> Arms {
    Arms {
        right_shoulder: Position2D { x: Scalar { bits: table[0] }, y: Scalar { bits: table[1] } },
        right_elbow: Position2D { x: Scalar { bits: table[2] }, y: Scalar { bits: table[3] } },
        right_wrist: Position2D { x: Scalar { bits: table[4] }, y: Scalar { bits: table[5] } },
        right_hand: Position2D { x: Scalar { bits: table[6] }, y: Scalar { bits: table[7] } },
        left_shoulder: Position2D { x: Scalar { bits: table[8] }, y: Scalar { bits: table[9] } },
        left_elbow: Position2D { x: Scalar { bits: table[10] }, y: Scalar { bits: table[11] } },
        left_wrist: Position2D { x: Scalar { bits: table[12] }, y: Scalar { bits: table[13] } },
        left_hand: Position2D { x: Scalar { bits: table[14] }, y: Scalar { bits: table[15] } },
    }
}

/// The table of a pose.
pub open spec fn table_of(pose: Pose) -> [u32; 16] {
    match pose {
        Pose::DabR => DAB_R,
        Pose::DabL => DAB_L,
        Pose::HandsUp => HANDS_UP,
        Pose::Roof => ROOF,
        Pose::FlyingR => FLYING_R,
        Pose::FlyingL => FLYING_L,
    }
}

/// The library of all six poses, each with the arms of its table.
pub open spec fn builtin_library() -> Map<Pose, Map<Joint2DType, Position2D>> {
    Map::new(|pose: Pose| true, |pose: Pose| arm_map(table_arms(table_of(pose))))
}

fn arms_of_table(table: &[u32; 16]) -> (r: Arms)
    ensures
        r == table_arms(*table),
{
    Arms {
        right_shoulder: Position2D::from_bits(table[0], table[1]),
        right_elbow: Position2D::from_bits(table[2], table[3]),
        right_wrist: Position2D::from_bits(table[4], table[5]),
        right_hand: Position2D::from_bits(table[6], table[7]),
        left_shoulder: Position2D::from_bits(table[8], table[9]),
        left_elbow: Position2D::from_bits(table[10], table[11]),
        left_wrist: Position2D::from_bits(table[12], table[13]),
        left_hand: Position2D::from_bits(table[14], table[15]),
    }
}

/// The library of the poses that come with this crate: all six, each with
/// its eight arm joints and nothing else.
pub fn load() -> (r: PoseData)
    ensures
        r@ == builtin_library(),
        forall|pose: Pose| #[trigger] r@.contains_key(pose) && arms_complete(r@[pose]),
{
    proof {
        assert forall|pose: Pose| arms_complete(#[trigger] builtin_library()[pose]) by {
            lemma_arm_map(table_arms(table_of(pose)));
        }
    }
    let mut library = PoseData::new();
    library.insert(Pose::DabR, JointPos::from_arms(&arms_of_table(&DAB_R)));
    library.insert(Pose::DabL, JointPos::from_arms(&arms_of_table(&DAB_L)));
    library.insert(Pose::HandsUp, JointPos::from_arms(&arms_of_table(&HANDS_UP)));
    library.insert(Pose::Roof, JointPos::from_arms(&arms_of_table(&ROOF)));
    library.insert(Pose::FlyingR, JointPos::from_arms(&arms_of_table(&FLYING_R)));
    library.insert(Pose::FlyingL, JointPos::from_arms(&arms_of_table(&FLYING_L)));
    assert(library@ =~= builtin_library());
    library
}

} // verus!
