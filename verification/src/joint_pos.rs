//! The usable joints of one skeleton, or the joints of one reference pose:
//! a map from joint to position.

use vstd::prelude::*;
use crate::joints::{code_of, is_arm_joint, j2d_to_j, Joint, Joint2DType, Position2D};

verus! {

/// A map from joints to positions, each joint at most once.
///
/// The view is the map itself. A live map holds only what [`joints_map`] let
/// through; a reference map is curated by whoever recorded the pose and may
/// hold any joint.
#[derive(Clone, Copy, Debug)]
pub struct JointPos {
    slots: [Option<Position2D>; 25],
}

impl View for JointPos {
    type V = Map<Joint2DType, Position2D>;

    closed spec fn view(&self) -> Map<Joint2DType, Position2D> {
        Map::new(
            |t: Joint2DType| self.slots@[code_of(t) as int] is Some,
            |t: Joint2DType| self.slots@[code_of(t) as int]->0,
        )
    }
}

/// The map that a list of pairs builds up, a later pair replacing an earlier
/// one for the same joint.
pub open spec fn map_of_pairs(pairs: Seq<(Joint2DType, Position2D)>) -> Map<
    Joint2DType,
    Position2D,
>
    decreases pairs.len(),
{
    if pairs.len() == 0 {
        Map::empty()
    } else {
        map_of_pairs(pairs.drop_last()).insert(pairs.last().0, pairs.last().1)
    }
}

/// The usable joints of a frame: every reading that [`Joint::usable_as`]
/// keeps, under its joint; of two readings of one joint the later stays.
pub open spec fn joints_of(frame: Seq<Joint>) -> Map<Joint2DType, Position2D>
    decreases frame.len(),
{
    if frame.len() == 0 {
        Map::empty()
    } else {
        let earlier = joints_of(frame.drop_last());
        match frame.last().usable_as() {
            Some(t) => earlier.insert(t, frame.last().proj),
            None => earlier,
        }
    }
}

impl JointPos {
    /// The empty map.
    pub fn new() -> (r: JointPos)
        ensures
            r@ == Map::<Joint2DType, Position2D>::empty(),
    {
        let r = JointPos { slots: [None; 25] };
        assert(r@ =~= Map::<Joint2DType, Position2D>::empty());
        r
    }

    /// Puts `joint` at `position`, in place of where it was, if it was there.
    pub fn insert(&mut self, joint: Joint2DType, position: Position2D)
        ensures
            final(self)@ == old(self)@.insert(joint, position),
    {
        let code = j2d_to_j(joint);
        self.slots[code as usize] = Some(position);
        assert(final(self)@ =~= old(self)@.insert(joint, position));
    }

    /// Where `joint` is, if the map holds it.
    pub fn get(&self, joint: Joint2DType) -> (r: Option<Position2D>)
        ensures
            r == if self@.contains_key(joint) {
                Some(self@[joint])
            } else {
                None::<Position2D>
            },
    {
        let code = j2d_to_j(joint);
        self.slots[code as usize]
    }

    /// Whether the map holds `joint`.
    pub fn contains_key(&self, joint: Joint2DType) -> (r: bool)
        ensures
            r == self@.contains_key(joint),
    {
        self.get(joint).is_some()
    }

    /// The map of a list of pairs, a later pair replacing an earlier one for
    /// the same joint.
    pub fn from_pairs(pairs: &Vec<(Joint2DType, Position2D)>) -> (r: JointPos)
        ensures
            r@ == map_of_pairs(pairs@),
    {
        let mut map = JointPos::new();
        let mut i: usize = 0;
        while i < pairs.len()
            invariant
                i <= pairs.len(),
                map@ == map_of_pairs(pairs@.take(i as int)),
            decreases pairs.len() - i,
        {
            let (joint, position) = pairs[i];
            assert(pairs@.take(i + 1).drop_last() =~= pairs@.take(i as int));
            map.insert(joint, position);
            i += 1;
        }
        assert(pairs@.take(i as int) =~= pairs@);
        map
    }
}

/// Picks the usable joints out of a skeleton frame.
///
/// A reading is kept when its code names an arm joint and its projection lies
/// in the frame; every other reading is passed over, which is no error.
pub fn joints_map(skeleton: &Vec<Joint>) -> (r: JointPos)
    ensures
        r@ == joints_of(skeleton@),
        forall|joint: Joint2DType| #[trigger]
            r@.contains_key(joint) ==> is_arm_joint(joint) && r@[joint].in_frame_spec(),
{
    proof {
        assert forall|joint: Joint2DType| #[trigger]
            joints_of(skeleton@).contains_key(joint) implies is_arm_joint(joint) && joints_of(
            skeleton@,
        )[joint].in_frame_spec() by {
            lemma_usable_joints(skeleton@, joint);
        }
    }
    let mut map = JointPos::new();
    let mut i: usize = 0;
    while i < skeleton.len()
        invariant
            i <= skeleton.len(),
            map@ == joints_of(skeleton@.take(i as int)),
        decreases skeleton.len() - i,
    {
        let joint = skeleton[i];
        assert(skeleton@.take(i + 1).drop_last() =~= skeleton@.take(i as int));
        match joint.usable() {
            Some(t) => {
                map.insert(t, joint.proj);
            },
            None => {},
        }
        i += 1;
    }
    assert(skeleton@.take(i as int) =~= skeleton@);
    map
}

/// The usable joints of a frame are the joints of its usable readings: a
/// joint is among them exactly when some reading is kept under it, only arm
/// joints at positions in the frame are among them, and a joint lies where
/// the last of its usable readings puts it.
pub proof fn lemma_usable_joints(frame: Seq<Joint>, joint: Joint2DType)
    ensures
        joints_of(frame).contains_key(joint) <==> exists|i: int|
            0 <= i < frame.len() && (#[trigger] frame[i]).usable_as() == Some(joint),
        joints_of(frame).contains_key(joint) ==> is_arm_joint(joint) && joints_of(
            frame,
        )[joint].in_frame_spec(),
        forall|i: int|
            0 <= i < frame.len() && (#[trigger] frame[i]).usable_as() == Some(joint) && (forall|
                j: int,
            |
                i < j < frame.len() ==> (#[trigger] frame[j]).usable_as() != Some(joint))
                ==> joints_of(frame)[joint] == frame[i].proj,
    decreases frame.len(),
{
    if frame.len() > 0 {
        let earlier = frame.drop_last();
        let last = frame.len() - 1;
        lemma_usable_joints(earlier, joint);
        if joints_of(earlier).contains_key(joint) {
            let i = choose|i: int|
                0 <= i < earlier.len() && (#[trigger] earlier[i]).usable_as() == Some(joint);
            assert(frame[i].usable_as() == Some(joint));
        }
        if frame[last].usable_as() == Some(joint) {
            assert(joints_of(frame).contains_key(joint));
        }
        if exists|i: int| 0 <= i < frame.len() && (#[trigger] frame[i]).usable_as() == Some(joint) {
            let i = choose|i: int|
                0 <= i < frame.len() && (#[trigger] frame[i]).usable_as() == Some(joint);
            if i < last {
                assert(earlier[i].usable_as() == Some(joint));
            }
        }
        assert forall|i: int|
            0 <= i < frame.len() && (#[trigger] frame[i]).usable_as() == Some(joint) && (forall|
                j: int,
            |
                i < j < frame.len() ==> (#[trigger] frame[j]).usable_as() != Some(
                    joint,
                )) implies joints_of(frame)[joint] == frame[i].proj by {
            if i < last {
                assert(frame[last].usable_as() != Some(joint));
                assert(earlier[i].usable_as() == Some(joint));
                assert forall|j: int| i < j < earlier.len() implies (#[trigger] earlier[j]).usable_as()
                    != Some(joint) by {
                    assert(frame[j].usable_as() != Some(joint));
                }
            }
        }
    }
}

} // verus!
