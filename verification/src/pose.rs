//! The recognised poses and the library of their reference joints.

use vstd::prelude::*;
use vstd::string::*;
use crate::joint_pos::{map_of_pairs, JointPos};
use crate::joints::{Joint2DType, Position2D};

verus! {

/// The poses that can be recognised. Where two poses fit a skeleton equally
/// well, the one declared first here is preferred.
#[derive(Clone, Copy, Debug, PartialEq, Eq, Hash, Structural)]
pub enum Pose {
    DabR,
    DabL,
    HandsUp,
    Roof,
    FlyingR,
    FlyingL,
}

/// How many poses there are.
pub const POSE_COUNT: usize = 6;

/// The place of a pose in the order of declaration.
pub open spec fn pose_index(pose: Pose) -> int {
    match pose {
        Pose::DabR => 0,
        Pose::DabL => 1,
        Pose::HandsUp => 2,
        Pose::Roof => 3,
        Pose::FlyingR => 4,
        Pose::FlyingL => 5,
    }
}

/// The pose at a place of the order of declaration.
pub open spec fn pose_at(index: int) -> Pose {
    if index == 0 {
        Pose::DabR
    } else if index == 1 {
        Pose::DabL
    } else if index == 2 {
        Pose::HandsUp
    } else if index == 3 {
        Pose::Roof
    } else if index == 4 {
        Pose::FlyingR
    } else {
        Pose::FlyingL
    }
}

/// The name of a pose.
pub open spec fn name_of(pose: Pose) -> Seq<char> {
    match pose {
        Pose::DabR => "DabR"@,
        Pose::DabL => "DabL"@,
        Pose::HandsUp => "HandsUp"@,
        Pose::Roof => "Roof"@,
        Pose::FlyingR => "FlyingR"@,
        Pose::FlyingL => "FlyingL"@,
    }
}

/// The pose that a name stands for. Names are matched letter for letter.
pub open spec fn pose_of_name(name: Seq<char>) -> Option<Pose> {
    if name == "DabR"@ {
        Some(Pose::DabR)
    } else if name == "DabL"@ {
        Some(Pose::DabL)
    } else if name == "HandsUp"@ {
        Some(Pose::HandsUp)
    } else if name == "Roof"@ {
        Some(Pose::Roof)
    } else if name == "FlyingR"@ {
        Some(Pose::FlyingR)
    } else if name == "FlyingL"@ {
        Some(Pose::FlyingL)
    } else {
        None
    }
}

/// Whether two texts hold the same characters.
fn same_text(a: &str, b: &str) -> (r: bool)
    ensures
        r == (a@ == b@),
{
    let n = a.unicode_len();
    if n != b.unicode_len() {
        return false;
    }
    let mut i: usize = 0;
    while i < n
        invariant
            i <= n,
            n == a@.len(),
            n == b@.len(),
            forall|k: int| 0 <= k < i ==> a@[k] == b@[k],
        decreases n - i,
    {
        if a.get_char(i) != b.get_char(i) {
            return false;
        }
        i += 1;
    }
    assert(a@ =~= b@);
    true
}

impl Pose {
    /// The pose of a name, or `None` for a name that is no pose's.
    pub fn from_name(name: &str) -> (r: Option<Pose>)
        ensures
            r == pose_of_name(name@),
            name@ == "DabR"@ ==> r == Some(Pose::DabR),
            name@ == "DabL"@ ==> r == Some(Pose::DabL),
            name@ == "HandsUp"@ ==> r == Some(Pose::HandsUp),
            name@ == "Roof"@ ==> r == Some(Pose::Roof),
            name@ == "FlyingR"@ ==> r == Some(Pose::FlyingR),
            name@ == "FlyingL"@ ==> r == Some(Pose::FlyingL),
    {
        proof {
            lemma_names_differ();
            assert(pose_of_name(name_of(Pose::DabR)) == Some(Pose::DabR));
            assert(pose_of_name(name_of(Pose::DabL)) == Some(Pose::DabL));
            assert(pose_of_name(name_of(Pose::HandsUp)) == Some(Pose::HandsUp));
            assert(pose_of_name(name_of(Pose::Roof)) == Some(Pose::Roof));
            assert(pose_of_name(name_of(Pose::FlyingR)) == Some(Pose::FlyingR));
            assert(pose_of_name(name_of(Pose::FlyingL)) == Some(Pose::FlyingL));
        }
        if same_text(name, "DabR") {
            Some(Pose::DabR)
        } else if same_text(name, "DabL") {
            Some(Pose::DabL)
        } else if same_text(name, "HandsUp") {
            Some(Pose::HandsUp)
        } else if same_text(name, "Roof") {
            Some(Pose::Roof)
        } else if same_text(name, "FlyingR") {
            Some(Pose::FlyingR)
        } else if same_text(name, "FlyingL") {
            Some(Pose::FlyingL)
        } else {
            None
        }
    }

    /// The name of a pose, the one that [`Pose::from_name`] reads.
    pub fn name(&self) -> (r: &'static str)
        ensures
            r@ == name_of(*self),
            pose_of_name(r@) == Some(*self),
    {
        proof {
            lemma_names_differ();
            assert(pose_of_name(name_of(*self)) == Some(*self));
        }
        match self {
            Pose::DabR => "DabR",
            Pose::DabL => "DabL",
            Pose::HandsUp => "HandsUp",
            Pose::Roof => "Roof",
            Pose::FlyingR => "FlyingR",
            Pose::FlyingL => "FlyingL",
        }
    }

    /// The place of the pose in the order of declaration.
    pub fn index(&self) -> (r: usize)
        ensures
            r == pose_index(*self),
            r < POSE_COUNT,
            pose_at(r as int) == *self,
    {
        match self {
            Pose::DabR => 0,
            Pose::DabL => 1,
            Pose::HandsUp => 2,
            Pose::Roof => 3,
            Pose::FlyingR => 4,
            Pose::FlyingL => 5,
        }
    }

    /// The pose at a place of the order of declaration; `None` beyond the
    /// last pose.
    pub fn from_index(index: usize) -> (r: Option<Pose>)
        ensures
            r is Some <==> index < POSE_COUNT,
            r matches Some(pose) ==> pose == pose_at(index as int) && pose_index(pose) == index,
    {
        if index == 0 {
            Some(Pose::DabR)
        } else if index == 1 {
            Some(Pose::DabL)
        } else if index == 2 {
            Some(Pose::HandsUp)
        } else if index == 3 {
            Some(Pose::Roof)
        } else if index == 4 {
            Some(Pose::FlyingR)
        } else if index == 5 {
            Some(Pose::FlyingL)
        } else {
            None
        }
    }
}

/// No two poses share a name: the name of a pose stands for that pose.
pub proof fn lemma_names_differ()
    ensures
        forall|pose: Pose| #[trigger] pose_of_name(name_of(pose)) == Some(pose),
{
    reveal_strlit("DabR");
    reveal_strlit("DabL");
    reveal_strlit("HandsUp");
    reveal_strlit("Roof");
    reveal_strlit("FlyingR");
    reveal_strlit("FlyingL");
    assert("DabL"@[3] != "DabR"@[3]);
    assert("Roof"@[0] != "DabR"@[0]);
    assert("Roof"@[0] != "DabL"@[0]);
    assert("FlyingR"@[0] != "HandsUp"@[0]);
    assert("FlyingL"@[0] != "HandsUp"@[0]);
    assert("FlyingL"@[6] != "FlyingR"@[6]);
}

/// A reference pose as it is stored and exchanged: a name, and the joints
/// with their positions, in the order in which they were recorded.
#[derive(Debug)]
pub struct PoseRecord {
    pub name: String,
    pub data: Vec<(Joint2DType, Position2D)>,
}

/// The library of reference poses: for each pose that it knows, the joints of
/// that pose. It is built once and only read while matching.
#[derive(Clone, Copy, Debug)]
pub struct PoseData {
    slots: [Option<JointPos>; 6],
}

impl View for PoseData {
    type V = Map<Pose, Map<Joint2DType, Position2D>>;

    closed spec fn view(&self) -> Map<Pose, Map<Joint2DType, Position2D>> {
        Map::new(
            |pose: Pose| self.slots@[pose_index(pose)] is Some,
            |pose: Pose| self.slots@[pose_index(pose)]->0@,
        )
    }
}

/// The library that a list of records builds up. A record whose name is no
/// pose's is passed over; of two records of one pose the later stays.
pub open spec fn library_of(records: Seq<PoseRecord>) -> Map<Pose, Map<Joint2DType, Position2D>>
    decreases records.len(),
{
    if records.len() == 0 {
        Map::empty()
    } else {
        let earlier = library_of(records.drop_last());
        match pose_of_name(records.last().name@) {
            Some(pose) => earlier.insert(pose, map_of_pairs(records.last().data@)),
            None => earlier,
        }
    }
}

impl PoseData {
    /// The library that knows no pose.
    pub fn new() -> (r: PoseData)
        ensures
            r@ == Map::<Pose, Map<Joint2DType, Position2D>>::empty(),
    {
        let r = PoseData { slots: [None; 6] };
        assert(r@ =~= Map::<Pose, Map<Joint2DType, Position2D>>::empty());
        r
    }

    /// Gives `pose` the joints `joints`, in place of those it had, if any.
    pub fn insert(&mut self, pose: Pose, joints: JointPos)
        ensures
            final(self)@ == old(self)@.insert(pose, joints@),
    {
        let index = pose.index();
        self.slots[index] = Some(joints);
        assert(final(self)@ =~= old(self)@.insert(pose, joints@));
    }

    /// The joints of `pose`, if the library knows it.
    pub fn get(&self, pose: Pose) -> (r: Option<&JointPos>)
        ensures
            r is Some <==> self@.contains_key(pose),
            r matches Some(joints) ==> joints@ == self@[pose],
    {
        self.slots[pose.index()].as_ref()
    }

    /// Whether the library knows `pose`.
    pub fn contains_key(&self, pose: Pose) -> (r: bool)
        ensures
            r == self@.contains_key(pose),
    {
        self.get(pose).is_some()
    }

    /// Builds the library of a list of records.
    pub fn from_records(records: &Vec<PoseRecord>) -> (r: PoseData)
        ensures
            r@ == library_of(records@),
    {
        let mut library = PoseData::new();
        let mut i: usize = 0;
        while i < records.len()
            invariant
                i <= records.len(),
                library@ == library_of(records@.take(i as int)),
            decreases records.len() - i,
        {
            let record = &records[i];
            assert(records@.take(i + 1).drop_last() =~= records@.take(i as int));
            match Pose::from_name(record.name.as_str()) {
                Some(pose) => {
                    library.insert(pose, JointPos::from_pairs(&record.data));
                },
                None => {},
            }
            i += 1;
        }
        assert(records@.take(i as int) =~= records@);
        library
    }
}

} // verus!
