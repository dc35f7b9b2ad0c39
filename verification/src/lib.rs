//! Pose matching for tracked skeletons: a live set of arm joints is compared
//! with a library of reference poses, up to translation, uniform scale and
//! rotation in the image plane, and the best-fitting pose is named.
//!
//! A [`Detector`] picks the usable joints out of a frame ([`joints_map`]),
//! selects the eight arm joints of the skeleton and of each reference pose
//! ([`arms`]), has them fitted and measured, applies the rotation test and
//! the distance test ([`rotation_accepted`], [`furthest`], [`Report::score`])
//! and keeps the pose with the least score ([`closest`]). A [`Tester`] does
//! the same for one pose and records what was compared.
//!
//! Numbers are held as bit patterns ([`Scalar`]). Matching orders them and
//! never computes with them: the two routines that do, fitting and measuring,
//! are handed in by the caller, and the contracts say what is handed to them
//! and what follows from what they return ([`kernel`]). What holds of
//! matching whatever the routines are is in [`laws`].

pub mod arms;
pub mod detector;
pub mod joint_pos;
pub mod joints;
pub mod kernel;
pub mod laws;
pub mod pose;
pub mod poses;
pub mod rules;
pub mod scalar;

pub use arms::{arms, Arms, JointMissing};
pub use detector::{Detector, Lasts, Tester};
pub use joint_pos::{joints_map, JointPos};
pub use joints::{available_joints, j2d_to_j, Joint, Joint2DType, Position2D};
pub use kernel::{chains_measurable, pair_distances, reflection_guard, Alignment};
pub use pose::{Pose, PoseData, PoseRecord};
pub use poses::load;
pub use rules::{closest, furthest, rotation_accepted, Report, Settings};
pub use scalar::Scalar;
