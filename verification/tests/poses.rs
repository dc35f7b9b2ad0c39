use nalgebra as na;
use nalgebra_glm as glm;

use glm::Vec2;
use nuitrack_pose_estimation::{
    chains_measurable, reflection_guard, Alignment, Arms, Detector, Joint, Joint2DType, JointPos,
    Pose, PoseData, Position2D, Scalar, Settings,
};

type Mat2x8 = na::SMatrix<f32, 2, 8>;

const DAB_R: (&'static str, [(Joint2DType, (f32, f32)); 8]) = (
    "DabR",
    [
        (Joint2DType::LeftShoulder, (0.68835175, 0.49775392)),
        (Joint2DType::LeftElbow, (0.5864927, 0.5303629)),
        (Joint2DType::LeftWrist, (0.45776764, 0.40316057)),
        (Joint2DType::LeftHand, (0.43292272, 0.37860954)),
        (Joint2DType::RightShoulder, (0.51725876, 0.48693466)),
        (Joint2DType::RightElbow, (0.3500515, 0.41818976)),
        (Joint2DType::RightWrist, (0.20907341, 0.3226182)),
        (Joint2DType::RightHand, (0.1777911, 0.30141133)),
    ],
);

fn scalar(v: f32) -> Scalar {
    Scalar::from_bits(v.to_bits())
}

fn number(s: Scalar) -> f32 {
    f32::from_bits(s.to_bits())
}

fn position(v: Vec2) -> Position2D {
    Position2D::new(scalar(v.x), scalar(v.y))
}

fn vector(p: Position2D) -> Vec2 {
    glm::vec2(number(p.x), number(p.y))
}

fn columns(arms: &Arms) -> Vec<Vec2> {
    arms.to_vec().into_iter().map(vector).collect()
}

fn arms_of_matrix(m: &Mat2x8) -> Arms {
    let points: Vec<Position2D> = (0..8).map(|i| position(Vec2::from(m.column(i)))).collect();
    Arms::from_points(&points).expect("eight columns")
}

/// The length of both arm chains, each from the shoulder to the hand.
fn chain_length(points: &[Vec2]) -> f32 {
    let mut total = 0.0;
    for arm in 0..2 {
        for i in 0..3 {
            let k = arm * 4 + i;
            total += glm::l2_norm(&(points[k + 1] - points[k]));
        }
    }
    total
}

fn centred(m: &Mat2x8) -> Mat2x8 {
    let mut centre = glm::vec2(0.0, 0.0);
    for i in 0..8 {
        centre += m.column(i);
    }
    centre /= 8.0;
    let mut out = *m;
    for i in 0..8 {
        let mut col = glm::column(&out, i);
        col -= centre;
        out = glm::set_column(&out, i, &col);
    }
    out
}

/// Fits the reference arms onto the live arms by a uniform scale and a rotation.
fn kabsch(reference: Arms, live: Arms) -> Option<Alignment> {
    let reference = columns(&reference);
    let live = columns(&live);
    let total_reference = chain_length(&reference);
    let total_live = chain_length(&live);
    if !chains_measurable(scalar(total_live), scalar(total_reference)) {
        return None;
    }
    let scale = total_reference / total_live;
    let mut m_reference = Mat2x8::from_columns(&reference[..]);
    m_reference /= scale;
    let m_reference = centred(&m_reference);
    let m_live = centred(&Mat2x8::from_columns(&live[..]));

    let cov = m_reference * m_live.transpose();
    let svd = cov.svd(true, true);
    let (u, v_t) = match (svd.u, svd.v_t) {
        (Some(u), Some(v_t)) => (u, v_t),
        _ => return None,
    };
    let v = v_t.transpose();
    let d = (v * u.transpose()).determinant();
    let d = number(reflection_guard(scalar(d)));
    let i = glm::identity::<f32, 2>();
    let mut col_i = glm::column(&i, 1);
    col_i[1] = d;
    let i = glm::set_column(&i, 1, &col_i);
    let r = v * i * u.transpose();
    let angle = na::Rotation2::from_matrix_unchecked(r).angle();

    Some(Alignment {
        rotation_angle: scalar(angle),
        aligned_live: arms_of_matrix(&m_live),
        aligned_reference: arms_of_matrix(&(r * m_reference)),
    })
}

fn distance(p: Position2D, q: Position2D) -> Scalar {
    scalar(glm::distance(&vector(p), &vector(q)))
}

fn joint_pos(data: &[(Joint2DType, (f32, f32))]) -> JointPos {
    let pairs: Vec<(Joint2DType, Position2D)> = data
        .iter()
        .map(|&(ty, (x, y))| (ty, position(glm::vec2(x, y))))
        .collect();
    JointPos::from_pairs(&pairs)
}

fn dab_r() -> PoseData {
    let name = Pose::from_name(DAB_R.0).expect("a pose name");
    let mut poses = PoseData::new();
    poses.insert(name, joint_pos(&DAB_R.1));
    poses
}

fn skeleton(joints: &[(u32, Vec2)]) -> Vec<Joint> {
    joints
        .iter()
        .map(|&(type_, v)| Joint::new(type_, position(v)))
        .collect()
}

fn identity_mock() -> Vec<(u32, Vec2)> {
    vec![
        (6, glm::vec2(0.68835175, 0.49775392)),
        (7, glm::vec2(0.5864927, 0.5303629)),
        (8, glm::vec2(0.45776764, 0.40316057)),
        (9, glm::vec2(0.43292272, 0.37860954)),
        (12, glm::vec2(0.51725876, 0.48693466)),
        (13, glm::vec2(0.3500515, 0.41818976)),
        (14, glm::vec2(0.20907341, 0.3226182)),
        (15, glm::vec2(0.1777911, 0.30141133)),
    ]
}

fn settings(rotation_cutoff: f32, joint_cutoff: f32) -> Settings {
    Settings {
        rotation_cutoff: scalar(rotation_cutoff),
        joint_cutoff: scalar(joint_cutoff),
    }
}

/// The mock turned by `angle` about the middle of its points.
fn turned(mock: &[(u32, Vec2)], angle: f32) -> Vec<(u32, Vec2)> {
    let mut centre = glm::vec2(0.0, 0.0);
    for (_, v) in mock {
        centre += *v;
    }
    centre /= mock.len() as f32;
    let (s, c) = angle.sin_cos();
    mock.iter()
        .map(|&(code, v)| {
            let w = v - centre;
            (code, centre + glm::vec2(c * w.x - s * w.y, s * w.x + c * w.y))
        })
        .collect()
}

#[test]
fn match_identity() {
    let mock_skeleton = identity_mock();
    let settings = Settings {
        rotation_cutoff: scalar(0.34),
        joint_cutoff: scalar(0.01),
    };
    let skeleton = skeleton(&mock_skeleton);
    let tester = Detector::with_poses(settings, dab_r());
    let result = tester.detect(&skeleton, kabsch, distance);
    assert_eq!(result, Some(Pose::DabR));
}

#[test]
fn match_close() {
    let mut mock_skeleton = identity_mock();
    mock_skeleton[5].1 = glm::vec2(0.3501515, 0.41818976);
    mock_skeleton[6].1 = glm::vec2(0.20917341, 0.3226182);
    mock_skeleton[7].1 = glm::vec2(0.1778911, 0.30141133);
    let settings = Settings {
        rotation_cutoff: scalar(0.34),
        joint_cutoff: scalar(0.01),
    };
    let skeleton = skeleton(&mock_skeleton);
    let tester = Detector::with_poses(settings, dab_r());
    let result = tester.detect(&skeleton, kabsch, distance);
    assert_eq!(result, Some(Pose::DabR));
}

#[test]
fn nomatch_joint_cutoff() {
    let mut mock_skeleton = identity_mock();
    mock_skeleton[5].1 = glm::vec2(0.4500515, 0.41818976);
    mock_skeleton[6].1 = glm::vec2(0.30907341, 0.3226182);
    mock_skeleton[7].1 = glm::vec2(0.2777911, 0.30141133);
    let settings = Settings {
        rotation_cutoff: scalar(0.34),
        joint_cutoff: scalar(0.01),
    };
    let skeleton = skeleton(&mock_skeleton);
    let tester = Detector::with_poses(settings, dab_r());
    let result = tester.detect(&skeleton, kabsch, distance);
    assert_eq!(result, None);
}

#[test]
fn nomatch_rotation_cutoff() {
    let mut mock_skeleton = identity_mock();
    mock_skeleton[5].1 = glm::vec2(0.264197101006, 0.663852311753);
    mock_skeleton[5].1 = glm::vec2(0.139708055532, 0.528565662165);
    mock_skeleton[6].1 = glm::vec2(0.0531405166554, 0.38074962801);
    mock_skeleton[7].1 = glm::vec2(0.0337515260423, 0.348309201115);
    let settings = Settings {
        rotation_cutoff: scalar(0.34),
        joint_cutoff: scalar(0.01),
    };
    let skeleton = skeleton(&mock_skeleton);
    let tester = Detector::with_poses(settings, dab_r());
    let result = tester.detect(&skeleton, kabsch, distance);
    assert_eq!(result, None);
}

#[test]
fn match_allign() {
    let mut mock_skeleton = identity_mock();
    for m in mock_skeleton.iter_mut() {
        m.1.x += 0.2;
        m.1.y += 0.2;
    }
    let settings = Settings {
        rotation_cutoff: scalar(0.34),
        joint_cutoff: scalar(0.01),
    };
    let skeleton = skeleton(&mock_skeleton);
    let tester = Detector::with_poses(settings, dab_r());
    let result = tester.detect(&skeleton, kabsch, distance);
    assert_eq!(result, Some(Pose::DabR));
}

#[test]
fn match_scale() {
    let mut mock_skeleton = identity_mock();
    for m in mock_skeleton.iter_mut() {
        m.1 *= 1.2;
    }
    let settings = Settings {
        rotation_cutoff: scalar(0.34),
        joint_cutoff: scalar(0.01),
    };
    let skeleton = skeleton(&mock_skeleton);
    let tester = Detector::with_poses(settings, dab_r());
    let result = tester.detect(&skeleton, kabsch, distance);
    assert_eq!(result, Some(Pose::DabR));
}

fn rounded_dab_r() -> Vec<(u32, Vec2)> {
    vec![
        (12, glm::vec2(0.517, 0.487)),
        (13, glm::vec2(0.350, 0.418)),
        (14, glm::vec2(0.209, 0.323)),
        (15, glm::vec2(0.178, 0.301)),
        (6, glm::vec2(0.688, 0.498)),
        (7, glm::vec2(0.586, 0.530)),
        (8, glm::vec2(0.458, 0.403)),
        (9, glm::vec2(0.433, 0.379)),
    ]
}

fn rounded_library() -> PoseData {
    let pairs: Vec<(Joint2DType, Position2D)> = rounded_dab_r()
        .iter()
        .map(|&(code, v)| (Joint2DType::from_code(code).expect("a joint code"), position(v)))
        .collect();
    let mut poses = PoseData::new();
    poses.insert(Pose::DabR, JointPos::from_pairs(&pairs));
    poses
}

#[test]
fn rounded_dab_r_matches_itself() {
    let detector = Detector::with_poses(settings(0.34, 0.01), rounded_library());
    let result = detector.detect(&skeleton(&rounded_dab_r()), kabsch, distance);
    assert_eq!(result, Some(Pose::DabR));
}

#[test]
fn rounded_dab_r_with_shifted_elbow_is_rejected() {
    let mut mock = rounded_dab_r();
    assert_eq!(mock[1].0, 13);
    mock[1].1 = glm::vec2(0.450, 0.418);
    let detector = Detector::with_poses(settings(0.34, 0.01), rounded_library());
    let result = detector.detect(&skeleton(&mock), kabsch, distance);
    assert_eq!(result, None);
}

#[test]
fn every_builtin_pose_matches_itself() {
    let library = nuitrack_pose_estimation::load();
    let detector = Detector::with_poses(settings(0.34, 0.01), library);
    let poses = [
        Pose::DabR,
        Pose::DabL,
        Pose::HandsUp,
        Pose::Roof,
        Pose::FlyingR,
        Pose::FlyingL,
    ];
    for pose in poses {
        let reference = detector.poses.get(pose).expect("a builtin pose");
        let arms = nuitrack_pose_estimation::arms(reference)
            .ok()
            .expect("eight arm joints");
        let codes = [12, 13, 14, 15, 6, 7, 8, 9];
        let frame: Vec<Joint> = arms
            .to_vec()
            .into_iter()
            .zip(codes)
            .map(|(p, code)| Joint::new(code, p))
            .collect();
        assert_eq!(detector.detect(&frame, kabsch, distance), Some(pose));
        let score = detector
            .check_pose(reference, reference, &kabsch, &distance)
            .expect("a pose matches itself");
        assert!(number(score) < 1e-6);
    }
}

#[test]
fn translation_does_not_change_the_result() {
    let detector = Detector::with_poses(settings(0.34, 0.01), dab_r());
    for (dx, dy) in [(0.05, -0.1), (-0.15, 0.2), (0.3, 0.25)] {
        let mut matching = identity_mock();
        let mut failing = identity_mock();
        failing[5].1 = glm::vec2(0.4500515, 0.41818976);
        for m in matching.iter_mut().chain(failing.iter_mut()) {
            m.1.x += dx;
            m.1.y += dy;
        }
        assert_eq!(
            detector.detect(&skeleton(&matching), kabsch, distance),
            Some(Pose::DabR)
        );
        assert_eq!(detector.detect(&skeleton(&failing), kabsch, distance), None);
    }
}

#[test]
fn scaling_does_not_change_the_result() {
    let detector = Detector::with_poses(settings(0.34, 0.01), dab_r());
    for factor in [0.5, 0.8, 1.3] {
        let mut matching = identity_mock();
        let mut failing = identity_mock();
        failing[5].1 = glm::vec2(0.4500515, 0.41818976);
        for m in matching.iter_mut().chain(failing.iter_mut()) {
            m.1 *= factor;
        }
        assert_eq!(
            detector.detect(&skeleton(&matching), kabsch, distance),
            Some(Pose::DabR)
        );
        assert_eq!(detector.detect(&skeleton(&failing), kabsch, distance), None);
    }
}

#[test]
fn rotation_matches_up_to_the_cutoff() {
    let detector = Detector::with_poses(settings(0.34, 0.05), dab_r());
    for degrees in [-19.0f32, -15.0, -5.0, 5.0, 15.0, 19.0] {
        let mock = turned(&identity_mock(), degrees.to_radians());
        assert_eq!(
            detector.detect(&skeleton(&mock), kabsch, distance),
            Some(Pose::DabR),
            "turned by {} degrees",
            degrees
        );
    }
    for degrees in [-30.0f32, -20.0, 20.0, 25.0] {
        let mock = turned(&identity_mock(), degrees.to_radians());
        assert_eq!(
            detector.detect(&skeleton(&mock), kabsch, distance),
            None,
            "turned by {} degrees",
            degrees
        );
    }
}

#[test]
fn fitted_angle_is_the_angle_turned_by() {
    let reference = joint_pos(&DAB_R.1);
    let detector = Detector::with_poses(settings(3.0, 0.05), dab_r());
    let live = nuitrack_pose_estimation::joints_map(&skeleton(&turned(
        &identity_mock(),
        0.25,
    )));
    let report = detector
        .assess(&reference, &live, &kabsch, &distance)
        .expect("a report");
    assert!((number(report.rotation) - 0.25).abs() < 1e-4);
    assert!(number(report.max_dist) < 1e-5);
}

#[test]
fn raising_a_cutoff_never_loses_a_match() {
    let mut shifted = identity_mock();
    shifted[5].1 = glm::vec2(0.4500515, 0.41818976);
    let frames = [
        identity_mock(),
        shifted,
        turned(&identity_mock(), 0.3),
        turned(&identity_mock(), 0.5),
    ];
    let cutoffs = [0.001f32, 0.01, 0.1, 0.34, 0.6, 1.0];
    for frame in frames.iter() {
        let frame = skeleton(frame);
        for (i, &rotation) in cutoffs.iter().enumerate() {
            for (j, &joint) in cutoffs.iter().enumerate() {
                let tight = Detector::with_poses(settings(rotation, joint), dab_r());
                if tight.detect(&frame, kabsch, distance).is_none() {
                    continue;
                }
                for &more_rotation in &cutoffs[i..] {
                    for &more_joint in &cutoffs[j..] {
                        let loose =
                            Detector::with_poses(settings(more_rotation, more_joint), dab_r());
                        assert_eq!(loose.detect(&frame, kabsch, distance), Some(Pose::DabR));
                    }
                }
            }
        }
    }
}

#[test]
fn shifted_elbow_matches_once_the_cutoff_is_raised() {
    let mut mock = identity_mock();
    mock[5].1 = glm::vec2(0.4500515, 0.41818976);
    let frame = skeleton(&mock);
    let tight = Detector::with_poses(settings(0.34, 0.01), dab_r());
    let loose = Detector::with_poses(settings(0.34, 0.2), dab_r());
    assert_eq!(tight.detect(&frame, kabsch, distance), None);
    assert_eq!(loose.detect(&frame, kabsch, distance), Some(Pose::DabR));
}

#[test]
fn a_missing_arm_joint_matches_nothing() {
    let detector = Detector::with_poses(settings(10.0, 10.0), dab_r());
    assert_eq!(
        detector.detect(&skeleton(&identity_mock()), kabsch, distance),
        Some(Pose::DabR)
    );
    for missing in 0..8 {
        let mut mock = identity_mock();
        mock.remove(missing);
        assert_eq!(detector.detect(&skeleton(&mock), kabsch, distance), None);
    }
    assert_eq!(detector.detect(&skeleton(&[]), kabsch, distance), None);
}

#[test]
fn a_joint_out_of_the_frame_is_dropped() {
    let detector = Detector::with_poses(settings(10.0, 10.0), dab_r());
    for outside in [
        glm::vec2(1.2, 0.4),
        glm::vec2(-0.1, 0.4),
        glm::vec2(0.4, 1.0000001),
        glm::vec2(0.4, -0.0000001),
        glm::vec2(f32::NAN, 0.4),
        glm::vec2(0.4, f32::INFINITY),
    ] {
        let mut mock = identity_mock();
        mock[2].1 = outside;
        assert_eq!(detector.detect(&skeleton(&mock), kabsch, distance), None);
    }
    for edge in [glm::vec2(1.0, 1.0), glm::vec2(0.0, 0.0), glm::vec2(-0.0, 1.0)] {
        let mut mock = identity_mock();
        mock[2].1 = edge;
        assert_eq!(
            detector.detect(&skeleton(&mock), kabsch, distance),
            Some(Pose::DabR)
        );
    }
}

#[test]
fn other_readings_do_not_disturb() {
    let detector = Detector::with_poses(settings(0.34, 0.01), dab_r());
    let mut mock = identity_mock();
    mock.insert(0, (1, glm::vec2(0.58, 0.42)));
    mock.insert(3, (99, glm::vec2(0.5, 0.5)));
    mock.push((17, glm::vec2(0.64, 0.7)));
    mock.push((0, glm::vec2(0.0, 0.0)));
    assert_eq!(
        detector.detect(&skeleton(&mock), kabsch, distance),
        Some(Pose::DabR)
    );
}

#[test]
fn the_later_of_two_readings_counts() {
    let detector = Detector::with_poses(settings(0.34, 0.01), dab_r());
    let mut mock = identity_mock();
    mock.insert(0, (13, glm::vec2(0.9, 0.9)));
    assert_eq!(
        detector.detect(&skeleton(&mock), kabsch, distance),
        Some(Pose::DabR)
    );
    mock.push((13, glm::vec2(0.9, 0.9)));
    assert_eq!(detector.detect(&skeleton(&mock), kabsch, distance), None);
}

#[test]
fn a_mirrored_skeleton_is_not_taken_for_the_pose() {
    let detector = Detector::with_poses(settings(3.2, 0.05), dab_r());
    let mirrored: Vec<(u32, Vec2)> = identity_mock()
        .iter()
        .map(|&(code, v)| (code, glm::vec2(1.0 - v.x, v.y)))
        .collect();
    assert_eq!(detector.detect(&skeleton(&mirrored), kabsch, distance), None);
    let reference = joint_pos(&DAB_R.1);
    let live = nuitrack_pose_estimation::joints_map(&skeleton(&mirrored));
    let loose = Detector::with_poses(settings(3.2, 10.0), dab_r());
    let report = loose
        .assess(&reference, &live, &kabsch, &distance)
        .expect("a report");
    assert!(number(report.max_dist) > 0.05);
}

#[test]
fn coinciding_joints_match_nothing() {
    let detector = Detector::with_poses(settings(10.0, 10.0), dab_r());
    let mock: Vec<(u32, Vec2)> = identity_mock()
        .iter()
        .map(|&(code, _)| (code, glm::vec2(0.5, 0.5)))
        .collect();
    assert_eq!(detector.detect(&skeleton(&mock), kabsch, distance), None);
}

#[test]
fn the_nearest_pose_wins() {
    let library = nuitrack_pose_estimation::load();
    let detector = Detector::with_poses(settings(3.2, 1.0), library);
    let dab_l = detector.poses.get(Pose::DabL).expect("a builtin pose");
    let arms = nuitrack_pose_estimation::arms(dab_l).ok().expect("arms");
    let codes = [12, 13, 14, 15, 6, 7, 8, 9];
    let frame: Vec<Joint> = arms
        .to_vec()
        .into_iter()
        .zip(codes)
        .map(|(p, code)| Joint::new(code, p))
        .collect();
    let live = nuitrack_pose_estimation::joints_map(&frame);
    let scores = detector.scores(&live, &kabsch, &distance);
    assert_eq!(scores.len(), 6);
    assert!(scores.iter().filter(|s| s.is_some()).count() > 1);
    assert_eq!(detector.detect(&frame, kabsch, distance), Some(Pose::DabL));
    let least = number(scores[1].expect("the score of the pose itself"));
    for s in scores.iter().flatten() {
        assert!(least <= number(*s));
    }
}

#[test]
fn of_equal_poses_the_first_declared_wins() {
    let mut late_first = PoseData::new();
    late_first.insert(Pose::FlyingL, joint_pos(&DAB_R.1));
    late_first.insert(Pose::Roof, joint_pos(&DAB_R.1));
    late_first.insert(Pose::HandsUp, joint_pos(&DAB_R.1));
    let detector = Detector::with_poses(settings(0.34, 0.01), late_first);
    assert_eq!(
        detector.detect(&skeleton(&identity_mock()), kabsch, distance),
        Some(Pose::HandsUp)
    );
}

#[test]
fn an_empty_library_matches_nothing() {
    let detector = Detector::with_poses(settings(10.0, 10.0), PoseData::new());
    assert_eq!(
        detector.detect(&skeleton(&identity_mock()), kabsch, distance),
        None
    );
}

#[test]
fn a_reference_without_all_arm_joints_matches_nothing() {
    let mut poses = PoseData::new();
    poses.insert(Pose::DabR, joint_pos(&DAB_R.1[..7]));
    let detector = Detector::with_poses(settings(10.0, 10.0), poses);
    assert_eq!(
        detector.detect(&skeleton(&identity_mock()), kabsch, distance),
        None
    );
}
