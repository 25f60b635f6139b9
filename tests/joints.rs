use nalgebra::{Matrix3, Quaternion, Rotation3, Unit, UnitQuaternion, Vector3};
use rapier3d::utils::WBasis;
use rapier_joints::joint_set::{JointError, RawJointSet};
use rapier_joints::math::{RawRotation, RawVector, Real};
use rapier_joints::motor::RawSpringModel;
use rapier_joints::params::{FrameAlignment, JointParams, RawJointParams, RawJointType};

fn r(v: f32) -> Real {
    Real { bits: v.to_bits() }
}

fn f(v: Real) -> f32 {
    f32::from_bits(v.bits)
}

fn v(x: f32, y: f32, z: f32) -> RawVector {
    RawVector { x: r(x), y: r(y), z: r(z) }
}

fn to_na(a: &RawVector) -> Vector3<f32> {
    Vector3::new(f(a.x), f(a.y), f(a.z))
}

fn normalize(a: &RawVector) -> Option<RawVector> {
    Unit::try_new(to_na(a), 0.0).map(|u| v(u.x, u.y, u.z))
}

fn quat(w: f32, x: f32, y: f32, z: f32) -> Option<RawRotation> {
    UnitQuaternion::try_new(Quaternion::new(w, x, y, z), 1.0e-5)
        .map(|q| RawRotation { w: r(q.w), x: r(q.i), y: r(q.j), z: r(q.k) })
}

fn frame_rotation(frame: FrameAlignment) -> UnitQuaternion<f32> {
    match frame {
        FrameAlignment::Rotation(q) => UnitQuaternion::new_unchecked(Quaternion::new(
            f(q.w),
            f(q.x),
            f(q.y),
            f(q.z),
        )),
        FrameAlignment::AlignAxis(a) => {
            let axis = to_na(&a);
            let b0 = axis.orthonormal_basis()[0];
            let b1 = axis.cross(&b0);
            let m = Rotation3::from_matrix_unchecked(Matrix3::from_columns(&[axis, b0, b1]));
            UnitQuaternion::from_rotation_matrix(&m)
        }
    }
}

fn revolute(a1: RawVector, a2: RawVector) -> RawJointParams {
    RawJointParams::revolute(&v(0.0, 0.0, 0.0), normalize(&a1), &v(1.0, 0.0, 0.0), normalize(&a2))
        .unwrap()
}

fn prismatic(axis: RawVector, enabled: bool, min: f32, max: f32) -> RawJointParams {
    RawJointParams::prismatic(
        &v(0.0, 0.0, 0.0),
        normalize(&axis),
        normalize(&v(0.0, 0.0, 1.0)),
        &v(0.0, 1.0, 0.0),
        normalize(&axis),
        normalize(&v(0.0, 0.0, 1.0)),
        enabled,
        r(min),
        r(max),
    )
    .unwrap()
}

fn fixed() -> RawJointParams {
    RawJointParams::fixed(
        &v(1.0, 2.0, 3.0),
        &quat(1.0, 1.0, 0.0, 0.0).unwrap(),
        &v(4.0, 5.0, 6.0),
        &RawRotation { w: r(1.0), x: r(0.0), y: r(0.0), z: r(0.0) },
    )
}

fn assert_maps_x_onto(q: UnitQuaternion<f32>, axis: Vector3<f32>, tol: f32) {
    let image = q * Vector3::x();
    assert!((image - axis).norm() <= tol, "{:?} vs {:?}", image, axis);
    let m = q.to_rotation_matrix().into_inner();
    assert!((m.transpose() * m - Matrix3::identity()).norm() <= 1.0e-5);
    assert!((m.determinant() - 1.0).abs() <= 1.0e-5);
}

#[test]
fn ball_joint_scenario() {
    let mut set = RawJointSet::new();
    let h = set.insert(0, 1, &RawJointParams::ball(&v(0.0, 0.0, 0.0), &v(1.0, 0.0, 0.0)));
    assert_eq!(set.jointType(h), Ok(RawJointType::Ball));
    assert_eq!(set.jointAxis1(h), Ok(None));
    assert_eq!(set.jointAxis2(h), Ok(None));
    assert_eq!(set.jointFrameX1(h), Ok(FrameAlignment::Rotation(RawRotation::identity())));
    assert_eq!(frame_rotation(set.jointFrameX1(h).unwrap()), UnitQuaternion::identity());
    assert_eq!(set.jointAnchor2(h), Ok(v(1.0, 0.0, 0.0)));
    assert_eq!(set.jointBodyHandle1(h), Ok(0));
    assert_eq!(set.jointBodyHandle2(h), Ok(1));
}

#[test]
fn ball_motor_starts_disabled() {
    match RawJointParams::ball(&v(0.0, 0.0, 0.0), &v(1.0, 0.0, 0.0)).0 {
        JointParams::Ball(b) => {
            assert_eq!(b.motor.model, RawSpringModel::Disabled);
            assert_eq!(b.motor.target_pos, RawRotation::identity());
        }
        _ => panic!("not a ball joint"),
    }
}

#[test]
fn revolute_frame_maps_x_onto_axis() {
    let mut set = RawJointSet::new();
    let h = set.insert(0, 1, &revolute(v(0.0, 1.0, 0.0), v(0.0, 1.0, 0.0)));
    assert_eq!(set.jointType(h), Ok(RawJointType::Revolute));
    let frame = set.jointFrameX1(h).unwrap();
    assert_eq!(frame, FrameAlignment::AlignAxis(v(0.0, 1.0, 0.0)));
    assert_maps_x_onto(frame_rotation(frame), Vector3::new(0.0, 1.0, 0.0), 1.0e-6);
}

#[test]
fn frames_map_x_onto_many_axes() {
    let axes = [
        (1.0, 0.0, 0.0),
        (0.0, 0.0, 1.0),
        (0.0, 0.0, -1.0),
        (1.0, 2.0, 3.0),
        (-3.0, 0.5, -0.25),
        (0.0, -1.0, 0.0),
    ];
    for (x, y, z) in axes {
        let mut set = RawJointSet::new();
        let h1 = set.insert(0, 1, &revolute(v(x, y, z), v(z, x, y)));
        let h2 = set.insert(0, 1, &prismatic(v(x, y, z), false, 0.0, 0.0));
        let a = Vector3::new(x, y, z).normalize();
        let b = Vector3::new(z, x, y).normalize();
        assert_maps_x_onto(frame_rotation(set.jointFrameX1(h1).unwrap()), a, 1.0e-5);
        assert_maps_x_onto(frame_rotation(set.jointFrameX2(h1).unwrap()), b, 1.0e-5);
        assert_maps_x_onto(frame_rotation(set.jointFrameX1(h2).unwrap()), a, 1.0e-5);
    }
}

#[test]
fn fixed_frame_is_the_stored_rotation() {
    let mut set = RawJointSet::new();
    let h = set.insert(2, 3, &fixed());
    assert_eq!(set.jointFrameX1(h), Ok(FrameAlignment::Rotation(quat(1.0, 1.0, 0.0, 0.0).unwrap())));
    assert_eq!(set.jointAnchor1(h), Ok(v(1.0, 2.0, 3.0)));
    assert_eq!(set.jointAnchor2(h), Ok(v(4.0, 5.0, 6.0)));
    assert_eq!(set.jointAxis1(h), Ok(None));
}

#[test]
fn zero_axis_rejects_prismatic() {
    let zero = v(0.0, 0.0, 0.0);
    assert!(normalize(&zero).is_none());
    let one = normalize(&v(1.0, 0.0, 0.0));
    let t = normalize(&v(0.0, 1.0, 0.0));
    let args = [(normalize(&zero), one), (one, normalize(&zero)), (None, None)];
    for (a1, a2) in args {
        let p = RawJointParams::prismatic(&zero, a1, t, &zero, a2, t, true, r(-1.0), r(2.0));
        assert!(p.is_none());
    }
}

#[test]
fn zero_axis_rejects_revolute() {
    let zero = v(0.0, 0.0, 0.0);
    let one = normalize(&v(0.0, 0.0, 2.0));
    assert_eq!(one, Some(v(0.0, 0.0, 1.0)));
    assert!(RawJointParams::revolute(&zero, normalize(&zero), &zero, one).is_none());
    assert!(RawJointParams::revolute(&zero, one, &zero, normalize(&zero)).is_none());
    assert!(RawJointParams::revolute(&zero, one, &zero, one).is_some());
}

#[test]
fn anchor_round_trip() {
    let mut set = RawJointSet::new();
    let hs = [
        set.insert(0, 1, &RawJointParams::ball(&v(0.0, 0.0, 0.0), &v(1.0, 0.0, 0.0))),
        set.insert(0, 1, &revolute(v(0.0, 1.0, 0.0), v(0.0, 1.0, 0.0))),
        set.insert(0, 1, &prismatic(v(1.0, 0.0, 0.0), false, 0.0, 0.0)),
    ];
    for h in hs {
        assert_eq!(set.setJointAnchor1(h, &v(0.5, -2.0, 7.25)), Ok(()));
        assert_eq!(set.setJointAnchor2(h, &v(-0.125, 3.0, 1.0e-7)), Ok(()));
        assert_eq!(set.jointAnchor1(h), Ok(v(0.5, -2.0, 7.25)));
        assert_eq!(set.jointAnchor2(h), Ok(v(-0.125, 3.0, 1.0e-7)));
    }
}

#[test]
fn fixed_anchor_is_not_moved() {
    let mut set = RawJointSet::new();
    let h = set.insert(0, 1, &fixed());
    assert_eq!(set.setJointAnchor1(h, &v(9.0, 9.0, 9.0)), Ok(()));
    assert_eq!(set.setJointAnchor2(h, &v(9.0, 9.0, 9.0)), Ok(()));
    assert_eq!(set.jointAnchor1(h), Ok(v(1.0, 2.0, 3.0)));
    assert_eq!(set.jointAnchor2(h), Ok(v(4.0, 5.0, 6.0)));
}

#[test]
fn repeated_reads_agree() {
    let mut set = RawJointSet::new();
    let h = set.insert(0, 1, &prismatic(v(1.0, 2.0, 3.0), true, -1.0, 2.0));
    for _ in 0..3 {
        assert_eq!(set.jointAnchor1(h), set.jointAnchor1(h));
        assert_eq!(set.jointAxis1(h), set.jointAxis1(h));
        assert_eq!(set.jointAxis2(h), set.jointAxis2(h));
        assert_eq!(set.jointFrameX1(h), set.jointFrameX1(h));
        assert_eq!(set.jointLimitsMin(h), set.jointLimitsMin(h));
        assert_eq!(set.jointLimitsMax(h), set.jointLimitsMax(h));
    }
    assert_eq!(set.get(h), set.get(h));
}

#[test]
fn prismatic_limits_exact() {
    let mut set = RawJointSet::new();
    let h = set.insert(0, 1, &prismatic(v(1.0, 0.0, 0.0), true, -1.0, 2.0));
    assert_eq!(set.jointLimitsEnabled(h), Ok(true));
    assert_eq!(f(set.jointLimitsMin(h).unwrap()), -1.0);
    assert_eq!(f(set.jointLimitsMax(h).unwrap()), 2.0);
    let g = set.insert(0, 1, &prismatic(v(1.0, 0.0, 0.0), false, -1.0, 2.0));
    assert_eq!(set.jointLimitsEnabled(g), Ok(false));
    assert_eq!(f(set.jointLimitsMin(g).unwrap()), -f32::MAX);
    assert_eq!(f(set.jointLimitsMax(g).unwrap()), f32::MAX);
}

#[test]
fn other_joints_report_unbounded_limits() {
    let mut set = RawJointSet::new();
    let hs = [
        set.insert(0, 1, &RawJointParams::ball(&v(0.0, 0.0, 0.0), &v(1.0, 0.0, 0.0))),
        set.insert(0, 1, &revolute(v(0.0, 1.0, 0.0), v(0.0, 1.0, 0.0))),
        set.insert(0, 1, &fixed()),
    ];
    for h in hs {
        assert_eq!(set.jointLimitsEnabled(h), Ok(false));
        assert_eq!(f(set.jointLimitsMin(h).unwrap()), -f32::MAX);
        assert_eq!(f(set.jointLimitsMax(h).unwrap()), f32::MAX);
    }
}

#[test]
fn motors_leave_fixed_joint_unchanged() {
    let mut set = RawJointSet::new();
    let h = set.insert(0, 1, &fixed());
    let before = set.get(h);
    let q = quat(0.0, 0.0, 1.0, 0.0);
    assert_eq!(set.jointConfigureMotorModel(h, RawSpringModel::ForceBased), Ok(()));
    assert_eq!(set.jointConfigureBallMotorVelocity(h, r(1.0), r(2.0), r(3.0), r(0.5)), Ok(()));
    assert_eq!(set.jointConfigureBallMotorPosition(h, q, r(1.0), r(2.0)), Ok(()));
    assert_eq!(set.jointConfigureBallMotor(h, q, r(1.0), r(2.0), r(3.0), r(4.0), r(5.0)), Ok(()));
    assert_eq!(set.jointConfigureUnitMotorVelocity(h, r(1.0), r(2.0)), Ok(()));
    assert_eq!(set.jointConfigureUnitMotorPosition(h, r(1.0), r(2.0), r(3.0)), Ok(()));
    assert_eq!(set.jointConfigureUnitMotor(h, r(1.0), r(2.0), r(3.0), r(4.0)), Ok(()));
    assert_eq!(set.get(h), before);
    assert_eq!(set.jointType(h), Ok(RawJointType::Fixed));
    assert_eq!(set.jointAnchor1(h), Ok(v(1.0, 2.0, 3.0)));
}

#[test]
fn unit_motor_configuration() {
    let mut set = RawJointSet::new();
    let h = set.insert(0, 1, &prismatic(v(1.0, 0.0, 0.0), false, 0.0, 0.0));
    set.jointConfigureMotorModel(h, RawSpringModel::AccelerationBased).unwrap();
    set.jointConfigureUnitMotor(h, r(3.0), r(4.0), r(5.0), r(6.0)).unwrap();
    set.jointConfigureUnitMotorVelocity(h, r(7.0), r(0.5)).unwrap();
    let JointParams::Prismatic(p) = set.get(h).unwrap().params else { panic!("kind") };
    assert_eq!(p.motor.model, RawSpringModel::AccelerationBased);
    assert_eq!((f(p.motor.target_pos), f(p.motor.target_vel)), (3.0, 7.0));
    assert_eq!((f(p.motor.stiffness), f(p.motor.damping)), (0.0, 0.5));
    set.jointConfigureUnitMotorPosition(h, r(-1.5), r(8.0), r(9.0)).unwrap();
    let JointParams::Prismatic(p) = set.get(h).unwrap().params else { panic!("kind") };
    assert_eq!((f(p.motor.target_pos), f(p.motor.target_vel)), (-1.5, 0.0));
    assert_eq!((f(p.motor.stiffness), f(p.motor.damping)), (8.0, 9.0));
}

#[test]
fn ball_motor_configuration() {
    let mut set = RawJointSet::new();
    let h = set.insert(0, 1, &RawJointParams::ball(&v(0.0, 0.0, 0.0), &v(1.0, 0.0, 0.0)));
    let q = quat(0.0, 0.0, 2.0, 0.0);
    assert_eq!(q, Some(RawRotation { w: r(0.0), x: r(0.0), y: r(1.0), z: r(0.0) }));
    set.jointConfigureBallMotor(h, q, r(1.0), r(2.0), r(3.0), r(4.0), r(5.0)).unwrap();
    set.jointConfigureUnitMotor(h, r(9.0), r(9.0), r(9.0), r(9.0)).unwrap();
    let JointParams::Ball(b) = set.get(h).unwrap().params else { panic!("kind") };
    assert_eq!(b.motor.target_pos, q.unwrap());
    assert_eq!(b.motor.target_vel, v(1.0, 2.0, 3.0));
    assert_eq!((f(b.motor.stiffness), f(b.motor.damping)), (4.0, 5.0));
    // A quaternion too short to normalize is ignored.
    let tiny = quat(1.0e-7, 0.0, 0.0, 0.0);
    assert!(tiny.is_none());
    set.jointConfigureBallMotorPosition(h, tiny, r(0.0), r(0.0)).unwrap();
    assert_eq!(set.get(h).unwrap().params, JointParams::Ball(b));
    set.jointConfigureBallMotorVelocity(h, r(-1.0), r(0.0), r(0.0), r(0.25)).unwrap();
    let JointParams::Ball(b) = set.get(h).unwrap().params else { panic!("kind") };
    assert_eq!(b.motor.target_pos, q.unwrap());
    assert_eq!(b.motor.target_vel, v(-1.0, 0.0, 0.0));
    assert_eq!((f(b.motor.stiffness), f(b.motor.damping)), (0.0, 0.25));
}

#[test]
fn unknown_and_removed_handles_are_not_found() {
    let mut set = RawJointSet::new();
    assert_eq!(set.jointType(0), Err(JointError::NotFound));
    let h = set.insert(4, 5, &fixed());
    assert!(set.contains(h));
    assert!(set.remove(h).is_ok());
    assert!(!set.contains(h));
    assert_eq!(set.jointAnchor1(h), Err(JointError::NotFound));
    assert_eq!(set.setJointAnchor1(h, &v(0.0, 0.0, 0.0)), Err(JointError::NotFound));
    assert_eq!(set.jointConfigureUnitMotor(h, r(1.0), r(1.0), r(1.0), r(1.0)), Err(JointError::NotFound));
    assert_eq!(set.remove(h), Err(JointError::NotFound));
    let g = set.insert(6, 7, &fixed());
    assert_ne!(g, h);
    assert_eq!(set.jointBodyHandle1(g), Ok(6));
}

#[test]
fn zero_tangent_rejects_prismatic() {
    let zero = v(0.0, 0.0, 0.0);
    let axis = normalize(&v(1.0, 0.0, 0.0));
    let t = normalize(&v(0.0, 3.0, 0.0));
    assert_eq!(t, Some(v(0.0, 1.0, 0.0)));
    assert!(normalize(&zero).is_none());
    let args = [(normalize(&zero), t), (t, normalize(&zero)), (normalize(&zero), normalize(&zero))];
    for (t1, t2) in args {
        let p = RawJointParams::prismatic(&zero, axis, t1, &zero, axis, t2, false, r(0.0), r(0.0));
        assert!(p.is_none());
    }
    let p = RawJointParams::prismatic(&zero, axis, t, &zero, axis, t, false, r(0.0), r(0.0)).unwrap();
    let JointParams::Prismatic(j) = p.0 else { panic!("kind") };
    assert_eq!((j.local_tangent1, j.local_tangent2), (v(0.0, 1.0, 0.0), v(0.0, 1.0, 0.0)));
}
