use nalgebra::{Unit, UnitComplex, Vector2};
use rapier_joints::joint_set::JointError;
use rapier_joints::math::Real;
use rapier_joints::motor::RawSpringModel;
use rapier_joints::planar::{
    PlanarJointParams, RawPlanarJointParams, RawPlanarJointSet, RawRotation2, RawVector2,
};
use rapier_joints::params::RawJointType;

fn r(v: f32) -> Real {
    Real { bits: v.to_bits() }
}

fn f(v: Real) -> f32 {
    f32::from_bits(v.bits)
}

fn v(x: f32, y: f32) -> RawVector2 {
    RawVector2 { x: r(x), y: r(y) }
}

fn normalize(a: &RawVector2) -> Option<RawVector2> {
    Unit::try_new(Vector2::new(f(a.x), f(a.y)), 0.0).map(|u| v(u.x, u.y))
}

fn angle(a: f32) -> RawRotation2 {
    let c = UnitComplex::new(a);
    RawRotation2 { re: r(c.re), im: r(c.im) }
}

fn prismatic(enabled: bool, min: f32, max: f32) -> RawPlanarJointParams {
    let zero = v(0.0, 0.0);
    RawPlanarJointParams::prismatic(&zero, normalize(&v(3.0, 4.0)), &zero, normalize(&v(0.0, 2.0)), enabled, r(min), r(max))
        .unwrap()
}

fn fixed() -> RawPlanarJointParams {
    RawPlanarJointParams::fixed(&v(1.0, 2.0), &angle(0.5), &v(3.0, 4.0), &RawRotation2::identity())
}

#[test]
fn planar_ball_joint_scenario() {
    let mut set = RawPlanarJointSet::new();
    let h = set.insert(0, 1, &RawPlanarJointParams::ball(&v(0.0, 0.0), &v(1.0, 0.0)));
    assert_eq!(set.jointType(h), Ok(RawJointType::Ball));
    assert_eq!(set.jointAxis1(h), Ok(None));
    assert_eq!(set.jointAnchor2(h), Ok(v(1.0, 0.0)));
    assert_eq!(set.jointLimitsEnabled(h), Ok(false));
    assert_eq!(f(set.jointLimitsMin(h).unwrap()), -f32::MAX);
    assert_eq!(f(set.jointLimitsMax(h).unwrap()), f32::MAX);
}

#[test]
fn planar_ball_has_a_rotation_motor() {
    let mut set = RawPlanarJointSet::new();
    let h = set.insert(0, 1, &RawPlanarJointParams::ball(&v(0.0, 0.0), &v(1.0, 0.0)));
    set.jointConfigureMotorModel(h, RawSpringModel::ForceBased).unwrap();
    set.jointConfigureUnitMotor(h, r(1.5), angle(1.5), r(2.0), r(3.0), r(4.0)).unwrap();
    set.jointConfigureUnitMotorVelocity(h, r(-2.0), r(0.75)).unwrap();
    let PlanarJointParams::Ball(b) = set.get(h).unwrap().params else { panic!("kind") };
    assert_eq!(b.motor.model, RawSpringModel::ForceBased);
    assert_eq!(b.motor.target_pos, angle(1.5));
    assert_eq!((f(b.motor.target_vel), f(b.motor.stiffness), f(b.motor.damping)), (-2.0, 0.0, 0.75));
    set.jointConfigureUnitMotorPosition(h, r(0.25), angle(0.25), r(5.0), r(6.0)).unwrap();
    let PlanarJointParams::Ball(b) = set.get(h).unwrap().params else { panic!("kind") };
    assert_eq!(b.motor.target_pos, angle(0.25));
    assert_eq!((f(b.motor.target_vel), f(b.motor.stiffness), f(b.motor.damping)), (0.0, 5.0, 6.0));
}

#[test]
fn planar_prismatic_limits_exact() {
    let mut set = RawPlanarJointSet::new();
    let h = set.insert(0, 1, &prismatic(true, -1.0, 2.0));
    assert_eq!(set.jointLimitsEnabled(h), Ok(true));
    assert_eq!(f(set.jointLimitsMin(h).unwrap()), -1.0);
    assert_eq!(f(set.jointLimitsMax(h).unwrap()), 2.0);
    assert_eq!(set.jointAxis1(h), Ok(Some(v(0.6, 0.8))));
    assert_eq!(set.jointAxis2(h), Ok(Some(v(0.0, 1.0))));
    let g = set.insert(0, 1, &prismatic(false, -1.0, 2.0));
    assert_eq!(f(set.jointLimitsMin(g).unwrap()), -f32::MAX);
    assert_eq!(f(set.jointLimitsMax(g).unwrap()), f32::MAX);
}

#[test]
fn planar_zero_axis_rejects_prismatic() {
    let zero = v(0.0, 0.0);
    let one = normalize(&v(1.0, 0.0));
    assert!(normalize(&zero).is_none());
    assert!(RawPlanarJointParams::prismatic(&zero, normalize(&zero), &zero, one, false, r(0.0), r(0.0)).is_none());
    assert!(RawPlanarJointParams::prismatic(&zero, one, &zero, normalize(&zero), false, r(0.0), r(0.0)).is_none());
}

#[test]
fn planar_motors_leave_fixed_joint_unchanged() {
    let mut set = RawPlanarJointSet::new();
    let h = set.insert(0, 1, &fixed());
    let before = set.get(h);
    set.jointConfigureMotorModel(h, RawSpringModel::Disabled).unwrap();
    set.jointConfigureUnitMotorVelocity(h, r(1.0), r(2.0)).unwrap();
    set.jointConfigureUnitMotorPosition(h, r(1.0), angle(1.0), r(2.0), r(3.0)).unwrap();
    set.jointConfigureUnitMotor(h, r(1.0), angle(1.0), r(2.0), r(3.0), r(4.0)).unwrap();
    assert_eq!(set.get(h), before);
    assert_eq!(set.jointAnchor1(h), Ok(v(1.0, 2.0)));
    assert_eq!(set.jointAnchor2(h), Ok(v(3.0, 4.0)));
    assert_eq!(set.jointType(h), Ok(RawJointType::Fixed));
}

#[test]
fn planar_unknown_handle_is_not_found() {
    let mut set = RawPlanarJointSet::new();
    assert_eq!(set.jointBodyHandle1(3), Err(JointError::NotFound));
    let h = set.insert(8, 9, &fixed());
    assert_eq!(set.jointBodyHandle2(h), Ok(9));
    assert!(set.remove(h).is_ok());
    assert_eq!(set.jointConfigureUnitMotorVelocity(h, r(1.0), r(1.0)), Err(JointError::NotFound));
}

#[test]
fn planar_anchor_round_trip() {
    let mut set = RawPlanarJointSet::new();
    let hs = [
        set.insert(0, 1, &RawPlanarJointParams::ball(&v(0.0, 0.0), &v(1.0, 0.0))),
        set.insert(0, 1, &prismatic(false, 0.0, 0.0)),
    ];
    for h in hs {
        assert_eq!(set.setJointAnchor1(h, &v(0.5, -2.0)), Ok(()));
        assert_eq!(set.setJointAnchor2(h, &v(-0.125, 1.0e-7)), Ok(()));
        assert_eq!(set.jointAnchor1(h), Ok(v(0.5, -2.0)));
        assert_eq!(set.jointAnchor2(h), Ok(v(-0.125, 1.0e-7)));
    }
    let g = set.insert(0, 1, &fixed());
    let before = set.get(g);
    assert_eq!(set.setJointAnchor1(g, &v(9.0, 9.0)), Ok(()));
    assert_eq!(set.setJointAnchor2(g, &v(9.0, 9.0)), Ok(()));
    assert_eq!(set.get(g), before);
    assert_eq!(set.jointAnchor1(g), Ok(v(1.0, 2.0)));
    assert_eq!(set.setJointAnchor1(77, &v(0.0, 0.0)), Err(JointError::NotFound));
}
