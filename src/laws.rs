use vstd::prelude::*;

use crate::joint_set::RawJointSet;
use crate::math::{RawRotation, RawVector, Real, MAX_BITS, NEG_MAX_BITS};
use crate::motor::RawSpringModel;
use crate::params::{prismatic_joint, JointParams};
use crate::planar::{
    planar_prismatic_joint, PlanarJointParams, RawPlanarJointSet, RawRotation2, RawVector2,
};

verus! {

/// An anchor that was set reads back as set, on every kind of joint that
/// has a free anchor; setting an anchor on a fixed joint changes nothing.
pub proof fn lemma_anchor_round_trip(p: JointParams, pos: RawVector)
    ensures
        !(p is Fixed) ==> p.with_anchor1(pos).spec_anchor1() == pos,
        !(p is Fixed) ==> p.with_anchor2(pos).spec_anchor2() == pos,
        p is Fixed ==> p.with_anchor1(pos) == p && p.with_anchor2(pos) == p,
{
}

/// In a joint set, reading the first anchor after setting it gives the
/// point that was set, for ball, prismatic and revolute joints; on a fixed
/// joint the set is left as it was.
pub proof fn lemma_set_anchor1_round_trip(
    before: RawJointSet,
    after: RawJointSet,
    handle: u32,
    pos: RawVector,
)
    requires
        before.spec_get(handle) is Some,
        after@ == before.spec_with_params(
            handle,
            before.spec_get(handle).unwrap().params.with_anchor1(pos),
        ),
    ensures
        after.spec_get(handle) is Some,
        !(before.spec_get(handle).unwrap().params is Fixed) ==> after.spec_get(
            handle,
        ).unwrap().params.spec_anchor1() == pos,
        before.spec_get(handle).unwrap().params is Fixed ==> after@ == before@,
{
    let j = before.spec_get(handle).unwrap();
    if j.params is Fixed {
        assert(after@ =~= before@);
    }
}

/// The same for the second anchor.
pub proof fn lemma_set_anchor2_round_trip(
    before: RawJointSet,
    after: RawJointSet,
    handle: u32,
    pos: RawVector,
)
    requires
        before.spec_get(handle) is Some,
        after@ == before.spec_with_params(
            handle,
            before.spec_get(handle).unwrap().params.with_anchor2(pos),
        ),
    ensures
        after.spec_get(handle) is Some,
        !(before.spec_get(handle).unwrap().params is Fixed) ==> after.spec_get(
            handle,
        ).unwrap().params.spec_anchor2() == pos,
        before.spec_get(handle).unwrap().params is Fixed ==> after@ == before@,
{
    let j = before.spec_get(handle).unwrap();
    if j.params is Fixed {
        assert(after@ =~= before@);
    }
}

/// What a joint set answers about a handle depends on its contents alone:
/// two reads with no change in between find the same joint.
pub proof fn lemma_reads_depend_on_contents(s1: RawJointSet, s2: RawJointSet, handle: u32)
    requires
        s1@ == s2@,
    ensures
        s1.spec_get(handle) == s2.spec_get(handle),
        s1.spec_lookup(handle) == s2.spec_lookup(handle),
{
}

/// A prismatic joint made with its limits enabled reports exactly those
/// limits.
pub proof fn lemma_prismatic_limits_kept(
    anchor1: RawVector,
    axis1: RawVector,
    tangent1: RawVector,
    anchor2: RawVector,
    axis2: RawVector,
    tangent2: RawVector,
    limits_min: Real,
    limits_max: Real,
)
    ensures
        ({
            let p = JointParams::Prismatic(
                prismatic_joint(
                    anchor1, axis1, tangent1, anchor2, axis2, tangent2, true, limits_min, limits_max,
                ),
            );
            &&& p.spec_limits_enabled()
            &&& p.spec_limits_min() == limits_min
            &&& p.spec_limits_max() == limits_max
        }),
{
}

/// Every joint but a prismatic one reports disabled limits over the whole
/// finite range.
pub proof fn lemma_other_joints_unbounded(p: JointParams)
    requires
        !(p is Prismatic),
    ensures
        !p.spec_limits_enabled(),
        p.spec_limits_min().bits == NEG_MAX_BITS,
        p.spec_limits_max().bits == MAX_BITS,
{
}

/// No motor configuration changes a fixed joint.
pub proof fn lemma_fixed_ignores_motors(
    p: JointParams,
    model: RawSpringModel,
    rot: RawRotation,
    ang_vel: RawVector,
    pos: Real,
    vel: Real,
    stiffness: Real,
    damping: Real,
)
    requires
        p is Fixed,
    ensures
        p.with_motor_model(model) == p,
        p.with_ball_motor_velocity(ang_vel, damping) == p,
        p.with_ball_motor_position(rot, stiffness, damping) == p,
        p.with_ball_motor(rot, ang_vel, stiffness, damping) == p,
        p.with_unit_motor_velocity(vel, damping) == p,
        p.with_unit_motor_position(pos, stiffness, damping) == p,
        p.with_unit_motor(pos, vel, stiffness, damping) == p,
{
}

/// In a joint set, every motor configuration of a fixed joint leaves the
/// set as it was.
pub proof fn lemma_fixed_joint_set_unchanged(
    s: RawJointSet,
    handle: u32,
    model: RawSpringModel,
    rot: RawRotation,
    ang_vel: RawVector,
    pos: Real,
    vel: Real,
    stiffness: Real,
    damping: Real,
)
    requires
        s.spec_get(handle) is Some,
        s.spec_get(handle).unwrap().params is Fixed,
    ensures
        ({
            let p = s.spec_get(handle).unwrap().params;
            &&& s.spec_with_params(handle, p.with_motor_model(model)) == s@
            &&& s.spec_with_params(handle, p.with_ball_motor_velocity(ang_vel, damping)) == s@
            &&& s.spec_with_params(handle, p.with_ball_motor_position(rot, stiffness, damping)) == s@
            &&& s.spec_with_params(handle, p.with_ball_motor(rot, ang_vel, stiffness, damping)) == s@
            &&& s.spec_with_params(handle, p.with_unit_motor_velocity(vel, damping)) == s@
            &&& s.spec_with_params(handle, p.with_unit_motor_position(pos, stiffness, damping)) == s@
            &&& s.spec_with_params(handle, p.with_unit_motor(pos, vel, stiffness, damping)) == s@
        }),
{
    let p = s.spec_get(handle).unwrap().params;
    lemma_fixed_ignores_motors(p, model, rot, ang_vel, pos, vel, stiffness, damping);
    assert(s.spec_with_params(handle, p) =~= s@);
}

/// A 2D prismatic joint made with its limits enabled reports exactly those
/// limits.
pub proof fn lemma_planar_prismatic_limits_kept(
    anchor1: RawVector2,
    axis1: RawVector2,
    anchor2: RawVector2,
    axis2: RawVector2,
    limits_min: Real,
    limits_max: Real,
)
    ensures
        ({
            let p = PlanarJointParams::Prismatic(
                planar_prismatic_joint(anchor1, axis1, anchor2, axis2, true, limits_min, limits_max),
            );
            &&& p.spec_limits_enabled()
            &&& p.spec_limits_min() == limits_min
            &&& p.spec_limits_max() == limits_max
        }),
{
}

/// Every 2D joint but a prismatic one reports disabled limits over the
/// whole finite range.
pub proof fn lemma_planar_other_joints_unbounded(p: PlanarJointParams)
    requires
        !(p is Prismatic),
    ensures
        !p.spec_limits_enabled(),
        p.spec_limits_min().bits == NEG_MAX_BITS,
        p.spec_limits_max().bits == MAX_BITS,
{
}

/// No motor configuration changes a 2D fixed joint.
pub proof fn lemma_planar_fixed_ignores_motors(
    p: PlanarJointParams,
    model: RawSpringModel,
    rot: RawRotation2,
    pos: Real,
    vel: Real,
    stiffness: Real,
    damping: Real,
)
    requires
        p is Fixed,
    ensures
        p.with_motor_model(model) == p,
        p.with_unit_motor_velocity(vel, damping) == p,
        p.with_unit_motor_position(pos, rot, stiffness, damping) == p,
        p.with_unit_motor(pos, rot, vel, stiffness, damping) == p,
{
}

/// A 2D anchor that was set reads back as set on ball and prismatic joints;
/// setting an anchor on a fixed joint changes nothing.
pub proof fn lemma_planar_anchor_round_trip(p: PlanarJointParams, pos: RawVector2)
    ensures
        !(p is Fixed) ==> p.with_anchor1(pos).spec_anchor1() == pos,
        !(p is Fixed) ==> p.with_anchor2(pos).spec_anchor2() == pos,
        p is Fixed ==> p.with_anchor1(pos) == p && p.with_anchor2(pos) == p,
{
}

/// In a 2D joint set, reading an anchor after setting it gives the point
/// that was set, for ball and prismatic joints; on a fixed joint the set is
/// left as it was.
pub proof fn lemma_planar_set_anchor_round_trip(
    before: RawPlanarJointSet,
    after1: RawPlanarJointSet,
    after2: RawPlanarJointSet,
    handle: u32,
    pos: RawVector2,
)
    requires
        before.spec_get(handle) is Some,
        after1@ == before.spec_with_params(
            handle,
            before.spec_get(handle).unwrap().params.with_anchor1(pos),
        ),
        after2@ == before.spec_with_params(
            handle,
            before.spec_get(handle).unwrap().params.with_anchor2(pos),
        ),
    ensures
        after1.spec_get(handle) is Some && after2.spec_get(handle) is Some,
        !(before.spec_get(handle).unwrap().params is Fixed) ==> after1.spec_get(
            handle,
        ).unwrap().params.spec_anchor1() == pos && after2.spec_get(
            handle,
        ).unwrap().params.spec_anchor2() == pos,
        before.spec_get(handle).unwrap().params is Fixed ==> after1@ == before@ && after2@
            == before@,
{
    let j = before.spec_get(handle).unwrap();
    if j.params is Fixed {
        assert(after1@ =~= before@);
        assert(after2@ =~= before@);
    }
}

} // verus!
