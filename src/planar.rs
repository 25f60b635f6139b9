//! The 2D joint family. In the plane a ball joint leaves one rotation, so it
//! carries a scalar motor aiming at a rotation; there is no revolute kind.
use vstd::prelude::*;

use crate::joint_set::{Joint, JointError, JointSet};
use crate::math::{Real, MAX_BITS, NEG_MAX_BITS, ONE_BITS};
use crate::motor::{RawSpringModel, UnitMotor};
use crate::params::{resting_unit_motor, RawJointType};

verus! {

/// A 2D point or vector.
#[derive(Clone, Copy, Debug, PartialEq, Eq, Structural)]
pub struct RawVector2 {
    pub x: Real,
    pub y: Real,
}

/// A 2D rotation as a unit complex number `re + i·im`.
#[derive(Clone, Copy, Debug, PartialEq, Eq, Structural)]
pub struct RawRotation2 {
    pub re: Real,
    pub im: Real,
}

impl RawRotation2 {
    pub open spec fn spec_identity() -> RawRotation2 {
        RawRotation2 { re: Real { bits: ONE_BITS }, im: Real { bits: 0 } }
    }

    pub fn identity() -> (r: RawRotation2)
        ensures
            r == RawRotation2::spec_identity(),
    {
        RawRotation2 { re: Real::one(), im: Real::zero() }
    }
}

/// A rigid frame of the plane.
#[derive(Clone, Copy, Debug, PartialEq, Eq, Structural)]
pub struct Isometry2 {
    pub translation: RawVector2,
    pub rotation: RawRotation2,
}

/// The motor of a 2D ball joint: one rotational degree of freedom, aiming
/// at an orientation.
#[derive(Clone, Copy, Debug, PartialEq, Eq, Structural)]
pub struct RotationMotor {
    pub model: RawSpringModel,
    pub target_vel: Real,
    pub target_pos: RawRotation2,
    pub stiffness: Real,
    pub damping: Real,
}

impl RotationMotor {
    /// Aims at a velocity alone: stiffness drops to zero and `factor`
    /// becomes the damping.
    pub open spec fn with_velocity(self, target_vel: Real, factor: Real) -> RotationMotor {
        RotationMotor { target_vel, stiffness: Real { bits: 0 }, damping: factor, ..self }
    }

    /// Aims at an orientation alone: the target velocity drops to zero.
    pub open spec fn with_position(
        self,
        target_pos: RawRotation2,
        stiffness: Real,
        damping: Real,
    ) -> RotationMotor {
        RotationMotor { target_pos, target_vel: Real { bits: 0 }, stiffness, damping, ..self }
    }

    pub open spec fn with_targets(
        self,
        target_pos: RawRotation2,
        target_vel: Real,
        stiffness: Real,
        damping: Real,
    ) -> RotationMotor {
        RotationMotor { target_pos, target_vel, stiffness, damping, ..self }
    }

    pub fn configure_velocity(&mut self, target_vel: Real, factor: Real)
        ensures
            *final(self) == old(self).with_velocity(target_vel, factor),
    {
        let pos = self.target_pos;
        self.configure(pos, target_vel, Real::zero(), factor);
    }

    pub fn configure_position(&mut self, target_pos: RawRotation2, stiffness: Real, damping: Real)
        ensures
            *final(self) == old(self).with_position(target_pos, stiffness, damping),
    {
        self.configure(target_pos, Real::zero(), stiffness, damping);
    }

    pub fn configure(
        &mut self,
        target_pos: RawRotation2,
        target_vel: Real,
        stiffness: Real,
        damping: Real,
    )
        ensures
            *final(self) == old(self).with_targets(target_pos, target_vel, stiffness, damping),
    {
        self.target_vel = target_vel;
        self.target_pos = target_pos;
        self.stiffness = stiffness;
        self.damping = damping;
    }
}

#[derive(Clone, Copy, Debug, PartialEq, Eq, Structural)]
pub struct PlanarBallJoint {
    pub local_anchor1: RawVector2,
    pub local_anchor2: RawVector2,
    pub motor: RotationMotor,
}

#[derive(Clone, Copy, Debug, PartialEq, Eq, Structural)]
pub struct PlanarFixedJoint {
    pub local_frame1: Isometry2,
    pub local_frame2: Isometry2,
}

/// The axes are unit vectors.
#[derive(Clone, Copy, Debug, PartialEq, Eq, Structural)]
pub struct PlanarPrismaticJoint {
    pub local_anchor1: RawVector2,
    pub local_axis1: RawVector2,
    pub local_anchor2: RawVector2,
    pub local_axis2: RawVector2,
    pub limits_enabled: bool,
    pub limits_min: Real,
    pub limits_max: Real,
    pub motor: UnitMotor,
}

#[derive(Clone, Copy, Debug, PartialEq, Eq, Structural)]
pub enum PlanarJointParams {
    Ball(PlanarBallJoint),
    Fixed(PlanarFixedJoint),
    Prismatic(PlanarPrismaticJoint),
}

/// A 2D joint descriptor, ready to be inserted into a joint set.
#[derive(Clone, Copy, Debug, PartialEq, Eq, Structural)]
pub struct RawPlanarJointParams(pub PlanarJointParams);

/// A set of 2D joints.
pub type RawPlanarJointSet = JointSet<PlanarJointParams>;

pub open spec fn planar_ball_joint(anchor1: RawVector2, anchor2: RawVector2) -> PlanarBallJoint {
    PlanarBallJoint {
        local_anchor1: anchor1,
        local_anchor2: anchor2,
        motor: RotationMotor {
            model: RawSpringModel::Disabled,
            target_vel: Real { bits: 0 },
            target_pos: RawRotation2::spec_identity(),
            stiffness: Real { bits: 0 },
            damping: Real { bits: 0 },
        },
    }
}

/// Limits are kept only when enabled; otherwise the range is unbounded.
pub open spec fn planar_prismatic_joint(
    anchor1: RawVector2,
    axis1: RawVector2,
    anchor2: RawVector2,
    axis2: RawVector2,
    limits_enabled: bool,
    limits_min: Real,
    limits_max: Real,
) -> PlanarPrismaticJoint {
    PlanarPrismaticJoint {
        local_anchor1: anchor1,
        local_axis1: axis1,
        local_anchor2: anchor2,
        local_axis2: axis2,
        limits_enabled,
        limits_min: if limits_enabled { limits_min } else { Real { bits: NEG_MAX_BITS } },
        limits_max: if limits_enabled { limits_max } else { Real { bits: MAX_BITS } },
        motor: resting_unit_motor(),
    }
}

impl PlanarJointParams {
    pub open spec fn spec_kind(self) -> RawJointType {
        match self {
            PlanarJointParams::Ball(_) => RawJointType::Ball,
            PlanarJointParams::Fixed(_) => RawJointType::Fixed,
            PlanarJointParams::Prismatic(_) => RawJointType::Prismatic,
        }
    }

    /// A fixed joint's anchor is the translation of its frame.
    pub open spec fn spec_anchor1(self) -> RawVector2 {
        match self {
            PlanarJointParams::Ball(b) => b.local_anchor1,
            PlanarJointParams::Fixed(f) => f.local_frame1.translation,
            PlanarJointParams::Prismatic(p) => p.local_anchor1,
        }
    }

    pub open spec fn spec_anchor2(self) -> RawVector2 {
        match self {
            PlanarJointParams::Ball(b) => b.local_anchor2,
            PlanarJointParams::Fixed(f) => f.local_frame2.translation,
            PlanarJointParams::Prismatic(p) => p.local_anchor2,
        }
    }

    /// Only prismatic joints have an axis.
    pub open spec fn spec_axis1(self) -> Option<RawVector2> {
        match self {
            PlanarJointParams::Prismatic(p) => Some(p.local_axis1),
            _ => None,
        }
    }

    pub open spec fn spec_axis2(self) -> Option<RawVector2> {
        match self {
            PlanarJointParams::Prismatic(p) => Some(p.local_axis2),
            _ => None,
        }
    }

    /// Joints other than prismatic ones report disabled, unbounded limits.
    pub open spec fn spec_limits_enabled(self) -> bool {
        match self {
            PlanarJointParams::Prismatic(p) => p.limits_enabled,
            _ => false,
        }
    }

    pub open spec fn spec_limits_min(self) -> Real {
        match self {
            PlanarJointParams::Prismatic(p) => p.limits_min,
            _ => Real { bits: NEG_MAX_BITS },
        }
    }

    pub open spec fn spec_limits_max(self) -> Real {
        match self {
            PlanarJointParams::Prismatic(p) => p.limits_max,
            _ => Real { bits: MAX_BITS },
        }
    }

    /// A fixed joint's frame cannot be moved through its anchor.
    pub open spec fn with_anchor1(self, pos: RawVector2) -> PlanarJointParams {
        match self {
            PlanarJointParams::Ball(b) => PlanarJointParams::Ball(PlanarBallJoint { local_anchor1: pos, ..b }),
            PlanarJointParams::Fixed(f) => PlanarJointParams::Fixed(f),
            PlanarJointParams::Prismatic(p) => PlanarJointParams::Prismatic(
                PlanarPrismaticJoint { local_anchor1: pos, ..p },
            ),
        }
    }

    pub open spec fn with_anchor2(self, pos: RawVector2) -> PlanarJointParams {
        match self {
            PlanarJointParams::Ball(b) => PlanarJointParams::Ball(PlanarBallJoint { local_anchor2: pos, ..b }),
            PlanarJointParams::Fixed(f) => PlanarJointParams::Fixed(f),
            PlanarJointParams::Prismatic(p) => PlanarJointParams::Prismatic(
                PlanarPrismaticJoint { local_anchor2: pos, ..p },
            ),
        }
    }

    pub open spec fn with_motor_model(self, model: RawSpringModel) -> PlanarJointParams {
        match self {
            PlanarJointParams::Ball(b) => PlanarJointParams::Ball(
                PlanarBallJoint { motor: RotationMotor { model, ..b.motor }, ..b },
            ),
            PlanarJointParams::Fixed(f) => PlanarJointParams::Fixed(f),
            PlanarJointParams::Prismatic(p) => PlanarJointParams::Prismatic(
                PlanarPrismaticJoint { motor: UnitMotor { model, ..p.motor }, ..p },
            ),
        }
    }

    pub open spec fn with_unit_motor_velocity(self, vel: Real, factor: Real) -> PlanarJointParams {
        match self {
            PlanarJointParams::Ball(b) => PlanarJointParams::Ball(
                PlanarBallJoint { motor: b.motor.with_velocity(vel, factor), ..b },
            ),
            PlanarJointParams::Fixed(f) => PlanarJointParams::Fixed(f),
            PlanarJointParams::Prismatic(p) => PlanarJointParams::Prismatic(
                PlanarPrismaticJoint { motor: p.motor.with_velocity(vel, factor), ..p },
            ),
        }
    }

    /// A ball joint aims at `rot`, a prismatic one at `pos`.
    pub open spec fn with_unit_motor_position(
        self,
        pos: Real,
        rot: RawRotation2,
        stiffness: Real,
        damping: Real,
    ) -> PlanarJointParams {
        match self {
            PlanarJointParams::Ball(b) => PlanarJointParams::Ball(
                PlanarBallJoint { motor: b.motor.with_position(rot, stiffness, damping), ..b },
            ),
            PlanarJointParams::Fixed(f) => PlanarJointParams::Fixed(f),
            PlanarJointParams::Prismatic(p) => PlanarJointParams::Prismatic(
                PlanarPrismaticJoint { motor: p.motor.with_position(pos, stiffness, damping), ..p },
            ),
        }
    }

    pub open spec fn with_unit_motor(
        self,
        pos: Real,
        rot: RawRotation2,
        vel: Real,
        stiffness: Real,
        damping: Real,
    ) -> PlanarJointParams {
        match self {
            PlanarJointParams::Ball(b) => PlanarJointParams::Ball(
                PlanarBallJoint { motor: b.motor.with_targets(rot, vel, stiffness, damping), ..b },
            ),
            PlanarJointParams::Fixed(f) => PlanarJointParams::Fixed(f),
            PlanarJointParams::Prismatic(p) => PlanarJointParams::Prismatic(
                PlanarPrismaticJoint {
                    motor: p.motor.with_targets(pos, vel, stiffness, damping),
                    ..p
                },
            ),
        }
    }
}

impl PlanarJointParams {
    pub fn kind(&self) -> (r: RawJointType)
        ensures
            r == self.spec_kind(),
    {
        match self {
            PlanarJointParams::Ball(_) => RawJointType::Ball,
            PlanarJointParams::Fixed(_) => RawJointType::Fixed,
            PlanarJointParams::Prismatic(_) => RawJointType::Prismatic,
        }
    }

    pub fn anchor1(&self) -> (r: RawVector2)
        ensures
            r == self.spec_anchor1(),
    {
        match self {
            PlanarJointParams::Ball(b) => b.local_anchor1,
            PlanarJointParams::Fixed(f) => f.local_frame1.translation,
            PlanarJointParams::Prismatic(p) => p.local_anchor1,
        }
    }

    pub fn anchor2(&self) -> (r: RawVector2)
        ensures
            r == self.spec_anchor2(),
    {
        match self {
            PlanarJointParams::Ball(b) => b.local_anchor2,
            PlanarJointParams::Fixed(f) => f.local_frame2.translation,
            PlanarJointParams::Prismatic(p) => p.local_anchor2,
        }
    }

    pub fn axis1(&self) -> (r: Option<RawVector2>)
        ensures
            r == self.spec_axis1(),
    {
        match self {
            PlanarJointParams::Prismatic(p) => Some(p.local_axis1),
            _ => None,
        }
    }

    pub fn axis2(&self) -> (r: Option<RawVector2>)
        ensures
            r == self.spec_axis2(),
    {
        match self {
            PlanarJointParams::Prismatic(p) => Some(p.local_axis2),
            _ => None,
        }
    }

    pub fn limits_enabled(&self) -> (r: bool)
        ensures
            r == self.spec_limits_enabled(),
    {
        match self {
            PlanarJointParams::Prismatic(p) => p.limits_enabled,
            _ => false,
        }
    }

    pub fn limits_min(&self) -> (r: Real)
        ensures
            r == self.spec_limits_min(),
    {
        match self {
            PlanarJointParams::Prismatic(p) => p.limits_min,
            _ => Real::neg_max_value(),
        }
    }

    pub fn limits_max(&self) -> (r: Real)
        ensures
            r == self.spec_limits_max(),
    {
        match self {
            PlanarJointParams::Prismatic(p) => p.limits_max,
            _ => Real::max_value(),
        }
    }

    pub fn set_anchor1(&mut self, pos: RawVector2)
        ensures
            *final(self) == old(self).with_anchor1(pos),
    {
        match self {
            PlanarJointParams::Ball(b) => b.local_anchor1 = pos,
            PlanarJointParams::Prismatic(p) => p.local_anchor1 = pos,
            PlanarJointParams::Fixed(_) => {},
        }
    }

    pub fn set_anchor2(&mut self, pos: RawVector2)
        ensures
            *final(self) == old(self).with_anchor2(pos),
    {
        match self {
            PlanarJointParams::Ball(b) => b.local_anchor2 = pos,
            PlanarJointParams::Prismatic(p) => p.local_anchor2 = pos,
            PlanarJointParams::Fixed(_) => {},
        }
    }

    pub fn configure_motor_model(&mut self, model: RawSpringModel)
        ensures
            *final(self) == old(self).with_motor_model(model),
    {
        match self {
            PlanarJointParams::Ball(b) => b.motor.model = model,
            PlanarJointParams::Prismatic(p) => p.motor.configure_model(model),
            PlanarJointParams::Fixed(_) => {},
        }
    }

    pub fn configure_unit_motor_velocity(&mut self, vel: Real, factor: Real)
        ensures
            *final(self) == old(self).with_unit_motor_velocity(vel, factor),
    {
        match self {
            PlanarJointParams::Ball(b) => b.motor.configure_velocity(vel, factor),
            PlanarJointParams::Prismatic(p) => p.motor.configure_velocity(vel, factor),
            PlanarJointParams::Fixed(_) => {},
        }
    }

    pub fn configure_unit_motor_position(
        &mut self,
        pos: Real,
        rot: RawRotation2,
        stiffness: Real,
        damping: Real,
    )
        ensures
            *final(self) == old(self).with_unit_motor_position(pos, rot, stiffness, damping),
    {
        match self {
            PlanarJointParams::Ball(b) => b.motor.configure_position(rot, stiffness, damping),
            PlanarJointParams::Prismatic(p) => p.motor.configure_position(pos, stiffness, damping),
            PlanarJointParams::Fixed(_) => {},
        }
    }

    pub fn configure_unit_motor(
        &mut self,
        pos: Real,
        rot: RawRotation2,
        vel: Real,
        stiffness: Real,
        damping: Real,
    )
        ensures
            *final(self) == old(self).with_unit_motor(pos, rot, vel, stiffness, damping),
    {
        match self {
            PlanarJointParams::Ball(b) => b.motor.configure(rot, vel, stiffness, damping),
            PlanarJointParams::Prismatic(p) => p.motor.configure(pos, vel, stiffness, damping),
            PlanarJointParams::Fixed(_) => {},
        }
    }
}

impl RawPlanarJointParams {
    /// A ball joint between the two anchors, its motor disabled.
    pub fn ball(anchor1: &RawVector2, anchor2: &RawVector2) -> (r: RawPlanarJointParams)
        ensures
            r.0 == PlanarJointParams::Ball(planar_ball_joint(*anchor1, *anchor2)),
    {
        let motor = RotationMotor {
            model: RawSpringModel::Disabled,
            target_vel: Real::zero(),
            target_pos: RawRotation2::identity(),
            stiffness: Real::zero(),
            damping: Real::zero(),
        };
        RawPlanarJointParams(
            PlanarJointParams::Ball(PlanarBallJoint { local_anchor1: *anchor1, local_anchor2: *anchor2, motor }),
        )
    }

    /// A prismatic joint. `axis1` and `axis2` are the normalized axes, `None`
    /// where the given axis could not be normalized; then no joint is made.
    pub fn prismatic(
        anchor1: &RawVector2,
        axis1: Option<RawVector2>,
        anchor2: &RawVector2,
        axis2: Option<RawVector2>,
        limits_enabled: bool,
        limits_min: Real,
        limits_max: Real,
    ) -> (r: Option<RawPlanarJointParams>)
        ensures
            r == (match (axis1, axis2) {
                (Some(a1), Some(a2)) => Some(RawPlanarJointParams(PlanarJointParams::Prismatic(
                    planar_prismatic_joint(*anchor1, a1, *anchor2, a2, limits_enabled, limits_min, limits_max),
                ))),
                _ => None,
            }),
    {
        let a1 = match axis1 {
            Some(a) => a,
            None => return None,
        };
        let a2 = match axis2 {
            Some(a) => a,
            None => return None,
        };
        let mut joint = PlanarPrismaticJoint {
            local_anchor1: *anchor1,
            local_axis1: a1,
            local_anchor2: *anchor2,
            local_axis2: a2,
            limits_enabled: false,
            limits_min: Real::neg_max_value(),
            limits_max: Real::max_value(),
            motor: UnitMotor::new(RawSpringModel::VelocityBased),
        };
        if limits_enabled {
            joint.limits_enabled = true;
            joint.limits_min = limits_min;
            joint.limits_max = limits_max;
        }
        Some(RawPlanarJointParams(PlanarJointParams::Prismatic(joint)))
    }

    /// A fixed joint whose frames are made of each anchor and rotation.
    pub fn fixed(
        anchor1: &RawVector2,
        axes1: &RawRotation2,
        anchor2: &RawVector2,
        axes2: &RawRotation2,
    ) -> (r: RawPlanarJointParams)
        ensures
            r.0 == PlanarJointParams::Fixed(
                PlanarFixedJoint {
                    local_frame1: Isometry2 { translation: *anchor1, rotation: *axes1 },
                    local_frame2: Isometry2 { translation: *anchor2, rotation: *axes2 },
                },
            ),
    {
        let pos1 = Isometry2 { translation: *anchor1, rotation: *axes1 };
        let pos2 = Isometry2 { translation: *anchor2, rotation: *axes2 };
        RawPlanarJointParams(PlanarJointParams::Fixed(PlanarFixedJoint { local_frame1: pos1, local_frame2: pos2 }))
    }
}

impl JointSet<PlanarJointParams> {
    /// Adds a joint between two bodies and returns its handle.
    pub fn insert(&mut self, body1: u32, body2: u32, params: &RawPlanarJointParams) -> (r: u32)
        requires
            old(self)@.len() < u32::MAX,
        ensures
            r as int == old(self)@.len(),
            final(self)@ == old(self)@.push(Some(Joint { body1, body2, params: params.0 })),
    {
        self.push_joint(Joint { body1, body2, params: params.0 })
    }

    /// The handle of the first body the joint is attached to.
    #[allow(non_snake_case)]
    pub fn jointBodyHandle1(&self, handle: u32) -> (r: Result<u32, JointError>)
        ensures
            r == (match self.spec_get(handle) {
                Some(j) => Ok(j.body1),
                None => Err(JointError::NotFound),
            }),
    {
        let j = self.get(handle)?;
        Ok(j.body1)
    }

    /// The handle of the second body the joint is attached to.
    #[allow(non_snake_case)]
    pub fn jointBodyHandle2(&self, handle: u32) -> (r: Result<u32, JointError>)
        ensures
            r == (match self.spec_get(handle) {
                Some(j) => Ok(j.body2),
                None => Err(JointError::NotFound),
            }),
    {
        let j = self.get(handle)?;
        Ok(j.body2)
    }

    /// The kind of the joint.
    #[allow(non_snake_case)]
    pub fn jointType(&self, handle: u32) -> (r: Result<RawJointType, JointError>)
        ensures
            r == (match self.spec_get(handle) {
                Some(j) => Ok(j.params.spec_kind()),
                None => Err(JointError::NotFound),
            }),
    {
        let j = self.get(handle)?;
        Ok(j.params.kind())
    }

    /// The anchor in the first body's local frame.
    #[allow(non_snake_case)]
    pub fn jointAnchor1(&self, handle: u32) -> (r: Result<RawVector2, JointError>)
        ensures
            r == (match self.spec_get(handle) {
                Some(j) => Ok(j.params.spec_anchor1()),
                None => Err(JointError::NotFound),
            }),
    {
        let j = self.get(handle)?;
        Ok(j.params.anchor1())
    }

    /// The anchor in the second body's local frame.
    #[allow(non_snake_case)]
    pub fn jointAnchor2(&self, handle: u32) -> (r: Result<RawVector2, JointError>)
        ensures
            r == (match self.spec_get(handle) {
                Some(j) => Ok(j.params.spec_anchor2()),
                None => Err(JointError::NotFound),
            }),
    {
        let j = self.get(handle)?;
        Ok(j.params.anchor2())
    }

    /// The axis in the first body's local frame, for prismatic joints.
    #[allow(non_snake_case)]
    pub fn jointAxis1(&self, handle: u32) -> (r: Result<Option<RawVector2>, JointError>)
        ensures
            r == (match self.spec_get(handle) {
                Some(j) => Ok(j.params.spec_axis1()),
                None => Err(JointError::NotFound),
            }),
    {
        let j = self.get(handle)?;
        Ok(j.params.axis1())
    }

    /// The axis in the second body's local frame, for prismatic joints.
    #[allow(non_snake_case)]
    pub fn jointAxis2(&self, handle: u32) -> (r: Result<Option<RawVector2>, JointError>)
        ensures
            r == (match self.spec_get(handle) {
                Some(j) => Ok(j.params.spec_axis2()),
                None => Err(JointError::NotFound),
            }),
    {
        let j = self.get(handle)?;
        Ok(j.params.axis2())
    }

    /// Whether the joint's limits are enforced; never for a non-prismatic joint.
    #[allow(non_snake_case)]
    pub fn jointLimitsEnabled(&self, handle: u32) -> (r: Result<bool, JointError>)
        ensures
            r == (match self.spec_get(handle) {
                Some(j) => Ok(j.params.spec_limits_enabled()),
                None => Err(JointError::NotFound),
            }),
    {
        let j = self.get(handle)?;
        Ok(j.params.limits_enabled())
    }

    /// The lower limit; unbounded for a non-prismatic joint.
    #[allow(non_snake_case)]
    pub fn jointLimitsMin(&self, handle: u32) -> (r: Result<Real, JointError>)
        ensures
            r == (match self.spec_get(handle) {
                Some(j) => Ok(j.params.spec_limits_min()),
                None => Err(JointError::NotFound),
            }),
    {
        let j = self.get(handle)?;
        Ok(j.params.limits_min())
    }

    /// The upper limit; unbounded for a non-prismatic joint.
    #[allow(non_snake_case)]
    pub fn jointLimitsMax(&self, handle: u32) -> (r: Result<Real, JointError>)
        ensures
            r == (match self.spec_get(handle) {
                Some(j) => Ok(j.params.spec_limits_max()),
                None => Err(JointError::NotFound),
            }),
    {
        let j = self.get(handle)?;
        Ok(j.params.limits_max())
    }

    /// Moves the first anchor; a fixed joint is left as it is.
    #[allow(non_snake_case)]
    pub fn setJointAnchor1(&mut self, handle: u32, new_pos: &RawVector2) -> (r: Result<(), JointError>)
        ensures
            r == (if old(self).spec_get(handle) is Some { Ok(()) } else { Err(JointError::NotFound) }),
            final(self)@ == (match old(self).spec_get(handle) {
                Some(j) => old(self).spec_with_params(handle, j.params.with_anchor1(*new_pos)),
                None => old(self)@,
            }),
    {
        let j = self.get(handle)?;
        let mut params = j.params;
        params.set_anchor1(*new_pos);
        self.replace_params(handle, params);
        Ok(())
    }

    /// Moves the second anchor; a fixed joint is left as it is.
    #[allow(non_snake_case)]
    pub fn setJointAnchor2(&mut self, handle: u32, new_pos: &RawVector2) -> (r: Result<(), JointError>)
        ensures
            r == (if old(self).spec_get(handle) is Some { Ok(()) } else { Err(JointError::NotFound) }),
            final(self)@ == (match old(self).spec_get(handle) {
                Some(j) => old(self).spec_with_params(handle, j.params.with_anchor2(*new_pos)),
                None => old(self)@,
            }),
    {
        let j = self.get(handle)?;
        let mut params = j.params;
        params.set_anchor2(*new_pos);
        self.replace_params(handle, params);
        Ok(())
    }

    /// Sets the motor's model; a fixed joint, which has no motor, is left as it is.
    #[allow(non_snake_case)]
    pub fn jointConfigureMotorModel(&mut self, handle: u32, model: RawSpringModel) -> (r: Result<(), JointError>)
        ensures
            r == (if old(self).spec_get(handle) is Some { Ok(()) } else { Err(JointError::NotFound) }),
            final(self)@ == (match old(self).spec_get(handle) {
                Some(j) => old(self).spec_with_params(handle, j.params.with_motor_model(model)),
                None => old(self)@,
            }),
    {
        let j = self.get(handle)?;
        let mut params = j.params;
        params.configure_motor_model(model);
        self.replace_params(handle, params);
        Ok(())
    }

    /// Sets the target velocity of a ball or prismatic joint's motor.
    #[allow(non_snake_case)]
    pub fn jointConfigureUnitMotorVelocity(&mut self, handle: u32, target_vel: Real, factor: Real) -> (r: Result<(), JointError>)
        ensures
            r == (if old(self).spec_get(handle) is Some { Ok(()) } else { Err(JointError::NotFound) }),
            final(self)@ == (match old(self).spec_get(handle) {
                Some(j) => old(self).spec_with_params(handle, j.params.with_unit_motor_velocity(target_vel, factor)),
                None => old(self)@,
            }),
    {
        let j = self.get(handle)?;
        let mut params = j.params;
        params.configure_unit_motor_velocity(target_vel, factor);
        self.replace_params(handle, params);
        Ok(())
    }

    /// Sets the target position of a ball or prismatic joint's motor. A
    /// prismatic joint aims at `target_pos`; a ball joint at `target_rot`,
    /// the rotation by the angle `target_pos`.
    #[allow(non_snake_case)]
    pub fn jointConfigureUnitMotorPosition(&mut self, handle: u32, target_pos: Real, target_rot: RawRotation2, stiffness: Real, damping: Real) -> (r: Result<(), JointError>)
        ensures
            r == (if old(self).spec_get(handle) is Some { Ok(()) } else { Err(JointError::NotFound) }),
            final(self)@ == (match old(self).spec_get(handle) {
                Some(j) => old(self).spec_with_params(handle, j.params.with_unit_motor_position(target_pos, target_rot, stiffness, damping)),
                None => old(self)@,
            }),
    {
        let j = self.get(handle)?;
        let mut params = j.params;
        params.configure_unit_motor_position(target_pos, target_rot, stiffness, damping);
        self.replace_params(handle, params);
        Ok(())
    }

    /// Sets both targets of a ball or prismatic joint's motor. A prismatic joint
    /// aims at `target_pos`; a ball joint at `target_rot`, the rotation by the
    /// angle `target_pos`.
    #[allow(non_snake_case)]
    pub fn jointConfigureUnitMotor(&mut self, handle: u32, target_pos: Real, target_rot: RawRotation2, target_vel: Real, stiffness: Real, damping: Real) -> (r: Result<(), JointError>)
        ensures
            r == (if old(self).spec_get(handle) is Some { Ok(()) } else { Err(JointError::NotFound) }),
            final(self)@ == (match old(self).spec_get(handle) {
                Some(j) => old(self).spec_with_params(handle, j.params.with_unit_motor(target_pos, target_rot, target_vel, stiffness, damping)),
                None => old(self)@,
            }),
    {
        let j = self.get(handle)?;
        let mut params = j.params;
        params.configure_unit_motor(target_pos, target_rot, target_vel, stiffness, damping);
        self.replace_params(handle, params);
        Ok(())
    }
}

} // verus!
