use vstd::prelude::*;

use crate::math::{Isometry, RawRotation, RawVector, Real, MAX_BITS, NEG_MAX_BITS};
use crate::motor::{AngularMotor, RawSpringModel, UnitMotor};

verus! {

/// The kind of a joint.
#[derive(Clone, Copy, Debug, PartialEq, Eq, Structural)]
pub enum RawJointType {
    Ball,
    Fixed,
    Prismatic,
    Revolute,
}

/// Keeps the anchors coincident: three rotational degrees of freedom remain.
#[derive(Clone, Copy, Debug, PartialEq, Eq, Structural)]
pub struct BallJoint {
    pub local_anchor1: RawVector,
    pub local_anchor2: RawVector,
    pub motor: AngularMotor,
}

/// Locks two frames together: no degree of freedom remains.
#[derive(Clone, Copy, Debug, PartialEq, Eq, Structural)]
pub struct FixedJoint {
    pub local_frame1: Isometry,
    pub local_frame2: Isometry,
}

/// Leaves one translation, along the axis.
///
/// The axes and tangents are unit vectors; each tangent spans, with its
/// axis, a local basis.
#[derive(Clone, Copy, Debug, PartialEq, Eq, Structural)]
pub struct PrismaticJoint {
    pub local_anchor1: RawVector,
    pub local_axis1: RawVector,
    pub local_tangent1: RawVector,
    pub local_anchor2: RawVector,
    pub local_axis2: RawVector,
    pub local_tangent2: RawVector,
    pub limits_enabled: bool,
    pub limits_min: Real,
    pub limits_max: Real,
    pub motor: UnitMotor,
}

/// Leaves one rotation, about the axis. The axes are unit vectors.
#[derive(Clone, Copy, Debug, PartialEq, Eq, Structural)]
pub struct RevoluteJoint {
    pub local_anchor1: RawVector,
    pub local_axis1: RawVector,
    pub local_anchor2: RawVector,
    pub local_axis2: RawVector,
    pub motor: UnitMotor,
}

/// The parameters of a joint, by kind.
#[derive(Clone, Copy, Debug, PartialEq, Eq, Structural)]
pub enum JointParams {
    Ball(BallJoint),
    Fixed(FixedJoint),
    Prismatic(PrismaticJoint),
    Revolute(RevoluteJoint),
}

/// How the rotation that takes the first basis axis onto a joint's local
/// axis is had: given outright, or to be built from the unit axis.
#[derive(Clone, Copy, Debug, PartialEq, Eq, Structural)]
pub enum FrameAlignment {
    Rotation(RawRotation),
    AlignAxis(RawVector),
}

/// A joint descriptor, ready to be inserted into a joint set.
#[derive(Clone, Copy, Debug, PartialEq, Eq, Structural)]
pub struct RawJointParams(pub JointParams);

pub open spec fn ball_joint(anchor1: RawVector, anchor2: RawVector) -> BallJoint {
    BallJoint {
        local_anchor1: anchor1,
        local_anchor2: anchor2,
        motor: AngularMotor {
            model: RawSpringModel::Disabled,
            target_vel: RawVector { x: Real { bits: 0 }, y: Real { bits: 0 }, z: Real { bits: 0 } },
            target_pos: RawRotation::spec_identity(),
            stiffness: Real { bits: 0 },
            damping: Real { bits: 0 },
        },
    }
}

/// A unit motor at rest under the velocity-based model.
pub open spec fn resting_unit_motor() -> UnitMotor {
    UnitMotor {
        model: RawSpringModel::VelocityBased,
        target_vel: Real { bits: 0 },
        target_pos: Real { bits: 0 },
        stiffness: Real { bits: 0 },
        damping: Real { bits: 0 },
    }
}

/// Limits are kept only when enabled; otherwise the range is unbounded.
pub open spec fn prismatic_joint(
    anchor1: RawVector,
    axis1: RawVector,
    tangent1: RawVector,
    anchor2: RawVector,
    axis2: RawVector,
    tangent2: RawVector,
    limits_enabled: bool,
    limits_min: Real,
    limits_max: Real,
) -> PrismaticJoint {
    PrismaticJoint {
        local_anchor1: anchor1,
        local_axis1: axis1,
        local_tangent1: tangent1,
        local_anchor2: anchor2,
        local_axis2: axis2,
        local_tangent2: tangent2,
        limits_enabled,
        limits_min: if limits_enabled { limits_min } else { Real { bits: NEG_MAX_BITS } },
        limits_max: if limits_enabled { limits_max } else { Real { bits: MAX_BITS } },
        motor: resting_unit_motor(),
    }
}

pub open spec fn revolute_joint(
    anchor1: RawVector,
    axis1: RawVector,
    anchor2: RawVector,
    axis2: RawVector,
) -> RevoluteJoint {
    RevoluteJoint {
        local_anchor1: anchor1,
        local_axis1: axis1,
        local_anchor2: anchor2,
        local_axis2: axis2,
        motor: resting_unit_motor(),
    }
}

pub open spec fn fixed_joint(
    anchor1: RawVector,
    axes1: RawRotation,
    anchor2: RawVector,
    axes2: RawRotation,
) -> FixedJoint {
    FixedJoint {
        local_frame1: Isometry { translation: anchor1, rotation: axes1 },
        local_frame2: Isometry { translation: anchor2, rotation: axes2 },
    }
}

impl JointParams {
    pub open spec fn spec_kind(self) -> RawJointType {
        match self {
            JointParams::Ball(_) => RawJointType::Ball,
            JointParams::Fixed(_) => RawJointType::Fixed,
            JointParams::Prismatic(_) => RawJointType::Prismatic,
            JointParams::Revolute(_) => RawJointType::Revolute,
        }
    }

    /// A fixed joint's anchor is the translation of its frame.
    pub open spec fn spec_anchor1(self) -> RawVector {
        match self {
            JointParams::Ball(b) => b.local_anchor1,
            JointParams::Fixed(f) => f.local_frame1.translation,
            JointParams::Prismatic(p) => p.local_anchor1,
            JointParams::Revolute(r) => r.local_anchor1,
        }
    }

    pub open spec fn spec_anchor2(self) -> RawVector {
        match self {
            JointParams::Ball(b) => b.local_anchor2,
            JointParams::Fixed(f) => f.local_frame2.translation,
            JointParams::Prismatic(p) => p.local_anchor2,
            JointParams::Revolute(r) => r.local_anchor2,
        }
    }

    /// Only prismatic and revolute joints have an axis.
    pub open spec fn spec_axis1(self) -> Option<RawVector> {
        match self {
            JointParams::Prismatic(p) => Some(p.local_axis1),
            JointParams::Revolute(r) => Some(r.local_axis1),
            _ => None,
        }
    }

    pub open spec fn spec_axis2(self) -> Option<RawVector> {
        match self {
            JointParams::Prismatic(p) => Some(p.local_axis2),
            JointParams::Revolute(r) => Some(r.local_axis2),
            _ => None,
        }
    }

    /// A ball joint has no preferred axis: identity. A fixed joint's frame
    /// gives the rotation outright.
    pub open spec fn spec_frame_x1(self) -> FrameAlignment {
        match self {
            JointParams::Ball(_) => FrameAlignment::Rotation(RawRotation::spec_identity()),
            JointParams::Fixed(f) => FrameAlignment::Rotation(f.local_frame1.rotation),
            JointParams::Prismatic(p) => FrameAlignment::AlignAxis(p.local_axis1),
            JointParams::Revolute(r) => FrameAlignment::AlignAxis(r.local_axis1),
        }
    }

    pub open spec fn spec_frame_x2(self) -> FrameAlignment {
        match self {
            JointParams::Ball(_) => FrameAlignment::Rotation(RawRotation::spec_identity()),
            JointParams::Fixed(f) => FrameAlignment::Rotation(f.local_frame2.rotation),
            JointParams::Prismatic(p) => FrameAlignment::AlignAxis(p.local_axis2),
            JointParams::Revolute(r) => FrameAlignment::AlignAxis(r.local_axis2),
        }
    }

    /// Joints other than prismatic ones report disabled, unbounded limits.
    pub open spec fn spec_limits_enabled(self) -> bool {
        match self {
            JointParams::Prismatic(p) => p.limits_enabled,
            _ => false,
        }
    }

    pub open spec fn spec_limits_min(self) -> Real {
        match self {
            JointParams::Prismatic(p) => p.limits_min,
            _ => Real { bits: NEG_MAX_BITS },
        }
    }

    pub open spec fn spec_limits_max(self) -> Real {
        match self {
            JointParams::Prismatic(p) => p.limits_max,
            _ => Real { bits: MAX_BITS },
        }
    }

    /// A fixed joint's frame cannot be moved through its anchor.
    pub open spec fn with_anchor1(self, pos: RawVector) -> JointParams {
        match self {
            JointParams::Ball(b) => JointParams::Ball(BallJoint { local_anchor1: pos, ..b }),
            JointParams::Fixed(f) => JointParams::Fixed(f),
            JointParams::Prismatic(p) => JointParams::Prismatic(
                PrismaticJoint { local_anchor1: pos, ..p },
            ),
            JointParams::Revolute(r) => JointParams::Revolute(
                RevoluteJoint { local_anchor1: pos, ..r },
            ),
        }
    }

    pub open spec fn with_anchor2(self, pos: RawVector) -> JointParams {
        match self {
            JointParams::Ball(b) => JointParams::Ball(BallJoint { local_anchor2: pos, ..b }),
            JointParams::Fixed(f) => JointParams::Fixed(f),
            JointParams::Prismatic(p) => JointParams::Prismatic(
                PrismaticJoint { local_anchor2: pos, ..p },
            ),
            JointParams::Revolute(r) => JointParams::Revolute(
                RevoluteJoint { local_anchor2: pos, ..r },
            ),
        }
    }

    /// Whether the joint carries a motor: all kinds but fixed ones.
    pub open spec fn spec_has_motor(self) -> bool {
        !(self is Fixed)
    }

    pub open spec fn with_motor_model(self, model: RawSpringModel) -> JointParams {
        match self {
            JointParams::Ball(b) => JointParams::Ball(
                BallJoint { motor: AngularMotor { model, ..b.motor }, ..b },
            ),
            JointParams::Fixed(f) => JointParams::Fixed(f),
            JointParams::Prismatic(p) => JointParams::Prismatic(
                PrismaticJoint { motor: UnitMotor { model, ..p.motor }, ..p },
            ),
            JointParams::Revolute(r) => JointParams::Revolute(
                RevoluteJoint { motor: UnitMotor { model, ..r.motor }, ..r },
            ),
        }
    }

    /// Angular motor targets reach ball joints only.
    pub open spec fn with_ball_motor_velocity(self, vel: RawVector, factor: Real) -> JointParams {
        match self {
            JointParams::Ball(b) => JointParams::Ball(
                BallJoint { motor: b.motor.with_velocity(vel, factor), ..b },
            ),
            _ => self,
        }
    }

    pub open spec fn with_ball_motor_position(
        self,
        pos: RawRotation,
        stiffness: Real,
        damping: Real,
    ) -> JointParams {
        match self {
            JointParams::Ball(b) => JointParams::Ball(
                BallJoint { motor: b.motor.with_position(pos, stiffness, damping), ..b },
            ),
            _ => self,
        }
    }

    pub open spec fn with_ball_motor(
        self,
        pos: RawRotation,
        vel: RawVector,
        stiffness: Real,
        damping: Real,
    ) -> JointParams {
        match self {
            JointParams::Ball(b) => JointParams::Ball(
                BallJoint { motor: b.motor.with_targets(pos, vel, stiffness, damping), ..b },
            ),
            _ => self,
        }
    }

    /// Scalar motor targets reach prismatic and revolute joints only.
    pub open spec fn with_unit_motor_velocity(self, vel: Real, factor: Real) -> JointParams {
        match self {
            JointParams::Prismatic(p) => JointParams::Prismatic(
                PrismaticJoint { motor: p.motor.with_velocity(vel, factor), ..p },
            ),
            JointParams::Revolute(r) => JointParams::Revolute(
                RevoluteJoint { motor: r.motor.with_velocity(vel, factor), ..r },
            ),
            _ => self,
        }
    }

    pub open spec fn with_unit_motor_position(
        self,
        pos: Real,
        stiffness: Real,
        damping: Real,
    ) -> JointParams {
        match self {
            JointParams::Prismatic(p) => JointParams::Prismatic(
                PrismaticJoint { motor: p.motor.with_position(pos, stiffness, damping), ..p },
            ),
            JointParams::Revolute(r) => JointParams::Revolute(
                RevoluteJoint { motor: r.motor.with_position(pos, stiffness, damping), ..r },
            ),
            _ => self,
        }
    }

    pub open spec fn with_unit_motor(
        self,
        pos: Real,
        vel: Real,
        stiffness: Real,
        damping: Real,
    ) -> JointParams {
        match self {
            JointParams::Prismatic(p) => JointParams::Prismatic(
                PrismaticJoint { motor: p.motor.with_targets(pos, vel, stiffness, damping), ..p },
            ),
            JointParams::Revolute(r) => JointParams::Revolute(
                RevoluteJoint { motor: r.motor.with_targets(pos, vel, stiffness, damping), ..r },
            ),
            _ => self,
        }
    }
}

impl JointParams {
    pub fn kind(&self) -> (r: RawJointType)
        ensures
            r == self.spec_kind(),
    {
        match self {
            JointParams::Ball(_) => RawJointType::Ball,
            JointParams::Fixed(_) => RawJointType::Fixed,
            JointParams::Prismatic(_) => RawJointType::Prismatic,
            JointParams::Revolute(_) => RawJointType::Revolute,
        }
    }

    pub fn anchor1(&self) -> (r: RawVector)
        ensures
            r == self.spec_anchor1(),
    {
        match self {
            JointParams::Ball(b) => b.local_anchor1,
            JointParams::Fixed(f) => f.local_frame1.translation,
            JointParams::Prismatic(p) => p.local_anchor1,
            JointParams::Revolute(r) => r.local_anchor1,
        }
    }

    pub fn anchor2(&self) -> (r: RawVector)
        ensures
            r == self.spec_anchor2(),
    {
        match self {
            JointParams::Ball(b) => b.local_anchor2,
            JointParams::Fixed(f) => f.local_frame2.translation,
            JointParams::Prismatic(p) => p.local_anchor2,
            JointParams::Revolute(r) => r.local_anchor2,
        }
    }

    pub fn axis1(&self) -> (r: Option<RawVector>)
        ensures
            r == self.spec_axis1(),
    {
        match self {
            JointParams::Prismatic(p) => Some(p.local_axis1),
            JointParams::Revolute(r) => Some(r.local_axis1),
            JointParams::Ball(_) | JointParams::Fixed(_) => None,
        }
    }

    pub fn axis2(&self) -> (r: Option<RawVector>)
        ensures
            r == self.spec_axis2(),
    {
        match self {
            JointParams::Prismatic(p) => Some(p.local_axis2),
            JointParams::Revolute(r) => Some(r.local_axis2),
            JointParams::Ball(_) | JointParams::Fixed(_) => None,
        }
    }

    pub fn frame_x1(&self) -> (r: FrameAlignment)
        ensures
            r == self.spec_frame_x1(),
    {
        match self {
            JointParams::Ball(_) => FrameAlignment::Rotation(RawRotation::identity()),
            JointParams::Fixed(f) => FrameAlignment::Rotation(f.local_frame1.rotation),
            JointParams::Prismatic(p) => FrameAlignment::AlignAxis(p.local_axis1),
            JointParams::Revolute(r) => FrameAlignment::AlignAxis(r.local_axis1),
        }
    }

    pub fn frame_x2(&self) -> (r: FrameAlignment)
        ensures
            r == self.spec_frame_x2(),
    {
        match self {
            JointParams::Ball(_) => FrameAlignment::Rotation(RawRotation::identity()),
            JointParams::Fixed(f) => FrameAlignment::Rotation(f.local_frame2.rotation),
            JointParams::Prismatic(p) => FrameAlignment::AlignAxis(p.local_axis2),
            JointParams::Revolute(r) => FrameAlignment::AlignAxis(r.local_axis2),
        }
    }

    pub fn limits_enabled(&self) -> (r: bool)
        ensures
            r == self.spec_limits_enabled(),
    {
        match self {
            JointParams::Prismatic(p) => p.limits_enabled,
            _ => false,
        }
    }

    pub fn limits_min(&self) -> (r: Real)
        ensures
            r == self.spec_limits_min(),
    {
        match self {
            JointParams::Prismatic(p) => p.limits_min,
            _ => Real::neg_max_value(),
        }
    }

    pub fn limits_max(&self) -> (r: Real)
        ensures
            r == self.spec_limits_max(),
    {
        match self {
            JointParams::Prismatic(p) => p.limits_max,
            _ => Real::max_value(),
        }
    }

    pub fn has_motor(&self) -> (r: bool)
        ensures
            r == self.spec_has_motor(),
    {
        match self {
            JointParams::Fixed(_) => false,
            _ => true,
        }
    }

    pub fn set_anchor1(&mut self, pos: RawVector)
        ensures
            *final(self) == old(self).with_anchor1(pos),
    {
        match self {
            JointParams::Ball(b) => b.local_anchor1 = pos,
            JointParams::Prismatic(p) => p.local_anchor1 = pos,
            JointParams::Revolute(r) => r.local_anchor1 = pos,
            JointParams::Fixed(_) => {},
        }
    }

    pub fn set_anchor2(&mut self, pos: RawVector)
        ensures
            *final(self) == old(self).with_anchor2(pos),
    {
        match self {
            JointParams::Ball(b) => b.local_anchor2 = pos,
            JointParams::Prismatic(p) => p.local_anchor2 = pos,
            JointParams::Revolute(r) => r.local_anchor2 = pos,
            JointParams::Fixed(_) => {},
        }
    }

    pub fn configure_motor_model(&mut self, model: RawSpringModel)
        ensures
            *final(self) == old(self).with_motor_model(model),
    {
        match self {
            JointParams::Ball(b) => b.motor.configure_model(model),
            JointParams::Prismatic(p) => p.motor.configure_model(model),
            JointParams::Revolute(r) => r.motor.configure_model(model),
            JointParams::Fixed(_) => {},
        }
    }

    pub fn configure_ball_motor_velocity(&mut self, vel: RawVector, factor: Real)
        ensures
            *final(self) == old(self).with_ball_motor_velocity(vel, factor),
    {
        match self {
            JointParams::Ball(b) => b.motor.configure_velocity(vel, factor),
            _ => {},
        }
    }

    pub fn configure_ball_motor_position(&mut self, pos: RawRotation, stiffness: Real, damping: Real)
        ensures
            *final(self) == old(self).with_ball_motor_position(pos, stiffness, damping),
    {
        match self {
            JointParams::Ball(b) => b.motor.configure_position(pos, stiffness, damping),
            _ => {},
        }
    }

    pub fn configure_ball_motor(
        &mut self,
        pos: RawRotation,
        vel: RawVector,
        stiffness: Real,
        damping: Real,
    )
        ensures
            *final(self) == old(self).with_ball_motor(pos, vel, stiffness, damping),
    {
        match self {
            JointParams::Ball(b) => b.motor.configure(pos, vel, stiffness, damping),
            _ => {},
        }
    }

    pub fn configure_unit_motor_velocity(&mut self, vel: Real, factor: Real)
        ensures
            *final(self) == old(self).with_unit_motor_velocity(vel, factor),
    {
        match self {
            JointParams::Prismatic(p) => p.motor.configure_velocity(vel, factor),
            JointParams::Revolute(r) => r.motor.configure_velocity(vel, factor),
            _ => {},
        }
    }

    pub fn configure_unit_motor_position(&mut self, pos: Real, stiffness: Real, damping: Real)
        ensures
            *final(self) == old(self).with_unit_motor_position(pos, stiffness, damping),
    {
        match self {
            JointParams::Prismatic(p) => p.motor.configure_position(pos, stiffness, damping),
            JointParams::Revolute(r) => r.motor.configure_position(pos, stiffness, damping),
            _ => {},
        }
    }

    pub fn configure_unit_motor(&mut self, pos: Real, vel: Real, stiffness: Real, damping: Real)
        ensures
            *final(self) == old(self).with_unit_motor(pos, vel, stiffness, damping),
    {
        match self {
            JointParams::Prismatic(p) => p.motor.configure(pos, vel, stiffness, damping),
            JointParams::Revolute(r) => r.motor.configure(pos, vel, stiffness, damping),
            _ => {},
        }
    }
}

impl RawJointParams {
    /// A ball joint between the two anchors, its motor disabled.
    pub fn ball(anchor1: &RawVector, anchor2: &RawVector) -> (r: RawJointParams)
        ensures
            r.0 == JointParams::Ball(ball_joint(*anchor1, *anchor2)),
    {
        let motor = AngularMotor::new(RawSpringModel::Disabled);
        RawJointParams(JointParams::Ball(BallJoint { local_anchor1: *anchor1, local_anchor2: *anchor2, motor }))
    }

    /// A prismatic joint. `axis1` and `axis2` are the normalized axes, and
    /// `tangent1` and `tangent2` the normalized tangents, each `None` where
    /// the given vector could not be normalized (a zero vector cannot); then
    /// no joint is made.
    pub fn prismatic(
        anchor1: &RawVector,
        axis1: Option<RawVector>,
        tangent1: Option<RawVector>,
        anchor2: &RawVector,
        axis2: Option<RawVector>,
        tangent2: Option<RawVector>,
        limits_enabled: bool,
        limits_min: Real,
        limits_max: Real,
    ) -> (r: Option<RawJointParams>)
        ensures
            r == (match (axis1, tangent1, axis2, tangent2) {
                (Some(a1), Some(t1), Some(a2), Some(t2)) => Some(RawJointParams(
                    JointParams::Prismatic(prismatic_joint(
                        *anchor1, a1, t1, *anchor2, a2, t2,
                        limits_enabled, limits_min, limits_max,
                    )),
                )),
                _ => None,
            }),
    {
        let a1 = match axis1 {
            Some(a) => a,
            None => return None,
        };
        let t1 = match tangent1 {
            Some(t) => t,
            None => return None,
        };
        let a2 = match axis2 {
            Some(a) => a,
            None => return None,
        };
        let t2 = match tangent2 {
            Some(t) => t,
            None => return None,
        };
        let mut joint = PrismaticJoint {
            local_anchor1: *anchor1,
            local_axis1: a1,
            local_tangent1: t1,
            local_anchor2: *anchor2,
            local_axis2: a2,
            local_tangent2: t2,
            limits_enabled: false,
            limits_min: Real::neg_max_value(),
            limits_max: Real::max_value(),
            motor: UnitMotor::new(RawSpringModel::VelocityBased),
        };
        if limits_enabled {
            joint.limits_enabled = true;
            joint.limits_min = limits_min;
            joint.limits_max = limits_max;
        }
        Some(RawJointParams(JointParams::Prismatic(joint)))
    }

    /// A fixed joint whose frames are made of each anchor and rotation.
    pub fn fixed(
        anchor1: &RawVector,
        axes1: &RawRotation,
        anchor2: &RawVector,
        axes2: &RawRotation,
    ) -> (r: RawJointParams)
        ensures
            r.0 == JointParams::Fixed(fixed_joint(*anchor1, *axes1, *anchor2, *axes2)),
    {
        let pos1 = Isometry { translation: *anchor1, rotation: *axes1 };
        let pos2 = Isometry { translation: *anchor2, rotation: *axes2 };
        RawJointParams(JointParams::Fixed(FixedJoint { local_frame1: pos1, local_frame2: pos2 }))
    }

    /// A revolute joint. `axis1` and `axis2` are the normalized axes, `None`
    /// where the given axis could not be normalized; then no joint is made.
    pub fn revolute(
        anchor1: &RawVector,
        axis1: Option<RawVector>,
        anchor2: &RawVector,
        axis2: Option<RawVector>,
    ) -> (r: Option<RawJointParams>)
        ensures
            r == (match (axis1, axis2) {
                (Some(a1), Some(a2)) => Some(RawJointParams(JointParams::Revolute(
                    revolute_joint(*anchor1, a1, *anchor2, a2),
                ))),
                _ => None,
            }),
    {
        let a1 = match axis1 {
            Some(a) => a,
            None => return None,
        };
        let a2 = match axis2 {
            Some(a) => a,
            None => return None,
        };
        Some(RawJointParams(JointParams::Revolute(RevoluteJoint {
            local_anchor1: *anchor1,
            local_axis1: a1,
            local_anchor2: *anchor2,
            local_axis2: a2,
            motor: UnitMotor::new(RawSpringModel::VelocityBased),
        })))
    }
}

} // verus!
