use vstd::prelude::*;

use crate::math::{RawRotation, RawVector, Real};

verus! {

/// How the solver reads a motor's stiffness, damping and targets.
#[derive(Clone, Copy, Debug, PartialEq, Eq, Structural)]
pub enum RawSpringModel {
    Disabled,
    VelocityBased,
    AccelerationBased,
    ForceBased,
}

/// A motor driving one scalar degree of freedom: a translation along an
/// axis, or a rotation about one.
#[derive(Clone, Copy, Debug, PartialEq, Eq, Structural)]
pub struct UnitMotor {
    pub model: RawSpringModel,
    pub target_vel: Real,
    pub target_pos: Real,
    pub stiffness: Real,
    pub damping: Real,
}

/// A motor driving the three rotational degrees of freedom of a ball joint.
#[derive(Clone, Copy, Debug, PartialEq, Eq, Structural)]
pub struct AngularMotor {
    pub model: RawSpringModel,
    pub target_vel: RawVector,
    pub target_pos: RawRotation,
    pub stiffness: Real,
    pub damping: Real,
}

impl UnitMotor {
    /// Aims at a velocity alone: stiffness drops to zero and `factor`
    /// becomes the damping.
    pub open spec fn with_velocity(self, target_vel: Real, factor: Real) -> UnitMotor {
        UnitMotor { target_vel, stiffness: Real { bits: 0 }, damping: factor, ..self }
    }

    /// Aims at a position alone: the target velocity drops to zero.
    pub open spec fn with_position(self, target_pos: Real, stiffness: Real, damping: Real) -> UnitMotor {
        UnitMotor { target_pos, target_vel: Real { bits: 0 }, stiffness, damping, ..self }
    }

    pub open spec fn with_targets(
        self,
        target_pos: Real,
        target_vel: Real,
        stiffness: Real,
        damping: Real,
    ) -> UnitMotor {
        UnitMotor { target_pos, target_vel, stiffness, damping, ..self }
    }

    /// A motor with all targets and gains at zero, under `model`.
    pub fn new(model: RawSpringModel) -> (r: UnitMotor)
        ensures
            r.model == model,
            r.target_vel.bits == 0,
            r.target_pos.bits == 0,
            r.stiffness.bits == 0,
            r.damping.bits == 0,
    {
        UnitMotor {
            model,
            target_vel: Real::zero(),
            target_pos: Real::zero(),
            stiffness: Real::zero(),
            damping: Real::zero(),
        }
    }

    pub fn configure_model(&mut self, model: RawSpringModel)
        ensures
            *final(self) == (UnitMotor { model, ..*old(self) }),
    {
        self.model = model;
    }

    pub fn configure_velocity(&mut self, target_vel: Real, factor: Real)
        ensures
            *final(self) == old(self).with_velocity(target_vel, factor),
    {
        let pos = self.target_pos;
        self.configure(pos, target_vel, Real::zero(), factor);
    }

    pub fn configure_position(&mut self, target_pos: Real, stiffness: Real, damping: Real)
        ensures
            *final(self) == old(self).with_position(target_pos, stiffness, damping),
    {
        self.configure(target_pos, Real::zero(), stiffness, damping);
    }

    pub fn configure(&mut self, target_pos: Real, target_vel: Real, stiffness: Real, damping: Real)
        ensures
            *final(self) == old(self).with_targets(target_pos, target_vel, stiffness, damping),
    {
        self.target_vel = target_vel;
        self.target_pos = target_pos;
        self.stiffness = stiffness;
        self.damping = damping;
    }
}

impl AngularMotor {
    /// Aims at an angular velocity alone: stiffness drops to zero and
    /// `factor` becomes the damping.
    pub open spec fn with_velocity(self, target_vel: RawVector, factor: Real) -> AngularMotor {
        AngularMotor { target_vel, stiffness: Real { bits: 0 }, damping: factor, ..self }
    }

    /// Aims at an orientation alone: the target velocity drops to zero.
    pub open spec fn with_position(
        self,
        target_pos: RawRotation,
        stiffness: Real,
        damping: Real,
    ) -> AngularMotor {
        AngularMotor {
            target_pos,
            target_vel: RawVector { x: Real { bits: 0 }, y: Real { bits: 0 }, z: Real { bits: 0 } },
            stiffness,
            damping,
            ..self
        }
    }

    pub open spec fn with_targets(
        self,
        target_pos: RawRotation,
        target_vel: RawVector,
        stiffness: Real,
        damping: Real,
    ) -> AngularMotor {
        AngularMotor { target_pos, target_vel, stiffness, damping, ..self }
    }

    /// A motor at rest, aiming at the identity orientation, under `model`.
    pub fn new(model: RawSpringModel) -> (r: AngularMotor)
        ensures
            r.model == model,
            r.target_vel.x.bits == 0 && r.target_vel.y.bits == 0 && r.target_vel.z.bits == 0,
            r.target_pos == RawRotation::spec_identity(),
            r.stiffness.bits == 0,
            r.damping.bits == 0,
    {
        AngularMotor {
            model,
            target_vel: RawVector::zeros(),
            target_pos: RawRotation::identity(),
            stiffness: Real::zero(),
            damping: Real::zero(),
        }
    }

    pub fn configure_model(&mut self, model: RawSpringModel)
        ensures
            *final(self) == (AngularMotor { model, ..*old(self) }),
    {
        self.model = model;
    }

    pub fn configure_velocity(&mut self, target_vel: RawVector, factor: Real)
        ensures
            *final(self) == old(self).with_velocity(target_vel, factor),
    {
        let pos = self.target_pos;
        self.configure(pos, target_vel, Real::zero(), factor);
    }

    pub fn configure_position(&mut self, target_pos: RawRotation, stiffness: Real, damping: Real)
        ensures
            *final(self) == old(self).with_position(target_pos, stiffness, damping),
    {
        self.configure(target_pos, RawVector::zeros(), stiffness, damping);
    }

    pub fn configure(
        &mut self,
        target_pos: RawRotation,
        target_vel: RawVector,
        stiffness: Real,
        damping: Real,
    )
        ensures
            *final(self) == old(self).with_targets(target_pos, target_vel, stiffness, damping),
    {
        self.target_vel = target_vel;
        self.target_pos = target_pos;
        self.stiffness = stiffness;
        self.damping = damping;
    }
}

} // verus!
