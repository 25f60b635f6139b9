use vstd::prelude::*;

use crate::math::{RawRotation, RawVector, Real};
use crate::motor::RawSpringModel;
use crate::params::{FrameAlignment, JointParams, RawJointParams, RawJointType};

verus! {

/// A joint between two bodies, named by their handles in a body store.
#[derive(Clone, Copy, Debug, PartialEq, Eq, Structural)]
pub struct Joint<P> {
    pub body1: u32,
    pub body2: u32,
    pub params: P,
}

/// Why a handle-keyed operation failed.
#[derive(Clone, Copy, Debug, PartialEq, Eq, Structural)]
pub enum JointError {
    /// No joint stands under the handle: it was removed or never given out.
    NotFound,
}

/// The joints of a simulation, each under the handle it got on insertion.
///
/// A handle is an index into the slots; a removed joint leaves its slot
/// empty, so that its handle is never given out again.
pub struct JointSet<P> {
    slots: Vec<Option<Joint<P>>>,
}

/// A set of 3D joints.
pub type RawJointSet = JointSet<JointParams>;

impl<P: Copy> JointSet<P> {
    /// Slot `h` holds the joint under handle `h`, if any.
    pub closed spec fn view(&self) -> Seq<Option<Joint<P>>> {
        self.slots@
    }

    pub open spec fn spec_get(&self, handle: u32) -> Option<Joint<P>> {
        if (handle as int) < self@.len() {
            self@[handle as int]
        } else {
            None
        }
    }

    pub open spec fn spec_lookup(&self, handle: u32) -> Result<Joint<P>, JointError> {
        match self.spec_get(handle) {
            Some(j) => Ok(j),
            None => Err(JointError::NotFound),
        }
    }

    /// The slots after the joint under `handle` has had its parameters
    /// replaced by `params`; unchanged where no joint stands there.
    pub open spec fn spec_with_params(&self, handle: u32, params: P) -> Seq<Option<Joint<P>>> {
        match self.spec_get(handle) {
            Some(j) => self@.update(handle as int, Some(Joint { params, ..j })),
            None => self@,
        }
    }

    pub fn new() -> (r: JointSet<P>)
        ensures
            r@.len() == 0,
    {
        JointSet { slots: Vec::new() }
    }

    /// The number of handles given out so far.
    pub fn len(&self) -> (r: usize)
        ensures
            r == self@.len(),
    {
        self.slots.len()
    }

    pub(crate) fn push_joint(&mut self, joint: Joint<P>) -> (r: u32)
        requires
            old(self)@.len() < u32::MAX,
        ensures
            r as int == old(self)@.len(),
            final(self)@ == old(self)@.push(Some(joint)),
    {
        let handle = self.slots.len() as u32;
        self.slots.push(Some(joint));
        handle
    }

    /// Takes the joint under `handle` out of the set.
    pub fn remove(&mut self, handle: u32) -> (r: Result<Joint<P>, JointError>)
        ensures
            r == old(self).spec_lookup(handle),
            r is Ok ==> final(self)@ == old(self)@.update(handle as int, None),
            r is Err ==> final(self)@ == old(self)@,
    {
        let j = self.get(handle)?;
        self.slots.set(handle as usize, None);
        Ok(j)
    }

    /// Whether a joint stands under `handle`.
    pub fn contains(&self, handle: u32) -> (r: bool)
        ensures
            r == self.spec_get(handle) is Some,
    {
        self.get(handle).is_ok()
    }

    /// The joint under `handle`, with its motor state, for the solver.
    pub fn get(&self, handle: u32) -> (r: Result<Joint<P>, JointError>)
        ensures
            r == self.spec_lookup(handle),
    {
        if (handle as usize) < self.slots.len() {
            match self.slots[handle as usize] {
                Some(j) => Ok(j),
                None => Err(JointError::NotFound),
            }
        } else {
            Err(JointError::NotFound)
        }
    }

    pub(crate) fn replace_params(&mut self, handle: u32, params: P)
        requires
            old(self).spec_get(handle) is Some,
        ensures
            final(self)@ == old(self).spec_with_params(handle, params),
    {
        let j = self.slots[handle as usize].unwrap();
        self.slots.set(handle as usize, Some(Joint { params, ..j }));
    }
}

impl JointSet<JointParams> {
    /// Adds a joint between two bodies and returns its handle.
    pub fn insert(&mut self, body1: u32, body2: u32, params: &RawJointParams) -> (r: u32)
        requires
            old(self)@.len() < u32::MAX,
        ensures
            r as int == old(self)@.len(),
            final(self)@ == old(self)@.push(Some(Joint { body1, body2, params: params.0 })),
    {
        self.push_joint(Joint { body1, body2, params: params.0 })
    }

    /// The handle of the first body the joint is attached to.
    #[allow(non_snake_case)]
    pub fn jointBodyHandle1(&self, handle: u32) -> (r: Result<u32, JointError>)
        ensures
            r == (match self.spec_get(handle) {
                Some(j) => Ok(j.body1),
                None => Err(JointError::NotFound),
            }),
    {
        let j = self.get(handle)?;
        Ok(j.body1)
    }

    /// The handle of the second body the joint is attached to.
    #[allow(non_snake_case)]
    pub fn jointBodyHandle2(&self, handle: u32) -> (r: Result<u32, JointError>)
        ensures
            r == (match self.spec_get(handle) {
                Some(j) => Ok(j.body2),
                None => Err(JointError::NotFound),
            }),
    {
        let j = self.get(handle)?;
        Ok(j.body2)
    }

    /// The kind of the joint.
    #[allow(non_snake_case)]
    pub fn jointType(&self, handle: u32) -> (r: Result<RawJointType, JointError>)
        ensures
            r == (match self.spec_get(handle) {
                Some(j) => Ok(j.params.spec_kind()),
                None => Err(JointError::NotFound),
            }),
    {
        let j = self.get(handle)?;
        Ok(j.params.kind())
    }

    /// How to get the rotation that takes the first basis axis onto the first
    /// local axis: identity for a ball joint, the frame's rotation for a fixed one.
    #[allow(non_snake_case)]
    pub fn jointFrameX1(&self, handle: u32) -> (r: Result<FrameAlignment, JointError>)
        ensures
            r == (match self.spec_get(handle) {
                Some(j) => Ok(j.params.spec_frame_x1()),
                None => Err(JointError::NotFound),
            }),
    {
        let j = self.get(handle)?;
        Ok(j.params.frame_x1())
    }

    /// As `jointFrameX1`, on the second body's side.
    #[allow(non_snake_case)]
    pub fn jointFrameX2(&self, handle: u32) -> (r: Result<FrameAlignment, JointError>)
        ensures
            r == (match self.spec_get(handle) {
                Some(j) => Ok(j.params.spec_frame_x2()),
                None => Err(JointError::NotFound),
            }),
    {
        let j = self.get(handle)?;
        Ok(j.params.frame_x2())
    }

    /// The anchor in the first body's local frame.
    #[allow(non_snake_case)]
    pub fn jointAnchor1(&self, handle: u32) -> (r: Result<RawVector, JointError>)
        ensures
            r == (match self.spec_get(handle) {
                Some(j) => Ok(j.params.spec_anchor1()),
                None => Err(JointError::NotFound),
            }),
    {
        let j = self.get(handle)?;
        Ok(j.params.anchor1())
    }

    /// The anchor in the second body's local frame.
    #[allow(non_snake_case)]
    pub fn jointAnchor2(&self, handle: u32) -> (r: Result<RawVector, JointError>)
        ensures
            r == (match self.spec_get(handle) {
                Some(j) => Ok(j.params.spec_anchor2()),
                None => Err(JointError::NotFound),
            }),
    {
        let j = self.get(handle)?;
        Ok(j.params.anchor2())
    }

    /// The axis in the first body's local frame, for joints that have one.
    #[allow(non_snake_case)]
    pub fn jointAxis1(&self, handle: u32) -> (r: Result<Option<RawVector>, JointError>)
        ensures
            r == (match self.spec_get(handle) {
                Some(j) => Ok(j.params.spec_axis1()),
                None => Err(JointError::NotFound),
            }),
    {
        let j = self.get(handle)?;
        Ok(j.params.axis1())
    }

    /// The axis in the second body's local frame, for joints that have one.
    #[allow(non_snake_case)]
    pub fn jointAxis2(&self, handle: u32) -> (r: Result<Option<RawVector>, JointError>)
        ensures
            r == (match self.spec_get(handle) {
                Some(j) => Ok(j.params.spec_axis2()),
                None => Err(JointError::NotFound),
            }),
    {
        let j = self.get(handle)?;
        Ok(j.params.axis2())
    }

    /// Whether the joint's limits are enforced; never for a non-prismatic joint.
    #[allow(non_snake_case)]
    pub fn jointLimitsEnabled(&self, handle: u32) -> (r: Result<bool, JointError>)
        ensures
            r == (match self.spec_get(handle) {
                Some(j) => Ok(j.params.spec_limits_enabled()),
                None => Err(JointError::NotFound),
            }),
    {
        let j = self.get(handle)?;
        Ok(j.params.limits_enabled())
    }

    /// The lower limit; unbounded for a non-prismatic joint.
    #[allow(non_snake_case)]
    pub fn jointLimitsMin(&self, handle: u32) -> (r: Result<Real, JointError>)
        ensures
            r == (match self.spec_get(handle) {
                Some(j) => Ok(j.params.spec_limits_min()),
                None => Err(JointError::NotFound),
            }),
    {
        let j = self.get(handle)?;
        Ok(j.params.limits_min())
    }

    /// The upper limit; unbounded for a non-prismatic joint.
    #[allow(non_snake_case)]
    pub fn jointLimitsMax(&self, handle: u32) -> (r: Result<Real, JointError>)
        ensures
            r == (match self.spec_get(handle) {
                Some(j) => Ok(j.params.spec_limits_max()),
                None => Err(JointError::NotFound),
            }),
    {
        let j = self.get(handle)?;
        Ok(j.params.limits_max())
    }

    /// Moves the first anchor; a fixed joint is left as it is.
    #[allow(non_snake_case)]
    pub fn setJointAnchor1(&mut self, handle: u32, new_pos: &RawVector) -> (r: Result<(), JointError>)
        ensures
            r == (if old(self).spec_get(handle) is Some { Ok(()) } else { Err(JointError::NotFound) }),
            final(self)@ == (match old(self).spec_get(handle) {
                Some(j) => old(self).spec_with_params(handle, j.params.with_anchor1(*new_pos)),
                None => old(self)@,
            }),
    {
        let j = self.get(handle)?;
        let mut params = j.params;
        params.set_anchor1(*new_pos);
        self.replace_params(handle, params);
        Ok(())
    }

    /// Moves the second anchor; a fixed joint is left as it is.
    #[allow(non_snake_case)]
    pub fn setJointAnchor2(&mut self, handle: u32, new_pos: &RawVector) -> (r: Result<(), JointError>)
        ensures
            r == (if old(self).spec_get(handle) is Some { Ok(()) } else { Err(JointError::NotFound) }),
            final(self)@ == (match old(self).spec_get(handle) {
                Some(j) => old(self).spec_with_params(handle, j.params.with_anchor2(*new_pos)),
                None => old(self)@,
            }),
    {
        let j = self.get(handle)?;
        let mut params = j.params;
        params.set_anchor2(*new_pos);
        self.replace_params(handle, params);
        Ok(())
    }

    /// Sets the motor's model; a fixed joint, which has no motor, is left as it is.
    #[allow(non_snake_case)]
    pub fn jointConfigureMotorModel(&mut self, handle: u32, model: RawSpringModel) -> (r: Result<(), JointError>)
        ensures
            r == (if old(self).spec_get(handle) is Some { Ok(()) } else { Err(JointError::NotFound) }),
            final(self)@ == (match old(self).spec_get(handle) {
                Some(j) => old(self).spec_with_params(handle, j.params.with_motor_model(model)),
                None => old(self)@,
            }),
    {
        let j = self.get(handle)?;
        let mut params = j.params;
        params.configure_motor_model(model);
        self.replace_params(handle, params);
        Ok(())
    }

    /// Sets a ball joint's target angular velocity; other joints are left as they are.
    #[allow(non_snake_case)]
    pub fn jointConfigureBallMotorVelocity(&mut self, handle: u32, vx: Real, vy: Real, vz: Real, factor: Real) -> (r: Result<(), JointError>)
        ensures
            r == (if old(self).spec_get(handle) is Some { Ok(()) } else { Err(JointError::NotFound) }),
            final(self)@ == (match old(self).spec_get(handle) {
                Some(j) => old(self).spec_with_params(handle, j.params.with_ball_motor_velocity(RawVector { x: vx, y: vy, z: vz }, factor)),
                None => old(self)@,
            }),
    {
        let j = self.get(handle)?;
        let mut params = j.params;
        params.configure_ball_motor_velocity(RawVector::new(vx, vy, vz), factor);
        self.replace_params(handle, params);
        Ok(())
    }

    /// Sets the target velocity of a prismatic or revolute joint's motor;
    /// other joints are left as they are.
    #[allow(non_snake_case)]
    pub fn jointConfigureUnitMotorVelocity(&mut self, handle: u32, target_vel: Real, factor: Real) -> (r: Result<(), JointError>)
        ensures
            r == (if old(self).spec_get(handle) is Some { Ok(()) } else { Err(JointError::NotFound) }),
            final(self)@ == (match old(self).spec_get(handle) {
                Some(j) => old(self).spec_with_params(handle, j.params.with_unit_motor_velocity(target_vel, factor)),
                None => old(self)@,
            }),
    {
        let j = self.get(handle)?;
        let mut params = j.params;
        params.configure_unit_motor_velocity(target_vel, factor);
        self.replace_params(handle, params);
        Ok(())
    }

    /// Sets the target position of a prismatic or revolute joint's motor;
    /// other joints are left as they are.
    #[allow(non_snake_case)]
    pub fn jointConfigureUnitMotorPosition(&mut self, handle: u32, target_pos: Real, stiffness: Real, damping: Real) -> (r: Result<(), JointError>)
        ensures
            r == (if old(self).spec_get(handle) is Some { Ok(()) } else { Err(JointError::NotFound) }),
            final(self)@ == (match old(self).spec_get(handle) {
                Some(j) => old(self).spec_with_params(handle, j.params.with_unit_motor_position(target_pos, stiffness, damping)),
                None => old(self)@,
            }),
    {
        let j = self.get(handle)?;
        let mut params = j.params;
        params.configure_unit_motor_position(target_pos, stiffness, damping);
        self.replace_params(handle, params);
        Ok(())
    }

    /// Sets both targets of a prismatic or revolute joint's motor; other joints
    /// are left as they are.
    #[allow(non_snake_case)]
    pub fn jointConfigureUnitMotor(&mut self, handle: u32, target_pos: Real, target_vel: Real, stiffness: Real, damping: Real) -> (r: Result<(), JointError>)
        ensures
            r == (if old(self).spec_get(handle) is Some { Ok(()) } else { Err(JointError::NotFound) }),
            final(self)@ == (match old(self).spec_get(handle) {
                Some(j) => old(self).spec_with_params(handle, j.params.with_unit_motor(target_pos, target_vel, stiffness, damping)),
                None => old(self)@,
            }),
    {
        let j = self.get(handle)?;
        let mut params = j.params;
        params.configure_unit_motor(target_pos, target_vel, stiffness, damping);
        self.replace_params(handle, params);
        Ok(())
    }

    /// Sets a ball joint's target orientation. `target` is the normalized
    /// quaternion, `None` where it could not be normalized: then, as for
    /// other joints, nothing changes.
    #[allow(non_snake_case)]
    pub fn jointConfigureBallMotorPosition(
        &mut self,
        handle: u32,
        target: Option<RawRotation>,
        stiffness: Real,
        damping: Real,
    ) -> (r: Result<(), JointError>)
        ensures
            r == (if old(self).spec_get(handle) is Some { Ok(()) } else { Err(JointError::NotFound) }),
            final(self)@ == (match (old(self).spec_get(handle), target) {
                (Some(j), Some(q)) => old(self).spec_with_params(
                    handle,
                    j.params.with_ball_motor_position(q, stiffness, damping),
                ),
                _ => old(self)@,
            }),
    {
        let j = self.get(handle)?;
        if let Some(q) = target {
            let mut params = j.params;
            params.configure_ball_motor_position(q, stiffness, damping);
            self.replace_params(handle, params);
        }
        Ok(())
    }

    /// Sets both targets of a ball joint's motor. `target` is the normalized
    /// quaternion, `None` where it could not be normalized: then, as for
    /// other joints, nothing changes.
    #[allow(non_snake_case)]
    pub fn jointConfigureBallMotor(
        &mut self,
        handle: u32,
        target: Option<RawRotation>,
        vx: Real,
        vy: Real,
        vz: Real,
        stiffness: Real,
        damping: Real,
    ) -> (r: Result<(), JointError>)
        ensures
            r == (if old(self).spec_get(handle) is Some { Ok(()) } else { Err(JointError::NotFound) }),
            final(self)@ == (match (old(self).spec_get(handle), target) {
                (Some(j), Some(q)) => old(self).spec_with_params(
                    handle,
                    j.params.with_ball_motor(q, RawVector { x: vx, y: vy, z: vz }, stiffness, damping),
                ),
                _ => old(self)@,
            }),
    {
        let j = self.get(handle)?;
        if let Some(q) = target {
            let mut params = j.params;
            params.configure_ball_motor(q, RawVector::new(vx, vy, vz), stiffness, damping);
            self.replace_params(handle, params);
        }
        Ok(())
    }
}

} // verus!
