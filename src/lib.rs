//! Kinematic joint descriptors and handle-indexed joint sets, in 3D and in
//! the plane.
//!
//! Scalars are carried as the bit patterns of single-precision values, so
//! every stored anchor, axis, limit and motor target comes back bit for bit.
//! Normalizing axes and quaternions, and building a frame rotation from an
//! axis, are left to the caller: the joint set says which axis to align, or
//! which rotation to use as it is.
pub mod math;
pub mod motor;
pub mod params;
pub mod joint_set;
pub mod laws;
pub mod planar;
