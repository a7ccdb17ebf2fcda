//! The discrete core of a position-based (XPBD) constraint solver.
//!
//! A constraint binds a fixed number of bodies, named by opaque handles, in an
//! order that fixes the sign conventions of its correction rule. This crate
//! holds everything about constraints that is decided without arithmetic on
//! scalars: which bodies a constraint touches and in which order, how the
//! handles are rewritten when the host relocates its bodies, how a
//! tetrahedron is oriented at construction, which body is paired with which
//! face in the volume rule, which line segments picture a constraint, and the
//! state machine of dragging a body with the pointer.
//!
//! Scalars and positions pass through untouched: every type here is generic
//! in them, and the host does the arithmetic.
//!
//! Everything is proved against the contracts written on it, with three
//! exceptions that are believed as stated: what a lookup does to the engine's
//! entity mapper ([`mapper`]), and the two uses of `itertools` that take a
//! list apart into a pair or into four corners ([`wireframe`]).

pub mod body;
pub mod constraint;
pub mod edge;
pub mod isometric_bending;
pub mod mapper;
pub mod particle_drag;
pub mod volume;
pub mod wireframe;

pub use body::BodyId;
pub use constraint::XpbdConstraint;
pub use edge::EdgeConstraint;
pub use isometric_bending::IsometricBendingConstraint;
pub use particle_drag::DragParticle;
pub use volume::{
    gradient_faces, GradientFace, Orientation, SignedVolume, VolumeConstraint, VolumeError,
};
pub use wireframe::{
    draw_debug_edge_constraints, draw_debug_isometric_bend_constraints,
    draw_debug_volume_constraints,
};
