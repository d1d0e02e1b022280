//! The verified core of a free-look 3D scene: the camera and its controller,
//! the handling of input events, the light record, the transform, and the
//! store of entities and components.
//!
//! Numbers are carried as binary32 encodings (see [`scalar`]). The core makes
//! every decision on them in integer arithmetic: which key pushes where,
//! when a mouse move counts, when what was gathered for a frame is
//! forgotten, how far the pitch may go, which factor of a product comes
//! first. Arithmetic that rounds is left to the caller, who hands it in as
//! a function where the core needs its result.

pub mod camera;
pub mod ecs;
pub mod input;
pub mod light;
pub mod scalar;
pub mod transform;
