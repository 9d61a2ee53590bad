//! Host-side model of a GPU ray tracer: the exact byte layout of every
//! buffer the compute kernel reads, the scene that fills them, the fixed
//! binding tables of the compute and render stages, and the per-frame
//! state machine that sequences update, dispatch and presentation.
//!
//! Floating-point values are carried as their IEEE-754 bit patterns (`u32`),
//! which is all the packing logic needs to know of them.
pub mod bindings;
pub mod camera;
pub mod frame;
pub mod globals;
pub mod intersectable;
pub mod layout;
pub mod quad;
pub mod material;
pub mod scene;
pub mod sphere;
