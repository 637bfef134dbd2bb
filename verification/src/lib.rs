//! Core logic of a two-pass renderer: a scene pass draws into an offscreen
//! color target, and a swappable post-processing pass samples that target
//! and writes the result to the presentable surface.
//!
//! Everything here works on plain values: the per-frame globals record, the
//! registry of interchangeable post-processing effects, the descriptors the
//! GPU objects are built from, and the plan for one frame. An unverified
//! shell owns the window, the device and the queue; it feeds events and
//! acquisition results in, and executes the plans and directives that come
//! back out.

pub mod frame;
pub mod post_processing;
pub mod rectangle;
pub mod registry;
pub mod shader_globals;
pub mod surface;
