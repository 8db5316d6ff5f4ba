//! The frame protocol of a small forward renderer, verified with Verus.
//!
//! GPU objects are named by handles; the library decides what is created,
//! configured and drawn, and the embedding program carries it out.
pub mod handles;
pub mod resources;
pub mod registry;
pub mod render_object;
pub mod main_pass;
pub mod renderer;
pub mod surface;
pub mod texture;
pub mod bind_groups;
pub mod global_bindings;
pub mod buffer;
pub mod camera_controller;
