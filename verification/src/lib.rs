//! Core logic of the psionic engine: the data model of scenes, resources and
//! render batches, the OpenGL enumerations, the input state machine and the
//! scene loading plan, each with a verified contract.
//! Everything that talks to the GPU, the window system or the file system
//! lives outside this crate and hands plain values in.

pub mod demo;
pub mod geometry;
pub mod gl_enums;
pub mod gpu_objects;
pub mod id_map;
pub mod input;
pub mod materials;
pub mod maths;
pub mod models;
pub mod render_pipeline;
pub mod resources;
pub mod runtime;
pub mod scene_loader;
pub mod scenes;
pub mod shapes;
pub mod templates;
