//! Core logic of a small OpenGL renderer: the tables that describe driver
//! enums, the vertex-attribute layout, mesh assembly, render-state planning,
//! texture settings and the uniform-location cache of a shader program.
//!
//! Everything that talks to the driver lives outside this crate; the types
//! here compute what is handed to the driver and are verified.

pub mod gl_enums;
pub mod gl_error;
pub mod gl_types;
pub mod vao_layout;
pub mod mesh_builder;
pub mod pipeline_states;
pub mod texture;
pub mod binding;
pub mod shader;
