//! Bindings generator and safe value types for the raylib C library.

/// The bindings generator
pub mod api;
/// Audio
pub mod audio;
/// Character sequences
pub mod chars;
/// Color type
pub mod color;
/// 3D models
pub mod model;
/// The records of the native library
pub mod raw;
/// Shader type
pub mod shader;
/// Fonts and text related types
pub mod text;
/// Images and textures
pub mod texture;
