//! The records of the native library, as plain values. Where the native
//! record holds a pointer, the record here holds its address.

use vstd::prelude::*;

verus! {

/// Wave, audio wave data
#[derive(Clone, Copy, Debug, PartialEq, Eq)]
pub struct Wave {
    /// Total number of frames (considering channels)
    pub frame_count: u32,
    /// Frequency (samples per second)
    pub sample_rate: u32,
    /// Bit depth (bits per sample): 8, 16, 32 (24 not supported)
    pub sample_size: u32,
    /// Number of channels (1-mono, 2-stereo, ...)
    pub channels: u32,
    /// Address of the buffer data
    pub data: usize,
}

/// AudioStream, custom audio stream
#[derive(Clone, Copy, Debug, PartialEq, Eq)]
pub struct AudioStream {
    /// Address of the internal data used by the audio system
    pub buffer: usize,
    /// Address of the internal data processor, useful for audio effects
    pub processor: usize,
    /// Frequency (samples per second)
    pub sample_rate: u32,
    /// Bit depth (bits per sample): 8, 16, 32 (24 not supported)
    pub sample_size: u32,
    /// Number of channels (1-mono, 2-stereo, ...)
    pub channels: u32,
}

/// Sound
#[derive(Clone, Copy, Debug, PartialEq, Eq)]
pub struct Sound {
    /// Audio stream
    pub stream: AudioStream,
    /// Total number of frames (considering channels)
    pub frame_count: u32,
}

/// Music, audio stream, anything longer than ~10 seconds should be streamed
#[derive(Clone, Copy, Debug, PartialEq, Eq)]
pub struct Music {
    /// Audio stream
    pub stream: AudioStream,
    /// Total number of frames (considering channels)
    pub frame_count: u32,
    /// Music looping enable
    pub looping: bool,
    /// Type of music context (audio filetype)
    pub ctx_type: i32,
    /// Address of the audio context data, depends on type
    pub ctx_data: usize,
}

/// Image, pixel data stored in CPU memory (RAM)
#[derive(Clone, Copy, Debug, PartialEq, Eq)]
pub struct Image {
    /// Address of the image raw data
    pub data: usize,
    /// Image base width
    pub width: i32,
    /// Image base height
    pub height: i32,
    /// Mipmap levels, 1 by default
    pub mipmaps: i32,
    /// Data format (PixelFormat type)
    pub format: i32,
}

/// Texture, tex data stored in GPU memory (VRAM)
#[derive(Clone, Copy, Debug, PartialEq, Eq)]
pub struct Texture {
    /// OpenGL texture id
    pub id: u32,
    /// Texture base width
    pub width: i32,
    /// Texture base height
    pub height: i32,
    /// Mipmap levels, 1 by default
    pub mipmaps: i32,
    /// Data format (PixelFormat type)
    pub format: i32,
}

/// RenderTexture, fbo for texture rendering
#[derive(Clone, Copy, Debug, PartialEq, Eq)]
pub struct RenderTexture {
    /// OpenGL framebuffer object id
    pub id: u32,
    /// Color buffer attachment texture
    pub texture: Texture,
    /// Depth buffer attachment texture
    pub depth: Texture,
}

/// Font, font texture and GlyphInfo array data
#[derive(Clone, Copy, Debug, PartialEq, Eq)]
pub struct Font {
    /// Base size (default chars height)
    pub base_size: i32,
    /// Number of glyph characters
    pub glyph_count: i32,
    /// Padding around the glyph characters
    pub glyph_padding: i32,
    /// Texture atlas containing the glyphs
    pub texture: Texture,
    /// Address of the rectangles in texture for the glyphs
    pub recs: usize,
    /// Address of the glyphs info data
    pub glyphs: usize,
}

/// Shader
#[derive(Clone, Copy, Debug, PartialEq, Eq)]
pub struct Shader {
    /// Shader program id
    pub id: u32,
    /// Address of the shader locations array
    pub locs: usize,
}

/// Mesh, vertex data and vao/vbo
#[derive(Clone, Copy, Debug, PartialEq, Eq)]
pub struct Mesh {
    /// Number of vertices stored in arrays
    pub vertex_count: i32,
    /// Number of triangles stored (indexed or not)
    pub triangle_count: i32,
    /// Address of the vertex positions
    pub vertices: usize,
    /// Address of the vertex texture coordinates
    pub texcoords: usize,
    /// Address of the vertex texture second coordinates
    pub texcoords2: usize,
    /// Address of the vertex normals
    pub normals: usize,
    /// Address of the vertex tangents
    pub tangents: usize,
    /// Address of the vertex colors
    pub colors: usize,
    /// Address of the vertex indices
    pub indices: usize,
    /// Address of the animated vertex positions
    pub anim_vertices: usize,
    /// Address of the animated normals
    pub anim_normals: usize,
    /// Address of the vertex bone ids
    pub bone_ids: usize,
    /// Address of the vertex bone weights
    pub bone_weights: usize,
    /// OpenGL Vertex Array Object id
    pub vao_id: u32,
    /// Address of the OpenGL Vertex Buffer Objects ids
    pub vbo_id: usize,
}

/// ModelAnimation
#[derive(Clone, Copy, Debug, PartialEq, Eq)]
pub struct ModelAnimation {
    /// Number of bones
    pub bone_count: i32,
    /// Number of animation frames
    pub frame_count: i32,
    /// Address of the bones information (skeleton)
    pub bones: usize,
    /// Address of the poses array by frame
    pub frame_poses: usize,
}

} // verus!
