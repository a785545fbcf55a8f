//! 3D models

use crate::raw;
use vstd::prelude::*;

verus! {

/// Mesh, vertex data and vao/vbo
#[derive(Debug)]
pub struct Mesh {
    raw: raw::Mesh,
}

impl View for Mesh {
    type V = raw::Mesh;

    closed spec fn view(&self) -> raw::Mesh {
        self.raw
    }
}

impl Mesh {
    /// Get the 'raw' ffi type
    pub fn as_raw(&self) -> (raw: &raw::Mesh)
        ensures
            *raw == self@,
    {
        &self.raw
    }

    /// Get the 'raw' ffi type, to change it in place
    pub fn as_raw_mut(&mut self) -> (raw: &mut raw::Mesh)
        ensures
            *raw == old(self)@,
            final(self)@ == *final(raw),
    {
        &mut self.raw
    }

    /// Convert a 'raw' ffi object to a safe wrapper
    pub fn from_raw(raw: raw::Mesh) -> (wrapped: Mesh)
        ensures
            wrapped@ == raw,
    {
        Mesh { raw }
    }
}

/// Model animation
#[derive(Debug)]
pub struct ModelAnimation {
    raw: raw::ModelAnimation,
}

impl View for ModelAnimation {
    type V = raw::ModelAnimation;

    closed spec fn view(&self) -> raw::ModelAnimation {
        self.raw
    }
}

impl ModelAnimation {
    /// Get the 'raw' ffi type
    pub fn as_raw(&self) -> (raw: &raw::ModelAnimation)
        ensures
            *raw == self@,
    {
        &self.raw
    }

    /// Get the 'raw' ffi type, to change it in place
    pub fn as_raw_mut(&mut self) -> (raw: &mut raw::ModelAnimation)
        ensures
            *raw == old(self)@,
            final(self)@ == *final(raw),
    {
        &mut self.raw
    }

    /// Convert a 'raw' ffi object to a safe wrapper
    pub fn from_raw(raw: raw::ModelAnimation) -> (wrapped: ModelAnimation)
        ensures
            wrapped@ == raw,
    {
        ModelAnimation { raw }
    }
}

} // verus!
