//! Shader type

use crate::raw;
use vstd::prelude::*;

verus! {

/// Shader
#[derive(Debug)]
pub struct Shader {
    raw: raw::Shader,
}

impl View for Shader {
    type V = raw::Shader;

    closed spec fn view(&self) -> raw::Shader {
        self.raw
    }
}

impl Shader {
    /// Get the 'raw' ffi type
    pub fn as_raw(&self) -> (raw: &raw::Shader)
        ensures
            *raw == self@,
    {
        &self.raw
    }

    /// Get the 'raw' ffi type, to change it in place
    pub fn as_raw_mut(&mut self) -> (raw: &mut raw::Shader)
        ensures
            *raw == old(self)@,
            final(self)@ == *final(raw),
    {
        &mut self.raw
    }

    /// Convert a 'raw' ffi object to a safe wrapper
    pub fn from_raw(raw: raw::Shader) -> (wrapped: Shader)
        ensures
            wrapped@ == raw,
    {
        Shader { raw }
    }
}

} // verus!
