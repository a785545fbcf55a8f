//! Fonts and text related types

use crate::raw;
use crate::texture::Image;
use vstd::prelude::*;

verus! {

/// Font, font texture and GlyphInfo array data
#[derive(Debug)]
pub struct Font {
    raw: raw::Font,
}

impl View for Font {
    type V = raw::Font;

    closed spec fn view(&self) -> raw::Font {
        self.raw
    }
}

impl Font {
    /// Base size (default chars height)
    pub fn base_size(&self) -> (n: u32)
        ensures
            n == self@.base_size as u32,
    {
        #[verifier::truncate]
        (self.raw.base_size as u32)
    }

    /// Number of glyph characters
    pub fn glyph_count(&self) -> (n: usize)
        ensures
            n == self@.glyph_count as usize,
    {
        #[verifier::truncate]
        (self.raw.glyph_count as usize)
    }

    /// Padding around the glyph characters
    pub fn glyph_padding(&self) -> (n: u32)
        ensures
            n == self@.glyph_padding as u32,
    {
        #[verifier::truncate]
        (self.raw.glyph_padding as u32)
    }

    /// Get the 'raw' ffi type
    pub fn as_raw(&self) -> (raw: &raw::Font)
        ensures
            *raw == self@,
    {
        &self.raw
    }

    /// Get the 'raw' ffi type, to change it in place
    pub fn as_raw_mut(&mut self) -> (raw: &mut raw::Font)
        ensures
            *raw == old(self)@,
            final(self)@ == *final(raw),
    {
        &mut self.raw
    }

    /// Convert a 'raw' ffi object to a safe wrapper
    pub fn from_raw(raw: raw::Font) -> (wrapped: Font)
        ensures
            wrapped@ == raw,
    {
        Font { raw }
    }
}

/// GlyphInfo, font characters glyphs info
#[derive(Debug)]
pub struct GlyphInfo {
    /// Character value (Unicode)
    pub value: char,
    /// Character offset X when drawing
    pub offset_x: i32,
    /// Character offset Y when drawing
    pub offset_y: i32,
    /// Character advance position X
    pub advance_x: i32,
    /// Character image data
    pub image: Image,
}

} // verus!
