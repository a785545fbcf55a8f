//! Images and textures

use crate::raw;
use vstd::prelude::*;

verus! {

/// Image file format
#[derive(Clone, Copy, Debug, PartialEq, Eq)]
pub enum ImageFormat {
    /// PNG
    Png,
    /// BMP
    Bmp,
    /// TGA
    Tga,
    /// JPEG
    Jpg,
    /// GIF
    Gif,
    /// PIC
    Pic,
    /// PNM
    Pnm,
    /// PSD
    Psd,
    /// HDR
    Hdr,
    /// QOI
    Qoi,
    /// DDS
    Dds,
    /// PKM
    Pkm,
    /// KTX
    Ktx,
    /// PVR
    Pvr,
    /// ASTC
    Astc,
}

impl ImageFormat {
    /// The file extension that names the format to the native library,
    /// with its dot.
    pub open spec fn spec_extension(self) -> Seq<char> {
        match self {
            ImageFormat::Png => ".png"@,
            ImageFormat::Bmp => ".bmp"@,
            ImageFormat::Tga => ".tga"@,
            ImageFormat::Jpg => ".jpg"@,
            ImageFormat::Gif => ".gif"@,
            ImageFormat::Pic => ".pic"@,
            ImageFormat::Pnm => ".ppm"@,
            ImageFormat::Psd => ".psd"@,
            ImageFormat::Hdr => ".hdr"@,
            ImageFormat::Qoi => ".qoi"@,
            ImageFormat::Dds => ".dds"@,
            ImageFormat::Pkm => ".pkm"@,
            ImageFormat::Ktx => ".ktx"@,
            ImageFormat::Pvr => ".pvr"@,
            ImageFormat::Astc => ".astc"@,
        }
    }

    /// The file extension that names the format to the native library,
    /// with its dot.
    pub fn extension(&self) -> (ext: &'static str)
        ensures
            ext@ == self.spec_extension(),
    {
        match self {
            ImageFormat::Png => ".png",
            ImageFormat::Bmp => ".bmp",
            ImageFormat::Tga => ".tga",
            ImageFormat::Jpg => ".jpg",
            ImageFormat::Gif => ".gif",
            ImageFormat::Pic => ".pic",
            ImageFormat::Pnm => ".ppm",
            ImageFormat::Psd => ".psd",
            ImageFormat::Hdr => ".hdr",
            ImageFormat::Qoi => ".qoi",
            ImageFormat::Dds => ".dds",
            ImageFormat::Pkm => ".pkm",
            ImageFormat::Ktx => ".ktx",
            ImageFormat::Pvr => ".pvr",
            ImageFormat::Astc => ".astc",
        }
    }
}

/// Image, pixel data stored in CPU memory (RAM)
#[derive(Debug)]
pub struct Image {
    raw: raw::Image,
}

impl View for Image {
    type V = raw::Image;

    closed spec fn view(&self) -> raw::Image {
        self.raw
    }
}

impl Image {
    /// Image base width
    pub fn width(&self) -> (n: u32)
        ensures
            n == self@.width as u32,
    {
        #[verifier::truncate]
        (self.raw.width as u32)
    }

    /// Image base height
    pub fn height(&self) -> (n: u32)
        ensures
            n == self@.height as u32,
    {
        #[verifier::truncate]
        (self.raw.height as u32)
    }

    /// Mipmap levels, 1 by default
    pub fn mipmaps(&self) -> (n: u32)
        ensures
            n == self@.mipmaps as u32,
    {
        #[verifier::truncate]
        (self.raw.mipmaps as u32)
    }

    /// Get the 'raw' ffi type
    pub fn as_raw(&self) -> (raw: &raw::Image)
        ensures
            *raw == self@,
    {
        &self.raw
    }

    /// Get the 'raw' ffi type, to change it in place
    pub fn as_raw_mut(&mut self) -> (raw: &mut raw::Image)
        ensures
            *raw == old(self)@,
            final(self)@ == *final(raw),
    {
        &mut self.raw
    }

    /// Convert a 'raw' ffi object to a safe wrapper
    pub fn from_raw(raw: raw::Image) -> (wrapped: Image)
        ensures
            wrapped@ == raw,
    {
        Image { raw }
    }
}

/// Texture, tex data stored in GPU memory (VRAM)
#[derive(Debug)]
pub struct Texture {
    raw: raw::Texture,
}

impl View for Texture {
    type V = raw::Texture;

    closed spec fn view(&self) -> raw::Texture {
        self.raw
    }
}

impl Texture {
    /// Texture base width
    pub fn width(&self) -> (n: u32)
        ensures
            n == self@.width as u32,
    {
        #[verifier::truncate]
        (self.raw.width as u32)
    }

    /// Texture base height
    pub fn height(&self) -> (n: u32)
        ensures
            n == self@.height as u32,
    {
        #[verifier::truncate]
        (self.raw.height as u32)
    }

    /// Mipmap levels, 1 by default
    pub fn mipmaps(&self) -> (n: u32)
        ensures
            n == self@.mipmaps as u32,
    {
        #[verifier::truncate]
        (self.raw.mipmaps as u32)
    }

    /// Get the 'raw' ffi type
    pub fn as_raw(&self) -> (raw: &raw::Texture)
        ensures
            *raw == self@,
    {
        &self.raw
    }

    /// Get the 'raw' ffi type, to change it in place
    pub fn as_raw_mut(&mut self) -> (raw: &mut raw::Texture)
        ensures
            *raw == old(self)@,
            final(self)@ == *final(raw),
    {
        &mut self.raw
    }

    /// Convert a 'raw' ffi object to a safe wrapper
    pub fn from_raw(raw: raw::Texture) -> (wrapped: Texture)
        ensures
            wrapped@ == raw,
    {
        Texture { raw }
    }
}

/// RenderTexture, fbo for texture rendering
#[derive(Debug)]
pub struct RenderTexture {
    raw: raw::RenderTexture,
}

impl View for RenderTexture {
    type V = raw::RenderTexture;

    closed spec fn view(&self) -> raw::RenderTexture {
        self.raw
    }
}

impl RenderTexture {
    /// Texture base width
    pub fn width(&self) -> (n: u32)
        ensures
            n == self@.texture.width as u32,
    {
        #[verifier::truncate]
        (self.raw.texture.width as u32)
    }

    /// Texture base height
    pub fn height(&self) -> (n: u32)
        ensures
            n == self@.texture.height as u32,
    {
        #[verifier::truncate]
        (self.raw.texture.height as u32)
    }

    /// Get the 'raw' ffi type
    pub fn as_raw(&self) -> (raw: &raw::RenderTexture)
        ensures
            *raw == self@,
    {
        &self.raw
    }

    /// Get the 'raw' ffi type, to change it in place
    pub fn as_raw_mut(&mut self) -> (raw: &mut raw::RenderTexture)
        ensures
            *raw == old(self)@,
            final(self)@ == *final(raw),
    {
        &mut self.raw
    }

    /// Convert a 'raw' ffi object to a safe wrapper
    pub fn from_raw(raw: raw::RenderTexture) -> (wrapped: RenderTexture)
        ensures
            wrapped@ == raw,
    {
        RenderTexture { raw }
    }
}

/// Texture2D, same as Texture
pub type Texture2D = Texture;

/// TextureCubemap, same as Texture
pub type TextureCubemap = Texture;

/// RenderTexture2D, same as RenderTexture
pub type RenderTexture2D = RenderTexture;

} // verus!
