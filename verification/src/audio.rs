//! Audio

use crate::raw;
use vstd::prelude::*;

verus! {

/// Wave, audio wave data
#[derive(Debug)]
pub struct Wave {
    raw: raw::Wave,
}

impl View for Wave {
    type V = raw::Wave;

    closed spec fn view(&self) -> raw::Wave {
        self.raw
    }
}

impl Wave {
    /// Total number of frames (considering channels)
    pub fn frame_count(&self) -> (n: u32)
        ensures
            n == self@.frame_count,
    {
        self.raw.frame_count
    }

    /// Frequency (samples per second)
    pub fn sample_rate(&self) -> (n: u32)
        ensures
            n == self@.sample_rate,
    {
        self.raw.sample_rate
    }

    /// Bit depth (bits per sample): 8, 16, 32 (24 not supported)
    pub fn sample_size(&self) -> (n: u32)
        ensures
            n == self@.sample_size,
    {
        self.raw.sample_size
    }

    /// Number of channels (1-mono, 2-stereo, ...)
    pub fn channels(&self) -> (n: u32)
        ensures
            n == self@.channels,
    {
        self.raw.channels
    }

    /// Get the 'raw' ffi type
    pub fn as_raw(&self) -> (raw: &raw::Wave)
        ensures
            *raw == self@,
    {
        &self.raw
    }

    /// Get the 'raw' ffi type, to change it in place
    pub fn as_raw_mut(&mut self) -> (raw: &mut raw::Wave)
        ensures
            *raw == old(self)@,
            final(self)@ == *final(raw),
    {
        &mut self.raw
    }

    /// Convert a 'raw' ffi object to a safe wrapper
    pub fn from_raw(raw: raw::Wave) -> (wrapped: Wave)
        ensures
            wrapped@ == raw,
    {
        Wave { raw }
    }
}

/// AudioStream, custom audio stream
#[derive(Debug)]
pub struct AudioStream {
    raw: raw::AudioStream,
}

impl View for AudioStream {
    type V = raw::AudioStream;

    closed spec fn view(&self) -> raw::AudioStream {
        self.raw
    }
}

impl AudioStream {
    /// Frequency (samples per second)
    pub fn sample_rate(&self) -> (n: u32)
        ensures
            n == self@.sample_rate,
    {
        self.raw.sample_rate
    }

    /// Bit depth (bits per sample): 8, 16, 32 (24 not supported)
    pub fn sample_size(&self) -> (n: u32)
        ensures
            n == self@.sample_size,
    {
        self.raw.sample_size
    }

    /// Number of channels (1-mono, 2-stereo, ...)
    pub fn channels(&self) -> (n: u32)
        ensures
            n == self@.channels,
    {
        self.raw.channels
    }

    /// Get the 'raw' ffi type
    pub fn as_raw(&self) -> (raw: &raw::AudioStream)
        ensures
            *raw == self@,
    {
        &self.raw
    }

    /// Get the 'raw' ffi type, to change it in place
    pub fn as_raw_mut(&mut self) -> (raw: &mut raw::AudioStream)
        ensures
            *raw == old(self)@,
            final(self)@ == *final(raw),
    {
        &mut self.raw
    }

    /// Convert a 'raw' ffi object to a safe wrapper
    pub fn from_raw(raw: raw::AudioStream) -> (wrapped: AudioStream)
        ensures
            wrapped@ == raw,
    {
        AudioStream { raw }
    }
}

/// Sound
#[derive(Debug)]
pub struct Sound {
    raw: raw::Sound,
}

impl View for Sound {
    type V = raw::Sound;

    closed spec fn view(&self) -> raw::Sound {
        self.raw
    }
}

impl Sound {
    /// Total number of frames (considering channels)
    pub fn frame_count(&self) -> (n: u32)
        ensures
            n == self@.frame_count,
    {
        self.raw.frame_count
    }

    /// Get the 'raw' ffi type
    pub fn as_raw(&self) -> (raw: &raw::Sound)
        ensures
            *raw == self@,
    {
        &self.raw
    }

    /// Get the 'raw' ffi type, to change it in place
    pub fn as_raw_mut(&mut self) -> (raw: &mut raw::Sound)
        ensures
            *raw == old(self)@,
            final(self)@ == *final(raw),
    {
        &mut self.raw
    }

    /// Convert a 'raw' ffi object to a safe wrapper
    pub fn from_raw(raw: raw::Sound) -> (wrapped: Sound)
        ensures
            wrapped@ == raw,
    {
        Sound { raw }
    }
}

/// Music, audio stream, anything longer than ~10 seconds should be streamed
#[derive(Debug)]
pub struct Music {
    raw: raw::Music,
}

impl View for Music {
    type V = raw::Music;

    closed spec fn view(&self) -> raw::Music {
        self.raw
    }
}

impl Music {
    /// Total number of frames (considering channels)
    pub fn frame_count(&self) -> (n: u32)
        ensures
            n == self@.frame_count,
    {
        self.raw.frame_count
    }

    /// Is music looping enabled
    pub fn looping(&self) -> (n: bool)
        ensures
            n == self@.looping,
    {
        self.raw.looping
    }

    /// Enable/disable looping
    pub fn set_looping(&mut self, looping: bool)
        ensures
            final(self)@ == (raw::Music { looping, ..old(self)@ }),
    {
        self.raw.looping = looping;
    }

    /// Get the 'raw' ffi type
    pub fn as_raw(&self) -> (raw: &raw::Music)
        ensures
            *raw == self@,
    {
        &self.raw
    }

    /// Get the 'raw' ffi type, to change it in place
    pub fn as_raw_mut(&mut self) -> (raw: &mut raw::Music)
        ensures
            *raw == old(self)@,
            final(self)@ == *final(raw),
    {
        &mut self.raw
    }

    /// Convert a 'raw' ffi object to a safe wrapper
    pub fn from_raw(raw: raw::Music) -> (wrapped: Music)
        ensures
            wrapped@ == raw,
    {
        Music { raw }
    }
}

} // verus!
