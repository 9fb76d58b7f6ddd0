//! The single output profile every item is normalized to, and the caps its
//! two halves impose on the encoder's inputs.

use vstd::prelude::*;

verus! {

/// Raw video pixel layout.
#[derive(Debug, Copy, Clone, PartialEq, Eq, Structural)]
pub enum PixelFormat {
    I420,
    Nv12,
    Rgba,
}

/// Raw audio sample layout.
#[derive(Debug, Copy, Clone, PartialEq, Eq, Structural)]
pub enum SampleFormat {
    S16Le,
    S32Le,
    F32Le,
}

/// The caps of one raw video stream.
#[derive(Debug, Copy, Clone, PartialEq, Eq, Structural)]
pub struct VideoCaps {
    pub width: u32,
    pub height: u32,
    pub fps_n: u32,
    pub fps_d: u32,
    pub format: PixelFormat,
}

/// The caps of one raw audio stream.
#[derive(Debug, Copy, Clone, PartialEq, Eq, Structural)]
pub struct AudioCaps {
    pub format: SampleFormat,
    pub interleaved: bool,
    pub rate: u32,
    pub channels: u32,
}

/// The process-wide output contract: every frame entering the encoder
/// matches this exactly, for the lifetime of the process.
#[derive(Debug, Copy, Clone, PartialEq, Eq, Structural)]
pub struct OutputProfile {
    pub width: u32,
    pub height: u32,
    pub fps_n: u32,
    pub fps_d: u32,
    pub pixel_format: PixelFormat,
    pub sample_format: SampleFormat,
    pub sample_rate: u32,
    pub channel_count: u32,
    pub video_bitrate_kbps: u32,
    pub audio_bitrate_bps: u32,
}

impl OutputProfile {
    /// The video half of the profile.
    pub open spec fn spec_video_caps(&self) -> VideoCaps {
        VideoCaps {
            width: self.width,
            height: self.height,
            fps_n: self.fps_n,
            fps_d: self.fps_d,
            format: self.pixel_format,
        }
    }

    /// The audio half of the profile.
    pub open spec fn spec_audio_caps(&self) -> AudioCaps {
        AudioCaps {
            format: self.sample_format,
            interleaved: true,
            rate: self.sample_rate,
            channels: self.channel_count,
        }
    }

    pub fn video_caps(&self) -> (r: VideoCaps)
        ensures
            r == self.spec_video_caps(),
    {
        VideoCaps {
            width: self.width,
            height: self.height,
            fps_n: self.fps_n,
            fps_d: self.fps_d,
            format: self.pixel_format,
        }
    }

    pub fn audio_caps(&self) -> (r: AudioCaps)
        ensures
            r == self.spec_audio_caps(),
    {
        AudioCaps {
            format: self.sample_format,
            interleaved: true,
            rate: self.sample_rate,
            channels: self.channel_count,
        }
    }

    /// A profile is usable when its framerate and clock fields are non-zero.
    pub open spec fn spec_valid(&self) -> bool {
        self.fps_n > 0 && self.fps_d > 0 && self.sample_rate > 0 && self.channel_count > 0
    }

    /// The reference profile: 720p at 30 fps in planar 4:2:0, stereo signed
    /// 16-bit interleaved audio at 48 kHz.
    pub fn reference() -> (r: Self)
        ensures
            r.width == 1280,
            r.height == 720,
            r.fps_n == 30,
            r.fps_d == 1,
            r.pixel_format == PixelFormat::I420,
            r.sample_format == SampleFormat::S16Le,
            r.sample_rate == 48000,
            r.channel_count == 2,
            r.video_bitrate_kbps == 6000,
            r.audio_bitrate_bps == 128000,
            r.spec_valid(),
    {
        OutputProfile {
            width: 1280,
            height: 720,
            fps_n: 30,
            fps_d: 1,
            pixel_format: PixelFormat::I420,
            sample_format: SampleFormat::S16Le,
            sample_rate: 48000,
            channel_count: 2,
            video_bitrate_kbps: 6000,
            audio_bitrate_bps: 128000,
        }
    }

    /// The length of one output frame in nanoseconds, rounded down.
    pub fn frame_duration_ns(&self) -> (r: u64)
        requires
            self.spec_valid(),
        ensures
            r as int == 1_000_000_000 * self.fps_d as int / self.fps_n as int,
    {
        1_000_000_000u64 * self.fps_d as u64 / self.fps_n as u64
    }
}

/// Requested output geometry, as the encoder builder takes it.
#[derive(Debug, Copy, Clone, PartialEq, Eq, Structural)]
pub struct VideoOptions {
    pub width: u32,
    pub height: u32,
    pub fps: u8,
    pub bitrate: u32,
}

impl VideoOptions {
    /// 720p at 30 fps, around 3 Mbps.
    pub fn hd_720() -> (r: Self)
        ensures
            r == (VideoOptions { width: 1280u32, height: 720u32, fps: 30u8, bitrate: 3000u32 }),
    {
        VideoOptions { width: 1280, height: 720, fps: 30, bitrate: 3000 }
    }
}

} // verus!
