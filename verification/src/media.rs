//! Classification of probed media files.
//!
//! A probe inspects one file and reports which elementary streams it holds
//! (image, video, audio) and, when the container reports one, a duration.
//! Everything here is a pure function of those plain values, so repeated
//! probes of an unchanged file always classify it the same way.

use vstd::prelude::*;

verus! {

/// Default hold, in nanoseconds, for a still image: five seconds.
pub const DEFAULT_HOLD_NS: u64 = 5_000_000_000;

/// The kind of program material one file provides.
#[derive(Debug, Copy, Clone, PartialEq, Eq, Structural)]
pub enum MediaType {
    VideoWithAudio,
    VideoWithoutAudio,
    AudioOnly,
    Image,
    Unknown,
}

/// Codec of a still image, as far as the probe can tell.
#[derive(Debug, Copy, Clone, PartialEq, Eq, Structural)]
pub enum ImageCodec {
    Jpeg,
    Png,
    Unknown,
}

impl Default for ImageCodec {
    /// An image whose codec the probe could not name.
    fn default() -> (r: Self)
        ensures
            r == ImageCodec::Unknown,
    {
        ImageCodec::Unknown
    }
}

/// What the probe learned about one still-image stream.
#[derive(Debug, Copy, Clone, PartialEq, Eq)]
pub struct ImageInfo {
    pub codec: ImageCodec,
}

impl Default for ImageInfo {
    /// An image stream about which nothing is known yet.
    fn default() -> (r: Self)
        ensures
            r.codec == ImageCodec::Unknown,
    {
        ImageInfo { codec: ImageCodec::Unknown }
    }
}

/// What the probe learned about one audio or video stream.
#[derive(Debug, Copy, Clone, PartialEq, Eq)]
pub struct StreamInfo {
    pub max_bitrate: Option<u32>,
    pub bitrate: Option<u32>,
}

impl Default for StreamInfo {
    /// A stream about which nothing is known yet.
    fn default() -> (r: Self)
        ensures
            r.max_bitrate is None,
            r.bitrate is None,
    {
        StreamInfo { max_bitrate: None, bitrate: None }
    }
}

/// Everything a probe reports about one file. `duration` is in nanoseconds
/// and absent for live or still inputs.
#[derive(Debug, Copy, Clone, PartialEq, Eq)]
pub struct MediaInfo {
    pub duration: Option<u64>,
    pub image: Option<ImageInfo>,
    pub video: Option<StreamInfo>,
    pub audio: Option<StreamInfo>,
}

impl Default for MediaInfo {
    /// The state before any stream has been seen.
    fn default() -> (r: Self)
        ensures
            r.duration is None,
            r.image is None,
            r.video is None,
            r.audio is None,
    {
        MediaInfo { duration: None, image: None, video: None, audio: None }
    }
}

impl MediaInfo {
    /// True when the probe found no stream at all; such a file is ineligible.
    pub open spec fn spec_is_empty(&self) -> bool {
        self.image is None && self.video is None && self.audio is None
    }

    pub fn is_empty(&self) -> (r: bool)
        ensures
            r == self.spec_is_empty(),
    {
        self.image.is_none() && self.video.is_none() && self.audio.is_none()
    }

    /// The kind of material this file provides. Video takes precedence;
    /// audio alone is its own kind; an image counts only when neither
    /// video nor audio is present; a file with none of the three is unknown.
    pub open spec fn spec_media_type(&self) -> MediaType {
        if self.video is Some {
            if self.audio is Some {
                MediaType::VideoWithAudio
            } else {
                MediaType::VideoWithoutAudio
            }
        } else if self.audio is Some {
            MediaType::AudioOnly
        } else if self.image is Some {
            MediaType::Image
        } else {
            MediaType::Unknown
        }
    }

    pub fn media_type(&self) -> (t: MediaType)
        ensures
            t == self.spec_media_type(),
    {
        if self.video.is_some() {
            if self.audio.is_some() {
                MediaType::VideoWithAudio
            } else {
                MediaType::VideoWithoutAudio
            }
        } else if self.audio.is_some() {
            MediaType::AudioOnly
        } else if self.image.is_some() {
            MediaType::Image
        } else {
            MediaType::Unknown
        }
    }

    /// A file is playable exactly when some stream was found.
    pub open spec fn spec_is_playable(&self) -> bool {
        !self.spec_is_empty()
    }

    pub fn is_playable(&self) -> (r: bool)
        ensures
            r == self.spec_is_playable(),
    {
        !self.is_empty()
    }

    /// How long this file plays: the reported duration, or the default
    /// image hold when the duration is missing or zero - a zero or absent
    /// duration marks a still, which is held for the default.
    pub open spec fn spec_play_duration(&self) -> u64 {
        match self.duration {
            Some(d) => if d != 0 {
                d
            } else {
                DEFAULT_HOLD_NS
            },
            None => DEFAULT_HOLD_NS,
        }
    }

    pub fn play_duration(&self) -> (d: u64)
        ensures
            d == self.spec_play_duration(),
    {
        match self.duration {
            Some(d) => {
                if d != 0 {
                    d
                } else {
                    DEFAULT_HOLD_NS
                }
            },
            None => DEFAULT_HOLD_NS,
        }
    }
}

/// A file is unknown material exactly when the probe found nothing in it.
pub proof fn lemma_unknown_iff_empty(info: MediaInfo)
    ensures
        info.spec_media_type() == MediaType::Unknown <==> info.spec_is_empty(),
{
}

} // verus!
