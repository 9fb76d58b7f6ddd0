//! The per-item input assembly.
//!
//! One assembly normalizes whatever one file holds into two ports that both
//! emit continuously at the fixed output profile. Synthetic sources - black
//! video and silent audio - feed the ports from the start; when the decoder
//! discovers a real stream of a kind, the matching synthetic source is
//! detached and the decoded stream takes its place. A still image is routed
//! through a freeze stage that republishes its one frame until a bounded
//! hold time has passed, so every item has finite duration.

use vstd::prelude::*;

use crate::media::DEFAULT_HOLD_NS;
use crate::profile::{AudioCaps, OutputProfile, VideoCaps};
use crate::text::{bytes_prefix, counter_text, spec_counter_text, str_starts_with};
use vstd::string::StringSliceAdditionalSpecFns;

verus! {

/// What kind of stream a newly discovered decoder pad carries.
#[derive(Debug, Copy, Clone, PartialEq, Eq, Structural)]
pub enum PadKind {
    Video,
    Audio,
    Other,
}

/// The kind of a decoder pad, read off its name: decoders name their pads
/// after the stream they carry.
pub fn pad_kind_of_name(name: &str) -> (r: PadKind)
    ensures
        r == PadKind::Video <==> bytes_prefix("video_".spec_bytes(), name.spec_bytes()),
        r == PadKind::Audio <==> !bytes_prefix("video_".spec_bytes(), name.spec_bytes())
            && bytes_prefix("audio_".spec_bytes(), name.spec_bytes()),
{
    if str_starts_with(name, "video_") {
        PadKind::Video
    } else if str_starts_with(name, "audio_") {
        PadKind::Audio
    } else {
        PadKind::Other
    }
}

/// What feeds the video port.
#[derive(Debug, Copy, Clone, PartialEq, Eq, Structural)]
pub enum VideoFeed {
    /// The synthetic black source; always present until a stream arrives.
    SyntheticBlack,
    /// The decoded stream, straight through.
    Decoded,
    /// The decoded still, republished by the freeze stage.
    Frozen,
}

/// What feeds the audio port.
#[derive(Debug, Copy, Clone, PartialEq, Eq, Structural)]
pub enum AudioFeed {
    /// The synthetic silence source; always present until a stream arrives.
    SyntheticSilence,
    /// The decoded stream.
    Decoded,
}

/// What the caller must do to the element graph after a pad arrived.
#[derive(Debug, Copy, Clone, PartialEq, Eq, Structural)]
pub enum PadAction {
    /// Detach the black source and link the pad through the freeze stage.
    LinkVideoThroughFreeze,
    /// Detach the black source and link the pad directly.
    LinkVideoDirect,
    /// Detach the silence source and link the pad.
    LinkAudio,
    /// An unrecognised pad: leave the graph alone.
    Ignore,
}

/// The hold time for an item from its reported duration: a zero or missing
/// duration marks a still, which is held for the configured default.
pub open spec fn spec_image_hold(reported_ns: u64) -> u64 {
    if reported_ns == 0 {
        DEFAULT_HOLD_NS
    } else {
        reported_ns
    }
}

pub fn image_hold(reported_ns: u64) -> (r: u64)
    ensures
        r == spec_image_hold(reported_ns),
{
    if reported_ns == 0 {
        DEFAULT_HOLD_NS
    } else {
        reported_ns
    }
}

/// The freeze stage's gate: forward the republished frame, or end the item
/// once its presentation time passes the hold.
#[derive(Debug, Copy, Clone, PartialEq, Eq, Structural)]
pub enum FreezeVerdict {
    Forward,
    EndItem,
}

/// Decide whether a frame leaving the freeze stage still falls inside the
/// hold. Once one passes it, a synthetic end-of-stream is issued on both
/// ports, so a still never plays beyond its bounded duration.
pub fn freeze_verdict(pts_ns: u64, hold_ns: Option<u64>) -> (r: FreezeVerdict)
    ensures
        r == FreezeVerdict::EndItem <==> (hold_ns matches Some(h) && pts_ns > h),
{
    match hold_ns {
        Some(h) => {
            if pts_ns > h {
                FreezeVerdict::EndItem
            } else {
                FreezeVerdict::Forward
            }
        },
        None => FreezeVerdict::Forward,
    }
}

/// How many frames a still is republished for: the source keeps one frame
/// on screen for the hold's whole seconds at the output framerate, so the
/// item is a bounded, finite video segment.
pub fn still_frame_count(hold_ns: u64, fps: u32) -> (r: u64)
    requires
        (hold_ns / 1_000_000_000) * fps as int <= u64::MAX,
    ensures
        r == (hold_ns / 1_000_000_000) * fps as u64,
{
    (hold_ns / 1_000_000_000) * fps as u64
}

/// How many synthetic-silence buffers cover a duration: enough whole
/// buffers of `samples_per_buffer` samples at the given rate, rounded up,
/// so silence never runs out before the item does.
pub fn silence_buffer_count(duration_ns: u64, rate: u32, samples_per_buffer: u32) -> (r: u64)
    requires
        rate > 0,
        samples_per_buffer > 0,
        (duration_ns * rate + 1_000_000_000 * samples_per_buffer - 1) / (1_000_000_000
            * samples_per_buffer) <= u64::MAX,
    ensures
        r as int == (duration_ns * rate + 1_000_000_000 * samples_per_buffer - 1) / (1_000_000_000
            * samples_per_buffer as int),
{
    proof {
        assert((duration_ns as int) * (rate as int) <= 0xFFFF_FFFF_FFFF_FFFF * 0xFFFF_FFFF)
            by (nonlinear_arith)
            requires
                duration_ns <= 0xFFFF_FFFF_FFFF_FFFF,
                rate <= 0xFFFF_FFFF,
        ;
    }
    let total = duration_ns as u128 * rate as u128;
    let per_buffer = 1_000_000_000u128 * samples_per_buffer as u128;
    ((total + per_buffer - 1) / per_buffer) as u64
}

/// One input assembly's normalization state.
#[derive(Debug, Copy, Clone, PartialEq, Eq, Structural)]
pub struct Assembly {
    pub video_feed: VideoFeed,
    pub audio_feed: AudioFeed,
    /// The item's hold time, known once the decoder reported a duration.
    pub hold_ns: Option<u64>,
}

impl Assembly {
    /// A freshly built assembly: both ports are fed synthetically, so they
    /// emit from the first moment whatever the file turns out to hold.
    pub fn new() -> (r: Self)
        ensures
            r.video_feed == VideoFeed::SyntheticBlack,
            r.audio_feed == AudioFeed::SyntheticSilence,
            r.hold_ns is None,
    {
        Assembly {
            video_feed: VideoFeed::SyntheticBlack,
            audio_feed: AudioFeed::SyntheticSilence,
            hold_ns: None,
        }
    }

    /// The decoder discovered a pad. A video pad replaces the black source -
    /// through the freeze stage when the reported duration marks a still; an
    /// audio pad replaces the silence source; anything else is ignored. The
    /// other port keeps its feed, so a one-sided file still fills both
    /// ports.
    pub fn on_pad_added(&mut self, kind: PadKind, reported_duration_ns: u64) -> (act: PadAction)
        ensures
            final(self).hold_ns == Some(spec_image_hold(reported_duration_ns)),
            kind == PadKind::Video ==> {
                &&& final(self).audio_feed == old(self).audio_feed
                &&& (reported_duration_ns == 0 ==> final(self).video_feed == VideoFeed::Frozen
                    && act == PadAction::LinkVideoThroughFreeze)
                &&& (reported_duration_ns != 0 ==> final(self).video_feed == VideoFeed::Decoded
                    && act == PadAction::LinkVideoDirect)
            },
            kind == PadKind::Audio ==> {
                &&& final(self).video_feed == old(self).video_feed
                &&& final(self).audio_feed == AudioFeed::Decoded
                &&& act == PadAction::LinkAudio
            },
            kind == PadKind::Other ==> {
                &&& final(self).video_feed == old(self).video_feed
                &&& final(self).audio_feed == old(self).audio_feed
                &&& act == PadAction::Ignore
            },
    {
        self.hold_ns = Some(image_hold(reported_duration_ns));
        match kind {
            PadKind::Video => {
                if reported_duration_ns == 0 {
                    self.video_feed = VideoFeed::Frozen;
                    PadAction::LinkVideoThroughFreeze
                } else {
                    self.video_feed = VideoFeed::Decoded;
                    PadAction::LinkVideoDirect
                }
            },
            PadKind::Audio => {
                self.audio_feed = AudioFeed::Decoded;
                PadAction::LinkAudio
            },
            PadKind::Other => PadAction::Ignore,
        }
    }

    /// Rebind the assembly to its next file: both synthetic sources are
    /// relinked as the default feeds and the hold is forgotten.
    pub fn rebind(&mut self)
        ensures
            final(self).video_feed == VideoFeed::SyntheticBlack,
            final(self).audio_feed == AudioFeed::SyntheticSilence,
            final(self).hold_ns is None,
    {
        self.video_feed = VideoFeed::SyntheticBlack;
        self.audio_feed = AudioFeed::SyntheticSilence;
        self.hold_ns = None;
    }

    /// The caps the video port emits: the profile's video half exactly,
    /// whatever currently feeds the port - the port ends in a caps enforcer.
    pub fn video_port_caps(&self, profile: &OutputProfile) -> (r: VideoCaps)
        ensures
            r == profile.spec_video_caps(),
    {
        profile.video_caps()
    }

    /// The caps the audio port emits: the profile's audio half exactly,
    /// whatever currently feeds the port.
    pub fn audio_port_caps(&self, profile: &OutputProfile) -> (r: AudioCaps)
        ensures
            r == profile.spec_audio_caps(),
    {
        profile.audio_caps()
    }
}

/// The elapsed-time overlay's cached state: the last second it rendered, so
/// the text is re-set at most once per whole second of presentation time.
#[derive(Debug, Copy, Clone, PartialEq, Eq, Structural)]
pub struct OverlayState {
    pub last_second: Option<u64>,
}

impl OverlayState {
    pub fn new() -> (r: Self)
        ensures
            r.last_second is None,
    {
        OverlayState { last_second: None }
    }

    /// See one buffer. The overlay text is re-rendered exactly when the
    /// buffer's whole second differs from the last rendered one, so at most
    /// one render happens per second of stream time.
    pub fn on_buffer(&mut self, pts_ns: u64, duration_ns: Option<u64>) -> (text: Option<String>)
        ensures
            final(self).last_second == Some(pts_ns / 1_000_000_000),
            text is Some <==> old(self).last_second != Some(pts_ns / 1_000_000_000),
            text matches Some(t) ==> t@ == spec_counter_text(pts_ns, duration_ns),
    {
        let current = pts_ns / 1_000_000_000;
        let changed = match self.last_second {
            Some(v) => v != current,
            None => true,
        };
        self.last_second = Some(current);
        if changed {
            Some(counter_text(pts_ns, duration_ns))
        } else {
            None
        }
    }
}

} // verus!
