//! The shared output chain's choices: which H.264 encoder to use, how it is
//! tuned, which muxer each output format takes, and the end-of-stream
//! containment rule that keeps per-item boundaries invisible downstream.

use vstd::prelude::*;

verus! {

/// Where the encoded program is published.
#[derive(Debug, Clone, PartialEq, Eq, Hash)]
pub enum Output {
    Rtmp(String),
    Srt(String),
}

/// Tuning presets of the software H.264 encoder.
#[derive(Debug, Copy, Clone, PartialEq, Eq, Structural, Hash)]
pub enum X264Tune {
    ZeroLatency,
    FastDecode,
    Film,
    Animation,
}

impl X264Tune {
    /// The preset's name as the encoder property takes it.
    pub open spec fn spec_str(self) -> Seq<char> {
        match self {
            X264Tune::ZeroLatency => "zerolatency"@,
            X264Tune::FastDecode => "fastdecode"@,
            X264Tune::Film => "film"@,
            X264Tune::Animation => "animation"@,
        }
    }

    pub fn as_str(self) -> (r: &'static str)
        ensures
            r@ == self.spec_str(),
    {
        match self {
            X264Tune::ZeroLatency => "zerolatency",
            X264Tune::FastDecode => "fastdecode",
            X264Tune::Film => "film",
            X264Tune::Animation => "animation",
        }
    }
}

/// Tuning presets of the NVIDIA hardware H.264 encoder.
#[derive(Debug, Copy, Clone, PartialEq, Eq, Structural, Hash)]
pub enum NvH264Tune {
    Default,
    HighQuality,
    LowLatency,
    UltraLowLatency,
    Lossless,
}

impl NvH264Tune {
    /// The preset's name as the encoder property takes it.
    pub open spec fn spec_str(self) -> Seq<char> {
        match self {
            NvH264Tune::Default => "default"@,
            NvH264Tune::HighQuality => "high-quality"@,
            NvH264Tune::LowLatency => "low-latency"@,
            NvH264Tune::UltraLowLatency => "ultra-low-latency"@,
            NvH264Tune::Lossless => "lossless"@,
        }
    }

    pub fn as_str(self) -> (r: &'static str)
        ensures
            r@ == self.spec_str(),
    {
        match self {
            NvH264Tune::Default => "default",
            NvH264Tune::HighQuality => "high-quality",
            NvH264Tune::LowLatency => "low-latency",
            NvH264Tune::UltraLowLatency => "ultra-low-latency",
            NvH264Tune::Lossless => "lossless",
        }
    }
}

/// The H.264 encoder implementations, in order of preference.
#[derive(Debug, Copy, Clone, PartialEq, Eq, Structural)]
pub enum EncoderKind {
    NvH264,
    VaH264,
    X264,
}

/// Which encoder the output chain uses: hardware NVENC when present, else
/// VA-API, else the software encoder.
pub open spec fn spec_choose_encoder(nv_available: bool, va_available: bool) -> EncoderKind {
    if nv_available {
        EncoderKind::NvH264
    } else if va_available {
        EncoderKind::VaH264
    } else {
        EncoderKind::X264
    }
}

pub fn choose_encoder(nv_available: bool, va_available: bool) -> (r: EncoderKind)
    ensures
        r == spec_choose_encoder(nv_available, va_available),
{
    if nv_available {
        EncoderKind::NvH264
    } else if va_available {
        EncoderKind::VaH264
    } else {
        EncoderKind::X264
    }
}

/// How the chosen encoder is configured for live streaming.
#[derive(Debug, Copy, Clone, PartialEq, Eq, Structural)]
pub struct EncoderSettings {
    /// Constant bitrate, as a live stream needs.
    pub cbr: bool,
    /// Tuned for lowest latency.
    pub zero_latency: bool,
    /// Target bitrate in kilobits per second.
    pub bitrate_kbps: u32,
    /// Longest group of pictures: at most one second of frames.
    pub key_int_max: u32,
    /// B-frames are disabled for low latency.
    pub bframes: u32,
}

/// The low-latency constant-bitrate configuration every encoder kind gets:
/// GOP capped at 30 frames and no B-frames.
pub fn encoder_settings(bitrate_kbps: u32) -> (r: EncoderSettings)
    ensures
        r.cbr,
        r.zero_latency,
        r.bitrate_kbps == bitrate_kbps,
        r.key_int_max == 30,
        r.bframes == 0,
{
    EncoderSettings { cbr: true, zero_latency: true, bitrate_kbps, key_int_max: 30, bframes: 0 }
}

/// The muxer each output format takes.
#[derive(Debug, Copy, Clone, PartialEq, Eq, Structural)]
pub enum MuxerKind {
    /// FLV, for RTMP.
    Flv,
    /// MPEG-TS, for SRT.
    MpegTs,
}

pub fn muxer_for(output: &Output) -> (r: MuxerKind)
    ensures
        r == MuxerKind::Flv <==> output is Rtmp,
        r == MuxerKind::MpegTs <==> output is Srt,
{
    match output {
        Output::Rtmp(_) => MuxerKind::Flv,
        Output::Srt(_) => MuxerKind::MpegTs,
    }
}

/// What a pad probe sees going downstream.
#[derive(Debug, Copy, Clone, PartialEq, Eq, Structural)]
pub enum PadEventKind {
    Eos,
    Other,
}

/// A pad probe's decision.
#[derive(Debug, Copy, Clone, PartialEq, Eq, Structural)]
pub enum ProbeVerdict {
    Drop,
    Pass,
}

/// End-of-stream containment at the muxer: a per-item end-of-stream is
/// dropped before it can reach the sink, so the output only ever ends on
/// global shutdown; everything else passes.
pub fn muxer_event_verdict(event: PadEventKind) -> (r: ProbeVerdict)
    ensures
        r == ProbeVerdict::Drop <==> event == PadEventKind::Eos,
        r == ProbeVerdict::Pass <==> event != PadEventKind::Eos,
{
    match event {
        PadEventKind::Eos => ProbeVerdict::Drop,
        PadEventKind::Other => ProbeVerdict::Pass,
    }
}

} // verus!
