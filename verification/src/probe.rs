//! Classification of what the media probe discovered.
//!
//! The out-of-process discovery reports one entry per elementary stream,
//! possibly nested through a container. Each entry carries a stream-type
//! tag, the name of its caps structure and the bitrate tags that were
//! present. Folding the entries in report order fills one `MediaInfo`:
//! the first entry of each kind wins, duplicates are ignored, and entries
//! of unknown kinds are skipped. The fold is a pure function of the
//! reported values, so probing an unchanged file twice classifies it the
//! same way both times.

use vstd::prelude::*;
use vstd::string::StringSliceAdditionalSpecFns;

use crate::media::{ImageCodec, ImageInfo, MediaInfo, MediaType, StreamInfo};
use crate::text::{
    ascii_eq_ignore_case, bytes_prefix, eq_ignore_case_bytes, str_eq, str_starts_with,
};

verus! {

/// One elementary stream entry as the discovery reports it.
#[derive(Debug, Clone)]
pub struct ProbedStream {
    /// The stream-type tag: "video", "video(image)", "audio", "container".
    pub nick: String,
    /// The name of the stream's caps structure, such as "image/jpeg".
    pub caps_name: String,
    /// The maximum-bitrate tag, when the stream carried one.
    pub max_bitrate: Option<u32>,
    /// The bitrate tag, when the stream carried one.
    pub bitrate: Option<u32>,
}

/// A string's bytes, as the byte-wise comparisons see them.
pub open spec fn string_bytes(s: String) -> Seq<u8> {
    vstd::utf8::encode_utf8(s@)
}

/// The image codec named by a caps structure, compared without regard to
/// ASCII case.
pub open spec fn spec_codec_of(caps_name: Seq<u8>) -> ImageCodec {
    if eq_ignore_case_bytes(caps_name, "image/jpeg".spec_bytes()) {
        ImageCodec::Jpeg
    } else if eq_ignore_case_bytes(caps_name, "image/png".spec_bytes()) {
        ImageCodec::Png
    } else {
        ImageCodec::Unknown
    }
}

/// How one stream entry updates the classification: container entries and
/// unknown tags change nothing, and only the first entry of each kind
/// fills its bucket.
pub open spec fn spec_add_stream(m: MediaInfo, s: ProbedStream) -> MediaInfo {
    if s.nick@ == "container"@ {
        m
    } else if s.nick@ == "video(image)"@ {
        if m.image is Some {
            m
        } else {
            MediaInfo { image: Some(ImageInfo { codec: spec_codec_of(string_bytes(s.caps_name)) }), ..m }
        }
    } else if s.nick@ == "video"@ {
        if m.video is Some {
            m
        } else {
            MediaInfo {
                video: Some(StreamInfo { max_bitrate: s.max_bitrate, bitrate: s.bitrate }),
                ..m
            }
        }
    } else if s.nick@ == "audio"@ {
        if m.audio is Some {
            m
        } else {
            MediaInfo {
                audio: Some(StreamInfo { max_bitrate: s.max_bitrate, bitrate: s.bitrate }),
                ..m
            }
        }
    } else {
        m
    }
}

/// The classification after folding a sequence of entries in report order.
pub open spec fn spec_add_streams(m: MediaInfo, ss: Seq<ProbedStream>) -> MediaInfo
    decreases ss.len(),
{
    if ss.len() == 0 {
        m
    } else {
        spec_add_streams(spec_add_stream(m, ss[0]), ss.drop_first())
    }
}

/// What a probe reports for a file: the container's duration and the fold
/// of all its stream entries.
pub open spec fn spec_classify(duration_ns: Option<u64>, ss: Seq<ProbedStream>) -> MediaInfo {
    spec_add_streams(MediaInfo { duration: duration_ns, image: None, video: None, audio: None }, ss)
}

/// Record one discovered stream entry into the classification.
pub fn add_stream_info(info: &mut MediaInfo, s: &ProbedStream)
    ensures
        *final(info) == spec_add_stream(*old(info), *s),
{
    if str_eq(s.nick.as_str(), "container") {
        return ;
    }
    if str_eq(s.nick.as_str(), "video(image)") {
        if info.image.is_none() {
            let codec = if ascii_eq_ignore_case(s.caps_name.as_str(), "image/jpeg") {
                ImageCodec::Jpeg
            } else if ascii_eq_ignore_case(s.caps_name.as_str(), "image/png") {
                ImageCodec::Png
            } else {
                ImageCodec::Unknown
            };
            info.image = Some(ImageInfo { codec });
        }
    } else if str_eq(s.nick.as_str(), "video") {
        if info.video.is_none() {
            info.video = Some(StreamInfo { max_bitrate: s.max_bitrate, bitrate: s.bitrate });
        }
    } else if str_eq(s.nick.as_str(), "audio") {
        if info.audio.is_none() {
            info.audio = Some(StreamInfo { max_bitrate: s.max_bitrate, bitrate: s.bitrate });
        }
    }
}

/// Classify a whole probe report: the duration the container gave and its
/// stream entries, flattened in report order.
pub fn classify_streams(duration_ns: Option<u64>, streams: &Vec<ProbedStream>) -> (r: MediaInfo)
    ensures
        r == spec_classify(duration_ns, streams@),
{
    let mut info = MediaInfo { duration: duration_ns, image: None, video: None, audio: None };
    proof {
        assert(streams@.skip(0) =~= streams@);
    }
    let mut k: usize = 0;
    while k < streams.len()
        invariant
            k <= streams.len(),
            spec_add_streams(info, streams@.skip(k as int)) == spec_classify(
                duration_ns,
                streams@,
            ),
        decreases streams.len() - k,
    {
        let ghost before = info;
        add_stream_info(&mut info, &streams[k]);
        proof {
            let rest = streams@.skip(k as int);
            assert(rest[0] == streams@[k as int]);
            assert(rest.drop_first() =~= streams@.skip(k as int + 1));
            assert(spec_add_streams(before, rest) == spec_add_streams(
                spec_add_stream(before, rest[0]),
                rest.drop_first(),
            ));
        }
        k = k + 1;
    }
    proof {
        assert(streams@.skip(streams@.len() as int) =~= Seq::<ProbedStream>::empty());
    }
    info
}

/// The probe is deterministic: the classification is a function of the
/// reported duration and entries alone, so equal reports - as repeated
/// probes of an unchanged file give - classify equally.
pub proof fn lemma_probe_deterministic(
    d1: Option<u64>,
    ss1: Seq<ProbedStream>,
    d2: Option<u64>,
    ss2: Seq<ProbedStream>,
)
    requires
        d1 == d2,
        ss1 == ss2,
    ensures
        spec_classify(d1, ss1) == spec_classify(d2, ss2),
{
}

/// The coarse pre-check's reading of a type-find result: any video
/// container counts as video with audio until properly probed, an image
/// caps name is a still, and everything else is unplayable.
pub fn media_type_of_caps_name(name: &str) -> (r: MediaType)
    ensures
        r == MediaType::VideoWithAudio <==> bytes_prefix("video/".spec_bytes(), name.spec_bytes()),
        r == MediaType::Image <==> !bytes_prefix("video/".spec_bytes(), name.spec_bytes())
            && bytes_prefix("image/".spec_bytes(), name.spec_bytes()),
        r == MediaType::Unknown <==> !bytes_prefix("video/".spec_bytes(), name.spec_bytes())
            && !bytes_prefix("image/".spec_bytes(), name.spec_bytes()),
{
    if str_starts_with(name, "video/") {
        MediaType::VideoWithAudio
    } else if str_starts_with(name, "image/") {
        MediaType::Image
    } else {
        MediaType::Unknown
    }
}

} // verus!
