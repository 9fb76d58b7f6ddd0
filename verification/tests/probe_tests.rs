use randcast::media::{ImageCodec, MediaType};
use randcast::probe::{add_stream_info, classify_streams, media_type_of_caps_name, ProbedStream};

fn entry(nick: &str, caps: &str) -> ProbedStream {
    ProbedStream {
        nick: nick.to_string(),
        caps_name: caps.to_string(),
        max_bitrate: None,
        bitrate: None,
    }
}

#[test]
fn container_entries_are_transparent() {
    let streams = vec![entry("container", "video/quicktime"), entry("video", "video/x-h264")];
    let info = classify_streams(Some(5_000_000_000), &streams);
    assert!(info.video.is_some());
    assert!(info.image.is_none());
    assert!(info.audio.is_none());
    assert_eq!(info.duration, Some(5_000_000_000));
}

#[test]
fn first_entry_of_each_kind_wins() {
    let streams = vec![
        ProbedStream {
            nick: "video".to_string(),
            caps_name: "video/x-h264".to_string(),
            max_bitrate: Some(4000),
            bitrate: Some(3000),
        },
        ProbedStream {
            nick: "video".to_string(),
            caps_name: "video/x-vp9".to_string(),
            max_bitrate: Some(9999),
            bitrate: Some(8888),
        },
        entry("audio", "audio/mpeg"),
    ];
    let info = classify_streams(None, &streams);
    let video = info.video.expect("video bucket filled");
    assert_eq!(video.max_bitrate, Some(4000));
    assert_eq!(video.bitrate, Some(3000));
    assert!(info.audio.is_some());
    assert_eq!(info.media_type(), MediaType::VideoWithAudio);
}

#[test]
fn image_codec_read_case_insensitively() {
    let streams = vec![entry("video(image)", "image/JPEG")];
    let info = classify_streams(None, &streams);
    assert_eq!(info.image.expect("image bucket filled").codec, ImageCodec::Jpeg);

    let streams = vec![entry("video(image)", "IMAGE/png")];
    let info = classify_streams(None, &streams);
    assert_eq!(info.image.expect("image bucket filled").codec, ImageCodec::Png);

    let streams = vec![entry("video(image)", "image/webp")];
    let info = classify_streams(None, &streams);
    assert_eq!(info.image.expect("image bucket filled").codec, ImageCodec::Unknown);
}

#[test]
fn unknown_tags_are_skipped() {
    let streams = vec![entry("subtitle", "text/x-raw")];
    let info = classify_streams(None, &streams);
    assert!(info.is_empty());
    assert_eq!(info.media_type(), MediaType::Unknown);
}

#[test]
fn incremental_and_batch_classification_agree() {
    let streams = vec![entry("audio", "audio/mpeg"), entry("video", "video/x-h264")];
    let batch = classify_streams(Some(1), &streams);
    let mut incremental = randcast::media::MediaInfo {
        duration: Some(1),
        image: None,
        video: None,
        audio: None,
    };
    for s in &streams {
        add_stream_info(&mut incremental, s);
    }
    assert_eq!(batch, incremental);
}

#[test]
fn repeated_probes_classify_equally() {
    let streams = vec![entry("video(image)", "image/png"), entry("audio", "audio/mpeg")];
    let once = classify_streams(Some(9), &streams);
    let again = classify_streams(Some(9), &streams);
    assert_eq!(once, again);
}

#[test]
fn typefind_pre_check_mapping() {
    assert_eq!(media_type_of_caps_name("video/quicktime"), MediaType::VideoWithAudio);
    assert_eq!(media_type_of_caps_name("image/jpeg"), MediaType::Image);
    assert_eq!(media_type_of_caps_name("audio/mpeg"), MediaType::Unknown);
    assert_eq!(media_type_of_caps_name("application/x-tar"), MediaType::Unknown);
}
