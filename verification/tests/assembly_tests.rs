use randcast::assembly::{
    image_hold, pad_kind_of_name, freeze_verdict, silence_buffer_count, still_frame_count,
    Assembly, AudioFeed, FreezeVerdict, OverlayState, PadAction, PadKind, VideoFeed,
};
use randcast::media::DEFAULT_HOLD_NS;
use randcast::profile::OutputProfile;

#[test]
fn pad_names_classify() {
    assert_eq!(pad_kind_of_name("video_0"), PadKind::Video);
    assert_eq!(pad_kind_of_name("audio_0"), PadKind::Audio);
    assert_eq!(pad_kind_of_name("text_0"), PadKind::Other);
    assert_eq!(pad_kind_of_name(""), PadKind::Other);
}

#[test]
fn zero_duration_gets_default_hold() {
    assert_eq!(image_hold(0), DEFAULT_HOLD_NS);
    assert_eq!(image_hold(0), 5_000_000_000);
    assert_eq!(image_hold(42), 42);
}

#[test]
fn freeze_gate_ends_item_past_hold() {
    assert_eq!(freeze_verdict(4_999_999_999, Some(5_000_000_000)), FreezeVerdict::Forward);
    assert_eq!(freeze_verdict(5_000_000_000, Some(5_000_000_000)), FreezeVerdict::Forward);
    assert_eq!(freeze_verdict(5_000_000_001, Some(5_000_000_000)), FreezeVerdict::EndItem);
    assert_eq!(freeze_verdict(u64::MAX, None), FreezeVerdict::Forward);
}

#[test]
fn still_segment_is_bounded() {
    assert_eq!(still_frame_count(5_000_000_000, 30), 150);
    assert_eq!(still_frame_count(0, 30), 0);
    assert_eq!(still_frame_count(1_999_999_999, 30), 30);
}

#[test]
fn silence_covers_the_whole_item() {
    assert_eq!(silence_buffer_count(3_000_000_000, 44100, 1024), 130);
    assert_eq!(silence_buffer_count(1, 48000, 1024), 1);
    assert_eq!(silence_buffer_count(1_000_000_000, 48000, 1024), 47);
}

#[test]
fn fresh_assembly_feeds_both_ports_synthetically() {
    let a = Assembly::new();
    assert_eq!(a.video_feed, VideoFeed::SyntheticBlack);
    assert_eq!(a.audio_feed, AudioFeed::SyntheticSilence);
    assert_eq!(a.hold_ns, None);
}

#[test]
fn video_only_file_keeps_silent_audio() {
    let mut a = Assembly::new();
    let act = a.on_pad_added(PadKind::Video, 30_000_000_000);
    assert_eq!(act, PadAction::LinkVideoDirect);
    assert_eq!(a.video_feed, VideoFeed::Decoded);
    assert_eq!(a.audio_feed, AudioFeed::SyntheticSilence);
}

#[test]
fn audio_only_file_keeps_black_video() {
    let mut a = Assembly::new();
    let act = a.on_pad_added(PadKind::Audio, 3_000_000_000);
    assert_eq!(act, PadAction::LinkAudio);
    assert_eq!(a.audio_feed, AudioFeed::Decoded);
    assert_eq!(a.video_feed, VideoFeed::SyntheticBlack);
}

#[test]
fn still_image_goes_through_freeze_with_default_hold() {
    let mut a = Assembly::new();
    let act = a.on_pad_added(PadKind::Video, 0);
    assert_eq!(act, PadAction::LinkVideoThroughFreeze);
    assert_eq!(a.video_feed, VideoFeed::Frozen);
    assert_eq!(a.hold_ns, Some(DEFAULT_HOLD_NS));
}

#[test]
fn unknown_pads_are_ignored() {
    let mut a = Assembly::new();
    let act = a.on_pad_added(PadKind::Other, 7);
    assert_eq!(act, PadAction::Ignore);
    assert_eq!(a.video_feed, VideoFeed::SyntheticBlack);
    assert_eq!(a.audio_feed, AudioFeed::SyntheticSilence);
}

#[test]
fn rebind_restores_synthetic_feeds() {
    let mut a = Assembly::new();
    a.on_pad_added(PadKind::Video, 1);
    a.on_pad_added(PadKind::Audio, 1);
    a.rebind();
    assert_eq!(a.video_feed, VideoFeed::SyntheticBlack);
    assert_eq!(a.audio_feed, AudioFeed::SyntheticSilence);
    assert_eq!(a.hold_ns, None);
}

#[test]
fn port_caps_match_profile_whatever_feeds_them() {
    let profile = OutputProfile::reference();
    let mut a = Assembly::new();
    assert_eq!(a.video_port_caps(&profile), profile.video_caps());
    assert_eq!(a.audio_port_caps(&profile), profile.audio_caps());
    a.on_pad_added(PadKind::Video, 0);
    assert_eq!(a.video_port_caps(&profile), profile.video_caps());
    assert_eq!(a.audio_port_caps(&profile), profile.audio_caps());
    a.on_pad_added(PadKind::Audio, 1);
    assert_eq!(a.video_port_caps(&profile), profile.video_caps());
    assert_eq!(a.audio_port_caps(&profile), profile.audio_caps());
}

#[test]
fn reference_profile_values() {
    let p = OutputProfile::reference();
    assert_eq!((p.width, p.height), (1280, 720));
    assert_eq!((p.fps_n, p.fps_d), (30, 1));
    assert_eq!((p.sample_rate, p.channel_count), (48000, 2));
    assert_eq!(p.frame_duration_ns(), 33_333_333);
}

#[test]
fn overlay_renders_at_most_once_per_second() {
    let mut o = OverlayState::new();
    let t1 = o.on_buffer(65_000_000_000, Some(120_000_000_000));
    assert_eq!(t1.as_deref(), Some("01:05 / 02:00"));
    let t2 = o.on_buffer(65_500_000_000, Some(120_000_000_000));
    assert_eq!(t2, None);
    let t3 = o.on_buffer(66_000_000_000, None);
    assert_eq!(t3.as_deref(), Some("01:06"));
}
