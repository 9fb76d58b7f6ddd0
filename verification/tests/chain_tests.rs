use randcast::config::XiuConfig;
use randcast::control::{command_for_request, push_gate, PushStep};
use randcast::encoder::{
    choose_encoder, encoder_settings, muxer_event_verdict, muxer_for, EncoderKind, MuxerKind,
    NvH264Tune, Output, PadEventKind, ProbeVerdict, X264Tune,
};
use randcast::error::{exit_code, recovery_for, ErrorKind, Recovery};
use randcast::profile::VideoOptions;
use randcast::switcher::Command;
use randcast::timeline::{reactivation_segment, OutputTimeline};

#[test]
fn encoder_preference_order() {
    assert_eq!(choose_encoder(true, true), EncoderKind::NvH264);
    assert_eq!(choose_encoder(true, false), EncoderKind::NvH264);
    assert_eq!(choose_encoder(false, true), EncoderKind::VaH264);
    assert_eq!(choose_encoder(false, false), EncoderKind::X264);
}

#[test]
fn encoder_settings_are_low_latency_cbr() {
    let s = encoder_settings(6000);
    assert!(s.cbr);
    assert!(s.zero_latency);
    assert_eq!(s.bitrate_kbps, 6000);
    assert_eq!(s.key_int_max, 30);
    assert_eq!(s.bframes, 0);
}

#[test]
fn tune_names() {
    assert_eq!(X264Tune::ZeroLatency.as_str(), "zerolatency");
    assert_eq!(X264Tune::FastDecode.as_str(), "fastdecode");
    assert_eq!(X264Tune::Film.as_str(), "film");
    assert_eq!(X264Tune::Animation.as_str(), "animation");
    assert_eq!(NvH264Tune::Default.as_str(), "default");
    assert_eq!(NvH264Tune::HighQuality.as_str(), "high-quality");
    assert_eq!(NvH264Tune::LowLatency.as_str(), "low-latency");
    assert_eq!(NvH264Tune::UltraLowLatency.as_str(), "ultra-low-latency");
    assert_eq!(NvH264Tune::Lossless.as_str(), "lossless");
}

#[test]
fn muxer_follows_output_format() {
    assert_eq!(muxer_for(&Output::Rtmp("rtmp://127.0.0.1/live".to_string())), MuxerKind::Flv);
    assert_eq!(muxer_for(&Output::Srt("srt://127.0.0.1:8890".to_string())), MuxerKind::MpegTs);
}

#[test]
fn per_item_eos_never_reaches_the_sink() {
    assert_eq!(muxer_event_verdict(PadEventKind::Eos), ProbeVerdict::Drop);
    assert_eq!(muxer_event_verdict(PadEventKind::Other), ProbeVerdict::Pass);
}

#[test]
fn skip_route_maps_to_skip_command() {
    assert_eq!(command_for_request(true, "/skip"), (Some(Command::Skip), 200));
    assert_eq!(command_for_request(true, "/"), (None, 200));
    assert_eq!(command_for_request(true, "/skipx"), (None, 200));
    assert_eq!(command_for_request(false, "/skip"), (None, 200));
}

#[test]
fn push_gate_table() {
    assert_eq!(push_gate(true, true), PushStep::Stop);
    assert_eq!(push_gate(true, false), PushStep::Stop);
    assert_eq!(push_gate(false, true), PushStep::Forward);
    assert_eq!(push_gate(false, false), PushStep::Idle);
}

#[test]
fn recovery_policy_rows() {
    assert_eq!(recovery_for(ErrorKind::Probe), Recovery::SkipFile);
    assert_eq!(recovery_for(ErrorKind::AssemblyBuild), Recovery::RecycleSlot);
    assert_eq!(recovery_for(ErrorKind::AssemblyRuntime), Recovery::EndOfItem);
    assert_eq!(recovery_for(ErrorKind::OutputChain), Recovery::Fatal);
    assert_eq!(recovery_for(ErrorKind::SidecarExit), Recovery::Fatal);
    assert_eq!(recovery_for(ErrorKind::Bind), Recovery::Fatal);
}

#[test]
fn exit_codes() {
    assert_eq!(exit_code(false), 0);
    assert_eq!(exit_code(true), 1);
}

#[test]
fn default_xiu_ports() {
    let c = XiuConfig::default();
    assert_eq!(c.rtmp_port, 1935);
    assert_eq!(c.rtsp_port, 5540);
    assert_eq!(c.webrtc_port, 8900);
    assert_eq!(c.hls_port, 8081);
    assert_eq!(c.http_flv_port, 8080);
}

#[test]
fn hd_720_options() {
    let o = VideoOptions::hd_720();
    assert_eq!((o.width, o.height, o.fps, o.bitrate), (1280, 720, 30, 3000));
}

#[test]
fn timeline_rebases_by_one_frame() {
    let mut t = OutputTimeline::new(33_333_333);
    assert_eq!(t.boundary_pts(), 0);
    t.push_frame(33_333_333);
    t.push_frame(66_666_666);
    assert_eq!(t.boundary_pts(), 99_999_999);
    t.push_frame(99_999_999);
    assert_eq!(t.boundary_pts(), 133_333_332);
}

#[test]
fn reactivation_waits_for_sticky_events() {
    assert_eq!(reactivation_segment(true, true), Some(0));
    assert_eq!(reactivation_segment(true, false), None);
    assert_eq!(reactivation_segment(false, true), None);
    assert_eq!(reactivation_segment(false, false), None);
}
