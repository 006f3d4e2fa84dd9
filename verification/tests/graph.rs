use teleop_core::caps::{CapsDescriptor, Encoding, RtpConfig};
use teleop_core::graph::{
    check_stage_report, BuildError, BusMessage, Event, Graph, GraphState, LinkStatus, PadOutcome,
    StageId, StateError,
};

fn h264_config() -> RtpConfig {
    RtpConfig { port: 5000, encoding: Encoding::H264, payload_type: 96 }
}

#[test]
fn build_accepts_h264_on_96() {
    let g = Graph::build(h264_config()).unwrap();
    assert_eq!(g.state, GraphState::Ready);
    assert_eq!(g.pending, LinkStatus::Unlinked);
    assert_eq!(g.link_attempts, 0);
    assert_eq!(g.stages.len(), 8);
    for stage in &g.stages {
        assert_eq!(stage.link, LinkStatus::Linked);
    }
}

#[test]
fn build_accepts_jpeg_on_26() {
    let cfg = RtpConfig { port: 5000, encoding: Encoding::Jpeg, payload_type: 26 };
    let g = Graph::build(cfg).unwrap();
    assert_eq!(g.state, GraphState::Ready);
    for stage in &g.stages {
        assert_eq!(stage.link, LinkStatus::Linked);
    }
}

#[test]
fn build_rejects_mismatched_pairs() {
    let bad = [
        RtpConfig { port: 5000, encoding: Encoding::H264, payload_type: 26 },
        RtpConfig { port: 5000, encoding: Encoding::Jpeg, payload_type: 96 },
        RtpConfig { port: 5000, encoding: Encoding::H264, payload_type: 0 },
        RtpConfig { port: 5000, encoding: Encoding::Jpeg, payload_type: 127 },
    ];
    for cfg in bad {
        assert!(matches!(Graph::build(cfg), Err(BuildError::LinkFailure)));
    }
}

#[test]
fn missing_stages_fail_the_build_report() {
    assert!(check_stage_report(&vec![true; 8]).is_ok());
    assert!(matches!(
        check_stage_report(&vec![true, true, false, true, true, true, true, true]),
        Err(BuildError::MissingStage)
    ));
    assert!(matches!(
        check_stage_report(&vec![false; 8]),
        Err(BuildError::MissingStage)
    ));
    assert!(matches!(
        check_stage_report(&vec![true, true, true, true, true, true, true, false]),
        Err(BuildError::MissingStage)
    ));
    assert!(check_stage_report(&Vec::new()).is_ok());
}

#[test]
fn caps_string_renders_exactly() {
    assert_eq!(
        h264_config().caps_string(),
        "application/x-rtp,media=video,encoding-name=H264,payload=96"
    );
    let jpeg = RtpConfig { port: 5000, encoding: Encoding::Jpeg, payload_type: 26 };
    assert_eq!(
        jpeg.caps_string(),
        "application/x-rtp,media=video,encoding-name=JPEG,payload=26"
    );
}

#[test]
fn start_is_single_shot() {
    let mut g = Graph::build(h264_config()).unwrap();
    assert_eq!(g.start(), Ok(()));
    assert_eq!(g.state, GraphState::Playing);
    assert_eq!(g.start(), Err(StateError::AlreadyStarted));
    g.stop();
    assert_eq!(g.start(), Err(StateError::TornDown));
}

#[test]
fn simulated_udp_caps_pad_added_links_queue_sink_once() {
    let cfg = h264_config();
    assert_eq!(
        cfg.caps_string(),
        "application/x-rtp,media=video,encoding-name=H264,payload=96"
    );
    let mut g = Graph::build(cfg).unwrap();
    g.start().unwrap();
    let caps = CapsDescriptor::new(String::from("video/x-raw"));
    assert_eq!(g.on_pad_announced(StageId::Decoder, &caps), PadOutcome::Linked);
    assert_eq!(g.pending, LinkStatus::Linked);
    assert_eq!(g.link_attempts, 1);
}

#[test]
fn duplicate_video_announcement_is_ignored() {
    let mut g = Graph::build(h264_config()).unwrap();
    g.start().unwrap();
    let caps = CapsDescriptor::new(String::from("video/x-raw"));
    assert_eq!(g.on_pad_announced(StageId::Decoder, &caps), PadOutcome::Linked);
    assert_eq!(g.on_pad_announced(StageId::Decoder, &caps), PadOutcome::AlreadyResolved);
    assert_eq!(g.link_attempts, 1);
    assert_eq!(g.pending, LinkStatus::Linked);
}

#[test]
fn non_video_announcements_never_attempt_a_link() {
    let mut g = Graph::build(h264_config()).unwrap();
    g.start().unwrap();
    for name in ["audio/x-raw", "application/x-rtp", "", "video", "vide0/x-raw", "text/plain"] {
        let caps = CapsDescriptor::new(String::from(name));
        assert_eq!(g.on_pad_announced(StageId::Decoder, &caps), PadOutcome::NotVideo);
    }
    assert_eq!(g.link_attempts, 0);
    assert_eq!(g.pending, LinkStatus::Unlinked);
}

#[test]
fn exact_video_prefix_is_video_class() {
    let mut g = Graph::build(h264_config()).unwrap();
    g.start().unwrap();
    let caps = CapsDescriptor::new(String::from("video/"));
    assert_eq!(g.on_pad_announced(StageId::Decoder, &caps), PadOutcome::Linked);
}

#[test]
fn announcements_from_other_stages_are_ignored() {
    let mut g = Graph::build(h264_config()).unwrap();
    g.start().unwrap();
    let caps = CapsDescriptor::new(String::from("video/x-raw"));
    assert_eq!(g.on_pad_announced(StageId::Parse, &caps), PadOutcome::NotPendingStage);
    assert_eq!(g.link_attempts, 0);
}

#[test]
fn announcements_after_teardown_are_ignored() {
    let mut g = Graph::build(h264_config()).unwrap();
    g.stop();
    let caps = CapsDescriptor::new(String::from("video/x-raw"));
    assert_eq!(g.on_pad_announced(StageId::Decoder, &caps), PadOutcome::TornDown);
    assert_eq!(g.link_attempts, 0);
}

#[test]
fn rejected_link_is_never_retried() {
    let mut g = Graph::build(h264_config()).unwrap();
    g.start().unwrap();
    let caps = CapsDescriptor::new(String::from("video/x-raw"));
    assert_eq!(g.on_pad_announced(StageId::Decoder, &caps), PadOutcome::Linked);
    g.on_link_rejected();
    assert_eq!(g.pending, LinkStatus::LinkFailed);
    assert_eq!(g.on_pad_announced(StageId::Decoder, &caps), PadOutcome::AlreadyResolved);
    assert_eq!(g.link_attempts, 1);
}

#[test]
fn stop_from_any_state_always_ends_null() {
    let mut g = Graph::build(h264_config()).unwrap();
    g.stop();
    assert_eq!(g.state, GraphState::Null);
    g.stop();
    g.stop();
    assert_eq!(g.state, GraphState::Null);

    let mut playing = Graph::build(h264_config()).unwrap();
    playing.start().unwrap();
    for _ in 0..5 {
        playing.stop();
        assert_eq!(playing.state, GraphState::Null);
    }
}

#[test]
fn bus_eos_and_error_both_tear_down() {
    let mut g = Graph::build(h264_config()).unwrap();
    g.start().unwrap();
    let ev = g.poll_events(Some(BusMessage::Eos));
    assert!(matches!(ev, Some(Event::EndOfStream)));
    assert_eq!(g.state, GraphState::Null);

    let mut g2 = Graph::build(h264_config()).unwrap();
    g2.start().unwrap();
    let ev2 = g2.poll_events(Some(BusMessage::Error(String::from("decode fault"))));
    match ev2 {
        Some(Event::Error(d)) => assert_eq!(d, "decode fault"),
        other => panic!("unexpected event: {:?}", other),
    }
    assert_eq!(g2.state, GraphState::Null);
}

#[test]
fn bus_other_and_empty_polls_leave_state_alone() {
    let mut g = Graph::build(h264_config()).unwrap();
    g.start().unwrap();
    assert!(g.poll_events(None).is_none());
    assert!(matches!(g.poll_events(Some(BusMessage::Other)), Some(Event::Other)));
    assert_eq!(g.state, GraphState::Playing);
}

#[test]
fn position_is_zero_unless_playing() {
    let mut g = Graph::build(h264_config()).unwrap();
    assert_eq!(g.position(Some(1_000_000)), 0);
    g.start().unwrap();
    assert_eq!(g.position(Some(1_000_000)), 1_000_000);
    assert_eq!(g.position(None), 0);
    g.stop();
    assert_eq!(g.position(Some(1_000_000)), 0);
}

#[test]
fn surface_ready_needs_playback_and_link() {
    let mut g = Graph::build(h264_config()).unwrap();
    assert!(!g.surface_ready());
    g.start().unwrap();
    assert!(!g.surface_ready());
    let caps = CapsDescriptor::new(String::from("video/x-raw"));
    g.on_pad_announced(StageId::Decoder, &caps);
    assert!(g.surface_ready());
}

#[test]
fn factory_names_follow_encoding() {
    assert_eq!(StageId::UdpSrc.factory_name(Encoding::H264), "udpsrc");
    assert_eq!(StageId::Depay.factory_name(Encoding::H264), "rtph264depay");
    assert_eq!(StageId::Depay.factory_name(Encoding::Jpeg), "rtpjpegdepay");
    assert_eq!(StageId::Parse.factory_name(Encoding::H264), "h264parse");
    assert_eq!(StageId::Parse.factory_name(Encoding::Jpeg), "jpegparse");
    assert_eq!(StageId::Decoder.factory_name(Encoding::H264), "decodebin");
    assert_eq!(StageId::DecodeQueue.factory_name(Encoding::H264), "queue");
    assert_eq!(StageId::Convert.factory_name(Encoding::H264), "videoconvert");
    assert_eq!(StageId::Sink.factory_name(Encoding::H264), "gtk4paintablesink");
}
