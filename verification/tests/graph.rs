use q6w::graph::{
    BranchKind, BufferStageKind, LinkAction, LinkState, VideoVariant, clamp_budget, clamp_volume,
    classify_media, effective_volume, file_uri, plan_graph, software_guard_refuses,
};

#[test]
fn volume_clamps_to_unit_range() {
    // 1.3 of full scale comes down to 1.0; -0.2 comes up to 0.0.
    assert_eq!(clamp_volume(1300), 1000);
    assert_eq!(clamp_volume(-200), 0);
    assert_eq!(clamp_volume(0), 0);
    assert_eq!(clamp_volume(1000), 1000);
    assert_eq!(clamp_volume(731), 731);
}

#[test]
fn disabled_audio_forces_silence() {
    assert_eq!(effective_volume(false, 1000), 0);
    assert_eq!(effective_volume(true, 1300), 1000);
    assert_eq!(effective_volume(true, 640), 640);
}

#[test]
fn clamp_budget_bounds_each_stage_kind() {
    let b = clamp_budget(BufferStageKind::MultiBranch);
    assert_eq!(b.max_frames, 2);
    assert_eq!(b.max_bytes, 0);
    assert_eq!(b.max_nanos, 0);

    let b = clamp_budget(BufferStageKind::SingleBranch);
    assert_eq!(b.max_frames, 0);
    assert_eq!(b.max_bytes, 20 * 1024 * 1024);
    assert_eq!(b.max_nanos, 0);
}

#[test]
fn no_planned_buffer_stage_left_unbounded() {
    for hw in [true, false] {
        let p = plan_graph(hw, true, 1000, 3840, 2160, Some(30));
        for st in p.video_stages.iter().chain(p.audio_stages.iter()) {
            if let Some(b) = st.budget {
                assert!(b.max_frames > 0 || b.max_bytes > 0 || b.max_nanos > 0);
            }
        }
    }
}

#[test]
fn unavailable_hardware_selects_software_chain() {
    let p = plan_graph(false, false, 1000, 1920, 1080, None);
    assert_eq!(p.variant, VideoVariant::Software);
    let pipeline = q6w::transport::Pipeline::new(p);
    assert!(pipeline.is_software_fallback());

    let p = plan_graph(true, false, 1000, 1920, 1080, None);
    assert_eq!(p.variant, VideoVariant::Hardware);
    let pipeline = q6w::transport::Pipeline::new(p);
    assert!(!pipeline.is_software_fallback());
}

#[test]
fn plan_pins_sink_configuration() {
    let p = plan_graph(true, true, 500, 2560, 1440, Some(24));
    assert_eq!(p.sink.width, 2560);
    assert_eq!(p.sink.height, 1440);
    assert_eq!(p.sink.fps, Some(24));
    assert_eq!(p.sink.max_buffered_frames, 2);
    assert!(p.sink.drop_when_full);
    assert!(p.sink.clocked);
    assert_eq!(p.volume_milli, 500);
}

#[test]
fn classify_media_by_leading_family() {
    assert_eq!(classify_media(&b"video/x-raw".to_vec()), BranchKind::Video);
    assert_eq!(classify_media(&b"audio/mpeg".to_vec()), BranchKind::Audio);
    assert_eq!(classify_media(&b"text/x-raw".to_vec()), BranchKind::Other);
    assert_eq!(classify_media(&b"vide".to_vec()), BranchKind::Other);
    assert_eq!(classify_media(&b"".to_vec()), BranchKind::Other);
}

#[test]
fn branch_linking_is_lazy_and_idempotent() {
    let mut s = LinkState::new();
    assert_eq!(s.route_branch(BranchKind::Video), LinkAction::AttachVideo);
    assert_eq!(s.route_branch(BranchKind::Video), LinkAction::Ignore);
    assert_eq!(s.route_branch(BranchKind::Audio), LinkAction::AttachAudio);
    assert_eq!(s.route_branch(BranchKind::Audio), LinkAction::Ignore);
    assert_eq!(s.route_branch(BranchKind::Other), LinkAction::Ignore);
    assert!(s.video_linked);
    assert!(s.audio_linked);
}

#[test]
fn file_uri_absolute_and_relative() {
    let uri = file_uri(&b"/videos/loop.mp4".to_vec(), &b"/home/u".to_vec());
    assert_eq!(uri, b"file:///videos/loop.mp4".to_vec());

    let uri = file_uri(&b"loop.mp4".to_vec(), &b"/home/u".to_vec());
    assert_eq!(uri, b"file:///home/u/loop.mp4".to_vec());
}

#[test]
fn guard_rail_refuses_high_resolution_software_decode() {
    assert!(software_guard_refuses(true, 2560, 1440, false));
    assert!(!software_guard_refuses(true, 1920, 1080, false));
    assert!(!software_guard_refuses(false, 2560, 1440, false));
    assert!(!software_guard_refuses(true, 2560, 1440, true));
}
