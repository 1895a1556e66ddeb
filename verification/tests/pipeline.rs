use bevy_pieces::pipeline::{FramePacer, RenderHandoff, FRAMES_IN_FLIGHT};

#[test]
fn handoff_tracks_the_render_app() {
    let mut h = RenderHandoff::new();
    assert!(!h.must_wait_on_drop());
    h.sent();
    assert!(h.must_wait_on_drop());
    assert!(!h.received(false));
    assert!(h.must_wait_on_drop());
    assert!(h.received(true));
    assert!(!h.must_wait_on_drop());
}

#[test]
fn pacer_bounds_frames_in_flight() {
    let mut p = FramePacer::new();
    assert!(p.retire_backlog().is_empty());
    assert_eq!(p.fence_next(), 0);
    assert!(p.retire_backlog().is_empty());
    assert_eq!(p.fence_next(), 1);
    assert_eq!(p.retire_backlog(), vec![0]);
    assert_eq!(p.fence_next(), 0);
    assert_eq!(p.retire_backlog(), vec![1]);
    assert_eq!(p.fence_next(), 1);
    assert_eq!(p.frames_fenced(), 4);
    assert_eq!(FRAMES_IN_FLIGHT, 2);
}
