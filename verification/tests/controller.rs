use q6w::controller::{
    ControllerConfig, PlaybackController, StateFlagSet, TransportCommand, WindowFlags,
    WindowTracker, derive_commands, derive_window_flags, parse_state_flags, PlaybackState,
};

fn config_fullscreen_only() -> ControllerConfig {
    ControllerConfig {
        pause_on_fullscreen: true,
        pause_on_window: false,
        mute_on_window: false,
        audio_enabled: false,
    }
}

fn flags(fullscreen_active: bool, active_or_maximized: bool) -> WindowFlags {
    WindowFlags { fullscreen_active, active_or_maximized }
}

#[test]
fn derive_window_flags_combines_raw_flags() {
    let w = derive_window_flags(StateFlagSet { fullscreen: true, activated: true, maximized: false });
    assert!(w.fullscreen_active);
    assert!(w.active_or_maximized);

    let w = derive_window_flags(StateFlagSet { fullscreen: true, activated: false, maximized: false });
    assert!(!w.fullscreen_active);
    assert!(!w.active_or_maximized);

    let w = derive_window_flags(StateFlagSet { fullscreen: false, activated: false, maximized: true });
    assert!(!w.fullscreen_active);
    assert!(w.active_or_maximized);
}

#[test]
fn aggregate_equals_count_positive() {
    let mut t = WindowTracker::new();
    assert!(!t.any_fullscreen_active());

    t.update_window(1, flags(true, true));
    assert!(t.any_fullscreen_active());
    assert_eq!(t.fullscreen_count, 1);

    t.update_window(2, flags(true, false));
    assert_eq!(t.fullscreen_count, 2);

    t.update_window(1, flags(false, false));
    assert_eq!(t.fullscreen_count, 1);
    assert!(t.any_fullscreen_active());

    t.close_window(2);
    assert_eq!(t.fullscreen_count, 0);
    assert!(!t.any_fullscreen_active());
}

#[test]
fn out_of_order_close_never_goes_negative() {
    let mut t = WindowTracker::new();
    // Close of a window never seen: nothing happens.
    t.close_window(7);
    assert_eq!(t.fullscreen_count, 0);
    assert_eq!(t.active_count, 0);

    // A window enters and leaves; a second close of the same handle is a
    // no-op rather than an underflow.
    t.update_window(7, flags(true, true));
    t.close_window(7);
    t.close_window(7);
    assert_eq!(t.fullscreen_count, 0);
    assert_eq!(t.active_count, 0);
    assert!(!t.any_fullscreen_active());
    assert!(!t.any_active_or_maximized());
}

#[test]
fn repeated_state_reports_count_once() {
    let mut t = WindowTracker::new();
    t.update_window(3, flags(true, true));
    t.update_window(3, flags(true, true));
    t.update_window(3, flags(true, true));
    assert_eq!(t.fullscreen_count, 1);
    assert_eq!(t.active_count, 1);
}

#[test]
fn close_retires_last_known_flags_once() {
    let mut t = WindowTracker::new();
    t.update_window(1, flags(true, true));
    t.update_window(2, flags(false, true));
    assert_eq!(t.fullscreen_count, 1);
    assert_eq!(t.active_count, 2);
    t.close_window(1);
    assert_eq!(t.fullscreen_count, 0);
    assert_eq!(t.active_count, 1);
}

#[test]
fn fullscreen_scenario_emits_pause_then_resume() {
    // open(W1), state(W1,{fullscreen,activated}), state(W1,{activated}),
    // close(W1) with fullscreen-pause enabled and window-pause disabled.
    let mut c = PlaybackController::new(config_fullscreen_only());
    let mut log: Vec<TransportCommand> = Vec::new();

    let n1 = q6w::controller::WindowNotification::Opened { id: 1 };
    let n2 = q6w::controller::WindowNotification::StateChanged {
        id: 1,
        flags: StateFlagSet { fullscreen: true, activated: true, maximized: false },
    };
    let n3 = q6w::controller::WindowNotification::StateChanged {
        id: 1,
        flags: StateFlagSet { fullscreen: false, activated: true, maximized: false },
    };
    let n4 = q6w::controller::WindowNotification::Closed { id: 1 };

    log.extend(c.handle_notification(n1));
    log.extend(c.handle_notification(n2));
    log.extend(c.handle_notification(n3));
    log.extend(c.handle_notification(n4));

    assert_eq!(log, vec![TransportCommand::Pause, TransportCommand::Resume]);
}

#[test]
fn no_resume_while_other_pause_source_active() {
    let prev = PlaybackState {
        paused_for_fullscreen: true,
        paused_for_window: true,
        muted_for_window: false,
    };
    let next = PlaybackState {
        paused_for_fullscreen: false,
        paused_for_window: true,
        muted_for_window: false,
    };
    let cmds = derive_commands(prev, next);
    assert!(cmds.is_empty());

    let last = PlaybackState {
        paused_for_fullscreen: false,
        paused_for_window: false,
        muted_for_window: false,
    };
    let cmds = derive_commands(next, last);
    assert_eq!(cmds, vec![TransportCommand::Resume]);
}

#[test]
fn pause_emitted_only_on_entering_edge() {
    let idle = PlaybackState {
        paused_for_fullscreen: false,
        paused_for_window: false,
        muted_for_window: false,
    };
    let one = PlaybackState {
        paused_for_fullscreen: true,
        paused_for_window: false,
        muted_for_window: false,
    };
    let both = PlaybackState {
        paused_for_fullscreen: true,
        paused_for_window: true,
        muted_for_window: false,
    };
    assert_eq!(derive_commands(idle, one), vec![TransportCommand::Pause]);
    // A second source joining while already paused repeats nothing.
    assert_eq!(derive_commands(one, both), vec![]);
}

#[test]
fn mute_follows_window_activity_when_enabled() {
    let config = ControllerConfig {
        pause_on_fullscreen: true,
        pause_on_window: false,
        mute_on_window: true,
        audio_enabled: true,
    };
    let mut c = PlaybackController::new(config);
    let focus = q6w::controller::WindowNotification::StateChanged {
        id: 9,
        flags: StateFlagSet { fullscreen: false, activated: true, maximized: false },
    };
    let blur = q6w::controller::WindowNotification::StateChanged {
        id: 9,
        flags: StateFlagSet { fullscreen: false, activated: false, maximized: false },
    };
    assert_eq!(c.handle_notification(focus), vec![TransportCommand::Mute]);
    assert_eq!(c.handle_notification(blur), vec![TransportCommand::Unmute]);
}

#[test]
fn mute_needs_audio_enabled() {
    let config = ControllerConfig {
        pause_on_fullscreen: true,
        pause_on_window: false,
        mute_on_window: true,
        audio_enabled: false,
    };
    let mut c = PlaybackController::new(config);
    let focus = q6w::controller::WindowNotification::StateChanged {
        id: 9,
        flags: StateFlagSet { fullscreen: false, activated: true, maximized: false },
    };
    assert_eq!(c.handle_notification(focus), vec![]);
}

#[test]
fn parse_state_flags_reads_little_endian_words() {
    // fullscreen (3) and activated (2)
    let raw = vec![3u8, 0, 0, 0, 2, 0, 0, 0];
    let f = parse_state_flags(&raw);
    assert!(f.fullscreen);
    assert!(f.activated);
    assert!(!f.maximized);
}

#[test]
fn parse_state_flags_empty_and_fragment() {
    let f = parse_state_flags(&vec![]);
    assert!(!f.fullscreen && !f.activated && !f.maximized);

    // A trailing fragment shorter than a word is ignored.
    let f = parse_state_flags(&vec![0u8, 0, 0, 0, 3, 0, 0]);
    assert!(f.maximized);
    assert!(!f.fullscreen);
}

#[test]
fn parse_state_flags_rejects_big_endian_confusion() {
    // The word 0x03000000 is not the fullscreen word 0x00000003.
    let raw = vec![0u8, 0, 0, 3];
    let f = parse_state_flags(&raw);
    assert!(!f.fullscreen);
}
