use window_lifecycle::config::DisplayMode;
use window_lifecycle::config::WindowMetadata;
use window_lifecycle::config::DEBUG_TEXT;
use window_lifecycle::error::Error;
use window_lifecycle::error::InitializationError;
use window_lifecycle::events::InputEvent;
use window_lifecycle::events::KeyAction;
use window_lifecycle::events::KEY_ESCAPE;
use window_lifecycle::gate::FramebufferSize;
use window_lifecycle::lifecycle::CreationOutcome;
use window_lifecycle::lifecycle::LifecycleState;
use window_lifecycle::lifecycle::WindowHandle;
use window_lifecycle::platform::NativeHandle;
use window_lifecycle::platform::RendererType;
use window_lifecycle::platform::TargetOs;

fn windowed(width: u32, height: u32) -> WindowMetadata {
    WindowMetadata::new("Test window".to_string(), width, height, DisplayMode::Windowed, DEBUG_TEXT)
}

fn size(width: u32, height: u32) -> FramebufferSize {
    FramebufferSize { width, height }
}

fn escape_press() -> InputEvent {
    InputEvent::Key { code: KEY_ESCAPE, action: KeyAction::Press }
}

#[test]
fn metadata_keeps_its_parameters() {
    let m = windowed(1280, 720);
    assert_eq!(m.title, "Test window");
    assert_eq!(m.width, 1280);
    assert_eq!(m.height, 720);
    assert_eq!(m.mode, DisplayMode::Windowed);
    assert_eq!(m.debug_flags, DEBUG_TEXT);
}

#[test]
fn creation_failures_map_to_their_errors() {
    let r = WindowHandle::try_new(windowed(800, 600), CreationOutcome::SystemFailure);
    assert_eq!(r.unwrap_err(), InitializationError::Glfw);

    let r = WindowHandle::try_new(windowed(800, 600), CreationOutcome::WindowFailure);
    assert_eq!(r.unwrap_err(), InitializationError::Window);
}

#[test]
fn creation_success_starts_in_created_state() {
    let h = WindowHandle::try_new(windowed(800, 600), CreationOutcome::Created).unwrap();
    assert_eq!(h.state, LifecycleState::Created);
    assert!(!h.close_requested);
}

#[test]
fn backend_refusal_is_fatal_and_keeps_state() {
    let mut h = WindowHandle::try_new(windowed(800, 600), CreationOutcome::Created).unwrap();
    let r = h.backend_started(false);
    assert_eq!(r.unwrap_err(), InitializationError::Bgfx);
    assert_eq!(h.state, LifecycleState::Created);
}

#[test]
fn init_on_unsupported_platform_fails() {
    let h = WindowHandle::try_new(windowed(800, 600), CreationOutcome::Created).unwrap();
    let r = h.init(&NativeHandle::Unsupported, TargetOs::Linux);
    assert_eq!(r.unwrap_err(), InitializationError::UnsupportedPlatform);
}

#[test]
fn initialization_errors_wrap_into_top_level_error() {
    let e = Error::from(InitializationError::Glfw);
    assert_eq!(e, Error::Initialization(InitializationError::Glfw));
}

#[test]
fn pump_of_non_quit_events_leaves_close_unset() {
    let mut h = WindowHandle::try_new(windowed(800, 600), CreationOutcome::Created).unwrap();
    let events = vec![
        InputEvent::Other,
        InputEvent::Key { code: 65, action: KeyAction::Press },
        InputEvent::Key { code: KEY_ESCAPE, action: KeyAction::Release },
        InputEvent::Key { code: KEY_ESCAPE, action: KeyAction::Repeat },
    ];
    h.handle_events(&events);
    assert!(!h.close_requested);
}

#[test]
fn pump_of_escape_press_sets_close_and_stays_set() {
    let mut h = WindowHandle::try_new(windowed(800, 600), CreationOutcome::Created).unwrap();
    h.handle_events(&vec![InputEvent::Other, escape_press()]);
    assert!(h.close_requested);
    // pumping again with an empty queue is idempotent
    h.handle_events(&Vec::new());
    assert!(h.close_requested);
}

#[test]
fn backend_call_order_follows_the_state_machine() {
    // A mock backend collaborator: every call the shell would make is logged.
    let mut log: Vec<&'static str> = Vec::new();

    let mut h = WindowHandle::try_new(windowed(800, 600), CreationOutcome::Created).unwrap();
    let params = h.init(&NativeHandle::Xlib { window: 1, display: 2 }, TargetOs::Linux).unwrap();
    assert_eq!(params.type_r, RendererType::Vulkan);
    log.push("init");
    h.backend_started(true).unwrap();
    h.run();
    assert_eq!(h.state, LifecycleState::Running);

    // first frame: the framebuffer differs from the creation size
    let t = h.tick(&Vec::new(), size(1024, 768));
    if t.reset.is_some() {
        log.push("reset");
    }
    if t.submit_frame {
        log.push("submit_frame");
    }

    // second frame: an escape press requests the close
    let t = h.tick(&vec![escape_press()], size(1024, 768));
    if t.reset.is_some() {
        log.push("reset");
    }
    if t.submit_frame {
        log.push("submit_frame");
    }

    assert!(h.should_close());
    h.shutdown();
    log.push("shutdown");
    assert_eq!(h.state, LifecycleState::Closed);

    assert_eq!(log, vec!["init", "reset", "submit_frame", "submit_frame", "shutdown"]);
}

#[test]
fn one_quiet_tick_issues_no_reset_and_one_submit() {
    let mut h = WindowHandle::try_new(windowed(1280, 720), CreationOutcome::Created).unwrap();
    h.init(&NativeHandle::Xlib { window: 1, display: 2 }, TargetOs::Linux).unwrap();
    h.backend_started(true).unwrap();
    h.run();

    // one tick with no size change and no events
    let t = h.tick(&Vec::new(), size(1280, 720));
    assert_eq!(t.reset, None);
    assert!(t.submit_frame);
    assert_eq!(t.view_rect, size(1280, 720));
    assert!(!h.should_close());
}

#[test]
fn toggling_sizes_resets_on_every_toggle() {
    let mut h = WindowHandle::try_new(windowed(800, 600), CreationOutcome::Created).unwrap();
    h.backend_started(true).unwrap();
    h.run();

    let t = h.tick(&Vec::new(), size(1024, 768));
    assert_eq!(t.reset, Some(size(1024, 768)));
    let t = h.tick(&Vec::new(), size(800, 600));
    assert_eq!(t.reset, Some(size(800, 600)));
    let t = h.tick(&Vec::new(), size(800, 600));
    assert_eq!(t.reset, None);
}
