use game_companion::config::{Config, GraphicsApi};
use game_companion::render::{
    detect_graphics_api, BootAction, BootEvent, BootPhase, Bootstrap, EjectReason, HotkeyEdge,
    RenderLoop,
};
use game_companion::state::{AppState, FrameStep};

#[test]
fn hotkey_fires_on_rising_edges_only() {
    let mut e = HotkeyEdge::new();
    assert!(!e.poll(false));
    assert!(e.poll(true));
    assert!(!e.poll(true));
    assert!(!e.poll(true));
    assert!(!e.poll(false));
    assert!(e.poll(true));
}

#[test]
fn first_frame_marks_hooks_live() {
    let mut r = RenderLoop::new();
    let mut s = AppState::new();
    let first = r.frame(&mut s, false);
    assert!(first.mark_active);
    assert_eq!(first.step, FrameStep::Hidden);
    let second = r.frame(&mut s, false);
    assert!(!second.mark_active);
}

#[test]
fn backend_priority() {
    assert_eq!(detect_graphics_api(true, true, true, true), Some(GraphicsApi::Dx12));
    assert_eq!(detect_graphics_api(false, true, true, false), Some(GraphicsApi::Dx11));
    assert_eq!(detect_graphics_api(false, false, true, true), Some(GraphicsApi::Dx9));
    assert_eq!(detect_graphics_api(false, false, false, true), Some(GraphicsApi::Opengl));
    assert_eq!(detect_graphics_api(false, false, false, false), None);
}

#[test]
fn cold_start_without_config() {
    let config = Config::load(None);
    assert_eq!(config.overlay.graphics_api, None);
    assert_eq!(config.overlay.hotkey, "F9");
    let mut boot = Bootstrap::new(config.overlay.graphics_api);
    assert_eq!(boot.step(BootEvent::CoreLoaded(false)), BootAction::WaitForCore);
    assert_eq!(boot.step(BootEvent::CoreLoaded(true)), BootAction::Probe { wait_first: false });
    let found = detect_graphics_api(true, true, false, false);
    assert_eq!(boot.step(BootEvent::Probed(found)), BootAction::Settle { api: GraphicsApi::Dx12 });
    assert_eq!(boot.step(BootEvent::Settled), BootAction::InstallHooks { api: GraphicsApi::Dx12 });
    assert_eq!(boot.step(BootEvent::HooksApplied(true)), BootAction::WaitForRender);
    assert_eq!(boot.step(BootEvent::RenderActive(true)), BootAction::Park { confirmed: true });
    assert_eq!(boot.phase, BootPhase::Parked);
    // the panel toggles on the first press of F9
    let mut r = RenderLoop::new();
    let mut s = AppState::new();
    let plan = r.frame(&mut s, true);
    assert!(s.visible);
    assert_eq!(plan.step, FrameStep::Draw);
    let plan = r.frame(&mut s, true);
    assert!(s.visible);
    assert_eq!(plan.step, FrameStep::Draw);
    r.frame(&mut s, false);
    r.frame(&mut s, true);
    assert!(!s.visible);
}

#[test]
fn unsupported_backend_ejects_without_install() {
    let mut boot = Bootstrap::new(None);
    boot.step(BootEvent::CoreLoaded(true));
    let found = detect_graphics_api(false, false, true, false);
    assert_eq!(boot.step(BootEvent::Probed(found)), BootAction::Settle { api: GraphicsApi::Dx9 });
    let action = boot.step(BootEvent::Settled);
    assert_eq!(action, BootAction::Eject { reason: EjectReason::Unsupported(GraphicsApi::Dx9) });
    assert_eq!(EjectReason::Unsupported(GraphicsApi::Dx9).message(), "DX9 detected but not yet supported");
    assert_eq!(boot.phase, BootPhase::Ejected);
    assert_eq!(boot.step(BootEvent::HooksApplied(true)), BootAction::Nothing);
}

#[test]
fn forced_backend_skips_probing() {
    let mut boot = Bootstrap::new(Some(GraphicsApi::Opengl));
    assert_eq!(boot.step(BootEvent::CoreLoaded(true)), BootAction::Settle { api: GraphicsApi::Opengl });
    assert_eq!(
        boot.step(BootEvent::Settled),
        BootAction::Eject { reason: EjectReason::Unsupported(GraphicsApi::Opengl) }
    );
    assert_eq!(EjectReason::Unsupported(GraphicsApi::Opengl).message(), "OpenGL detected but not yet supported");
}

#[test]
fn probing_gives_up_after_fifteen_seconds() {
    let mut boot = Bootstrap::new(None);
    boot.step(BootEvent::CoreLoaded(true));
    for _ in 0..149 {
        assert_eq!(boot.step(BootEvent::Probed(None)), BootAction::Probe { wait_first: true });
    }
    assert_eq!(boot.step(BootEvent::Probed(None)), BootAction::Eject { reason: EjectReason::NoBackend });
    assert_eq!(EjectReason::NoBackend.message(), "No supported graphics API detected");
}

#[test]
fn failed_install_ejects() {
    let mut boot = Bootstrap::new(Some(GraphicsApi::Dx11));
    boot.step(BootEvent::CoreLoaded(true));
    assert_eq!(boot.step(BootEvent::Settled), BootAction::InstallHooks { api: GraphicsApi::Dx11 });
    assert_eq!(boot.step(BootEvent::HooksApplied(false)), BootAction::Eject { reason: EjectReason::InstallFailed });
    assert_eq!(EjectReason::InstallFailed.message(), "Hook installation failed");
}

#[test]
fn liveness_wait_ends_after_ten_checks() {
    let mut boot = Bootstrap::new(Some(GraphicsApi::Dx12));
    boot.step(BootEvent::CoreLoaded(true));
    boot.step(BootEvent::Settled);
    boot.step(BootEvent::HooksApplied(true));
    for _ in 0..9 {
        assert_eq!(boot.step(BootEvent::RenderActive(false)), BootAction::WaitForRender);
    }
    assert_eq!(boot.step(BootEvent::RenderActive(false)), BootAction::Park { confirmed: false });
}
