use vstd::prelude::*;

use crate::config::{graphics_api_label, GraphicsApi};
use crate::state::{after_frame, frame_step_of, toggled, AppState, FrameStep};

verus! {

/// Rising-edge detector for a key polled once per frame.
pub struct HotkeyEdge {
    pub was_down: bool,
}

/// `after` and `fired` are what polling `before` with the key state `down`
/// gives.
pub open spec fn polled(before: HotkeyEdge, down: bool, after: HotkeyEdge, fired: bool) -> bool {
    &&& fired == (down && !before.was_down)
    &&& after.was_down == down
}

impl HotkeyEdge {
    pub fn new() -> (r: HotkeyEdge)
        ensures
            !r.was_down,
    {
        HotkeyEdge { was_down: false }
    }

    /// Reports a press only on the frame where the key goes down.
    pub fn poll(&mut self, down: bool) -> (fired: bool)
        ensures
            polled(*old(self), down, *final(self), fired),
    {
        let fired = down && !self.was_down;
        self.was_down = down;
        fired
    }
}

/// A key held down over consecutive polls fires at most once: never on the
/// second and later polls.
pub proof fn lemma_held_key_fires_once(
    e0: HotkeyEdge,
    e1: HotkeyEdge,
    e2: HotkeyEdge,
    first: bool,
    second: bool,
)
    requires
        polled(e0, true, e1, first),
        polled(e1, true, e2, second),
    ensures
        !second,
{
}

/// The per-frame decisions of the overlay.
pub struct RenderLoop {
    pub toggle: HotkeyEdge,
    pub first_frame_seen: bool,
}

/// What to do with one host frame.
pub struct FramePlan {
    /// This is the first frame: mark the hooks as live.
    pub mark_active: bool,
    pub step: FrameStep,
}

impl RenderLoop {
    pub fn new() -> (r: RenderLoop)
        ensures
            !r.toggle.was_down,
            !r.first_frame_seen,
    {
        RenderLoop { toggle: HotkeyEdge::new(), first_frame_seen: false }
    }

    /// One host frame: notes the first one, flips the panel on a press of the
    /// toggle key, and reports whether to draw, hold for a capture or
    /// capture now.
    pub fn frame(&mut self, state: &mut AppState, toggle_down: bool) -> (r: FramePlan)
        ensures
            r.mark_active == !old(self).first_frame_seen,
            final(self).first_frame_seen,
            final(self).toggle.was_down == toggle_down,
            ({
                let fired = toggle_down && !old(self).toggle.was_down;
                let mid = if fired {
                    toggled(*old(state))
                } else {
                    *old(state)
                };
                r.step == frame_step_of(mid) && *final(state) == after_frame(mid)
            }),
    {
        let mark_active = !self.first_frame_seen;
        self.first_frame_seen = true;
        if self.toggle.poll(toggle_down) {
            state.toggle_visible();
        }
        let step = state.begin_frame();
        FramePlan { mark_active, step }
    }
}

/// Backend by the modules loaded in the host, in order of preference:
/// `d3d12.dll`, `d3d11.dll`, `d3d9.dll`, `opengl32.dll`.
pub open spec fn backend_of(d3d12: bool, d3d11: bool, d3d9: bool, opengl: bool) -> Option<
    GraphicsApi,
> {
    if d3d12 {
        Some(GraphicsApi::Dx12)
    } else if d3d11 {
        Some(GraphicsApi::Dx11)
    } else if d3d9 {
        Some(GraphicsApi::Dx9)
    } else if opengl {
        Some(GraphicsApi::Opengl)
    } else {
        None
    }
}

/// The backend to hook, given which graphics modules are loaded.
pub fn detect_graphics_api(d3d12: bool, d3d11: bool, d3d9: bool, opengl: bool) -> (r: Option<
    GraphicsApi,
>)
    ensures
        r == backend_of(d3d12, d3d11, d3d9, opengl),
{
    if d3d12 {
        Some(GraphicsApi::Dx12)
    } else if d3d11 {
        Some(GraphicsApi::Dx11)
    } else if d3d9 {
        Some(GraphicsApi::Dx9)
    } else if opengl {
        Some(GraphicsApi::Opengl)
    } else {
        None
    }
}

/// Milliseconds between module polls.
pub const MODULE_POLL_MS: u64 = 100;

/// Backend probes before giving up (fifteen seconds of polls).
pub const PROBE_ATTEMPTS: u32 = 150;

/// Milliseconds to let the host create its device and swapchain.
pub const SETTLE_MS: u64 = 2000;

/// One-second checks for the first frame after the hooks are installed.
pub const LIVENESS_CHECKS: u32 = 10;

/// Where the start-up sequence stands.
#[derive(Clone, Copy, PartialEq, Eq, Debug, Structural)]
pub enum BootPhase {
    /// Waiting for `dxgi.dll`.
    AwaitCore,
    /// Probing the backend modules; `attempts` probes have failed.
    Probe { attempts: u32 },
    /// Letting the swapchain settle before hooking `api`.
    Settle { api: GraphicsApi },
    /// Installing the hooks for `api`.
    Install { api: GraphicsApi },
    /// `checks` liveness checks have passed without a frame.
    Verify { checks: u32 },
    /// Done; the thread parks for good.
    Parked,
    /// The library unloads itself.
    Ejected,
}

/// What the start-up thread observed.
#[derive(Clone, Copy, PartialEq, Eq, Debug, Structural)]
pub enum BootEvent {
    /// Whether `dxgi.dll` is loaded.
    CoreLoaded(bool),
    /// The backend the loaded modules show, if any.
    Probed(Option<GraphicsApi>),
    /// The settle delay passed, and the game name and session log are set up.
    Settled,
    /// Whether the hooks were installed.
    HooksApplied(bool),
    /// Whether a frame has been drawn through the hooks.
    RenderActive(bool),
}

/// Why the library unloads itself.
#[derive(Clone, Copy, PartialEq, Eq, Debug, Structural)]
pub enum EjectReason {
    NoBackend,
    Unsupported(GraphicsApi),
    InstallFailed,
}

/// What the start-up thread does next.
#[derive(Clone, Copy, PartialEq, Eq, Debug, Structural)]
pub enum BootAction {
    /// Sleep one poll interval, then check for `dxgi.dll` again.
    WaitForCore,
    /// Probe the backend modules, after one poll interval when `wait_first`.
    Probe { wait_first: bool },
    /// Sleep the settle delay, detect the game, open the session log.
    Settle { api: GraphicsApi },
    /// Install the hooks for `api`.
    InstallHooks { api: GraphicsApi },
    /// Sleep one second, then check whether a frame was drawn.
    WaitForRender,
    /// Park the thread; `confirmed` tells whether a frame was seen.
    Park { confirmed: bool },
    /// Unload the library.
    Eject { reason: EjectReason },
    /// The event does not belong to the current phase: nothing to do.
    Nothing,
}

pub open spec fn supported(api: GraphicsApi) -> bool {
    api == GraphicsApi::Dx12 || api == GraphicsApi::Dx11
}

/// The start-up transition table.
pub open spec fn boot_next(forced: Option<GraphicsApi>, phase: BootPhase, event: BootEvent) -> (
    BootPhase,
    BootAction,
) {
    match (phase, event) {
        (BootPhase::AwaitCore, BootEvent::CoreLoaded(false)) => (
            BootPhase::AwaitCore,
            BootAction::WaitForCore,
        ),
        (BootPhase::AwaitCore, BootEvent::CoreLoaded(true)) => match forced {
            Some(api) => (BootPhase::Settle { api }, BootAction::Settle { api }),
            None => (BootPhase::Probe { attempts: 0 }, BootAction::Probe { wait_first: false }),
        },
        (BootPhase::Probe { attempts }, BootEvent::Probed(Some(api))) => (
            BootPhase::Settle { api },
            BootAction::Settle { api },
        ),
        (BootPhase::Probe { attempts }, BootEvent::Probed(None)) => if attempts + 1
            >= PROBE_ATTEMPTS {
            (BootPhase::Ejected, BootAction::Eject { reason: EjectReason::NoBackend })
        } else {
            (
                BootPhase::Probe { attempts: (attempts + 1) as u32 },
                BootAction::Probe { wait_first: true },
            )
        },
        (BootPhase::Settle { api }, BootEvent::Settled) => if supported(api) {
            (BootPhase::Install { api }, BootAction::InstallHooks { api })
        } else {
            (BootPhase::Ejected, BootAction::Eject { reason: EjectReason::Unsupported(api) })
        },
        (BootPhase::Install { api }, BootEvent::HooksApplied(true)) => (
            BootPhase::Verify { checks: 0 },
            BootAction::WaitForRender,
        ),
        (BootPhase::Install { api }, BootEvent::HooksApplied(false)) => (
            BootPhase::Ejected,
            BootAction::Eject { reason: EjectReason::InstallFailed },
        ),
        (BootPhase::Verify { checks }, BootEvent::RenderActive(true)) => (
            BootPhase::Parked,
            BootAction::Park { confirmed: true },
        ),
        (BootPhase::Verify { checks }, BootEvent::RenderActive(false)) => if checks + 1
            >= LIVENESS_CHECKS {
            (BootPhase::Parked, BootAction::Park { confirmed: false })
        } else {
            (BootPhase::Verify { checks: (checks + 1) as u32 }, BootAction::WaitForRender)
        },
        _ => (phase, BootAction::Nothing),
    }
}

/// The start-up sequence run once on a worker thread after the library is
/// loaded: wait for the graphics core, choose the backend, settle, install
/// the hooks, check that frames arrive, then park.
pub struct Bootstrap {
    /// The backend forced by the configuration, if any.
    pub forced: Option<GraphicsApi>,
    pub phase: BootPhase,
}

impl Bootstrap {
    pub fn new(forced: Option<GraphicsApi>) -> (r: Bootstrap)
        ensures
            r.forced == forced,
            r.phase == BootPhase::AwaitCore,
    {
        Bootstrap { forced, phase: BootPhase::AwaitCore }
    }

    /// Advances on an observation and says what to do next.
    pub fn step(&mut self, event: BootEvent) -> (r: BootAction)
        ensures
            final(self).forced == old(self).forced,
            (final(self).phase, r) == boot_next(old(self).forced, old(self).phase, event),
    {
        let (phase, action) = match (self.phase, event) {
            (BootPhase::AwaitCore, BootEvent::CoreLoaded(false)) => (
                BootPhase::AwaitCore,
                BootAction::WaitForCore,
            ),
            (BootPhase::AwaitCore, BootEvent::CoreLoaded(true)) => match self.forced {
                Some(api) => (BootPhase::Settle { api }, BootAction::Settle { api }),
                None => (BootPhase::Probe { attempts: 0 }, BootAction::Probe { wait_first: false }),
            },
            (BootPhase::Probe { attempts }, BootEvent::Probed(Some(api))) => (
                BootPhase::Settle { api },
                BootAction::Settle { api },
            ),
            (BootPhase::Probe { attempts }, BootEvent::Probed(None)) => {
                if attempts >= PROBE_ATTEMPTS - 1 {
                    (BootPhase::Ejected, BootAction::Eject { reason: EjectReason::NoBackend })
                } else {
                    (
                        BootPhase::Probe { attempts: attempts + 1 },
                        BootAction::Probe { wait_first: true },
                    )
                }
            },
            (BootPhase::Settle { api }, BootEvent::Settled) => {
                if api == GraphicsApi::Dx12 || api == GraphicsApi::Dx11 {
                    (BootPhase::Install { api }, BootAction::InstallHooks { api })
                } else {
                    (BootPhase::Ejected, BootAction::Eject { reason: EjectReason::Unsupported(api) })
                }
            },
            (BootPhase::Install { api }, BootEvent::HooksApplied(true)) => (
                BootPhase::Verify { checks: 0 },
                BootAction::WaitForRender,
            ),
            (BootPhase::Install { api }, BootEvent::HooksApplied(false)) => (
                BootPhase::Ejected,
                BootAction::Eject { reason: EjectReason::InstallFailed },
            ),
            (BootPhase::Verify { checks }, BootEvent::RenderActive(true)) => (
                BootPhase::Parked,
                BootAction::Park { confirmed: true },
            ),
            (BootPhase::Verify { checks }, BootEvent::RenderActive(false)) => {
                if checks >= LIVENESS_CHECKS - 1 {
                    (BootPhase::Parked, BootAction::Park { confirmed: false })
                } else {
                    (BootPhase::Verify { checks: checks + 1 }, BootAction::WaitForRender)
                }
            },
            _ => (self.phase, BootAction::Nothing),
        };
        self.phase = phase;
        action
    }
}

pub open spec fn eject_text(reason: EjectReason) -> Seq<char> {
    match reason {
        EjectReason::NoBackend => "No supported graphics API detected"@,
        EjectReason::Unsupported(api) => graphics_api_label(api) + " detected but not yet supported"@,
        EjectReason::InstallFailed => "Hook installation failed"@,
    }
}

impl EjectReason {
    /// The diagnostic line written before ejecting.
    pub fn message(self) -> (r: String)
        ensures
            r@ == eject_text(self),
    {
        match self {
            EjectReason::NoBackend => String::from_str("No supported graphics API detected"),
            EjectReason::Unsupported(api) => String::from_str(api.label()).concat(
                " detected but not yet supported",
            ),
            EjectReason::InstallFailed => String::from_str("Hook installation failed"),
        }
    }
}

} // verus!
