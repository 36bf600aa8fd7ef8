//! The window/context lifecycle state machine. It owns every decision of the
//! init → run-loop → shutdown sequence; the outside windowing system and the
//! rendering backend are driven by an unverified shell that performs each
//! action this machine emits and hands the collaborators' answers back in as
//! plain values.

use vstd::prelude::*;
use crate::config::WindowMetadata;
use crate::error::InitializationError;
use crate::events::contains_quit;
use crate::events::pump_events;
use crate::events::InputEvent;
use crate::gate::gate_fires;
use crate::gate::FramebufferSize;
use crate::gate::ResetGate;
use crate::platform::build_backend_init;
use crate::platform::resolved;
use crate::platform::BackendInit;
use crate::platform::RendererType;
use crate::platform::Resolution;
use crate::platform::TargetOs;
use crate::platform::RESET_VSYNC;

verus! {

/// The states a lifecycle instance moves through, in order. No state is ever
/// revisited.
#[derive(Clone, Copy, Debug, PartialEq, Eq, Structural)]
pub enum LifecycleState {
    /// No window exists yet.
    Uninitialized,
    /// The window exists; the backend has not been started.
    Created,
    /// The backend accepted the start request.
    BackendInitialized,
    /// The frame loop is in progress.
    Running,
    /// The run loop has exited and the backend has been released.
    Closed,
}

/// Position of a state in the lifecycle's strict forward order.
pub open spec fn state_rank(s: LifecycleState) -> int {
    match s {
        LifecycleState::Uninitialized => 0,
        LifecycleState::Created => 1,
        LifecycleState::BackendInitialized => 2,
        LifecycleState::Running => 3,
        LifecycleState::Closed => 4,
    }
}

/// The windowing collaborator's answer to a window-creation request.
#[derive(Clone, Copy, Debug, PartialEq, Eq, Structural)]
pub enum CreationOutcome {
    /// The window and its event queue exist.
    Created,
    /// The windowing system itself could not be initialized.
    SystemFailure,
    /// The windowing system could not allocate a window.
    WindowFailure,
}

/// The per-frame backend actions one tick decides on. The shell performs them
/// in field order: the reset first, if any, then the view rectangle, then the
/// frame submission.
#[derive(Clone, Copy, Debug)]
pub struct TickActions {
    /// `Some(size)`: the backend's output surface must be reallocated to this
    /// size before the frame. `None`: the size is unchanged.
    pub reset: Option<FramebufferSize>,
    /// The view rectangle to render into this frame: the full framebuffer.
    pub view_rect: FramebufferSize,
    /// Always set: even an empty frame is submitted, so the backend's frame
    /// counter advances.
    pub submit_frame: bool,
}

/// A window's lifecycle: its creation parameters, its position in the state
/// order, the reset gate that tracks the framebuffer size, and the
/// close-requested flag the event pump drives.
#[derive(Clone, Debug)]
pub struct WindowHandle {
    pub state: LifecycleState,
    pub metadata: WindowMetadata,
    pub gate: ResetGate,
    pub close_requested: bool,
}

/// The framebuffer size a window starts with: its creation geometry.
pub open spec fn creation_size(metadata: WindowMetadata) -> FramebufferSize {
    FramebufferSize { width: metadata.width, height: metadata.height }
}

impl WindowHandle {
    /// A lifecycle instance always carries well-formed creation parameters.
    pub open spec fn wf(self) -> bool {
        self.metadata.wf()
    }

    /// Take up the windowing collaborator's answer to the creation request:
    /// on success the lifecycle starts in the created state, with no close
    /// requested, and with the reset gate seeded from the creation-time
    /// geometry — so a first frame whose framebuffer matches the creation
    /// size issues no extra reset. Each failure maps to its own error.
    pub fn try_new(metadata: WindowMetadata, creation: CreationOutcome) -> (r: Result<
        WindowHandle,
        InitializationError,
    >)
        requires
            metadata.wf(),
        ensures
            match creation {
                CreationOutcome::Created => (r matches Ok(h) && h.state is Created
                    && !h.close_requested && h.gate.last() == Some(creation_size(metadata))
                    && h.metadata == metadata && h.wf()),
                CreationOutcome::SystemFailure => r == Err::<WindowHandle, InitializationError>(
                    InitializationError::Glfw,
                ),
                CreationOutcome::WindowFailure => r == Err::<WindowHandle, InitializationError>(
                    InitializationError::Window,
                ),
            },
    {
        match creation {
            CreationOutcome::Created => {
                let size = FramebufferSize { width: metadata.width, height: metadata.height };
                Ok(
                    WindowHandle {
                        state: LifecycleState::Created,
                        metadata,
                        gate: ResetGate::seeded(size),
                        close_requested: false,
                    },
                )
            },
            CreationOutcome::SystemFailure => Err(InitializationError::Glfw),
            CreationOutcome::WindowFailure => Err(InitializationError::Window),
        }
    }

    /// Build the backend start request for this window: platform data
    /// resolved from the native handle, renderer chosen by the platform
    /// policy, resolution deferred to the first observed framebuffer size,
    /// vertical sync on. Fails exactly on an unsupported handle, which is
    /// fatal: without platform data the backend can never start. The state
    /// does not move until the backend answers (`backend_started`).
    pub fn init(&self, handle: &crate::platform::NativeHandle, os: TargetOs) -> (r: Result<
        BackendInit,
        InitializationError,
    >)
        requires
            self.state is Created,
        ensures
            match resolved(*handle) {
                Some(pd) => r == Ok::<BackendInit, InitializationError>(
                    BackendInit {
                        type_r: match os {
                            TargetOs::MacOs => RendererType::Metal,
                            _ => RendererType::Vulkan,
                        },
                        resolution: Resolution { width: 0, height: 0, reset: RESET_VSYNC },
                        platform_data: pd,
                    },
                ),
                None => r == Err::<BackendInit, InitializationError>(
                    InitializationError::UnsupportedPlatform,
                ),
            },
    {
        build_backend_init(handle, os)
    }

    /// Take up the backend's answer to the start request. Acceptance moves
    /// the lifecycle forward to the backend-initialized state; refusal is
    /// fatal and leaves the lifecycle where it was, so the backend is never
    /// initialized more than once per instance.
    pub fn backend_started(&mut self, accepted: bool) -> (r: Result<(), InitializationError>)
        requires
            old(self).state is Created,
        ensures
            accepted ==> (r is Ok && *final(self) == (WindowHandle {
                state: LifecycleState::BackendInitialized,
                ..*old(self)
            })),
            !accepted ==> (r == Err::<(), InitializationError>(InitializationError::Bgfx)
                && *final(self) == *old(self)),
            state_rank(final(self).state) >= state_rank(old(self).state),
    {
        if accepted {
            self.state = LifecycleState::BackendInitialized;
            Ok(())
        } else {
            Err(InitializationError::Bgfx)
        }
    }

    /// Enter the frame loop. The shell then makes the window's context
    /// current, enables key-event delivery, and calls `tick` once per frame
    /// until `should_close` holds. Admitted only after the backend accepted
    /// the start request, so no frame action can precede a successful
    /// initialization.
    pub fn run(&mut self)
        requires
            old(self).state is BackendInitialized,
        ensures
            *final(self) == (WindowHandle { state: LifecycleState::Running, ..*old(self) }),
            state_rank(final(self).state) > state_rank(old(self).state),
    {
        self.state = LifecycleState::Running;
    }

    /// Drain one tick's window-system events: the close-requested flag is set
    /// exactly when it already was or a quit-key press was drained; nothing
    /// else changes. Pumping is idempotent once the queue is empty.
    pub fn handle_events(&mut self, events: &Vec<InputEvent>)
        ensures
            *final(self) == (WindowHandle {
                close_requested: old(self).close_requested || contains_quit(events@),
                ..*old(self)
            }),
    {
        pump_events(&mut self.close_requested, events);
    }

    /// One frame of the run loop: drain the events, observe the sampled
    /// framebuffer size, and decide the backend actions of this frame. A
    /// reset is emitted exactly when the size differs from the last observed
    /// one — at most one reset per distinct change, none for an unchanged
    /// size — and a frame submission is always emitted, even for an empty
    /// frame.
    pub fn tick(&mut self, events: &Vec<InputEvent>, size: FramebufferSize) -> (t: TickActions)
        requires
            old(self).state is Running,
        ensures
            final(self).state is Running,
            final(self).metadata == old(self).metadata,
            final(self).close_requested == (old(self).close_requested || contains_quit(events@)),
            final(self).gate.last() == Some(size),
            t.reset == (if gate_fires(old(self).gate.last(), size) {
                Some(size)
            } else {
                None::<FramebufferSize>
            }),
            t.view_rect == size,
            t.submit_frame,
    {
        self.handle_events(events);
        let fired = self.gate.observe(size);
        let reset: Option<FramebufferSize> = if fired {
            Some(size)
        } else {
            None
        };
        TickActions { reset, view_rect: size, submit_frame: true }
    }

    /// Whether the window has been asked to close; the run loop checks this
    /// once per tick and exits promptly.
    pub fn should_close(&self) -> (b: bool)
        ensures
            b == self.close_requested,
    {
        self.close_requested
    }

    /// Release the backend. Admitted exactly once, only after the run loop
    /// has exited on a requested close — and so only if initialization
    /// succeeded; afterwards the lifecycle is closed for good.
    pub fn shutdown(&mut self)
        requires
            old(self).state is Running,
            old(self).close_requested,
        ensures
            *final(self) == (WindowHandle { state: LifecycleState::Closed, ..*old(self) }),
            state_rank(final(self).state) > state_rank(old(self).state),
    {
        self.state = LifecycleState::Closed;
    }
}

} // verus!
