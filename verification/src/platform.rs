//! Platform-handle resolution: turning the windowing system's native handle
//! into the fields a rendering backend's initialization struct expects, with
//! the branch per windowing protocol made explicit and total.

use vstd::prelude::*;
use crate::error::InitializationError;

verus! {

/// Vertical-sync reset flag of the backend's resolution settings; keeping it
/// set makes window recreation smooth.
pub const RESET_VSYNC: u32 = 0x80;

/// A closed variant over the native window handles the backend supports.
/// Pointers and window ids are carried as plain machine words; the windowing
/// layer acquires them and they stay stable for the window's lifetime.
/// `Unsupported` stands for any handle of another windowing system.
#[derive(Clone, Copy, Debug, PartialEq, Eq, Structural)]
pub enum NativeHandle {
    Xlib { window: u64, display: u64 },
    Wayland { surface: u64, display: u64 },
    MacOs { ns_window: u64 },
    Win32 { hwnd: u64 },
    Unsupported,
}

impl NativeHandle {
    /// A handle the windowing layer hands out refers to live objects: its
    /// pointers and ids are non-null.
    pub open spec fn wf(self) -> bool {
        match self {
            NativeHandle::Xlib { window, display } => window != 0 && display != 0,
            NativeHandle::Wayland { surface, display } => surface != 0 && display != 0,
            NativeHandle::MacOs { ns_window } => ns_window != 0,
            NativeHandle::Win32 { hwnd } => hwnd != 0,
            NativeHandle::Unsupported => true,
        }
    }
}

/// The two opaque native pointers a backend initialization struct carries:
/// borrowed references into objects owned by the window, never outliving it.
/// A zero slot means the slot is unused on that platform.
#[derive(Clone, Copy, Debug, PartialEq, Eq, Structural)]
pub struct BackendPlatformData {
    pub nwh: u64,
    pub ndt: u64,
}

/// The exhaustive mapping table from native handle to backend platform data.
/// On Wayland the display fills the window slot and the surface the display
/// slot: Wayland has no separate window concept, and the backend expects the
/// pair in this order.
pub open spec fn resolved(h: NativeHandle) -> Option<BackendPlatformData> {
    match h {
        NativeHandle::Xlib { window, display } => Some(
            BackendPlatformData { nwh: window, ndt: display },
        ),
        NativeHandle::Wayland { surface, display } => Some(
            BackendPlatformData { nwh: display, ndt: surface },
        ),
        NativeHandle::MacOs { ns_window } => Some(BackendPlatformData { nwh: ns_window, ndt: 0 }),
        NativeHandle::Win32 { hwnd } => Some(BackendPlatformData { nwh: hwnd, ndt: 0 }),
        NativeHandle::Unsupported => None,
    }
}

/// Resolve a native handle into backend platform data, or fail fatally on a
/// handle of an unsupported windowing system. Pure: re-derivable at backend
/// reinitialization time without reconstructing the window.
pub fn get_platform_data(handle: &NativeHandle) -> (r: Result<
    BackendPlatformData,
    InitializationError,
>)
    ensures
        match resolved(*handle) {
            Some(pd) => r == Ok::<BackendPlatformData, InitializationError>(pd),
            None => r == Err::<BackendPlatformData, InitializationError>(
                InitializationError::UnsupportedPlatform,
            ),
        },
{
    match handle {
        NativeHandle::Xlib { window, display } => Ok(
            BackendPlatformData { nwh: *window, ndt: *display },
        ),
        NativeHandle::Wayland { surface, display } => Ok(
            BackendPlatformData { nwh: *display, ndt: *surface },
        ),
        NativeHandle::MacOs { ns_window } => Ok(BackendPlatformData { nwh: *ns_window, ndt: 0 }),
        NativeHandle::Win32 { hwnd } => Ok(BackendPlatformData { nwh: *hwnd, ndt: 0 }),
        NativeHandle::Unsupported => Err(InitializationError::UnsupportedPlatform),
    }
}

/// Law: every supported variant of a well-formed handle resolves to platform
/// data with a non-null window slot, and the unsupported variant never
/// resolves.
pub proof fn lemma_resolution_total(h: NativeHandle)
    requires
        h.wf(),
    ensures
        !(h is Unsupported) ==> (resolved(h) matches Some(pd) && pd.nwh != 0),
        h is Unsupported ==> resolved(h) is None,
{
}

/// The rendering APIs the backend may be asked to use.
#[derive(Clone, Copy, Debug, PartialEq, Eq, Structural)]
pub enum RendererType {
    Vulkan,
    Metal,
}

/// The target platforms the renderer policy distinguishes.
#[derive(Clone, Copy, Debug, PartialEq, Eq, Structural)]
pub enum TargetOs {
    Linux,
    Windows,
    MacOs,
}

/// Renderer policy: Vulkan on Linux and Windows, Metal on macOS. Fixed per
/// platform, never negotiated at run time.
pub fn get_render_type(os: TargetOs) -> (r: RendererType)
    ensures
        r == (match os {
            TargetOs::MacOs => RendererType::Metal,
            _ => RendererType::Vulkan,
        }),
{
    match os {
        TargetOs::Linux => RendererType::Vulkan,
        TargetOs::Windows => RendererType::Vulkan,
        TargetOs::MacOs => RendererType::Metal,
    }
}

/// Resolution settings of a backend start request: initial backbuffer size
/// and reset flags.
#[derive(Clone, Copy, Debug, PartialEq, Eq, Structural)]
pub struct Resolution {
    pub width: u32,
    pub height: u32,
    pub reset: u32,
}

/// Everything the unverified shell needs to start the rendering backend.
#[derive(Clone, Copy, Debug, PartialEq, Eq, Structural)]
pub struct BackendInit {
    pub type_r: RendererType,
    pub resolution: Resolution,
    pub platform_data: BackendPlatformData,
}

/// Build the backend start request for a window with the given native handle
/// on the given platform: renderer chosen by the platform policy, resolution
/// zero-by-zero so the backend defers to the first observed framebuffer size,
/// vertical sync enabled. Fails exactly on an unsupported handle.
pub fn build_backend_init(handle: &NativeHandle, os: TargetOs) -> (r: Result<
    BackendInit,
    InitializationError,
>)
    ensures
        match resolved(*handle) {
            Some(pd) => r == Ok::<BackendInit, InitializationError>(
                BackendInit {
                    type_r: match os {
                        TargetOs::MacOs => RendererType::Metal,
                        _ => RendererType::Vulkan,
                    },
                    resolution: Resolution { width: 0, height: 0, reset: RESET_VSYNC },
                    platform_data: pd,
                },
            ),
            None => r == Err::<BackendInit, InitializationError>(
                InitializationError::UnsupportedPlatform,
            ),
        },
{
    let platform_data = get_platform_data(handle)?;
    Ok(
        BackendInit {
            type_r: get_render_type(os),
            resolution: Resolution { width: 0, height: 0, reset: RESET_VSYNC },
            platform_data,
        },
    )
}

} // verus!
