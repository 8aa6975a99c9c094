//! Acquisition policy for the GPU context and the window.
//!
//! Acquiring the instance, adapter, device and surface is hardware I/O
//! done by the caller; what this module owns is the policy: which
//! adapter to ask for, what to demand of the device, and the window's
//! creation parameters. Failure to satisfy any of these is a fatal
//! initialization error at the caller, never retried.

use vstd::prelude::*;

verus! {

/// The initial drawable width requested for the window, in pixels.
pub const SCREEN_WIDTH: u32 = 1280;

/// The initial drawable height requested for the window, in pixels.
pub const SCREEN_HEIGHT: u32 = 720;

/// Adapter power preference.
#[derive(Clone, Copy, Debug, PartialEq, Eq, Structural)]
pub enum PowerPreference {
    NoPreference,
    LowPower,
    HighPerformance,
}

/// What to ask of adapter enumeration.
#[derive(Clone, Copy, Debug, PartialEq, Eq, Structural)]
pub struct AdapterRequest {
    pub power_preference: PowerPreference,
    pub force_fallback_adapter: bool,
    pub require_surface_compatible: bool,
}

/// The adapter selection policy: prefer the highest-performance adapter
/// among those compatible with the presentation surface, and never
/// settle for a software fallback.
pub fn adapter_request() -> (r: AdapterRequest)
    ensures
        r.power_preference == PowerPreference::HighPerformance,
        !r.force_fallback_adapter,
        r.require_surface_compatible,
{
    AdapterRequest {
        power_preference: PowerPreference::HighPerformance,
        force_fallback_adapter: false,
        require_surface_compatible: true,
    }
}

/// What to ask of the logical device.
#[derive(Clone, Copy, Debug, PartialEq, Eq, Structural)]
pub struct DeviceRequest {
    pub use_full_adapter_features: bool,
    pub use_full_adapter_limits: bool,
}

/// The device request policy: expose the adapter's full feature and
/// limit set, with no subsetting.
pub fn device_request() -> (r: DeviceRequest)
    ensures
        r.use_full_adapter_features,
        r.use_full_adapter_limits,
{
    DeviceRequest { use_full_adapter_features: true, use_full_adapter_limits: true }
}

/// The window's creation parameters.
#[derive(Clone, Copy, Debug, PartialEq, Eq, Structural)]
pub struct WindowSettings {
    pub width: u32,
    pub height: u32,
    pub visible_at_creation: bool,
}

/// The window is created hidden at the fixed initial size and shown only
/// once GPU setup has finished.
pub fn window_settings() -> (w: WindowSettings)
    ensures
        w.width == SCREEN_WIDTH,
        w.height == SCREEN_HEIGHT,
        w.width > 0,
        w.height > 0,
        !w.visible_at_creation,
{
    WindowSettings { width: SCREEN_WIDTH, height: SCREEN_HEIGHT, visible_at_creation: false }
}

} // verus!
