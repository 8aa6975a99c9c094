//! Input routing: platform events mapped to camera commands,
//! surface-reconfiguration requests, and the loop-control quit signal.
//!
//! The router is a pure function; it issues intents only and makes no GPU
//! call. Scalar deltas that the camera consumes as floating-point values
//! (elapsed time, wheel rows, mouse motion) are carried as their IEEE-754
//! bit patterns (`u32` for single precision, `u64` for double), so the
//! routing itself is exact: the router forwards bits unchanged and does
//! no arithmetic on them.

use vstd::prelude::*;

verus! {

/// The keys the renderer reacts to; everything else is `Other`.
#[derive(Clone, Copy, Debug, PartialEq, Eq, Structural)]
pub enum Key {
    Escape,
    W,
    S,
    A,
    D,
    Other,
}

/// Whether a key event is a press or a release.
#[derive(Clone, Copy, Debug, PartialEq, Eq, Structural)]
pub enum KeyState {
    Pressed,
    Released,
}

/// A platform event, already reduced to the plain values the loop reads.
/// `MouseWheelLine` carries the vertical line delta as `f32` bits;
/// `MouseWheelPixel` carries a pixel-delta pair as `f64` bits (ignored by
/// the router, as the camera consumes line deltas only); `MouseMotion`
/// carries the motion pair as `f64` bits.
#[derive(Clone, Copy, Debug, PartialEq, Eq, Structural)]
pub enum InputEvent {
    CloseRequested,
    Resized { width: u32, height: u32 },
    ScaleFactorChanged { width: u32, height: u32 },
    CursorEntered,
    MouseWheelLine { rows_bits: u32 },
    MouseWheelPixel { x_bits: u64, y_bits: u64 },
    KeyboardInput { key: Key, state: KeyState },
    MouseMotion { dx_bits: u64, dy_bits: u64 },
    Other,
}

/// An intent for the external camera collaborator. Deltas are forwarded
/// as the bit patterns they arrived with.
#[derive(Clone, Copy, Debug, PartialEq, Eq, Structural)]
pub enum CameraCommand {
    SetHasMouse { enabled: bool },
    Zoom { rows_bits: u32 },
    MoveForward { dt_bits: u32 },
    MoveBackward { dt_bits: u32 },
    SkewLeft { dt_bits: u32 },
    SkewRight { dt_bits: u32 },
    YawPitch { dx_bits: u64, dy_bits: u64 },
}

/// What one event asks of the loop: nothing, quit, a surface
/// reconfiguration, or a camera command.
#[derive(Clone, Copy, Debug, PartialEq, Eq, Structural)]
pub enum Action {
    Nothing,
    Quit,
    Reconfigure { width: u32, height: u32 },
    Camera { command: CameraCommand },
}

/// An event that requests termination: a window close, or Escape pressed.
/// No other event terminates the loop.
pub open spec fn spec_is_quit_event(e: InputEvent) -> bool {
    ||| e is CloseRequested
    ||| e matches InputEvent::KeyboardInput { key: Key::Escape, state: KeyState::Pressed }
}

/// The routing policy. `has_mouse` is the camera's mouse-look flag as of
/// this event (mouse motion is ignored while it is off); `dt_bits` is
/// this tick's elapsed time, handed unchanged to each motion command.
pub open spec fn spec_route(e: InputEvent, has_mouse: bool, dt_bits: u32) -> Action {
    match e {
        InputEvent::CloseRequested => Action::Quit,
        InputEvent::Resized { width, height } => Action::Reconfigure { width, height },
        InputEvent::ScaleFactorChanged { width, height } => Action::Reconfigure { width, height },
        InputEvent::CursorEntered => Action::Camera {
            command: CameraCommand::SetHasMouse { enabled: true },
        },
        InputEvent::MouseWheelLine { rows_bits } => Action::Camera {
            command: CameraCommand::Zoom { rows_bits },
        },
        InputEvent::MouseWheelPixel { .. } => Action::Nothing,
        InputEvent::KeyboardInput { key, state } => {
            if state is Pressed {
                match key {
                    Key::Escape => Action::Quit,
                    Key::W => Action::Camera { command: CameraCommand::MoveForward { dt_bits } },
                    Key::S => Action::Camera { command: CameraCommand::MoveBackward { dt_bits } },
                    Key::A => Action::Camera { command: CameraCommand::SkewLeft { dt_bits } },
                    Key::D => Action::Camera { command: CameraCommand::SkewRight { dt_bits } },
                    Key::Other => Action::Nothing,
                }
            } else {
                Action::Nothing
            }
        },
        InputEvent::MouseMotion { dx_bits, dy_bits } => {
            if has_mouse {
                Action::Camera { command: CameraCommand::YawPitch { dx_bits, dy_bits } }
            } else {
                Action::Nothing
            }
        },
        InputEvent::Other => Action::Nothing,
    }
}

/// The camera's mouse-look flag after an event: entering the window
/// enables it; nothing in this event set disables it.
pub open spec fn spec_mouse_step(has_mouse: bool, e: InputEvent) -> bool {
    if e is CursorEntered {
        true
    } else {
        has_mouse
    }
}

/// Route one platform event to its intent.
pub fn route_event(e: &InputEvent, has_mouse: bool, dt_bits: u32) -> (a: Action)
    ensures
        a == spec_route(*e, has_mouse, dt_bits),
{
    match e {
        InputEvent::CloseRequested => Action::Quit,
        InputEvent::Resized { width, height } => Action::Reconfigure {
            width: *width,
            height: *height,
        },
        InputEvent::ScaleFactorChanged { width, height } => Action::Reconfigure {
            width: *width,
            height: *height,
        },
        InputEvent::CursorEntered => Action::Camera {
            command: CameraCommand::SetHasMouse { enabled: true },
        },
        InputEvent::MouseWheelLine { rows_bits } => Action::Camera {
            command: CameraCommand::Zoom { rows_bits: *rows_bits },
        },
        InputEvent::MouseWheelPixel { .. } => Action::Nothing,
        InputEvent::KeyboardInput { key, state } => {
            if *state == KeyState::Pressed {
                match key {
                    Key::Escape => Action::Quit,
                    Key::W => Action::Camera {
                        command: CameraCommand::MoveForward { dt_bits },
                    },
                    Key::S => Action::Camera {
                        command: CameraCommand::MoveBackward { dt_bits },
                    },
                    Key::A => Action::Camera {
                        command: CameraCommand::SkewLeft { dt_bits },
                    },
                    Key::D => Action::Camera {
                        command: CameraCommand::SkewRight { dt_bits },
                    },
                    Key::Other => Action::Nothing,
                }
            } else {
                Action::Nothing
            }
        },
        InputEvent::MouseMotion { dx_bits, dy_bits } => {
            if has_mouse {
                Action::Camera {
                    command: CameraCommand::YawPitch { dx_bits: *dx_bits, dy_bits: *dy_bits },
                }
            } else {
                Action::Nothing
            }
        },
        InputEvent::Other => Action::Nothing,
    }
}

/// Holding a motion key routes to exactly one camera command carrying
/// exactly this tick's elapsed time: the router forwards `dt_bits`
/// unchanged and never accumulates it.
pub proof fn lemma_motion_uses_tick_elapsed(has_mouse: bool, dt_bits: u32)
    ensures
        spec_route(
            InputEvent::KeyboardInput { key: Key::W, state: KeyState::Pressed },
            has_mouse,
            dt_bits,
        ) == (Action::Camera { command: CameraCommand::MoveForward { dt_bits } }),
        spec_route(
            InputEvent::KeyboardInput { key: Key::S, state: KeyState::Pressed },
            has_mouse,
            dt_bits,
        ) == (Action::Camera { command: CameraCommand::MoveBackward { dt_bits } }),
        spec_route(
            InputEvent::KeyboardInput { key: Key::A, state: KeyState::Pressed },
            has_mouse,
            dt_bits,
        ) == (Action::Camera { command: CameraCommand::SkewLeft { dt_bits } }),
        spec_route(
            InputEvent::KeyboardInput { key: Key::D, state: KeyState::Pressed },
            has_mouse,
            dt_bits,
        ) == (Action::Camera { command: CameraCommand::SkewRight { dt_bits } }),
{
}

} // verus!
