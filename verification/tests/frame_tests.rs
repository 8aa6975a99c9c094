use render_core::format::SurfaceFormat;
use render_core::frame::{advance_phase, process_events, Phase};
use render_core::input::{
    route_event, Action, CameraCommand, InputEvent, Key, KeyState,
};
use render_core::surface::{AlphaMode, SurfaceCaps, SurfaceManager};

fn manager() -> SurfaceManager {
    let caps = SurfaceCaps {
        formats: vec![SurfaceFormat::Rgba8Unorm],
        alpha_modes: vec![AlphaMode::Auto],
    };
    SurfaceManager::configure(&caps, 1280, 720)
}

#[test]
fn close_event_stops_the_loop() {
    let mut sm = manager();
    let mut has_mouse = false;
    let events = vec![InputEvent::CloseRequested];
    let tick = process_events(&mut sm, &mut has_mouse, &events, 0);
    assert!(!tick.running);
}

#[test]
fn escape_press_stops_the_loop_but_release_does_not() {
    let mut sm = manager();
    let mut has_mouse = false;
    let events = vec![InputEvent::KeyboardInput { key: Key::Escape, state: KeyState::Pressed }];
    assert!(!process_events(&mut sm, &mut has_mouse, &events, 0).running);
    let events = vec![InputEvent::KeyboardInput { key: Key::Escape, state: KeyState::Released }];
    assert!(process_events(&mut sm, &mut has_mouse, &events, 0).running);
}

#[test]
fn no_other_event_stops_the_loop() {
    let mut sm = manager();
    let mut has_mouse = false;
    let events = vec![
        InputEvent::Resized { width: 640, height: 480 },
        InputEvent::CursorEntered,
        InputEvent::MouseWheelLine { rows_bits: 1.0f32.to_bits() },
        InputEvent::KeyboardInput { key: Key::W, state: KeyState::Pressed },
        InputEvent::MouseMotion { dx_bits: 0, dy_bits: 0 },
        InputEvent::Other,
    ];
    assert!(process_events(&mut sm, &mut has_mouse, &events, 0).running);
}

#[test]
fn held_key_produces_one_forward_command_with_this_ticks_elapsed_time() {
    let mut sm = manager();
    let mut has_mouse = false;
    let dt = 0.016f32.to_bits();
    let events = vec![InputEvent::KeyboardInput { key: Key::W, state: KeyState::Pressed }];
    let tick = process_events(&mut sm, &mut has_mouse, &events, dt);
    assert_eq!(tick.commands, vec![CameraCommand::MoveForward { dt_bits: dt }]);
    // The next tick's command carries the next tick's elapsed time, not a sum.
    let dt2 = 0.033f32.to_bits();
    let tick2 = process_events(&mut sm, &mut has_mouse, &events, dt2);
    assert_eq!(tick2.commands, vec![CameraCommand::MoveForward { dt_bits: dt2 }]);
}

#[test]
fn motion_keys_route_to_their_commands() {
    let dt = 0.02f32.to_bits();
    let pressed = |key| InputEvent::KeyboardInput { key, state: KeyState::Pressed };
    assert_eq!(
        route_event(&pressed(Key::S), false, dt),
        Action::Camera { command: CameraCommand::MoveBackward { dt_bits: dt } },
    );
    assert_eq!(
        route_event(&pressed(Key::A), false, dt),
        Action::Camera { command: CameraCommand::SkewLeft { dt_bits: dt } },
    );
    assert_eq!(
        route_event(&pressed(Key::D), false, dt),
        Action::Camera { command: CameraCommand::SkewRight { dt_bits: dt } },
    );
    assert_eq!(route_event(&pressed(Key::Other), false, dt), Action::Nothing);
    assert_eq!(
        route_event(&InputEvent::KeyboardInput { key: Key::W, state: KeyState::Released }, false, dt),
        Action::Nothing,
    );
}

#[test]
fn mouse_motion_is_ignored_until_cursor_enters() {
    let mut sm = manager();
    let mut has_mouse = false;
    let motion = InputEvent::MouseMotion {
        dx_bits: 2.0f64.to_bits(),
        dy_bits: (-3.0f64).to_bits(),
    };
    let tick = process_events(&mut sm, &mut has_mouse, &vec![motion], 0);
    assert_eq!(tick.commands, vec![]);
    assert!(!has_mouse);
    // After the cursor enters, motion in the same tick is routed.
    let tick = process_events(&mut sm, &mut has_mouse, &vec![InputEvent::CursorEntered, motion], 0);
    assert_eq!(
        tick.commands,
        vec![
            CameraCommand::SetHasMouse { enabled: true },
            CameraCommand::YawPitch {
                dx_bits: 2.0f64.to_bits(),
                dy_bits: (-3.0f64).to_bits(),
            },
        ],
    );
    assert!(has_mouse);
}

#[test]
fn wheel_line_delta_routes_to_zoom_and_pixel_delta_is_ignored() {
    let mut sm = manager();
    let mut has_mouse = false;
    let rows = (-1.5f32).to_bits();
    let events = vec![
        InputEvent::MouseWheelLine { rows_bits: rows },
        InputEvent::MouseWheelPixel { x_bits: 0, y_bits: 1 },
    ];
    let tick = process_events(&mut sm, &mut has_mouse, &events, 0);
    assert_eq!(tick.commands, vec![CameraCommand::Zoom { rows_bits: rows }]);
}

#[test]
fn resize_during_the_tick_resizes_the_depth_buffer() {
    let mut sm = manager();
    let mut has_mouse = false;
    let events = vec![InputEvent::Resized { width: 300, height: 200 }];
    let tick = process_events(&mut sm, &mut has_mouse, &events, 0);
    assert!(tick.running);
    assert_eq!(sm.config.width, 300);
    assert_eq!(sm.depth.width, 300);
    assert_eq!(sm.depth.height, 200);
}

#[test]
fn zero_width_resize_does_not_crash_and_the_next_valid_one_recovers() {
    let mut sm = manager();
    let mut has_mouse = false;
    let events = vec![InputEvent::Resized { width: 0, height: 500 }];
    let tick = process_events(&mut sm, &mut has_mouse, &events, 0);
    assert!(tick.running);
    assert!(!sm.drawable);
    assert_eq!(sm.depth.width, 1280);
    let events = vec![InputEvent::ScaleFactorChanged { width: 2560, height: 1440 }];
    process_events(&mut sm, &mut has_mouse, &events, 0);
    assert!(sm.drawable);
    assert_eq!(sm.config.width, 2560);
    assert_eq!(sm.depth.width, 2560);
    assert_eq!(sm.depth.height, 1440);
}

#[test]
fn one_iteration_walks_the_phases_in_order() {
    let mut phase = Phase::Init;
    phase = advance_phase(phase, false, true);
    assert_eq!(phase, Phase::PollEvents);
    phase = advance_phase(phase, false, true);
    assert_eq!(phase, Phase::UpdateCamera);
    phase = advance_phase(phase, false, true);
    assert_eq!(phase, Phase::SyncUniforms);
    phase = advance_phase(phase, false, true);
    assert_eq!(phase, Phase::RecordAndSubmit);
    phase = advance_phase(phase, false, true);
    assert_eq!(phase, Phase::Present);
    phase = advance_phase(phase, false, true);
    assert_eq!(phase, Phase::PollEvents);
}

#[test]
fn quit_is_entered_only_from_poll_events_and_only_on_request() {
    assert_eq!(advance_phase(Phase::PollEvents, true, true), Phase::Quit);
    assert_eq!(advance_phase(Phase::PollEvents, false, true), Phase::UpdateCamera);
    assert_eq!(advance_phase(Phase::UpdateCamera, true, true), Phase::SyncUniforms);
    assert_eq!(advance_phase(Phase::RecordAndSubmit, true, true), Phase::Present);
    assert_eq!(advance_phase(Phase::Present, true, true), Phase::PollEvents);
    assert_eq!(advance_phase(Phase::Quit, false, true), Phase::Quit);
}

#[test]
fn non_drawable_surface_skips_the_render_phases() {
    assert_eq!(advance_phase(Phase::SyncUniforms, false, false), Phase::PollEvents);
    assert_eq!(advance_phase(Phase::SyncUniforms, false, true), Phase::RecordAndSubmit);
}
