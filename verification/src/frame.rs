//! The cooperative frame loop: a per-tick state machine and the event
//! drain that feeds it.
//!
//! Each tick drains the pending platform events in order, routes every
//! event, applies reconfiguration requests to the surface manager,
//! collects camera commands for the caller to hand to the camera, and
//! reports whether the loop keeps running. The phases of one iteration
//! are explicit, so control flow is a function from phase and signals to
//! the next phase.

use vstd::prelude::*;
use crate::input::{
    Action, CameraCommand, InputEvent, route_event, spec_is_quit_event, spec_mouse_step,
    spec_route,
};
use crate::surface::SurfaceManager;

verus! {

/// The phases of the loop. One iteration runs `PollEvents` through
/// `Present` and loops back; `Quit` is terminal.
#[derive(Clone, Copy, Debug, PartialEq, Eq, Structural)]
pub enum Phase {
    Init,
    PollEvents,
    UpdateCamera,
    SyncUniforms,
    RecordAndSubmit,
    Present,
    Quit,
}

/// What one tick's event drain produced: the camera commands in event
/// order, and whether the loop keeps running.
pub struct Tick {
    pub commands: Vec<CameraCommand>,
    pub running: bool,
}

/// Some event of the tick requested termination (window close or Escape
/// pressed).
pub open spec fn spec_has_quit(events: Seq<InputEvent>) -> bool {
    exists|i: int| 0 <= i < events.len() && spec_is_quit_event(events[i])
}

/// The camera's mouse-look flag after the whole tick.
pub open spec fn spec_mouse_after(events: Seq<InputEvent>, has_mouse: bool) -> bool
    decreases events.len(),
{
    if events.len() == 0 {
        has_mouse
    } else {
        spec_mouse_step(spec_mouse_after(events.drop_last(), has_mouse), events.last())
    }
}

/// The effect of one event on the surface manager: a resize or a
/// scale-factor change reconfigures it; nothing else touches it.
pub open spec fn spec_surface_step(sm: SurfaceManager, e: InputEvent) -> SurfaceManager {
    match e {
        InputEvent::Resized { width, height } => sm.spec_reconfigure(width, height),
        InputEvent::ScaleFactorChanged { width, height } => sm.spec_reconfigure(width, height),
        _ => sm,
    }
}

/// The surface manager after the whole tick.
pub open spec fn spec_surface_after(events: Seq<InputEvent>, sm: SurfaceManager) -> SurfaceManager
    decreases events.len(),
{
    if events.len() == 0 {
        sm
    } else {
        spec_surface_step(spec_surface_after(events.drop_last(), sm), events.last())
    }
}

/// The camera commands one routed action contributes.
pub open spec fn spec_commands_of(a: Action) -> Seq<CameraCommand> {
    match a {
        Action::Camera { command } => seq![command],
        _ => Seq::empty(),
    }
}

/// The camera commands of the whole tick, in event order. Each event is
/// routed with the mouse-look flag as of that event.
pub open spec fn spec_commands_after(
    events: Seq<InputEvent>,
    has_mouse: bool,
    dt_bits: u32,
) -> Seq<CameraCommand>
    decreases events.len(),
{
    if events.len() == 0 {
        Seq::empty()
    } else {
        spec_commands_after(events.drop_last(), has_mouse, dt_bits) + spec_commands_of(
            spec_route(
                events.last(),
                spec_mouse_after(events.drop_last(), has_mouse),
                dt_bits,
            ),
        )
    }
}

proof fn lemma_has_quit_push(s: Seq<InputEvent>, e: InputEvent)
    ensures
        spec_has_quit(s.push(e)) == (spec_has_quit(s) || spec_is_quit_event(e)),
{
    if spec_has_quit(s.push(e)) {
        let i = choose|i: int|
            0 <= i < s.push(e).len() && spec_is_quit_event(s.push(e)[i]);
        if i < s.len() {
            assert(s.push(e)[i] == s[i]);
        } else {
            assert(s.push(e)[i] == e);
        }
    }
    if spec_has_quit(s) {
        let i = choose|i: int| 0 <= i < s.len() && spec_is_quit_event(s[i]);
        assert(s.push(e)[i] == s[i]);
    }
    if spec_is_quit_event(e) {
        assert(s.push(e)[s.len() as int] == e);
    }
}

/// Drain one tick's events: route each event in order, apply surface
/// reconfigurations, collect camera commands, and report whether the
/// loop keeps running. The loop keeps running exactly when no close
/// event and no Escape key press was observed this tick.
pub fn process_events(
    sm: &mut SurfaceManager,
    has_mouse: &mut bool,
    events: &Vec<InputEvent>,
    dt_bits: u32,
) -> (tick: Tick)
    requires
        old(sm).wf(),
    ensures
        final(sm).wf(),
        *final(sm) == spec_surface_after(events@, *old(sm)),
        *final(has_mouse) == spec_mouse_after(events@, *old(has_mouse)),
        tick.running == !spec_has_quit(events@),
        tick.commands@ == spec_commands_after(events@, *old(has_mouse), dt_bits),
{
    let ghost sm0 = *sm;
    let ghost m0 = *has_mouse;
    let mut commands: Vec<CameraCommand> = Vec::new();
    let mut quit = false;
    let mut i: usize = 0;
    while i < events.len()
        invariant
            i <= events@.len(),
            sm.wf(),
            *sm == spec_surface_after(events@.take(i as int), sm0),
            *has_mouse == spec_mouse_after(events@.take(i as int), m0),
            quit == spec_has_quit(events@.take(i as int)),
            commands@ == spec_commands_after(events@.take(i as int), m0, dt_bits),
        decreases events@.len() - i,
    {
        let e = events[i];
        proof {
            assert(events@.take(i as int + 1).drop_last() =~= events@.take(i as int));
            assert(events@.take(i as int + 1).last() == events@[i as int]);
            assert(events@.take(i as int + 1) =~= events@.take(i as int).push(events@[i as int]));
            lemma_has_quit_push(events@.take(i as int), events@[i as int]);
        }
        let a = route_event(&e, *has_mouse, dt_bits);
        proof {
            assert((a is Quit) == spec_is_quit_event(events@[i as int]));
        }
        match a {
            Action::Nothing => {},
            Action::Quit => {
                quit = true;
            },
            Action::Reconfigure { width, height } => {
                sm.reconfigure(width, height);
            },
            Action::Camera { command } => {
                commands.push(command);
                proof {
                    assert(commands@ =~= spec_commands_after(
                        events@.take(i as int),
                        m0,
                        dt_bits,
                    ) + spec_commands_of(a));
                }
            },
        }
        match e {
            InputEvent::CursorEntered => {
                *has_mouse = true;
            },
            _ => {},
        }
        i = i + 1;
    }
    proof {
        assert(events@.take(events@.len() as int) =~= events@);
    }
    Tick { commands, running: !quit }
}

/// However many resize or scale-factor-change events a tick carries,
/// once its handling completes the depth buffer's dimensions equal the
/// surface's, so no render pass is ever recorded against mismatched
/// dimensions.
pub proof fn lemma_tick_keeps_depth_matched(events: Seq<InputEvent>, sm: SurfaceManager)
    requires
        sm.wf(),
    ensures
        spec_surface_after(events, sm).wf(),
        spec_surface_after(events, sm).depth.width == spec_surface_after(events, sm).config.width,
        spec_surface_after(events, sm).depth.height == spec_surface_after(
            events,
            sm,
        ).config.height,
    decreases events.len(),
{
    if events.len() > 0 {
        lemma_tick_keeps_depth_matched(events.drop_last(), sm);
    }
}

/// The transition function of the loop's phase machine. `quit_requested`
/// is this tick's termination signal; `drawable` is the surface
/// manager's flag, false while the last requested size had a zero side.
/// Only a quit request leads to `Quit`; a non-drawable surface skips the
/// render phases and polls again.
pub open spec fn spec_advance(phase: Phase, quit_requested: bool, drawable: bool) -> Phase {
    match phase {
        Phase::Init => Phase::PollEvents,
        Phase::PollEvents => if quit_requested {
            Phase::Quit
        } else {
            Phase::UpdateCamera
        },
        Phase::UpdateCamera => Phase::SyncUniforms,
        Phase::SyncUniforms => if drawable {
            Phase::RecordAndSubmit
        } else {
            Phase::PollEvents
        },
        Phase::RecordAndSubmit => Phase::Present,
        Phase::Present => Phase::PollEvents,
        Phase::Quit => Phase::Quit,
    }
}

/// Advance the loop's phase machine by one step.
pub fn advance_phase(phase: Phase, quit_requested: bool, drawable: bool) -> (next: Phase)
    ensures
        next == spec_advance(phase, quit_requested, drawable),
{
    match phase {
        Phase::Init => Phase::PollEvents,
        Phase::PollEvents => if quit_requested {
            Phase::Quit
        } else {
            Phase::UpdateCamera
        },
        Phase::UpdateCamera => Phase::SyncUniforms,
        Phase::SyncUniforms => if drawable {
            Phase::RecordAndSubmit
        } else {
            Phase::PollEvents
        },
        Phase::RecordAndSubmit => Phase::Present,
        Phase::Present => Phase::PollEvents,
        Phase::Quit => Phase::Quit,
    }
}

/// The machine enters `Quit` exactly on a quit request observed at the
/// iteration boundary: from any phase but `PollEvents`, one step never
/// quits; from `PollEvents` it quits exactly when requested.
pub proof fn lemma_quit_iff_requested(phase: Phase, quit_requested: bool, drawable: bool)
    requires
        phase !is Quit,
    ensures
        spec_advance(phase, quit_requested, drawable) is Quit <==> (phase is PollEvents
            && quit_requested),
{
}

/// End to end over one tick: from `PollEvents`, with the quit signal that
/// this tick's events produced, the machine reaches `Quit` exactly when
/// some event was a window close or an Escape key press.
pub proof fn lemma_terminates_iff_quit_event(
    events: Seq<InputEvent>,
    drawable: bool,
)
    ensures
        spec_advance(Phase::PollEvents, spec_has_quit(events), drawable) is Quit
            <==> exists|i: int| 0 <= i < events.len() && spec_is_quit_event(events[i]),
{
}

} // verus!
