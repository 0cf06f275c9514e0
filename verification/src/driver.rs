//! The frame loop driver's decisions, modelled as pure functions of state and
//! event. The driver has two states, running and terminating; it terminates
//! exactly when the windowing layer reports a close request, and ignores every
//! other event (resize, mouse, keyboard) on purpose. Each iteration computes
//! the wall-clock delta since the previous one, clears the frame to a fixed
//! background color, advances the animated triangle, draws the quad first and
//! the triangle on top, and schedules the next wake-up one frame interval
//! ahead. The unverified front end owns the window and the clock: it feeds
//! events and timestamps in, and executes the returned frame description.

use vstd::prelude::*;

use crate::FRAME_INTERVAL_NS;
use crate::frame::Color;
use crate::frame::Frame;
use crate::quad::Quad;
use crate::quad::quad_call;
use crate::params::default_params;
use crate::triangle::Triangle;
use crate::triangle::step_update;
use crate::triangle::triangle_call;
use crate::vertex::F32_ONE_BITS;
use crate::vertex::F32_ZERO_BITS;

verus! {

/// The driver's control state.
#[derive(Clone, Copy, Debug, PartialEq, Eq, Structural)]
pub enum LoopState {
    Running,
    Terminating,
}

/// One event handed to the driver's callback, as the windowing layer tags it.
#[derive(Clone, Copy, Debug, PartialEq, Eq, Structural)]
pub enum LoopEvent {
    /// The window was asked to close.
    CloseRequested,
    /// The window was resized (observed, intentionally ignored).
    Resized,
    /// Mouse input (observed, intentionally ignored).
    MouseInput,
    /// Keyboard input (observed, intentionally ignored).
    KeyboardInput,
    /// Any other window event.
    OtherWindowEvent,
    /// An event not tied to the window (a tick, a device event).
    NonWindowEvent,
}

/// What the front end should do after an iteration: wait until the given
/// wall-clock deadline, or leave the event loop.
#[derive(Clone, Copy, Debug, PartialEq, Eq, Structural)]
pub enum WakeDecision {
    WaitUntil { deadline_ns: u128 },
    Exit,
}

/// The background clear color: opaque blue.
pub open spec fn background_color() -> Color {
    Color { r: F32_ZERO_BITS, g: F32_ZERO_BITS, b: F32_ONE_BITS, a: F32_ONE_BITS }
}

/// The state after an event: terminating once a close was requested, and
/// terminating forever after.
pub open spec fn next_state(s: LoopState, ev: LoopEvent) -> LoopState {
    if s is Terminating || ev is CloseRequested {
        LoopState::Terminating
    } else {
        LoopState::Running
    }
}

/// The wake-up decision after an event at time `now_ns`: exit on a close
/// request, otherwise wake one frame interval ahead.
pub open spec fn wake_decision(ev: LoopEvent, now_ns: u128) -> WakeDecision {
    if ev is CloseRequested {
        WakeDecision::Exit
    } else {
        WakeDecision::WaitUntil { deadline_ns: (now_ns + FRAME_INTERVAL_NS) as u128 }
    }
}

/// Advances the driver's control state by one event.
pub fn step_state(s: LoopState, ev: &LoopEvent) -> (r: LoopState)
    ensures
        r == next_state(s, *ev),
{
    match s {
        LoopState::Terminating => LoopState::Terminating,
        LoopState::Running => match ev {
            LoopEvent::CloseRequested => LoopState::Terminating,
            _ => LoopState::Running,
        },
    }
}

/// Decides the next wake-up for an event observed at time `now_ns`.
pub fn decide_wake(ev: &LoopEvent, now_ns: u128) -> (r: WakeDecision)
    requires
        now_ns + FRAME_INTERVAL_NS <= u128::MAX,
    ensures
        r == wake_decision(*ev, now_ns),
{
    match ev {
        LoopEvent::CloseRequested => WakeDecision::Exit,
        _ => WakeDecision::WaitUntil { deadline_ns: now_ns + (FRAME_INTERVAL_NS as u128) },
    }
}

/// The two faces of termination agree: from the running state, an event leads
/// to the terminating state exactly when the wake-up decision for it is to
/// exit the loop.
pub proof fn lemma_exit_matches_termination(ev: LoopEvent, now_ns: u128)
    ensures
        (next_state(LoopState::Running, ev) is Terminating) <==> (wake_decision(ev, now_ns)
            is Exit),
{
}

/// The driver's wall-clock timer: the time of the previous iteration, in
/// nanoseconds. The first delta is measured from when the timer was started,
/// so it includes whatever setup latency preceded the first iteration.
#[derive(Clone, Copy, Debug, PartialEq, Eq, Structural)]
pub struct FrameTimer {
    pub last_ns: u128,
}

impl FrameTimer {
    /// A timer started at time `now_ns`.
    pub fn start(now_ns: u128) -> (t: FrameTimer)
        ensures
            t.last_ns == now_ns,
    {
        FrameTimer { last_ns: now_ns }
    }

    /// Advances the timer to `now_ns` and returns the delta since the
    /// previous iteration. Timestamps come from a monotonic clock, so they
    /// never decrease.
    pub fn tick(&mut self, now_ns: u128) -> (delta: u128)
        requires
            now_ns >= old(self).last_ns,
        ensures
            delta == now_ns - old(self).last_ns,
            final(self).last_ns == now_ns,
    {
        let delta = now_ns - self.last_ns;
        self.last_ns = now_ns;
        delta
    }
}

/// One full iteration of the frame loop at time `now_ns`: tick the timer,
/// advance the triangle's animation by the delta (`x0_bits` is the caller's
/// oscillation sample for the new total elapsed time), then build the frame —
/// cleared to the background color, the quad drawn first and the triangle on
/// top, both with default parameters — and decide the next wake-up from the
/// observed event.
pub fn run_iteration(
    timer: &mut FrameTimer,
    triangle: &mut Triangle,
    quad: &Quad,
    now_ns: u128,
    x0_bits: u32,
    ev: &LoopEvent,
) -> (r: (Frame, WakeDecision))
    requires
        old(triangle).wf(),
        quad.wf(),
        now_ns >= old(timer).last_ns,
        old(triangle)@.elapsed_ns + (now_ns - old(timer).last_ns) <= u128::MAX,
        now_ns + FRAME_INTERVAL_NS <= u128::MAX,
    ensures
        final(timer).last_ns == now_ns,
        final(triangle)@ == step_update(
            old(triangle)@,
            (now_ns - old(timer).last_ns) as u128,
            x0_bits,
        ),
        final(triangle).wf(),
        r.0@.clear == Some(background_color()),
        r.0@.calls.len() == 2,
        r.0@.calls[0] == quad_call(quad@, default_params()),
        r.0@.calls[1] == triangle_call(final(triangle)@, default_params()),
        r.1 == wake_decision(*ev, now_ns),
{
    let delta = timer.tick(now_ns);
    triangle.update(delta, x0_bits);
    let mut frame = Frame::new();
    frame.clear_color(
        Color { r: F32_ZERO_BITS, g: F32_ZERO_BITS, b: F32_ONE_BITS, a: F32_ONE_BITS },
    );
    quad.render(&mut frame);
    triangle.render(&mut frame);
    let wake = decide_wake(ev, now_ns);
    (frame, wake)
}

} // verus!
