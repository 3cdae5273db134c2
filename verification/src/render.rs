//! The render loop: a state machine that routes platform events to one of
//! four transitions — resize-and-notify, pace-and-request-redraw,
//! draw-and-present, or terminate — and keeps the frame buffer's dimensions
//! in lockstep with the presentation surface.
//!
//! The platform event source, the surface itself and the clock live outside
//! this crate; they feed events in and carry the returned actions out.

use vstd::prelude::*;

use crate::frame::FrameCtx;

verus! {

/// A dimension of zero (a minimized window) is invalid for the buffer and
/// surface; it is clamped up to one before any resize is performed.
pub open spec fn clamped_dim(d: u32) -> u32 {
    if d == 0 {
        1u32
    } else {
        d
    }
}

/// Clamp a window dimension to the minimum the buffer and surface accept.
pub fn clamp_dim(d: u32) -> (r: u32)
    ensures
        r == clamped_dim(d),
{
    if d == 0 {
        1
    } else {
        d
    }
}

/// A platform event, already reduced to what the loop decides on. An idle
/// tick carries the monotonic clock's reading in milliseconds; a fatal
/// failure is any buffer, surface or presentation error.
#[derive(Clone, Copy, PartialEq, Eq, Structural, Debug)]
pub enum LoopEvent {
    CloseRequested,
    Resized(u32, u32),
    IdleTick(u64),
    RedrawRequested,
    FatalFailure,
}

/// What the caller must carry out after a dispatch. For `ResizeAndNotify`
/// the order is mandatory: resize the buffer, then the surface, and only
/// after both succeed invoke the resize callback with the carried (already
/// clamped) dimensions. For `DrawAndPresent`: invoke the frame callback
/// exactly once on the buffer, then present it.
#[derive(Clone, Copy, PartialEq, Eq, Structural, Debug)]
pub enum LoopAction {
    Nothing,
    ResizeAndNotify(u32, u32),
    RequestRedraw,
    DrawAndPresent,
}

/// The render loop's control state. Times are milliseconds on a monotonic
/// clock; `terminated` is absorbing — once set, no event is processed.
#[derive(Clone, Copy, PartialEq, Eq, Structural, Debug)]
pub struct RenderLoop {
    pub width: u32,
    pub height: u32,
    pub last_redraw: u64,
    pub frame_interval: u64,
    pub terminated: bool,
}

/// An idle tick at `now` is due for a redraw: the clock has moved forward
/// and at least `frame_interval` milliseconds have passed since the last
/// requested redraw.
pub open spec fn redraw_due(s: RenderLoop, now: u64) -> bool {
    s.last_redraw <= now && now - s.last_redraw >= s.frame_interval
}

/// The loop's transition function: from a state and an event to the next
/// state and the action the caller must perform.
pub open spec fn step(s: RenderLoop, e: LoopEvent) -> (RenderLoop, LoopAction) {
    if s.terminated {
        (s, LoopAction::Nothing)
    } else {
        match e {
            LoopEvent::CloseRequested => (
                (RenderLoop { terminated: true, ..s }),
                LoopAction::Nothing,
            ),
            LoopEvent::Resized(w, h) => (
                (RenderLoop { width: clamped_dim(w), height: clamped_dim(h), ..s }),
                LoopAction::ResizeAndNotify(clamped_dim(w), clamped_dim(h)),
            ),
            LoopEvent::IdleTick(now) => if redraw_due(s, now) {
                ((RenderLoop { last_redraw: now, ..s }), LoopAction::RequestRedraw)
            } else {
                (s, LoopAction::Nothing)
            },
            LoopEvent::RedrawRequested => if s.width == 0 || s.height == 0 {
                (s, LoopAction::Nothing)
            } else {
                (s, LoopAction::DrawAndPresent)
            },
            LoopEvent::FatalFailure => (
                (RenderLoop { terminated: true, ..s }),
                LoopAction::Nothing,
            ),
        }
    }
}

impl RenderLoop {
    /// A fresh, running loop. The initial dimensions come straight from the
    /// window and are not clamped; a minimized window simply skips redraws
    /// until its first resize.
    pub fn new(width: u32, height: u32, frame_interval: u64, now: u64) -> (s: RenderLoop)
        ensures
            s == (RenderLoop { width, height, last_redraw: now, frame_interval, terminated: false }),
    {
        RenderLoop { width, height, last_redraw: now, frame_interval, terminated: false }
    }

    /// Route one event: move to the next state and return the action the
    /// caller must perform, exactly as `step` describes.
    pub fn dispatch(&mut self, e: LoopEvent) -> (a: LoopAction)
        ensures
            (*final(self), a) == step(*old(self), e),
    {
        if self.terminated {
            return LoopAction::Nothing;
        }
        match e {
            LoopEvent::CloseRequested => {
                self.terminated = true;
                LoopAction::Nothing
            },
            LoopEvent::Resized(w, h) => {
                let cw = clamp_dim(w);
                let ch = clamp_dim(h);
                self.width = cw;
                self.height = ch;
                LoopAction::ResizeAndNotify(cw, ch)
            },
            LoopEvent::IdleTick(now) => {
                if self.last_redraw <= now && now - self.last_redraw >= self.frame_interval {
                    self.last_redraw = now;
                    LoopAction::RequestRedraw
                } else {
                    LoopAction::Nothing
                }
            },
            LoopEvent::RedrawRequested => {
                if self.width == 0 || self.height == 0 {
                    LoopAction::Nothing
                } else {
                    LoopAction::DrawAndPresent
                }
            },
            LoopEvent::FatalFailure => {
                self.terminated = true;
                LoopAction::Nothing
            },
        }
    }
}

/// Law: a resize clamps each dimension to a minimum of one before any
/// buffer or surface resize, and the resize callback is notified with
/// exactly the clamped, post-resize dimensions.
pub proof fn lemma_resize_clamps(s: RenderLoop, w: u32, h: u32)
    requires
        !s.terminated,
    ensures
        ({
            let (s2, a) = step(s, LoopEvent::Resized(w, h));
            &&& s2.width == clamped_dim(w)
            &&& s2.height == clamped_dim(h)
            &&& s2.width >= 1
            &&& s2.height >= 1
            &&& a == LoopAction::ResizeAndNotify(s2.width, s2.height)
        }),
{
}

/// Law: resizing twice to the same dimensions is idempotent — the second
/// resize leaves the state exactly as the first did, and still asks the
/// caller to resize to (and notify with) the same clamped dimensions.
pub proof fn lemma_resize_idempotent(s: RenderLoop, w: u32, h: u32)
    requires
        !s.terminated,
    ensures
        ({
            let (s1, a1) = step(s, LoopEvent::Resized(w, h));
            let (s2, a2) = step(s1, LoopEvent::Resized(w, h));
            &&& s2 == s1
            &&& a2 == a1
        }),
{
}

/// Law: a redraw request on a zero-width or zero-height buffer does
/// nothing — neither the frame callback nor a present is asked for.
pub proof fn lemma_redraw_skips_degenerate(s: RenderLoop)
    requires
        !s.terminated,
        s.width == 0 || s.height == 0,
    ensures
        step(s, LoopEvent::RedrawRequested) == (s, LoopAction::Nothing),
{
}

/// Law: an idle tick before `frame_interval` has elapsed changes nothing
/// and requests no redraw; once the elapsed time reaches the interval, one
/// redraw is requested and the timestamp resets to the tick's time.
pub proof fn lemma_redraw_pacing(s: RenderLoop, now: u64)
    requires
        !s.terminated,
    ensures
        !redraw_due(s, now) ==> step(s, LoopEvent::IdleTick(now)) == (s, LoopAction::Nothing),
        redraw_due(s, now) ==> step(s, LoopEvent::IdleTick(now)) == (
            (RenderLoop { last_redraw: now, ..s }),
            LoopAction::RequestRedraw,
        ),
{
}

/// Law: a tick that triggers a redraw resets the pacing — a second tick at
/// the same instant requests nothing more while the interval is positive,
/// so each elapsed interval yields exactly one redraw request.
pub proof fn lemma_one_redraw_per_interval(s: RenderLoop, now: u64)
    requires
        !s.terminated,
        redraw_due(s, now),
        s.frame_interval > 0,
    ensures
        ({
            let (s1, a1) = step(s, LoopEvent::IdleTick(now));
            let (s2, a2) = step(s1, LoopEvent::IdleTick(now));
            &&& a1 == LoopAction::RequestRedraw
            &&& a2 == LoopAction::Nothing
            &&& s2 == s1
        }),
{
}

/// Law: the terminated state is absorbing — no event changes the state or
/// produces an action once the loop has terminated.
pub proof fn lemma_terminated_absorbing(s: RenderLoop, e: LoopEvent)
    requires
        s.terminated,
    ensures
        step(s, e) == (s, LoopAction::Nothing),
{
}

/// The render loop together with the frame buffer it owns. Keeping the two
/// in one place lets each event keep the buffer's dimensions in lockstep
/// with the loop's — drawing code never observes a buffer sized for an old
/// surface.
pub struct RenderSession {
    pub state: RenderLoop,
    pub buffer: FrameCtx,
}

impl RenderSession {
    /// The buffer is well formed and sized exactly to the loop's current
    /// dimensions.
    pub open spec fn wf(&self) -> bool {
        &&& self.buffer.wf()
        &&& self.buffer.width == self.state.width
        &&& self.buffer.height == self.state.height
    }

    /// A running session over a fresh buffer of the given dimensions.
    pub fn new(width: u32, height: u32, frame_interval: u64, now: u64) -> (s: RenderSession)
        requires
            width * height * 4 <= usize::MAX,
        ensures
            s.wf(),
            s.state == (RenderLoop {
                width,
                height,
                last_redraw: now,
                frame_interval,
                terminated: false,
            }),
    {
        RenderSession {
            state: RenderLoop::new(width, height, frame_interval, now),
            buffer: FrameCtx::new(width, height),
        }
    }

    /// Route one event through the loop and resize the owned buffer in the
    /// same step, so that buffer and state leave every dispatch consistent.
    pub fn handle_event(&mut self, e: LoopEvent) -> (a: LoopAction)
        requires
            old(self).wf(),
            e matches LoopEvent::Resized(w, h) ==> clamped_dim(w) * clamped_dim(h) * 4
                <= usize::MAX,
        ensures
            final(self).wf(),
            (final(self).state, a) == step(old(self).state, e),
            !(a matches LoopAction::ResizeAndNotify(..)) ==> final(self).buffer == old(
                self,
            ).buffer,
            a matches LoopAction::ResizeAndNotify(w, h) && w == old(self).buffer.width && h == old(
                self,
            ).buffer.height ==> final(self).buffer.frame@ == old(self).buffer.frame@,
    {
        let a = self.state.dispatch(e);
        match a {
            LoopAction::ResizeAndNotify(w, h) => {
                self.buffer.resize(w, h);
            },
            _ => {},
        }
        a
    }
}

} // verus!
