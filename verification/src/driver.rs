use vstd::prelude::*;

use crate::pipeline::Screen;

verus! {

/// Which top-level loop the driver runs.  The two variants are kept
/// as separate loops rather than one loop full of branches: the
/// windowed one pumps surface events and presents with vsync, the
/// headless one does neither and never stops on its own.
#[derive(PartialEq, Eq, Structural, Clone, Copy, Debug)]
pub enum Mode {
    Windowed,
    Headless,
}

/// The selection rule: interactive windowed loop exactly when the
/// screen declares a need for an interactive display surface.
pub fn select_mode<S: Screen>(screen: &S) -> (mode: Mode)
    ensures
        mode is Windowed <==> screen.uses_window_spec(),
{
    if screen.uses_window() {
        Mode::Windowed
    } else {
        Mode::Headless
    }
}

/// One event handed over while draining the windowing system's queue,
/// non-blockingly, once per windowed iteration.
#[derive(PartialEq, Eq, Structural, Clone, Copy, Debug)]
pub enum SurfaceEvent {
    /// The user asked to close the window: stop the loop gracefully.
    CloseRequested,
    /// The window surface changed size.  Only the windowing surface is
    /// resized; the pipeline's internal target never is.
    SurfaceResized { width: u32, height: u32 },
    /// Anything else; ignored.
    Other,
}

/// A resize to apply to the windowing surface.
#[derive(PartialEq, Eq, Structural, Clone, Copy, Debug)]
pub struct SurfaceResize {
    pub width: u32,
    pub height: u32,
}

/// The resizes an event drain asks for, in arrival order.
pub open spec fn resize_requests(events: Seq<SurfaceEvent>) -> Seq<SurfaceResize>
    decreases events.len(),
{
    if events.len() == 0 {
        Seq::empty()
    } else {
        let rest = resize_requests(events.drop_last());
        match events.last() {
            SurfaceEvent::SurfaceResized { width, height } => rest.push(
                SurfaceResize { width, height },
            ),
            _ => rest,
        }
    }
}

/// Whether a drain saw a close request anywhere in the queue.
pub open spec fn close_requested(events: Seq<SurfaceEvent>) -> bool
    decreases events.len(),
{
    if events.len() == 0 {
        false
    } else {
        close_requested(events.drop_last()) || events.last() is CloseRequested
    }
}

/// What one drain of the event queue decided.  A close request ends
/// the loop only after the current iteration: the tick that is under
/// way still renders and presents.
pub struct EventOutcome {
    pub keep_running: bool,
    pub resizes: Vec<SurfaceResize>,
}

/// Fold a drained event queue into the loop's decisions: keep running
/// unless some event asked to close, and apply every surface resize in
/// arrival order.
pub fn process_surface_events(events: &Vec<SurfaceEvent>) -> (outcome: EventOutcome)
    ensures
        outcome.keep_running == !close_requested(events@),
        outcome.resizes@ == resize_requests(events@),
{
    let mut keep_running = true;
    let mut resizes: Vec<SurfaceResize> = Vec::new();
    let mut i: usize = 0;
    while i < events.len()
        invariant
            i <= events@.len(),
            keep_running == !close_requested(events@.subrange(0, i as int)),
            resizes@ == resize_requests(events@.subrange(0, i as int)),
        decreases events@.len() - i,
    {
        proof {
            assert(events@.subrange(0, i + 1).drop_last() =~= events@.subrange(0, i as int));
            assert(events@.subrange(0, i + 1).last() == events@[i as int]);
        }
        match events[i] {
            SurfaceEvent::CloseRequested => {
                keep_running = false;
            },
            SurfaceEvent::SurfaceResized { width, height } => {
                resizes.push(SurfaceResize { width, height });
            },
            SurfaceEvent::Other => {},
        }
        i = i + 1;
    }
    proof {
        assert(events@.subrange(0, events@.len() as int) =~= events@);
    }
    EventOutcome { keep_running, resizes }
}

/// What the driver does with one loop iteration, decided by whether
/// the blocking receive handed it a frame.  A disconnected producer is
/// a transient "no frame this iteration" condition: nothing is drained
/// or rendered, and the loop goes straight back to receiving rather
/// than terminating.
#[derive(PartialEq, Eq, Structural, Clone, Copy, Debug)]
pub struct IterationPlan {
    /// Drain pending surface events, non-blockingly.  Only the
    /// windowed loop has an event pump.
    pub drain_events: bool,
    /// Run one pipeline tick, then present.
    pub render_and_present: bool,
}

/// The per-iteration policy of both loop variants.
pub fn iteration_plan(mode: Mode, frame_received: bool) -> (plan: IterationPlan)
    ensures
        plan.render_and_present == frame_received,
        plan.drain_events == (frame_received && mode is Windowed),
{
    let windowed = match mode {
        Mode::Windowed => true,
        Mode::Headless => false,
    };
    IterationPlan { drain_events: frame_received && windowed, render_and_present: frame_received }
}

} // verus!
