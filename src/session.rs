use vstd::prelude::*;
use crate::document::{SvgImage, SvgRasterizer};
use crate::error::Error;
use crate::raster::{extent_px, raster_fits, RasterTarget};

verus! {

/// What the engine did since the session's last action.
pub enum RasterEvent {
    /// The create call returned this handle (zero when it failed).
    Created(usize),
    /// The engine wrote into the target it was handed.
    Rendered(RasterTarget),
    /// The rasterizer handle was given back to the engine.
    Released,
}

/// What the engine must do next for the session.
pub enum RasterAction {
    /// Create a rasterizer and report its handle.
    CreateRasterizer,
    /// Render `document` with `rasterizer` into `target`, offset zero, at
    /// the session's scale, then hand the target back.
    Render { rasterizer: usize, document: usize, target: RasterTarget },
    /// Give this rasterizer handle back to the engine.
    ReleaseRasterizer(usize),
    /// The session is over; the rendered buffer or the error that ended it.
    Finish(Result<RasterTarget, Error>),
}

/// One rasterization of a document: create a rasterizer, render into a
/// buffer laid out for the scale, release the rasterizer, hand the buffer
/// out. A rasterizer that was created is released exactly once, also when the
/// buffer cannot be laid out.
pub enum RasterSession {
    Creating { scale: u64 },
    Rendering { rasterizer: SvgRasterizer },
    Releasing { outcome: Result<RasterTarget, Error> },
    Done,
}

/// How many rasterizer handles an event hands to the session.
pub open spec fn acquired(e: &RasterEvent) -> nat {
    match e {
        RasterEvent::Created(h) => if *h != 0 { 1 } else { 0 },
        _ => 0,
    }
}

/// How many rasterizer handles an action gives back to the engine.
pub open spec fn released(a: &RasterAction) -> nat {
    if a is ReleaseRasterizer { 1 } else { 0 }
}

/// No handle appears or vanishes in a step: what the session held and was
/// handed is what it holds and gave back.
pub open spec fn step_keeps_handles(
    old: &RasterSession,
    e: &RasterEvent,
    new: &RasterSession,
    a: &RasterAction,
) -> bool {
    old.held() + acquired(e) == new.held() + released(a)
}

/// The handle a create call reported; zero for any other event.
pub open spec fn created_handle(e: &RasterEvent) -> usize {
    match e {
        RasterEvent::Created(h) => *h,
        _ => 0,
    }
}

/// The session ended with an allocation error.
pub open spec fn ends_in_malloc_error(a: &RasterAction) -> bool {
    a matches RasterAction::Finish(Err(err)) && err is MallocError
}

/// The session holds the rasterizer with handle `h`.
pub open spec fn holds_rasterizer(s: &RasterSession, h: usize) -> bool {
    s matches RasterSession::Rendering { rasterizer } && rasterizer.spec_handle() == h
}

/// A buffer for `document` at `scale` can be laid out.
pub open spec fn fits(document: &SvgImage, scale: u64) -> bool {
    raster_fits(extent_px(document.spec_width(), scale), extent_px(document.spec_height(), scale))
}

/// The action renders `document` with rasterizer `h` into a zeroed buffer of
/// `floor(width * scale)` by `floor(height * scale)` pixels.
pub open spec fn renders(a: &RasterAction, h: usize, document: &SvgImage, scale: u64) -> bool {
    a matches RasterAction::Render { rasterizer, document: d, target } && {
        &&& rasterizer == h
        &&& d == document.spec_handle()
        &&& target.wf()
        &&& target.width as int == extent_px(document.spec_width(), scale)
        &&& target.height as int == extent_px(document.spec_height(), scale)
        &&& target.pixels@ == Seq::new(target.pixels@.len(), |_i: int| 0u8)
    }
}

/// A step the session can take: it waited for the event, kept its handles,
/// and came closer to done.
pub open spec fn valid_step(
    old: &RasterSession,
    e: &RasterEvent,
    new: &RasterSession,
    a: &RasterAction,
) -> bool {
    &&& old.accepts(e)
    &&& step_keeps_handles(old, e, new, a)
    &&& new.remaining() < old.remaining()
}

/// Rasterizer handles handed to a session over a run of events.
pub open spec fn total_acquired(events: Seq<RasterEvent>) -> nat
    decreases events.len(),
{
    if events.len() == 0 {
        0
    } else {
        total_acquired(events.drop_last()) + acquired(&events.last())
    }
}

/// Rasterizer handles given back over a run of actions.
pub open spec fn total_released(actions: Seq<RasterAction>) -> nat
    decreases actions.len(),
{
    if actions.len() == 0 {
        0
    } else {
        total_released(actions.drop_last()) + released(&actions.last())
    }
}

/// A run of `events.len()` steps through `states`, answered by `actions`.
pub open spec fn is_run(
    states: Seq<RasterSession>,
    events: Seq<RasterEvent>,
    actions: Seq<RasterAction>,
) -> bool {
    &&& states.len() == events.len() + 1
    &&& actions.len() == events.len()
    &&& forall|i: int|
        0 <= i < events.len() ==> valid_step(
            &#[trigger] states[i],
            &events[i],
            &states[i + 1],
            &actions[i],
        )
}

proof fn lemma_run_prefix(
    states: Seq<RasterSession>,
    events: Seq<RasterEvent>,
    actions: Seq<RasterAction>,
    n: int,
)
    requires
        is_run(states, events, actions),
        states[0] is Creating,
        0 <= n <= events.len(),
    ensures
        total_acquired(events.take(n)) == total_released(actions.take(n)) + states[n].held(),
        total_acquired(events.take(n)) <= 1,
        n > 0 ==> !(states[n] is Creating),
    decreases n,
{
    if n > 0 {
        lemma_run_prefix(states, events, actions, n - 1);
        assert(events.take(n).drop_last() =~= events.take(n - 1));
        assert(actions.take(n).drop_last() =~= actions.take(n - 1));
        assert(valid_step(&states[n - 1], &events[n - 1], &states[n], &actions[n - 1]));
        if n > 1 {
            assert(acquired(&events[n - 1]) == 0);
        }
    }
}

/// Over a whole run, from a session that is creating its rasterizer to one
/// that is done, every rasterizer handle the engine handed over is given back
/// exactly once: as many are released as were acquired, and that is at most
/// one. This holds on every path, the failing ones included.
pub proof fn lemma_run_releases_each_rasterizer_once(
    states: Seq<RasterSession>,
    events: Seq<RasterEvent>,
    actions: Seq<RasterAction>,
)
    requires
        is_run(states, events, actions),
        states[0] is Creating,
        states.last() is Done,
    ensures
        total_acquired(events) == total_released(actions),
        total_released(actions) <= 1,
{
    lemma_run_prefix(states, events, actions, events.len() as int);
    assert(events.take(events.len() as int) =~= events);
    assert(actions.take(actions.len() as int) =~= actions);
}

impl RasterSession {
    /// The scale a session that is creating its rasterizer renders at.
    pub open spec fn scale(&self) -> u64 {
        match self {
            RasterSession::Creating { scale } => *scale,
            _ => 0,
        }
    }

    /// How many rasterizer handles the session holds.
    pub open spec fn held(&self) -> nat {
        if self is Rendering { 1 } else { 0 }
    }

    /// Steps left before the session is done.
    pub open spec fn remaining(&self) -> nat {
        match self {
            RasterSession::Creating { .. } => 3,
            RasterSession::Rendering { .. } => 2,
            RasterSession::Releasing { .. } => 1,
            RasterSession::Done => 0,
        }
    }

    pub open spec fn wf(&self) -> bool {
        self matches RasterSession::Rendering { rasterizer } ==> rasterizer.wf()
    }

    /// The event the session waits for in this state.
    pub open spec fn accepts(&self, e: &RasterEvent) -> bool {
        match self {
            RasterSession::Creating { .. } => e is Created,
            RasterSession::Rendering { .. } => e is Rendered,
            RasterSession::Releasing { .. } => e is Released,
            RasterSession::Done => false,
        }
    }

    /// Starts rasterizing at `scale` (32.32 fixed point): the first action
    /// creates the rasterizer.
    pub fn start(scale: u64) -> (r: (RasterSession, RasterAction))
        ensures
            r.0 == (RasterSession::Creating { scale }),
            r.1 is CreateRasterizer,
            r.0.held() == 0,
    {
        (RasterSession::Creating { scale }, RasterAction::CreateRasterizer)
    }

    /// Whether `e` is the event this session waits for.
    pub fn accepts_event(&self, e: &RasterEvent) -> (r: bool)
        ensures
            r == self.accepts(e),
    {
        match (self, e) {
            (RasterSession::Creating { .. }, RasterEvent::Created(_)) => true,
            (RasterSession::Rendering { .. }, RasterEvent::Rendered(_)) => true,
            (RasterSession::Releasing { .. }, RasterEvent::Released) => true,
            _ => false,
        }
    }

    /// Takes the session one step, given what the engine did.
    pub fn step(self, document: &SvgImage, e: RasterEvent) -> (r: (RasterSession, RasterAction))
        requires
            self.wf(),
            document.wf(),
            self.accepts(&e),
        ensures
            r.0.wf(),
            valid_step(&self, &e, &r.0, &r.1),
            r.0 is Done <==> r.1 is Finish,
            // A failed create ends the session with an allocation error.
            self is Creating ==> (created_handle(&e) == 0 <==> ends_in_malloc_error(&r.1)),
            // A created rasterizer renders a buffer laid out for the scale, or
            // is released at once when no such buffer can be laid out.
            self is Creating && created_handle(&e) != 0 ==> if fits(document, self.scale()) {
                &&& renders(&r.1, created_handle(&e), document, self.scale())
                &&& holds_rasterizer(&r.0, created_handle(&e))
            } else {
                &&& r.1 == RasterAction::ReleaseRasterizer(created_handle(&e))
                &&& r.0 == (RasterSession::Releasing { outcome: Err(Error::RasterizeError) })
            },
            // The rendered buffer is kept until the rasterizer is released.
            self is Rendering ==> (e matches RasterEvent::Rendered(t) ==> r.0
                == (RasterSession::Releasing { outcome: Ok(t) })),
            // The rasterizer that rendered is the one released.
            self matches RasterSession::Rendering { rasterizer } ==> r.1
                == RasterAction::ReleaseRasterizer(rasterizer.spec_handle()),
            // After release the buffer, or the error, is handed out unchanged.
            self matches RasterSession::Releasing { outcome } ==> r.1 == RasterAction::Finish(
                outcome,
            ),
    {
        match self {
            RasterSession::Creating { scale } => match e {
                RasterEvent::Created(h) => match SvgRasterizer::new(h) {
                    Err(err) => (RasterSession::Done, RasterAction::Finish(Err(err))),
                    Ok(rasterizer) => match document.raster_target(scale) {
                        Ok(target) => {
                            let action = RasterAction::Render {
                                rasterizer: rasterizer.handle(),
                                document: document.handle(),
                                target,
                            };
                            (RasterSession::Rendering { rasterizer }, action)
                        },
                        Err(err) => {
                            let h = rasterizer.release();
                            (
                                RasterSession::Releasing { outcome: Err(err) },
                                RasterAction::ReleaseRasterizer(h),
                            )
                        },
                    },
                },
                // `accepts` rules out any other event here.
                _ => (RasterSession::Done, RasterAction::Finish(Err(Error::RasterizeError))),
            },
            RasterSession::Rendering { rasterizer } => match e {
                RasterEvent::Rendered(target) => {
                    let h = rasterizer.release();
                    (
                        RasterSession::Releasing { outcome: Ok(target) },
                        RasterAction::ReleaseRasterizer(h),
                    )
                },
                // `accepts` rules out any other event here.
                _ => (RasterSession::Done, RasterAction::Finish(Err(Error::RasterizeError))),
            },
            RasterSession::Releasing { outcome } => (
                RasterSession::Done,
                RasterAction::Finish(outcome),
            ),
            // A session that is done accepts no event.
            RasterSession::Done => (
                RasterSession::Done,
                RasterAction::Finish(Err(Error::RasterizeError)),
            ),
        }
    }
}

} // verus!
