use vstd::prelude::*;

verus! {

/// The window events the game reacts to.
#[derive(Debug, Clone, Copy, PartialEq, Eq, Structural)]
pub enum LoopEvent {
    /// The user asked to close the window.
    CloseRequested,
    /// The window changed size.
    Resized,
    /// All pending events were handled: time to draw a frame.
    MainEventsCleared,
    /// Any other event.
    Other,
}

/// What the caller does after an event.
#[derive(Debug, Clone, Copy, PartialEq, Eq, Structural)]
pub enum LoopAction {
    /// Leave the event loop.
    Exit,
    /// Nothing to do.
    Continue,
    /// Start a frame: first recreate the swapchain for the window's current
    /// size if `resize_swapchain`, and rebuild the framebuffers, pipeline and
    /// command buffers if `rebuild_pipeline`; then acquire the next image.
    StartFrame { resize_swapchain: bool, rebuild_pipeline: bool },
}

/// What acquiring the next swapchain image gave.
#[derive(Debug, Clone, Copy, PartialEq, Eq, Structural)]
pub enum AcquireOutcome {
    /// Image `image` is ready; `suboptimal` if the swapchain no longer matches the surface well.
    Acquired { image: usize, suboptimal: bool },
    /// The swapchain is out of date.
    OutOfDate,
}

/// What the caller does with an acquired image.
#[derive(Debug, Clone, Copy, PartialEq, Eq, Structural)]
pub enum FrameDecision {
    /// Draw nothing this time.
    Skip,
    /// Submit the command buffer of `image`, after the fence in slot
    /// `wait_for` when there is one (waiting on it first), otherwise right away.
    Draw { image: usize, wait_for: Option<usize> },
}

/// What submitting a frame and flushing its fence gave.
#[derive(Debug, Clone, Copy, PartialEq, Eq, Structural)]
pub enum FlushOutcome {
    /// The frame was submitted; its fence is kept.
    Flushed,
    /// The swapchain is out of date.
    OutOfDate,
    /// Some other failure: the frame is dropped.
    Failed,
}

/// The state the frame loop keeps between events.
pub struct FrameView {
    pub window_resized: bool,
    pub recreate_swapchain: bool,
    /// The fence slot of the frame submitted last.
    pub previous_fence: nat,
    /// Which fence slots hold the fence of a submitted frame.
    pub fences: Seq<bool>,
}

/// The decisions of the game's frame loop. The caller owns the window, the
/// GPU objects and the fences; it reports what happened and follows the answers.
pub struct FrameLoop {
    window_resized: bool,
    recreate_swapchain: bool,
    previous_fence: usize,
    fences: Vec<bool>,
}

impl View for FrameLoop {
    type V = FrameView;

    closed spec fn view(&self) -> FrameView {
        FrameView {
            window_resized: self.window_resized,
            recreate_swapchain: self.recreate_swapchain,
            previous_fence: self.previous_fence as nat,
            fences: self.fences@,
        }
    }
}

/// The state after an event.
pub open spec fn after_event(v: FrameView, e: LoopEvent) -> FrameView {
    match e {
        LoopEvent::Resized => FrameView { window_resized: true, ..v },
        LoopEvent::MainEventsCleared => FrameView {
            window_resized: false,
            recreate_swapchain: false,
            ..v
        },
        _ => v,
    }
}

/// The action an event asks for.
pub open spec fn event_action(v: FrameView, e: LoopEvent) -> LoopAction {
    match e {
        LoopEvent::CloseRequested => LoopAction::Exit,
        LoopEvent::MainEventsCleared => LoopAction::StartFrame {
            resize_swapchain: v.window_resized || v.recreate_swapchain,
            rebuild_pipeline: v.window_resized,
        },
        _ => LoopAction::Continue,
    }
}

/// The state after acquiring an image.
pub open spec fn after_acquire(v: FrameView, o: AcquireOutcome) -> FrameView {
    match o {
        AcquireOutcome::OutOfDate => FrameView { recreate_swapchain: true, ..v },
        AcquireOutcome::Acquired { image, suboptimal } => FrameView {
            recreate_swapchain: v.recreate_swapchain || suboptimal,
            ..v
        },
    }
}

/// What to do with an acquired image.
pub open spec fn acquire_decision(v: FrameView, o: AcquireOutcome) -> FrameDecision {
    match o {
        AcquireOutcome::OutOfDate => FrameDecision::Skip,
        AcquireOutcome::Acquired { image, suboptimal } => FrameDecision::Draw {
            image,
            wait_for: if v.fences[v.previous_fence as int] {
                Some(v.previous_fence as usize)
            } else {
                None
            },
        },
    }
}

/// The state after submitting the frame of `image`.
pub open spec fn after_flush(v: FrameView, image: nat, o: FlushOutcome) -> FrameView {
    FrameView {
        recreate_swapchain: v.recreate_swapchain || o == FlushOutcome::OutOfDate,
        previous_fence: image,
        fences: v.fences.update(image as int, o == FlushOutcome::Flushed),
        ..v
    }
}

impl FrameLoop {
    /// The fence slot of the last frame is always a slot of the loop.
    #[verifier::type_invariant]
    spec fn slots_cover_previous(&self) -> bool {
        self.fences@.len() == 0 || self.previous_fence < self.fences@.len()
    }

    /// A loop over a swapchain of `frames_in_flight` images, with no frame submitted yet.
    pub fn new(frames_in_flight: usize) -> (r: FrameLoop)
        ensures
            r@ == (FrameView {
                window_resized: false,
                recreate_swapchain: false,
                previous_fence: 0,
                fences: Seq::new(frames_in_flight as nat, |i: int| false),
            }),
    {
        let mut fences: Vec<bool> = Vec::new();
        let mut i: usize = 0;
        while i < frames_in_flight
            invariant
                i <= frames_in_flight,
                fences@ == Seq::new(i as nat, |k: int| false),
            decreases frames_in_flight - i,
        {
            fences.push(false);
            i = i + 1;
        }
        FrameLoop { window_resized: false, recreate_swapchain: false, previous_fence: 0, fences }
    }

    /// The number of fence slots (one per swapchain image when the loop started).
    pub fn slot_count(&self) -> (r: usize)
        ensures
            r == self@.fences.len(),
    {
        self.fences.len()
    }

    /// Reacts to a window event.
    pub fn on_event(&mut self, e: LoopEvent) -> (r: LoopAction)
        ensures
            final(self)@ == after_event(old(self)@, e),
            r == event_action(old(self)@, e),
    {
        proof {
            use_type_invariant(&*self);
        }
        match e {
            LoopEvent::CloseRequested => LoopAction::Exit,
            LoopEvent::Resized => {
                self.window_resized = true;
                LoopAction::Continue
            },
            LoopEvent::MainEventsCleared => {
                let action = LoopAction::StartFrame {
                    resize_swapchain: self.window_resized || self.recreate_swapchain,
                    rebuild_pipeline: self.window_resized,
                };
                self.window_resized = false;
                self.recreate_swapchain = false;
                action
            },
            LoopEvent::Other => LoopAction::Continue,
        }
    }

    /// Reacts to the outcome of acquiring the next swapchain image.
    pub fn on_acquire(&mut self, o: AcquireOutcome) -> (r: FrameDecision)
        requires
            old(self)@.fences.len() > 0,
        ensures
            final(self)@ == after_acquire(old(self)@, o),
            r == acquire_decision(old(self)@, o),
    {
        proof {
            use_type_invariant(&*self);
        }
        match o {
            AcquireOutcome::OutOfDate => {
                self.recreate_swapchain = true;
                FrameDecision::Skip
            },
            AcquireOutcome::Acquired { image, suboptimal } => {
                if suboptimal {
                    self.recreate_swapchain = true;
                }
                let wait_for = if self.fences[self.previous_fence] {
                    Some(self.previous_fence)
                } else {
                    None
                };
                FrameDecision::Draw { image, wait_for }
            },
        }
    }

    /// Records the outcome of submitting the frame of `image`.
    pub fn on_flush(&mut self, image: usize, o: FlushOutcome)
        requires
            image < old(self)@.fences.len(),
        ensures
            final(self)@ == after_flush(old(self)@, image as nat, o),
    {
        proof {
            use_type_invariant(&*self);
        }
        let kept = match o {
            FlushOutcome::Flushed => true,
            _ => false,
        };
        if let FlushOutcome::OutOfDate = o {
            self.recreate_swapchain = true;
        }
        let mut fences: Vec<bool> = Vec::new();
        std::mem::swap(&mut fences, &mut self.fences);
        fences.set(image, kept);
        std::mem::swap(&mut fences, &mut self.fences);
        self.previous_fence = image;
    }
}

// ---------------------------------------------------------------------------
// Laws of the frame loop
// ---------------------------------------------------------------------------

/// The state after a run of events.
pub open spec fn after_events(v: FrameView, es: Seq<LoopEvent>) -> FrameView
    decreases es.len(),
{
    if es.len() == 0 {
        v
    } else {
        after_events(after_event(v, es[0]), es.drop_first())
    }
}

/// Events other than the start of a frame never clear a pending resize or
/// swapchain recreation.
proof fn lemma_flags_persist(v: FrameView, es: Seq<LoopEvent>)
    requires
        forall|i: int| 0 <= i < es.len() ==> es[i] != LoopEvent::MainEventsCleared,
    ensures
        v.window_resized ==> after_events(v, es).window_resized,
        v.recreate_swapchain ==> after_events(v, es).recreate_swapchain,
        after_events(v, es).previous_fence == v.previous_fence,
        after_events(v, es).fences == v.fences,
    decreases es.len(),
{
    if es.len() > 0 {
        assert(es[0] != LoopEvent::MainEventsCleared);
        let rest = es.drop_first();
        assert forall|i: int| 0 <= i < rest.len() implies rest[i] != LoopEvent::MainEventsCleared by {
            assert(rest[i] == es[i + 1]);
        }
        lemma_flags_persist(after_event(v, es[0]), rest);
    }
}

/// After the window is resized, the next frame recreates the swapchain and
/// rebuilds the framebuffers, pipeline and command buffers, whatever other
/// events come in between.
pub proof fn lemma_resize_rebuilds_next_frame(v: FrameView, between: Seq<LoopEvent>)
    requires
        forall|i: int| 0 <= i < between.len() ==> between[i] != LoopEvent::MainEventsCleared,
    ensures
        event_action(
            after_events(after_event(v, LoopEvent::Resized), between),
            LoopEvent::MainEventsCleared,
        ) == (LoopAction::StartFrame { resize_swapchain: true, rebuild_pipeline: true }),
{
    lemma_flags_persist(after_event(v, LoopEvent::Resized), between);
}

/// An out-of-date swapchain, found when acquiring an image or when submitting
/// a frame, or a suboptimal one, is recreated at the start of the next frame.
pub proof fn lemma_stale_swapchain_recreated(v: FrameView, w: FrameView, between: Seq<LoopEvent>)
    requires
        w.recreate_swapchain,
        forall|i: int| 0 <= i < between.len() ==> between[i] != LoopEvent::MainEventsCleared,
    ensures
        after_acquire(v, AcquireOutcome::OutOfDate).recreate_swapchain,
        forall|image: usize| #[trigger]
            after_acquire(v, AcquireOutcome::Acquired { image, suboptimal: true }).recreate_swapchain,
        forall|image: nat| #[trigger]
            after_flush(v, image, FlushOutcome::OutOfDate).recreate_swapchain,
        event_action(after_events(w, between), LoopEvent::MainEventsCleared) matches LoopAction::StartFrame {
            resize_swapchain,
            rebuild_pipeline,
        } && resize_swapchain,
{
    lemma_flags_persist(w, between);
}

/// Starting a frame clears both pending requests, so a frame whose image is
/// acquired and submitted normally is followed by a frame with no rebuild.
pub proof fn lemma_frame_start_clears_requests(v: FrameView)
    ensures
        !after_event(v, LoopEvent::MainEventsCleared).window_resized,
        !after_event(v, LoopEvent::MainEventsCleared).recreate_swapchain,
        event_action(after_event(v, LoopEvent::MainEventsCleared), LoopEvent::MainEventsCleared)
            == (LoopAction::StartFrame { resize_swapchain: false, rebuild_pipeline: false }),
{
}

/// After a frame is submitted, the next frame chains after its fence exactly
/// when the submission succeeded, and no other slot changes.
pub proof fn lemma_next_frame_waits_on_last_fence(
    v: FrameView,
    image: nat,
    o: FlushOutcome,
    next_image: usize,
    suboptimal: bool,
)
    requires
        image < v.fences.len(),
        image <= usize::MAX,
    ensures
        ({
            let w = after_flush(v, image, o);
            &&& w.fences.len() == v.fences.len()
            &&& forall|k: int| 0 <= k < v.fences.len() && k != image ==> w.fences[k] == v.fences[k]
            &&& acquire_decision(w, AcquireOutcome::Acquired { image: next_image, suboptimal })
                == (FrameDecision::Draw {
                image: next_image,
                wait_for: if o == FlushOutcome::Flushed {
                    Some(image as usize)
                } else {
                    None
                },
            })
        }),
{
}

} // verus!
