use sands::frame_loop::{
    AcquireOutcome, FlushOutcome, FrameDecision, FrameLoop, LoopAction, LoopEvent,
};

fn start(resize: bool, rebuild: bool) -> LoopAction {
    LoopAction::StartFrame { resize_swapchain: resize, rebuild_pipeline: rebuild }
}

#[test]
fn close_request_exits() {
    let mut frames = FrameLoop::new(3);
    assert_eq!(frames.on_event(LoopEvent::CloseRequested), LoopAction::Exit);
    assert_eq!(frames.on_event(LoopEvent::Other), LoopAction::Continue);
}

#[test]
fn first_frame_needs_no_rebuild() {
    let mut frames = FrameLoop::new(2);
    assert_eq!(frames.slot_count(), 2);
    assert_eq!(frames.on_event(LoopEvent::MainEventsCleared), start(false, false));
}

#[test]
fn resize_rebuilds_next_frame_only() {
    let mut frames = FrameLoop::new(2);
    assert_eq!(frames.on_event(LoopEvent::Resized), LoopAction::Continue);
    assert_eq!(frames.on_event(LoopEvent::Other), LoopAction::Continue);
    assert_eq!(frames.on_event(LoopEvent::Resized), LoopAction::Continue);
    assert_eq!(frames.on_event(LoopEvent::MainEventsCleared), start(true, true));
    assert_eq!(frames.on_event(LoopEvent::MainEventsCleared), start(false, false));
}

#[test]
fn out_of_date_image_recreates_swapchain() {
    let mut frames = FrameLoop::new(2);
    assert_eq!(frames.on_event(LoopEvent::MainEventsCleared), start(false, false));
    assert_eq!(frames.on_acquire(AcquireOutcome::OutOfDate), FrameDecision::Skip);
    assert_eq!(frames.on_event(LoopEvent::Other), LoopAction::Continue);
    assert_eq!(frames.on_event(LoopEvent::MainEventsCleared), start(true, false));
}

#[test]
fn suboptimal_image_is_drawn_then_swapchain_recreated() {
    let mut frames = FrameLoop::new(2);
    frames.on_event(LoopEvent::MainEventsCleared);
    assert_eq!(
        frames.on_acquire(AcquireOutcome::Acquired { image: 1, suboptimal: true }),
        FrameDecision::Draw { image: 1, wait_for: None }
    );
    frames.on_flush(1, FlushOutcome::Flushed);
    assert_eq!(frames.on_event(LoopEvent::MainEventsCleared), start(true, false));
}

#[test]
fn next_frame_waits_on_last_submitted_fence() {
    let mut frames = FrameLoop::new(3);
    frames.on_event(LoopEvent::MainEventsCleared);
    assert_eq!(
        frames.on_acquire(AcquireOutcome::Acquired { image: 2, suboptimal: false }),
        FrameDecision::Draw { image: 2, wait_for: None }
    );
    frames.on_flush(2, FlushOutcome::Flushed);
    assert_eq!(frames.on_event(LoopEvent::MainEventsCleared), start(false, false));
    assert_eq!(
        frames.on_acquire(AcquireOutcome::Acquired { image: 0, suboptimal: false }),
        FrameDecision::Draw { image: 0, wait_for: Some(2) }
    );
    frames.on_flush(0, FlushOutcome::Failed);
    frames.on_event(LoopEvent::MainEventsCleared);
    assert_eq!(
        frames.on_acquire(AcquireOutcome::Acquired { image: 1, suboptimal: false }),
        FrameDecision::Draw { image: 1, wait_for: None }
    );
}

#[test]
fn out_of_date_flush_drops_fence_and_recreates() {
    let mut frames = FrameLoop::new(2);
    frames.on_event(LoopEvent::MainEventsCleared);
    frames.on_acquire(AcquireOutcome::Acquired { image: 0, suboptimal: false });
    frames.on_flush(0, FlushOutcome::Flushed);
    frames.on_event(LoopEvent::MainEventsCleared);
    assert_eq!(
        frames.on_acquire(AcquireOutcome::Acquired { image: 1, suboptimal: false }),
        FrameDecision::Draw { image: 1, wait_for: Some(0) }
    );
    frames.on_flush(1, FlushOutcome::OutOfDate);
    assert_eq!(frames.on_event(LoopEvent::MainEventsCleared), start(true, false));
    assert_eq!(
        frames.on_acquire(AcquireOutcome::Acquired { image: 0, suboptimal: false }),
        FrameDecision::Draw { image: 0, wait_for: None }
    );
}
