use texture_mapping::frame::{
    AcquireOutcome, FrameAction, FrameEvent, FrameFailure, FrameLoop, FramePhase, PresentOutcome,
    MAX_FRAMES_IN_FLIGHT,
};

fn drive(s: &mut FrameLoop, events: &[FrameEvent]) -> Vec<FrameAction> {
    events.iter().map(|&e| s.step(e)).collect()
}

fn normal_frame(image: u32) -> Vec<FrameEvent> {
    vec![
        FrameEvent::Begin,
        FrameEvent::FenceSignaled,
        FrameEvent::ImageAcquired(AcquireOutcome::Acquired(image)),
        FrameEvent::Submitted,
        FrameEvent::PresentDone(PresentOutcome::Presented),
    ]
}

#[test]
fn new_loop_is_at_rest_on_slot_zero() {
    let s = FrameLoop::new(3, 3);
    assert_eq!(s.current_frame, 0);
    assert!(!s.is_framebuffer_resized);
    assert_eq!(s.phase, FramePhase::Idle);
    assert_eq!(s.command_buffer_count, 3);
    assert_eq!(s.uniform_buffer_count, 3);
}

#[test]
fn frame_presents_and_advances() {
    let mut s = FrameLoop::new(3, 3);
    let actions = drive(&mut s, &normal_frame(2));
    assert_eq!(
        actions,
        vec![
            FrameAction::WaitForFence { frame: 0 },
            FrameAction::AcquireImage { frame: 0 },
            FrameAction::Submit { frame: 0, image: 2 },
            FrameAction::Present { frame: 0, image: 2 },
            FrameAction::FrameDone,
        ]
    );
    assert_eq!(s.current_frame, 1);
    assert_eq!(s.phase, FramePhase::Idle);
}

#[test]
fn frame_slots_cycle() {
    let mut s = FrameLoop::new(3, 3);
    let mut slots = vec![];
    for k in 0..5u32 {
        slots.push(s.current_frame);
        drive(&mut s, &normal_frame(k % 3));
    }
    assert_eq!(slots, vec![0, 1, 0, 1, 0]);
    assert_eq!(MAX_FRAMES_IN_FLIGHT, 2);
}

#[test]
fn out_of_date_acquire_rebuilds_on_same_slot() {
    let mut s = FrameLoop::new(3, 3);
    drive(&mut s, &normal_frame(0));
    s.resize_framebuffer();
    let actions = drive(
        &mut s,
        &[
            FrameEvent::Begin,
            FrameEvent::FenceSignaled,
            FrameEvent::ImageAcquired(AcquireOutcome::OutOfDate),
            FrameEvent::SwapchainRecreated(4),
        ],
    );
    assert_eq!(
        actions,
        vec![
            FrameAction::WaitForFence { frame: 1 },
            FrameAction::AcquireImage { frame: 1 },
            FrameAction::RecreateSwapchain,
            FrameAction::FrameDone,
        ]
    );
    assert_eq!(s.current_frame, 1);
    assert!(s.is_framebuffer_resized);
    assert_eq!(s.command_buffer_count, 4);
}

#[test]
fn resize_rebuilds_after_present() {
    let mut s = FrameLoop::new(3, 3);
    s.resize_framebuffer();
    assert!(s.is_framebuffer_resized);
    let mut events = normal_frame(1);
    events.push(FrameEvent::SwapchainRecreated(3));
    let actions = drive(&mut s, &events);
    assert_eq!(
        actions,
        vec![
            FrameAction::WaitForFence { frame: 0 },
            FrameAction::AcquireImage { frame: 0 },
            FrameAction::Submit { frame: 0, image: 1 },
            FrameAction::Present { frame: 0, image: 1 },
            FrameAction::RecreateSwapchain,
            FrameAction::FrameDone,
        ]
    );
    assert!(!s.is_framebuffer_resized);
    assert_eq!(s.current_frame, 1);
}

#[test]
fn suboptimal_or_out_of_date_present_rebuilds() {
    for outcome in [PresentOutcome::Suboptimal, PresentOutcome::OutOfDate] {
        let mut s = FrameLoop::new(2, 2);
        let actions = drive(
            &mut s,
            &[
                FrameEvent::Begin,
                FrameEvent::FenceSignaled,
                FrameEvent::ImageAcquired(AcquireOutcome::Acquired(0)),
                FrameEvent::Submitted,
                FrameEvent::PresentDone(outcome),
            ],
        );
        assert_eq!(actions[4], FrameAction::RecreateSwapchain);
        assert_eq!(s.step(FrameEvent::SwapchainRecreated(2)), FrameAction::FrameDone);
        assert_eq!(s.current_frame, 1);
    }
}

#[test]
fn suboptimal_acquire_fails() {
    let mut s = FrameLoop::new(2, 2);
    let actions = drive(
        &mut s,
        &[FrameEvent::Begin, FrameEvent::FenceSignaled, FrameEvent::ImageAcquired(AcquireOutcome::Suboptimal)],
    );
    assert_eq!(actions[2], FrameAction::Fail(FrameFailure::AcquireFailed));
    assert_eq!(s.phase, FramePhase::Failed);
}

#[test]
fn failed_acquire_fails() {
    let mut s = FrameLoop::new(2, 2);
    let actions = drive(
        &mut s,
        &[FrameEvent::Begin, FrameEvent::FenceSignaled, FrameEvent::ImageAcquired(AcquireOutcome::Failed)],
    );
    assert_eq!(actions[2], FrameAction::Fail(FrameFailure::AcquireFailed));
}

#[test]
fn failed_present_fails() {
    let mut s = FrameLoop::new(2, 2);
    let actions = drive(
        &mut s,
        &[
            FrameEvent::Begin,
            FrameEvent::FenceSignaled,
            FrameEvent::ImageAcquired(AcquireOutcome::Acquired(1)),
            FrameEvent::Submitted,
            FrameEvent::PresentDone(PresentOutcome::Failed),
        ],
    );
    assert_eq!(actions[4], FrameAction::Fail(FrameFailure::PresentFailed));
}

#[test]
fn image_without_buffers_fails() {
    let mut s = FrameLoop::new(3, 2);
    let actions = drive(
        &mut s,
        &[FrameEvent::Begin, FrameEvent::FenceSignaled, FrameEvent::ImageAcquired(AcquireOutcome::Acquired(2))],
    );
    assert_eq!(actions[2], FrameAction::Fail(FrameFailure::ImageOutOfRange));
}

#[test]
fn unexpected_event_fails_and_failure_is_final() {
    let mut s = FrameLoop::new(2, 2);
    assert_eq!(s.step(FrameEvent::Submitted), FrameAction::Fail(FrameFailure::UnexpectedEvent));
    let before = s;
    for e in normal_frame(0) {
        assert_eq!(s.step(e), FrameAction::Fail(FrameFailure::UnexpectedEvent));
    }
    assert_eq!(s, before);
}
