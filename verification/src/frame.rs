//! The per-frame present loop as a state machine.
//!
//! Drawing one frame waits for the frame slot's fence, acquires a swapchain
//! image, submits that image's command buffer, and presents it. What the GPU
//! and the window system answer decides what happens next: an out-of-date
//! swapchain is rebuilt, a resized window forces a rebuild after presenting,
//! and any other failure aborts. The caller performs each action and feeds the
//! answer back as the next event.
use vstd::prelude::*;

verus! {

/// The number of frames that may be in flight at once; each has its own
/// semaphores and fence.
pub const MAX_FRAMES_IN_FLIGHT: usize = 2;

/// What acquiring the next swapchain image answered.
#[derive(Clone, Copy, Debug, PartialEq, Eq)]
pub enum AcquireOutcome {
    /// The image with this index is ready to be rendered to.
    Acquired(u32),
    /// The swapchain no longer matches the surface.
    OutOfDate,
    /// The swapchain still works but no longer matches the surface exactly.
    Suboptimal,
    /// Any other error.
    Failed,
}

/// What presenting an image answered.
#[derive(Clone, Copy, Debug, PartialEq, Eq)]
pub enum PresentOutcome {
    Presented,
    OutOfDate,
    Suboptimal,
    Failed,
}

/// The answers that drive the frame loop.
#[derive(Clone, Copy, Debug, PartialEq, Eq)]
pub enum FrameEvent {
    /// A new frame is to be drawn.
    Begin,
    /// The frame slot's fence has signalled.
    FenceSignaled,
    /// The answer to acquiring an image.
    ImageAcquired(AcquireOutcome),
    /// The uniform buffer was written, the fence reset and the command buffer submitted.
    Submitted,
    /// The answer to presenting.
    PresentDone(PresentOutcome),
    /// The swapchain and everything built on it was rebuilt; the new swapchain
    /// has this many command buffers, one per image.
    SwapchainRecreated(usize),
}

/// Why a frame aborts.
#[derive(Clone, Copy, Debug, PartialEq, Eq)]
pub enum FrameFailure {
    /// Acquiring an image failed for another reason than an out-of-date swapchain.
    AcquireFailed,
    /// Presenting failed for another reason than an out-of-date or suboptimal swapchain.
    PresentFailed,
    /// The acquired image has no command buffer or no uniform buffer.
    ImageOutOfRange,
    /// The event does not answer the action last asked for.
    UnexpectedEvent,
}

/// What the caller is to do next.
#[derive(Clone, Copy, Debug, PartialEq, Eq)]
pub enum FrameAction {
    /// Wait for the fence of this frame slot.
    WaitForFence { frame: usize },
    /// Acquire the next image, signalling this frame slot's image-available semaphore.
    AcquireImage { frame: usize },
    /// Write the uniform buffer of `image`, reset the fence of `frame`, and
    /// submit the command buffer of `image`, waiting on the image-available
    /// semaphore of `frame` at the color-attachment-output stage, signalling
    /// its render-finished semaphore and its fence.
    Submit { frame: usize, image: u32 },
    /// Present `image`, waiting on the render-finished semaphore of `frame`.
    Present { frame: usize, image: u32 },
    /// Rebuild the swapchain and everything built on it.
    RecreateSwapchain,
    /// The frame is over.
    FrameDone,
    /// Abort.
    Fail(FrameFailure),
}

/// Where the loop stands within a frame.
#[derive(Clone, Copy, Debug, PartialEq, Eq)]
pub enum FramePhase {
    Idle,
    WaitingForFence,
    Acquiring,
    Submitting { image: u32 },
    Presenting { image: u32 },
    /// Rebuilding after an out-of-date acquire; the frame slot stays.
    RecreatingAfterAcquire,
    /// Rebuilding after presenting; the frame slot advances afterwards.
    RecreatingAfterPresent,
    /// A failure was reported; nothing more happens.
    Failed,
}

/// The state of the present loop: the frame slot in use, whether the window
/// was resized since the last rebuild, the phase within the frame, and how
/// many command buffers and uniform buffers there are.
#[derive(Clone, Copy, Debug, PartialEq, Eq)]
pub struct FrameLoop {
    pub current_frame: usize,
    pub is_framebuffer_resized: bool,
    pub phase: FramePhase,
    pub command_buffer_count: usize,
    pub uniform_buffer_count: usize,
}

/// The frame slot after `frame`, wrapping around.
pub open spec fn next_frame(frame: usize) -> usize {
    ((frame + 1) % (MAX_FRAMES_IN_FLIGHT as int)) as usize
}

/// An image index that has both a command buffer and a uniform buffer.
pub open spec fn image_in_range(s: FrameLoop, image: u32) -> bool {
    image < s.command_buffer_count && image < s.uniform_buffer_count
}

impl FrameLoop {
    /// The frame slot is a real slot, and an image being submitted or
    /// presented has its buffers.
    pub open spec fn wf(self) -> bool {
        &&& self.current_frame < MAX_FRAMES_IN_FLIGHT
        &&& match self.phase {
            FramePhase::Submitting { image } => image_in_range(self, image),
            FramePhase::Presenting { image } => image_in_range(self, image),
            _ => true,
        }
    }
}

/// The state `s` with a new phase.
pub open spec fn with_phase(s: FrameLoop, phase: FramePhase) -> FrameLoop {
    FrameLoop { phase, ..s }
}

/// The state `s` after failing with `why`.
pub open spec fn failing(s: FrameLoop, why: FrameFailure) -> (FrameLoop, FrameAction) {
    (with_phase(s, FramePhase::Failed), FrameAction::Fail(why))
}

/// One transition of the present loop: the next state and the action asked for,
/// given the current state and the event that answers the last action.
pub open spec fn frame_transition(s: FrameLoop, e: FrameEvent) -> (FrameLoop, FrameAction) {
    let frame = s.current_frame;
    match s.phase {
        FramePhase::Idle => match e {
            FrameEvent::Begin => (
                with_phase(s, FramePhase::WaitingForFence),
                FrameAction::WaitForFence { frame },
            ),
            _ => failing(s, FrameFailure::UnexpectedEvent),
        },
        FramePhase::WaitingForFence => match e {
            FrameEvent::FenceSignaled => (
                with_phase(s, FramePhase::Acquiring),
                FrameAction::AcquireImage { frame },
            ),
            _ => failing(s, FrameFailure::UnexpectedEvent),
        },
        FramePhase::Acquiring => match e {
            FrameEvent::ImageAcquired(AcquireOutcome::Acquired(image)) => if image_in_range(
                s,
                image,
            ) {
                (
                    with_phase(s, FramePhase::Submitting { image }),
                    FrameAction::Submit { frame, image },
                )
            } else {
                failing(s, FrameFailure::ImageOutOfRange)
            },
            FrameEvent::ImageAcquired(AcquireOutcome::OutOfDate) => (
                with_phase(s, FramePhase::RecreatingAfterAcquire),
                FrameAction::RecreateSwapchain,
            ),
            FrameEvent::ImageAcquired(_) => failing(s, FrameFailure::AcquireFailed),
            _ => failing(s, FrameFailure::UnexpectedEvent),
        },
        FramePhase::Submitting { image } => match e {
            FrameEvent::Submitted => (
                with_phase(s, FramePhase::Presenting { image }),
                FrameAction::Present { frame, image },
            ),
            _ => failing(s, FrameFailure::UnexpectedEvent),
        },
        FramePhase::Presenting { image } => match e {
            FrameEvent::PresentDone(PresentOutcome::Failed) => failing(
                s,
                FrameFailure::PresentFailed,
            ),
            FrameEvent::PresentDone(outcome) => {
                let must_rebuild = match outcome {
                    PresentOutcome::Presented => s.is_framebuffer_resized,
                    _ => true,
                };
                if must_rebuild {
                    (
                        FrameLoop {
                            is_framebuffer_resized: false,
                            phase: FramePhase::RecreatingAfterPresent,
                            ..s
                        },
                        FrameAction::RecreateSwapchain,
                    )
                } else {
                    (
                        FrameLoop {
                            current_frame: next_frame(frame),
                            phase: FramePhase::Idle,
                            ..s
                        },
                        FrameAction::FrameDone,
                    )
                }
            },
            _ => failing(s, FrameFailure::UnexpectedEvent),
        },
        FramePhase::RecreatingAfterAcquire => match e {
            FrameEvent::SwapchainRecreated(count) => (
                FrameLoop { phase: FramePhase::Idle, command_buffer_count: count, ..s },
                FrameAction::FrameDone,
            ),
            _ => failing(s, FrameFailure::UnexpectedEvent),
        },
        FramePhase::RecreatingAfterPresent => match e {
            FrameEvent::SwapchainRecreated(count) => (
                FrameLoop {
                    current_frame: next_frame(frame),
                    phase: FramePhase::Idle,
                    command_buffer_count: count,
                    ..s
                },
                FrameAction::FrameDone,
            ),
            _ => failing(s, FrameFailure::UnexpectedEvent),
        },
        FramePhase::Failed => failing(s, FrameFailure::UnexpectedEvent),
    }
}


/// The states and actions the loop goes through on a run of events, starting
/// from `s`.
pub open spec fn run(s: FrameLoop, events: Seq<FrameEvent>) -> (FrameLoop, Seq<FrameAction>)
    decreases events.len(),
{
    if events.len() == 0 {
        (s, Seq::empty())
    } else {
        let (s1, a) = frame_transition(s, events[0]);
        let (s2, rest) = run(s1, events.drop_first());
        (s2, seq![a] + rest)
    }
}

/// The frame slot reached from `frame` after `k` completed frames.
pub open spec fn advance_frames(frame: usize, k: nat) -> usize
    decreases k,
{
    if k == 0 {
        frame
    } else {
        next_frame(advance_frames(frame, (k - 1) as nat))
    }
}

/// Every transition keeps the loop well formed.
pub proof fn law_transition_keeps_wf(s: FrameLoop, e: FrameEvent)
    requires
        s.wf(),
    ensures
        frame_transition(s, e).0.wf(),
{
}

/// A frame that presents without trouble: starting at rest, not resized, with
/// an acquired image that has its buffers, the loop waits for the slot's
/// fence, acquires, submits and presents that image on that one slot, and
/// comes back to rest on the next slot with nothing else changed.
pub proof fn law_frame_presents_and_advances(s: FrameLoop, image: u32)
    requires
        s.wf(),
        s.phase == FramePhase::Idle,
        !s.is_framebuffer_resized,
        image_in_range(s, image),
    ensures
        run(
            s,
            seq![
                FrameEvent::Begin,
                FrameEvent::FenceSignaled,
                FrameEvent::ImageAcquired(AcquireOutcome::Acquired(image)),
                FrameEvent::Submitted,
                FrameEvent::PresentDone(PresentOutcome::Presented),
            ],
        ) == (
            FrameLoop { current_frame: next_frame(s.current_frame), ..s },
            seq![
                FrameAction::WaitForFence { frame: s.current_frame },
                FrameAction::AcquireImage { frame: s.current_frame },
                FrameAction::Submit { frame: s.current_frame, image },
                FrameAction::Present { frame: s.current_frame, image },
                FrameAction::FrameDone,
            ],
        ),
{
    let events = seq![
        FrameEvent::Begin,
        FrameEvent::FenceSignaled,
        FrameEvent::ImageAcquired(AcquireOutcome::Acquired(image)),
        FrameEvent::Submitted,
        FrameEvent::PresentDone(PresentOutcome::Presented),
    ];
    reveal_with_fuel(run, 6);
    assert(events.drop_first() =~= seq![
        FrameEvent::FenceSignaled,
        FrameEvent::ImageAcquired(AcquireOutcome::Acquired(image)),
        FrameEvent::Submitted,
        FrameEvent::PresentDone(PresentOutcome::Presented),
    ]);
    assert(events.drop_first().drop_first() =~= seq![
        FrameEvent::ImageAcquired(AcquireOutcome::Acquired(image)),
        FrameEvent::Submitted,
        FrameEvent::PresentDone(PresentOutcome::Presented),
    ]);
    assert(events.drop_first().drop_first().drop_first() =~= seq![
        FrameEvent::Submitted,
        FrameEvent::PresentDone(PresentOutcome::Presented),
    ]);
    assert(events.drop_first().drop_first().drop_first().drop_first() =~= seq![
        FrameEvent::PresentDone(PresentOutcome::Presented),
    ]);
    assert(events.drop_first().drop_first().drop_first().drop_first().drop_first() =~= Seq::<
        FrameEvent,
    >::empty());
    let r = run(s, events);
    assert(r.1 =~= seq![
        FrameAction::WaitForFence { frame: s.current_frame },
        FrameAction::AcquireImage { frame: s.current_frame },
        FrameAction::Submit { frame: s.current_frame, image },
        FrameAction::Present { frame: s.current_frame, image },
        FrameAction::FrameDone,
    ]);
}


/// An out-of-date swapchain at acquire: the loop rebuilds the swapchain and
/// ends the frame without submitting or presenting, stays on the same frame
/// slot, and keeps a pending resize for later.
pub proof fn law_out_of_date_acquire_rebuilds_on_same_slot(s: FrameLoop, count: usize)
    requires
        s.wf(),
        s.phase == FramePhase::Idle,
    ensures
        run(
            s,
            seq![
                FrameEvent::Begin,
                FrameEvent::FenceSignaled,
                FrameEvent::ImageAcquired(AcquireOutcome::OutOfDate),
                FrameEvent::SwapchainRecreated(count),
            ],
        ) == (
            FrameLoop { command_buffer_count: count, ..s },
            seq![
                FrameAction::WaitForFence { frame: s.current_frame },
                FrameAction::AcquireImage { frame: s.current_frame },
                FrameAction::RecreateSwapchain,
                FrameAction::FrameDone,
            ],
        ),
{
    let events = seq![
        FrameEvent::Begin,
        FrameEvent::FenceSignaled,
        FrameEvent::ImageAcquired(AcquireOutcome::OutOfDate),
        FrameEvent::SwapchainRecreated(count),
    ];
    reveal_with_fuel(run, 5);
    assert(events.drop_first() =~= seq![
        FrameEvent::FenceSignaled,
        FrameEvent::ImageAcquired(AcquireOutcome::OutOfDate),
        FrameEvent::SwapchainRecreated(count),
    ]);
    assert(events.drop_first().drop_first() =~= seq![
        FrameEvent::ImageAcquired(AcquireOutcome::OutOfDate),
        FrameEvent::SwapchainRecreated(count),
    ]);
    assert(events.drop_first().drop_first().drop_first() =~= seq![
        FrameEvent::SwapchainRecreated(count),
    ]);
    assert(events.drop_first().drop_first().drop_first().drop_first() =~= Seq::<
        FrameEvent,
    >::empty());
    let r = run(s, events);
    assert(r.1 =~= seq![
        FrameAction::WaitForFence { frame: s.current_frame },
        FrameAction::AcquireImage { frame: s.current_frame },
        FrameAction::RecreateSwapchain,
        FrameAction::FrameDone,
    ]);
}

/// A frame whose present reports an out-of-date or suboptimal swapchain, or
/// that follows a window resize: after presenting, the loop rebuilds the
/// swapchain, clears the resize, and comes back to rest on the next frame slot.
pub proof fn law_rebuild_after_present(
    s: FrameLoop,
    image: u32,
    outcome: PresentOutcome,
    count: usize,
)
    requires
        s.wf(),
        s.phase == FramePhase::Idle,
        image_in_range(s, image),
        outcome != PresentOutcome::Failed,
        outcome == PresentOutcome::Presented ==> s.is_framebuffer_resized,
    ensures
        run(
            s,
            seq![
                FrameEvent::Begin,
                FrameEvent::FenceSignaled,
                FrameEvent::ImageAcquired(AcquireOutcome::Acquired(image)),
                FrameEvent::Submitted,
                FrameEvent::PresentDone(outcome),
                FrameEvent::SwapchainRecreated(count),
            ],
        ) == (
            FrameLoop {
                current_frame: next_frame(s.current_frame),
                is_framebuffer_resized: false,
                command_buffer_count: count,
                ..s
            },
            seq![
                FrameAction::WaitForFence { frame: s.current_frame },
                FrameAction::AcquireImage { frame: s.current_frame },
                FrameAction::Submit { frame: s.current_frame, image },
                FrameAction::Present { frame: s.current_frame, image },
                FrameAction::RecreateSwapchain,
                FrameAction::FrameDone,
            ],
        ),
{
    let events = seq![
        FrameEvent::Begin,
        FrameEvent::FenceSignaled,
        FrameEvent::ImageAcquired(AcquireOutcome::Acquired(image)),
        FrameEvent::Submitted,
        FrameEvent::PresentDone(outcome),
        FrameEvent::SwapchainRecreated(count),
    ];
    reveal_with_fuel(run, 7);
    let e1 = events.drop_first();
    let e2 = e1.drop_first();
    let e3 = e2.drop_first();
    let e4 = e3.drop_first();
    let e5 = e4.drop_first();
    let e6 = e5.drop_first();
    assert(e1 =~= seq![
        FrameEvent::FenceSignaled,
        FrameEvent::ImageAcquired(AcquireOutcome::Acquired(image)),
        FrameEvent::Submitted,
        FrameEvent::PresentDone(outcome),
        FrameEvent::SwapchainRecreated(count),
    ]);
    assert(e2 =~= seq![
        FrameEvent::ImageAcquired(AcquireOutcome::Acquired(image)),
        FrameEvent::Submitted,
        FrameEvent::PresentDone(outcome),
        FrameEvent::SwapchainRecreated(count),
    ]);
    assert(e3 =~= seq![
        FrameEvent::Submitted,
        FrameEvent::PresentDone(outcome),
        FrameEvent::SwapchainRecreated(count),
    ]);
    assert(e4 =~= seq![FrameEvent::PresentDone(outcome), FrameEvent::SwapchainRecreated(count)]);
    assert(e5 =~= seq![FrameEvent::SwapchainRecreated(count)]);
    assert(e6 =~= Seq::<FrameEvent>::empty());
    let r = run(s, events);
    assert(r.1 =~= seq![
        FrameAction::WaitForFence { frame: s.current_frame },
        FrameAction::AcquireImage { frame: s.current_frame },
        FrameAction::Submit { frame: s.current_frame, image },
        FrameAction::Present { frame: s.current_frame, image },
        FrameAction::RecreateSwapchain,
        FrameAction::FrameDone,
    ]);
}

/// Once the loop has failed it stays failed: whatever events follow, the
/// state does not change and every action is a failure.
pub proof fn law_failure_is_final(s: FrameLoop, events: Seq<FrameEvent>)
    requires
        s.phase == FramePhase::Failed,
    ensures
        run(s, events).0 == s,
        run(s, events).1.len() == events.len(),
        forall|i: int|
            0 <= i < events.len() ==> #[trigger] run(s, events).1[i] == FrameAction::Fail(
                FrameFailure::UnexpectedEvent,
            ),
    decreases events.len(),
{
    if events.len() > 0 {
        law_failure_is_final(s, events.drop_first());
        let rest = run(s, events.drop_first()).1;
        assert forall|i: int| 0 <= i < events.len() implies #[trigger] run(s, events).1[i]
            == FrameAction::Fail(FrameFailure::UnexpectedEvent) by {
            if i > 0 {
                assert(run(s, events).1[i] == rest[i - 1]);
            }
        }
    }
}

/// Whatever the event, an image the loop asks to submit or present has a
/// command buffer and a uniform buffer, and the frame slot named is a real one.
pub proof fn law_actions_name_existing_objects(s: FrameLoop, e: FrameEvent)
    requires
        s.wf(),
    ensures
        frame_transition(s, e).1 matches FrameAction::Submit { frame, image } ==> frame
            < MAX_FRAMES_IN_FLIGHT && image_in_range(s, image),
        frame_transition(s, e).1 matches FrameAction::Present { frame, image } ==> frame
            < MAX_FRAMES_IN_FLIGHT && image_in_range(s, image),
        frame_transition(s, e).1 matches FrameAction::WaitForFence { frame } ==> frame
            < MAX_FRAMES_IN_FLIGHT,
        frame_transition(s, e).1 matches FrameAction::AcquireImage { frame } ==> frame
            < MAX_FRAMES_IN_FLIGHT,
{
}

/// The frame slots are used in turn: after `k` completed frames the slot is
/// `k` further on, wrapping around, so after as many frames as there are slots
/// the loop is back on the slot it started from.
pub proof fn law_frame_slots_cycle(frame: usize, k: nat)
    requires
        frame < MAX_FRAMES_IN_FLIGHT,
    ensures
        advance_frames(frame, k) == (frame + k) % (MAX_FRAMES_IN_FLIGHT as int),
        advance_frames(frame, MAX_FRAMES_IN_FLIGHT as nat) == frame,
    decreases k,
{
    if k > 0 {
        law_frame_slots_cycle(frame, (k - 1) as nat);
        assert(((frame + (k - 1)) % 2 + 1) % 2 == (frame + k) % 2) by (nonlinear_arith);
    }
    reveal_with_fuel(advance_frames, 3);
}

impl FrameLoop {
    /// A loop at rest on frame slot 0, not resized, with the given numbers of
    /// command buffers and uniform buffers.
    pub fn new(command_buffer_count: usize, uniform_buffer_count: usize) -> (r: FrameLoop)
        ensures
            r == (FrameLoop {
                current_frame: 0,
                is_framebuffer_resized: false,
                phase: FramePhase::Idle,
                command_buffer_count,
                uniform_buffer_count,
            }),
            r.wf(),
    {
        FrameLoop {
            current_frame: 0,
            is_framebuffer_resized: false,
            phase: FramePhase::Idle,
            command_buffer_count,
            uniform_buffer_count,
        }
    }

    /// Records that the window was resized; the swapchain is rebuilt after the
    /// next present.
    pub fn resize_framebuffer(&mut self)
        ensures
            *final(self) == (FrameLoop { is_framebuffer_resized: true, ..*old(self) }),
    {
        self.is_framebuffer_resized = true;
    }

    /// Takes the answer to the last action and returns the next action.
    pub fn step(&mut self, event: FrameEvent) -> (action: FrameAction)
        requires
            old(self).wf(),
        ensures
            (*final(self), action) == frame_transition(*old(self), event),
            final(self).wf(),
    {
        let frame = self.current_frame;
        match self.phase {
            FramePhase::Idle => match event {
                FrameEvent::Begin => {
                    self.phase = FramePhase::WaitingForFence;
                    FrameAction::WaitForFence { frame }
                },
                _ => self.fail(FrameFailure::UnexpectedEvent),
            },
            FramePhase::WaitingForFence => match event {
                FrameEvent::FenceSignaled => {
                    self.phase = FramePhase::Acquiring;
                    FrameAction::AcquireImage { frame }
                },
                _ => self.fail(FrameFailure::UnexpectedEvent),
            },
            FramePhase::Acquiring => match event {
                FrameEvent::ImageAcquired(AcquireOutcome::Acquired(image)) => {
                    if (image as usize) < self.command_buffer_count && (image as usize)
                        < self.uniform_buffer_count {
                        self.phase = FramePhase::Submitting { image };
                        FrameAction::Submit { frame, image }
                    } else {
                        self.fail(FrameFailure::ImageOutOfRange)
                    }
                },
                FrameEvent::ImageAcquired(AcquireOutcome::OutOfDate) => {
                    self.phase = FramePhase::RecreatingAfterAcquire;
                    FrameAction::RecreateSwapchain
                },
                FrameEvent::ImageAcquired(_) => self.fail(FrameFailure::AcquireFailed),
                _ => self.fail(FrameFailure::UnexpectedEvent),
            },
            FramePhase::Submitting { image } => match event {
                FrameEvent::Submitted => {
                    self.phase = FramePhase::Presenting { image };
                    FrameAction::Present { frame, image }
                },
                _ => self.fail(FrameFailure::UnexpectedEvent),
            },
            FramePhase::Presenting { image: _ } => match event {
                FrameEvent::PresentDone(PresentOutcome::Failed) => self.fail(
                    FrameFailure::PresentFailed,
                ),
                FrameEvent::PresentDone(outcome) => {
                    let must_rebuild = match outcome {
                        PresentOutcome::Presented => self.is_framebuffer_resized,
                        _ => true,
                    };
                    if must_rebuild {
                        self.is_framebuffer_resized = false;
                        self.phase = FramePhase::RecreatingAfterPresent;
                        FrameAction::RecreateSwapchain
                    } else {
                        self.current_frame = (frame + 1) % MAX_FRAMES_IN_FLIGHT;
                        self.phase = FramePhase::Idle;
                        FrameAction::FrameDone
                    }
                },
                _ => self.fail(FrameFailure::UnexpectedEvent),
            },
            FramePhase::RecreatingAfterAcquire => match event {
                FrameEvent::SwapchainRecreated(count) => {
                    self.phase = FramePhase::Idle;
                    self.command_buffer_count = count;
                    FrameAction::FrameDone
                },
                _ => self.fail(FrameFailure::UnexpectedEvent),
            },
            FramePhase::RecreatingAfterPresent => match event {
                FrameEvent::SwapchainRecreated(count) => {
                    self.current_frame = (frame + 1) % MAX_FRAMES_IN_FLIGHT;
                    self.phase = FramePhase::Idle;
                    self.command_buffer_count = count;
                    FrameAction::FrameDone
                },
                _ => self.fail(FrameFailure::UnexpectedEvent),
            },
            FramePhase::Failed => self.fail(FrameFailure::UnexpectedEvent),
        }
    }

    fn fail(&mut self, why: FrameFailure) -> (action: FrameAction)
        requires
            old(self).wf(),
        ensures
            (*final(self), action) == failing(*old(self), why),
            final(self).wf(),
    {
        self.phase = FramePhase::Failed;
        FrameAction::Fail(why)
    }
}

} // verus!
