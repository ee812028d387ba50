//! The frame-capture protocol: at most one imported frame is live at a time,
//! and the previous one is given up before the next is acquired.
use vstd::prelude::*;

verus! {

/// The bounded wait for the next frame, in milliseconds.
pub const ACQUIRE_TIMEOUT_MS: u32 = 1000;

/// What the capture source answered to a bounded wait for the next frame.
#[derive(Clone, Copy, PartialEq, Eq, Structural, Debug)]
pub enum AcquireOutcome {
    /// No frame came within the wait.
    TimedOut,
    /// A frame was acquired; it holds this many desktop updates.
    Acquired(u32),
    /// The source failed.
    Failed,
}

/// What becomes of one capture attempt once the frame has been asked for.
#[derive(Clone, Copy, PartialEq, Eq, Structural, Debug)]
pub enum CaptureStep {
    /// No new frame: skip this iteration.
    NoFrame,
    /// The failure is passed on to the caller.
    Fail,
    /// Export the acquired frame as a shared handle and import it.
    Import,
}

/// The outside actions that must precede a new acquisition.
#[derive(Clone, Copy, PartialEq, Eq, Structural, Debug)]
pub struct Cleanup {
    /// Close the shared handle of the previous frame.
    pub close_handle: bool,
    /// Release the previous frame back to the capture source.
    pub release_frame: bool,
}

/// A handle on an imported frame, usable while it is live.
#[derive(Clone, Copy, PartialEq, Eq, Structural, Debug)]
pub struct CaptureLease {
    pub id: u64,
}

/// The abstract state of the capturer.
pub struct CaptureState {
    /// A shared handle of the last imported frame is open.
    pub handle_open: bool,
    /// A frame acquired from the source has not been released.
    pub frame_held: bool,
    /// The id of the last lease handed out; 0 before the first.
    pub last_lease: u64,
    pub width: u32,
    pub height: u32,
}

/// Whether `lease` may still be used: it is the last one handed out, and
/// the frame behind it is still imported.
pub open spec fn is_live(s: CaptureState, lease: CaptureLease) -> bool {
    s.handle_open && lease.id == s.last_lease && lease.id > 0
}

/// The state once the previous frame has been given up.
pub open spec fn begin_next(s: CaptureState) -> CaptureState {
    CaptureState { handle_open: false, frame_held: false, ..s }
}

/// The state once the source has answered.
pub open spec fn acquire_next(s: CaptureState, outcome: AcquireOutcome) -> CaptureState {
    match outcome {
        AcquireOutcome::Acquired(_) => CaptureState { frame_held: true, ..s },
        _ => s,
    }
}

/// The state once the acquired frame has been imported.
pub open spec fn import_next(s: CaptureState) -> CaptureState {
    CaptureState { handle_open: true, last_lease: (s.last_lease + 1) as u64, ..s }
}

/// The step that follows the source's answer.
pub open spec fn spec_step(outcome: AcquireOutcome) -> CaptureStep {
    match outcome {
        AcquireOutcome::TimedOut => CaptureStep::NoFrame,
        AcquireOutcome::Failed => CaptureStep::Fail,
        AcquireOutcome::Acquired(n) => if n == 0 {
            CaptureStep::NoFrame
        } else {
            CaptureStep::Import
        },
    }
}

/// The capturer's bookkeeping over one capture source of `width` × `height`
/// pixels.
pub struct Capturer {
    handle_open: bool,
    frame_held: bool,
    last_lease: u64,
    width: u32,
    height: u32,
}

impl View for Capturer {
    type V = CaptureState;

    closed spec fn view(&self) -> CaptureState {
        CaptureState {
            handle_open: self.handle_open,
            frame_held: self.frame_held,
            last_lease: self.last_lease,
            width: self.width,
            height: self.height,
        }
    }
}

impl Capturer {
    /// A capturer over a source of `width` × `height` pixels, holding nothing.
    pub fn new(width: u32, height: u32) -> (r: Self)
        ensures
            r@ == (CaptureState {
                handle_open: false,
                frame_held: false,
                last_lease: 0,
                width,
                height,
            }),
    {
        Capturer { handle_open: false, frame_held: false, last_lease: 0, width, height }
    }

    pub fn width(&self) -> (r: u32)
        ensures
            r == self@.width,
    {
        self.width
    }

    pub fn height(&self) -> (r: u32)
        ensures
            r == self@.height,
    {
        self.height
    }

    /// Starts a capture: the previous frame's shared handle is to be closed
    /// and its frame released, where they are held, before the next frame is
    /// asked for.
    pub fn begin(&mut self) -> (r: Cleanup)
        ensures
            r == (Cleanup { close_handle: old(self)@.handle_open, release_frame: old(self)@.frame_held }),
            final(self)@ == begin_next(old(self)@),
    {
        let r = Cleanup { close_handle: self.handle_open, release_frame: self.frame_held };
        self.handle_open = false;
        self.frame_held = false;
        r
    }

    /// Takes the source's answer to the bounded wait. A timeout, or a frame
    /// with no new desktop updates, means no frame; an acquired frame is held
    /// until the next capture releases it.
    pub fn acquired(&mut self, outcome: AcquireOutcome) -> (r: CaptureStep)
        requires
            !old(self)@.handle_open,
            !old(self)@.frame_held,
        ensures
            r == spec_step(outcome),
            final(self)@ == acquire_next(old(self)@, outcome),
    {
        match outcome {
            AcquireOutcome::TimedOut => CaptureStep::NoFrame,
            AcquireOutcome::Failed => CaptureStep::Fail,
            AcquireOutcome::Acquired(n) => {
                self.frame_held = true;
                if n == 0 {
                    CaptureStep::NoFrame
                } else {
                    CaptureStep::Import
                }
            },
        }
    }

    /// Records that the held frame was imported through a new shared handle,
    /// and hands out the lease on it; `None`, with nothing changed, once
    /// every lease id has been used.
    pub fn imported(&mut self) -> (r: Option<CaptureLease>)
        requires
            old(self)@.frame_held,
            !old(self)@.handle_open,
        ensures
            old(self)@.last_lease < u64::MAX ==> {
                &&& final(self)@ == import_next(old(self)@)
                &&& r == Some(CaptureLease { id: final(self)@.last_lease })
                &&& is_live(final(self)@, r->0)
            },
            old(self)@.last_lease == u64::MAX ==> r is None && final(self)@ == old(self)@,
    {
        if self.last_lease == u64::MAX {
            return None;
        }
        self.handle_open = true;
        self.last_lease = self.last_lease + 1;
        Some(CaptureLease { id: self.last_lease })
    }

    /// Whether `lease` may still be used.
    pub fn is_live(&self, lease: CaptureLease) -> (r: bool)
        ensures
            r == is_live(self@, lease),
    {
        self.handle_open && lease.id == self.last_lease && lease.id > 0
    }
}

/// At most one lease is live: a lease handed out by one capture can no
/// longer be used once the next capture starts, whatever the source answers,
/// and in particular once the next lease is handed out; and no two different
/// leases are ever live together.
pub proof fn lemma_one_live_lease(
    s: CaptureState,
    previous: CaptureLease,
    outcome: AcquireOutcome,
    other: CaptureLease,
)
    requires
        s.last_lease < u64::MAX,
    ensures
        !is_live(begin_next(s), previous),
        !is_live(acquire_next(begin_next(s), outcome), previous),
        previous.id <= s.last_lease ==> !is_live(
            import_next(acquire_next(begin_next(s), outcome)),
            previous,
        ),
        is_live(s, previous) && is_live(s, other) ==> previous == other,
{
}

/// The state after one whole capture: the previous frame given up, the
/// source's answer taken, and the frame imported where the answer calls for
/// it and a lease id is left.
pub open spec fn capture_next(s: CaptureState, outcome: AcquireOutcome) -> CaptureState {
    let acquired = acquire_next(begin_next(s), outcome);
    if spec_step(outcome) == CaptureStep::Import && s.last_lease < u64::MAX {
        import_next(acquired)
    } else {
        acquired
    }
}

/// The state after one capture for each answer of `outcomes`, in order.
pub open spec fn captures(s: CaptureState, outcomes: Seq<AcquireOutcome>) -> CaptureState
    decreases outcomes.len(),
{
    if outcomes.len() == 0 {
        s
    } else {
        capture_next(captures(s, outcomes.drop_last()), outcomes.last())
    }
}

proof fn lemma_captures_keep_lease_dead(s: CaptureState, lease: CaptureLease, outcomes: Seq<
    AcquireOutcome,
>)
    requires
        lease.id <= s.last_lease,
        outcomes.len() >= 1,
    ensures
        lease.id <= captures(s, outcomes).last_lease,
        !is_live(captures(s, outcomes), lease),
    decreases outcomes.len(),
{
    let rest = outcomes.drop_last();
    if outcomes.len() > 1 {
        lemma_captures_keep_lease_dead(s, lease, rest);
    } else {
        assert(captures(s, rest) == s);
    }
    let prev = captures(s, rest);
    assert(captures(s, outcomes) == capture_next(prev, outcomes.last()));
}

/// Over any number of successive captures, whatever the source answers, a
/// lease handed out before them cannot be used once the first of them has
/// started: at most the lease of the latest import is live.
pub proof fn lemma_earlier_leases_stay_dead(
    s: CaptureState,
    lease: CaptureLease,
    outcomes: Seq<AcquireOutcome>,
)
    requires
        lease.id <= s.last_lease,
        outcomes.len() >= 1,
    ensures
        !is_live(captures(s, outcomes), lease),
{
    lemma_captures_keep_lease_dead(s, lease, outcomes);
}

} // verus!
