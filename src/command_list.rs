use vstd::prelude::*;
use vstd::arithmetic::div_mod::{lemma_fundamental_div_mod, lemma_fundamental_div_mod_converse};

verus! {

/// `n / d` rounded up: the number of groups of `d` items that cover `n` items.
pub open spec fn ceil_div(n: int, d: int) -> int {
    (n + d - 1) / d
}

/// Number of groups of `d` items needed to cover `n` items.
pub fn div_round_up(n: u32, d: u32) -> (r: u32)
    requires
        d > 0,
    ensures
        r as int == ceil_div(n as int, d as int),
{
    let q = n / d;
    let m = n % d;
    proof {
        lemma_fundamental_div_mod(n as int, d as int);
        let (ni, di, qi, mi) = (n as int, d as int, q as int, m as int);
        assert(ni == qi * di + mi) by (nonlinear_arith)
            requires ni == di * qi + mi;
        if m == 0 {
            lemma_fundamental_div_mod_converse(ni + di - 1, di, qi, di - 1);
        } else {
            assert(ni + di - 1 == (qi + 1) * di + (mi - 1)) by (nonlinear_arith)
                requires ni == qi * di + mi;
            lemma_fundamental_div_mod_converse(ni + di - 1, di, qi + 1, mi - 1);
            assert(qi < u32::MAX) by (nonlinear_arith)
                requires ni == qi * di + mi, di >= 1, ni <= u32::MAX, mi > 0, qi >= 0;
        }
    }
    if m == 0 {
        q
    } else {
        q + 1
    }
}

/// Where a command list stands between the CPU and the GPU.
#[derive(Clone, Copy, PartialEq, Eq, Structural, Debug)]
pub enum Phase {
    /// Closed, with no recorded work that the GPU may still read.
    Idle,
    /// Open for recording.
    Recording,
    /// Closed and handed to the queue.
    Submitted,
    /// The fence value given was signalled on the queue and the GPU has not
    /// yet been seen to reach it.
    Waiting(u64),
}

/// What the caller of a fence wait must do next.
#[derive(Clone, Copy, PartialEq, Eq, Structural, Debug)]
pub enum WaitStep {
    /// The GPU has reached the signalled value: the wait is over.
    Done,
    /// Block until the GPU reaches this value, then report its completed
    /// value again.
    Block(u64),
}

/// The abstract state of a command list: its phase, and the value that the
/// next wait signals.
pub struct FenceState {
    pub phase: Phase,
    pub fence_value: u64,
}

/// The state after a wait signals its value on the queue.
pub open spec fn signal_next(s: FenceState) -> FenceState {
    FenceState { phase: Phase::Waiting(s.fence_value), fence_value: (s.fence_value + 1) as u64 }
}

/// The state after the GPU reports `completed` to a waiting list.
pub open spec fn observe_next(s: FenceState, completed: u64) -> FenceState {
    match s.phase {
        Phase::Waiting(v) => if completed < v {
            s
        } else {
            FenceState { phase: Phase::Idle, ..s }
        },
        _ => s,
    }
}

/// The synchronisation state of one command list and its fence: one queue,
/// one frame in flight.
pub struct CommandList {
    phase: Phase,
    fence_value: u64,
}

impl View for CommandList {
    type V = FenceState;

    closed spec fn view(&self) -> FenceState {
        FenceState { phase: self.phase, fence_value: self.fence_value }
    }
}

impl CommandList {
    /// A closed list whose fence will first be signalled with 1.
    pub fn new() -> (r: Self)
        ensures
            r@ == (FenceState { phase: Phase::Idle, fence_value: 1 }),
    {
        CommandList { phase: Phase::Idle, fence_value: 1 }
    }

    pub fn phase(&self) -> (r: Phase)
        ensures
            r == self@.phase,
    {
        self.phase
    }

    /// The value that the next wait signals.
    pub fn fence_value(&self) -> (r: u64)
        ensures
            r == self@.fence_value,
    {
        self.fence_value
    }

    /// Opens the list for recording; only once any earlier submission has
    /// been waited for, since the allocator is reused.
    pub fn reset(&mut self)
        requires
            old(self)@.phase == Phase::Idle,
        ensures
            final(self)@ == (FenceState { phase: Phase::Recording, ..old(self)@ }),
    {
        self.phase = Phase::Recording;
    }

    /// Closes the list and hands it to the queue.
    pub fn execute(&mut self)
        requires
            old(self)@.phase == Phase::Recording,
        ensures
            final(self)@ == (FenceState { phase: Phase::Submitted, ..old(self)@ }),
    {
        self.phase = Phase::Submitted;
    }

    /// The first half of a wait: the value to signal on the queue. The fence
    /// counter moves on by one.
    pub fn signal(&mut self) -> (r: u64)
        requires
            old(self)@.phase is Idle || old(self)@.phase is Submitted,
            old(self)@.fence_value < u64::MAX,
        ensures
            r == old(self)@.fence_value,
            final(self)@ == signal_next(old(self)@),
    {
        let v = self.fence_value;
        self.fence_value = self.fence_value + 1;
        self.phase = Phase::Waiting(v);
        v
    }

    /// The second half of a wait, given the GPU's completed fence value: the
    /// wait ends only once that value has reached the signalled one, and the
    /// caller blocks otherwise.
    pub fn observe(&mut self, completed: u64) -> (r: WaitStep)
        requires
            old(self)@.phase is Waiting,
        ensures
            final(self)@ == observe_next(old(self)@, completed),
            r == (if completed < old(self)@.phase->Waiting_0 {
                WaitStep::Block(old(self)@.phase->Waiting_0)
            } else {
                WaitStep::Done
            }),
    {
        match self.phase {
            Phase::Waiting(v) => {
                if completed < v {
                    WaitStep::Block(v)
                } else {
                    self.phase = Phase::Idle;
                    WaitStep::Done
                }
            },
            _ => WaitStep::Done,
        }
    }
}

/// A wait never ends before the GPU's completed value reaches the value just
/// signalled: a report leaves a waiting list idle only if it reached that
/// value, and a smaller report leaves the list as it was.
pub proof fn lemma_wait_ends_only_after_fence(s: FenceState, completed: u64)
    requires
        s.phase is Waiting,
    ensures
        observe_next(s, completed).phase is Idle ==> completed >= s.phase->Waiting_0,
        completed < s.phase->Waiting_0 ==> observe_next(s, completed) == s,
{
}

/// Two waits in a row with no submission between them are safe: the state
/// that one finished wait leaves may signal again, with the next greater
/// value, and a GPU that has already reached it ends the second wait at once.
pub proof fn lemma_wait_twice(s: FenceState, first_completed: u64, second_completed: u64)
    requires
        s.phase is Idle || s.phase is Submitted,
        s.fence_value < u64::MAX - 1,
        first_completed >= s.fence_value,
        second_completed >= s.fence_value + 1,
    ensures
        ({
            let after_first = observe_next(signal_next(s), first_completed);
            let second = signal_next(after_first);
            &&& after_first.phase is Idle
            &&& second.phase == Phase::Waiting((s.fence_value + 1) as u64)
            &&& observe_next(second, second_completed).phase is Idle
            &&& observe_next(second, second_completed).fence_value == s.fence_value + 2
        }),
{
}

} // verus!
