use vstd::prelude::*;

verus! {

/// The delay that follows `current` after one more transient error: twice
/// as long, but never above `ceiling`.
pub open spec fn next_delay(current: nat, ceiling: nat) -> nat {
    if 2 * current <= ceiling {
        2 * current
    } else {
        ceiling
    }
}

/// The delay after `n` consecutive transient errors, starting from `start`.
pub open spec fn delay_after(start: nat, ceiling: nat, n: nat) -> nat
    decreases n,
{
    if n == 0 {
        start
    } else {
        next_delay(delay_after(start, ceiling, (n - 1) as nat), ceiling)
    }
}

/// Capped exponential backoff for one accept loop, in milliseconds.
#[derive(Clone, Copy, Debug)]
pub struct Backoff {
    floor: u64,
    ceiling: u64,
    current: u64,
}

impl Backoff {
    pub closed spec fn floor(&self) -> nat {
        self.floor as nat
    }

    pub closed spec fn ceiling(&self) -> nat {
        self.ceiling as nat
    }

    /// The delay that the next transient error sleeps for.
    pub closed spec fn current(&self) -> nat {
        self.current as nat
    }

    pub open spec fn wf(&self) -> bool {
        self.floor() <= self.current() <= self.ceiling()
    }

    /// A backoff that starts at `floor_ms` and never waits longer than
    /// `ceiling_ms`.
    pub fn new(floor_ms: u64, ceiling_ms: u64) -> (b: Backoff)
        requires
            floor_ms <= ceiling_ms,
        ensures
            b.wf(),
            b.floor() == floor_ms,
            b.ceiling() == ceiling_ms,
            b.current() == floor_ms,
    {
        Backoff { floor: floor_ms, ceiling: ceiling_ms, current: floor_ms }
    }

    pub fn floor_ms(&self) -> (r: u64)
        ensures
            r == self.floor(),
    {
        self.floor
    }

    pub fn ceiling_ms(&self) -> (r: u64)
        ensures
            r == self.ceiling(),
    {
        self.ceiling
    }

    pub fn current_ms(&self) -> (r: u64)
        ensures
            r == self.current(),
    {
        self.current
    }

    /// Records a transient error: returns how long to sleep before the next
    /// accept, and doubles the delay for the error after it, up to the ceiling.
    pub fn on_transient_error(&mut self) -> (sleep_ms: u64)
        requires
            old(self).wf(),
        ensures
            sleep_ms == old(self).current(),
            final(self).wf(),
            final(self).floor() == old(self).floor(),
            final(self).ceiling() == old(self).ceiling(),
            final(self).current() == next_delay(old(self).current(), old(self).ceiling()),
            final(self).current() >= old(self).current(),
    {
        let sleep_ms = self.current;
        if self.current <= self.ceiling / 2 {
            self.current = self.current * 2;
        } else {
            self.current = self.ceiling;
        }
        sleep_ms
    }

    /// Records a successful accept: the next transient error waits the floor
    /// delay again.
    pub fn reset(&mut self)
        requires
            old(self).wf(),
        ensures
            final(self).wf(),
            final(self).floor() == old(self).floor(),
            final(self).ceiling() == old(self).ceiling(),
            final(self).current() == old(self).floor(),
    {
        self.current = self.floor;
    }
}

/// Over consecutive transient errors the delay never shrinks and never
/// exceeds the ceiling: for `i <= j`, the delay after `i` errors is at most
/// the delay after `j` errors, which is at most the ceiling.
pub proof fn lemma_backoff_non_decreasing(start: nat, ceiling: nat, i: nat, j: nat)
    requires
        start <= ceiling,
        i <= j,
    ensures
        delay_after(start, ceiling, i) <= delay_after(start, ceiling, j),
        delay_after(start, ceiling, j) <= ceiling,
    decreases j,
{
    lemma_delay_bounded(start, ceiling, j);
    if i < j {
        lemma_backoff_non_decreasing(start, ceiling, i, (j - 1) as nat);
        lemma_delay_bounded(start, ceiling, (j - 1) as nat);
    }
}

proof fn lemma_delay_bounded(start: nat, ceiling: nat, n: nat)
    requires
        start <= ceiling,
    ensures
        delay_after(start, ceiling, n) <= ceiling,
    decreases n,
{
    if n > 0 {
        lemma_delay_bounded(start, ceiling, (n - 1) as nat);
    }
}

/// The ceiling is reached and then kept: once the delay equals the ceiling,
/// every further transient error keeps it there.
pub proof fn lemma_backoff_stays_at_ceiling(start: nat, ceiling: nat, i: nat, j: nat)
    requires
        start <= ceiling,
        i <= j,
        delay_after(start, ceiling, i) == ceiling,
    ensures
        delay_after(start, ceiling, j) == ceiling,
{
    lemma_backoff_non_decreasing(start, ceiling, i, j);
}

} // verus!
