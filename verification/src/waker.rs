use vstd::prelude::*;

verus! {

/// The wake flag of a parker. In a running program it sits behind a mutex
/// beside a condition variable; every function here is one critical section.
/// A wake sets the flag. The thread that parks looks at it: set, the thread
/// clears it and goes on; clear, the thread must wait on the condition
/// variable and look again when notified.
pub struct Parker {
    woken: bool,
}

impl View for Parker {
    type V = bool;

    closed spec fn view(&self) -> bool {
        self.woken
    }
}

/// The flag after a wake, whatever it was.
pub open spec fn after_wake(woken: bool) -> bool {
    true
}

/// The flag after `wakes` wakes in a row.
pub open spec fn after_wakes(woken: bool, wakes: nat) -> bool
    decreases wakes,
{
    if wakes == 0 {
        woken
    } else {
        after_wake(after_wakes(woken, (wakes - 1) as nat))
    }
}

/// True if a park that finds the flag so goes on without waiting.
pub open spec fn park_resumes(woken: bool) -> bool {
    woken
}

/// The flag after a park has looked at it: clear either way.
pub open spec fn after_park(woken: bool) -> bool {
    false
}

impl Parker {
    pub fn new() -> (parker: Parker)
        ensures
            !parker@,
    {
        Parker { woken: false }
    }

    /// One look at the flag by the thread that parks. `true`: a wake was
    /// pending, it is consumed and the thread goes on. `false`: the thread
    /// must block until notified, then look again.
    pub fn park(&mut self) -> (resumed: bool)
        ensures
            resumed == park_resumes(old(self)@),
            final(self)@ == after_park(old(self)@),
    {
        let resumed = self.woken;
        self.woken = false;
        resumed
    }

    /// Records a wake. The caller then notifies one waiter.
    pub fn unpark(&mut self)
        ensures
            final(self)@ == after_wake(old(self)@),
    {
        self.woken = true;
    }

    /// What a waker does when it is invoked: the same as `unpark`.
    pub fn wake(&mut self)
        ensures
            final(self)@ == after_wake(old(self)@),
    {
        self.unpark();
    }
}

/// A wake that comes before the park is not lost: the park goes on at once,
/// whatever the flag was before the wake.
pub proof fn lemma_wake_before_park(woken: bool)
    ensures
        park_resumes(after_wake(woken)),
{
}

/// Wakes coalesce: any number of wakes before a park, one at least, let
/// exactly one park go on. The park after it waits.
pub proof fn lemma_wakes_coalesce(woken: bool, wakes: nat)
    requires
        wakes >= 1,
    ensures
        after_wakes(woken, wakes) == after_wake(woken),
        park_resumes(after_wakes(woken, wakes)),
        !park_resumes(after_park(after_wakes(woken, wakes))),
{
}

/// Of two parks with no wake between them the second always waits, and so
/// does the first unless a wake was pending before it; a park that waits
/// leaves the flag as it found it.
pub proof fn lemma_double_park_blocks(woken: bool)
    ensures
        !park_resumes(after_park(woken)),
        !woken ==> !park_resumes(woken) && after_park(woken) == woken,
{
}

} // verus!
