//! The window locator: a bounded retry loop over the operating system's
//! query-by-class-name lookup. The embedding program performs each lookup and
//! hands the observed handle back; this module decides whether the search is
//! over, must wait and retry, or has exhausted its budget.

use vstd::prelude::*;
use crate::error::WpError;
use crate::handles::WindowHandle;

verus! {

/// What the locator asks for after seeing one poll result.
#[derive(Clone, Copy, PartialEq, Eq, Structural, Debug)]
pub enum LocateStep {
    /// A valid window was observed: the search is over.
    Found(WindowHandle),
    /// Nothing yet: sleep this many milliseconds, poll again.
    RetryAfter(u64),
    /// The retry budget is exhausted: the window never appeared.
    GiveUp,
}

/// The locator's whole state: its fixed budget and backoff, and how many
/// polls have failed so far.
#[derive(Clone, Copy, PartialEq, Eq, Structural, Debug)]
pub struct Locator {
    pub max_attempts: u32,
    pub retry_delay_ms: u64,
    pub attempts: u32,
}

impl Locator {
    /// The count of failed polls never passes the budget.
    pub open spec fn wf(&self) -> bool {
        self.attempts <= self.max_attempts
    }

    /// A fresh locator that will tolerate `max_attempts` consecutive failed
    /// polls, sleeping `retry_delay_ms` between polls.
    pub fn new(max_attempts: u32, retry_delay_ms: u64) -> (loc: Locator)
        ensures
            loc.max_attempts == max_attempts,
            loc.retry_delay_ms == retry_delay_ms,
            loc.attempts == 0,
            loc.wf(),
    {
        Locator { max_attempts, retry_delay_ms, attempts: 0 }
    }

    /// What one poll result does to the locator, as a value: the successor
    /// state and the step it asks for.
    pub open spec fn spec_on_poll(self, observed: WindowHandle) -> (Locator, LocateStep) {
        if observed.spec_is_valid() {
            (self, LocateStep::Found(observed))
        } else if (self.attempts as u64) + 1 >= self.max_attempts as u64 {
            (Locator { attempts: self.max_attempts, ..self }, LocateStep::GiveUp)
        } else {
            (Locator { attempts: (self.attempts + 1) as u32, ..self }, LocateStep::RetryAfter(self.retry_delay_ms))
        }
    }

    /// Record one poll result. A valid handle ends the search at once; an
    /// invalid one consumes one attempt, and the last attempt's failure gives
    /// the search up.
    pub fn on_poll(&mut self, observed: WindowHandle) -> (step: LocateStep)
        requires
            old(self).wf(),
        ensures
            (*final(self), step) == old(self).spec_on_poll(observed),
            final(self).wf(),
            observed.spec_is_valid() <==> step == LocateStep::Found(observed),
            !observed.spec_is_valid() && old(self).attempts + 1 < old(self).max_attempts
                ==> step == LocateStep::RetryAfter(final(self).retry_delay_ms)
                    && final(self).attempts == old(self).attempts + 1,
            !observed.spec_is_valid() && old(self).attempts + 1 >= old(self).max_attempts
                ==> step is GiveUp,
    {
        if observed.is_valid() {
            LocateStep::Found(observed)
        } else if (self.attempts as u64) + 1 >= self.max_attempts as u64 {
            self.attempts = self.max_attempts;
            LocateStep::GiveUp
        } else {
            self.attempts = self.attempts + 1;
            LocateStep::RetryAfter(self.retry_delay_ms)
        }
    }
}

/// The outcome of a whole search over a given sequence of poll results with a
/// given budget, together with how many polls it consumed. The search looks
/// at polls one by one; a valid handle ends it, and it never looks past
/// `max_attempts` polls.
pub open spec fn locate_spec(polls: Seq<WindowHandle>, max_attempts: nat) -> (Result<
    WindowHandle,
    WpError,
>, nat)
    decreases max_attempts,
{
    if max_attempts == 0 || polls.len() == 0 {
        (Err(WpError::NotFound), 0)
    } else if polls[0].spec_is_valid() {
        (Ok(polls[0]), 1)
    } else {
        let rest = locate_spec(polls.drop_first(), (max_attempts - 1) as nat);
        (rest.0, rest.1 + 1)
    }
}

/// Run the whole search against a pre-recorded sequence of poll results,
/// one entry per lookup the operating system would answer. Returns the
/// outcome and the number of polls consumed.
pub fn locate_from_polls(polls: &Vec<WindowHandle>, max_attempts: u32) -> (r: (Result<
    WindowHandle,
    WpError,
>, u32))
    ensures
        (r.0, r.1 as nat) == locate_spec(polls@, max_attempts as nat),
{
    let mut i: usize = 0;
    proof {
        assert(polls@.skip(0) =~= polls@);
    }
    loop
        invariant
            i <= polls.len(),
            i <= max_attempts,
            locate_spec(polls@, max_attempts as nat)
                == (locate_spec(polls@.skip(i as int), (max_attempts - i) as nat).0,
                    (locate_spec(polls@.skip(i as int), (max_attempts - i) as nat).1 + i) as nat),
            forall|j: int| 0 <= j < i ==> !polls@[j].spec_is_valid(),
        decreases max_attempts - i,
    {
        if i as u64 >= max_attempts as u64 || i >= polls.len() {
            proof {
                assert(locate_spec(polls@.skip(i as int), (max_attempts - i) as nat)
                    == (Err::<WindowHandle, WpError>(WpError::NotFound), 0nat));
            }
            return (Err(WpError::NotFound), i as u32);
        }
        let observed = polls[i];
        proof {
            assert(polls@.skip(i as int)[0] == polls@[i as int]);
        }
        if observed.is_valid() {
            return (Ok(observed), (i + 1) as u32);
        }
        proof {
            assert(polls@.skip(i as int).drop_first() =~= polls@.skip(i + 1));
        }
        i = i + 1;
    }
}

/// The locator terminates: on a sequence of polls that never observes a valid
/// window, the search stops after exactly `max_attempts` polls and reports
/// that the window was not found, provided the sequence covers the budget.
pub proof fn lemma_locator_terminates(polls: Seq<WindowHandle>, max_attempts: nat)
    requires
        polls.len() >= max_attempts,
        forall|i: int| 0 <= i < polls.len() ==> !polls[i].spec_is_valid(),
    ensures
        locate_spec(polls, max_attempts) == (Err::<WindowHandle, WpError>(WpError::NotFound), max_attempts),
    decreases max_attempts,
{
    if max_attempts > 0 {
        lemma_locator_terminates(polls.drop_first(), (max_attempts - 1) as nat);
    }
}

/// The search succeeds exactly when some poll within the budget observes a
/// valid window, and then returns the first such handle, having consumed the
/// polls up to and including it.
pub proof fn lemma_locator_finds_first(polls: Seq<WindowHandle>, max_attempts: nat, i: int)
    requires
        0 <= i < max_attempts,
        i < polls.len(),
        polls[i].spec_is_valid(),
        forall|j: int| 0 <= j < i ==> !polls[j].spec_is_valid(),
    ensures
        locate_spec(polls, max_attempts) == (Ok::<WindowHandle, WpError>(polls[i]), (i + 1) as nat),
    decreases i,
{
    if i > 0 {
        lemma_locator_finds_first(polls.drop_first(), (max_attempts - 1) as nat, i - 1);
    }
}

} // verus!
