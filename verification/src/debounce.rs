//! The change watcher's coalescing policy.
//!
//! The watcher thread receives one raw filesystem event after another and
//! must forward at most one change signal per burst of edits. The policy
//! is decided here, on plain timestamps: a signal is emitted for the
//! first event, and then for any event that arrives more than the
//! debounce window after the one before it. Within a burst — consecutive
//! events no further apart than the window — only the first event emits,
//! so a rapid edit collapses to exactly one signal, while events can
//! never produce more signals than there are events.

use vstd::prelude::*;

verus! {

/// Whether an event at time `now` emits a signal, given the time of the
/// previously observed event, if any.
pub open spec fn emits(last: Option<int>, now: int, window: int) -> bool {
    match last {
        Option::None => true,
        Option::Some(l) => now - l > window,
    }
}

/// How many signals a nondecreasing sequence of event times produces
/// under the window `window`: one for the first event and one per gap
/// wider than the window.
pub open spec fn signal_count(times: Seq<int>, window: int) -> nat
    decreases times.len(),
{
    if times.len() == 0 {
        0
    } else if times.len() == 1 {
        1
    } else {
        signal_count(times.drop_last(), window)
            + if times[times.len() - 1] - times[times.len() - 2] > window { 1nat } else { 0nat }
    }
}

/// The watcher thread's debouncer. Events are fed to [`Debouncer::observe`]
/// in the order they arrive, with a nondecreasing clock.
pub struct Debouncer {
    window: u64,
    last: Option<u64>,
}

impl Debouncer {
    /// The debounce window this debouncer was made with.
    pub closed spec fn spec_window(&self) -> int {
        self.window as int
    }

    /// The time of the last observed event, if any.
    pub closed spec fn spec_last(&self) -> Option<int> {
        match self.last {
            Option::None => Option::None,
            Option::Some(l) => Option::Some(l as int),
        }
    }

    /// A debouncer with the given window that has seen no event yet.
    pub fn new(window: u64) -> (d: Debouncer)
        ensures
            d.spec_window() == window as int,
            d.spec_last() is None,
    {
        Debouncer { window, last: None }
    }

    /// Observes one filesystem event at time `now` and says whether to
    /// forward a change signal for it.
    pub fn observe(&mut self, now: u64) -> (emit: bool)
        requires
            old(self).spec_last() matches Some(l) ==> l <= now as int,
        ensures
            emit == emits(old(self).spec_last(), now as int, old(self).spec_window()),
            final(self).spec_window() == old(self).spec_window(),
            final(self).spec_last() == Some(now as int),
    {
        let emit = match self.last {
            None => true,
            Some(l) => now - l > self.window,
        };
        self.last = Some(now);
        emit
    }
}

/// Feeds every time in `times` to a fresh debouncer and counts the
/// emitted signals: exactly [`signal_count`] of them.
pub fn count_signals(times: &Vec<u64>, window: u64) -> (n: usize)
    requires
        forall|i: int, j: int| 0 <= i <= j < times@.len() ==> times@[i] <= times@[j],
    ensures
        n == signal_count(times@.map_values(|t: u64| t as int), window as int),
{
    let ghost all: Seq<int> = times@.map_values(|t: u64| t as int);
    let mut d = Debouncer::new(window);
    let mut n: usize = 0;
    for i in 0..times.len()
        invariant
            all == times@.map_values(|t: u64| t as int),
            forall|a: int, b: int| 0 <= a <= b < times@.len() ==> times@[a] <= times@[b],
            n == signal_count(all.take(i as int), window as int),
            n <= i,
            d.spec_window() == window as int,
            d.spec_last() == (if i == 0 {
                Option::<int>::None
            } else {
                Option::Some(all[i as int - 1])
            }),
    {
        let emit = d.observe(times[i]);
        if emit {
            n = n + 1;
        }
        proof {
            assert(all.take(i as int + 1).drop_last() =~= all.take(i as int));
        }
    }
    proof {
        assert(all.take(times@.len() as int) =~= all);
    }
    n
}

/// Never more signals than events.
pub proof fn lemma_at_most_one_signal_per_event(times: Seq<int>, window: int)
    ensures
        signal_count(times, window) <= times.len(),
    decreases times.len(),
{
    if times.len() > 1 {
        lemma_at_most_one_signal_per_event(times.drop_last(), window);
    }
}

/// At least one signal for a nonempty run of events: a change is never
/// swallowed entirely.
pub proof fn lemma_at_least_one_signal(times: Seq<int>, window: int)
    requires
        times.len() > 0,
    ensures
        signal_count(times, window) >= 1,
    decreases times.len(),
{
    if times.len() > 1 {
        lemma_at_least_one_signal(times.drop_last(), window);
    }
}

/// A burst collapses to one signal: when consecutive events are never
/// further apart than the window — as with N rapid edits inside one
/// window — exactly one signal is produced.
pub proof fn lemma_burst_single_signal(times: Seq<int>, window: int)
    requires
        times.len() > 0,
        forall|i: int| 0 < i < times.len() ==> #[trigger] times[i] - times[i - 1] <= window,
    ensures
        signal_count(times, window) == 1,
    decreases times.len(),
{
    if times.len() > 1 {
        lemma_burst_single_signal(times.drop_last(), window);
    }
}

} // verus!
