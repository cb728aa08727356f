//! The decisions of the persistence worker. The worker waits for a change
//! notification, then keeps absorbing notifications until none has arrived
//! for a debounce window, and only then persists the store once. The program
//! around the library performs the waits and the write; this module says what
//! to do next for each thing that happened.

use vstd::prelude::*;

verus! {

/// Length of the debounce window, in milliseconds.
pub const DEBOUNCE_MS: u64 = 200;

#[derive(Clone, Copy, Debug, PartialEq, Eq, Structural)]
pub enum SaverState {
    /// Nothing pending: waiting for a first notification.
    Idle,
    /// A notification arrived: absorbing further ones until the window passes.
    Draining,
    /// The notification channel has closed: the worker is done.
    Stopped,
}

/// What the last wait ended with.
#[derive(Clone, Copy, Debug, PartialEq, Eq, Structural)]
pub enum SaverEvent {
    /// A change notification arrived.
    Signal,
    /// The debounce window passed with no notification.
    TimedOut,
    /// The notification channel is closed.
    Closed,
}

/// What the worker does next.
#[derive(Clone, Copy, Debug, PartialEq, Eq, Structural)]
pub enum SaverAction {
    /// Wait, without limit, for a notification.
    AwaitSignal,
    /// Wait for a notification for at most this many milliseconds.
    AwaitSignalFor(u64),
    /// Clear the dirty flag, snapshot the store and write the snapshot to
    /// the settings file (a failed write is reported and otherwise ignored:
    /// the next notification retries), then wait for a notification.
    Persist,
    /// Leave the loop.
    Stop,
}

pub open spec fn spec_step(s: SaverState, e: SaverEvent) -> (SaverState, SaverAction) {
    match (s, e) {
        (SaverState::Stopped, _) => (SaverState::Stopped, SaverAction::Stop),
        (SaverState::Idle, SaverEvent::Signal) => (
            SaverState::Draining,
            SaverAction::AwaitSignalFor(DEBOUNCE_MS),
        ),
        (SaverState::Idle, SaverEvent::TimedOut) => (SaverState::Idle, SaverAction::AwaitSignal),
        (SaverState::Idle, SaverEvent::Closed) => (SaverState::Stopped, SaverAction::Stop),
        (SaverState::Draining, SaverEvent::Signal) => (
            SaverState::Draining,
            SaverAction::AwaitSignalFor(DEBOUNCE_MS),
        ),
        (SaverState::Draining, _) => (SaverState::Idle, SaverAction::Persist),
    }
}

/// The worker's next state and action after `e`. A closed channel met while
/// draining still persists what was pending; the next wait then stops.
pub fn saver_step(s: SaverState, e: SaverEvent) -> (r: (SaverState, SaverAction))
    ensures
        r == spec_step(s, e),
{
    match (s, e) {
        (SaverState::Stopped, _) => (SaverState::Stopped, SaverAction::Stop),
        (SaverState::Idle, SaverEvent::Signal) => (
            SaverState::Draining,
            SaverAction::AwaitSignalFor(DEBOUNCE_MS),
        ),
        (SaverState::Idle, SaverEvent::TimedOut) => (SaverState::Idle, SaverAction::AwaitSignal),
        (SaverState::Idle, SaverEvent::Closed) => (SaverState::Stopped, SaverAction::Stop),
        (SaverState::Draining, SaverEvent::Signal) => (
            SaverState::Draining,
            SaverAction::AwaitSignalFor(DEBOUNCE_MS),
        ),
        (SaverState::Draining, _) => (SaverState::Idle, SaverAction::Persist),
    }
}

/// The final state, and the number of writes, after a sequence of events.
pub open spec fn run(s: SaverState, events: Seq<SaverEvent>) -> (SaverState, nat)
    decreases events.len(),
{
    if events.len() == 0 {
        (s, 0)
    } else {
        let (s1, a) = spec_step(s, events[0]);
        let (s2, n) = run(s1, events.drop_first());
        (s2, n + if a is Persist {
            1nat
        } else {
            0nat
        })
    }
}

/// One burst: a notification, `k` more within the window of each other, and
/// the window passing.
pub open spec fn burst(k: nat) -> Seq<SaverEvent> {
    seq![SaverEvent::Signal] + Seq::new(k, |i: int| SaverEvent::Signal) + seq![SaverEvent::TimedOut]
}

/// Running two sequences one after the other adds their writes.
pub proof fn lemma_run_concat(s: SaverState, a: Seq<SaverEvent>, b: Seq<SaverEvent>)
    ensures
        run(s, a + b) == (run(run(s, a).0, b).0, run(s, a).1 + run(run(s, a).0, b).1),
    decreases a.len(),
{
    if a.len() == 0 {
        assert(a + b =~= b);
    } else {
        assert((a + b).drop_first() =~= a.drop_first() + b);
        assert((a + b)[0] == a[0]);
        lemma_run_concat(spec_step(s, a[0]).0, a.drop_first(), b);
    }
}

proof fn lemma_run_one(s: SaverState, e: SaverEvent)
    ensures
        run(s, seq![e]) == (spec_step(s, e).0, if spec_step(s, e).1 is Persist {
            1nat
        } else {
            0nat
        }),
{
    let q = seq![e];
    assert(q.drop_first() =~= Seq::<SaverEvent>::empty());
    assert(run(spec_step(s, e).0, q.drop_first()) == (spec_step(s, e).0, 0nat));
}

proof fn lemma_signals_while_draining(k: nat)
    ensures
        run(SaverState::Draining, Seq::new(k, |i: int| SaverEvent::Signal)) == (
            SaverState::Draining,
            0nat,
        ),
    decreases k,
{
    let s = Seq::new(k, |i: int| SaverEvent::Signal);
    if k > 0 {
        assert(s.drop_first() =~= Seq::new((k - 1) as nat, |i: int| SaverEvent::Signal));
        lemma_signals_while_draining((k - 1) as nat);
    }
}

/// However many notifications a burst holds, it leads to exactly one write,
/// and leaves the worker idle.
pub proof fn lemma_burst_persists_once(k: nat)
    ensures
        run(SaverState::Idle, burst(k)) == (SaverState::Idle, 1nat),
{
    let head = seq![SaverEvent::Signal];
    let mid = Seq::new(k, |i: int| SaverEvent::Signal);
    let tail = seq![SaverEvent::TimedOut];
    lemma_run_concat(SaverState::Idle, head + mid, tail);
    lemma_run_concat(SaverState::Idle, head, mid);
    lemma_signals_while_draining(k);
    lemma_run_one(SaverState::Idle, SaverEvent::Signal);
    lemma_run_one(SaverState::Draining, SaverEvent::TimedOut);
    assert(burst(k) == head + mid + tail);
}

/// The bursts of the given sizes, one after the other.
pub open spec fn bursts(sizes: Seq<nat>) -> Seq<SaverEvent>
    decreases sizes.len(),
{
    if sizes.len() == 0 {
        Seq::empty()
    } else {
        bursts(sizes.drop_last()) + burst(sizes.last())
    }
}

/// Bursts separated by quiet windows give one write each.
pub proof fn lemma_bursts_persist_each(sizes: Seq<nat>)
    ensures
        run(SaverState::Idle, bursts(sizes)) == (SaverState::Idle, sizes.len()),
    decreases sizes.len(),
{
    if sizes.len() > 0 {
        lemma_bursts_persist_each(sizes.drop_last());
        lemma_run_concat(SaverState::Idle, bursts(sizes.drop_last()), burst(sizes.last()));
        lemma_burst_persists_once(sizes.last());
    }
}

/// What the worker sees when notifications arrive at the given times (in
/// milliseconds, in order), up to and including the last one: a notification
/// that comes within `window` of the previous one is absorbed, one that
/// comes later finds the window passed first.
pub open spec fn arrivals(times: Seq<int>, window: int) -> Seq<SaverEvent>
    decreases times.len(),
{
    if times.len() <= 1 {
        Seq::new(times.len(), |i: int| SaverEvent::Signal)
    } else {
        let prev = times.drop_last();
        if times.last() - prev.last() <= window {
            arrivals(prev, window) + seq![SaverEvent::Signal]
        } else {
            arrivals(prev, window) + seq![SaverEvent::TimedOut, SaverEvent::Signal]
        }
    }
}

/// The number of gaps between consecutive arrivals longer than `window`.
pub open spec fn long_gaps(times: Seq<int>, window: int) -> nat
    decreases times.len(),
{
    if times.len() <= 1 {
        0
    } else {
        let prev = times.drop_last();
        long_gaps(prev, window) + if times.last() - prev.last() <= window {
            0nat
        } else {
            1nat
        }
    }
}

proof fn lemma_arrivals_drain(times: Seq<int>, window: int)
    requires
        times.len() >= 1,
    ensures
        run(SaverState::Idle, arrivals(times, window)) == (
            SaverState::Draining,
            long_gaps(times, window),
        ),
    decreases times.len(),
{
    if times.len() == 1 {
        assert(arrivals(times, window) =~= seq![SaverEvent::Signal]);
        lemma_run_one(SaverState::Idle, SaverEvent::Signal);
    } else {
        let prev = times.drop_last();
        lemma_arrivals_drain(prev, window);
        if times.last() - prev.last() <= window {
            let t = seq![SaverEvent::Signal];
            lemma_run_concat(SaverState::Idle, arrivals(prev, window), t);
            lemma_run_one(SaverState::Draining, SaverEvent::Signal);
        } else {
            let t = seq![SaverEvent::TimedOut, SaverEvent::Signal];
            lemma_run_concat(SaverState::Idle, arrivals(prev, window), t);
            lemma_run_concat(SaverState::Draining, seq![SaverEvent::TimedOut], seq![SaverEvent::Signal]);
            assert(t =~= seq![SaverEvent::TimedOut] + seq![SaverEvent::Signal]);
            lemma_run_one(SaverState::Draining, SaverEvent::TimedOut);
            lemma_run_one(SaverState::Idle, SaverEvent::Signal);
        }
    }
}

/// Debounce: notifications arriving at `times`, followed by a quiet window,
/// lead to one write plus one for every gap longer than the window. So
/// notifications all within the window of each other give exactly one
/// write, and notifications spaced farther apart than the window give one
/// write each.
pub proof fn lemma_debounce(times: Seq<int>, window: int)
    requires
        times.len() >= 1,
    ensures
        run(SaverState::Idle, arrivals(times, window) + seq![SaverEvent::TimedOut]) == (
            SaverState::Idle,
            1 + long_gaps(times, window),
        ),
        (forall|i: int| 1 <= i < times.len() ==> #[trigger] times[i] - times[i - 1] <= window)
            ==> long_gaps(times, window) == 0,
        (forall|i: int| 1 <= i < times.len() ==> #[trigger] times[i] - times[i - 1] > window)
            ==> 1 + long_gaps(times, window) == times.len(),
{
    let t = seq![SaverEvent::TimedOut];
    lemma_arrivals_drain(times, window);
    lemma_run_concat(SaverState::Idle, arrivals(times, window), t);
    lemma_run_one(SaverState::Draining, SaverEvent::TimedOut);
    lemma_long_gaps_bounds(times, window);
}

proof fn lemma_long_gaps_bounds(times: Seq<int>, window: int)
    requires
        times.len() >= 1,
    ensures
        (forall|i: int| 1 <= i < times.len() ==> #[trigger] times[i] - times[i - 1] <= window)
            ==> long_gaps(times, window) == 0,
        (forall|i: int| 1 <= i < times.len() ==> #[trigger] times[i] - times[i - 1] > window)
            ==> 1 + long_gaps(times, window) == times.len(),
    decreases times.len(),
{
    if times.len() > 1 {
        let prev = times.drop_last();
        lemma_long_gaps_bounds(prev, window);
        assert(times.last() - prev.last() == times[times.len() - 1] - times[times.len() - 2]);
        if forall|i: int| 1 <= i < times.len() ==> #[trigger] times[i] - times[i - 1] <= window {
            assert forall|i: int| 1 <= i < prev.len() implies #[trigger] prev[i] - prev[i - 1] <= window by {
                assert(prev[i] == times[i] && prev[i - 1] == times[i - 1]);
            }
        }
        if forall|i: int| 1 <= i < times.len() ==> #[trigger] times[i] - times[i - 1] > window {
            assert forall|i: int| 1 <= i < prev.len() implies #[trigger] prev[i] - prev[i - 1] > window by {
                assert(prev[i] == times[i] && prev[i - 1] == times[i - 1]);
            }
        }
    }
}

} // verus!
