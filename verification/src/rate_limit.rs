//! Pacing: handing out the items of a list no faster than a given rate.
//!
//! The clock is the caller's: every poll is told the time in milliseconds,
//! and a poll that comes too early answers how long to wait. After an item
//! was handed out the next one is due one period later, counted from the
//! time of the handing out, so a late poll delays what follows and nothing
//! is handed out in a burst to catch up.

use std::collections::VecDeque;
use vstd::prelude::*;

verus! {

/// The highest rate that a clock of milliseconds can pace.
pub const MAX_PER_SEC: u64 = 1000;

/// The period in milliseconds between two items at `per_sec` items a
/// second, for a rate from 1 to 1000.
pub open spec fn period_of(per_sec: u64) -> u64 {
    1000u64 / per_sec
}

/// A timer that ticks once per period.
pub struct Timer {
    period_ms: u64,
    last_tick_ms: Option<u64>,
}

/// What a timer holds.
pub struct TimerView {
    /// The time between two ticks, one millisecond or more.
    pub period_ms: u64,
    /// The time of the last tick. A timer that has not ticked yet has
    /// none.
    pub last_tick_ms: Option<u64>,
}

impl TimerView {
    /// The time at which the next tick is due: one period after the last
    /// tick. This may lie beyond what the clock can show. A timer that has
    /// not ticked yet has no such time: its first tick is due at once.
    pub open spec fn deadline(self) -> Option<int> {
        match self.last_tick_ms {
            Some(last) => Some(last + self.period_ms),
            None => None,
        }
    }

    /// Whether a tick is due at `now_ms`.
    pub open spec fn due(self, now_ms: u64) -> bool {
        match self.deadline() {
            Some(deadline) => now_ms >= deadline,
            None => true,
        }
    }

    /// The time still to wait at `now_ms`, zero where a tick is due.
    pub open spec fn wait(self, now_ms: u64) -> int {
        match self.deadline() {
            Some(deadline) => if now_ms >= deadline {
                0
            } else {
                deadline - now_ms
            },
            None => 0,
        }
    }

    /// The timer after a poll at `now_ms`: where a tick was due, it ticked
    /// at `now_ms`; else nothing changed.
    pub open spec fn polled(self, now_ms: u64) -> TimerView {
        if self.due(now_ms) {
            TimerView { last_tick_ms: Some(now_ms), ..self }
        } else {
            self
        }
    }
}

impl View for Timer {
    type V = TimerView;

    closed spec fn view(&self) -> TimerView {
        TimerView { period_ms: self.period_ms, last_tick_ms: self.last_tick_ms }
    }
}

/// The answer of a poll.
#[derive(Debug, PartialEq, Eq)]
pub enum Paced<T> {
    /// Nothing is due yet; the next tick is due in `wait_ms` milliseconds.
    Pending { wait_ms: u64 },
    /// A tick was due, and this is what it brings.
    Ready(T),
}

/// Whether `per_sec` is a rate that can be paced: from 1 to 1000 items a
/// second.
pub fn is_rate(per_sec: u64) -> (ok: bool)
    ensures
        ok == (1 <= per_sec <= MAX_PER_SEC),
{
    1 <= per_sec && per_sec <= MAX_PER_SEC
}

/// A timer for `per_sec` ticks a second, whose first tick is due at once.
pub fn limiter(per_sec: u64) -> (timer: Timer)
    requires
        1 <= per_sec <= MAX_PER_SEC,
    ensures
        timer@ == (TimerView { period_ms: period_of(per_sec), last_tick_ms: None }),
        timer@.period_ms >= 1,
{
    assert(1000u64 / per_sec >= 1) by (nonlinear_arith)
        requires
            1 <= per_sec <= 1000,
    ;
    Timer { period_ms: 1000 / per_sec, last_tick_ms: None }
}

impl Timer {
    #[verifier::type_invariant]
    spec fn ticks_apart(self) -> bool {
        self.period_ms >= 1
    }

    /// The time between two ticks, in milliseconds.
    pub fn period_ms(&self) -> (period_ms: u64)
        ensures
            period_ms == self@.period_ms,
            period_ms >= 1,
    {
        proof {
            use_type_invariant(self);
        }
        self.period_ms
    }

    /// Asks at `now_ms` whether a tick is due. If so, the timer ticks and
    /// the next tick is due one period later; if not, the timer is left as
    /// it was and the answer is how long to wait. A wait that the clock
    /// cannot show is answered as the longest wait there is: the tick is
    /// then due after the end of the clock.
    pub fn poll_tick(&mut self, now_ms: u64) -> (tick: Paced<()>)
        ensures
            final(self)@ == old(self)@.polled(now_ms),
            old(self)@.due(now_ms) ==> tick == Paced::Ready(()),
            !old(self)@.due(now_ms) ==> tick == (Paced::<()>::Pending {
                wait_ms: if old(self)@.wait(now_ms) > u64::MAX {
                    u64::MAX
                } else {
                    old(self)@.wait(now_ms) as u64
                },
            }),
    {
        proof {
            use_type_invariant(&*self);
        }
        match self.last_tick_ms {
            Some(last) => {
                let deadline: u128 = last as u128 + self.period_ms as u128;
                if (now_ms as u128) < deadline {
                    let wait = deadline - now_ms as u128;
                    let wait_ms = if wait > u64::MAX as u128 {
                        u64::MAX
                    } else {
                        wait as u64
                    };
                    return Paced::Pending { wait_ms };
                }
            },
            None => {},
        }
        self.last_tick_ms = Some(now_ms);
        Paced::Ready(())
    }
}

/// A list of items that is handed out one item per tick, first item first.
pub struct RateLimitIter<T> {
    queue: VecDeque<T>,
    timer: Timer,
}

/// What a paced list holds.
pub struct RateLimitIterView<T> {
    /// The items not handed out yet, the next one first.
    pub remaining: Seq<T>,
    /// The timer that paces them.
    pub timer: TimerView,
}

impl<T> View for RateLimitIter<T> {
    type V = RateLimitIterView<T>;

    closed spec fn view(&self) -> RateLimitIterView<T> {
        RateLimitIterView { remaining: self.queue@, timer: self.timer@ }
    }
}

/// Paces `items` at `per_sec` items a second. The first item is due at
/// once.
pub fn rate_limit<T>(items: Vec<T>, per_sec: u64) -> (paced: RateLimitIter<T>)
    requires
        1 <= per_sec <= MAX_PER_SEC,
    ensures
        paced@ == (RateLimitIterView {
            remaining: items@,
            timer: TimerView { period_ms: period_of(per_sec), last_tick_ms: None },
        }),
{
    let mut queue: VecDeque<T> = VecDeque::new();
    for item in it: items
        invariant
            queue@ == it.seq().take(it.index() as int),
    {
        proof {
            assert(it.seq().take(it.index() + 1) == it.seq().take(it.index() as int).push(item));
        }
        queue.push_back(item);
    }
    assert(queue@ == items@) by {
        assert(items@.take(items@.len() as int) == items@);
    }
    RateLimitIter { queue, timer: limiter(per_sec) }
}

impl<T> RateLimitIter<T> {
    /// Asks at `now_ms` for the next item. Before the tick is due the
    /// answer is how long to wait, and nothing changes. At the tick the
    /// answer is the next item, or `None` where none is left.
    pub fn poll_next(&mut self, now_ms: u64) -> (item: Paced<Option<T>>)
        ensures
            final(self)@.timer == old(self)@.timer.polled(now_ms),
            !old(self)@.timer.due(now_ms) ==> final(self)@ == old(self)@ && item == (
            Paced::<Option<T>>::Pending {
                wait_ms: if old(self)@.timer.wait(now_ms) > u64::MAX {
                    u64::MAX
                } else {
                    old(self)@.timer.wait(now_ms) as u64
                },
            }),
            old(self)@.timer.due(now_ms) && old(self)@.remaining.len() > 0 ==> item
                == Paced::Ready(Some(old(self)@.remaining[0])) && final(self)@.remaining == old(
                self,
            )@.remaining.skip(1),
            old(self)@.timer.due(now_ms) && old(self)@.remaining.len() == 0 ==> item
                == Paced::<Option<T>>::Ready(None) && final(self)@.remaining == old(
                self,
            )@.remaining,
    {
        match self.timer.poll_tick(now_ms) {
            Paced::Pending { wait_ms } => Paced::Pending { wait_ms },
            Paced::Ready(_) => {
                let item = self.queue.pop_front();
                Paced::Ready(item)
            },
        }
    }

    /// The number of items not handed out yet, as lower and upper bound.
    pub fn size_hint(&self) -> (bounds: (usize, Option<usize>))
        ensures
            bounds.0 == self@.remaining.len(),
            bounds.1 == Some(bounds.0),
    {
        let left = self.queue.len();
        (left, Some(left))
    }
}

/// Two ticks in a row are at least one period apart, at every time the
/// clock can show: after a tick at `first_ms`, no tick is due before one
/// period has passed, however often the timer is polled in between.
pub proof fn lemma_ticks_are_spaced(timer: TimerView, first_ms: u64, second_ms: u64)
    requires
        timer.due(first_ms),
        timer.polled(first_ms).due(second_ms),
    ensures
        second_ms - first_ms >= timer.period_ms,
{
}

/// A poll that comes before the tick is due changes nothing, and where
/// the clock can show the time one wait later, a poll then finds the tick
/// due and no earlier poll does.
pub proof fn lemma_wait_then_due(timer: TimerView, now_ms: u64)
    requires
        !timer.due(now_ms),
    ensures
        timer.polled(now_ms) == timer,
        timer.wait(now_ms) > 0,
        now_ms + timer.wait(now_ms) <= u64::MAX ==> timer.due((now_ms + timer.wait(now_ms)) as u64),
        forall|earlier: u64| now_ms <= earlier < now_ms + timer.wait(now_ms) ==> !timer.due(earlier),
{
}

/// The times at which a timer ticks when it is polled at the times `polls`
/// in turn.
pub open spec fn tick_times(timer: TimerView, polls: Seq<u64>) -> Seq<u64>
    decreases polls.len(),
{
    if polls.len() == 0 {
        Seq::empty()
    } else {
        let later = tick_times(timer.polled(polls[0]), polls.skip(1));
        if timer.due(polls[0]) {
            seq![polls[0]] + later
        } else {
            later
        }
    }
}

/// However a timer is polled, and at whatever times the clock shows, no
/// tick comes before the time it is due, and each tick comes at least one
/// period after the tick before it.
pub proof fn lemma_all_ticks_are_spaced(timer: TimerView, polls: Seq<u64>)
    ensures
        timer.deadline() matches Some(deadline) ==> forall|i: int|
            0 <= i < tick_times(timer, polls).len() ==> #[trigger] tick_times(timer, polls)[i]
                >= deadline,
        forall|i: int|
            0 <= i < tick_times(timer, polls).len() - 1 ==> #[trigger] tick_times(timer, polls)[i
                + 1] - tick_times(timer, polls)[i] >= timer.period_ms,
    decreases polls.len(),
{
    if polls.len() > 0 {
        let after = timer.polled(polls[0]);
        let later = tick_times(after, polls.skip(1));
        lemma_all_ticks_are_spaced(after, polls.skip(1));
        if timer.due(polls[0]) {
            let all = tick_times(timer, polls);
            assert(all == seq![polls[0]] + later);
            assert forall|i: int| 0 <= i < all.len() - 1 implies #[trigger] all[i + 1] - all[i]
                >= timer.period_ms by {
                if i == 0 {
                    assert(all[1] == later[0]);
                } else {
                    assert(all[i] == later[i - 1] && all[i + 1] == later[i - 1 + 1]);
                }
            }
            assert forall|i: int| 0 <= i < all.len() implies (timer.deadline() matches Some(
                deadline,
            ) ==> #[trigger] all[i] >= deadline) by {
                if i > 0 {
                    assert(all[i] == later[i - 1]);
                }
            }
        }
    }
}

/// At four items a second the items of a paced list are handed out a
/// quarter of a second apart or more, however the list is polled.
pub proof fn lemma_four_a_second(polls: Seq<u64>)
    ensures
        period_of(4) == 250,
        forall|i: int|
            0 <= i < tick_times(
                TimerView { period_ms: period_of(4), last_tick_ms: None },
                polls,
            ).len() - 1 ==> #[trigger] tick_times(
                TimerView { period_ms: period_of(4), last_tick_ms: None },
                polls,
            )[i + 1] - tick_times(
                TimerView { period_ms: period_of(4), last_tick_ms: None },
                polls,
            )[i] >= 250,
{
    lemma_all_ticks_are_spaced(TimerView { period_ms: period_of(4), last_tick_ms: None }, polls);
}

} // verus!
