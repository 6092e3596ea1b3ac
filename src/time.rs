use vstd::prelude::*;

verus! {

/// How many counter units pass between the readings `prev` and `curr`,
/// clamped to zero when the counter appears to run backwards.
pub open spec fn tick_delta(prev: i64, curr: i64) -> nat {
    if curr > prev {
        (curr - prev) as nat
    } else {
        0
    }
}

/// A frame clock driven by readings of a monotonic high-resolution counter.
///
/// All times are kept in counter units; `counts_per_second` is the counter's
/// frequency, by which a caller converts to seconds.
pub struct Time {
    /// Counter units that have elapsed over all ticks while running.
    pub game_time: u64,
    /// Counter units between the last two ticks (zero while stopped).
    pub delta_time: u64,
    /// Frequency of the counter, in units per second.
    pub counts_per_second: i64,
    /// The reading taken at the previous tick (or at creation / restart).
    pub prev_time: i64,
    /// Whether the clock is halted.
    pub stopped: bool,
}

/// The clock after one tick with counter reading `curr`.
pub open spec fn ticked(t: Time, curr: i64) -> Time {
    if t.stopped {
        Time { delta_time: 0, ..t }
    } else {
        Time {
            delta_time: tick_delta(t.prev_time, curr) as u64,
            game_time: (t.game_time + tick_delta(t.prev_time, curr)) as u64,
            prev_time: curr,
            ..t
        }
    }
}

/// Whether a tick with reading `curr` keeps the elapsed total within `u64`.
pub open spec fn tick_in_range(t: Time, curr: i64) -> bool {
    t.stopped || t.game_time + tick_delta(t.prev_time, curr) <= u64::MAX
}

impl Time {
    /// A running clock with nothing elapsed, given the counter's frequency
    /// and its current reading.
    pub fn new(counts_per_second: i64, now: i64) -> (r: Time)
        ensures
            r.game_time == 0,
            r.delta_time == 0,
            r.counts_per_second == counts_per_second,
            r.prev_time == now,
            !r.stopped,
    {
        Time { game_time: 0, delta_time: 0, counts_per_second, prev_time: now, stopped: false }
    }

    /// Restarts the clock at counter reading `now`, with nothing elapsed.
    pub fn reset(&mut self, now: i64)
        ensures
            final(self).game_time == 0,
            final(self).delta_time == 0,
            final(self).counts_per_second == old(self).counts_per_second,
            final(self).prev_time == now,
            !final(self).stopped,
    {
        self.game_time = 0;
        self.delta_time = 0;
        self.prev_time = now;
        self.stopped = false;
    }

    /// Resumes a stopped clock at counter reading `now`; the time spent
    /// stopped is not counted. A running clock is left as it is.
    pub fn start(&mut self, now: i64)
        ensures
            old(self).stopped ==> *final(self) == (Time { prev_time: now, stopped: false, ..*old(self) }),
            !old(self).stopped ==> *final(self) == *old(self),
    {
        if self.stopped {
            self.prev_time = now;
            self.stopped = false;
        }
    }

    /// Halts the clock: until `start`, ticks add nothing.
    pub fn stop(&mut self)
        ensures
            *final(self) == (Time { stopped: true, ..*old(self) }),
    {
        self.stopped = true;
    }

    /// Whether `tick(curr)` may be called: the new total fits in `u64`.
    pub fn tick_fits(&self, curr: i64) -> (r: bool)
        ensures
            r == tick_in_range(*self, curr),
    {
        if self.stopped || curr <= self.prev_time {
            true
        } else {
            let d = (curr as i128 - self.prev_time as i128) as u64;
            d <= u64::MAX - self.game_time
        }
    }

    /// Advances the clock to counter reading `curr`: the delta is the
    /// difference to the previous reading, clamped to zero, and is added to
    /// the elapsed total. A stopped clock only reports a zero delta.
    pub fn tick(&mut self, curr: i64)
        requires
            tick_in_range(*old(self), curr),
        ensures
            *final(self) == ticked(*old(self), curr),
            final(self).game_time >= old(self).game_time,
            final(self).game_time == old(self).game_time + final(self).delta_time,
            curr < old(self).prev_time ==> final(self).delta_time == 0,
    {
        if self.stopped {
            self.delta_time = 0;
            return;
        }
        let delta: u64 = if curr > self.prev_time {
            (curr as i128 - self.prev_time as i128) as u64
        } else {
            0
        };
        self.delta_time = delta;
        self.prev_time = curr;
        self.game_time = self.game_time + delta;
    }
}

/// The clock after ticking through `readings` in order.
pub open spec fn ticked_through(t: Time, readings: Seq<i64>) -> Time
    decreases readings.len(),
{
    if readings.len() == 0 {
        t
    } else {
        ticked(ticked_through(t, readings.drop_last()), readings.last())
    }
}

/// The reading that precedes the next tick after `readings`, starting at `first`.
pub open spec fn last_reading(first: i64, readings: Seq<i64>) -> i64 {
    if readings.len() == 0 {
        first
    } else {
        readings.last()
    }
}

/// The sum of the per-tick deltas over `readings`, starting from reading `first`.
pub open spec fn delta_sum(first: i64, readings: Seq<i64>) -> nat
    decreases readings.len(),
{
    if readings.len() == 0 {
        0
    } else {
        delta_sum(first, readings.drop_last()) + tick_delta(
            last_reading(first, readings.drop_last()),
            readings.last(),
        )
    }
}

/// Every reading exceeds the one before it, the first one exceeds `first`.
pub open spec fn strictly_increasing(first: i64, readings: Seq<i64>) -> bool {
    &&& forall|i: int| 0 < i < readings.len() ==> readings[i - 1] < #[trigger] readings[i]
    &&& readings.len() > 0 ==> first < readings[0]
}

/// Ticking a running clock through any readings leaves its previous reading
/// at the last one and adds exactly the sum of the per-tick deltas to the
/// elapsed time, provided that total fits in `u64`.
pub proof fn lemma_ticks_accumulate(t: Time, readings: Seq<i64>)
    requires
        !t.stopped,
        t.game_time + delta_sum(t.prev_time, readings) <= u64::MAX,
    ensures
        ticked_through(t, readings).game_time == t.game_time + delta_sum(t.prev_time, readings),
        ticked_through(t, readings).prev_time == last_reading(t.prev_time, readings),
        !ticked_through(t, readings).stopped,
        readings.len() > 0 ==> ticked_through(t, readings).delta_time == tick_delta(
            last_reading(t.prev_time, readings.drop_last()),
            readings.last(),
        ),
    decreases readings.len(),
{
    if readings.len() > 0 {
        lemma_ticks_accumulate(t, readings.drop_last());
    }
}

/// The elapsed time never decreases: after ticking through a prefix of the
/// readings it is at most what it is after a longer prefix.
pub proof fn lemma_game_time_monotone(t: Time, readings: Seq<i64>, i: int, j: int)
    requires
        !t.stopped,
        t.game_time + delta_sum(t.prev_time, readings) <= u64::MAX,
        0 <= i <= j <= readings.len(),
    ensures
        ticked_through(t, readings.take(i)).game_time <= ticked_through(t, readings.take(j)).game_time,
    decreases j - i,
{
    lemma_delta_sum_prefix(t.prev_time, readings, j);
    if i < j {
        lemma_game_time_monotone(t, readings.take(j), i, j - 1);
        assert(readings.take(j).take(i) =~= readings.take(i));
        assert(readings.take(j).take(j - 1) =~= readings.take(j).drop_last());
        assert(readings.take(j).take(j) =~= readings.take(j));
        lemma_delta_sum_prefix(t.prev_time, readings.take(j), j - 1);
        lemma_ticks_accumulate(t, readings.take(j).drop_last());
        lemma_ticks_accumulate(t, readings.take(j));
    }
}

/// The delta sum over a prefix is at most the sum over the whole.
pub proof fn lemma_delta_sum_prefix(first: i64, readings: Seq<i64>, k: int)
    requires
        0 <= k <= readings.len(),
    ensures
        delta_sum(first, readings.take(k)) <= delta_sum(first, readings),
    decreases readings.len() - k,
{
    if k < readings.len() {
        lemma_delta_sum_prefix(first, readings, k + 1);
        let p = readings.take(k + 1);
        assert(p.drop_last() =~= readings.take(k));
    } else {
        assert(readings.take(k) =~= readings);
    }
}

/// With strictly increasing readings no tick is clamped: the deltas sum to
/// the distance from the starting reading to the last one.
pub proof fn lemma_increasing_delta_sum(first: i64, readings: Seq<i64>)
    requires
        strictly_increasing(first, readings),
    ensures
        delta_sum(first, readings) == last_reading(first, readings) - first,
    decreases readings.len(),
{
    if readings.len() > 0 {
        let init = readings.drop_last();
        assert(strictly_increasing(first, init));
        lemma_increasing_delta_sum(first, init);
        if init.len() > 0 {
            assert(readings[init.len() - 1] < readings[init.len() as int]);
        }
    }
}

/// Ticking a running clock through strictly increasing readings adds to the
/// elapsed time exactly the sum of the per-tick deltas, which is the
/// distance from the starting reading to the last one, and the elapsed time
/// never decreases from one tick to the next.
pub proof fn lemma_frame_clock(t: Time, readings: Seq<i64>)
    requires
        !t.stopped,
        strictly_increasing(t.prev_time, readings),
        t.game_time + delta_sum(t.prev_time, readings) <= u64::MAX,
    ensures
        ticked_through(t, readings).game_time == t.game_time + delta_sum(t.prev_time, readings),
        delta_sum(t.prev_time, readings) == last_reading(t.prev_time, readings) - t.prev_time,
        forall|i: int, j: int|
            0 <= i <= j <= readings.len() ==> #[trigger] ticked_through(t, readings.take(i)).game_time
                <= #[trigger] ticked_through(t, readings.take(j)).game_time,
{
    lemma_ticks_accumulate(t, readings);
    lemma_increasing_delta_sum(t.prev_time, readings);
    assert forall|i: int, j: int| 0 <= i <= j <= readings.len() implies #[trigger] ticked_through(
        t,
        readings.take(i),
    ).game_time <= #[trigger] ticked_through(t, readings.take(j)).game_time by {
        lemma_game_time_monotone(t, readings, i, j);
    }
}

} // verus!
