//! The sliding window of timestamped angle samples and the velocity it yields.
//!
//! Times are integer nanoseconds on the caller's monotonic clock, angles are
//! in units of 1/512 degree, and velocities are in angle units per second.

use std::collections::VecDeque;
use vstd::arithmetic::div_mod::lemma_div_is_ordered;
use vstd::arithmetic::div_mod::lemma_div_multiples_vanish;
use vstd::arithmetic::div_mod::lemma_fundamental_div_mod;
use vstd::arithmetic::div_mod::lemma_fundamental_div_mod_converse;
use vstd::prelude::*;

verus! {

/// The most samples a window holds.
pub const WINDOW_CAPACITY: usize = 50;

/// Nanoseconds in one second: the scale between timestamps and velocities.
pub const NANOS_PER_SECOND: u64 = 1_000_000_000;

/// One observation: the angle read at a time.
#[derive(Clone, Copy, Debug, PartialEq, Eq, Structural)]
pub struct Sample {
    pub timestamp_ns: u64,
    pub angle: i32,
}

/// The window after the eviction that makes room: a window at capacity loses
/// its oldest sample, any other is left as it is.
pub open spec fn evicted(samples: Seq<Sample>) -> Seq<Sample> {
    if samples.len() >= WINDOW_CAPACITY {
        samples.drop_first()
    } else {
        samples
    }
}

/// The window after an insertion: room is made, then the sample is appended
/// as the newest.
pub open spec fn pushed(samples: Seq<Sample>, sample: Sample) -> Seq<Sample> {
    evicted(samples).push(sample)
}

/// Timestamps never go back from one sample to the next.
pub open spec fn time_ordered(samples: Seq<Sample>) -> bool {
    forall|i: int, j: int|
        0 <= i <= j < samples.len() ==> samples[i].timestamp_ns <= samples[j].timestamp_ns
}

/// The change of angle per second from `earlier` to `later`, rounded down to
/// a whole number of angle units. Meaningful when `later` is the later one.
pub open spec fn pair_velocity(earlier: Sample, later: Sample) -> int
    recommends
        earlier.timestamp_ns < later.timestamp_ns,
{
    ((later.angle - earlier.angle) * 1_000_000_000) / (later.timestamp_ns
        - earlier.timestamp_ns)
}

/// The sum of the velocities of the first `pairs` adjacent pairs.
pub open spec fn velocity_sum(samples: Seq<Sample>, pairs: nat) -> int
    recommends
        pairs < samples.len(),
    decreases pairs,
{
    if pairs == 0 {
        0
    } else {
        velocity_sum(samples, (pairs - 1) as nat) + pair_velocity(
            samples[pairs - 1],
            samples[pairs as int],
        )
    }
}

/// Time moves forward from each sample to the next.
pub open spec fn strictly_timed(samples: Seq<Sample>) -> bool {
    forall|i: int|
        0 <= i < samples.len() - 1 ==> samples[i].timestamp_ns < (#[trigger] samples[i
            + 1]).timestamp_ns
}

/// A velocity can be taken from the samples: there are at least two, and time
/// moves forward between any two neighbours.
pub open spec fn velocity_defined(samples: Seq<Sample>) -> bool {
    samples.len() >= 2 && strictly_timed(samples)
}

/// The mean of the velocities of all adjacent pairs, oldest to newest, rounded
/// down to a whole number of angle units per second.
pub open spec fn mean_velocity(samples: Seq<Sample>) -> int
    recommends
        velocity_defined(samples),
{
    velocity_sum(samples, (samples.len() - 1) as nat) / (samples.len() - 1)
}

/// The largest magnitude a velocity can have: the widest swing of an `i32`
/// angle within one nanosecond.
pub const VELOCITY_LIMIT: i64 = 4_294_967_295_000_000_000;

/// Division rounding down, for a positive divisor.
fn floor_div(n: i128, d: i128) -> (q: i128)
    requires
        d > 0,
        -0x4000_0000_0000_0000_0000 <= n <= 0x4000_0000_0000_0000_0000,
    ensures
        q == (n as int) / (d as int),
        n >= 0 ==> 0 <= q <= n,
        n < 0 ==> n <= q < 0,
{
    if n >= 0 {
        proof {
            let quotient = (n as int) / (d as int);
            let remainder = (n as int) % (d as int);
            lemma_fundamental_div_mod(n as int, d as int);
            assert(0 <= quotient <= n) by (nonlinear_arith)
                requires
                    n >= 0,
                    d > 0,
                    n == d * quotient + remainder,
                    0 <= remainder < d,
            ;
        }
        n / d
    } else {
        let m: i128 = -n;
        let whole: i128 = m / d;
        let rest: i128 = m % d;
        proof {
            lemma_fundamental_div_mod(m as int, d as int);
            assert(0 <= whole <= m) by (nonlinear_arith)
                requires
                    m > 0,
                    d > 0,
                    m == d * whole + rest,
                    0 <= rest < d,
            ;
            if rest == 0 {
                assert(n == (-whole) * d + 0) by (nonlinear_arith)
                    requires
                        n == -m,
                        m == d * whole,
                ;
                lemma_fundamental_div_mod_converse(n as int, d as int, -whole, 0);
                assert(whole > 0) by (nonlinear_arith)
                    requires
                        m > 0,
                        m == d * whole,
                        d > 0,
                ;
            } else {
                assert(n == (-whole - 1) * d + (d - rest)) by (nonlinear_arith)
                    requires
                        n == -m,
                        m == d * whole + rest,
                ;
                lemma_fundamental_div_mod_converse(n as int, d as int, -whole - 1, d - rest);
                assert(whole + 1 <= m) by (nonlinear_arith)
                    requires
                        m == d * whole + rest,
                        d > 0,
                        whole >= 0,
                        0 < rest < d,
                ;
            }
        }
        if rest == 0 {
            -whole
        } else {
            -whole - 1
        }
    }
}

impl Sample {
    /// The velocity from this sample to a later one, in angle units per
    /// second, rounded down. There is none unless `later` was taken at a
    /// later time.
    pub fn velocity_to(&self, later: &Sample) -> (velocity: Option<i64>)
        ensures
            match velocity {
                Some(v) => self.timestamp_ns < later.timestamp_ns && v == pair_velocity(
                    *self,
                    *later,
                ),
                None => self.timestamp_ns >= later.timestamp_ns,
            },
            velocity matches Some(v) ==> -VELOCITY_LIMIT <= v <= VELOCITY_LIMIT,
    {
        if later.timestamp_ns <= self.timestamp_ns {
            return None;
        }
        let elapsed: i128 = (later.timestamp_ns - self.timestamp_ns) as i128;
        let travel: i128 = (later.angle as i128 - self.angle as i128) * 1_000_000_000;
        let velocity: i128 = floor_div(travel, elapsed);
        Some(velocity as i64)
    }
}

/// A bounded queue of samples, oldest first.
pub struct SampleWindow {
    samples: VecDeque<Sample>,
}

impl View for SampleWindow {
    type V = Seq<Sample>;

    closed spec fn view(&self) -> Seq<Sample> {
        self.samples@
    }
}

impl SampleWindow {
    /// The window holds no more than its capacity.
    pub open spec fn wf(&self) -> bool {
        self@.len() <= WINDOW_CAPACITY
    }

    /// An empty window.
    pub fn new() -> (window: Self)
        ensures
            window.wf(),
            window@ == Seq::<Sample>::empty(),
    {
        SampleWindow { samples: VecDeque::with_capacity(WINDOW_CAPACITY) }
    }

    /// How many samples the window holds.
    pub fn len(&self) -> (len: usize)
        ensures
            len == self@.len(),
    {
        self.samples.len()
    }

    /// Whether the window is at capacity.
    pub fn is_full(&self) -> (full: bool)
        ensures
            full == (self@.len() == WINDOW_CAPACITY),
    {
        self.len() == WINDOW_CAPACITY
    }

    /// The sample at `index`, counted from the oldest.
    pub fn get(&self, index: usize) -> (sample: Option<Sample>)
        ensures
            sample == if index < self@.len() {
                Some(self@[index as int])
            } else {
                None
            },
    {
        if index < self.samples.len() {
            Some(self.samples[index])
        } else {
            None
        }
    }

    /// Makes room for one sample: at capacity the oldest sample leaves.
    pub fn evict(&mut self)
        requires
            old(self).wf(),
        ensures
            final(self).wf(),
            final(self)@ == evicted(old(self)@),
            final(self)@.len() < WINDOW_CAPACITY,
    {
        if self.samples.len() >= WINDOW_CAPACITY {
            let _ = self.samples.pop_front();
        }
    }

    /// Appends a sample as the newest, after making room for it.
    pub fn push(&mut self, sample: Sample)
        requires
            old(self).wf(),
        ensures
            final(self).wf(),
            final(self)@ == pushed(old(self)@, sample),
    {
        self.evict();
        self.samples.push_back(sample);
    }

    /// The mean velocity over the window, in angle units per second: `None`
    /// exactly when the samples define none.
    pub fn velocity(&self) -> (velocity: Option<i64>)
        requires
            self.wf(),
        ensures
            match velocity {
                Some(v) => velocity_defined(self@) && v == mean_velocity(self@),
                None => !velocity_defined(self@),
            },
            velocity matches Some(v) ==> -VELOCITY_LIMIT <= v <= VELOCITY_LIMIT,
    {
        let len: usize = self.samples.len();
        if len < 2 {
            return None;
        }
        let mut sum: i128 = 0;
        let mut next: usize = 1;
        while next < len
            invariant
                1 <= next <= len,
                len == self.samples@.len(),
                len <= WINDOW_CAPACITY,
                sum == velocity_sum(self.samples@, (next - 1) as nat),
                -4_294_967_295_000_000_000 * (next - 1) <= sum <= 4_294_967_295_000_000_000 * (next
                    - 1),
                forall|i: int|
                    0 <= i < next - 1 ==> self.samples@[i].timestamp_ns < (
                    #[trigger] self.samples@[i + 1]).timestamp_ns,
            decreases len - next,
        {
            let earlier: Sample = self.samples[next - 1];
            let later: Sample = self.samples[next];
            match earlier.velocity_to(&later) {
                None => {
                    assert(!(self.samples@[next - 1].timestamp_ns < self.samples@[next - 1
                        + 1].timestamp_ns));
                    return None;
                },
                Some(v) => {
                    sum = sum + v as i128;
                },
            }
            next = next + 1;
        }
        let pairs: i128 = (len - 1) as i128;
        proof {
            let highest: int = pairs * 4_294_967_295_000_000_000;
            let lowest: int = pairs * (-4_294_967_295_000_000_000);
            lemma_div_is_ordered(sum as int, highest, pairs as int);
            lemma_div_is_ordered(lowest, sum as int, pairs as int);
            lemma_div_multiples_vanish(4_294_967_295_000_000_000, pairs as int);
            lemma_div_multiples_vanish(-4_294_967_295_000_000_000, pairs as int);
        }
        let mean: i128 = floor_div(sum, pairs);
        Some(mean as i64)
    }
}

/// The newest samples of a history, as many as a window holds.
pub open spec fn newest(history: Seq<Sample>) -> Seq<Sample> {
    if history.len() <= WINDOW_CAPACITY {
        history
    } else {
        history.skip(history.len() - WINDOW_CAPACITY)
    }
}

/// The window after the samples of `incoming` were inserted one after another.
pub open spec fn pushed_all(samples: Seq<Sample>, incoming: Seq<Sample>) -> Seq<Sample>
    decreases incoming.len(),
{
    if incoming.len() == 0 {
        samples
    } else {
        pushed(pushed_all(samples, incoming.drop_last()), incoming.last())
    }
}

/// An insertion never takes a window over its capacity, and the sample
/// inserted is the newest.
pub proof fn lemma_push_keeps_capacity(samples: Seq<Sample>, sample: Sample)
    requires
        samples.len() <= WINDOW_CAPACITY,
    ensures
        pushed(samples, sample).len() <= WINDOW_CAPACITY,
        pushed(samples, sample).last() == sample,
{
}

/// An insertion into a full window evicts the oldest sample and nothing else:
/// every other sample moves up by one place, in order.
pub proof fn lemma_push_at_capacity(samples: Seq<Sample>, sample: Sample)
    requires
        samples.len() == WINDOW_CAPACITY,
    ensures
        pushed(samples, sample).len() == WINDOW_CAPACITY,
        forall|i: int|
            0 <= i < WINDOW_CAPACITY - 1 ==> (#[trigger] pushed(samples, sample)[i]) == samples[i
                + 1],
{
}

/// After any run of insertions a window holds the newest samples of all that
/// it held or was given, in the order of insertion.
pub proof fn lemma_window_holds_newest(samples: Seq<Sample>, incoming: Seq<Sample>)
    requires
        samples.len() <= WINDOW_CAPACITY,
    ensures
        pushed_all(samples, incoming) == newest(samples + incoming),
    decreases incoming.len(),
{
    if incoming.len() == 0 {
        assert(samples + incoming =~= samples);
    } else {
        let before = samples + incoming.drop_last();
        lemma_window_holds_newest(samples, incoming.drop_last());
        assert(samples + incoming =~= before.push(incoming.last()));
        assert(pushed(newest(before), incoming.last()) =~= newest(before.push(incoming.last())));
    }
}

/// Insertions in the order of a clock that never goes back leave the window
/// ordered by time.
pub proof fn lemma_push_keeps_time_order(samples: Seq<Sample>, sample: Sample)
    requires
        time_ordered(samples),
        samples.len() > 0 ==> samples.last().timestamp_ns <= sample.timestamp_ns,
    ensures
        time_ordered(pushed(samples, sample)),
{
    let kept = evicted(samples);
    assert forall|i: int, j: int| 0 <= i <= j < kept.len() implies kept[i].timestamp_ns
        <= kept[j].timestamp_ns by {
        if samples.len() >= WINDOW_CAPACITY {
            assert(kept[i] == samples[i + 1] && kept[j] == samples[j + 1]);
        }
    }
    if kept.len() > 0 {
        assert(kept.last() == samples.last());
    }
}

/// Samples taken while the clock moves forward keep the window fit for a
/// velocity: time moves forward between all neighbours after the insertion
/// too.
pub proof fn lemma_push_keeps_strict_time(samples: Seq<Sample>, sample: Sample)
    requires
        strictly_timed(samples),
        samples.len() > 0 ==> samples.last().timestamp_ns < sample.timestamp_ns,
    ensures
        strictly_timed(pushed(samples, sample)),
{
    let kept = evicted(samples);
    let after = pushed(samples, sample);
    assert forall|i: int| 0 <= i < after.len() - 1 implies after[i].timestamp_ns < (
    #[trigger] after[i + 1]).timestamp_ns by {
        if samples.len() >= WINDOW_CAPACITY {
            assert(kept[i] == samples[i + 1]);
            if i + 1 < kept.len() {
                assert(kept[i + 1] == samples[i + 1 + 1]);
            }
        } else if i + 1 < kept.len() {
            assert(kept[i + 1] == samples[i + 1]);
        }
    }
}

/// Where every adjacent pair shows the same velocity, that is the mean.
pub proof fn lemma_uniform_velocity(samples: Seq<Sample>, velocity: int)
    requires
        velocity_defined(samples),
        forall|i: int|
            0 <= i < samples.len() - 1 ==> #[trigger] pair_velocity(samples[i], samples[i + 1])
                == velocity,
    ensures
        mean_velocity(samples) == velocity,
{
    let pairs = (samples.len() - 1) as nat;
    lemma_uniform_sum(samples, velocity, pairs);
    lemma_div_multiples_vanish(velocity, pairs as int);
}

proof fn lemma_uniform_sum(samples: Seq<Sample>, velocity: int, pairs: nat)
    requires
        pairs < samples.len(),
        forall|i: int|
            0 <= i < samples.len() - 1 ==> #[trigger] pair_velocity(samples[i], samples[i + 1])
                == velocity,
    ensures
        velocity_sum(samples, pairs) == pairs * velocity,
    decreases pairs,
{
    if pairs == 0 {
        assert(pairs * velocity == 0) by (nonlinear_arith)
            requires
                pairs == 0,
        ;
    } else {
        lemma_uniform_sum(samples, velocity, (pairs - 1) as nat);
        assert(pair_velocity(samples[pairs - 1], samples[pairs - 1 + 1]) == velocity);
        assert(pairs * velocity == (pairs - 1) * velocity + velocity) by (nonlinear_arith);
    }
}

} // verus!
