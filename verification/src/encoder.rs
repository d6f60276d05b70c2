//! The encoder state and its operations.
//!
//! The state never touches the bus or the clock. Each operation takes the
//! register word that the caller has read, and a velocity request is a
//! dialogue: the state says when it needs a reading, the caller supplies it.

use crate::angle::angle_of;
use crate::angle::calibrated_angle;
use crate::angle::Direction;
use crate::window::evicted;
use crate::window::lemma_push_keeps_strict_time;
use crate::window::mean_velocity;
use crate::window::pushed;
use crate::window::strictly_timed;
use crate::window::velocity_defined;
use crate::window::Sample;
use crate::window::SampleWindow;
use crate::window::WINDOW_CAPACITY;
use vstd::prelude::*;

verus! {

/// Samples a velocity needs at the least.
pub const MIN_SAMPLES: usize = 2;

/// How long to wait before reading again while samples are missing.
pub const RETRY_DELAY_MS: u64 = 10;

/// The pause between two rounds of a continuous sampling loop: 200 rounds a
/// second.
pub const SAMPLING_PERIOD_MS: u64 = 5;

/// What an encoder state amounts to.
pub struct EncoderView {
    /// The register word that reads as zero.
    pub offset: u16,
    pub direction: Direction,
    /// The window, oldest sample first.
    pub samples: Seq<Sample>,
}

/// What the caller tells a state during a velocity request.
#[derive(Clone, Copy, Debug, PartialEq, Eq)]
pub enum VelocityEvent {
    /// A velocity is asked for.
    Requested,
    /// The register was read as `raw`, and the read ended at `timestamp_ns`.
    Sampled { timestamp_ns: u64, raw: u16 },
}

/// What the state asks of the caller in return.
#[derive(Clone, Copy, Debug, PartialEq, Eq)]
pub enum VelocityAction {
    /// Wait for `delay_ms` milliseconds, read the angle register, and come
    /// back with the reading.
    Sample { delay_ms: u64 },
    /// The request is answered. The velocity is in angle units per second;
    /// there is none where two neighbouring samples share a timestamp or go
    /// back in time.
    Report { velocity: Option<i64> },
}

/// The state of an encoder that was just opened: no calibration, forward
/// direction, no samples.
pub open spec fn initial_state() -> EncoderView {
    EncoderView { offset: 0, direction: Direction::Forward, samples: Seq::empty() }
}

/// The angle that a state reports for the register word `raw`.
pub open spec fn angle_in(state: EncoderView, raw: u16) -> int {
    calibrated_angle(raw as int, state.offset as int, state.direction)
}

/// The state after zeroing at the register word `raw`.
pub open spec fn zeroed(state: EncoderView, raw: u16) -> EncoderView {
    EncoderView { offset: raw, ..state }
}

/// The state after a change of direction.
pub open spec fn redirected(state: EncoderView, direction: Direction) -> EncoderView {
    EncoderView { direction, ..state }
}

/// The velocity that a window answers a request with.
pub open spec fn reported_velocity(samples: Seq<Sample>) -> Option<i64> {
    if velocity_defined(samples) {
        Some(mean_velocity(samples) as i64)
    } else {
        None
    }
}

/// One step of a velocity request: the state that an event leaves, and the
/// action that answers it.
///
/// A request makes room in the window and asks for a reading at once. A
/// reading is appended as a sample, with the angle it has under the current
/// calibration and direction; then either the window is still short of two
/// samples and another reading is asked for after the retry delay, or the mean
/// velocity over the window is reported.
pub open spec fn velocity_step(state: EncoderView, event: VelocityEvent) -> (
    EncoderView,
    VelocityAction,
) {
    match event {
        VelocityEvent::Requested => (
            EncoderView { samples: evicted(state.samples), ..state },
            VelocityAction::Sample { delay_ms: 0 },
        ),
        VelocityEvent::Sampled { timestamp_ns, raw } => {
            let sample = Sample { timestamp_ns, angle: angle_in(state, raw) as i32 };
            let samples = pushed(state.samples, sample);
            (
                EncoderView { samples, ..state },
                if samples.len() < MIN_SAMPLES {
                    VelocityAction::Sample { delay_ms: RETRY_DELAY_MS }
                } else {
                    VelocityAction::Report { velocity: reported_velocity(samples) }
                },
            )
        },
    }
}

/// The state of one encoder: its calibration, its direction convention and
/// its window of samples.
pub struct AS5600 {
    offset: u16,
    direction: Direction,
    samples: SampleWindow,
}

impl View for AS5600 {
    type V = EncoderView;

    closed spec fn view(&self) -> EncoderView {
        EncoderView { offset: self.offset, direction: self.direction, samples: self.samples@ }
    }
}

impl AS5600 {
    /// The window holds no more than its capacity.
    pub open spec fn wf(&self) -> bool {
        self@.samples.len() <= WINDOW_CAPACITY
    }

    /// The state of an encoder that was just opened.
    pub fn open() -> (encoder: Self)
        ensures
            encoder.wf(),
            encoder@ == initial_state(),
    {
        AS5600 { offset: 0, direction: Direction::Forward, samples: SampleWindow::new() }
    }

    /// The calibrated angle of the register word `raw`, in units of 1/512
    /// degree. Nothing is recorded.
    pub fn get_angle(&self, raw: u16) -> (angle: i32)
        ensures
            angle == angle_in(self@, raw),
    {
        angle_of(raw, self.offset, self.direction)
    }

    /// Makes the position of the register word `raw` the zero position.
    pub fn zero(&mut self, raw: u16)
        ensures
            final(self)@ == zeroed(old(self)@, raw),
    {
        self.offset = raw;
    }

    /// Sets the direction convention for the readings to come. Samples that
    /// are in the window keep the angle they were taken with.
    pub fn set_direction(&mut self, direction: Direction)
        ensures
            final(self)@ == redirected(old(self)@, direction),
    {
        self.direction = direction;
    }

    /// Takes one step of a velocity request.
    pub fn get_velocity(&mut self, event: VelocityEvent) -> (action: VelocityAction)
        requires
            old(self).wf(),
        ensures
            final(self).wf(),
            (final(self)@, action) == velocity_step(old(self)@, event),
    {
        match event {
            VelocityEvent::Requested => {
                self.samples.evict();
                VelocityAction::Sample { delay_ms: 0 }
            },
            VelocityEvent::Sampled { timestamp_ns, raw } => {
                let angle: i32 = self.get_angle(raw);
                self.samples.push(Sample { timestamp_ns, angle });
                if self.samples.len() < MIN_SAMPLES {
                    VelocityAction::Sample { delay_ms: RETRY_DELAY_MS }
                } else {
                    VelocityAction::Report { velocity: self.samples.velocity() }
                }
            },
        }
    }

    /// The calibration offset.
    pub fn offset(&self) -> (offset: u16)
        ensures
            offset == self@.offset,
    {
        self.offset
    }

    /// The direction convention.
    pub fn direction(&self) -> (direction: Direction)
        ensures
            direction == self@.direction,
    {
        self.direction
    }

    /// The window of samples.
    pub fn samples(&self) -> (samples: &SampleWindow)
        ensures
            samples@ == self@.samples,
    {
        &self.samples
    }
}

/// After zeroing at a position, that position reads as zero under `Forward`,
/// and as a full turn under `Reverse`.
pub proof fn lemma_zero_reads_zero(state: EncoderView, raw: u16)
    ensures
        state.direction == Direction::Forward ==> angle_in(zeroed(state, raw), raw) == 0,
        state.direction == Direction::Reverse ==> angle_in(zeroed(state, raw), raw) == 360 * 512,
{
}

/// Only zeroing moves the calibration offset: neither a change of direction
/// nor any step of a velocity request does. Zeroing and a change of direction
/// in turn leave the window alone.
pub proof fn lemma_only_zero_moves_offset(
    state: EncoderView,
    event: VelocityEvent,
    direction: Direction,
    raw: u16,
)
    ensures
        velocity_step(state, event).0.offset == state.offset,
        velocity_step(state, event).0.direction == state.direction,
        redirected(state, direction).offset == state.offset,
        redirected(state, direction).samples == state.samples,
        zeroed(state, raw).samples == state.samples,
        zeroed(state, raw).direction == state.direction,
{
}

/// No step of a velocity request takes the window over its capacity.
pub proof fn lemma_step_keeps_capacity(state: EncoderView, event: VelocityEvent)
    requires
        state.samples.len() <= WINDOW_CAPACITY,
    ensures
        velocity_step(state, event).0.samples.len() <= WINDOW_CAPACITY,
{
}

/// A request on a state without samples takes two readings: it asks for the
/// first at once, for the second after the retry delay, and reports when the
/// second has come.
pub proof fn lemma_first_request_takes_two_readings(
    state: EncoderView,
    first: VelocityEvent,
    second: VelocityEvent,
)
    requires
        state.samples.len() == 0,
        first is Sampled,
        second is Sampled,
    ensures
        ({
            let (asked, on_request) = velocity_step(state, VelocityEvent::Requested);
            let (once, on_first) = velocity_step(asked, first);
            let (twice, on_second) = velocity_step(once, second);
            &&& on_request == VelocityAction::Sample { delay_ms: 0 }
            &&& on_first == VelocityAction::Sample { delay_ms: RETRY_DELAY_MS }
            &&& on_second is Report
            &&& once.samples.len() == 1
            &&& twice.samples.len() == 2
        }),
{
}

/// A request on a state that holds a sample takes one reading: the first
/// reading is answered with a report.
pub proof fn lemma_later_request_takes_one_reading(state: EncoderView, reading: VelocityEvent)
    requires
        1 <= state.samples.len() <= WINDOW_CAPACITY,
        reading is Sampled,
    ensures
        velocity_step(velocity_step(state, VelocityEvent::Requested).0, reading).1 is Report,
{
}

/// While the clock moves forward from one reading to the next, every report
/// carries a velocity: a request is never answered with "not enough data".
pub proof fn lemma_forward_clock_always_reports(state: EncoderView, timestamp_ns: u64, raw: u16)
    requires
        strictly_timed(state.samples),
        state.samples.len() > 0 ==> state.samples.last().timestamp_ns < timestamp_ns,
    ensures
        ({
            let (after, action) = velocity_step(
                state,
                VelocityEvent::Sampled { timestamp_ns, raw },
            );
            &&& strictly_timed(after.samples)
            &&& action matches VelocityAction::Report { velocity } ==> velocity is Some
        }),
{
    let sample = Sample { timestamp_ns, angle: angle_in(state, raw) as i32 };
    lemma_push_keeps_strict_time(state.samples, sample);
}

} // verus!
