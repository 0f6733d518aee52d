//! Continuous-angle tracking over a bounded absolute-angle source.
//!
//! The hardware reports an angle in `[0, 2*pi)`. [`SensorState::record`]
//! unwraps it: a jump larger than `1.6 * pi` between two readings is taken
//! for a crossing of the `0`/`2*pi` boundary and moves the revolution
//! counter by one, so the continuous angle `revolutions * 2*pi + angle`
//! stays free of artificial jumps. The velocity estimate divides the change
//! of the continuous angle by the *previous* interval length, a deliberate
//! one-tick delay that keeps every term of a tick on the same time stamp.

use vstd::prelude::*;
use crate::fx::{abs_v, fx_sub_v, sat32, Fx, TWO_PI_BITS};
use crate::time::{Duration, Instant};
use crate::velocity::{vel_per_v, Velocity};

verus! {

/// Threshold on the one-tick angle change past which a reading is taken
/// for a boundary crossing: `1.6 * pi` in Q16.16 bits.
pub const WRAP_BITS: i32 = 329420;

/// An angle source that can fail transiently, implemented by the driver of
/// a physical absolute-angle sensor.
pub trait SensorHardware {
    /// The driver's transient read error.
    type Error;

    /// Read the current absolute angle in radians, within `[0, 2*pi)`.
    fn read_angle(&mut self) -> (r: Result<Fx, Self::Error>)
        ensures
            r matches Ok(a) ==> 0 <= a@ < TWO_PI_BITS as int,
    ;
}

/// What a tick leaves behind for the next one.
#[derive(Clone, Copy, Debug, PartialEq, Eq, Structural)]
pub struct Snapshot {
    /// When the reading was recorded.
    pub instant: Instant,
    /// Time between the two latest readings.
    pub dt: Duration,
    /// Continuous angle at the reading.
    pub total_angle: Fx,
}

impl Snapshot {
    /// The stored interval in seconds.
    pub fn dt_secs(&self) -> (r: Fx)
        ensures
            r@ == crate::time::dur_secs_v(self.dt@),
    {
        self.dt.secs_fx()
    }
}

/// Continuous angle, revolution counter and velocity estimate derived from
/// a stream of bounded angle readings.
#[derive(Clone, Copy, Debug, PartialEq, Eq, Structural)]
pub struct SensorState {
    /// Latest bounded angle, within `[0, 2*pi)`.
    pub angle: Fx,
    /// Snapshot taken at the latest recording.
    pub prev: Snapshot,
    /// Signed count of completed turns.
    pub full_rotations: i32,
    /// Latest velocity estimate.
    pub velocity: Velocity,
}

/// The revolution counter after a reading whose raw delta is `delta`: one
/// turn is counted against the direction of the apparent jump. The counter
/// pins at the `i32` range ends instead of wrapping.
pub open spec fn rot_after_v(rot: int, delta: int) -> int {
    if delta > WRAP_BITS as int {
        if rot > i32::MIN as int {
            rot - 1
        } else {
            rot
        }
    } else if delta < -(WRAP_BITS as int) {
        if rot < i32::MAX as int {
            rot + 1
        } else {
            rot
        }
    } else {
        rot
    }
}

/// Continuous angle from a revolution count and a bounded angle.
pub open spec fn total_angle_v(rot: int, angle: int) -> int {
    sat32(rot * (TWO_PI_BITS as int) + angle)
}

/// The revolution counter stands far enough from the 32-bit rails that
/// two more turns cannot saturate the continuous angle: the machine limit
/// under which unwrapping is exact.
pub open spec fn counter_headroom(rot: int) -> bool {
    abs_v(rot * (TWO_PI_BITS as int)) + 2 * (TWO_PI_BITS as int) <= i32::MAX as int
}

/// The whole effect of recording `new_angle` at `now` on a sensor state.
pub open spec fn record_spec(s: SensorState, new_angle: Fx, now: Instant) -> SensorState {
    let delta = fx_sub_v(new_angle@, s.angle@);
    let rot = rot_after_v(s.full_rotations as int, delta);
    let total = total_angle_v(rot, new_angle@);
    SensorState {
        angle: new_angle,
        prev: Snapshot {
            instant: now,
            dt: Duration { micros: (now@ - s.prev.instant@) as u64 },
            total_angle: Fx { bits: total as i32 },
        },
        full_rotations: rot as i32,
        velocity: Velocity(
            Fx { bits: vel_per_v(fx_sub_v(total, s.prev.total_angle@), s.prev.dt@) as i32 },
        ),
    }
}

impl SensorState {
    /// The bounded angle is in range and the stored interval can serve as
    /// a divisor on the next tick.
    pub open spec fn wf(self) -> bool {
        &&& 0 <= self.angle@ < TWO_PI_BITS as int
        &&& 1 <= self.prev.dt@ <= i64::MAX
    }

    /// Fold a new bounded reading into the state.
    pub fn record(&mut self, new_angle: Fx, now: Instant)
        requires
            old(self).wf(),
            0 <= new_angle@ < TWO_PI_BITS as int,
            old(self).prev.instant@ < now@,
            now@ - old(self).prev.instant@ <= i64::MAX,
        ensures
            *final(self) == record_spec(*old(self), new_angle, now),
            final(self).wf(),
    {
        let delta = new_angle.sub(self.angle);

        if delta.bits > WRAP_BITS {
            if self.full_rotations > i32::MIN {
                self.full_rotations = self.full_rotations - 1;
            }
        } else if delta.bits < -WRAP_BITS {
            if self.full_rotations < i32::MAX {
                self.full_rotations = self.full_rotations + 1;
            }
        }

        self.angle = new_angle;
        let total = self.total_angle();
        self.velocity = Velocity::rad(total.sub(self.prev.total_angle)).per(self.prev.dt);
        self.prev = Snapshot {
            dt: now.duration_since(self.prev.instant),
            instant: now,
            total_angle: total,
        };
    }

    /// The latest snapshot, with the continuous angle recomputed from the
    /// current counter and bounded angle.
    pub fn snapshot(&self) -> (r: Snapshot)
        ensures
            r.instant == self.prev.instant,
            r.dt == self.prev.dt,
            r.total_angle@ == total_angle_v(self.full_rotations as int, self.angle@),
    {
        Snapshot { instant: self.prev.instant, dt: self.prev.dt, total_angle: self.total_angle() }
    }

    /// Current bounded angle in radians.
    pub fn angle(&self) -> (r: Fx)
        ensures
            r == self.angle,
    {
        self.angle
    }

    /// Continuous angle in radians.
    pub fn total_angle(&self) -> (r: Fx)
        ensures
            r@ == total_angle_v(self.full_rotations as int, self.angle@),
    {
        proof {
            assert(-0x20000000000000 < self.full_rotations as int * (TWO_PI_BITS as int)
                < 0x20000000000000) by (nonlinear_arith)
                requires
                    -0x80000000 <= self.full_rotations as int <= 0x7fffffff,
            ;
        }
        let turns: i64 = self.full_rotations as i64 * (TWO_PI_BITS as i64);
        Fx::from_bits(crate::fx::sat32_i64(turns + self.angle.bits as i64))
    }

    /// Signed count of completed turns.
    pub fn full_rotations(&self) -> (r: i32)
        ensures
            r == self.full_rotations,
    {
        self.full_rotations
    }

    /// Latest velocity estimate in radians per second.
    pub fn velocity(&self) -> (r: Velocity)
        ensures
            r == self.velocity,
    {
        self.velocity
    }

    /// Time between the two latest recordings.
    pub fn last_dt(&self) -> (r: Duration)
        ensures
            r == self.prev.dt,
    {
        self.prev.dt
    }
}

/// The state before any reading: everything zero, with a one-millisecond
/// placeholder interval so that the first velocity estimate has a divisor.
pub open spec fn initial_state() -> SensorState {
    SensorState {
        angle: Fx { bits: 0 },
        prev: Snapshot {
            instant: Instant { micros: 0 },
            dt: Duration { micros: 1000 },
            total_angle: Fx { bits: 0 },
        },
        full_rotations: 0,
        velocity: Velocity(Fx { bits: 0 }),
    }
}

impl Default for SensorState {
    /// The state before any reading.
    fn default() -> (r: Self)
        ensures
            r == initial_state(),
            r.wf(),
    {
        SensorState {
            angle: Fx::zero(),
            prev: Snapshot {
                instant: Instant::from_micros(0),
                dt: Duration::from_micros(1000),
                total_angle: Fx::zero(),
            },
            full_rotations: 0,
            velocity: Velocity::zero(),
        }
    }
}

/// A wrapper around sensor hardware that maintains a [`SensorState`].
#[derive(Debug, PartialEq)]
pub struct Sensor<H> {
    /// The hardware driver.
    pub inner: H,
    /// The derived state.
    pub state: SensorState,
}

impl<H> Sensor<H> {
    /// Wrap a driver with a fresh state.
    pub fn new(hardware: H) -> (r: Self)
        ensures
            r.state == initial_state(),
            r.state.wf(),
    {
        Sensor { inner: hardware, state: SensorState::default() }
    }
}

impl<H: SensorHardware> Sensor<H> {
    /// Read the hardware once and fold the reading into the state. A read
    /// failure is passed through and leaves the state untouched.
    pub fn update(&mut self, now: Instant) -> (r: Result<(), H::Error>)
        requires
            old(self).state.wf(),
            old(self).state.prev.instant@ < now@,
            now@ - old(self).state.prev.instant@ <= i64::MAX,
        ensures
            r is Ok ==> exists|a: Fx|
                0 <= a@ < TWO_PI_BITS as int && final(self).state == record_spec(
                    old(self).state,
                    a,
                    now,
                ),
            r is Err ==> final(self).state == old(self).state,
            final(self).state.wf(),
    {
        match self.inner.read_angle() {
            Ok(a) => {
                self.state.record(a, now);
                Ok(())
            },
            Err(e) => Err(e),
        }
    }

    /// Drop all derived state, keeping the hardware.
    pub fn reset(&mut self)
        ensures
            final(self).state == initial_state(),
            final(self).state.wf(),
    {
        self.state = SensorState::default();
    }

    /// The current derived state.
    pub fn state(&self) -> (r: SensorState)
        ensures
            r == self.state,
    {
        self.state
    }

    /// Give the hardware back.
    pub fn into_inner(self) -> H {
        self.inner
    }
}

/// The state after folding in a whole sequence of readings, one at each
/// of the matching instants.
pub open spec fn replay_v(s: SensorState, readings: Seq<Fx>, times: Seq<Instant>) -> SensorState
    decreases readings.len(),
{
    if readings.len() == 0 {
        s
    } else {
        replay_v(record_spec(s, readings[0], times[0]), readings.skip(1), times.skip(1))
    }
}

/// Over any sequence of bounded readings whose consecutive raw deltas stay
/// within `1.6 * pi`, the revolution counter never moves, and the
/// continuous angle ends exactly where the raw readings walked it: the
/// initial continuous angle plus the difference between the last reading
/// and the initial bounded angle. The counter bound keeps the continuous
/// angle away from its saturation rail throughout.
pub proof fn lemma_smooth_sequence_keeps_the_counter(
    s: SensorState,
    readings: Seq<Fx>,
    times: Seq<Instant>,
)
    requires
        0 <= s.angle@ < TWO_PI_BITS as int,
        counter_headroom(s.full_rotations as int),
        readings.len() == times.len(),
        forall|i: int|
            0 <= i < readings.len() ==> 0 <= #[trigger] readings[i]@ < TWO_PI_BITS as int,
        forall|i: int|
            0 <= i < readings.len() ==> abs_v(
                #[trigger] readings[i]@ - if i == 0 {
                    s.angle@
                } else {
                    readings[i - 1]@
                },
            ) <= WRAP_BITS as int,
    ensures
        replay_v(s, readings, times).full_rotations == s.full_rotations,
        readings.len() > 0 ==> replay_v(s, readings, times).angle == readings.last(),
        readings.len() > 0 ==> total_angle_v(
            replay_v(s, readings, times).full_rotations as int,
            replay_v(s, readings, times).angle@,
        ) == total_angle_v(s.full_rotations as int, s.angle@) + (readings.last()@ - s.angle@),
    decreases readings.len(),
{
    if readings.len() > 0 {
        let s1 = record_spec(s, readings[0], times[0]);
        assert(abs_v(readings[0]@ - s.angle@) <= WRAP_BITS as int);
        assert(s1.full_rotations == s.full_rotations);
        assert forall|i: int| 0 <= i < readings.skip(1).len() implies abs_v(
            #[trigger] readings.skip(1)[i]@ - if i == 0 {
                s1.angle@
            } else {
                readings.skip(1)[i - 1]@
            },
        ) <= WRAP_BITS as int by {
            assert(readings.skip(1)[i] == readings[i + 1]);
            if i > 0 {
                assert(readings.skip(1)[i - 1] == readings[i]);
            }
        }
        lemma_smooth_sequence_keeps_the_counter(s1, readings.skip(1), times.skip(1));
        if readings.len() > 1 {
            assert(readings.skip(1).last() == readings.last());
        }
    }
}

/// One reading moves the revolution counter by at most one, and only when
/// the raw difference jumps past `1.6 * pi`: sub-revolution motion can
/// never be double-counted.
pub proof fn lemma_record_counts_at_most_one_turn(s: SensorState, a: Fx, now: Instant)
    requires
        s.wf(),
        0 <= a@ < TWO_PI_BITS as int,
    ensures
        abs_v(record_spec(s, a, now).full_rotations - s.full_rotations) <= 1,
        record_spec(s, a, now).full_rotations != s.full_rotations ==> abs_v(a@ - s.angle@)
            > WRAP_BITS as int,
{
}

/// While one reading differs from the last by no more than `1.6 * pi`, the
/// revolution counter stands still and the continuous angle moves by
/// exactly the raw difference: no artificial jump. The counter bound keeps
/// the continuous angle away from its saturation rail.
pub proof fn lemma_record_smooth_step(s: SensorState, a: Fx, now: Instant)
    requires
        s.wf(),
        0 <= a@ < TWO_PI_BITS as int,
        abs_v(a@ - s.angle@) <= WRAP_BITS as int,
        counter_headroom(s.full_rotations as int),
    ensures
        record_spec(s, a, now).full_rotations == s.full_rotations,
        record_spec(s, a, now).prev.total_angle@ == total_angle_v(
            s.full_rotations as int,
            s.angle@,
        ) + (a@ - s.angle@),
{
}

/// A reading that jumps past `1.6 * pi` moves the revolution counter by
/// exactly one, against the jump, and the continuous angle by the true
/// small movement: the raw difference give or take one whole turn, which
/// is less than `0.4 * pi` in magnitude.
pub proof fn lemma_record_wrap_step(s: SensorState, a: Fx, now: Instant)
    requires
        s.wf(),
        0 <= a@ < TWO_PI_BITS as int,
        abs_v(a@ - s.angle@) > WRAP_BITS as int,
        counter_headroom(s.full_rotations as int),
    ensures
        a@ > s.angle@ ==> record_spec(s, a, now).full_rotations == s.full_rotations - 1,
        a@ < s.angle@ ==> record_spec(s, a, now).full_rotations == s.full_rotations + 1,
        abs_v(
            record_spec(s, a, now).prev.total_angle@ - total_angle_v(
                s.full_rotations as int,
                s.angle@,
            ),
        ) < TWO_PI_BITS - WRAP_BITS,
{
}

} // verus!
