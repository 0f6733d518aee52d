//! Continuous-angle unwrapping and the sensor wrapper on concrete
//! reading sequences.

use foc::fx::{Fx, TWO_PI_BITS};
use foc::sensor::{Sensor, SensorHardware, SensorState, WRAP_BITS};
use foc::time::Instant;

/// An angle source that replays a fixed list of readings.
struct ScriptedAngles {
    readings: Vec<i32>,
    next: usize,
}

impl SensorHardware for ScriptedAngles {
    type Error = ();

    fn read_angle(&mut self) -> Result<Fx, ()> {
        match self.readings.get(self.next) {
            Some(&bits) => {
                self.next += 1;
                Ok(Fx::from_bits(bits))
            }
            None => Err(()),
        }
    }
}

/// An angle source that always fails.
struct DeadSensor;

impl SensorHardware for DeadSensor {
    type Error = u8;

    fn read_angle(&mut self) -> Result<Fx, u8> {
        Err(42)
    }
}

const RAD_01: i32 = 6554; // 0.1 rad
const RAD_62: i32 = 406323; // 6.2 rad

#[test]
fn clockwise_boundary_crossing_counts_one_turn_down() {
    // Raw angles 0.1 rad then 6.2 rad: an apparent jump of +6.1 rad is a
    // clockwise crossing of the 0 / 2*pi boundary.
    let mut s = SensorState::default();
    s.record(Fx::from_bits(RAD_01), Instant::from_micros(1000));
    assert_eq!(s.full_rotations(), 0);
    assert_eq!(s.total_angle().bits, RAD_01);

    s.record(Fx::from_bits(RAD_62), Instant::from_micros(2000));
    assert_eq!(s.full_rotations(), -1);
    // The continuous angle decreased smoothly by about 0.18 rad instead of
    // jumping up by 6.1 rad.
    let total = s.total_angle().bits;
    assert_eq!(total, RAD_62 - TWO_PI_BITS);
    assert!(RAD_01 - total < WRAP_BITS);
    assert!(total < RAD_01);
}

#[test]
fn counterclockwise_boundary_crossing_counts_one_turn_up() {
    let mut s = SensorState::default();
    // Approach the boundary in sub-threshold steps, then cross it.
    s.record(Fx::from_bits(262144), Instant::from_micros(1000));
    s.record(Fx::from_bits(RAD_62), Instant::from_micros(2000));
    assert_eq!(s.full_rotations(), 0);
    s.record(Fx::from_bits(RAD_01), Instant::from_micros(3000));
    assert_eq!(s.full_rotations(), 1);
    assert_eq!(s.total_angle().bits, TWO_PI_BITS + RAD_01);
}

#[test]
fn steady_rotation_unwraps_without_jumps() {
    // A tenth of a turn per tick, forward: the continuous angle tracks the
    // true accumulated rotation exactly, through every boundary crossing.
    let mut s = SensorState::default();
    let mut t = 1000u64;
    for k in 0..40i32 {
        let true_total = k * 41177;
        s.record(Fx::from_bits(true_total % TWO_PI_BITS), Instant::from_micros(t));
        assert_eq!(s.total_angle().bits, true_total);
        t += 1000;
    }
    assert_eq!(s.full_rotations(), 3);
}

#[test]
fn velocity_uses_the_previous_interval() {
    let mut s = SensorState::default();
    // First record: default snapshot has a 1 ms placeholder interval and a
    // zero total angle, so 0.1 rad over 1 ms gives 100 rad/s.
    s.record(Fx::from_bits(RAD_01), Instant::from_micros(500));
    assert_eq!(s.velocity().as_secs().bits, RAD_01 * 1000);
    // Second record: the divisor is the stored 500 us interval, not the
    // 2000 us that actually elapsed.
    s.record(Fx::from_bits(2 * RAD_01), Instant::from_micros(2500));
    assert_eq!(s.velocity().as_secs().bits, RAD_01 * 2000);
    assert_eq!(s.last_dt().as_micros(), 2000);
}

#[test]
fn snapshot_reports_the_current_total() {
    let mut s = SensorState::default();
    s.record(Fx::from_bits(RAD_01), Instant::from_micros(1000));
    let snap = s.snapshot();
    assert_eq!(snap.total_angle.bits, RAD_01);
    assert_eq!(snap.dt.as_micros(), 1000);
    assert_eq!(s.angle().bits, RAD_01);
}

#[test]
fn sensor_update_folds_a_reading() {
    let mut sensor = Sensor::new(ScriptedAngles { readings: vec![RAD_01], next: 0 });
    assert!(sensor.update(Instant::from_micros(1000)).is_ok());
    assert_eq!(sensor.state().total_angle().bits, RAD_01);
    // The script is exhausted: the next update fails and the state stays.
    let before = sensor.state();
    assert_eq!(sensor.update(Instant::from_micros(2000)), Err(()));
    assert_eq!(sensor.state(), before);
}

#[test]
fn sensor_read_failure_is_passed_through() {
    let mut sensor = Sensor::new(DeadSensor);
    assert_eq!(sensor.update(Instant::from_micros(1000)), Err(42));
    assert_eq!(sensor.state(), SensorState::default());
}

#[test]
fn sensor_reset_drops_derived_state() {
    let mut sensor = Sensor::new(ScriptedAngles { readings: vec![RAD_01, RAD_62], next: 0 });
    sensor.update(Instant::from_micros(1000)).unwrap();
    sensor.update(Instant::from_micros(2000)).unwrap();
    assert_eq!(sensor.state().full_rotations(), -1);
    sensor.reset();
    assert_eq!(sensor.state(), SensorState::default());
    let hw = sensor.into_inner();
    assert_eq!(hw.next, 2);
}

#[test]
fn snapshot_dt_secs_is_in_seconds() {
    let mut s = SensorState::default();
    s.record(Fx::from_bits(RAD_01), Instant::from_micros(2_000_000));
    let snap = s.snapshot();
    assert_eq!(snap.dt_secs().bits, 2 * 65536);
    s.record(Fx::from_bits(RAD_01), Instant::from_micros(2_500_000));
    assert_eq!(s.snapshot().dt_secs().bits, 65536 / 2);
}
