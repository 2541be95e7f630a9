use embassy_time::{Duration, Instant};
use robo_arm::positioner::{
    init_position, max_speed, Interpolator, Mechanics, Positioner, Servo, MAX_PULSE_US,
    MIN_PULSE_US, PERIOD_US, POSITIONING_INTERVAL_US, PWM_FREQ_HZ,
};
use robo_arm::quantities::Quantity;
use std::f32::consts::PI;

#[test]
fn motion_tick_is_one_period_of_the_pwm() {
    assert_eq!(PWM_FREQ_HZ, 50);
    assert_eq!(PERIOD_US, 20_000);
    assert_eq!(POSITIONING_INTERVAL_US, 20_000);
    assert_eq!(MIN_PULSE_US, 500);
    assert_eq!(MAX_PULSE_US, 2500);
    assert_eq!((1.0f32 / PWM_FREQ_HZ as f32 * 1e6) as u64, POSITIONING_INTERVAL_US);
}

#[test]
fn init_position_and_max_speed_hold_their_singles() {
    let position = init_position();
    assert_eq!(f32::from_bits(position.rotation.to_bits()), 1.57);
    assert_eq!(f32::from_bits(position.shoulder.to_bits()), 1.3);
    assert_eq!(f32::from_bits(position.forearm.to_bits()), 0.7);
    assert_eq!(f32::from_bits(position.claw.to_bits()), 2.5);
    let speed = max_speed();
    assert_eq!(f32::from_bits(speed.rotation.to_bits()), PI / 3.0);
    assert_eq!(f32::from_bits(speed.shoulder.to_bits()), PI / 2.0);
    assert_eq!(f32::from_bits(speed.forearm.to_bits()), PI / 2.0);
    assert_eq!(f32::from_bits(speed.claw.to_bits()), PI);
}

#[test]
fn next_tick_advances_by_the_interval() {
    let mut pace = Positioner::make(1_000);
    assert_eq!(pace.next_tick(), 1_000);
    assert_eq!(pace.run(1_000, 20_000), 21_000);
    assert_eq!(pace.run(21_000, 20_000), 41_000);
    assert_eq!(pace.run(41_010, 20_000), 61_000);
    assert_eq!(pace.next_tick(), 61_000);
}

#[test]
fn next_tick_gives_up_catching_up() {
    let mut pace = Positioner::make(0);
    assert_eq!(pace.run(0, 20_000), 20_000);
    // The engine fell behind by three and a half ticks.
    assert_eq!(pace.run(110_000, 20_000), 110_000);
    assert_eq!(pace.run(110_000, 20_000), 130_000);
    // Exactly on time counts as on time.
    assert_eq!(pace.run(150_000, 20_000), 150_000);
}

#[test]
fn consecutive_ticks_rise_by_at_least_the_interval() {
    let mut pace = Positioner::make(5);
    let mut last = pace.next_tick();
    for now in [0u64, 7, 30, 31, 1_000, 1_001, 1_002, 5_000_000, 5_000_000] {
        let tick = pace.run(now, 20);
        assert!(tick >= last + 20);
        assert!(tick == last + 20 || tick == now);
        assert!(tick >= now);
        last = tick;
    }
}

#[test]
fn engine_spins_until_the_tick() {
    let mut pace = Positioner::make(100);
    pace.run(100, 50);
    assert!(!pace.is_due(100));
    assert!(!pace.is_due(149));
    assert!(pace.is_due(150));
    assert!(pace.is_due(151));
}

#[test]
fn move_without_steps_yields_nothing() {
    let mut interpolator = Interpolator::new(0);
    assert_eq!(interpolator.steps(), 0);
    assert_eq!(interpolator.next(), None);
    assert_eq!(interpolator.next(), None);
}

#[test]
fn factors_count_down_to_zero() {
    let mut interpolator = Interpolator::new(4);
    assert_eq!(interpolator.next(), Some(3));
    assert_eq!(interpolator.steps(), 3);
    assert_eq!(interpolator.next(), Some(2));
    assert_eq!(interpolator.next(), Some(1));
    assert_eq!(interpolator.next(), Some(0));
    assert_eq!(interpolator.next(), None);
    assert_eq!(interpolator.steps(), 0);
}

#[test]
fn move_over_pi_at_a_third_of_pi_per_second_takes_150_steps() {
    // From (0, 0, 0, 0) to (pi, 0, 0, 0): three seconds of ticks of 20 ms.
    let duration = PI / (PI / 3.0);
    let steps = (duration / (1.0 / PWM_FREQ_HZ as f32)).ceil() as u32;
    assert_eq!(steps, 150);
    let step = PI / steps as f32;
    let mut interpolator = Interpolator::new(steps);
    let mut rotations = Vec::new();
    while let Some(factor) = interpolator.next() {
        rotations.push(PI - step * factor as f32);
    }
    assert_eq!(rotations.len(), 150);
    assert_eq!(*rotations.last().unwrap(), PI);
    assert!(rotations.windows(2).all(|pair| pair[0] < pair[1]));
}

#[test]
fn servo_range_on_a_timer_of_fourteen_bits() {
    let servo = Servo::init(16384);
    // 2.5 % and 12.5 % of the full duty cycle.
    assert_eq!(servo.set_pos(0), 409);
    assert_eq!(servo.max_pos(), 2048 - 409);
    assert_eq!(servo.set_pos(servo.max_pos()), 2048);
}

#[test]
fn servo_range_on_other_timers() {
    let servo = Servo::init(0);
    assert_eq!((servo.set_pos(0), servo.max_pos()), (0, 0));
    let servo = Servo::init(u16::MAX);
    assert_eq!(servo.set_pos(0), 1638);
    assert_eq!(servo.set_pos(servo.max_pos()), 8191);
    let servo = Servo::init(40);
    assert_eq!(servo.set_pos(0), 1);
    assert_eq!(servo.set_pos(servo.max_pos()), 5);
}

#[test]
fn duty_rises_with_the_angle_and_stays_between_the_end_stops() {
    let servo = Servo::init(16384);
    let max_pos = servo.max_pos();
    let mut last = servo.set_pos(0);
    for i in 0..=1000 {
        let angle = PI * i as f32 / 1000.0;
        let offset = (angle.clamp(0.0, PI) * max_pos as f32 / PI) as u16;
        assert!(offset <= max_pos);
        let duty = servo.set_pos(offset);
        assert!((409..=2048).contains(&duty));
        assert!(duty >= last);
        last = duty;
    }
    assert_eq!(last, 2048);
}

#[test]
fn mechanics_set_the_duty_of_each_joint() {
    let full = Quantity { rotation: 16384u16, shoulder: 16384, forearm: 16384, claw: 16384 };
    let mechanics = Mechanics::make(full);
    let max_pos = mechanics.max_pos();
    assert_eq!(max_pos, Quantity { rotation: 1639u16, shoulder: 1639, forearm: 1639, claw: 1639 });
    let offsets = Quantity { rotation: 0u16, shoulder: 1, forearm: 819, claw: 1639 };
    let duties = mechanics.set_pos(offsets);
    assert_eq!(duties, Quantity { rotation: 409u16, shoulder: 410, forearm: 1228, claw: 2048 });
}

#[test]
fn pace_is_that_of_instants_and_durations() {
    let interval = Duration::from_micros(POSITIONING_INTERVAL_US);
    let mut next_tick = Instant::from_ticks(7);
    let mut pace = Positioner::make(7);
    for now in [7u64, 10, 50_000, 50_001, 90_000, 1_000_000, 1_000_000, 1_020_000] {
        next_tick += interval;
        next_tick = next_tick.max(Instant::from_ticks(now));
        assert_eq!(pace.run(now, interval.as_ticks()), next_tick.as_ticks());
        assert_eq!(pace.is_due(now), !(Instant::from_ticks(now) < next_tick));
    }
}
