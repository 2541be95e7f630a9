//! The positioning engine: the pace of the motion core, the count of the
//! steps of a move, and the duty cycles of the servos.

use crate::quantities::{Position, Quantity, Velocity};
use crate::units::WithUnit;
use vstd::prelude::*;

verus! {

/// Frequency of the PWM that drives the servos, in hertz.
pub const PWM_FREQ_HZ: u32 = 50;

/// Period of the PWM in microseconds.
pub const PERIOD_US: u32 = 1_000_000 / PWM_FREQ_HZ;

/// Shortest pulse of a servo in microseconds: one end stop.
pub const MIN_PULSE_US: u32 = 500;

/// Longest pulse of a servo in microseconds: the other end stop.
pub const MAX_PULSE_US: u32 = 2500;

/// Time between two positions of a move, in microseconds: one period of the
/// PWM.
pub const POSITIONING_INTERVAL_US: u64 = 20_000;

/// The position that the manipulator is taken to be in at power-on: 1.57,
/// 1.3, 0.7 and 2.5 radians for rotation, shoulder, forearm and claw.
pub fn init_position() -> (position: Position)
    ensures
        position.rotation@ == 0x3fc8_f5c3,
        position.shoulder@ == 0x3fa6_6666,
        position.forearm@ == 0x3f33_3333,
        position.claw@ == 0x4020_0000,
{
    Quantity {
        rotation: WithUnit::new(0x3fc8_f5c3),
        shoulder: WithUnit::new(0x3fa6_6666),
        forearm: WithUnit::new(0x3f33_3333),
        claw: WithUnit::new(0x4020_0000),
    }
}

/// The largest speed of each joint: a third of pi, half of pi, half of pi
/// and pi radians per second for rotation, shoulder, forearm and claw.
pub fn max_speed() -> (speed: Velocity)
    ensures
        speed.rotation@ == 0x3f86_0a92,
        speed.shoulder@ == 0x3fc9_0fdb,
        speed.forearm@ == 0x3fc9_0fdb,
        speed.claw@ == 0x4049_0fdb,
{
    Quantity {
        rotation: WithUnit::new(0x3f86_0a92),
        shoulder: WithUnit::new(0x3fc9_0fdb),
        forearm: WithUnit::new(0x3fc9_0fdb),
        claw: WithUnit::new(0x4049_0fdb),
    }
}

/// The motion tick is the period of the PWM.
pub proof fn lemma_positioning_interval()
    ensures
        POSITIONING_INTERVAL_US == PERIOD_US,
        POSITIONING_INTERVAL_US * PWM_FREQ_HZ == 1_000_000,
{
}

/// The later of two instants.
pub open spec fn later(a: int, b: int) -> int {
    if a >= b {
        a
    } else {
        b
    }
}

/// The pace of the motion core: the instant, in ticks of the clock, at which
/// the next position is due.
pub struct Positioner {
    next_tick: u64,
}

impl View for Positioner {
    type V = u64;

    closed spec fn view(&self) -> u64 {
        self.next_tick
    }
}

impl Positioner {
    /// A pace that starts at `now`.
    pub fn make(now: u64) -> (positioner: Self)
        ensures
            positioner@ == now,
    {
        Positioner { next_tick: now }
    }

    /// The instant at which the next position is due.
    pub fn next_tick(&self) -> (tick: u64)
        ensures
            tick == self@,
    {
        self.next_tick
    }

    /// Sets the instant at which the next position is due: one `interval`
    /// after the last, or `now` where that is already past. An engine that
    /// fell behind does not catch up by a burst.
    pub fn run(&mut self, now: u64, interval: u64) -> (tick: u64)
        requires
            old(self)@ + interval <= u64::MAX,
        ensures
            tick == final(self)@,
            final(self)@ == later(old(self)@ + interval, now as int),
            final(self)@ >= old(self)@ + interval,
            final(self)@ == old(self)@ + interval || final(self)@ == now,
            final(self)@ >= now,
    {
        let due: u64 = self.next_tick + interval;
        let tick: u64 = if due >= now {
            due
        } else {
            now
        };
        self.next_tick = tick;
        tick
    }

    /// Whether the next position is due at `now`: until then the engine
    /// spins.
    pub fn is_due(&self, now: u64) -> (due: bool)
        ensures
            due == (now >= self@),
    {
        now >= self.next_tick
    }
}

/// The factors of the steps of a move of `steps` steps, in the order in which
/// they are applied: each position is the target less the step times its
/// factor.
pub open spec fn step_factors(steps: nat) -> Seq<u32> {
    Seq::new(steps, |i: int| (steps - 1 - i) as u32)
}

/// The steps that are left of a move.
pub struct Interpolator {
    steps: u32,
}

impl View for Interpolator {
    type V = Seq<u32>;

    closed spec fn view(&self) -> Seq<u32> {
        step_factors(self.steps as nat)
    }
}

impl Interpolator {
    /// A move of `steps` steps.
    pub fn new(steps: u32) -> (interpolator: Self)
        ensures
            interpolator@ == step_factors(steps as nat),
    {
        Interpolator { steps }
    }

    /// Number of steps that are left.
    pub fn steps(&self) -> (steps: u32)
        ensures
            steps == self@.len(),
    {
        self.steps
    }

    /// The factor of the next step, where one is left.
    pub fn next(&mut self) -> (factor: Option<u32>)
        ensures
            old(self)@.len() == 0 ==> factor is None && final(self)@ == old(self)@,
            old(self)@.len() > 0 ==> factor == Some(old(self)@[0]) && final(self)@ == old(
                self,
            )@.skip(1),
    {
        if self.steps == 0 {
            return None;
        }
        let ghost before = self.steps;
        let factor: u32 = self.steps - 1;
        self.steps = factor;
        proof {
            assert(step_factors(factor as nat) =~= step_factors(before as nat).skip(1));
        }
        Some(factor)
    }
}

/// A move of at least one step ends with the factor zero, that is at its
/// target, and its factors fall by one from step to step, starting one
/// below the number of steps.
pub proof fn lemma_move_ends_at_target(steps: nat)
    requires
        0 < steps <= u32::MAX,
    ensures
        step_factors(steps).len() == steps,
        step_factors(steps).last() == 0,
        step_factors(steps)[0] == steps - 1,
        forall|i: int| 0 <= i < steps ==> #[trigger] step_factors(steps)[i] == steps - 1 - i,
{
}

/// The range of duty cycles that moves one servo from end stop to end stop.
#[derive(Clone, Copy, Debug, PartialEq, Eq)]
pub struct Servo {
    min_duty: u16,
    max_pos: u16,
}

/// The duty cycle of a pulse of `pulse_us` microseconds, on a channel whose
/// full duty cycle is `max_duty_cycle`.
pub open spec fn duty_of_pulse(pulse_us: nat, max_duty_cycle: nat) -> nat {
    pulse_us * max_duty_cycle / (PERIOD_US as nat)
}

impl Servo {
    #[verifier::type_invariant]
    spec fn in_range(self) -> bool {
        self.min_duty + self.max_pos <= u16::MAX
    }

    /// Duty cycle of the shortest pulse.
    pub closed spec fn min_duty(self) -> nat {
        self.min_duty as nat
    }

    /// Duty cycle of the longest pulse.
    pub closed spec fn max_duty(self) -> nat {
        (self.min_duty + self.max_pos) as nat
    }

    /// The duty cycle that puts the servo `offset` above its first end stop.
    pub open spec fn duty(self, offset: nat) -> nat {
        self.min_duty() + offset
    }

    /// The servo on a channel whose full duty cycle is `max_duty_cycle`.
    pub fn init(max_duty_cycle: u16) -> (servo: Self)
        ensures
            servo.min_duty() == duty_of_pulse(MIN_PULSE_US as nat, max_duty_cycle as nat),
            servo.max_duty() == duty_of_pulse(MAX_PULSE_US as nat, max_duty_cycle as nat),
            servo.min_duty() <= servo.max_duty() <= max_duty_cycle,
    {
        let full: u32 = max_duty_cycle as u32;
        let min_duty: u32 = MIN_PULSE_US * full / PERIOD_US;
        let max_duty: u32 = MAX_PULSE_US * full / PERIOD_US;
        Servo { min_duty: min_duty as u16, max_pos: (max_duty - min_duty) as u16 }
    }

    /// Largest offset from the shortest pulse.
    pub fn max_pos(&self) -> (max_pos: u16)
        ensures
            max_pos == self.max_duty() - self.min_duty(),
    {
        proof {
            use_type_invariant(self);
        }
        self.max_pos
    }

    /// The duty cycle that puts the servo `offset` above its first end stop.
    /// It rises with the offset and stays between the end stops.
    pub fn set_pos(&self, offset: u16) -> (duty: u16)
        requires
            offset <= self.max_duty() - self.min_duty(),
        ensures
            duty == self.duty(offset as nat),
            self.min_duty() <= duty <= self.max_duty(),
    {
        proof {
            use_type_invariant(self);
        }
        offset + self.min_duty
    }
}

/// The duty cycle of a servo rises with the offset and stays between the
/// end stops, which the offsets zero and `max_duty - min_duty` reach.
pub proof fn lemma_duty_rises(servo: Servo, lower: nat, higher: nat)
    requires
        servo.min_duty() <= servo.max_duty(),
        lower <= higher <= servo.max_duty() - servo.min_duty(),
    ensures
        servo.min_duty() <= servo.duty(lower) <= servo.duty(higher) <= servo.max_duty(),
        lower < higher ==> servo.duty(lower) < servo.duty(higher),
        servo.duty(0) == servo.min_duty(),
        servo.duty((servo.max_duty() - servo.min_duty()) as nat) == servo.max_duty(),
{
}

/// The four servos of the manipulator.
#[derive(Clone, Copy, Debug, PartialEq, Eq)]
pub struct Mechanics {
    rotation: Servo,
    shoulder: Servo,
    forearm: Servo,
    claw: Servo,
}

impl Mechanics {
    /// The servo of each joint.
    pub closed spec fn servos(self) -> Quantity<Servo> {
        Quantity {
            rotation: self.rotation,
            shoulder: self.shoulder,
            forearm: self.forearm,
            claw: self.claw,
        }
    }

    /// Whether each offset is within the range of its servo.
    pub open spec fn reaches(self, offsets: Quantity<u16>) -> bool {
        let servos = self.servos();
        &&& offsets.rotation <= servos.rotation.max_duty() - servos.rotation.min_duty()
        &&& offsets.shoulder <= servos.shoulder.max_duty() - servos.shoulder.min_duty()
        &&& offsets.forearm <= servos.forearm.max_duty() - servos.forearm.min_duty()
        &&& offsets.claw <= servos.claw.max_duty() - servos.claw.min_duty()
    }

    /// The mechanics on channels whose full duty cycle is `max_duty_cycle`.
    pub fn make(max_duty_cycle: Quantity<u16>) -> (mechanics: Self)
        ensures
            mechanics.servos().rotation.max_duty() == duty_of_pulse(
                MAX_PULSE_US as nat,
                max_duty_cycle.rotation as nat,
            ),
            mechanics.servos().shoulder.max_duty() == duty_of_pulse(
                MAX_PULSE_US as nat,
                max_duty_cycle.shoulder as nat,
            ),
            mechanics.servos().forearm.max_duty() == duty_of_pulse(
                MAX_PULSE_US as nat,
                max_duty_cycle.forearm as nat,
            ),
            mechanics.servos().claw.max_duty() == duty_of_pulse(
                MAX_PULSE_US as nat,
                max_duty_cycle.claw as nat,
            ),
            mechanics.servos().rotation.min_duty() == duty_of_pulse(
                MIN_PULSE_US as nat,
                max_duty_cycle.rotation as nat,
            ),
            mechanics.servos().shoulder.min_duty() == duty_of_pulse(
                MIN_PULSE_US as nat,
                max_duty_cycle.shoulder as nat,
            ),
            mechanics.servos().forearm.min_duty() == duty_of_pulse(
                MIN_PULSE_US as nat,
                max_duty_cycle.forearm as nat,
            ),
            mechanics.servos().claw.min_duty() == duty_of_pulse(
                MIN_PULSE_US as nat,
                max_duty_cycle.claw as nat,
            ),
    {
        Mechanics {
            rotation: Servo::init(max_duty_cycle.rotation),
            shoulder: Servo::init(max_duty_cycle.shoulder),
            forearm: Servo::init(max_duty_cycle.forearm),
            claw: Servo::init(max_duty_cycle.claw),
        }
    }

    /// Largest offset of each servo.
    pub fn max_pos(&self) -> (max_pos: Quantity<u16>)
        ensures
            self.reaches(max_pos),
            forall|offsets: Quantity<u16>|
                self.reaches(offsets) <==> #[trigger] within(offsets, max_pos),
    {
        Quantity {
            rotation: self.rotation.max_pos(),
            shoulder: self.shoulder.max_pos(),
            forearm: self.forearm.max_pos(),
            claw: self.claw.max_pos(),
        }
    }

    /// The duty cycle of each servo for the offset of its joint.
    pub fn set_pos(&self, offsets: Quantity<u16>) -> (duties: Quantity<u16>)
        requires
            self.reaches(offsets),
        ensures
            duties.rotation == self.servos().rotation.duty(offsets.rotation as nat),
            duties.shoulder == self.servos().shoulder.duty(offsets.shoulder as nat),
            duties.forearm == self.servos().forearm.duty(offsets.forearm as nat),
            duties.claw == self.servos().claw.duty(offsets.claw as nat),
    {
        Quantity {
            rotation: self.rotation.set_pos(offsets.rotation),
            shoulder: self.shoulder.set_pos(offsets.shoulder),
            forearm: self.forearm.set_pos(offsets.forearm),
            claw: self.claw.set_pos(offsets.claw),
        }
    }
}

/// Whether no joint of `offsets` is above that of `limits`.
pub open spec fn within(offsets: Quantity<u16>, limits: Quantity<u16>) -> bool {
    &&& offsets.rotation <= limits.rotation
    &&& offsets.shoulder <= limits.shoulder
    &&& offsets.forearm <= limits.forearm
    &&& offsets.claw <= limits.claw
}

} // verus!
