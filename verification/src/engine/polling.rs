//! Scheduling of the I2C sensor polls, and what the polling task reports.
//!
//! Time is counted in ticks of the engine's clock.
use crate::engine::bus::SystemError;
use crate::engine::distance::SensorError;
use crate::sensors::{Data, Distance, I2cSensor, I2cSensorCmd};
use vstd::prelude::*;

verus! {

/// The largest instant and the largest duration: "never" and "forever".
pub const NEVER: u64 = 0xffff_ffff_ffff_ffff;

/// A sensor whose next poll is at `next` is due at `now`.
pub open spec fn spec_due(next: u64, now: u64) -> bool {
    now >= next
}

/// The next poll of a sensor after a round at `now`: one interval after
/// `now` when it was due and polled, unchanged otherwise.
pub open spec fn spec_next_after(next: u64, interval: u64, now: u64) -> u64 {
    if spec_due(next, now) {
        (now + interval) as u64
    } else {
        next
    }
}

/// When a sensor is polled.
pub struct PollSchedule {
    poll_interval: u64,
    next_poll_at: u64,
}

impl PollSchedule {
    /// The time between two polls.
    pub closed spec fn interval(&self) -> u64 {
        self.poll_interval
    }

    /// The instant of the next poll ([`NEVER`] when not subscribed).
    pub closed spec fn next(&self) -> u64 {
        self.next_poll_at
    }

    /// The schedule of a sensor nobody subscribed to: it is never polled.
    pub fn new() -> (s: PollSchedule)
        ensures
            s.interval() == NEVER,
            s.next() == NEVER,
    {
        PollSchedule { poll_interval: NEVER, next_poll_at: NEVER }
    }

    /// Whether the sensor is due to be polled at `now`.
    pub fn ready(&self, now: u64) -> (due: bool)
        ensures
            due == spec_due(self.next(), now),
    {
        now >= self.next_poll_at
    }

    /// Sets the polling interval; the sensor is due at once.
    pub fn set_poll_interval(&mut self, interval: u64, now: u64)
        ensures
            final(self).interval() == interval,
            final(self).next() == now,
    {
        self.poll_interval = interval;
        self.next_poll_at = now;
    }

    /// Schedules the next poll one interval after `now`, and returns it.
    pub fn update_next_poll_at(&mut self, now: u64) -> (next: u64)
        requires
            now + old(self).interval() <= NEVER,
        ensures
            next == now + old(self).interval(),
            final(self).next() == next,
            final(self).interval() == old(self).interval(),
    {
        self.next_poll_at = now + self.poll_interval;
        self.next_poll_at
    }

    /// The time between two polls.
    pub fn poll_interval(&self) -> (interval: u64)
        ensures
            interval == self.interval(),
    {
        self.poll_interval
    }

    /// The instant of the next poll.
    pub fn next_poll_at(&self) -> (next: u64)
        ensures
            next == self.next(),
    {
        self.next_poll_at
    }
}

/// How long the polling task waits for a command: until the earliest next
/// poll, or (`None`) until a command arrives when no sensor is scheduled.
pub fn wait_ticks(front: &PollSchedule, back: &PollSchedule, now: u64) -> (wait: Option<u64>)
    requires
        front.next() >= now,
        back.next() >= now,
    ensures
        wait == spec_wait(front.next(), back.next(), now),
{
    let a: u64 = front.next_poll_at();
    let b: u64 = back.next_poll_at();
    let next: u64 = if a <= b {
        a
    } else {
        b
    };
    if next == NEVER {
        None
    } else {
        Some(next - now)
    }
}

/// The two distance sensors.
#[derive(Clone, Copy, Debug, PartialEq, Eq, Structural)]
pub enum Side {
    Front,
    Back,
}

/// What the polling task sends after reading the distance sensor on `side`:
/// the distance as telemetry, or a distance sensor error.
pub open spec fn spec_reading_outcome(side: Side, reading: Result<Distance, SensorError>) -> Result<
    Data,
    SystemError,
> {
    match reading {
        Ok(d) => Ok(
            match side {
                Side::Front => Data::DistanceFront(d),
                Side::Back => Data::DistanceBack(d),
            },
        ),
        Err(_) => Err(SystemError::SensorError(I2cSensor::Distance)),
    }
}

/// Turns a reading of the distance sensor on `side` into what the polling
/// task sends.
pub fn reading_outcome(side: Side, reading: Result<Distance, SensorError>) -> (out: Result<
    Data,
    SystemError,
>)
    ensures
        out == spec_reading_outcome(side, reading),
{
    match reading {
        Ok(d) => match side {
            Side::Front => Ok(Data::DistanceFront(d)),
            Side::Back => Ok(Data::DistanceBack(d)),
        },
        Err(_) => Err(SystemError::SensorError(I2cSensor::Distance)),
    }
}

/// How long the polling task waits after a round: until the earliest of the
/// two next polls, or (`None`) until a command when neither is scheduled.
pub open spec fn spec_wait(front_next: u64, back_next: u64, now: u64) -> Option<u64> {
    let next = if front_next <= back_next {
        front_next
    } else {
        back_next
    };
    if next == NEVER {
        None
    } else {
        Some((next - now) as u64)
    }
}

/// What one round of the polling task sends, and how long it then waits.
#[derive(Clone, Copy, Debug)]
pub struct Round {
    /// What is sent for the front sensor, when it was polled.
    pub front: Option<Result<Data, SystemError>>,
    /// What is sent for the back sensor, when it was polled.
    pub back: Option<Result<Data, SystemError>>,
    /// How long to wait for a command before the next round (`None`: until
    /// a command arrives).
    pub wait: Option<u64>,
}

/// The polling task's state: the schedules of the front and back distance
/// sensors.
pub struct SensorPoller {
    front: PollSchedule,
    back: PollSchedule,
}

impl SensorPoller {
    /// The front sensor's schedule.
    pub closed spec fn front(&self) -> PollSchedule {
        self.front
    }

    /// The back sensor's schedule.
    pub closed spec fn back(&self) -> PollSchedule {
        self.back
    }

    /// No subscription yet: neither sensor is polled.
    pub fn new() -> (p: SensorPoller)
        ensures
            p.front().interval() == NEVER && p.front().next() == NEVER,
            p.back().interval() == NEVER && p.back().next() == NEVER,
    {
        SensorPoller { front: PollSchedule::new(), back: PollSchedule::new() }
    }

    /// The poll intervals, front then back.
    pub fn intervals(&self) -> (intervals: (u64, u64))
        ensures
            intervals == (self.front().interval(), self.back().interval()),
    {
        (self.front.poll_interval(), self.back.poll_interval())
    }

    /// Which sensors are due at `now`, front then back: those to read in
    /// this round.
    pub fn due(&self, now: u64) -> (due: (bool, bool))
        ensures
            due == (spec_due(self.front().next(), now), spec_due(self.back().next(), now)),
    {
        (self.front.ready(now), self.back.ready(now))
    }

    /// Ends a round at `now`, given the readings of the sensors that were
    /// due (the readings of sensors that were not due are ignored): every
    /// due sensor's reading is sent as telemetry or as an error and the
    /// sensor is next due one interval after `now`; the others keep their
    /// schedule. Then the task waits until the earliest next poll, or for a
    /// command when no sensor is scheduled.
    pub fn finish_round(
        &mut self,
        now: u64,
        front_reading: Option<Result<Distance, SensorError>>,
        back_reading: Option<Result<Distance, SensorError>>,
    ) -> (round: Round)
        requires
            spec_due(old(self).front().next(), now) ==> front_reading is Some,
            spec_due(old(self).back().next(), now) ==> back_reading is Some,
            spec_due(old(self).front().next(), now) ==> now + old(self).front().interval() <= NEVER,
            spec_due(old(self).back().next(), now) ==> now + old(self).back().interval() <= NEVER,
        ensures
            final(self).front().interval() == old(self).front().interval(),
            final(self).back().interval() == old(self).back().interval(),
            final(self).front().next() == spec_next_after(
                old(self).front().next(),
                old(self).front().interval(),
                now,
            ),
            final(self).back().next() == spec_next_after(
                old(self).back().next(),
                old(self).back().interval(),
                now,
            ),
            round.front == if spec_due(old(self).front().next(), now) {
                Some(spec_reading_outcome(Side::Front, front_reading.unwrap()))
            } else {
                None
            },
            round.back == if spec_due(old(self).back().next(), now) {
                Some(spec_reading_outcome(Side::Back, back_reading.unwrap()))
            } else {
                None
            },
            round.wait == spec_wait(final(self).front().next(), final(self).back().next(), now),
    {
        let front_out = if self.front.ready(now) {
            let out = reading_outcome(Side::Front, front_reading.unwrap());
            self.front.update_next_poll_at(now);
            Some(out)
        } else {
            None
        };
        let back_out = if self.back.ready(now) {
            let out = reading_outcome(Side::Back, back_reading.unwrap());
            self.back.update_next_poll_at(now);
            Some(out)
        } else {
            None
        };
        let wait = wait_ticks(&self.front, &self.back, now);
        Round { front: front_out, back: back_out, wait }
    }

    /// Subscribes both distance sensors with the given poll interval at
    /// `now`: both are due at once, then every interval.
    pub fn subscribe(&mut self, interval: u64, now: u64)
        ensures
            final(self).front().interval() == interval && final(self).front().next() == now,
            final(self).back().interval() == interval && final(self).back().next() == now,
    {
        self.front.set_poll_interval(interval, now);
        self.back.set_poll_interval(interval, now);
    }
}

/// The polling schedule, for every schedule and time: a sensor is due
/// exactly once its next poll has come; after a round a due sensor is next
/// due exactly one interval later and a sensor not due keeps its time, so
/// the next poll is never in the past. A sensor nobody subscribed to is
/// never due before the end of time.
pub proof fn law_round_schedule(next: u64, interval: u64, now: u64)
    requires
        now >= next ==> now + interval <= NEVER,
    ensures
        spec_due(next, now) <==> now >= next,
        now >= next ==> spec_next_after(next, interval, now) == now + interval,
        now < next ==> spec_next_after(next, interval, now) == next,
        spec_next_after(next, interval, now) >= now,
        next == NEVER && now < NEVER ==> !spec_due(next, now),
{
}

/// The poll interval in ms that a subscription command sets for both
/// distance sensors. Subscriptions to the cliff sensor and the IMU are not
/// implemented (the polling task stops on them).
pub fn distance_subscription_ms(cmd: I2cSensorCmd) -> (ms: u32)
    requires
        cmd matches I2cSensorCmd::SubscribeTo { sensor: I2cSensor::Distance, .. },
    ensures
        cmd == (I2cSensorCmd::SubscribeTo { sensor: I2cSensor::Distance, poll_interval_ms: ms }),
{
    match cmd {
        I2cSensorCmd::SubscribeTo { poll_interval_ms, .. } => poll_interval_ms,
    }
}

/// A reading reaches the main system unchanged and tagged with its own
/// sensor's side, for every side and reading: a successful reading of `d` is
/// sent as telemetry carrying exactly `d`, from the front sensor as
/// front distance and from the back sensor as back distance; a failed
/// reading is never sent as telemetry, always as a distance sensor error.
pub proof fn law_reading_outcome(side: Side, reading: Result<Distance, SensorError>)
    ensures
        spec_reading_outcome(side, reading) is Ok <==> reading is Ok,
        reading is Err ==> spec_reading_outcome(side, reading) == Err::<Data, SystemError>(
            SystemError::SensorError(I2cSensor::Distance),
        ),
        reading is Ok && side == Side::Front ==> spec_reading_outcome(side, reading)
            == Ok::<Data, SystemError>(Data::DistanceFront(reading->Ok_0)),
        reading is Ok && side == Side::Back ==> spec_reading_outcome(side, reading)
            == Ok::<Data, SystemError>(Data::DistanceBack(reading->Ok_0)),
{
}

/// The wait after a round reaches exactly the earliest next poll of the two
/// sensors, and is unbounded exactly when neither is scheduled.
pub proof fn law_wait(front_next: u64, back_next: u64, now: u64)
    requires
        front_next >= now,
        back_next >= now,
    ensures
        spec_wait(front_next, back_next, now) is None <==> (front_next == NEVER && back_next
            == NEVER),
        spec_wait(front_next, back_next, now) matches Some(w) ==> {
            &&& now + w <= front_next
            &&& now + w <= back_next
            &&& (now + w == front_next || now + w == back_next)
        },
{
}

} // verus!
