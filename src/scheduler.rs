//! The display cycle: clock phases with a blinking separator, and every
//! `display_interval_sec` of them a weather phase showing temperature, then
//! humidity.
use vstd::prelude::*;

use crate::weather::WeatherType;

verus! {

/// How long each half of the separator's blink is held.
pub const BLINK_MS: u64 = 500;

/// One thing the display loop does.
#[derive(Debug, Clone, Copy, PartialEq, Eq, Structural)]
pub enum Step {
    /// Draw the current time, with the separator or without it.
    Clock { draw_dots: bool },
    /// Measure and draw one reading.
    Weather { weather_type: WeatherType },
    /// Keep the frame on display for `ms` milliseconds.
    Hold { ms: u64 },
}

/// Whether a loop iteration that starts at `counter` is a weather phase.
pub open spec fn is_weather_turn(counter: int, threshold: int) -> bool {
    counter >= threshold
}

/// The counter after one iteration: reset on a weather phase, else one more.
pub open spec fn advance(counter: int, threshold: int) -> int {
    if is_weather_turn(counter, threshold) {
        0
    } else {
        counter + 1
    }
}

/// The counter after `k` iterations that start at `counter`.
pub open spec fn counter_after(counter: int, threshold: int, k: nat) -> int
    decreases k,
{
    if k == 0 {
        counter
    } else {
        advance(counter_after(counter, threshold, (k - 1) as nat), threshold)
    }
}

pub open spec fn clock_steps() -> Seq<Step> {
    seq![
        Step::Clock { draw_dots: true },
        Step::Hold { ms: BLINK_MS },
        Step::Clock { draw_dots: false },
        Step::Hold { ms: BLINK_MS },
    ]
}

pub open spec fn weather_steps(temperature_ms: u64, humidity_ms: u64) -> Seq<Step> {
    seq![
        Step::Weather { weather_type: WeatherType::Temperature },
        Step::Hold { ms: temperature_ms },
        Step::Weather { weather_type: WeatherType::Humidity },
        Step::Hold { ms: humidity_ms },
    ]
}

/// The phase selection of the display loop: a counter and its threshold.
pub struct Scheduler {
    counter: u8,
    display_interval_sec: u8,
    temperature_on_display_msec: u64,
    humidity_on_display_msec: u64,
}

impl Scheduler {
    pub closed spec fn counter(&self) -> int {
        self.counter as int
    }

    pub closed spec fn threshold(&self) -> int {
        self.display_interval_sec as int
    }

    pub closed spec fn temperature_ms(&self) -> u64 {
        self.temperature_on_display_msec
    }

    pub closed spec fn humidity_ms(&self) -> u64 {
        self.humidity_on_display_msec
    }

    /// A cycle whose counter starts at zero.
    pub fn new(display_interval_sec: u8, temperature_on_display_msec: u64, humidity_on_display_msec: u64) -> (r:
        Scheduler)
        ensures
            r.counter() == 0,
            r.threshold() == display_interval_sec,
            r.temperature_ms() == temperature_on_display_msec,
            r.humidity_ms() == humidity_on_display_msec,
    {
        Scheduler { counter: 0, display_interval_sec, temperature_on_display_msec, humidity_on_display_msec }
    }

    /// The current value of the counter.
    pub fn counter_value(&self) -> (r: u8)
        ensures
            r == self.counter(),
    {
        self.counter
    }

    /// Decides the next loop iteration. When the counter has reached the
    /// threshold, it is reset and the iteration shows temperature then
    /// humidity, each held for its configured time; otherwise the counter
    /// grows by one and the iteration shows the clock with and then without
    /// the separator, half a second each.
    pub fn next_steps(&mut self) -> (r: Vec<Step>)
        ensures
            final(self).counter() == advance(old(self).counter(), old(self).threshold()),
            final(self).threshold() == old(self).threshold(),
            final(self).temperature_ms() == old(self).temperature_ms(),
            final(self).humidity_ms() == old(self).humidity_ms(),
            r@ == if is_weather_turn(old(self).counter(), old(self).threshold()) {
                weather_steps(old(self).temperature_ms(), old(self).humidity_ms())
            } else {
                clock_steps()
            },
    {
        let mut steps: Vec<Step> = Vec::new();
        if self.counter >= self.display_interval_sec {
            self.counter = 0;
            steps.push(Step::Weather { weather_type: WeatherType::Temperature });
            steps.push(Step::Hold { ms: self.temperature_on_display_msec });
            steps.push(Step::Weather { weather_type: WeatherType::Humidity });
            steps.push(Step::Hold { ms: self.humidity_on_display_msec });
            assert(steps@ =~= weather_steps(self.temperature_on_display_msec, self.humidity_on_display_msec));
        } else {
            self.counter = self.counter + 1;
            steps.push(Step::Clock { draw_dots: true });
            steps.push(Step::Hold { ms: BLINK_MS });
            steps.push(Step::Clock { draw_dots: false });
            steps.push(Step::Hold { ms: BLINK_MS });
            assert(steps@ =~= clock_steps());
        }
        steps
    }
}

proof fn lemma_counter_after_reset(threshold: int, k: nat)
    requires
        0 < threshold,
        1 <= k <= threshold + 1,
    ensures
        counter_after(threshold, threshold, k) == k - 1,
    decreases k,
{
    if k > 1 {
        lemma_counter_after_reset(threshold, (k - 1) as nat);
    } else {
        assert(counter_after(threshold, threshold, 0) == threshold);
    }
}

/// With a positive threshold, an iteration that starts with the counter at
/// the threshold is a weather phase that resets the counter to zero; the
/// `threshold` iterations after it are clock phases, and the one after those
/// is the next weather phase.
pub proof fn lemma_weather_once(threshold: u8)
    requires
        threshold > 0,
    ensures
        is_weather_turn(threshold as int, threshold as int),
        advance(threshold as int, threshold as int) == 0,
        forall|k: nat|
            1 <= k <= threshold ==> !is_weather_turn(
                #[trigger] counter_after(threshold as int, threshold as int, k),
                threshold as int,
            ),
        is_weather_turn(counter_after(threshold as int, threshold as int, (threshold + 1) as nat), threshold as int),
{
    assert forall|k: nat| 1 <= k <= threshold implies !is_weather_turn(
        #[trigger] counter_after(threshold as int, threshold as int, k),
        threshold as int,
    ) by {
        lemma_counter_after_reset(threshold as int, k);
    }
    lemma_counter_after_reset(threshold as int, (threshold + 1) as nat);
}

} // verus!
