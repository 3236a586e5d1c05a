use clock::model::Config;
use clock::pwm::{pwm_action, timing, PwmAction};
use clock::scheduler::{Scheduler, Step, BLINK_MS};
use clock::weather::WeatherType;

fn clock_steps() -> Vec<Step> {
    vec![
        Step::Clock { draw_dots: true },
        Step::Hold { ms: BLINK_MS },
        Step::Clock { draw_dots: false },
        Step::Hold { ms: BLINK_MS },
    ]
}

#[test]
fn weather_phase_once_per_interval() {
    let mut s = Scheduler::new(3, 1500, 1000);
    for k in 1..=3u8 {
        assert_eq!(s.next_steps(), clock_steps());
        assert_eq!(s.counter_value(), k);
    }
    // The counter is at the threshold: one weather phase, counter reset.
    assert_eq!(
        s.next_steps(),
        vec![
            Step::Weather { weather_type: WeatherType::Temperature },
            Step::Hold { ms: 1500 },
            Step::Weather { weather_type: WeatherType::Humidity },
            Step::Hold { ms: 1000 },
        ]
    );
    assert_eq!(s.counter_value(), 0);
    assert_eq!(s.next_steps(), clock_steps());
    assert_eq!(s.counter_value(), 1);
}

#[test]
fn zero_interval_shows_weather_every_time() {
    let mut s = Scheduler::new(0, 5, 6);
    for _ in 0..3 {
        assert!(matches!(s.next_steps()[0], Step::Weather { weather_type: WeatherType::Temperature }));
        assert_eq!(s.counter_value(), 0);
    }
}

#[test]
fn largest_interval_does_not_overflow() {
    let mut s = Scheduler::new(255, 1, 1);
    for _ in 0..255 {
        assert_eq!(s.next_steps(), clock_steps());
    }
    assert_eq!(s.counter_value(), 255);
    assert!(matches!(s.next_steps()[0], Step::Weather { .. }));
}

#[test]
fn default_config() {
    let c = Config::new();
    assert_eq!(c.display.gpio_dev, "/dev/gpiochip0");
    assert_eq!((c.display.data_pin, c.display.cs_pin, c.display.clk_pin), (85, 83, 84));
    assert_eq!(c.display.number_of_matrices, 4);
    assert_eq!(c.display.brightness, 0x0F);
    assert!(!c.display.slim);
    assert_eq!(c.weather.display_interval_sec, 20);
    assert_eq!(c.weather.humidity_on_display_msec, 1000);
    assert_eq!(c.weather.temperature_on_display_msec, 1500);
    assert_eq!(c.weather.sensor.gpio_dev, "/dev/gpiochip0");
}

#[test]
fn pwm_settings() {
    assert_eq!(pwm_action(2, true, Some(50), 30), PwmAction::Disable { pwm: 2 });
    assert_eq!(pwm_action(2, false, Some(50), 30), PwmAction::Enable { pwm: 2, frequency: 50, duty: 30 });
    assert_eq!(pwm_action(2, false, None, 30), PwmAction::Nothing);
    assert_eq!(timing(50, 30), (20_000_000, 6_000_000));
    assert_eq!(timing(1000, 100), (1_000_000, 1_000_000));
    assert_eq!(timing(3, 1), (333_333_333, 3_333_333));
}
