//! The configuration record the clock starts from.
use vstd::prelude::*;

verus! {

pub struct Config {
    pub display: Display,
    pub weather: Weather,
}

/// Wiring and look of the matrix chain.
pub struct Display {
    /// GPIO character device, such as "/dev/gpiochip0".
    pub gpio_dev: String,
    pub data_pin: u32,
    pub cs_pin: u32,
    pub clk_pin: u32,
    /// 1 to 16.
    pub number_of_matrices: u32,
    /// 0x0 to 0xF.
    pub brightness: u8,
    /// Use the slim glyph set.
    pub slim: bool,
}

/// Cadence of the weather phases.
pub struct Weather {
    /// Clock phases (about a second each) between two weather phases.
    pub display_interval_sec: u8,
    pub humidity_on_display_msec: u64,
    pub temperature_on_display_msec: u64,
    pub sensor: WeatherSensor,
}

pub struct WeatherSensor {
    /// The two-wire bus device, such as "/dev/i2c-0".
    pub gpio_dev: String,
}

impl Config {
    /// The default configuration: four normal-font matrices at full
    /// brightness on pins 85 (data), 83 (chip select) and 84 (clock) of
    /// "/dev/gpiochip0", and a weather phase every 20 clock phases showing
    /// temperature for 1.5 s and humidity for 1 s.
    pub fn new() -> (r: Self)
        ensures
            r.display.gpio_dev@ == "/dev/gpiochip0"@,
            r.display.data_pin == 85,
            r.display.cs_pin == 83,
            r.display.clk_pin == 84,
            r.display.number_of_matrices == 4,
            r.display.brightness == 0x0F,
            !r.display.slim,
            r.weather.display_interval_sec == 20,
            r.weather.humidity_on_display_msec == 1000,
            r.weather.temperature_on_display_msec == 1500,
            r.weather.sensor.gpio_dev@ == "/dev/gpiochip0"@,
    {
        Config {
            display: Display {
                gpio_dev: "/dev/gpiochip0".to_string(),
                data_pin: 85,
                cs_pin: 83,
                clk_pin: 84,
                number_of_matrices: 4,
                brightness: 0x0F,
                slim: false,
            },
            weather: Weather {
                display_interval_sec: 20,
                humidity_on_display_msec: 1000,
                temperature_on_display_msec: 1500,
                sensor: WeatherSensor { gpio_dev: "/dev/gpiochip0".to_string() },
            },
        }
    }
}

} // verus!
