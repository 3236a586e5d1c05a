use clock::aht10::error::Error;
use clock::aht10::{decode, RawReading, StatusFlags, AHT10, CMD_INIT, CMD_MEASURE, I2C_ADDRESS};

#[test]
fn protocol_constants() {
    assert_eq!(I2C_ADDRESS, 0x38);
    assert_eq!(CMD_INIT, [0xE1, 0x08, 0x00]);
    assert_eq!(CMD_MEASURE, [0xAC, 0x33, 0x00]);
}

#[test]
fn decode_known_reply() {
    let r = decode::<()>([0x98, 0x1E, 0xA2, 0x35, 0x22, 0xA0]).ok().unwrap();
    assert_eq!(r, RawReading { humidity: 0x1EA23, temperature: 0x522A0 });
    let hum = 100.0 * (r.humidity as f32) / ((1 << 20) as f32);
    let temp = (200.0 * (r.temperature as f32) / ((1 << 20) as f32)) - 50.0;
    assert!((hum - 11.9662).abs() < 1e-3);
    assert!((temp - 14.1907).abs() < 1e-3);
}

#[test]
fn decode_extremes() {
    let r = decode::<()>([0x08, 0xFF, 0xFF, 0xFF, 0xFF, 0xFF]).ok().unwrap();
    assert_eq!(r, RawReading { humidity: 0xFFFFF, temperature: 0xFFFFF });
    let r = decode::<()>([0x08, 0, 0, 0, 0, 0]).ok().unwrap();
    assert_eq!(r, RawReading { humidity: 0, temperature: 0 });
}

#[test]
fn uncalibrated_reply_is_refused() {
    for tail in [[0u8; 5], [0xFF; 5], [0x1E, 0xA2, 0x35, 0x22, 0xA0]] {
        for status in [0x00u8, 0x80, 0xF7] {
            let mut reply = [status, 0, 0, 0, 0, 0];
            reply[1..].copy_from_slice(&tail);
            assert!(matches!(decode::<()>(reply), Err(Error::UncalibratedError)));
        }
    }
}

#[test]
fn status_flags() {
    let s = StatusFlags { bits: 0x98 };
    assert!(s.is_busy());
    assert!(s.is_calibrated());
    assert_eq!(s.mode(), 0);
    let s = StatusFlags { bits: 0x60 };
    assert!(!s.is_busy());
    assert!(!s.is_calibrated());
    assert_eq!(s.mode(), 3);
}

#[test]
fn init_then_measure() {
    let mut sensor = AHT10::new();
    assert!(!sensor.ready());
    assert!(matches!(sensor.init::<&str>(Err("nack")), Err(Error::InitError { source: "nack" })));
    assert!(!sensor.ready());
    assert!(sensor.init::<&str>(Ok(())).is_ok());
    assert!(sensor.ready());
    let r = sensor.measure::<&str>(Ok([0x1C, 0x80, 0x00, 0x08, 0x00, 0x00])).ok().unwrap();
    assert_eq!(r, RawReading { humidity: 0x80000, temperature: 0x80000 });
    assert!(matches!(sensor.measure::<&str>(Err("timeout")), Err(Error::MeasureError { source: "timeout" })));
    assert!(matches!(sensor.measure::<&str>(Ok([0x10, 1, 2, 3, 4, 5])), Err(Error::UncalibratedError)));
}

#[test]
fn error_messages() {
    assert_eq!(Error::<()>::UncalibratedError.message(), "AHT10 is not calibrated yet");
    assert_eq!(Error::InitError { source: () }.message(), "AHT10 init error");
    assert_eq!(Error::MeasureError { source: () }.message(), "AHT10 measure error");
}
