use ::ds1621::bus::I2cBus;
use ::ds1621::driver::{ds1621, Error, MODE};
use ::ds1621::sim::{BusEvent, SimBus, SimError};
use ::ds1621::temperature::{decode_temperature, encode_threshold, Temperature};

/// Truncate a temperature to the half-degree grid the chip stores:
/// floor(t) plus an extra half degree when the fractional part is >= 0.5.
fn truncate_to_half_degree(t: f32) -> Temperature {
    let f = t.floor();
    Temperature {
        whole: f as i8,
        half: t - f >= 0.5,
    }
}

fn temp_to_f32(t: Temperature) -> f32 {
    t.whole as f32 + if t.half { 0.5 } else { 0.0 }
}

#[test]
fn it_works() {}

#[test]
fn default_constructor_uses_default_address_and_continuous_mode() {
    let dev = ds1621::new_default(SimBus::new());
    assert_eq!(dev.addr, 0x4A);
    assert!(matches!(dev.mode, MODE::CONTINOUS));
    assert_eq!(dev.i2c.events.len(), 0);
}

#[test]
fn explicit_constructor_uses_given_address() {
    let dev = ds1621::new(SimBus::new(), 0x48);
    assert_eq!(dev.addr, 0x48);
    assert!(matches!(dev.mode, MODE::CONTINOUS));
    assert_eq!(dev.i2c.events.len(), 0);
}

#[test]
fn decode_whole_degrees() {
    let t = decode_temperature(23, 0);
    assert_eq!(t, Temperature { whole: 23, half: false });
    assert_eq!(temp_to_f32(t), 23.0);
}

#[test]
fn decode_half_degrees() {
    let t = decode_temperature(23, 1);
    assert_eq!(t, Temperature { whole: 23, half: true });
    assert_eq!(temp_to_f32(t), 23.5);
}

#[test]
fn decode_zero() {
    let t = decode_temperature(0, 0);
    assert_eq!(t, Temperature { whole: 0, half: false });
    assert_eq!(temp_to_f32(t), 0.0);
}

#[test]
fn decode_negative_with_half_flag() {
    let t = decode_temperature((-10i8) as u8, 5);
    assert_eq!(t, Temperature { whole: -10, half: true });
    assert_eq!(temp_to_f32(t), -9.5);
}

#[test]
fn decode_extreme_bytes() {
    assert_eq!(decode_temperature(128, 0), Temperature { whole: -128, half: false });
    assert_eq!(decode_temperature(255, 0), Temperature { whole: -1, half: false });
    assert_eq!(decode_temperature(127, 2), Temperature { whole: 127, half: true });
}

#[test]
fn encode_then_decode_reproduces_truncated_value() {
    for t in [23.7f32, 23.3, 23.5, 0.0, -9.5, -10.3, 125.0, -55.2] {
        let truncated = truncate_to_half_degree(t);
        let bytes = encode_threshold(0xA1, truncated);
        assert_eq!(bytes.len(), 3);
        let back = decode_temperature(bytes[1], bytes[2]);
        assert_eq!(back, truncated);
        assert_eq!(temp_to_f32(back), temp_to_f32(truncated));
    }
}

#[test]
fn write_high_temperature_wire_bytes() {
    let mut dev = ds1621::new_default(SimBus::new());
    let r = dev.write_high_temperature(truncate_to_half_degree(23.7));
    assert!(r.is_ok());
    assert_eq!(
        dev.i2c.events,
        vec![BusEvent::Write { addr: 0x4A, data: vec![0xA1, 23, 0x80] }]
    );
}

#[test]
fn write_low_temperature_wire_bytes() {
    let mut dev = ds1621::new_default(SimBus::new());
    let r = dev.write_low_temperature(truncate_to_half_degree(23.3));
    assert!(r.is_ok());
    assert_eq!(
        dev.i2c.events,
        vec![BusEvent::Write { addr: 0x4A, data: vec![0xA2, 23, 0x00] }]
    );
}

#[test]
fn threshold_write_rejects_other_opcodes_without_bus_traffic() {
    let mut dev = ds1621::new_default(SimBus::new());
    for reg in [0xAAu8, 0xAC, 0xEE, 0x22, 0x00, 0xFF, 0xA0, 0xA3] {
        let r = dev.write_threshold_temperature(Temperature { whole: 23, half: false }, reg);
        assert!(matches!(r, Err(Error::INVALID_PARAMETER)));
        assert_eq!(dev.i2c.events.len(), 0);
    }
}

#[test]
fn threshold_write_accepts_both_threshold_opcodes() {
    let mut dev = ds1621::new_default(SimBus::new());
    assert!(dev
        .write_threshold_temperature(Temperature { whole: -11, half: true }, 0xA2)
        .is_ok());
    assert!(dev
        .write_threshold_temperature(Temperature { whole: 125, half: false }, 0xA1)
        .is_ok());
    assert_eq!(
        dev.i2c.events,
        vec![
            BusEvent::Write { addr: 0x4A, data: vec![0xA2, (-11i8) as u8, 0x80] },
            BusEvent::Write { addr: 0x4A, data: vec![0xA1, 125, 0x00] },
        ]
    );
}

#[test]
fn start_convert_writes_exactly_one_opcode_byte() {
    let mut dev = ds1621::new_default(SimBus::new());
    assert!(dev.start_convert().is_ok());
    assert_eq!(
        dev.i2c.events,
        vec![BusEvent::Write { addr: 0x4A, data: vec![0xEE] }]
    );
}

#[test]
fn stop_convert_writes_exactly_one_opcode_byte() {
    let mut dev = ds1621::new_default(SimBus::new());
    assert!(dev.stop_convert().is_ok());
    assert_eq!(
        dev.i2c.events,
        vec![BusEvent::Write { addr: 0x4A, data: vec![0x22] }]
    );
}

#[test]
fn read_config_returns_the_byte_read() {
    let mut bus = SimBus::new();
    bus.queue_response(vec![0xAB]);
    let mut dev = ds1621::new_default(bus);
    assert_eq!(dev.read_config(), Ok(0xAB));
    assert_eq!(
        dev.i2c.events,
        vec![BusEvent::Read { addr: 0x4A, data: vec![0xAB] }]
    );
}

#[test]
fn write_config_writes_the_byte() {
    let mut dev = ds1621::new(SimBus::new(), 0x49);
    assert!(dev.write_config(0x0F).is_ok());
    assert_eq!(
        dev.i2c.events,
        vec![BusEvent::Write { addr: 0x49, data: vec![0x0F] }]
    );
}

#[test]
fn set_convert_mode_continuous_sets_one_shot_bit() {
    let mut bus = SimBus::new();
    bus.queue_response(vec![0x0A]);
    let mut dev = ds1621::new_default(bus);
    assert!(dev.set_convert_mode(MODE::CONTINOUS).is_ok());
    assert_eq!(
        dev.i2c.events,
        vec![
            BusEvent::Read { addr: 0x4A, data: vec![0x0A] },
            BusEvent::Write { addr: 0x4A, data: vec![0x0B] },
        ]
    );
}

#[test]
fn set_convert_mode_one_shot_clears_all_but_bit_zero() {
    let mut bus = SimBus::new();
    bus.queue_response(vec![0xFF]);
    let mut dev = ds1621::new_default(bus);
    assert!(dev.set_convert_mode(MODE::ONE_SHOT).is_ok());
    assert_eq!(
        dev.i2c.events,
        vec![
            BusEvent::Read { addr: 0x4A, data: vec![0xFF] },
            BusEvent::Write { addr: 0x4A, data: vec![0xFE] },
        ]
    );
}

#[test]
fn set_convert_mode_does_not_update_stored_mode() {
    let mut bus = SimBus::new();
    bus.queue_response(vec![0x00]);
    let mut dev = ds1621::new_default(bus);
    assert!(dev.set_convert_mode(MODE::ONE_SHOT).is_ok());
    assert!(matches!(dev.mode, MODE::CONTINOUS));
}

#[test]
fn set_convert_mode_wraps_a_read_failure() {
    let mut dev = ds1621::new_default(SimBus::new_failing());
    let r = dev.set_convert_mode(MODE::CONTINOUS);
    assert!(matches!(r, Err(Error::I2C(SimError))));
    assert_eq!(dev.i2c.events.len(), 0);
}

#[test]
fn read_temperature_decodes_whole_and_half_degrees() {
    let mut bus = SimBus::new();
    bus.queue_response(vec![23, 0]);
    bus.queue_response(vec![23, 1]);
    bus.queue_response(vec![(-10i8) as u8, 5]);
    let mut dev = ds1621::new_default(bus);
    assert_eq!(dev.read_temperature(), Ok(Temperature { whole: 23, half: false }));
    assert_eq!(dev.read_temperature(), Ok(Temperature { whole: 23, half: true }));
    assert_eq!(dev.read_temperature(), Ok(Temperature { whole: -10, half: true }));
    assert_eq!(dev.i2c.events.len(), 3);
    assert_eq!(
        dev.i2c.events[0],
        BusEvent::WriteRead { addr: 0x4A, written: vec![0xAA], data: vec![23, 0] }
    );
    assert_eq!(
        dev.i2c.events[2],
        BusEvent::WriteRead { addr: 0x4A, written: vec![0xAA], data: vec![(-10i8) as u8, 5] }
    );
}

#[test]
fn read_temperature_surfaces_transport_error_unwrapped() {
    let mut dev = ds1621::new_default(SimBus::new_failing());
    assert_eq!(dev.read_temperature(), Err(SimError));
    assert_eq!(dev.i2c.events.len(), 0);
}

#[test]
fn read_config_surfaces_transport_error_unwrapped() {
    let mut dev = ds1621::new_default(SimBus::new_failing());
    assert_eq!(dev.read_config(), Err(SimError));
}

#[test]
fn write_config_wraps_transport_error() {
    let mut dev = ds1621::new_default(SimBus::new_failing());
    assert!(matches!(dev.write_config(0x00), Err(Error::I2C(SimError))));
}

#[test]
fn conversion_control_surfaces_transport_error_unwrapped() {
    let mut dev = ds1621::new_default(SimBus::new_failing());
    assert_eq!(dev.start_convert(), Err(SimError));
    assert_eq!(dev.stop_convert(), Err(SimError));
}

#[test]
fn threshold_write_wraps_transport_error() {
    let mut dev = ds1621::new_default(SimBus::new_failing());
    let r = dev.write_high_temperature(Temperature { whole: 20, half: false });
    assert!(matches!(r, Err(Error::I2C(SimError))));
}

#[test]
fn read_fails_when_no_response_is_queued() {
    let mut dev = ds1621::new_default(SimBus::new());
    assert_eq!(dev.read_temperature(), Err(SimError));
    assert_eq!(dev.read_config(), Err(SimError));
    assert_eq!(dev.i2c.events.len(), 0);
}

#[test]
fn read_fails_on_response_of_wrong_length() {
    let mut bus = SimBus::new();
    bus.queue_response(vec![23]);
    let mut dev = ds1621::new_default(bus);
    assert_eq!(dev.read_temperature(), Err(SimError));
    assert_eq!(dev.i2c.events.len(), 0);
}

#[test]
fn sim_bus_event_accessors_match_the_log() {
    let mut dev = ds1621::new_default(SimBus::new());
    assert!(dev.start_convert().is_ok());
    assert_eq!(dev.i2c.event_count(), 1);
    assert_eq!(
        dev.i2c.event_at(0),
        &BusEvent::Write { addr: 0x4A, data: vec![0xEE] }
    );
}
