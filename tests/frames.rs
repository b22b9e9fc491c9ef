use madr_lib::battery::{battery_query, Battery};
use madr_lib::checksum::checksum;
use madr_lib::debounce::{get_debounce_packet, get_debounce_report, Debounce};
use madr_lib::frame::{query_frame, write_frame};
use madr_lib::sensor::{get_magic_packet, get_magic_report, sensor_query, Sensor, SensorMode};
use madr_lib::sleep::{
    get_confirmation_packet, get_second_packet, get_sleep_packet, parse_sleep_timeout,
};
use madr_lib::MadRError;

fn sum_mod_256(frame: &[u8]) -> u8 {
    frame.iter().fold(0u8, |acc, b| acc.wrapping_add(*b))
}

#[test]
fn checksum_of_battery_query_header() {
    assert_eq!(checksum(&[0x08, 0x04], 0x55), 0x49);
    assert_eq!(checksum(&[], 0x55), 0x55);
    assert_eq!(checksum(&[0x08, 0x08, 0x0C, 0x08], 0x55), 0x31);
}

#[test]
fn single_field_checksum_balances_for_every_byte() {
    for base in [0x00u8, 0x3D, 0x55, 0x94, 0xFF] {
        for b in 0..=255u8 {
            let c = checksum(&[b], base);
            assert_eq!(base.wrapping_sub(b).wrapping_sub(c), 0);
            assert_eq!(c, base.wrapping_sub(b));
        }
    }
}

#[test]
fn checksum_wraps_over_many_bytes() {
    let bytes = [0xFFu8; 10];
    // 0x55 - 10 * 0xFF = 0x55 + 10 (mod 256)
    assert_eq!(checksum(&bytes, 0x55), 0x5F);
}

#[test]
fn query_frames_match_the_protocol() {
    assert_eq!(
        battery_query(),
        vec![0x08, 0x04, 0, 0, 0, 0, 0, 0, 0, 0, 0, 0, 0, 0, 0, 0, 0x49]
    );
    assert_eq!(
        sensor_query(),
        vec![0x08, 0x08, 0, 0, 0xB5, 0x06, 0, 0, 0, 0, 0, 0, 0, 0, 0, 0, 0x8A]
    );
    assert_eq!(
        query_frame(0x08, 0x00, 0x06),
        vec![0x08, 0x08, 0, 0, 0, 0x06, 0, 0, 0, 0, 0, 0, 0, 0, 0, 0, 0x3F]
    );
}

#[test]
fn every_frame_sums_to_the_frame_base() {
    let frames = vec![
        battery_query(),
        sensor_query(),
        get_debounce_packet(15),
        get_sleep_packet(180),
        get_confirmation_packet(150),
        get_magic_packet(1),
        write_frame(0x10, &[1, 2, 3, 4, 5]),
        write_frame(0x10, &[]),
    ];
    for f in frames {
        assert_eq!(f.len(), 17);
        assert_eq!(f[0], 0x08);
        assert_eq!(sum_mod_256(&f), 0x55);
    }
}

#[test]
fn write_frame_lays_out_fields_and_padding() {
    assert_eq!(
        write_frame(0x22, &[0x10, 0x20]),
        vec![0x08, 0x07, 0, 0, 0x22, 0x04, 0x10, 0x45, 0x20, 0x35, 0, 0, 0, 0, 0, 0, 0x76]
    );
}

#[test]
fn battery_frame_example_decodes() {
    let data = [
        0x08, 0x04, 0x00, 0x00, 0x00, 0x02, 0x5F, 0x01, 0x10, 0x44, 0x00, 0x00, 0x00, 0x00,
        0x00, 0x00, 0x93,
    ];
    let b = Battery::parse_report(&data).unwrap();
    assert_eq!(b.percentage(), 95);
    assert_eq!(b.voltage(), 4164);
    // byte 7 is 0x01: the charging flag is set
    assert!(b.is_charging());
}

#[test]
fn battery_not_charging_and_longer_buffer() {
    let mut data = vec![0u8; 64];
    data[0] = 0x08;
    data[1] = 0x04;
    data[6] = 20;
    data[7] = 0x00;
    data[8] = 0x0F;
    data[9] = 0xF8;
    let b = Battery::parse_report(&data).unwrap();
    assert_eq!(b.percentage(), 20);
    assert_eq!(b.voltage(), 4088);
    assert!(!b.is_charging());
}

#[test]
fn battery_rejects_bad_frames() {
    let mut data = [0u8; 17];
    data[0] = 0x08;
    data[1] = 0x04;
    assert!(Battery::parse_report(&data).is_ok());
    assert_eq!(Battery::parse_report(&data[..16]), Err(MadRError::InvalidBatteryFormat));
    data[1] = 0x08;
    assert_eq!(Battery::parse_report(&data), Err(MadRError::InvalidBatteryFormat));
    data[0] = 0x09;
    data[1] = 0x04;
    assert_eq!(Battery::parse_report(&data), Err(MadRError::InvalidBatteryFormat));
}

#[test]
fn debounce_frame_matches_the_protocol() {
    assert_eq!(
        get_debounce_packet(8),
        vec![0x08, 0x07, 0, 0, 0xA9, 0x0A, 0x08, 0x4D, 0x01, 0x54, 0x06, 0x4F, 0x00, 0x55, 0x00, 0x55, 0xEA]
    );
    assert_eq!(get_debounce_report(Debounce::Ms20), get_debounce_packet(20));
    assert_eq!(get_debounce_report(Debounce::default()), get_debounce_packet(8));
}

#[test]
fn debounce_values() {
    for (v, d) in [
        (0u8, Debounce::Ms0),
        (1, Debounce::Ms1),
        (2, Debounce::Ms2),
        (4, Debounce::Ms4),
        (8, Debounce::Ms8),
        (15, Debounce::Ms15),
        (20, Debounce::Ms20),
    ] {
        assert_eq!(Debounce::try_from(v), Ok(d));
        assert_eq!(d.ms(), v);
    }
    assert!(matches!(Debounce::try_from(3), Err(MadRError::InvalidDebounceValue(_))));
    assert!(matches!(Debounce::try_from(255), Err(MadRError::InvalidDebounceValue(_))));
}

#[test]
fn debounce_from_text() {
    assert_eq!(Debounce::from_str("15"), Ok(Debounce::Ms15));
    assert_eq!(Debounce::from_str("+4"), Ok(Debounce::Ms4));
    assert_eq!(Debounce::from_str("0"), Ok(Debounce::Ms0));
    assert!(matches!(Debounce::from_str("3"), Err(MadRError::InvalidDebounceValue(_))));
    assert!(matches!(Debounce::from_str("abc"), Err(MadRError::InvalidDebounceValue(_))));
    assert!(matches!(Debounce::from_str(""), Err(MadRError::InvalidDebounceValue(_))));
    assert!(matches!(Debounce::from_str("300"), Err(MadRError::InvalidDebounceValue(_))));
    assert!(matches!(Debounce::from_str(" 4"), Err(MadRError::InvalidDebounceValue(_))));
}

#[test]
fn sleep_one_minute() {
    let tens = parse_sleep_timeout("1m").unwrap();
    assert_eq!(tens, 6);
    let set = get_sleep_packet(tens);
    assert_eq!(set[10], 6);
    assert_eq!(set[11], 0x4F);
    let confirm = get_confirmation_packet(tens);
    assert_eq!(confirm[8], 6);
    assert_eq!(confirm[9], 0x4F);
    assert_eq!(
        set,
        vec![0x08, 0x07, 0, 0, 0xA9, 0x0A, 0x04, 0x51, 0x01, 0x54, 0x06, 0x4F, 0x00, 0x55, 0x00, 0x55, 0xEA]
    );
    assert_eq!(
        confirm,
        vec![0x08, 0x07, 0, 0, 0xB5, 0x06, 0x01, 0x54, 0x06, 0x4F, 0x00, 0x55, 0, 0, 0, 0, 0x8C]
    );
}

#[test]
fn sleep_frames_for_thirty_seconds_and_two_minutes() {
    assert_eq!(
        get_sleep_packet(3),
        vec![0x08, 0x07, 0, 0, 0xA9, 0x0A, 0x04, 0x51, 0x01, 0x54, 0x03, 0x52, 0x00, 0x55, 0x00, 0x55, 0xEA]
    );
    assert_eq!(
        get_second_packet(3),
        vec![0x08, 0x07, 0, 0, 0xB5, 0x06, 0x01, 0x54, 0x03, 0x52, 0x00, 0x55, 0, 0, 0, 0, 0x8C]
    );
    assert_eq!(get_sleep_packet(12)[10..12], [0x0C, 0x49]);
    assert_eq!(get_confirmation_packet(12)[8..10], [0x0C, 0x49]);
}

#[test]
fn sleep_timeouts() {
    let table = [
        ("30s", 3u8),
        ("1m", 6),
        ("2m", 12),
        ("3m", 18),
        ("5m", 30),
        ("20m", 120),
        ("25m", 150),
        ("30m", 180),
    ];
    for (s, t) in table {
        assert_eq!(parse_sleep_timeout(s), Ok(t));
    }
    assert_eq!(parse_sleep_timeout("4m"), Err(MadRError::InvalidSleepTimeout("4m".to_string())));
    assert_eq!(parse_sleep_timeout(""), Err(MadRError::InvalidSleepTimeout(String::new())));
    assert!(parse_sleep_timeout("1M").is_err());
}

#[test]
fn sensor_frame_matches_the_protocol() {
    assert_eq!(
        get_magic_report(SensorMode::Max),
        vec![0x08, 0x07, 0, 0, 0xB5, 0x06, 0x00, 0x55, 0x06, 0x4F, 0x02, 0x53, 0, 0, 0, 0, 0x8C]
    );
    assert_eq!(get_magic_report(SensorMode::Basic), get_magic_packet(0));
    assert_eq!(get_magic_report(SensorMode::Competitive)[10..12], [0x01, 0x54]);
}

#[test]
fn sensor_mode_names() {
    assert_eq!(SensorMode::from_str("max"), Ok(SensorMode::Max));
    assert_eq!(SensorMode::from_str("MAX"), Ok(SensorMode::Max));
    assert_eq!(SensorMode::from_str("Competitive"), Ok(SensorMode::Competitive));
    assert_eq!(SensorMode::from_str("basic"), Ok(SensorMode::Basic));
    assert_eq!(
        SensorMode::from_str("fast"),
        Err(MadRError::InvalidSensorSetting("fast".to_string()))
    );
    assert_eq!(SensorMode::from_folded("max"), Some(SensorMode::Max));
    assert_eq!(SensorMode::from_folded("MAX"), None);
    assert_eq!(SensorMode::Competitive.to_string(), "competitive");
    assert_eq!(SensorMode::default(), SensorMode::Basic);
    assert_eq!(SensorMode::try_from(2), Ok(SensorMode::Max));
    assert!(matches!(SensorMode::try_from(3), Err(MadRError::InvalidSensorSetting(_))));
}

#[test]
fn sensor_response_decodes() {
    let mut data = [0u8; 17];
    data[0] = 0x08;
    data[1] = 0x08;
    data[10] = 1;
    assert_eq!(Sensor::parse_report(&data).map(|s| s.mode()), Ok(SensorMode::Competitive));
    data[10] = 7;
    assert_eq!(Sensor::parse_report(&data), Err(MadRError::InvalidSensorFormat));
    data[10] = 0;
    data[1] = 0x04;
    assert_eq!(Sensor::parse_report(&data), Err(MadRError::InvalidSensorFormat));
    data[1] = 0x08;
    assert_eq!(Sensor::parse_report(&data[..10]), Err(MadRError::InvalidSensorFormat));
}
