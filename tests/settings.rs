use madr_lib::controller::{plan_settings, SETTLE_MS};
use madr_lib::debounce::{get_debounce_report, Debounce};
use madr_lib::performance::{
    build_packet, check_polling_rate, get_combined_packet, get_dpi_packet,
    get_polling_rate_packet, make_combined_report, performance_query, Performance, PollingRate,
};
use madr_lib::sensor::{get_magic_report, SensorMode};
use madr_lib::sleep::{get_confirmation_packet, get_sleep_packet};
use madr_lib::ids::{is_madr_interface, is_wired_product};
use madr_lib::MadRError;

const RATES: [(u16, u8, PollingRate); 7] = [
    (125, 0x08, PollingRate::Hz125),
    (250, 0x04, PollingRate::Hz250),
    (500, 0x02, PollingRate::Hz500),
    (1000, 0x01, PollingRate::Hz1000),
    (2000, 0x10, PollingRate::Hz2000),
    (4000, 0x20, PollingRate::Hz4000),
    (8000, 0x40, PollingRate::Hz8000),
];

#[test]
fn combined_frame_for_stage_three_at_1000hz() {
    let f = make_combined_report(3, PollingRate::Hz1000).unwrap();
    assert_eq!(f[6], 0x01);
    assert_eq!(f[7], 0x55 - 0x01);
    assert_eq!(f[10], 0x02);
    assert_eq!(f[11], 0x55 - 0x02);
    assert_eq!(
        f,
        vec![0x08, 0x07, 0, 0, 0, 0x06, 0x01, 0x54, 0x04, 0x51, 0x02, 0x53, 0, 0, 0, 0, 0x41]
    );
    assert_eq!(get_combined_packet(3, 1000), f);
}

#[test]
fn combined_frame_rejects_stage_out_of_range() {
    assert!(matches!(
        make_combined_report(0, PollingRate::Hz125),
        Err(MadRError::InvalidPerformanceSetting(_))
    ));
    assert!(matches!(
        make_combined_report(9, PollingRate::Hz125),
        Err(MadRError::InvalidPerformanceSetting(_))
    ));
    assert!(make_combined_report(8, PollingRate::Hz8000).is_ok());
}

#[test]
fn rate_and_stage_only_frames() {
    assert_eq!(
        get_dpi_packet(1),
        vec![0x08, 0x07, 0, 0, 0, 0x06, 0x01, 0x54, 0x04, 0x51, 0x00, 0x55, 0, 0, 0, 0, 0x41]
    );
    assert_eq!(
        get_polling_rate_packet(125),
        vec![0x08, 0x07, 0, 0, 0, 0x06, 0x08, 0x4D, 0x04, 0x51, 0x01, 0x54, 0, 0, 0, 0, 0x41]
    );
    assert_eq!(build_packet(None, None), None);
    assert_eq!(build_packet(Some(4), None), Some(get_dpi_packet(4)));
    assert_eq!(build_packet(None, Some(500)), Some(get_polling_rate_packet(500)));
    assert_eq!(build_packet(Some(4), Some(500)), Some(get_combined_packet(4, 500)));
}

#[test]
fn rate_tables() {
    for (hz, flag, rate) in RATES {
        assert_eq!(PollingRate::try_from(hz), Ok(rate));
        assert_eq!(rate.hz(), hz);
        assert_eq!(rate.flag(), flag);
        assert_eq!(PollingRate::from_flag(flag), Some(rate));
        assert_eq!(make_combined_report(1, rate).unwrap()[6], flag);
    }
    assert!(matches!(
        PollingRate::try_from(300),
        Err(MadRError::InvalidPerformanceSetting(_))
    ));
    assert_eq!(PollingRate::from_flag(0x03), None);
    assert!(PollingRate::Hz125 < PollingRate::Hz8000);
}

#[test]
fn performance_response_decodes() {
    let mut data = [0u8; 17];
    data[0] = 0x08;
    data[1] = 0x08;
    data[6] = 0x20;
    data[10] = 2;
    let p = Performance::from_bytes(&data).unwrap();
    assert_eq!(p.dpi_stage(), 3);
    assert_eq!(p.polling_rate(), PollingRate::Hz4000);
    assert_eq!(p, Performance::new(3, PollingRate::Hz4000));
    data[10] = 7;
    assert_eq!(Performance::from_bytes(&data).unwrap().dpi_stage(), 8);
    data[10] = 8;
    assert!(matches!(
        Performance::from_bytes(&data),
        Err(MadRError::InvalidPerformanceSetting(_))
    ));
    data[10] = 0;
    data[6] = 0x03;
    assert!(matches!(
        Performance::from_bytes(&data),
        Err(MadRError::InvalidPerformanceSetting(_))
    ));
    assert!(matches!(
        Performance::from_bytes(&data[..11]),
        Err(MadRError::InvalidPerformanceSetting(_))
    ));
}

#[test]
fn performance_query_frame() {
    assert_eq!(
        performance_query(),
        vec![0x08, 0x08, 0, 0, 0, 0x06, 0, 0, 0, 0, 0, 0, 0, 0, 0, 0, 0x3F]
    );
}

#[test]
fn wired_device_rejects_fast_polling() {
    assert!(matches!(
        check_polling_rate(2000, true),
        Err(MadRError::InvalidPerformanceSetting(_))
    ));
    assert!(matches!(
        plan_settings(true, None, Some(2000), Some(SensorMode::Max), None, Some(6)),
        Err(MadRError::InvalidPerformanceSetting(_))
    ));
    assert_eq!(check_polling_rate(2000, false), Ok(PollingRate::Hz2000));
    assert_eq!(check_polling_rate(1000, true), Ok(PollingRate::Hz1000));
    assert!(check_polling_rate(999, false).is_err());
}

#[test]
fn plan_orders_frames_and_pauses() {
    let steps = plan_settings(
        false,
        Some(2),
        Some(500),
        Some(SensorMode::Competitive),
        Some(Debounce::Ms4),
        Some(3),
    )
    .unwrap();
    let expected = vec![
        (get_magic_report(SensorMode::Competitive), SETTLE_MS),
        (get_debounce_report(Debounce::Ms4), SETTLE_MS),
        (get_combined_packet(2, 500), 0),
        (get_sleep_packet(3), SETTLE_MS),
        (get_confirmation_packet(3), 0),
    ];
    assert_eq!(steps, expected);
    assert_eq!(SETTLE_MS, 200);
}

#[test]
fn plan_of_nothing_is_empty_and_bad_stage_is_rejected() {
    assert_eq!(plan_settings(true, None, None, None, None, None), Ok(vec![]));
    assert_eq!(
        plan_settings(true, Some(5), None, None, None, None),
        Ok(vec![(get_dpi_packet(5), 0)])
    );
    assert!(matches!(
        plan_settings(false, Some(9), None, Some(SensorMode::Basic), None, None),
        Err(MadRError::InvalidPerformanceSetting(_))
    ));
}

#[test]
fn device_identifiers() {
    assert!(is_madr_interface(0x373b, 0x103f, 1));
    assert!(is_madr_interface(0x373b, 0x1040, 1));
    assert!(!is_madr_interface(0x373b, 0x1040, 0));
    assert!(!is_madr_interface(0x373c, 0x103f, 1));
    assert!(!is_madr_interface(0x373b, 0x1041, 1));
    assert!(is_wired_product(0x103f));
    assert!(!is_wired_product(0x1040));
}

#[test]
fn combined_frame_reads_back() {
    for stage in 1..=8u8 {
        for (_, _, rate) in RATES {
            let frame = make_combined_report(stage, rate).unwrap();
            assert_eq!(Performance::from_bytes(&frame), Ok(Performance::new(stage, rate)));
        }
    }
}
