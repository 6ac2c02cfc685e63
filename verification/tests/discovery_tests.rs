use treadmill_ble::Error;
use treadmill_ble::address::{DeviceAddress, parse_address};
use treadmill_ble::discovery::{
    Advertisement, ScanDecision, TREADMILL_SERVICE_UUID, TimedEvent, find_all_treadmills,
    find_treadmill, is_treadmill, scan_decide,
};

const DEVICE_INFORMATION_UUID: u128 = 0x0000180a_0000_1000_8000_00805f9b34fb;

fn address(text: &str) -> DeviceAddress {
    parse_address(text.as_bytes()).unwrap()
}

fn advertisement(text: &str, uuids: Vec<u128>) -> Advertisement {
    Advertisement { address: address(text), service_uuids: uuids, name: None }
}

#[test]
fn treadmill_uuid_matches_its_canonical_text() {
    let parsed = uuid::Uuid::parse_str("0000fff0-0000-1000-8000-00805f9b34fb").unwrap();
    assert_eq!(parsed.as_u128(), TREADMILL_SERVICE_UUID);
}

#[test]
fn treadmill_service_is_classified() {
    let ad = advertisement(
        "DF:D6:EB:3F:2D:D0",
        vec![DEVICE_INFORMATION_UUID, TREADMILL_SERVICE_UUID],
    );
    assert!(is_treadmill(&ad));
}

#[test]
fn other_service_is_not_classified() {
    let ad = advertisement("DF:D6:EB:3F:2D:D0", vec![DEVICE_INFORMATION_UUID]);
    assert!(!is_treadmill(&ad));
}

#[test]
fn empty_service_list_is_not_classified() {
    let ad = advertisement("DF:D6:EB:3F:2D:D0", vec![]);
    assert!(!is_treadmill(&ad));
}

#[test]
fn streaming_scan_returns_first_match() {
    let events = vec![
        TimedEvent {
            at_millis: 100,
            advertisement: advertisement("11:11:11:11:11:11", vec![DEVICE_INFORMATION_UUID]),
        },
        TimedEvent {
            at_millis: 250,
            advertisement: advertisement("22:22:22:22:22:22", vec![TREADMILL_SERVICE_UUID]),
        },
        TimedEvent {
            at_millis: 300,
            advertisement: advertisement("33:33:33:33:33:33", vec![TREADMILL_SERVICE_UUID]),
        },
    ];
    assert_eq!(find_treadmill(&events, 5000).unwrap(), 1);
}

#[test]
fn streaming_scan_reports_not_found_without_match() {
    let events = vec![TimedEvent {
        at_millis: 100,
        advertisement: advertisement("11:11:11:11:11:11", vec![DEVICE_INFORMATION_UUID]),
    }];
    assert_eq!(find_treadmill(&events, 5000).unwrap_err(), Error::NotFound);
}

#[test]
fn match_after_window_is_not_found() {
    let events = vec![TimedEvent {
        at_millis: 2000,
        advertisement: advertisement("22:22:22:22:22:22", vec![TREADMILL_SERVICE_UUID]),
    }];
    assert_eq!(find_treadmill(&events, 2000).unwrap_err(), Error::NotFound);
}

#[test]
fn zero_timeout_is_not_found() {
    let events = vec![TimedEvent {
        at_millis: 0,
        advertisement: advertisement("22:22:22:22:22:22", vec![TREADMILL_SERVICE_UUID]),
    }];
    assert_eq!(find_treadmill(&events, 0).unwrap_err(), Error::NotFound);
}

#[test]
fn decision_expires_exactly_at_the_window() {
    let ad = advertisement("22:22:22:22:22:22", vec![TREADMILL_SERVICE_UUID]);
    assert_eq!(scan_decide(2000, 1999, &ad), ScanDecision::Found);
    assert_eq!(scan_decide(2000, 2000, &ad), ScanDecision::Expired);
    let other = advertisement("11:11:11:11:11:11", vec![DEVICE_INFORMATION_UUID]);
    assert_eq!(scan_decide(2000, 1999, &other), ScanDecision::NotYet);
}

#[test]
fn enumerate_scan_collects_all_matches_in_order() {
    let ads = vec![
        advertisement("11:11:11:11:11:11", vec![DEVICE_INFORMATION_UUID]),
        advertisement("22:22:22:22:22:22", vec![TREADMILL_SERVICE_UUID]),
        advertisement("33:33:33:33:33:33", vec![DEVICE_INFORMATION_UUID]),
        advertisement(
            "44:44:44:44:44:44",
            vec![DEVICE_INFORMATION_UUID, TREADMILL_SERVICE_UUID],
        ),
    ];
    let found = find_all_treadmills(&ads);
    assert_eq!(found, vec![address("22:22:22:22:22:22"), address("44:44:44:44:44:44")]);
}

#[test]
fn enumerate_scan_of_no_matches_is_empty() {
    let ads = vec![advertisement("11:11:11:11:11:11", vec![DEVICE_INFORMATION_UUID])];
    assert_eq!(find_all_treadmills(&ads), vec![]);
}
