use std::sync::{Arc, Mutex};

use robius_location::{
    get_location, map_failure_code, Coordinates, Error, Handler, Location, Manager, NativeEvent,
    NativeFix, Outcome, CODE_DENIED, CODE_LOCATION_UNKNOWN, CODE_NETWORK,
};

struct DeliveryLog {
    coords: Mutex<Vec<Result<Coordinates, Error>>>,
    errors: Mutex<Vec<Error>>,
}

impl DeliveryLog {
    fn new() -> Arc<DeliveryLog> {
        Arc::new(DeliveryLog { coords: Mutex::new(Vec::new()), errors: Mutex::new(Vec::new()) })
    }

    fn invocations(&self) -> usize {
        self.coords.lock().unwrap().len() + self.errors.lock().unwrap().len()
    }
}

struct DeliveryHandler {
    log: Arc<DeliveryLog>,
}

impl Handler for DeliveryHandler {
    fn handle<'a>(&self, location: Location<'a>) {
        self.log.coords.lock().unwrap().push(location.coordinates());
    }

    fn error(&self, error: Error) {
        self.log.errors.lock().unwrap().push(error);
    }
}

fn manager_with_log() -> (Manager<DeliveryHandler>, Arc<DeliveryLog>) {
    let log = DeliveryLog::new();
    let manager = Manager::new(DeliveryHandler { log: log.clone() }, Ok(1)).unwrap();
    (manager, log)
}

fn fix_at(latitude: i64, longitude: i64) -> NativeFix {
    NativeFix {
        latitude: Some(latitude),
        longitude: Some(longitude),
        altitude: None,
        bearing: None,
        speed: None,
        timestamp: None,
    }
}

#[test]
fn success_event_delivers_the_exact_coordinates() {
    let (mut manager, log) = manager_with_log();
    let token = manager.token();
    // 37.7749 degrees north, 122.4194 degrees west, in microdegrees.
    let event = NativeEvent::Fix(fix_at(37_774_900, -122_419_400));
    assert_eq!(manager.deliver(&token, &event), Outcome::Handled);
    let coords = log.coords.lock().unwrap();
    assert_eq!(coords.len(), 1);
    assert_eq!(coords[0], Ok(Coordinates { latitude: 37_774_900, longitude: -122_419_400 }));
    assert_eq!(log.errors.lock().unwrap().len(), 0);
    drop(coords);
    manager.teardown(Ok(()));
}

#[test]
fn denied_failure_event_invokes_error_exactly_once() {
    let (mut manager, log) = manager_with_log();
    let token = manager.token();
    let event = NativeEvent::Failure(CODE_DENIED);
    assert_eq!(
        manager.deliver(&token, &event),
        Outcome::Errored(Error::AuthorizationDenied)
    );
    assert_eq!(log.errors.lock().unwrap().as_slice(), &[Error::AuthorizationDenied]);
    assert_eq!(log.coords.lock().unwrap().len(), 0);
    manager.teardown(Ok(()));
}

#[test]
fn exactly_one_handler_method_fires_per_event() {
    let (mut manager, log) = manager_with_log();
    let token = manager.token();
    assert_eq!(manager.deliver(&token, &NativeEvent::Fix(fix_at(1, 2))), Outcome::Handled);
    assert_eq!(log.invocations(), 1);
    assert_eq!(
        manager.deliver(&token, &NativeEvent::Failure(CODE_NETWORK)),
        Outcome::Errored(Error::Network)
    );
    assert_eq!(log.invocations(), 2);
    manager.teardown(Ok(()));
    assert_eq!(log.invocations(), 2);
}

#[test]
fn no_handler_method_fires_after_teardown() {
    let (mut manager, log) = manager_with_log();
    let token = manager.token();
    manager.teardown(Ok(()));
    assert_eq!(manager.deliver(&token, &NativeEvent::Fix(fix_at(1, 2))), Outcome::Discarded);
    assert_eq!(
        manager.deliver(&token, &NativeEvent::Failure(CODE_DENIED)),
        Outcome::Discarded
    );
    assert_eq!(log.invocations(), 0);
}

#[test]
fn foreign_token_discards_the_event() {
    let (mut manager, log) = manager_with_log();
    let other_log = DeliveryLog::new();
    let mut other =
        Manager::new(DeliveryHandler { log: other_log.clone() }, Ok(2)).unwrap();
    let foreign = other.token();
    assert_eq!(manager.deliver(&foreign, &NativeEvent::Fix(fix_at(1, 2))), Outcome::Discarded);
    assert_eq!(log.invocations(), 0);
    assert_eq!(other_log.invocations(), 0);
    manager.teardown(Ok(()));
    other.teardown(Ok(()));
}

#[test]
fn failure_codes_map_to_the_fixed_total_mapping() {
    assert_eq!(map_failure_code(CODE_LOCATION_UNKNOWN), Error::TemporarilyUnavailable);
    assert_eq!(map_failure_code(CODE_DENIED), Error::AuthorizationDenied);
    assert_eq!(map_failure_code(CODE_NETWORK), Error::Network);
    assert_eq!(map_failure_code(3), Error::Unknown);
    assert_eq!(map_failure_code(-1), Error::Unknown);
    assert_eq!(map_failure_code(i64::MAX), Error::Unknown);
}

#[test]
fn unknown_failure_code_degrades_to_unknown_and_still_delivers_once() {
    let (mut manager, log) = manager_with_log();
    let token = manager.token();
    assert_eq!(
        manager.deliver(&token, &NativeEvent::Failure(12345)),
        Outcome::Errored(Error::Unknown)
    );
    assert_eq!(log.errors.lock().unwrap().as_slice(), &[Error::Unknown]);
    assert_eq!(log.invocations(), 1);
    manager.teardown(Ok(()));
}

#[test]
fn location_accessors_report_each_native_field() {
    let fix = NativeFix {
        latitude: Some(37_774_900),
        longitude: Some(-122_419_400),
        altitude: Some(16_000),
        bearing: Some(270_000),
        speed: Some(1_500),
        timestamp: Some(1_700_000_000_000),
    };
    let location = Location::new(&fix);
    assert_eq!(
        location.coordinates(),
        Ok(Coordinates { latitude: 37_774_900, longitude: -122_419_400 })
    );
    assert_eq!(location.altitude(), Ok(16_000));
    assert_eq!(location.bearing(), Ok(270_000));
    assert_eq!(location.speed(), Ok(1_500));
    assert_eq!(location.time(), Ok(1_700_000_000_000));
}

#[test]
fn location_accessors_fail_independently() {
    let fix = NativeFix {
        latitude: Some(1),
        longitude: None,
        altitude: None,
        bearing: None,
        speed: None,
        timestamp: None,
    };
    let location = Location::new(&fix);
    assert_eq!(location.coordinates(), Err(Error::Unknown));
    assert_eq!(location.altitude(), Err(Error::Unknown));
    assert_eq!(location.bearing(), Err(Error::Unknown));
    assert_eq!(location.speed(), Err(Error::Unknown));
    assert_eq!(location.time(), Err(Error::Unknown));
}

#[test]
fn get_location_wraps_a_fetched_fix_and_passes_errors_through() {
    let fix = fix_at(10, 20);
    let location = get_location(Ok(&fix)).unwrap();
    assert_eq!(location.coordinates(), Ok(Coordinates { latitude: 10, longitude: 20 }));
    match get_location(Err(Error::TemporarilyUnavailable)) {
        Ok(_) => panic!("a failed fetch must not produce a snapshot"),
        Err(e) => assert_eq!(e, Error::TemporarilyUnavailable),
    }
}
