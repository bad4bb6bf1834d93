use bathrooms::decimal::Decimal;
use bathrooms::location::{
    Coordinates, DeviceCallback, LocationErrorKind, LocationResolver, ResolutionOutcome,
    Settlement, PERMISSION_DENIED, POSITION_UNAVAILABLE, TIMEOUT,
};

fn at(latitude: i64, longitude: i64) -> Coordinates {
    Coordinates { latitude: Decimal::new(latitude), longitude: Decimal::new(longitude) }
}

#[test]
fn a_fresh_resolver_is_pending() {
    let (resolver, mut receiver) = LocationResolver::resolve(true);
    assert!(resolver.is_pending());
    assert_eq!(resolver.outcome(), None);
    assert_eq!(receiver.try_recv(), Ok(None));
}

#[test]
fn the_first_callback_settles() {
    let (mut resolver, mut receiver) = LocationResolver::resolve(true);
    let here = at(123_400_000, 567_800_000);
    assert_eq!(resolver.on_callback(DeviceCallback::Position(here)), Settlement::Delivered);
    assert!(!resolver.is_pending());
    assert_eq!(resolver.outcome(), Some(ResolutionOutcome::Success(here)));
    assert_eq!(receiver.try_recv(), Ok(Some(ResolutionOutcome::Success(here))));
}

#[test]
fn later_callbacks_change_nothing() {
    let (mut resolver, mut receiver) = LocationResolver::resolve(true);
    let here = at(123_400_000, 567_800_000);
    let elsewhere = at(-10, 20);
    assert_eq!(resolver.on_callback(DeviceCallback::Position(here)), Settlement::Delivered);
    assert_eq!(resolver.on_callback(DeviceCallback::Error(TIMEOUT)), Settlement::Ignored);
    assert_eq!(resolver.on_callback(DeviceCallback::Position(elsewhere)), Settlement::Ignored);
    assert_eq!(resolver.on_callback(DeviceCallback::Position(here)), Settlement::Ignored);
    assert_eq!(resolver.outcome(), Some(ResolutionOutcome::Success(here)));
    assert_eq!(receiver.try_recv(), Ok(Some(ResolutionOutcome::Success(here))));
}

#[test]
fn a_failure_that_comes_first_wins_over_a_later_position() {
    let (mut resolver, mut receiver) = LocationResolver::resolve(true);
    assert_eq!(
        resolver.on_callback(DeviceCallback::Error(PERMISSION_DENIED)),
        Settlement::Delivered
    );
    assert_eq!(resolver.on_callback(DeviceCallback::Position(at(1, 2))), Settlement::Ignored);
    let denied = ResolutionOutcome::Failure(LocationErrorKind::PermissionDenied);
    assert_eq!(resolver.outcome(), Some(denied));
    assert_eq!(receiver.try_recv(), Ok(Some(denied)));
}

#[test]
fn every_order_of_two_callbacks_keeps_the_first() {
    let callbacks = [
        DeviceCallback::Position(at(1, 1)),
        DeviceCallback::Position(at(2, 2)),
        DeviceCallback::Error(PERMISSION_DENIED),
        DeviceCallback::Error(POSITION_UNAVAILABLE),
        DeviceCallback::Error(TIMEOUT),
    ];
    for first in callbacks {
        for second in callbacks {
            let (mut resolver, mut receiver) = LocationResolver::resolve(true);
            assert_eq!(resolver.on_callback(first), Settlement::Delivered);
            assert_eq!(resolver.on_callback(second), Settlement::Ignored);
            assert_eq!(resolver.outcome(), Some(first.outcome()));
            assert_eq!(receiver.try_recv(), Ok(Some(first.outcome())));
        }
    }
}

#[test]
fn settling_without_a_receiver_is_abandoned_and_still_final() {
    let (mut resolver, receiver) = LocationResolver::resolve(true);
    drop(receiver);
    let here = at(5, 6);
    assert_eq!(resolver.settle(ResolutionOutcome::Success(here)), Settlement::Abandoned);
    assert_eq!(resolver.outcome(), Some(ResolutionOutcome::Success(here)));
    assert_eq!(
        resolver.settle(ResolutionOutcome::Failure(LocationErrorKind::Timeout)),
        Settlement::Ignored
    );
    assert_eq!(resolver.outcome(), Some(ResolutionOutcome::Success(here)));
}

#[test]
fn a_missing_capability_settles_at_once_as_unsupported() {
    let (mut resolver, mut receiver) = LocationResolver::resolve(false);
    let unsupported = ResolutionOutcome::Failure(LocationErrorKind::Unsupported);
    assert!(!resolver.is_pending());
    assert_eq!(resolver.outcome(), Some(unsupported));
    assert_eq!(receiver.try_recv(), Ok(Some(unsupported)));
    assert_eq!(resolver.on_callback(DeviceCallback::Position(at(1, 2))), Settlement::Ignored);
    assert_eq!(resolver.outcome(), Some(unsupported));
}

#[test]
fn a_missing_capability_never_asks_the_device() {
    let mut asked = 0;
    for present in [false, true] {
        let (resolver, _receiver) = LocationResolver::resolve(present);
        if resolver.is_pending() {
            asked += 1;
        }
        assert_eq!(resolver.is_pending(), present);
    }
    assert_eq!(asked, 1);
}

#[test]
fn device_codes_map_to_kinds() {
    assert_eq!(LocationErrorKind::from_code(1), LocationErrorKind::PermissionDenied);
    assert_eq!(LocationErrorKind::from_code(2), LocationErrorKind::Unavailable);
    assert_eq!(LocationErrorKind::from_code(3), LocationErrorKind::Timeout);
    assert_eq!(LocationErrorKind::from_code(0), LocationErrorKind::Unavailable);
    assert_eq!(LocationErrorKind::from_code(4), LocationErrorKind::Unavailable);
    assert_eq!(LocationErrorKind::from_code(u16::MAX), LocationErrorKind::Unavailable);
}

#[test]
fn a_callback_carries_its_outcome() {
    let here = at(-1_224_194_155, 377_749_295);
    assert_eq!(DeviceCallback::Position(here).outcome(), ResolutionOutcome::Success(here));
    assert_eq!(
        DeviceCallback::Error(TIMEOUT).outcome(),
        ResolutionOutcome::Failure(LocationErrorKind::Timeout)
    );
}

#[test]
fn a_settlement_follows_the_sending() {
    let outcome = ResolutionOutcome::Success(at(3, 4));
    assert_eq!(Settlement::of_sending(Ok(())), Settlement::Delivered);
    assert_eq!(Settlement::of_sending(Err(outcome)), Settlement::Abandoned);
}

#[test]
fn a_refused_registration_settles_as_unavailable() {
    let (mut resolver, mut receiver) = LocationResolver::resolve(true);
    assert_eq!(resolver.on_registration_failure(), Settlement::Delivered);
    let unavailable = ResolutionOutcome::Failure(LocationErrorKind::Unavailable);
    assert_eq!(resolver.outcome(), Some(unavailable));
    assert_eq!(receiver.try_recv(), Ok(Some(unavailable)));
    assert_eq!(resolver.on_callback(DeviceCallback::Position(at(1, 2))), Settlement::Ignored);
    assert_eq!(resolver.on_registration_failure(), Settlement::Ignored);
    assert_eq!(resolver.outcome(), Some(unavailable));
}
