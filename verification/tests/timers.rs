use smart_compass::battery::{Battery, BatteryStatus};
use smart_compass::mutex::DummyMutex;
use smart_compass::timers::{ElapsedMs, EveryNMillis, Periodic};

#[test]
fn clock_counts_and_wraps() {
    let mut clock = ElapsedMs::new();
    assert_eq!(clock.now(), 0);
    clock.increment();
    clock.increment();
    assert_eq!(clock.now(), 2);
    clock.increment_by(40);
    assert_eq!(clock.now(), 42);
    let mut late = ElapsedMs::at(u32::MAX);
    late.increment();
    assert_eq!(late.now(), 0);
    let mut later = ElapsedMs::at(u32::MAX - 1);
    later.increment_by(5);
    assert_eq!(later.now(), 3);
}

#[test]
fn every_n_millis_fires_at_once_and_then_once_per_period() {
    let mut every = EveryNMillis::new(200);
    let mut clock = ElapsedMs::at(17);
    assert_eq!(every.ready(&clock), Some(17));
    assert_eq!(every.next_trigger, 217);
    assert_eq!(every.ready(&clock), None);
    clock.increment_by(199);
    assert_eq!(every.ready(&clock), None);
    clock.increment();
    assert_eq!(every.ready(&clock), Some(217));
    assert_eq!(every.next_trigger, 417);
    // a late call moves the next one a whole period past it
    clock.increment_by(1000);
    assert_eq!(every.ready(&clock), Some(1217));
    assert_eq!(every.next_trigger, 1417);
    assert_eq!(every.period_ms, 200);
    assert_eq!(every.now(&clock), 1217);
    // near the end of the clock's range the next trigger wraps around
    let mut wraps = EveryNMillis::new(10);
    assert_eq!(wraps.ready(&ElapsedMs::at(u32::MAX - 3)), Some(u32::MAX - 3));
    assert_eq!(wraps.next_trigger, 6);
}

#[test]
fn periodic_fires_a_period_after_it_last_fired() {
    let mut periodic = Periodic::new(300);
    assert!(!periodic.ready(&ElapsedMs::at(0)));
    assert!(!periodic.ready(&ElapsedMs::at(299)));
    assert!(periodic.ready(&ElapsedMs::at(300)));
    assert_eq!(periodic.previous_trigger, 300);
    assert!(!periodic.ready(&ElapsedMs::at(599)));
    assert!(periodic.ready(&ElapsedMs::at(750)));
    assert_eq!(periodic.previous_trigger, 750);
    // the time that has passed is taken on the wrapping clock
    let mut late = Periodic { previous_trigger: u32::MAX - 99, period_ms: 300 };
    assert!(!late.ready(&ElapsedMs::at(199)));
    assert!(late.ready(&ElapsedMs::at(200)));
    let mut always = Periodic::new(0);
    assert!(always.ready(&ElapsedMs::at(0)));
}

#[test]
fn battery_reports_changes_when_a_check_is_due() {
    let mut battery = Battery::new(60_000);
    let mut clock = ElapsedMs::at(5);
    assert_eq!(battery.check(&clock, true), (false, BatteryStatus::Okay));
    // low now, but the next check is not due yet
    clock.increment_by(59_999);
    assert_eq!(battery.check(&clock, false), (false, BatteryStatus::Okay));
    clock.increment();
    assert_eq!(battery.check(&clock, false), (true, BatteryStatus::Low));
    assert_eq!(battery.status, BatteryStatus::Low);
    clock.increment_by(60_000);
    assert_eq!(battery.check(&clock, false), (false, BatteryStatus::Low));
    clock.increment_by(60_000);
    assert_eq!(battery.check(&clock, true), (true, BatteryStatus::Okay));
}

#[test]
fn dummy_mutex_hands_the_bus_to_the_closure() {
    let mutex = DummyMutex::create(vec![1u8, 2, 3]);
    let sum: u32 = mutex.lock(|bus| bus.iter().map(|b| *b as u32).sum());
    assert_eq!(sum, 6);
    assert_eq!(mutex.lock(|bus| bus.len()), 3);
}
