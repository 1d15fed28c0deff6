use led_chase::smoke::{checked_sum, collection_smoke, map_increment, mapped_as_expected};
use led_chase::startup::{startup_mode, Platform, StartMode};

#[test]
fn smoke_scenario_matches_the_expected_values() {
    let mut a: Vec<u8> = vec![1, 2, 3];
    a.push(4);
    assert_eq!(a, vec![1, 2, 3, 4]);
    let b = map_increment(&a).unwrap();
    assert_eq!(b, vec![2, 3, 4, 5]);
    assert!(mapped_as_expected(&b));
    assert_eq!(checked_sum(&b), Some(14));
    assert_eq!(collection_smoke(), 14);
}

#[test]
fn map_increment_rejects_an_element_at_the_byte_maximum() {
    let v: Vec<u8> = vec![1, 255, 3];
    assert_eq!(map_increment(&v), None);
}

#[test]
fn map_increment_of_an_empty_sequence_is_empty() {
    let v: Vec<u8> = Vec::new();
    assert_eq!(map_increment(&v), Some(Vec::new()));
}

#[test]
fn checked_sum_rejects_an_overflowing_total() {
    let v: Vec<u8> = vec![200, 100];
    assert_eq!(checked_sum(&v), None);
    assert_eq!(checked_sum(&vec![255, 1]), None);
    assert_eq!(checked_sum(&vec![255]), Some(255));
}

#[test]
fn mapped_as_expected_rejects_any_deviation() {
    assert!(mapped_as_expected(&vec![2, 3, 4, 5]));
    assert!(!mapped_as_expected(&vec![2, 3, 4]));
    assert!(!mapped_as_expected(&vec![2, 3, 4, 6]));
    assert!(!mapped_as_expected(&vec![2, 3, 4, 5, 6]));
    assert!(!mapped_as_expected(&Vec::new()));
}

#[test]
fn the_platform_hands_out_its_peripherals_once() {
    let mut platform = Platform::new();
    let first = platform.take();
    assert!(first.is_some());
    let second = platform.take();
    assert!(second.is_none());
    assert!(platform.take().is_none());
}

#[test]
fn startup_runs_only_with_both_handles() {
    assert_eq!(startup_mode(true, true), StartMode::Run);
    assert_eq!(startup_mode(false, true), StartMode::Idle);
    assert_eq!(startup_mode(true, false), StartMode::Idle);
    assert_eq!(startup_mode(false, false), StartMode::Idle);
}

#[test]
fn double_acquisition_leads_to_idle_with_zero_operations() {
    // A second acquisition attempt yields no handles, so startup decides
    // to idle instead of running the animation, and the driver performs
    // zero LED operations and zero delay operations.
    let mut device_platform = Platform::new();
    let mut core_platform = Platform::new();
    let _held_elsewhere = (device_platform.take(), core_platform.take());
    let device = device_platform.take();
    let core = core_platform.take();
    assert!(device.is_none());
    assert!(core.is_none());
    let mode = startup_mode(device.is_some(), core.is_some());
    assert_eq!(mode, StartMode::Idle);
    let mut bank = led_chase::led::LedBank::new();
    let trace = led_chase::driver::run_cycles_in_mode(&mut bank, mode, 7);
    assert!(trace.is_empty());
}
