use sim_rust::battery::Battery;
use sim_rust::dev::Device;
use sim_rust::gps::{GPSLocation, GPSLocator, FIX_COST_MAH, NEO7M};

const HOME: GPSLocation = GPSLocation { lat: 40_000_000, lon: 50_000_000 };

#[test]
fn no_fix_means_no_location() {
    let mut locator = NEO7M::new(None, Battery::new_10k_mah());
    assert_eq!(locator.get_current_location(), None);
    assert_eq!(locator.get_last_location(), None);
}

#[test]
fn an_attempt_without_a_fix_still_costs() {
    let mut locator = NEO7M::new(None, Battery::new_10k_mah());
    assert_eq!(locator.get_current_location(), None);
    assert_eq!(locator.power_source().remaining(), 9965);
    assert_eq!(locator.get_current_location(), None);
    assert_eq!(locator.power_source().remaining(), 9930);
}

#[test]
fn the_cost_of_a_fix_is_35_mah() {
    assert_eq!(FIX_COST_MAH, 35);
    let mut locator = NEO7M::new(Some(HOME), Battery::new_4k_mah());
    let _ = locator.get_current_location();
    assert_eq!(locator.power_source().remaining(), 4500 - 35);
}

#[test]
fn a_fix_is_returned_and_becomes_the_last_location() {
    let mut locator = NEO7M::new(Some(HOME), Battery::new_10k_mah());
    assert_eq!(locator.get_last_location(), None);
    let fix = locator.get_current_location();
    assert_eq!(fix, Some(HOME));
    assert_eq!(locator.get_last_location(), fix);
    assert_eq!(locator.power_source().remaining(), 9965);
    assert_eq!(locator.power_source().capacity(), 10000);
}

#[test]
fn the_last_location_is_free() {
    let mut locator = NEO7M::new(Some(HOME), Battery::new(4500, 100));
    assert_eq!(locator.get_last_location(), None);
    assert_eq!(locator.power_source().remaining(), 100);
    assert_eq!(locator.get_current_location(), Some(HOME));
    assert_eq!(locator.power_source().remaining(), 65);
    for _ in 0..10 {
        assert_eq!(locator.get_last_location(), Some(HOME));
    }
    assert_eq!(locator.power_source().remaining(), 65);
}

#[test]
fn paying_the_last_35_mah_yields_nothing() {
    let mut locator = NEO7M::new(Some(HOME), Battery::new(4500, 35));
    assert_eq!(locator.get_current_location(), None);
    assert_eq!(locator.power_source().remaining(), 0);
    assert_eq!(locator.get_last_location(), None);
}

#[test]
fn one_mah_left_over_is_enough() {
    let mut locator = NEO7M::new(Some(HOME), Battery::new(4500, 36));
    assert_eq!(locator.get_current_location(), Some(HOME));
    assert_eq!(locator.power_source().remaining(), 1);
    assert_eq!(locator.get_current_location(), None);
    assert_eq!(locator.power_source().remaining(), 0);
}

#[test]
fn too_little_charge_empties_the_battery_and_yields_nothing() {
    let mut locator = NEO7M::new(Some(HOME), Battery::new(4500, 20));
    assert_eq!(locator.get_current_location(), None);
    assert_eq!(locator.power_source().remaining(), 0);
}

#[test]
fn a_failed_attempt_keeps_the_last_location() {
    let mut locator = NEO7M::new(Some(HOME), Battery::new(4500, 70));
    assert_eq!(locator.get_current_location(), Some(HOME));
    assert_eq!(locator.get_last_location(), Some(HOME));
    assert_eq!(locator.get_current_location(), None);
    assert_eq!(locator.get_last_location(), Some(HOME));
}

#[test]
fn an_empty_battery_never_yields_a_location_again() {
    let mut locator = NEO7M::new(Some(HOME), Battery::new(4500, 0));
    for _ in 0..50 {
        assert_eq!(locator.get_current_location(), None);
        assert_eq!(locator.power_source().remaining(), 0);
    }
    assert_eq!(locator.get_last_location(), None);
}

#[test]
fn a_full_battery_pays_for_285_fixes() {
    let mut locator = NEO7M::new(Some(HOME), Battery::new_10k_mah());
    let mut fixes = 0;
    while locator.get_current_location() == Some(HOME) {
        fixes += 1;
        assert_eq!(locator.get_last_location(), Some(HOME));
    }
    assert_eq!(fixes, 285);
    assert_eq!(locator.power_source().remaining(), 0);
    assert_eq!(locator.get_current_location(), None);
    assert_eq!(locator.get_last_location(), Some(HOME));
}

#[test]
fn an_overfilled_battery_pays_like_any_other() {
    let mut battery = Battery::new(10000, 9000);
    battery.charge(1500);
    let mut locator = NEO7M::new(Some(HOME), battery);
    assert_eq!(locator.get_current_location(), Some(HOME));
    assert_eq!(locator.power_source().remaining(), 10465);
}

#[test]
fn locations_are_plain_values() {
    let copy = HOME;
    assert_eq!(copy, HOME);
    assert_eq!(copy.lat, 40_000_000);
    assert_eq!(copy.lon, 50_000_000);
    assert_ne!(HOME, GPSLocation { lat: 50_000_000, lon: 40_000_000 });
}

#[test]
fn a_device_owns_its_parts() {
    let mut device = Device {
        gps_unit: NEO7M::new(Some(HOME), Battery::new_4k_mah()),
        battery: Battery::new_10k_mah(),
    };
    assert_eq!(device.gps_unit.get_current_location(), Some(HOME));
    assert_eq!(device.gps_unit.power_source().remaining(), 4465);
    assert_eq!(device.battery.remaining(), 10000);
    device.battery.discharge(35);
    assert_eq!(device.battery.remaining(), 9965);
    assert_eq!(device.gps_unit.power_source().remaining(), 4465);
}
