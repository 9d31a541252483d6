use linkbudget::constants::MASS_OF_EARTH;
use linkbudget::constants::MASS_OF_MARS;
use linkbudget::constants::MASS_OF_MOON;
use linkbudget::constants::MASS_OF_SUN;
use linkbudget::constants::RADIUS_OF_EARTH;
use linkbudget::constants::RADIUS_OF_MARS;
use linkbudget::constants::RADIUS_OF_MOON;
use linkbudget::constants::RADIUS_OF_SUN;
use linkbudget::constants::SPEED_OF_LIGHT;

#[test]
fn speed_of_light() {
    assert_eq!(299792458.0, SPEED_OF_LIGHT as f64);
}

#[test]
fn radius_of_earth() {
    assert_eq!(6371000.0, RADIUS_OF_EARTH as f64);
}

#[test]
fn mass_of_earth() {
    assert_eq!(5.972e24, MASS_OF_EARTH as f64);
}

#[test]
fn radius_of_moon() {
    assert_eq!(1737400.0, RADIUS_OF_MOON as f64);
}

#[test]
fn mass_of_moon() {
    assert_eq!(7.34767309e22, MASS_OF_MOON as f64);
}

#[test]
fn radius_of_sun() {
    assert_eq!(695500000.0, RADIUS_OF_SUN as f64);
}

#[test]
fn mass_of_sun() {
    assert_eq!(1.98847e30, MASS_OF_SUN as f64);
}

#[test]
fn radius_of_mars() {
    assert_eq!(3389500.0, RADIUS_OF_MARS as f64);
}

#[test]
fn mass_of_mars() {
    assert_eq!(6.4165e23, MASS_OF_MARS as f64);
}
