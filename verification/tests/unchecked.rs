use simmer::{Float, Temperature, Unit};

fn fl(x: f64) -> Float {
    Float::from_bits(x.to_bits())
}

fn num(x: Float) -> f64 {
    f64::from_bits(x.to_bits())
}

fn assert_close(a: f64, b: f64) {
    assert!((a - b).abs() < 1.0e-6, "{} is not close to {}", a, b);
}

/// The arguments are one temperature in Fahrenheit, Celsius and Kelvin.
fn check_all(temp_f: f64, temp_c: f64, temp_k: f64) {
    assert_close(temp_f, num(Temperature::Celsius(fl(temp_c)).to_fahrenheit().into_inner()));
    assert_close(temp_f, num(Temperature::Kelvin(fl(temp_k)).to_fahrenheit().into_inner()));
    assert_close(temp_f, num(Temperature::Fahrenheit(fl(temp_f)).to_fahrenheit().into_inner()));

    assert_close(temp_c, num(Temperature::Fahrenheit(fl(temp_f)).to_celsius().into_inner()));
    assert_close(temp_c, num(Temperature::Kelvin(fl(temp_k)).to_celsius().into_inner()));
    assert_close(temp_c, num(Temperature::Celsius(fl(temp_c)).to_celsius().into_inner()));

    assert_close(temp_k, num(Temperature::Fahrenheit(fl(temp_f)).to_kelvin().into_inner()));
    assert_close(temp_k, num(Temperature::Celsius(fl(temp_c)).to_kelvin().into_inner()));
    assert_close(temp_k, num(Temperature::Kelvin(fl(temp_k)).to_kelvin().into_inner()));
}

#[test]
fn tests_surface_of_sun() {
    let sun_f: f64 = 9941.0;
    let sun_c: f64 = 5505.0;
    let sun_k: f64 = 5778.15;

    check_all(sun_f, sun_c, sun_k);
}

#[test]
fn tests_water_boils() {
    let water_f: f64 = 212.0;
    let water_c: f64 = 100.0;
    let water_k: f64 = 373.15;

    check_all(water_f, water_c, water_k);
}

#[test]
fn tests_water_freezes() {
    let ice_f: f64 = 32.0;
    let ice_c: f64 = 0.0;
    let ice_k: f64 = 273.15;

    check_all(ice_f, ice_c, ice_k);
}

#[test]
#[should_panic]
fn tests_zeroes() {
    // zero is not the same temperature in the three units
    let (zero_f, zero_c, zero_k): (f64, f64, f64) = (0.0, 0.0, 0.0);

    check_all(zero_f, zero_c, zero_k);
}

#[test]
fn absolute_zero_is_one_temperature() {
    check_all(-459.67, -273.15, 0.0);
}

#[test]
fn body_temperature_from_the_documentation() {
    let body_temp_c = Temperature::Celsius(fl(37.0));
    assert_close(num(body_temp_c.to_fahrenheit().into_inner()), 98.6);

    let body_temp_f = Temperature::Fahrenheit(fl(98.6));
    assert_close(num(body_temp_f.to_celsius().into_inner()), 37.0);

    let abs_zero_k = Temperature::Kelvin(fl(0.0));
    assert_close(num(abs_zero_k.to_celsius().into_inner()), -273.15);
}

#[test]
fn each_formula_computes_what_the_hardware_does() {
    let samples: [f64; 12] = [
        0.0, -0.0, 1.0, 37.0, 98.6, 100.0, 212.0, -40.0, 5778.15, -459.67, 1.0e300, 4.9e-324,
    ];
    for x in samples {
        let f = Temperature::Fahrenheit(fl(x));
        let c = Temperature::Celsius(fl(x));
        let k = Temperature::Kelvin(fl(x));

        assert_eq!(f.to_celsius().into_inner().to_bits(), ((x - 32.0) / 1.8).to_bits());
        assert_eq!(c.to_fahrenheit().into_inner().to_bits(), ((x * 1.8) + 32.0).to_bits());
        assert_eq!(c.to_kelvin().into_inner().to_bits(), (x + 273.15).to_bits());
        assert_eq!(k.to_celsius().into_inner().to_bits(), (x - 273.15).to_bits());
        assert_eq!(f.to_kelvin().into_inner().to_bits(), (((x - 32.0) / 1.8) + 273.15).to_bits());
        assert_eq!(
            k.to_fahrenheit().into_inner().to_bits(),
            (((x - 273.15) * 1.8) + 32.0).to_bits()
        );
    }
}

#[test]
fn exact_values_of_the_formulas() {
    assert_eq!(num(Temperature::Celsius(fl(100.0)).to_fahrenheit().into_inner()), 212.0);
    assert_eq!(num(Temperature::Fahrenheit(fl(212.0)).to_celsius().into_inner()), 100.0);
    assert_eq!(num(Temperature::Fahrenheit(fl(32.0)).to_celsius().into_inner()), 0.0);
    assert_eq!(num(Temperature::Celsius(fl(0.0)).to_kelvin().into_inner()), 273.15);
    assert_eq!(num(Temperature::Kelvin(fl(273.15)).to_celsius().into_inner()), 0.0);
    assert_eq!(num(Temperature::Fahrenheit(fl(32.0)).to_kelvin().into_inner()), 273.15);
    assert_eq!(num(Temperature::Kelvin(fl(273.15)).to_fahrenheit().into_inner()), 32.0);
    assert_eq!(num(Temperature::Celsius(fl(-40.0)).to_fahrenheit().into_inner()), -40.0);
}

#[test]
fn a_conversion_gives_the_unit_asked_for() {
    let t = Temperature::Kelvin(fl(300.0));
    assert!(matches!(t.to_fahrenheit(), Temperature::Fahrenheit(_)));
    assert!(matches!(t.to_celsius(), Temperature::Celsius(_)));
    assert!(matches!(t.to_kelvin(), Temperature::Kelvin(_)));
    assert_eq!(t.to_unit(Unit::Fahrenheit).get_unit(), Unit::Fahrenheit);
    assert_eq!(t.to_unit(Unit::Celsius).get_unit(), Unit::Celsius);
    assert_eq!(t.to_unit(Unit::Kelvin).get_unit(), Unit::Kelvin);
    assert_eq!(
        t.to_unit(Unit::Fahrenheit).into_inner().to_bits(),
        t.to_fahrenheit().into_inner().to_bits()
    );
}

#[test]
fn converting_to_the_own_unit_changes_no_bit() {
    let patterns: [u64; 8] = [
        0,
        0x8000_0000_0000_0000,
        98.6f64.to_bits(),
        (-459.67f64).to_bits(),
        f64::INFINITY.to_bits(),
        f64::NEG_INFINITY.to_bits(),
        0x7ff8_0000_0000_0001,
        0xfff0_0000_0000_0001,
    ];
    for bits in patterns {
        let m = Float::from_bits(bits);
        assert_eq!(Temperature::Fahrenheit(m).to_fahrenheit().into_inner().to_bits(), bits);
        assert_eq!(Temperature::Celsius(m).to_celsius().into_inner().to_bits(), bits);
        assert_eq!(Temperature::Kelvin(m).to_kelvin().into_inner().to_bits(), bits);
        assert_eq!(Unit::Kelvin.wrap(m).to_unit(Unit::Kelvin).get_inner().to_bits(), bits);
    }
}

#[test]
fn there_and_back_stays_close() {
    let samples: [f64; 9] = [0.0, 1.0, -1.0, 37.0, 98.6, 451.0, 5778.15, 1234567.875, 0.001];
    for x in samples {
        let f = Temperature::Fahrenheit(fl(x));
        let c = Temperature::Celsius(fl(x));
        let k = Temperature::Kelvin(fl(x));

        assert!((num(f.to_celsius().to_fahrenheit().into_inner()) - x).abs() < 1.0e-2);
        assert!((num(f.to_kelvin().to_fahrenheit().into_inner()) - x).abs() < 1.0e-2);
        assert!((num(c.to_fahrenheit().to_celsius().into_inner()) - x).abs() < 1.0e-2);
        assert!((num(c.to_kelvin().to_celsius().into_inner()) - x).abs() < 1.0e-2);
        assert!((num(k.to_fahrenheit().to_kelvin().into_inner()) - x).abs() < 1.0e-2);
        assert!((num(k.to_celsius().to_kelvin().into_inner()) - x).abs() < 1.0e-2);
    }
}

#[test]
fn the_magnitude_comes_out_as_it_went_in() {
    let t = Temperature::Fahrenheit(fl(98.6));
    assert_eq!(num(t.get_inner()), 98.6);
    assert_eq!(num(t.into_inner()), 98.6);
    let m: Float = Temperature::Kelvin(fl(0.5)).into();
    assert_eq!(num(m), 0.5);
    assert_eq!(num(Float::from(Temperature::Celsius(fl(-3.25)))), -3.25);
}

#[test]
fn below_absolute_zero_is_strictly_below() {
    assert!(!Temperature::Kelvin(fl(0.0)).is_below_abs_zero());
    assert!(!Temperature::Kelvin(fl(-0.0)).is_below_abs_zero());
    assert!(Temperature::Kelvin(fl(-0.1)).is_below_abs_zero());
    assert!(Temperature::Kelvin(fl(-4.9e-324)).is_below_abs_zero());

    assert!(!Temperature::Celsius(fl(-273.15)).is_below_abs_zero());
    assert!(Temperature::Celsius(fl(-273.17)).is_below_abs_zero());
    assert!(Temperature::Celsius(fl(-273.15000000000003)).is_below_abs_zero());

    assert!(!Temperature::Fahrenheit(fl(-459.67)).is_below_abs_zero());
    assert!(Temperature::Fahrenheit(fl(-459.70)).is_below_abs_zero());

    assert!(Temperature::Fahrenheit(fl(f64::NEG_INFINITY)).is_below_abs_zero());
    assert!(!Temperature::Fahrenheit(fl(f64::INFINITY)).is_below_abs_zero());
    assert!(!Temperature::Celsius(fl(f64::NAN)).is_below_abs_zero());
}

#[test]
fn absolute_zero_is_judged_in_the_own_unit() {
    // -300 is below absolute zero in Celsius and not in Fahrenheit
    assert!(Temperature::Celsius(fl(-300.0)).is_below_abs_zero());
    assert!(!Temperature::Fahrenheit(fl(-300.0)).is_below_abs_zero());
    assert!(Temperature::Kelvin(fl(-300.0)).is_below_abs_zero());
}

#[test]
fn a_nan_is_found_in_every_unit() {
    assert!(Temperature::Fahrenheit(fl(f64::NAN)).is_nan());
    assert!(Temperature::Celsius(fl(-f64::NAN)).is_nan());
    assert!(Temperature::Kelvin(Float::from_bits(0x7ff0_0000_0000_0001)).is_nan());
    assert!(!Temperature::Kelvin(fl(f64::INFINITY)).is_nan());
    assert!(!Temperature::Celsius(fl(0.0)).is_nan());
    assert!(!Temperature::Fahrenheit(fl(f64::MAX)).is_nan());
}

#[test]
fn sums_and_differences_are_in_the_unit_on_the_left() {
    let c = Temperature::Celsius(fl(20.0));
    let f = Temperature::Fahrenheit(fl(50.0));

    let sum = c + f;
    assert!(matches!(sum, Temperature::Celsius(_)));
    assert_eq!(num(sum.into_inner()), 20.0 + ((50.0 - 32.0) / 1.8));
    assert_eq!(num(sum.into_inner()), 30.0);

    let difference = f - c;
    assert!(matches!(difference, Temperature::Fahrenheit(_)));
    assert_eq!(num(difference.into_inner()), 50.0 - ((20.0 * 1.8) + 32.0));
    assert_eq!(num(difference.into_inner()), -18.0);

    let k = Temperature::Kelvin(fl(1.5)) + Temperature::Kelvin(fl(2.25));
    assert!(matches!(k, Temperature::Kelvin(_)));
    assert_eq!(num(k.into_inner()), 3.75);

    let k = Temperature::Kelvin(fl(300.0)) - Temperature::Celsius(fl(0.0));
    assert_eq!(num(k.into_inner()), 300.0 - (0.0 + 273.15));
}

#[test]
fn products_and_quotients_scale_the_magnitude() {
    let t = Temperature::Fahrenheit(fl(32.0)) * fl(2.0);
    assert!(matches!(t, Temperature::Fahrenheit(_)));
    assert_eq!(num(t.into_inner()), 64.0);

    let t = Temperature::Celsius(fl(32.0)) / fl(2.0);
    assert!(matches!(t, Temperature::Celsius(_)));
    assert_eq!(num(t.into_inner()), 16.0);

    let t = Temperature::Kelvin(fl(1.0)) / fl(3.0);
    assert_eq!(num(t.into_inner()), 1.0 / 3.0);

    let t = Temperature::Kelvin(fl(1.0)) / fl(0.0);
    assert_eq!(num(t.into_inner()), f64::INFINITY);
    assert!((Temperature::Kelvin(fl(0.0)) / fl(0.0)).is_nan());
}

#[test]
fn temperatures_are_equal_in_one_unit_only() {
    assert!(Temperature::Celsius(fl(1.0)) == Temperature::Celsius(fl(1.0)));
    assert!(Temperature::Celsius(fl(0.0)) == Temperature::Celsius(fl(-0.0)));
    assert!(Temperature::Celsius(fl(1.0)) != Temperature::Celsius(fl(2.0)));
    assert!(Temperature::Celsius(fl(1.0)) != Temperature::Kelvin(fl(1.0)));
    assert!(Temperature::Celsius(fl(0.0)) != Temperature::Fahrenheit(fl(32.0)));
    assert!(Temperature::Kelvin(fl(f64::NAN)) != Temperature::Kelvin(fl(f64::NAN)));
}

#[test]
fn the_structured_form_names_the_unit() {
    assert_eq!(Temperature::Celsius(fl(0.0)).debug_form("0.00000"), "Temperature::Celsius(0.00000)");
    assert_eq!(
        Temperature::Fahrenheit(fl(4.06)).debug_form("4.05999"),
        "Temperature::Fahrenheit(4.05999)"
    );
    assert_eq!(Temperature::Kelvin(fl(1.0)).debug_form(""), "Temperature::Kelvin()");
    assert_eq!(Unit::Fahrenheit.name(), "Fahrenheit");
    assert_eq!(Unit::Celsius.name(), "Celsius");
    assert_eq!(Unit::Kelvin.name(), "Kelvin");
}
