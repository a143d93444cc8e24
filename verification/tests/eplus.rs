//! The physics formulas and the coefficient resolver, exercised on the
//! reference conditions of the EnergyPlus input/output documentation.
//!
//! Quantities are fixed point: an `i64` counts millionths of a unit, so
//! `1_000_000` is 1.0.

use air_flow::data::{AirFlowError, Building, CurrentWeather, ShelterClass};
use air_flow::eplus::{
    blast_design_flow_rate, design_flow_rate, doe2_design_flow_rate, effective_leakage_area,
};
use air_flow::resolvers::{resolve_stack_coefficient, resolve_wind_coefficient};

fn to_float(flow: i64) -> f64 {
    flow as f64 / 1e6
}

#[test]
fn test_design_blast_flow_rate() {
    /* THIS COMES FROM ENERGY PLUS' INPUT OUTPUT REF */
    /*
        "These coefficients produce a value of 1.0 at 0C deltaT and
        3.35 m/s (7.5 mph) windspeed, which corresponds to a typical
        summer condition.

        At a winter condition of 40C deltaT and 6 m/s
        (13.4 mph) windspeed, these coefficients would increase the infiltration
        rate by a factor of 2.75."
    */

    // Summer: 0 C of temperature difference
    let weather = CurrentWeather {
        dry_bulb_temperature: Some(2_000_000),
        wind_speed: Some(3_350_000),
    };
    let indoor = Some(2_000_000);
    let design_rate: i64 = 1_000_000;
    let flow = blast_design_flow_rate(&weather, indoor, design_rate).unwrap();
    assert!((1.0 - to_float(flow)).abs() < 0.02);

    // Winter: 40 C of temperature difference
    let weather = CurrentWeather {
        dry_bulb_temperature: Some(-38_000_000),
        wind_speed: Some(6_000_000),
    };
    let indoor = Some(2_000_000);
    let flow = blast_design_flow_rate(&weather, indoor, design_rate).unwrap();
    assert!((2.75 - to_float(flow)).abs() < 0.02);
}

#[test]
fn test_design_doe2_flow_rate() {
    /* THIS COMES FROM ENERGY PLUS' INPUT OUTPUT REF */
    /*
        "With these coefficients, the summer conditions above would
        give a factor of 0.75, and the winter conditions would give 1.34.
        A windspeed of 4.47 m/s (10 mph) gives a factor of 1.0.
    */

    // Summer: 0 C of temperature difference
    let weather = CurrentWeather {
        dry_bulb_temperature: Some(2_000_000),
        wind_speed: Some(3_350_000),
    };
    let indoor = Some(2_000_000);
    let design_rate: i64 = 1_000_000;
    let flow = doe2_design_flow_rate(&weather, indoor, design_rate).unwrap();
    assert!((0.75 - to_float(flow)).abs() < 0.02);

    // Winter: 40 C of temperature difference
    let weather = CurrentWeather {
        dry_bulb_temperature: Some(42_000_000),
        wind_speed: Some(6_000_000),
    };
    let indoor = Some(2_000_000);
    let flow = doe2_design_flow_rate(&weather, indoor, design_rate).unwrap();
    assert!((1.34 - to_float(flow)).abs() < 0.02);

    // ... A windspeed of 4.47 m/s (10 mph) gives a factor of 1.0.
    let weather = CurrentWeather {
        dry_bulb_temperature: Some(42_000_000),
        wind_speed: Some(4_470_000),
    };
    let indoor = Some(2_000_000);
    let flow = doe2_design_flow_rate(&weather, indoor, design_rate).unwrap();
    assert!((1.0 - to_float(flow)).abs() < 0.02);
}

#[test]
fn design_flow_rate_exact_value() {
    // rate 2.0, a 1.0, b 0.1, c 0.01, d 0.001; deltaT 10, wind 2:
    // factor = 1 + 1 + 0.02 + 0.004 = 2.024, flow = 4.048 exactly.
    let weather = CurrentWeather {
        dry_bulb_temperature: Some(12_000_000),
        wind_speed: Some(2_000_000),
    };
    let indoor = Some(22_000_000);
    let flow = design_flow_rate(
        &weather,
        indoor,
        2_000_000,
        1_000_000,
        100_000,
        10_000,
        1_000,
    )
    .unwrap();
    assert_eq!(flow, 4_048_000);
}

#[test]
fn design_flow_rate_missing_data_errors() {
    let full = CurrentWeather {
        dry_bulb_temperature: Some(0),
        wind_speed: Some(1_000_000),
    };
    let no_temperature = CurrentWeather {
        dry_bulb_temperature: None,
        wind_speed: Some(1_000_000),
    };
    let no_wind = CurrentWeather {
        dry_bulb_temperature: Some(0),
        wind_speed: None,
    };
    let r = design_flow_rate(&full, None, 1_000_000, 0, 0, 0, 0);
    assert_eq!(r, Err(AirFlowError::MissingSpaceDryBulbTemperature));
    let r = design_flow_rate(&no_temperature, Some(0), 1_000_000, 0, 0, 0, 0);
    assert_eq!(r, Err(AirFlowError::MissingWeatherDryBulbTemperature));
    let r = design_flow_rate(&no_wind, Some(0), 1_000_000, 0, 0, 0, 0);
    assert_eq!(r, Err(AirFlowError::MissingWeatherWindSpeed));
}

#[test]
fn effective_leakage_area_exact_value() {
    // area 500 cm2, cs 0.000145, cw 0.000319, deltaT 40, wind 6:
    // flow = 0.5 * sqrt(0.0058 + 0.011484) = 0.065734 (rounded down).
    let weather = CurrentWeather {
        dry_bulb_temperature: Some(-18_000_000),
        wind_speed: Some(6_000_000),
    };
    let indoor = Some(22_000_000);
    let flow = effective_leakage_area(&weather, indoor, 500_000_000, 319, 145).unwrap();
    assert_eq!(flow, 65_734);
    let expected = 0.5 * (0.000145f64 * 40.0 + 0.000319 * 36.0).sqrt();
    assert!((expected - to_float(flow)).abs() < 1e-5);
}

#[test]
fn effective_leakage_area_wind_defaults_to_zero() {
    // The leakage-area model alone tolerates a missing wind speed.
    let weather = CurrentWeather {
        dry_bulb_temperature: Some(-18_000_000),
        wind_speed: None,
    };
    let indoor = Some(22_000_000);
    let flow = effective_leakage_area(&weather, indoor, 500_000_000, 319, 145).unwrap();
    // 0.5 * sqrt(0.000145 * 40) = 0.038078...
    let expected = 0.5 * (0.000145f64 * 40.0).sqrt();
    assert!((expected - to_float(flow)).abs() < 1e-5);

    // A missing temperature still fails.
    let no_temperature = CurrentWeather {
        dry_bulb_temperature: None,
        wind_speed: None,
    };
    let r = effective_leakage_area(&no_temperature, indoor, 500_000_000, 319, 145);
    assert_eq!(r, Err(AirFlowError::MissingWeatherDryBulbTemperature));
    let r = effective_leakage_area(&weather, None, 500_000_000, 319, 145);
    assert_eq!(r, Err(AirFlowError::MissingSpaceDryBulbTemperature));
}

#[test]
fn resolved_coefficients_one_and_two_storeys() {
    // One storey, no obstructions, no explicit coefficients.
    let building = Building {
        stack_coefficient: None,
        wind_coefficient: None,
        shelter_class: Some(ShelterClass::NoObstructions),
        n_storeys: Some(1),
    };
    let (cs, warned) = resolve_stack_coefficient(0, 0, &building).unwrap();
    assert_eq!(cs, 145); // 0.000145
    assert!(!warned);
    let cw = resolve_wind_coefficient(0, 0, &building).unwrap();
    assert_eq!(cw, 319); // 0.000319

    // Two storeys.
    let building = Building {
        n_storeys: Some(2),
        ..building
    };
    let (cs, warned) = resolve_stack_coefficient(0, 0, &building).unwrap();
    assert_eq!(cs, 290); // 0.000290
    assert!(!warned);
    let cw = resolve_wind_coefficient(0, 0, &building).unwrap();
    assert_eq!(cw, 420); // 0.000420
}

#[test]
fn resolved_coefficients_explicit_values_win() {
    let building = Building {
        stack_coefficient: Some(777),
        wind_coefficient: Some(888),
        shelter_class: Some(ShelterClass::Urban),
        n_storeys: Some(1),
    };
    let (cs, warned) = resolve_stack_coefficient(3, 1, &building).unwrap();
    assert_eq!(cs, 777);
    assert!(!warned);
    let cw = resolve_wind_coefficient(3, 1, &building).unwrap();
    assert_eq!(cw, 888);
}

#[test]
fn resolved_coefficients_storey_buckets_and_shelter_rows() {
    // Three or more storeys fall into the last bucket of every row.
    for storeys in [3usize, 5, 9] {
        let building = Building {
            stack_coefficient: Some(0),
            wind_coefficient: None,
            shelter_class: Some(ShelterClass::SmallLotUrban),
            n_storeys: Some(storeys),
        };
        assert_eq!(resolve_wind_coefficient(0, 0, &building).unwrap(), 49);
    }
    let rows = [
        (ShelterClass::NoObstructions, [319i64, 420, 494]),
        (ShelterClass::IsolatedRural, [246, 325, 382]),
        (ShelterClass::Urban, [172, 231, 271]),
        (ShelterClass::LargeLotUrban, [104, 137, 161]),
        (ShelterClass::SmallLotUrban, [32, 42, 49]),
    ];
    for (shelter, values) in rows {
        for (storeys, expected) in [(1usize, values[0]), (2, values[1]), (3, values[2])] {
            let building = Building {
                stack_coefficient: None,
                wind_coefficient: None,
                shelter_class: Some(shelter),
                n_storeys: Some(storeys),
            };
            assert_eq!(resolve_wind_coefficient(0, 0, &building).unwrap(), expected);
        }
    }
}

#[test]
fn stack_coefficient_above_three_storeys_warns() {
    let building = Building {
        stack_coefficient: None,
        wind_coefficient: None,
        shelter_class: Some(ShelterClass::NoObstructions),
        n_storeys: Some(4),
    };
    let (cs, warned) = resolve_stack_coefficient(0, 0, &building).unwrap();
    assert_eq!(cs, 435); // the three-storey value stands in
    assert!(warned);
}

#[test]
fn coefficient_resolution_configuration_errors() {
    // Zero storeys without an explicit stack coefficient is fatal.
    let building = Building {
        stack_coefficient: None,
        wind_coefficient: None,
        shelter_class: Some(ShelterClass::Urban),
        n_storeys: Some(0),
    };
    assert_eq!(
        resolve_stack_coefficient(0, 2, &building),
        Err(AirFlowError::ZeroStoreys { building: 2 })
    );

    // Neither a stack coefficient nor a storey count.
    let building = Building {
        stack_coefficient: None,
        wind_coefficient: None,
        shelter_class: Some(ShelterClass::Urban),
        n_storeys: None,
    };
    assert_eq!(
        resolve_stack_coefficient(5, 0, &building),
        Err(AirFlowError::MissingStackCoefficientData { space: 5 })
    );

    // The wind lookup needs a storey count.
    assert_eq!(
        resolve_wind_coefficient(5, 1, &building),
        Err(AirFlowError::MissingStoreys {
            building: 1,
            space: 5
        })
    );

    // Neither a wind coefficient nor a shelter class.
    let building = Building {
        stack_coefficient: None,
        wind_coefficient: None,
        shelter_class: None,
        n_storeys: Some(2),
    };
    assert_eq!(
        resolve_wind_coefficient(7, 0, &building),
        Err(AirFlowError::MissingWindCoefficientData { space: 7 })
    );
}
