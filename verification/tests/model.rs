//! The airflow model end to end: construction, state registration, and the
//! per-step dispatch over all resolved units.

use air_flow::data::{
    AirFlowError, Building, CurrentWeather, Infiltration, ShelterClass, SimpleModel, Space,
};
use air_flow::model::AirFlowModel;
use air_flow::state::{SimulationStateElement, SimulationStateHeader};

fn to_float(flow: i64) -> f64 {
    flow as f64 / 1e6
}

#[test]
fn test_infiltration() {
    let mut simple_model = SimpleModel {
        spaces: Vec::new(),
        buildings: Vec::new(),
    };
    let mut state_header = SimulationStateHeader::new();

    let i = state_header.push(
        SimulationStateElement::SpaceDryBulbTemperature(0),
        22_000_000,
    );
    simple_model.spaces.push(Space {
        infiltration: Some(Infiltration::Doe2 { flow: 1_000_000 }),
        building: None,
        dry_bulb_temperature_index: Some(i),
    });

    let model = AirFlowModel::new(&simple_model, &mut state_header)
        .expect("Could not build AirFlow model");
    let mut state = state_header.take_values();

    /*
    This test is essentially the same as in test_design_blast_flow_rate().

    "At a winter condition of 40C deltaT and 6 m/s
    (13.4 mph) windspeed, these coefficients would increase the infiltration
    rate by a factor of 2.75."
    */
    let space_temp = state[i];
    let weather = CurrentWeather {
        dry_bulb_temperature: Some(space_temp - 40_000_000),
        wind_speed: Some(6_000_000),
    };

    // It should be initialized as Zero
    let inf = state[model.volume_index(0)];
    assert!(to_float(inf) < 1e-9);

    model.march(&weather, &mut state).unwrap();

    // Check values.
    let inf = state[model.volume_index(0)];
    assert!((1.34 - to_float(inf)).abs() < 0.02);

    // ... A windspeed of 4.47 m/s (10 mph) gives a factor of 1.0.
    let weather = CurrentWeather {
        dry_bulb_temperature: Some(space_temp - 40_000_000),
        wind_speed: Some(4_470_000),
    };
    model.march(&weather, &mut state).unwrap();

    // Check values.
    let inf = state[model.volume_index(0)];
    assert!((1.0 - to_float(inf)).abs() < 0.02);
}

#[test]
fn construction_registers_two_zeroed_slots_per_space() {
    let mut model = SimpleModel {
        spaces: Vec::new(),
        buildings: Vec::new(),
    };
    let mut header = SimulationStateHeader::new();
    let t0 = header.push(SimulationStateElement::SpaceDryBulbTemperature(0), 21_000_000);
    let t1 = header.push(SimulationStateElement::SpaceDryBulbTemperature(1), 23_000_000);
    model.spaces.push(Space {
        infiltration: Some(Infiltration::Constant { flow: 500_000 }),
        building: None,
        dry_bulb_temperature_index: Some(t0),
    });
    model.spaces.push(Space {
        infiltration: None,
        building: None,
        dry_bulb_temperature_index: Some(t1),
    });

    let airflow = AirFlowModel::new(&model, &mut header).unwrap();
    assert_eq!(header.len(), 2 + 4);
    assert_eq!(airflow.volume_index(0), 2);
    assert_eq!(airflow.temperature_index(0), 3);
    assert_eq!(airflow.volume_index(1), 4);
    assert_eq!(airflow.temperature_index(1), 5);

    let state = header.take_values();
    for space in 0..2 {
        assert_eq!(state[airflow.volume_index(space)], 0);
        assert_eq!(state[airflow.temperature_index(space)], 0);
    }
}

#[test]
fn constant_infiltration_ignores_wind() {
    let mut model = SimpleModel {
        spaces: Vec::new(),
        buildings: Vec::new(),
    };
    let mut header = SimulationStateHeader::new();
    let t = header.push(SimulationStateElement::SpaceDryBulbTemperature(0), 20_000_000);
    model.spaces.push(Space {
        infiltration: Some(Infiltration::Constant { flow: 750_000 }),
        building: None,
        dry_bulb_temperature_index: Some(t),
    });
    let airflow = AirFlowModel::new(&model, &mut header).unwrap();
    let mut state = header.take_values();

    // No wind speed in the sample: the constant model does not need it.
    let weather = CurrentWeather {
        dry_bulb_temperature: Some(-5_000_000),
        wind_speed: None,
    };
    airflow.march(&weather, &mut state).unwrap();
    assert_eq!(state[airflow.volume_index(0)], 750_000);
    assert_eq!(state[airflow.temperature_index(0)], -5_000_000);
}

#[test]
fn spaces_without_specification_stay_untouched() {
    let mut model = SimpleModel {
        spaces: Vec::new(),
        buildings: Vec::new(),
    };
    let mut header = SimulationStateHeader::new();
    let t0 = header.push(SimulationStateElement::SpaceDryBulbTemperature(0), 22_000_000);
    let t1 = header.push(SimulationStateElement::SpaceDryBulbTemperature(1), 22_000_000);
    model.spaces.push(Space {
        infiltration: None,
        building: None,
        dry_bulb_temperature_index: Some(t0),
    });
    model.spaces.push(Space {
        infiltration: Some(Infiltration::Blast { flow: 1_000_000 }),
        building: None,
        dry_bulb_temperature_index: Some(t1),
    });
    let airflow = AirFlowModel::new(&model, &mut header).unwrap();
    let mut state = header.take_values();

    let weather = CurrentWeather {
        dry_bulb_temperature: Some(2_000_000),
        wind_speed: Some(3_350_000),
    };
    airflow.march(&weather, &mut state).unwrap();

    // The unspecified space's slots keep their zero-initialized values.
    assert_eq!(state[airflow.volume_index(0)], 0);
    assert_eq!(state[airflow.temperature_index(0)], 0);
    // The specified space's slots were written.
    assert!(state[airflow.volume_index(1)] != 0);
    assert_eq!(state[airflow.temperature_index(1)], 2_000_000);
}

#[test]
fn march_twice_gives_identical_state() {
    let mut model = SimpleModel {
        spaces: Vec::new(),
        buildings: Vec::new(),
    };
    model.buildings.push(Building {
        stack_coefficient: None,
        wind_coefficient: None,
        shelter_class: Some(ShelterClass::IsolatedRural),
        n_storeys: Some(2),
    });
    let mut header = SimulationStateHeader::new();
    let mut spaces: Vec<(Option<Infiltration>, Option<usize>)> = Vec::new();
    spaces.push((Some(Infiltration::Constant { flow: 100_000 }), None));
    spaces.push((Some(Infiltration::Blast { flow: 1_000_000 }), None));
    spaces.push((Some(Infiltration::Doe2 { flow: 1_000_000 }), None));
    spaces.push((
        Some(Infiltration::DesignFlowRate {
            a: 1_000_000,
            b: 10_000,
            c: 10_000,
            d: 1_000,
            phi: 2_000_000,
        }),
        None,
    ));
    spaces.push((
        Some(Infiltration::EffectiveAirLeakageArea { area: 500_000_000 }),
        Some(0),
    ));
    spaces.push((None, None));
    for (k, (infiltration, building)) in spaces.into_iter().enumerate() {
        let t = header.push(
            SimulationStateElement::SpaceDryBulbTemperature(k),
            22_000_000,
        );
        model.spaces.push(Space {
            infiltration,
            building,
            dry_bulb_temperature_index: Some(t),
        });
    }
    let airflow = AirFlowModel::new(&model, &mut header).unwrap();
    let mut state = header.take_values();

    let weather = CurrentWeather {
        dry_bulb_temperature: Some(-3_000_000),
        wind_speed: Some(5_000_000),
    };
    airflow.march(&weather, &mut state).unwrap();
    let first_run = state.clone();
    airflow.march(&weather, &mut state).unwrap();
    assert_eq!(state, first_run);
}

#[test]
fn effective_air_leakage_needs_a_building() {
    let mut model = SimpleModel {
        spaces: Vec::new(),
        buildings: Vec::new(),
    };
    let mut header = SimulationStateHeader::new();
    let t = header.push(SimulationStateElement::SpaceDryBulbTemperature(0), 22_000_000);
    model.spaces.push(Space {
        infiltration: Some(Infiltration::EffectiveAirLeakageArea { area: 500_000_000 }),
        building: None,
        dry_bulb_temperature_index: Some(t),
    });
    let r = AirFlowModel::new(&model, &mut header);
    assert_eq!(r.err(), Some(AirFlowError::NoBuilding { space: 0 }));
    // The registry was left untouched.
    assert_eq!(header.len(), 1);
}

#[test]
fn construction_propagates_coefficient_errors() {
    let mut model = SimpleModel {
        spaces: Vec::new(),
        buildings: Vec::new(),
    };
    model.buildings.push(Building {
        stack_coefficient: None,
        wind_coefficient: None,
        shelter_class: Some(ShelterClass::Urban),
        n_storeys: Some(0),
    });
    let mut header = SimulationStateHeader::new();
    let t = header.push(SimulationStateElement::SpaceDryBulbTemperature(0), 22_000_000);
    model.spaces.push(Space {
        infiltration: Some(Infiltration::EffectiveAirLeakageArea { area: 500_000_000 }),
        building: Some(0),
        dry_bulb_temperature_index: Some(t),
    });
    let r = AirFlowModel::new(&model, &mut header);
    assert_eq!(r.err(), Some(AirFlowError::ZeroStoreys { building: 0 }));
}

#[test]
fn construction_collects_storey_warnings() {
    let mut model = SimpleModel {
        spaces: Vec::new(),
        buildings: Vec::new(),
    };
    model.buildings.push(Building {
        stack_coefficient: None,
        wind_coefficient: None,
        shelter_class: Some(ShelterClass::NoObstructions),
        n_storeys: Some(5),
    });
    let mut header = SimulationStateHeader::new();
    let t0 = header.push(SimulationStateElement::SpaceDryBulbTemperature(0), 22_000_000);
    let t1 = header.push(SimulationStateElement::SpaceDryBulbTemperature(1), 22_000_000);
    model.spaces.push(Space {
        infiltration: Some(Infiltration::Doe2 { flow: 1_000_000 }),
        building: None,
        dry_bulb_temperature_index: Some(t0),
    });
    model.spaces.push(Space {
        infiltration: Some(Infiltration::EffectiveAirLeakageArea { area: 500_000_000 }),
        building: Some(0),
        dry_bulb_temperature_index: Some(t1),
    });
    let airflow = AirFlowModel::new(&model, &mut header).unwrap();
    assert_eq!(airflow.storey_warnings().as_slice(), &[1usize]);
}

#[test]
fn march_reports_missing_weather_fields() {
    let mut model = SimpleModel {
        spaces: Vec::new(),
        buildings: Vec::new(),
    };
    let mut header = SimulationStateHeader::new();
    let t = header.push(SimulationStateElement::SpaceDryBulbTemperature(0), 22_000_000);
    model.spaces.push(Space {
        infiltration: Some(Infiltration::Doe2 { flow: 1_000_000 }),
        building: None,
        dry_bulb_temperature_index: Some(t),
    });
    let airflow = AirFlowModel::new(&model, &mut header).unwrap();
    let mut state = header.take_values();

    let no_temperature = CurrentWeather {
        dry_bulb_temperature: None,
        wind_speed: Some(6_000_000),
    };
    let r = airflow.march(&no_temperature, &mut state);
    assert_eq!(r, Err(AirFlowError::MissingWeatherDryBulbTemperature));

    let no_wind = CurrentWeather {
        dry_bulb_temperature: Some(2_000_000),
        wind_speed: None,
    };
    let r = airflow.march(&no_wind, &mut state);
    assert_eq!(r, Err(AirFlowError::MissingWeatherWindSpeed));

    // A failed step leaves the whole state untouched.
    assert_eq!(state[airflow.volume_index(0)], 0);
    assert_eq!(state[airflow.temperature_index(0)], 0);
}

#[test]
fn march_reports_missing_space_temperature() {
    let mut model = SimpleModel {
        spaces: Vec::new(),
        buildings: Vec::new(),
    };
    let mut header = SimulationStateHeader::new();
    model.spaces.push(Space {
        infiltration: Some(Infiltration::Blast { flow: 1_000_000 }),
        building: None,
        dry_bulb_temperature_index: None,
    });
    let airflow = AirFlowModel::new(&model, &mut header).unwrap();
    let mut state = header.take_values();

    let weather = CurrentWeather {
        dry_bulb_temperature: Some(2_000_000),
        wind_speed: Some(6_000_000),
    };
    let r = airflow.march(&weather, &mut state);
    assert_eq!(r, Err(AirFlowError::MissingSpaceDryBulbTemperature));
}

#[test]
fn end_to_end_effective_leakage_area() {
    let mut model = SimpleModel {
        spaces: Vec::new(),
        buildings: Vec::new(),
    };
    model.buildings.push(Building {
        stack_coefficient: None,
        wind_coefficient: None,
        shelter_class: Some(ShelterClass::NoObstructions),
        n_storeys: Some(1),
    });
    let mut header = SimulationStateHeader::new();
    let t = header.push(SimulationStateElement::SpaceDryBulbTemperature(0), 22_000_000);
    model.spaces.push(Space {
        infiltration: Some(Infiltration::EffectiveAirLeakageArea { area: 500_000_000 }),
        building: Some(0),
        dry_bulb_temperature_index: Some(t),
    });
    let airflow = AirFlowModel::new(&model, &mut header).unwrap();
    let mut state = header.take_values();

    let weather = CurrentWeather {
        dry_bulb_temperature: Some(-18_000_000),
        wind_speed: Some(6_000_000),
    };
    airflow.march(&weather, &mut state).unwrap();
    // 0.5 * sqrt(0.000145 * 40 + 0.000319 * 36), with the resolved
    // one-storey no-obstructions coefficients.
    assert_eq!(state[airflow.volume_index(0)], 65_734);
    assert_eq!(state[airflow.temperature_index(0)], -18_000_000);
}
