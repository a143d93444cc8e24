//! The slice of the host's building model that infiltration reads, the
//! per-step weather sample, and the errors the crate can report.
//!
//! The host engine owns the full model; this crate holds plain values only:
//! each space carries its optional infiltration specification, the index of
//! its owning building, and the state index of its dry-bulb temperature.

use vstd::prelude::*;

use crate::fixed::{in_range, FIXED_ABS_MAX};

verus! {

/// Exposure category of a building, for wind-driven infiltration.
#[derive(Clone, Copy, Debug, PartialEq, Eq, Structural)]
pub enum ShelterClass {
    NoObstructions,
    IsolatedRural,
    Urban,
    LargeLotUrban,
    SmallLotUrban,
}

/// A space's infiltration specification: exactly one of five models.
///
/// Flows are in millionths of a cubic metre per second, coefficients in
/// millionths of their unit, and the leakage `area` in millionths of a
/// square centimetre.
#[derive(Clone, Copy, Debug, PartialEq, Eq, Structural)]
pub enum Infiltration {
    /// A fixed volumetric flow, independent of weather.
    Constant { flow: i64 },
    /// The design-flow-rate formula with the BLAST default coefficients.
    Blast { flow: i64 },
    /// The design-flow-rate formula with the DOE-2 default coefficients.
    Doe2 { flow: i64 },
    /// The general design-flow-rate formula with free coefficients.
    DesignFlowRate { a: i64, b: i64, c: i64, d: i64, phi: i64 },
    /// The leakage-area formula; stack and wind coefficients come from the
    /// owning building.
    EffectiveAirLeakageArea { area: i64 },
}

impl Infiltration {
    /// Every parameter lies in the representable physical range, and a
    /// leakage area is non-negative.
    pub open spec fn wf(self) -> bool {
        match self {
            Infiltration::Constant { flow } => in_range(flow as int),
            Infiltration::Blast { flow } => in_range(flow as int),
            Infiltration::Doe2 { flow } => in_range(flow as int),
            Infiltration::DesignFlowRate { a, b, c, d, phi } => in_range(a as int)
                && in_range(b as int) && in_range(c as int) && in_range(d as int)
                && in_range(phi as int),
            Infiltration::EffectiveAirLeakageArea { area } => 0 <= area <= FIXED_ABS_MAX,
        }
    }
}

/// What infiltration needs from a building: the optional empirical
/// coefficients, shelter class and storey count.
#[derive(Clone, Copy, Debug, PartialEq, Eq, Structural)]
pub struct Building {
    /// Stack coefficient, if configured directly (millionths).
    pub stack_coefficient: Option<i64>,
    /// Wind coefficient, if configured directly (millionths).
    pub wind_coefficient: Option<i64>,
    /// Exposure category, if configured.
    pub shelter_class: Option<ShelterClass>,
    /// Number of storeys, if configured.
    pub n_storeys: Option<usize>,
}

impl Building {
    /// The empirical coefficients are non-negative and in range.
    pub open spec fn wf(self) -> bool {
        (self.stack_coefficient is Some ==> 0 <= self.stack_coefficient->0 <= FIXED_ABS_MAX)
            && (self.wind_coefficient is Some ==> 0 <= self.wind_coefficient->0 <= FIXED_ABS_MAX)
    }
}

/// What infiltration needs from a space: its specification, its owning
/// building, and where its indoor temperature lives in the state buffer.
#[derive(Clone, Copy, Debug, PartialEq, Eq, Structural)]
pub struct Space {
    /// The configured infiltration model, if any.
    pub infiltration: Option<Infiltration>,
    /// Index of the owning building in the model's building sequence.
    pub building: Option<usize>,
    /// State index of the space's dry-bulb temperature, if registered.
    pub dry_bulb_temperature_index: Option<usize>,
}

impl Space {
    /// The specification is well formed and the building reference valid.
    pub open spec fn wf(self, n_buildings: int) -> bool {
        (self.infiltration is Some ==> self.infiltration->0.wf())
            && (self.building is Some ==> self.building->0 < n_buildings)
    }
}

/// The snapshot of the host model that infiltration reads: spaces in engine
/// order, and the buildings they refer to.
pub struct SimpleModel {
    /// The ordered space sequence.
    pub spaces: Vec<Space>,
    /// The buildings that spaces refer to by index.
    pub buildings: Vec<Building>,
}

impl SimpleModel {
    /// Every space and building is well formed.
    pub open spec fn wf(self) -> bool {
        (forall|i: int| 0 <= i < self.spaces@.len() ==> #[trigger] self.spaces@[i].wf(
            self.buildings@.len() as int,
        )) && (forall|i: int|
            0 <= i < self.buildings@.len() ==> #[trigger] self.buildings@[i].wf())
    }
}

/// One weather sample, as the weather source hands it out each step.
#[derive(Clone, Copy, Debug, PartialEq, Eq, Structural)]
pub struct CurrentWeather {
    /// Outdoor dry-bulb temperature, millionths of a degree Celsius.
    pub dry_bulb_temperature: Option<i64>,
    /// Wind speed, millionths of a metre per second.
    pub wind_speed: Option<i64>,
}

impl CurrentWeather {
    /// Present fields lie in the representable physical range.
    pub open spec fn wf(self) -> bool {
        (self.dry_bulb_temperature is Some ==> in_range(self.dry_bulb_temperature->0 as int))
            && (self.wind_speed is Some ==> in_range(self.wind_speed->0 as int))
    }
}

/// Everything that can go wrong, at construction or during a step.
///
/// Indices name the offending space or building in the model's sequences.
#[derive(Clone, Copy, Debug, PartialEq, Eq, Structural)]
pub enum AirFlowError {
    /// The weather sample lacks a dry-bulb temperature that a model needs.
    MissingWeatherDryBulbTemperature,
    /// The weather sample lacks a wind speed that a model needs.
    MissingWeatherWindSpeed,
    /// A space needs its indoor temperature but has no registered index.
    MissingSpaceDryBulbTemperature,
    /// A space uses the leakage-area model but has no owning building.
    NoBuilding { space: usize },
    /// A building reports zero storeys.
    ZeroStoreys { building: usize },
    /// A building has neither a stack coefficient nor a storey count.
    MissingStackCoefficientData { space: usize },
    /// A building lacks the storey count the wind-coefficient lookup needs.
    MissingStoreys { building: usize, space: usize },
    /// A building has neither a wind coefficient nor a shelter class.
    MissingWindCoefficientData { space: usize },
}

} // verus!
