//! Per-space resolution: from a space's infiltration specification to one
//! bound computation unit, resolving stack and wind coefficients from the
//! owning building where the leakage-area model needs them.
//!
//! Resolution happens once, at model-construction time; the per-step path
//! only dispatches on the resolved unit.

use vstd::prelude::*;

use crate::data::{AirFlowError, Building, Infiltration, ShelterClass, SimpleModel};
use crate::fixed::{in_range, FIXED_ABS_MAX};

verus! {

/// One space's computation unit, bound at construction time to the space's
/// pre-resolved numeric parameters.  Invoking it with a weather sample
/// yields the space's infiltration flow.
#[derive(Clone, Copy, Debug, PartialEq, Eq, Structural)]
pub enum Resolver {
    /// The space has no infiltration specification: nothing is written.
    NoOp,
    /// A fixed flow; the ambient temperature is still recorded.
    Constant { flow: i64 },
    /// Design-flow-rate formula, BLAST default coefficients.
    Blast { flow: i64 },
    /// Design-flow-rate formula, DOE-2 default coefficients.
    Doe2 { flow: i64 },
    /// Design-flow-rate formula, free coefficients.
    DesignFlowRate { a: i64, b: i64, c: i64, d: i64, phi: i64 },
    /// Leakage-area formula with the resolved wind and stack coefficients.
    EffectiveAirLeakageArea { area: i64, cw: i64, cs: i64 },
}

impl Resolver {
    /// Every captured parameter lies in the representable physical range,
    /// and the leakage-area parameters are non-negative.
    pub open spec fn wf(self) -> bool {
        match self {
            Resolver::NoOp => true,
            Resolver::Constant { flow } => in_range(flow as int),
            Resolver::Blast { flow } => in_range(flow as int),
            Resolver::Doe2 { flow } => in_range(flow as int),
            Resolver::DesignFlowRate { a, b, c, d, phi } => in_range(a as int) && in_range(
                b as int,
            ) && in_range(c as int) && in_range(d as int) && in_range(phi as int),
            Resolver::EffectiveAirLeakageArea { area, cw, cs } => 0 <= area <= FIXED_ABS_MAX && 0
                <= cw <= FIXED_ABS_MAX && 0 <= cs <= FIXED_ABS_MAX,
        }
    }
}

/// The stack coefficient the lookup table gives a building of `n` storeys
/// (millionths): documented for one, two and three storeys; above three the
/// three-storey value stands in.
pub open spec fn spec_stack_coefficient_for_storeys(n: int) -> int {
    if n == 1 {
        145
    } else if n == 2 {
        290
    } else {
        435
    }
}

/// The wind coefficient the lookup table gives per shelter class and storey
/// bucket (one, two, three-or-more), in millionths.
pub open spec fn spec_wind_coefficient_for(shelter: ShelterClass, n: int) -> int {
    match shelter {
        ShelterClass::NoObstructions => if n == 1 {
            319
        } else if n == 2 {
            420
        } else {
            494
        },
        ShelterClass::IsolatedRural => if n == 1 {
            246
        } else if n == 2 {
            325
        } else {
            382
        },
        ShelterClass::Urban => if n == 1 {
            172
        } else if n == 2 {
            231
        } else {
            271
        },
        ShelterClass::LargeLotUrban => if n == 1 {
            104
        } else if n == 2 {
            137
        } else {
            161
        },
        ShelterClass::SmallLotUrban => if n == 1 {
            32
        } else if n == 2 {
            42
        } else {
            49
        },
    }
}

/// How the stack coefficient of a building resolves: a directly configured
/// value wins; otherwise the storey-count lookup applies, zero storeys being
/// a configuration error.  The flag reports a storey count above the
/// documented three-storey range, where the three-storey value stands in.
pub open spec fn spec_resolve_stack_coefficient(
    space_index: usize,
    building_index: usize,
    building: Building,
) -> Result<(i64, bool), AirFlowError> {
    if building.stack_coefficient is Some {
        Ok((building.stack_coefficient->0, false))
    } else if building.n_storeys is Some {
        if building.n_storeys->0 == 0 {
            Err(AirFlowError::ZeroStoreys { building: building_index })
        } else {
            Ok(
                (
                    spec_stack_coefficient_for_storeys(building.n_storeys->0 as int) as i64,
                    building.n_storeys->0 > 3,
                ),
            )
        }
    } else {
        Err(AirFlowError::MissingStackCoefficientData { space: space_index })
    }
}

/// How the wind coefficient of a building resolves: a directly configured
/// value wins; otherwise both a storey count and a shelter class are needed
/// for the lookup.
pub open spec fn spec_resolve_wind_coefficient(
    space_index: usize,
    building_index: usize,
    building: Building,
) -> Result<i64, AirFlowError> {
    if building.wind_coefficient is Some {
        Ok(building.wind_coefficient->0)
    } else if building.n_storeys is None {
        Err(AirFlowError::MissingStoreys { building: building_index, space: space_index })
    } else if building.shelter_class is Some {
        Ok(spec_wind_coefficient_for(building.shelter_class->0, building.n_storeys->0 as int) as i64)
    } else {
        Err(AirFlowError::MissingWindCoefficientData { space: space_index })
    }
}

/// Resolves the stack coefficient of `building` for a space using the
/// leakage-area model, per [`spec_resolve_stack_coefficient`].
pub fn resolve_stack_coefficient(
    space_index: usize,
    building_index: usize,
    building: &Building,
) -> (r: Result<(i64, bool), AirFlowError>)
    requires
        building.wf(),
    ensures
        r == spec_resolve_stack_coefficient(space_index, building_index, *building),
        r matches Ok(v) ==> 0 <= v.0 <= FIXED_ABS_MAX,
{
    match building.stack_coefficient {
        Some(cs) => Ok((cs, false)),
        None => match building.n_storeys {
            Some(n) => {
                if n == 0 {
                    Err(AirFlowError::ZeroStoreys { building: building_index })
                } else if n == 1 {
                    Ok((145, false))
                } else if n == 2 {
                    Ok((290, false))
                } else {
                    Ok((435, n > 3))
                }
            },
            None => Err(AirFlowError::MissingStackCoefficientData { space: space_index }),
        },
    }
}

/// Resolves the wind coefficient of `building` for a space using the
/// leakage-area model, per [`spec_resolve_wind_coefficient`].
pub fn resolve_wind_coefficient(
    space_index: usize,
    building_index: usize,
    building: &Building,
) -> (r: Result<i64, AirFlowError>)
    requires
        building.wf(),
    ensures
        r == spec_resolve_wind_coefficient(space_index, building_index, *building),
        r matches Ok(v) ==> 0 <= v <= FIXED_ABS_MAX,
{
    match building.wind_coefficient {
        Some(cw) => Ok(cw),
        None => {
            let n: usize = match building.n_storeys {
                Some(n) => n,
                None => {
                    return Err(
                        AirFlowError::MissingStoreys {
                            building: building_index,
                            space: space_index,
                        },
                    );
                },
            };
            match building.shelter_class {
                Some(shelter) => {
                    let cw: i64 = match shelter {
                        ShelterClass::NoObstructions => {
                            if n == 1 {
                                319
                            } else if n == 2 {
                                420
                            } else {
                                494
                            }
                        },
                        ShelterClass::IsolatedRural => {
                            if n == 1 {
                                246
                            } else if n == 2 {
                                325
                            } else {
                                382
                            }
                        },
                        ShelterClass::Urban => {
                            if n == 1 {
                                172
                            } else if n == 2 {
                                231
                            } else {
                                271
                            }
                        },
                        ShelterClass::LargeLotUrban => {
                            if n == 1 {
                                104
                            } else if n == 2 {
                                137
                            } else {
                                161
                            }
                        },
                        ShelterClass::SmallLotUrban => {
                            if n == 1 {
                                32
                            } else if n == 2 {
                                42
                            } else {
                                49
                            }
                        },
                    };
                    Ok(cw)
                },
                None => Err(AirFlowError::MissingWindCoefficientData { space: space_index }),
            }
        },
    }
}

/// A constant-flow unit: weather-independent, but still recording the
/// ambient temperature each step.
pub fn constant_resolver(flow: i64) -> (r: Result<Resolver, AirFlowError>)
    ensures
        r == Ok::<Resolver, AirFlowError>(Resolver::Constant { flow }),
{
    Ok(Resolver::Constant { flow })
}

/// A BLAST design-flow-rate unit bound to its design flow.
pub fn blast_resolver(flow: i64) -> (r: Result<Resolver, AirFlowError>)
    ensures
        r == Ok::<Resolver, AirFlowError>(Resolver::Blast { flow }),
{
    Ok(Resolver::Blast { flow })
}

/// A DOE-2 design-flow-rate unit bound to its design flow.
pub fn doe2_resolver(flow: i64) -> (r: Result<Resolver, AirFlowError>)
    ensures
        r == Ok::<Resolver, AirFlowError>(Resolver::Doe2 { flow }),
{
    Ok(Resolver::Doe2 { flow })
}

/// A general design-flow-rate unit bound to its free coefficients and
/// design flow.
pub fn design_flow_rate_resolver(a: i64, b: i64, c: i64, d: i64, phi: i64) -> (r: Result<
    Resolver,
    AirFlowError,
>)
    ensures
        r == Ok::<Resolver, AirFlowError>(Resolver::DesignFlowRate { a, b, c, d, phi }),
{
    Ok(Resolver::DesignFlowRate { a, b, c, d, phi })
}

/// How a leakage-area unit resolves for the space at `space_index`: the
/// space must have an owning building, whose stack and wind coefficients
/// resolve in that order.  The flag reports the storey-count warning of
/// [`spec_resolve_stack_coefficient`].
pub open spec fn spec_effective_air_leakage_resolver(
    model: SimpleModel,
    space_index: usize,
    area: i64,
) -> Result<(Resolver, bool), AirFlowError> {
    let space = model.spaces@[space_index as int];
    if space.building is None {
        Err(AirFlowError::NoBuilding { space: space_index })
    } else {
        let building_index = space.building->0;
        let building = model.buildings@[building_index as int];
        match spec_resolve_stack_coefficient(space_index, building_index, building) {
            Err(e) => Err(e),
            Ok((cs, warn)) => match spec_resolve_wind_coefficient(
                space_index,
                building_index,
                building,
            ) {
                Err(e) => Err(e),
                Ok(cw) => Ok((Resolver::EffectiveAirLeakageArea { area, cw, cs }, warn)),
            },
        }
    }
}

/// A leakage-area unit for the space at `space_index`, with the stack and
/// wind coefficients resolved once from the owning building, per
/// [`spec_effective_air_leakage_resolver`].
pub fn effective_air_leakage_resolver(model: &SimpleModel, space_index: usize, area: i64) -> (r:
    Result<(Resolver, bool), AirFlowError>)
    requires
        model.wf(),
        space_index < model.spaces@.len(),
    ensures
        r == spec_effective_air_leakage_resolver(*model, space_index, area),
        r matches Ok(v) ==> v.0 matches Resolver::EffectiveAirLeakageArea { area: a2, cw, cs }
            && a2 == area && 0 <= cw <= FIXED_ABS_MAX && 0 <= cs <= FIXED_ABS_MAX,
{
    proof {
        assert(model.spaces@[space_index as int].wf(model.buildings@.len() as int));
    }
    let space = &model.spaces[space_index];
    let building_index: usize = match space.building {
        Some(b) => b,
        None => {
            return Err(AirFlowError::NoBuilding { space: space_index });
        },
    };
    proof {
        assert(model.buildings@[building_index as int].wf());
    }
    let building = &model.buildings[building_index];
    let (cs, warn) = match resolve_stack_coefficient(space_index, building_index, building) {
        Ok(v) => v,
        Err(e) => {
            return Err(e);
        },
    };
    let cw: i64 = match resolve_wind_coefficient(space_index, building_index, building) {
        Ok(v) => v,
        Err(e) => {
            return Err(e);
        },
    };
    Ok((Resolver::EffectiveAirLeakageArea { area, cw, cs }, warn))
}

} // verus!
