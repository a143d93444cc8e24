//! The top-level airflow model: construction registers two state slots per
//! space and resolves each space's computation unit once; each step then
//! dispatches over the resolved units in space order.

use vstd::prelude::*;

use crate::data::{AirFlowError, CurrentWeather, Infiltration, SimpleModel};
use crate::eplus::{
    blast_design_flow_rate, design_flow_rate, doe2_design_flow_rate, effective_leakage_area,
    spec_blast_design_flow_rate, spec_design_flow_rate, spec_doe2_design_flow_rate,
    spec_effective_leakage_area, wind_or_zero,
};
use crate::fixed::in_range;
use crate::resolvers::{
    blast_resolver, constant_resolver, design_flow_rate_resolver, doe2_resolver,
    effective_air_leakage_resolver, spec_effective_air_leakage_resolver, Resolver,
};
use crate::state::{SimulationState, SimulationStateElement, SimulationStateHeader};

verus! {

/// How the space at `space_index` resolves: no specification binds the
/// do-nothing unit; each specified variant binds its unit, the leakage-area
/// variant after resolving its building coefficients.  The flag reports the
/// storey-count warning of the stack-coefficient lookup.
pub open spec fn spec_resolve_space(model: SimpleModel, space_index: usize) -> Result<
    (Resolver, bool),
    AirFlowError,
> {
    match model.spaces@[space_index as int].infiltration {
        Option::None => Ok((Resolver::NoOp, false)),
        Option::Some(inf) => match inf {
            Infiltration::Constant { flow } => Ok((Resolver::Constant { flow }, false)),
            Infiltration::Blast { flow } => Ok((Resolver::Blast { flow }, false)),
            Infiltration::Doe2 { flow } => Ok((Resolver::Doe2 { flow }, false)),
            Infiltration::DesignFlowRate { a, b, c, d, phi } => Ok(
                (Resolver::DesignFlowRate { a, b, c, d, phi }, false),
            ),
            Infiltration::EffectiveAirLeakageArea { area } => spec_effective_air_leakage_resolver(
                model,
                space_index,
                area,
            ),
        },
    }
}

/// The error of the first space among the first `n` whose resolution fails,
/// if any.
pub open spec fn first_resolve_error(model: SimpleModel, n: int) -> Option<AirFlowError>
    decreases n,
{
    if n <= 0 {
        None
    } else if first_resolve_error(model, n - 1) is Some {
        first_resolve_error(model, n - 1)
    } else {
        match spec_resolve_space(model, (n - 1) as usize) {
            Ok(_) => None,
            Err(e) => Some(e),
        }
    }
}

/// When the spaces before `i` resolve and space `i` fails, `i`'s error is
/// the first among any longer prefix.
pub proof fn lemma_first_resolve_error_at(model: SimpleModel, i: int, n: int)
    requires
        0 <= i < n,
        first_resolve_error(model, i) is None,
        spec_resolve_space(model, i as usize) is Err,
    ensures
        first_resolve_error(model, n) == Some(spec_resolve_space(model, i as usize)->Err_0),
    decreases n,
{
    if n == i + 1 {
    } else {
        lemma_first_resolve_error_at(model, i, n - 1);
    }
}

/// The airflow plugin: one resolved computation unit per space, the state
/// indices it registered, and the non-fatal warnings construction raised.
pub struct AirFlowModel {
    /// The computation units, one per space, in space order.
    pub units: Vec<Resolver>,
    /// Each space's dry-bulb-temperature state index, as the model gave it.
    pub dbt_indices: Vec<Option<usize>>,
    /// The state index of the first slot this model registered.
    pub first_index: usize,
    /// Spaces whose storey count lay above the documented range of the
    /// stack-coefficient lookup, which used the three-storey value instead.
    pub warnings: Vec<usize>,
}

impl AirFlowModel {
    /// How many spaces the model was built for.
    pub open spec fn n_spaces(self) -> int {
        self.units@.len() as int
    }

    /// The state index of space `i`'s infiltration-volume slot.
    pub open spec fn spec_volume_index(self, i: int) -> int {
        self.first_index + 2 * i
    }

    /// The state index of space `i`'s infiltration-temperature slot.
    pub open spec fn spec_temperature_index(self, i: int) -> int {
        self.first_index + 2 * i + 1
    }

    /// How long the state buffer must at least be: everything up to and
    /// including the slots this model registered.
    pub open spec fn spec_state_size(self) -> int {
        self.first_index + 2 * self.n_spaces()
    }

    /// Units and temperature indices are in step, registered slots fit the
    /// address space, every unit is well formed, and every space's
    /// dry-bulb-temperature slot was registered before this model's own
    /// slots.
    pub open spec fn wf(self) -> bool {
        &&& self.dbt_indices@.len() == self.units@.len()
        &&& self.spec_state_size() <= usize::MAX
        &&& forall|i: int| 0 <= i < self.n_spaces() ==> (#[trigger] self.units@[i]).wf()
        &&& forall|i: int|
            0 <= i < self.n_spaces() ==> ((#[trigger] self.dbt_indices@[i]) is Some
                ==> self.dbt_indices@[i]->0 < self.first_index)
    }

    /// Number of spaces the model was built for.
    pub fn n_units(&self) -> (r: usize)
        ensures
            r == self.n_spaces(),
    {
        self.units.len()
    }

    /// The state index of space `space_index`'s infiltration-volume slot.
    pub fn volume_index(&self, space_index: usize) -> (r: usize)
        requires
            self.wf(),
            space_index < self.n_spaces(),
        ensures
            r == self.spec_volume_index(space_index as int),
    {
        self.first_index + 2 * space_index
    }

    /// The state index of space `space_index`'s infiltration-temperature
    /// slot.
    pub fn temperature_index(&self, space_index: usize) -> (r: usize)
        requires
            self.wf(),
            space_index < self.n_spaces(),
        ensures
            r == self.spec_temperature_index(space_index as int),
    {
        self.first_index + 2 * space_index + 1
    }

    /// The spaces whose storey count exceeded the documented range of the
    /// stack-coefficient lookup.
    pub fn storey_warnings(&self) -> (r: &Vec<usize>)
        ensures
            r@ == self.warnings@,
    {
        &self.warnings
    }

    /// Builds the airflow model: for every space, in order, resolves its
    /// computation unit; then registers an infiltration-volume and an
    /// infiltration-temperature slot per space, both starting at zero.  A
    /// space that fails to resolve fails the whole construction with the
    /// first error, and leaves the registry untouched.
    pub fn new(model: &SimpleModel, header: &mut SimulationStateHeader) -> (r: Result<
        AirFlowModel,
        AirFlowError,
    >)
        requires
            model.wf(),
            old(header).wf(),
            forall|i: int|
                0 <= i < model.spaces@.len() ==> ((#[trigger] model.spaces@[i].dry_bulb_temperature_index)
                    is Some ==> model.spaces@[i].dry_bulb_temperature_index->0 < old(header).spec_len()),
            old(header).spec_len() + 2 * model.spaces@.len() <= usize::MAX,
        ensures
            final(header).wf(),
            r is Ok <==> first_resolve_error(*model, model.spaces@.len() as int) is None,
            r matches Err(e) ==> Some(e) == first_resolve_error(
                *model,
                model.spaces@.len() as int,
            ) && *final(header) == *old(header),
            r matches Ok(m) ==> ({
                &&& m.wf()
                &&& m.n_spaces() == model.spaces@.len()
                &&& m.first_index == old(header).spec_len()
                &&& forall|i: int|
                    0 <= i < m.n_spaces() ==> (#[trigger] spec_resolve_space(*model, i as usize))
                        is Ok && m.units@[i] == (spec_resolve_space(*model, i as usize)->Ok_0).0
                &&& forall|i: int|
                    0 <= i < m.n_spaces() ==> #[trigger] m.dbt_indices@[i]
                        == model.spaces@[i].dry_bulb_temperature_index
                &&& forall|w: usize|
                    #[trigger] m.warnings@.contains(w) <==> (w < m.n_spaces()
                        && spec_resolve_space(*model, w) is Ok && (spec_resolve_space(
                        *model,
                        w,
                    )->Ok_0).1)
                &&& final(header).spec_len() == old(header).spec_len() + 2 * m.n_spaces()
                &&& forall|j: int|
                    0 <= j < old(header).spec_len() ==> #[trigger] final(header).values@[j] == old(header).values@[j] && final(header).elements@[j] == old(header).elements@[j]
                &&& forall|i: int|
                    0 <= i < m.n_spaces() ==> #[trigger] final(header).values@[m.spec_volume_index(i)] == 0 && final(header).values@[m.spec_temperature_index(i)] == 0
                &&& forall|i: int|
                    0 <= i < m.n_spaces() ==> #[trigger] final(header).elements@[m.spec_volume_index(i)] == SimulationStateElement::SpaceInfiltrationVolume(i as usize) && final(header).elements@[m.spec_temperature_index(i)]
                        == SimulationStateElement::SpaceInfiltrationTemperature(i as usize)
            }),
    {
        let n = model.spaces.len();
        let mut units: Vec<Resolver> = Vec::new();
        let mut dbt_indices: Vec<Option<usize>> = Vec::new();
        let mut warnings: Vec<usize> = Vec::new();
        let mut i: usize = 0;
        while i < n
            invariant
                *header == *old(header),
                old(header).wf(),
                old(header).spec_len() + 2 * n <= usize::MAX,
                model.wf(),
                n == model.spaces@.len(),
                i <= n,
                units@.len() == i,
                dbt_indices@.len() == i,
                first_resolve_error(*model, i as int) is None,
                forall|k: int|
                    0 <= k < i ==> (#[trigger] spec_resolve_space(*model, k as usize)) is Ok
                        && units@[k] == (spec_resolve_space(*model, k as usize)->Ok_0).0,
                forall|k: int| 0 <= k < i ==> (#[trigger] units@[k]).wf(),
                forall|k: int|
                    0 <= k < i ==> #[trigger] dbt_indices@[k]
                        == model.spaces@[k].dry_bulb_temperature_index,
                forall|w: usize|
                    #[trigger] warnings@.contains(w) <==> (w < i && spec_resolve_space(*model, w)
                        is Ok && (spec_resolve_space(*model, w)->Ok_0).1),
            decreases n - i,
        {
            proof {
                assert(model.spaces@[i as int].wf(model.buildings@.len() as int));
            }
            let space = &model.spaces[i];
            let resolved: (Resolver, bool) = match &space.infiltration {
                Option::None => (Resolver::NoOp, false),
                Option::Some(inf) => match inf {
                    Infiltration::Constant { flow } => match constant_resolver(*flow) {
                        Ok(u) => (u, false),
                        Err(e) => {
                            proof {
                                assert(false);
                            }
                            return Err(e);
                        },
                    },
                    Infiltration::Blast { flow } => match blast_resolver(*flow) {
                        Ok(u) => (u, false),
                        Err(e) => {
                            proof {
                                assert(false);
                            }
                            return Err(e);
                        },
                    },
                    Infiltration::Doe2 { flow } => match doe2_resolver(*flow) {
                        Ok(u) => (u, false),
                        Err(e) => {
                            proof {
                                assert(false);
                            }
                            return Err(e);
                        },
                    },
                    Infiltration::DesignFlowRate { a, b, c, d, phi } => match design_flow_rate_resolver(
                        *a,
                        *b,
                        *c,
                        *d,
                        *phi,
                    ) {
                        Ok(u) => (u, false),
                        Err(e) => {
                            proof {
                                assert(false);
                            }
                            return Err(e);
                        },
                    },
                    Infiltration::EffectiveAirLeakageArea { area } => match effective_air_leakage_resolver(
                        model,
                        i,
                        *area,
                    ) {
                        Ok(v) => v,
                        Err(e) => {
                            proof {
                                lemma_first_resolve_error_at(*model, i as int, n as int);
                            }
                            return Err(e);
                        },
                    },
                },
            };
            proof {
                assert(spec_resolve_space(*model, i) matches Ok(v) && v == resolved);
            }
            let ghost prev_units = units@;
            let ghost prev_dbt = dbt_indices@;
            units.push(resolved.0);
            dbt_indices.push(space.dry_bulb_temperature_index);
            proof {
                assert forall|k: int| 0 <= k < units@.len() implies (#[trigger] spec_resolve_space(
                    *model,
                    k as usize,
                )) is Ok && units@[k] == (spec_resolve_space(*model, k as usize)->Ok_0).0
                    && units@[k].wf() by {
                    if k < prev_units.len() {
                        assert(prev_units.push(resolved.0)[k] == prev_units[k]);
                    } else {
                        assert(prev_units.push(resolved.0)[k] == resolved.0);
                    }
                }
                assert forall|k: int| 0 <= k < dbt_indices@.len() implies (#[trigger] dbt_indices@[k])
                    == model.spaces@[k].dry_bulb_temperature_index by {
                    if k < prev_dbt.len() {
                        assert(prev_dbt.push(space.dry_bulb_temperature_index)[k] == prev_dbt[k]);
                    } else {
                        assert(prev_dbt.push(space.dry_bulb_temperature_index)[k]
                            == space.dry_bulb_temperature_index);
                    }
                }
            }
            if resolved.1 {
                let ghost old_warnings = warnings@;
                warnings.push(i);
                proof {
                    assert forall|w: usize| #[trigger]
                        warnings@.contains(w) <==> (w < i + 1 && spec_resolve_space(*model, w)
                            is Ok && (spec_resolve_space(*model, w)->Ok_0).1) by {
                        lemma_push_contains(old_warnings, i, w);
                    }
                }
            }
            i += 1;
        }
        let first_index = header.len();
        let mut k: usize = 0;
        while k < n
            invariant
                header.wf(),
                n == model.spaces@.len(),
                k <= n,
                first_index == old(header).spec_len(),
                old(header).spec_len() + 2 * n <= usize::MAX,
                header.spec_len() == first_index + 2 * k,
                forall|j: int|
                    0 <= j < old(header).spec_len() ==> #[trigger] header.values@[j] == old(header).values@[j] && header.elements@[j] == old(header).elements@[j],
                forall|j: int|
                    0 <= j < k ==> #[trigger] header.values@[first_index + 2 * j] == 0
                        && header.values@[first_index + 2 * j + 1] == 0,
                forall|j: int|
                    0 <= j < k ==> #[trigger] header.elements@[first_index + 2 * j]
                        == SimulationStateElement::SpaceInfiltrationVolume(j as usize)
                        && header.elements@[first_index + 2 * j + 1]
                        == SimulationStateElement::SpaceInfiltrationTemperature(j as usize),
            decreases n - k,
        {
            let ghost prev_vals = header.values@;
            let ghost prev_elems = header.elements@;
            let _volume_index = header.push(
                SimulationStateElement::SpaceInfiltrationVolume(k),
                0,
            );
            let _temperature_index = header.push(
                SimulationStateElement::SpaceInfiltrationTemperature(k),
                0,
            );
            proof {
                let ve = SimulationStateElement::SpaceInfiltrationVolume(k);
                let te = SimulationStateElement::SpaceInfiltrationTemperature(k);
                let pl = prev_vals.len() as int;
                assert(header.values@ == prev_vals.push(0).push(0));
                assert(header.elements@ == prev_elems.push(ve).push(te));
                assert forall|j: int| 0 <= j < pl implies (#[trigger] header.values@[j])
                    == prev_vals[j] && header.elements@[j] == prev_elems[j] by {
                    assert(prev_vals.push(0)[j] == prev_vals[j]);
                    assert(prev_vals.push(0).push(0)[j] == prev_vals.push(0)[j]);
                    assert(prev_elems.push(ve)[j] == prev_elems[j]);
                    assert(prev_elems.push(ve).push(te)[j] == prev_elems.push(ve)[j]);
                }
                assert(prev_vals.push(0)[pl] == 0);
                assert(prev_vals.push(0).push(0)[pl] == prev_vals.push(0)[pl]);
                assert(prev_vals.push(0).push(0)[pl + 1] == 0);
                assert(prev_elems.push(ve)[pl] == ve);
                assert(prev_elems.push(ve).push(te)[pl] == prev_elems.push(ve)[pl]);
                assert(prev_elems.push(ve).push(te)[pl + 1] == te);
                assert(header.values@[pl] == 0 && header.values@[pl + 1] == 0);
                assert(header.elements@[pl] == ve && header.elements@[pl + 1] == te);
            }
            k += 1;
        }
        let result = AirFlowModel { units, dbt_indices, first_index, warnings };
        proof {
            assert forall|i: int|
                0 <= i < result.n_spaces() && (#[trigger] result.dbt_indices@[i]) is Some implies
                result.dbt_indices@[i]->0 < result.first_index by {
                assert(result.dbt_indices@[i] == model.spaces@[i].dry_bulb_temperature_index);
            }
            assert(result.wf());
            assert(result.n_spaces() == model.spaces@.len());
            assert(result.first_index == old(header).spec_len());
            assert(forall|i: int|
                0 <= i < result.n_spaces() ==> (#[trigger] spec_resolve_space(*model, i as usize))
                    is Ok && result.units@[i] == (spec_resolve_space(*model, i as usize)->Ok_0).0);
            assert(forall|i: int|
                0 <= i < result.n_spaces() ==> #[trigger] result.dbt_indices@[i]
                    == model.spaces@[i].dry_bulb_temperature_index);
            assert(forall|w: usize|
                #[trigger] result.warnings@.contains(w) <==> (w < result.n_spaces()
                    && spec_resolve_space(*model, w) is Ok && (spec_resolve_space(
                    *model,
                    w,
                )->Ok_0).1));
            assert(header.spec_len() == old(header).spec_len() + 2 * result.n_spaces());
            assert(forall|j: int|
                0 <= j < old(header).spec_len() ==> #[trigger] header.values@[j] == old(
                    header,
                ).values@[j] && header.elements@[j] == old(header).elements@[j]);
            assert forall|i: int|
                0 <= i < result.n_spaces() implies (#[trigger] header.values@[result.spec_volume_index(
                i,
            )]) == 0 && header.values@[result.spec_temperature_index(i)] == 0 by {
                assert(header.values@[first_index + 2 * i] == 0
                    && header.values@[first_index + 2 * i + 1] == 0);
            }
            assert forall|i: int|
                0 <= i < result.n_spaces() implies (#[trigger] header.elements@[result.spec_volume_index(
                i,
            )]) == SimulationStateElement::SpaceInfiltrationVolume(i as usize)
                && header.elements@[result.spec_temperature_index(i)]
                == SimulationStateElement::SpaceInfiltrationTemperature(i as usize) by {
                assert(header.elements@[first_index + 2 * i]
                    == SimulationStateElement::SpaceInfiltrationVolume(i as usize)
                    && header.elements@[first_index + 2 * i + 1]
                    == SimulationStateElement::SpaceInfiltrationTemperature(i as usize));
            }
        }
        Ok(result)
    }
}

/// The fault a design-flow-rate unit hits, in the order the evaluation
/// reads its inputs: outdoor temperature, indoor temperature, wind speed.
pub open spec fn design_family_fault(weather: CurrentWeather, dbt: Option<usize>) -> Option<
    AirFlowError,
> {
    if weather.dry_bulb_temperature is None {
        Some(AirFlowError::MissingWeatherDryBulbTemperature)
    } else if dbt is None {
        Some(AirFlowError::MissingSpaceDryBulbTemperature)
    } else if weather.wind_speed is None {
        Some(AirFlowError::MissingWeatherWindSpeed)
    } else {
        None
    }
}

/// The data fault, if any, that evaluating `unit` under `weather` hits,
/// where `dbt` is the unit's indoor-temperature state index.  Only the
/// leakage-area unit tolerates a missing wind speed; every unit with a
/// specification needs the outdoor temperature.
pub open spec fn unit_fault(unit: Resolver, weather: CurrentWeather, dbt: Option<usize>) -> Option<
    AirFlowError,
> {
    match unit {
        Resolver::NoOp => None,
        Resolver::Constant { .. } => if weather.dry_bulb_temperature is None {
            Some(AirFlowError::MissingWeatherDryBulbTemperature)
        } else {
            None
        },
        Resolver::Blast { .. } => design_family_fault(weather, dbt),
        Resolver::Doe2 { .. } => design_family_fault(weather, dbt),
        Resolver::DesignFlowRate { .. } => design_family_fault(weather, dbt),
        Resolver::EffectiveAirLeakageArea { .. } => if weather.dry_bulb_temperature is None {
            Some(AirFlowError::MissingWeatherDryBulbTemperature)
        } else if dbt is None {
            Some(AirFlowError::MissingSpaceDryBulbTemperature)
        } else {
            None
        },
    }
}

/// The flow a fault-free unit computes under `weather`, with `t_in` the
/// space's indoor temperature.
pub open spec fn unit_flow(unit: Resolver, weather: CurrentWeather, t_in: int) -> int {
    let t_out = weather.dry_bulb_temperature->0 as int;
    let w = weather.wind_speed->0 as int;
    match unit {
        Resolver::NoOp => 0,
        Resolver::Constant { flow } => flow as int,
        Resolver::Blast { flow } => spec_blast_design_flow_rate(t_out, t_in, w, flow as int),
        Resolver::Doe2 { flow } => spec_doe2_design_flow_rate(t_out, t_in, w, flow as int),
        Resolver::DesignFlowRate { a, b, c, d, phi } => spec_design_flow_rate(
            t_out,
            t_in,
            w,
            phi as int,
            a as int,
            b as int,
            c as int,
            d as int,
        ),
        Resolver::EffectiveAirLeakageArea { area, cw, cs } => spec_effective_leakage_area(
            t_out,
            t_in,
            wind_or_zero(weather),
            area as int,
            cw as int,
            cs as int,
        ),
    }
}

impl AirFlowModel {
    /// The indoor temperature unit `i` reads from `s`, or zero where the
    /// space has no registered index.
    pub open spec fn spec_indoor_temperature(self, s: Seq<i64>, i: int) -> int {
        if self.dbt_indices@[i] is Some {
            s[self.dbt_indices@[i]->0 as int] as int
        } else {
            0
        }
    }

    /// What unit `i` writes: a unit with a specification stores the ambient
    /// temperature and its computed flow in the space's two slots; the
    /// do-nothing unit leaves the state as it is.
    pub open spec fn apply_unit(self, weather: CurrentWeather, s: Seq<i64>, i: int) -> Seq<i64> {
        let unit = self.units@[i];
        if unit is NoOp {
            s
        } else {
            let flow = unit_flow(unit, weather, self.spec_indoor_temperature(s, i));
            s.update(self.spec_temperature_index(i), weather.dry_bulb_temperature->0).update(
                self.spec_volume_index(i),
                flow as i64,
            )
        }
    }

    /// The state after the first `n` units ran, in space order.
    pub open spec fn advance_prefix(self, weather: CurrentWeather, s0: Seq<i64>, n: int) -> Seq<
        i64,
    >
        decreases n,
    {
        if n <= 0 {
            s0
        } else {
            self.apply_unit(weather, self.advance_prefix(weather, s0, n - 1), n - 1)
        }
    }

    /// The fault of the first among the first `n` units that cannot
    /// evaluate, if any.
    pub open spec fn first_fault(self, weather: CurrentWeather, n: int) -> Option<AirFlowError>
        decreases n,
    {
        if n <= 0 {
            None
        } else if self.first_fault(weather, n - 1) is Some {
            self.first_fault(weather, n - 1)
        } else {
            unit_fault(self.units@[n - 1], weather, self.dbt_indices@[n - 1])
        }
    }

    /// When the units before `i` evaluate and unit `i` faults, `i`'s fault
    /// is the first among any longer prefix.
    pub proof fn lemma_first_fault_at(self, weather: CurrentWeather, i: int, n: int)
        requires
            0 <= i < n,
            self.first_fault(weather, i) is None,
            unit_fault(self.units@[i], weather, self.dbt_indices@[i]) is Some,
        ensures
            self.first_fault(weather, n) == unit_fault(
                self.units@[i],
                weather,
                self.dbt_indices@[i],
            ),
        decreases n,
    {
        if n == i + 1 {
        } else {
            self.lemma_first_fault_at(weather, i, n - 1);
        }
    }

    /// A fault-free prefix has no fault at any of its units.
    pub proof fn lemma_no_fault_at(self, weather: CurrentWeather, i: int, n: int)
        requires
            0 <= i < n,
            self.first_fault(weather, n) is None,
        ensures
            unit_fault(self.units@[i], weather, self.dbt_indices@[i]) is None,
        decreases n,
    {
        if i < n - 1 {
            self.lemma_no_fault_at(weather, i, n - 1);
        }
    }

    /// Running units never changes the state's length.
    pub proof fn lemma_advance_prefix_len(self, weather: CurrentWeather, s0: Seq<i64>, n: int)
        requires
            self.wf(),
            0 <= n <= self.n_spaces(),
            s0.len() >= self.spec_state_size(),
        ensures
            self.advance_prefix(weather, s0, n).len() == s0.len(),
        decreases n,
    {
        if n > 0 {
            self.lemma_advance_prefix_len(weather, s0, n - 1);
        }
    }

    /// Running units never touches a state slot registered before this
    /// model's own slots.
    pub proof fn lemma_advance_prefix_low(self, weather: CurrentWeather, s0: Seq<i64>, n: int, j: int)
        requires
            self.wf(),
            0 <= n <= self.n_spaces(),
            s0.len() >= self.spec_state_size(),
            0 <= j < self.first_index,
        ensures
            self.advance_prefix(weather, s0, n)[j] == s0[j],
        decreases n,
    {
        if n > 0 {
            self.lemma_advance_prefix_low(weather, s0, n - 1, j);
            self.lemma_advance_prefix_len(weather, s0, n - 1);
        }
    }

    /// Runs every unit, in space order, against one weather sample: each
    /// space with a specification gets the ambient temperature and its
    /// computed flow written to its two slots.  A unit that cannot evaluate
    /// fails the whole step with the first fault, and leaves the state
    /// untouched.
    pub fn march(&self, weather: &CurrentWeather, state: &mut SimulationState) -> (r: Result<
        (),
        AirFlowError,
    >)
        requires
            self.wf(),
            weather.wf(),
            old(state)@.len() >= self.spec_state_size(),
            forall|j: int| 0 <= j < self.first_index ==> in_range(#[trigger] old(state)@[j] as int),
        ensures
            final(state)@.len() == old(state)@.len(),
            r is Ok <==> self.first_fault(*weather, self.n_spaces()) is None,
            r matches Err(e) ==> Some(e) == self.first_fault(*weather, self.n_spaces())
                && final(state)@ == old(state)@,
            r is Ok ==> final(state)@ == self.advance_prefix(*weather, old(state)@, self.n_spaces()),
    {
        let n = self.units.len();
        let mut i: usize = 0;
        while i < n
            invariant
                self.wf(),
                n == self.units@.len(),
                i <= n,
                self.first_fault(*weather, i as int) is None,
                state@ == old(state)@,
            decreases n - i,
        {
            let fault = unit_fault_of(&self.units[i], weather, self.dbt_indices[i]);
            match fault {
                Some(e) => {
                    proof {
                        self.lemma_first_fault_at(*weather, i as int, n as int);
                    }
                    return Err(e);
                },
                None => {},
            }
            i += 1;
        }
        let mut i: usize = 0;
        while i < n
            invariant
                self.wf(),
                weather.wf(),
                n == self.units@.len(),
                i <= n,
                self.first_fault(*weather, n as int) is None,
                old(state)@.len() >= self.spec_state_size(),
                forall|j: int|
                    0 <= j < self.first_index ==> in_range(#[trigger] old(state)@[j] as int),
                state@.len() == old(state)@.len(),
                state@ == self.advance_prefix(*weather, old(state)@, i as int),
            decreases n - i,
        {
            proof {
                self.lemma_no_fault_at(*weather, i as int, n as int);
            }
            let ghost prev = state@;
            let unit = self.units[i];
            match unit {
                Resolver::NoOp => {},
                Resolver::Constant { flow } => {
                    let t_out = match weather.dry_bulb_temperature {
                        Some(v) => v,
                        None => {
                            proof {
                                assert(false);
                            }
                            return Err(AirFlowError::MissingWeatherDryBulbTemperature);
                        },
                    };
                    let ti = self.temperature_index(i);
                    let vi = self.volume_index(i);
                    state[ti] = t_out;
                    state[vi] = flow;
                },
                Resolver::Blast { flow } => {
                    let t_out = match weather.dry_bulb_temperature {
                        Some(v) => v,
                        None => {
                            proof {
                                assert(false);
                            }
                            return Err(AirFlowError::MissingWeatherDryBulbTemperature);
                        },
                    };
                    let dbt = match self.dbt_indices[i] {
                        Some(v) => v,
                        None => {
                            proof {
                                assert(false);
                            }
                            return Err(AirFlowError::MissingSpaceDryBulbTemperature);
                        },
                    };
                    proof {
                        self.lemma_advance_prefix_low(*weather, old(state)@, i as int, dbt as int);
                    }
                    let t_in = state[dbt];
                    let f = match blast_design_flow_rate(weather, Some(t_in), flow) {
                        Ok(f) => f,
                        Err(e) => {
                            proof {
                                assert(false);
                            }
                            return Err(e);
                        },
                    };
                    let ti = self.temperature_index(i);
                    let vi = self.volume_index(i);
                    state[ti] = t_out;
                    state[vi] = f;
                },
                Resolver::Doe2 { flow } => {
                    let t_out = match weather.dry_bulb_temperature {
                        Some(v) => v,
                        None => {
                            proof {
                                assert(false);
                            }
                            return Err(AirFlowError::MissingWeatherDryBulbTemperature);
                        },
                    };
                    let dbt = match self.dbt_indices[i] {
                        Some(v) => v,
                        None => {
                            proof {
                                assert(false);
                            }
                            return Err(AirFlowError::MissingSpaceDryBulbTemperature);
                        },
                    };
                    proof {
                        self.lemma_advance_prefix_low(*weather, old(state)@, i as int, dbt as int);
                    }
                    let t_in = state[dbt];
                    let f = match doe2_design_flow_rate(weather, Some(t_in), flow) {
                        Ok(f) => f,
                        Err(e) => {
                            proof {
                                assert(false);
                            }
                            return Err(e);
                        },
                    };
                    let ti = self.temperature_index(i);
                    let vi = self.volume_index(i);
                    state[ti] = t_out;
                    state[vi] = f;
                },
                Resolver::DesignFlowRate { a, b, c, d, phi } => {
                    let t_out = match weather.dry_bulb_temperature {
                        Some(v) => v,
                        None => {
                            proof {
                                assert(false);
                            }
                            return Err(AirFlowError::MissingWeatherDryBulbTemperature);
                        },
                    };
                    let dbt = match self.dbt_indices[i] {
                        Some(v) => v,
                        None => {
                            proof {
                                assert(false);
                            }
                            return Err(AirFlowError::MissingSpaceDryBulbTemperature);
                        },
                    };
                    proof {
                        self.lemma_advance_prefix_low(*weather, old(state)@, i as int, dbt as int);
                    }
                    let t_in = state[dbt];
                    let f = match design_flow_rate(weather, Some(t_in), phi, a, b, c, d) {
                        Ok(f) => f,
                        Err(e) => {
                            proof {
                                assert(false);
                            }
                            return Err(e);
                        },
                    };
                    let ti = self.temperature_index(i);
                    let vi = self.volume_index(i);
                    state[ti] = t_out;
                    state[vi] = f;
                },
                Resolver::EffectiveAirLeakageArea { area, cw, cs } => {
                    let t_out = match weather.dry_bulb_temperature {
                        Some(v) => v,
                        None => {
                            proof {
                                assert(false);
                            }
                            return Err(AirFlowError::MissingWeatherDryBulbTemperature);
                        },
                    };
                    let dbt = match self.dbt_indices[i] {
                        Some(v) => v,
                        None => {
                            proof {
                                assert(false);
                            }
                            return Err(AirFlowError::MissingSpaceDryBulbTemperature);
                        },
                    };
                    proof {
                        self.lemma_advance_prefix_low(*weather, old(state)@, i as int, dbt as int);
                    }
                    let t_in = state[dbt];
                    let f = match effective_leakage_area(weather, Some(t_in), area, cw, cs) {
                        Ok(f) => f,
                        Err(e) => {
                            proof {
                                assert(false);
                            }
                            return Err(e);
                        },
                    };
                    let ti = self.temperature_index(i);
                    let vi = self.volume_index(i);
                    state[ti] = t_out;
                    state[vi] = f;
                },
            }
            proof {
                assert(state@ == self.apply_unit(*weather, prev, i as int));
                assert(state@ == self.advance_prefix(*weather, old(state)@, i + 1));
            }
            i += 1;
        }
        Ok(())
    }
}

/// Updating a slot with the value it already holds changes nothing.
proof fn lemma_seq_update_identity(s: Seq<i64>, j: int)
    requires
        0 <= j < s.len(),
    ensures
        s.update(j, s[j]) == s,
{
    assert(s.update(j, s[j]) =~= s);
}

impl AirFlowModel {
    /// A state slot that no unit with a specification owns keeps its value
    /// across a step.
    pub proof fn lemma_advance_prefix_untouched(
        self,
        weather: CurrentWeather,
        s0: Seq<i64>,
        n: int,
        j: int,
    )
        requires
            self.wf(),
            0 <= n <= self.n_spaces(),
            s0.len() >= self.spec_state_size(),
            0 <= j < s0.len(),
            forall|i: int|
                0 <= i < n && !((#[trigger] self.units@[i]) is NoOp) ==> j
                    != self.spec_volume_index(i) && j != self.spec_temperature_index(i),
        ensures
            self.advance_prefix(weather, s0, n)[j] == s0[j],
        decreases n,
    {
        if n > 0 {
            self.lemma_advance_prefix_untouched(weather, s0, n - 1, j);
            self.lemma_advance_prefix_len(weather, s0, n - 1);
        }
    }

    /// A space with no configured infiltration specification never has its
    /// two slots written: after any step they hold what they held before.
    pub proof fn lemma_no_specification_slots_unchanged(
        self,
        weather: CurrentWeather,
        s0: Seq<i64>,
        i: int,
    )
        requires
            self.wf(),
            0 <= i < self.n_spaces(),
            self.units@[i] is NoOp,
            s0.len() >= self.spec_state_size(),
        ensures
            self.advance_prefix(weather, s0, self.n_spaces())[self.spec_volume_index(i)] == s0[self.spec_volume_index(i)],
            self.advance_prefix(weather, s0, self.n_spaces())[self.spec_temperature_index(i)] == s0[self.spec_temperature_index(i)],
    {
        self.lemma_advance_prefix_untouched(weather, s0, self.n_spaces(), self.spec_volume_index(i));
        self.lemma_advance_prefix_untouched(
            weather,
            s0,
            self.n_spaces(),
            self.spec_temperature_index(i),
        );
    }

    /// What a step writes for a space with a specification: the ambient
    /// temperature, and the flow its unit computes from the indoor
    /// temperature the state held before the step.
    pub proof fn lemma_advance_prefix_written(
        self,
        weather: CurrentWeather,
        s0: Seq<i64>,
        n: int,
        i: int,
    )
        requires
            self.wf(),
            0 <= i < n <= self.n_spaces(),
            s0.len() >= self.spec_state_size(),
            !(self.units@[i] is NoOp),
        ensures
            self.advance_prefix(weather, s0, n)[self.spec_temperature_index(i)]
                == weather.dry_bulb_temperature->0,
            self.advance_prefix(weather, s0, n)[self.spec_volume_index(i)] == unit_flow(
                self.units@[i],
                weather,
                self.spec_indoor_temperature(s0, i),
            ) as i64,
        decreases n,
    {
        self.lemma_advance_prefix_len(weather, s0, n - 1);
        if n == i + 1 {
            let s = self.advance_prefix(weather, s0, n - 1);
            if self.dbt_indices@[i] is Some {
                self.lemma_advance_prefix_low(
                    weather,
                    s0,
                    n - 1,
                    self.dbt_indices@[i]->0 as int,
                );
            }
            assert(self.spec_indoor_temperature(s, i) == self.spec_indoor_temperature(s0, i));
        } else {
            self.lemma_advance_prefix_written(weather, s0, n - 1, i);
        }
    }

    /// Invoking a step twice with the same weather sample gives the same
    /// state both times: each step's result depends only on that step's
    /// inputs and the spaces' fixed coefficients.
    pub proof fn lemma_advance_idempotent(self, weather: CurrentWeather, s0: Seq<i64>)
        requires
            self.wf(),
            s0.len() >= self.spec_state_size(),
        ensures
            self.advance_prefix(weather, self.advance_prefix(weather, s0, self.n_spaces()), self.n_spaces())
                == self.advance_prefix(weather, s0, self.n_spaces()),
    {
        let n = self.n_spaces();
        let s1 = self.advance_prefix(weather, s0, n);
        self.lemma_advance_prefix_len(weather, s0, n);
        assert forall|k: int| 0 <= k <= n implies self.advance_prefix(weather, s1, k) == s1 by {
            self.lemma_advance_rewrite_fixpoint(weather, s0, s1, k);
        }
    }

    /// Each unit of a re-run writes the values the first run already
    /// wrote, so the first `k` units of the re-run change nothing.
    proof fn lemma_advance_rewrite_fixpoint(
        self,
        weather: CurrentWeather,
        s0: Seq<i64>,
        s1: Seq<i64>,
        k: int,
    )
        requires
            self.wf(),
            s0.len() >= self.spec_state_size(),
            s1 == self.advance_prefix(weather, s0, self.n_spaces()),
            0 <= k <= self.n_spaces(),
        ensures
            self.advance_prefix(weather, s1, k) == s1,
        decreases k,
    {
        let n = self.n_spaces();
        self.lemma_advance_prefix_len(weather, s0, n);
        if k > 0 {
            self.lemma_advance_rewrite_fixpoint(weather, s0, s1, k - 1);
            let i = k - 1;
            let unit = self.units@[i];
            if !(unit is NoOp) {
                self.lemma_advance_prefix_written(weather, s0, n, i);
                if self.dbt_indices@[i] is Some {
                    self.lemma_advance_prefix_low(
                        weather,
                        s0,
                        n,
                        self.dbt_indices@[i]->0 as int,
                    );
                }
                assert(self.spec_indoor_temperature(s1, i) == self.spec_indoor_temperature(s0, i));
                let ti = self.spec_temperature_index(i);
                let vi = self.spec_volume_index(i);
                assert(s1[ti] == weather.dry_bulb_temperature->0);
                assert(s1[vi] == unit_flow(unit, weather, self.spec_indoor_temperature(s1, i)) as i64);
                lemma_seq_update_identity(s1, ti);
                lemma_seq_update_identity(s1.update(ti, s1[ti]), vi);
                assert(self.apply_unit(weather, s1, i) == s1);
            }
        }
    }
}

/// Construction fails for a model in which some space specifies
/// leakage-area infiltration but has no owning building: some space's
/// resolution errs, so the whole construction errs.
pub proof fn lemma_construction_fails_without_building(model: SimpleModel, i: usize)
    requires
        i < model.spaces@.len(),
        model.spaces@[i as int].infiltration is Some,
        model.spaces@[i as int].infiltration->0 is EffectiveAirLeakageArea,
        model.spaces@[i as int].building is None,
    ensures
        first_resolve_error(model, model.spaces@.len() as int) is Some,
{
    assert(spec_resolve_space(model, i) == Err::<(Resolver, bool), AirFlowError>(
        AirFlowError::NoBuilding { space: i },
    ));
    lemma_some_resolve_error(model, i as int, model.spaces@.len() as int);
}

/// One failing space makes the first `n` spaces' resolution fail.
pub proof fn lemma_some_resolve_error(model: SimpleModel, i: int, n: int)
    requires
        0 <= i < n,
        spec_resolve_space(model, i as usize) is Err,
    ensures
        first_resolve_error(model, n) is Some,
    decreases n,
{
    if i < n - 1 {
        lemma_some_resolve_error(model, i, n - 1);
    }
}

/// Evaluates [`unit_fault`]: the data fault `unit` would hit under
/// `weather`.
fn unit_fault_of(unit: &Resolver, weather: &CurrentWeather, dbt: Option<usize>) -> (r: Option<
    AirFlowError,
>)
    ensures
        r == unit_fault(*unit, *weather, dbt),
{
    match unit {
        Resolver::NoOp => None,
        Resolver::Constant { .. } => {
            if weather.dry_bulb_temperature.is_none() {
                Some(AirFlowError::MissingWeatherDryBulbTemperature)
            } else {
                None
            }
        },
        Resolver::Blast { .. } => design_family_fault_of(weather, dbt),
        Resolver::Doe2 { .. } => design_family_fault_of(weather, dbt),
        Resolver::DesignFlowRate { .. } => design_family_fault_of(weather, dbt),
        Resolver::EffectiveAirLeakageArea { .. } => {
            if weather.dry_bulb_temperature.is_none() {
                Some(AirFlowError::MissingWeatherDryBulbTemperature)
            } else if dbt.is_none() {
                Some(AirFlowError::MissingSpaceDryBulbTemperature)
            } else {
                None
            }
        },
    }
}

/// Evaluates [`design_family_fault`].
fn design_family_fault_of(weather: &CurrentWeather, dbt: Option<usize>) -> (r: Option<
    AirFlowError,
>)
    ensures
        r == design_family_fault(*weather, dbt),
{
    if weather.dry_bulb_temperature.is_none() {
        Some(AirFlowError::MissingWeatherDryBulbTemperature)
    } else if dbt.is_none() {
        Some(AirFlowError::MissingSpaceDryBulbTemperature)
    } else if weather.wind_speed.is_none() {
        Some(AirFlowError::MissingWeatherWindSpeed)
    } else {
        None
    }
}

/// Membership in a pushed sequence: the pushed element, or an element the
/// sequence already had.
proof fn lemma_push_contains(s: Seq<usize>, x: usize, y: usize)
    ensures
        s.push(x).contains(y) <==> (s.contains(y) || x == y),
{
    if s.contains(y) {
        let idx = choose|idx: int| 0 <= idx < s.len() && s[idx] == y;
        assert(s.push(x)[idx] == y);
    }
    if x == y {
        assert(s.push(x)[s.len() as int] == y);
    }
    if s.push(x).contains(y) {
        let idx = choose|idx: int| 0 <= idx < s.push(x).len() && s.push(x)[idx] == y;
        if idx < s.len() {
            assert(s[idx] == y);
        }
    }
}

} // verus!
