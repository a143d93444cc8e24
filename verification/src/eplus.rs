//! The five infiltration formulas, as EnergyPlus documents them.
//!
//! Each function is total over its declared range and returns exactly the
//! fixed-point value of its formula; a missing weather field or indoor
//! temperature is reported as a typed error.

use vstd::prelude::*;

use crate::data::{AirFlowError, CurrentWeather};
use crate::fixed::{
    abs_fixed, abs_of, fixed_mul, in_range, is_sqrt_floor, isqrt, lemma_fixed_mul_bounded,
    lemma_fixed_mul_nonneg, lemma_fixed_square_nonneg, lemma_sqrt_floor_exists,
    lemma_sqrt_floor_unique, mul_fixed, sqrt_floor, FIXED_ABS_MAX, SCALE,
};

verus! {

/// Design-flow-rate factor `a` of the BLAST defaults (0.606).
pub const BLAST_A: i64 = 606_000;

/// Design-flow-rate factor `b` of the BLAST defaults (0.03636 per degree).
pub const BLAST_B: i64 = 36_360;

/// Design-flow-rate factor `c` of the BLAST defaults (0.1177 per m/s).
pub const BLAST_C: i64 = 117_700;

/// Design-flow-rate factor `d` of the BLAST defaults (zero).
pub const BLAST_D: i64 = 0;

/// Design-flow-rate factor `a` of the DOE-2 defaults (zero).
pub const DOE2_A: i64 = 0;

/// Design-flow-rate factor `b` of the DOE-2 defaults (zero).
pub const DOE2_B: i64 = 0;

/// Design-flow-rate factor `c` of the DOE-2 defaults (0.224 per m/s).
pub const DOE2_C: i64 = 224_000;

/// Design-flow-rate factor `d` of the DOE-2 defaults (zero).
pub const DOE2_D: i64 = 0;

/// The design-flow-rate formula:
/// `phi * (a + b*|t_in - t_out| + c*w + d*w*w)`, in fixed point.
pub open spec fn spec_design_flow_rate(
    t_out: int,
    t_in: int,
    w: int,
    phi: int,
    a: int,
    b: int,
    c: int,
    d: int,
) -> int {
    fixed_mul(
        phi,
        a + fixed_mul(b, abs_of(t_in - t_out)) + fixed_mul(c, w) + fixed_mul(fixed_mul(d, w), w),
    )
}

/// The design-flow-rate formula with the BLAST default coefficients.
pub open spec fn spec_blast_design_flow_rate(t_out: int, t_in: int, w: int, phi: int) -> int {
    spec_design_flow_rate(t_out, t_in, w, phi, BLAST_A as int, BLAST_B as int, BLAST_C as int, BLAST_D as int)
}

/// The design-flow-rate formula with the DOE-2 default coefficients.
pub open spec fn spec_doe2_design_flow_rate(t_out: int, t_in: int, w: int, phi: int) -> int {
    spec_design_flow_rate(t_out, t_in, w, phi, DOE2_A as int, DOE2_B as int, DOE2_C as int, DOE2_D as int)
}

/// The leakage-area formula:
/// `(area/1000) * sqrt(cs*|t_out - t_in| + cw*w*w)`, in fixed point.
pub open spec fn spec_effective_leakage_area(
    t_out: int,
    t_in: int,
    w: int,
    area: int,
    cw: int,
    cs: int,
) -> int {
    fixed_mul(
        area / 1000,
        sqrt_floor(
            (fixed_mul(cs, abs_of(t_out - t_in)) + fixed_mul(cw, fixed_mul(w, w))) * (SCALE as int),
        ),
    )
}

/// The wind speed the leakage-area formula uses: absent defaults to zero.
pub open spec fn wind_or_zero(weather: CurrentWeather) -> int {
    if weather.wind_speed is Some {
        weather.wind_speed->0 as int
    } else {
        0
    }
}

/// Infiltration estimated as by EnergyPlus' `ZoneInfiltration:DesignFlowRate`:
/// the design rate `phi`, scaled by a factor affine in the indoor-outdoor
/// temperature difference, the wind speed and its square.
///
/// Fails when the indoor temperature, the outdoor temperature or the wind
/// speed is unavailable.
pub fn design_flow_rate(
    weather: &CurrentWeather,
    indoor_temperature: Option<i64>,
    phi: i64,
    a: i64,
    b: i64,
    c: i64,
    d: i64,
) -> (r: Result<i64, AirFlowError>)
    requires
        weather.wf(),
        indoor_temperature is Some ==> in_range(indoor_temperature->0 as int),
        in_range(phi as int),
        in_range(a as int),
        in_range(b as int),
        in_range(c as int),
        in_range(d as int),
    ensures
        indoor_temperature is None ==> r == Err::<i64, AirFlowError>(
            AirFlowError::MissingSpaceDryBulbTemperature,
        ),
        indoor_temperature is Some && weather.dry_bulb_temperature is None ==> r == Err::<
            i64,
            AirFlowError,
        >(AirFlowError::MissingWeatherDryBulbTemperature),
        indoor_temperature is Some && weather.dry_bulb_temperature is Some && weather.wind_speed
            is None ==> r == Err::<i64, AirFlowError>(AirFlowError::MissingWeatherWindSpeed),
        indoor_temperature is Some && weather.dry_bulb_temperature is Some && weather.wind_speed
            is Some ==> (r matches Ok(flow) && flow as int == spec_design_flow_rate(
            weather.dry_bulb_temperature->0 as int,
            indoor_temperature->0 as int,
            weather.wind_speed->0 as int,
            phi as int,
            a as int,
            b as int,
            c as int,
            d as int,
        )),
{
    let t_in: i64 = match indoor_temperature {
        Some(v) => v,
        None => {
            return Err(AirFlowError::MissingSpaceDryBulbTemperature);
        },
    };
    let t_out: i64 = match weather.dry_bulb_temperature {
        Some(v) => v,
        None => {
            return Err(AirFlowError::MissingWeatherDryBulbTemperature);
        },
    };
    let w: i64 = match weather.wind_speed {
        Some(v) => v,
        None => {
            return Err(AirFlowError::MissingWeatherWindSpeed);
        },
    };
    let dt: i64 = abs_fixed(t_in - t_out);
    proof {
        lemma_fixed_mul_bounded(
            b as int,
            dt as int,
            1_000_000_000,
            2_000_000_000,
            2_000_000_000_000,
        );
        lemma_fixed_mul_bounded(c as int, w as int, 1_000_000_000, 1_000_000_000, 1_000_000_000_000);
        lemma_fixed_mul_bounded(d as int, w as int, 1_000_000_000, 1_000_000_000, 1_000_000_000_000);
    }
    let term_b: i64 = mul_fixed(b, dt);
    let term_c: i64 = mul_fixed(c, w);
    let dw: i64 = mul_fixed(d, w);
    proof {
        lemma_fixed_mul_bounded(
            dw as int,
            w as int,
            1_000_000_000_000,
            1_000_000_000,
            1_000_000_000_000_000,
        );
    }
    let term_d: i64 = mul_fixed(dw, w);
    let factor: i64 = a + term_b + term_c + term_d;
    proof {
        lemma_fixed_mul_bounded(
            phi as int,
            factor as int,
            1_000_000_000,
            1_004_000_000_000_000,
            1_004_000_000_000_000_000,
        );
    }
    Ok(mul_fixed(phi, factor))
}

/// The design-flow-rate formula with the BLAST default coefficients, which
/// give a unit factor at no temperature difference and 3.35 m/s of wind.
pub fn blast_design_flow_rate(
    weather: &CurrentWeather,
    indoor_temperature: Option<i64>,
    phi: i64,
) -> (r: Result<i64, AirFlowError>)
    requires
        weather.wf(),
        indoor_temperature is Some ==> in_range(indoor_temperature->0 as int),
        in_range(phi as int),
    ensures
        indoor_temperature is None ==> r == Err::<i64, AirFlowError>(
            AirFlowError::MissingSpaceDryBulbTemperature,
        ),
        indoor_temperature is Some && weather.dry_bulb_temperature is None ==> r == Err::<
            i64,
            AirFlowError,
        >(AirFlowError::MissingWeatherDryBulbTemperature),
        indoor_temperature is Some && weather.dry_bulb_temperature is Some && weather.wind_speed
            is None ==> r == Err::<i64, AirFlowError>(AirFlowError::MissingWeatherWindSpeed),
        indoor_temperature is Some && weather.dry_bulb_temperature is Some && weather.wind_speed
            is Some ==> (r matches Ok(flow) && flow as int == spec_blast_design_flow_rate(
            weather.dry_bulb_temperature->0 as int,
            indoor_temperature->0 as int,
            weather.wind_speed->0 as int,
            phi as int,
        )),
{
    design_flow_rate(weather, indoor_temperature, phi, BLAST_A, BLAST_B, BLAST_C, BLAST_D)
}

/// The design-flow-rate formula with the DOE-2 default coefficients, which
/// give a unit factor at 4.47 m/s of wind.
pub fn doe2_design_flow_rate(
    weather: &CurrentWeather,
    indoor_temperature: Option<i64>,
    phi: i64,
) -> (r: Result<i64, AirFlowError>)
    requires
        weather.wf(),
        indoor_temperature is Some ==> in_range(indoor_temperature->0 as int),
        in_range(phi as int),
    ensures
        indoor_temperature is None ==> r == Err::<i64, AirFlowError>(
            AirFlowError::MissingSpaceDryBulbTemperature,
        ),
        indoor_temperature is Some && weather.dry_bulb_temperature is None ==> r == Err::<
            i64,
            AirFlowError,
        >(AirFlowError::MissingWeatherDryBulbTemperature),
        indoor_temperature is Some && weather.dry_bulb_temperature is Some && weather.wind_speed
            is None ==> r == Err::<i64, AirFlowError>(AirFlowError::MissingWeatherWindSpeed),
        indoor_temperature is Some && weather.dry_bulb_temperature is Some && weather.wind_speed
            is Some ==> (r matches Ok(flow) && flow as int == spec_doe2_design_flow_rate(
            weather.dry_bulb_temperature->0 as int,
            indoor_temperature->0 as int,
            weather.wind_speed->0 as int,
            phi as int,
        )),
{
    design_flow_rate(weather, indoor_temperature, phi, DOE2_A, DOE2_B, DOE2_C, DOE2_D)
}

/// The Effective-Leakage-Area formula of the ASHRAE basic model: leakage
/// area over one thousand, times the square root of the stack term plus the
/// wind term.  The wind speed defaults to zero when the sample lacks it; a
/// missing temperature still fails.
pub fn effective_leakage_area(
    weather: &CurrentWeather,
    indoor_temperature: Option<i64>,
    area: i64,
    cw: i64,
    cs: i64,
) -> (r: Result<i64, AirFlowError>)
    requires
        weather.wf(),
        indoor_temperature is Some ==> in_range(indoor_temperature->0 as int),
        0 <= area <= FIXED_ABS_MAX,
        0 <= cw <= FIXED_ABS_MAX,
        0 <= cs <= FIXED_ABS_MAX,
    ensures
        weather.dry_bulb_temperature is None ==> r == Err::<i64, AirFlowError>(
            AirFlowError::MissingWeatherDryBulbTemperature,
        ),
        weather.dry_bulb_temperature is Some && indoor_temperature is None ==> r == Err::<
            i64,
            AirFlowError,
        >(AirFlowError::MissingSpaceDryBulbTemperature),
        weather.dry_bulb_temperature is Some && indoor_temperature is Some ==> (r matches Ok(flow)
            && flow as int == spec_effective_leakage_area(
            weather.dry_bulb_temperature->0 as int,
            indoor_temperature->0 as int,
            wind_or_zero(*weather),
            area as int,
            cw as int,
            cs as int,
        )),
{
    let t_out: i64 = match weather.dry_bulb_temperature {
        Some(v) => v,
        None => {
            return Err(AirFlowError::MissingWeatherDryBulbTemperature);
        },
    };
    let t_in: i64 = match indoor_temperature {
        Some(v) => v,
        None => {
            return Err(AirFlowError::MissingSpaceDryBulbTemperature);
        },
    };
    let w: i64 = match weather.wind_speed {
        Some(v) => v,
        None => 0,
    };
    let dt: i64 = abs_fixed(t_out - t_in);
    proof {
        lemma_fixed_mul_bounded(
            cs as int,
            dt as int,
            1_000_000_000,
            2_000_000_000,
            2_000_000_000_000,
        );
        lemma_fixed_mul_nonneg(cs as int, dt as int);
        lemma_fixed_mul_bounded(w as int, w as int, 1_000_000_000, 1_000_000_000, 1_000_000_000_000);
        lemma_fixed_square_nonneg(w as int);
    }
    let stack_term: i64 = mul_fixed(cs, dt);
    let w2: i64 = mul_fixed(w, w);
    proof {
        lemma_fixed_mul_bounded(
            cw as int,
            w2 as int,
            1_000_000_000,
            1_000_000_000_000,
            1_000_000_000_000_000,
        );
        lemma_fixed_mul_nonneg(cw as int, w2 as int);
    }
    let wind_term: i64 = mul_fixed(cw, w2);
    let arg: i64 = stack_term + wind_term;
    proof {
        assert((arg as int) * (SCALE as int) <= 1_002_000_000_000_000_000_000) by (nonlinear_arith)
            requires
                0 <= arg <= 1_002_000_000_000_000,
                SCALE == 1_000_000,
        ;
    }
    let scaled_arg: u128 = (arg as u128) * (SCALE as u128);
    let s: u64 = isqrt(scaled_arg);
    proof {
        lemma_sqrt_floor_exists(scaled_arg as int);
        lemma_sqrt_floor_unique(scaled_arg as int, s as int, sqrt_floor(scaled_arg as int));
        assert(s <= 100_000_000_000) by (nonlinear_arith)
            requires
                is_sqrt_floor(scaled_arg as int, s as int),
                scaled_arg <= 1_002_000_000_000_000_000_000,
        ;
    }
    let area_k: i64 = ((area as u64) / 1000) as i64;
    proof {
        lemma_fixed_mul_bounded(
            area_k as int,
            s as int,
            1_000_000,
            100_000_000_000,
            100_000_000_000,
        );
    }
    Ok(mul_fixed(area_k, s as i64))
}

} // verus!
