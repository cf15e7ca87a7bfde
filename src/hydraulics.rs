//! Annular hydraulics: annular velocity, Bingham-plastic pressure loss,
//! equivalent circulating density (ECD) and fracture risk.
//!
//! Every quantity is a fixed-point decimal in thousandths of its unit. Each
//! derived quantity is its formula applied to the inputs and to the derived
//! quantities before it, rounded to the nearest thousandth (halves up).

use vstd::prelude::*;
use vstd::arithmetic::div_mod::{
    lemma_div_is_ordered,
    lemma_fundamental_div_mod,
    lemma_hoist_over_denominator,
    lemma_mod_pos_bound,
    lemma_div_pos_is_pos,
};
use vstd::arithmetic::mul::lemma_mul_inequality;
use crate::text::{hundredths_text, push_hundredths, round_div};

verus! {

/// Fluid and geometry configuration of one hydraulics case. All fields are
/// in thousandths of the unit named.
pub struct HydraulicsInput {
    /// Pump rate, gallons per minute.
    pub flow_rate: u32,
    /// Mud weight, pounds per gallon.
    pub mud_density: u32,
    /// Plastic viscosity, centipoise.
    pub plastic_viscosity: u32,
    /// Yield point, pounds per 100 square feet.
    pub yield_point: u32,
    /// Hole diameter, inches.
    pub hole_diam: u32,
    /// Pipe outer diameter, inches.
    pub pipe_od: u32,
    /// Depth of the annulus, feet.
    pub depth: u32,
    /// Formation fracture gradient, psi per foot.
    pub fracture_gradient: u32,
}

/// Derived hydraulics values, in thousandths of the unit named.
pub struct HydraulicsResult {
    /// Annular velocity, feet per minute.
    pub annular_velocity: u128,
    /// Annular pressure loss, psi.
    pub pressure_loss: u128,
    /// Equivalent circulating density, pounds per gallon.
    pub ecd: u128,
    /// Whether the bottom-hole circulating pressure exceeds the fracture pressure.
    pub frac_risk: bool,
    /// Human-readable summary of the fracture comparison.
    pub frac_risk_msg: String,
}

/// Configurations the analyser rejects.
#[derive(Debug, Clone, Copy, PartialEq, Eq)]
pub enum HydraulicsError {
    /// The hole is not wider than the pipe: there is no annulus.
    InvalidAnnulus,
    /// The depth is zero, and it divides the ECD formula.
    InvalidDepth,
}

/// Hole area minus pipe area, up to the factor pi/4, in millionths of a square inch.
pub open spec fn annulus_square_diff(i: HydraulicsInput) -> int {
    i.hole_diam * i.hole_diam - i.pipe_od * i.pipe_od
}

/// Radial clearance times two, in thousandths of an inch.
pub open spec fn annulus_gap(i: HydraulicsInput) -> int {
    i.hole_diam - i.pipe_od
}

/// Annular velocity `24.5 Q / (Dh^2 - Dp^2)`, in thousandths of ft/min.
pub open spec fn annular_velocity_of(i: HydraulicsInput) -> int {
    round_div(24_500_000 * i.flow_rate, annulus_square_diff(i))
}

/// Yield-point term of the pressure loss, `L YP / (225 (Dh - Dp))`.
pub open spec fn yield_loss_of(i: HydraulicsInput) -> int {
    round_div(i.depth * i.yield_point, 225 * annulus_gap(i))
}

/// Viscous term of the pressure loss, `L PV V / (1500 (Dh - Dp)^2)`.
pub open spec fn viscous_loss_of(i: HydraulicsInput) -> int {
    round_div(
        i.depth * i.plastic_viscosity * annular_velocity_of(i),
        1500 * (annulus_gap(i) * annulus_gap(i)),
    )
}

/// Bingham-plastic annular pressure loss, in thousandths of psi.
pub open spec fn pressure_loss_of(i: HydraulicsInput) -> int {
    yield_loss_of(i) + viscous_loss_of(i)
}

/// Equivalent circulating density `MW + P / (0.052 L)`, in thousandths of ppg.
pub open spec fn ecd_of(i: HydraulicsInput) -> int {
    i.mud_density + round_div(1_000_000 * pressure_loss_of(i), 52 * i.depth)
}

/// Bottom-hole pressure `0.052 ECD L` exceeds fracture pressure `FG L`
/// (the common positive factor `L` cancels).
pub open spec fn frac_risk_of(ecd: int, fracture_gradient: int) -> bool {
    52 * ecd > 1000 * fracture_gradient
}

/// The error the analyser reports for a configuration, if any.
pub open spec fn hydraulics_error_of(i: HydraulicsInput) -> Option<HydraulicsError> {
    if i.hole_diam <= i.pipe_od {
        Some(HydraulicsError::InvalidAnnulus)
    } else if i.depth == 0 {
        Some(HydraulicsError::InvalidDepth)
    } else {
        None
    }
}

/// The warning for an ECD of `whole.hundredths` ppg.
pub open spec fn ecd_warning_text(whole: nat, hundredths: nat) -> Seq<char> {
    "WARNING: ECD ("@ + hundredths_text(whole, hundredths) + " ppg) exceeds Frac Gradient!"@
}

/// The summary of the fracture comparison for an ECD in thousandths of ppg:
/// the ECD is shown rounded to the nearest hundredth (halves up).
pub open spec fn frac_risk_message(ecd: nat, frac_risk: bool) -> Seq<char> {
    let hundredths = round_div(ecd as int, 10) as nat;
    if frac_risk {
        ecd_warning_text(hundredths / 100, hundredths % 100)
    } else {
        "Safe"@
    }
}

/// `n` over `d` rounded to the nearest integer, halves up; at most `n`.
proof fn lemma_round_div_bound(n: int, d: int)
    requires
        0 <= n,
        1 <= d,
    ensures
        0 <= round_div(n, d) <= n,
{
    lemma_fundamental_div_mod(2 * n + d, 2 * d);
    lemma_mod_pos_bound(2 * n + d, 2 * d);
    lemma_div_pos_is_pos(2 * n + d, 2 * d);
    let q = round_div(n, d);
    assert(q <= n) by (nonlinear_arith)
        requires
            2 * d * q <= 2 * n + d,
            1 <= d,
            0 <= n,
            0 <= q,
    ;
}

/// Rounding to nearest keeps the order of numerators.
proof fn lemma_round_div_ordered(n1: int, n2: int, d: int)
    requires
        n1 <= n2,
        1 <= d,
    ensures
        round_div(n1, d) <= round_div(n2, d),
{
    lemma_div_is_ordered(2 * n1 + d, 2 * n2 + d, 2 * d);
}

/// Computes annular velocity, pressure loss, ECD and fracture risk.
///
/// Fails with `InvalidAnnulus` when the hole is not wider than the pipe,
/// otherwise with `InvalidDepth` when the depth is zero.
pub fn calculate_hydraulics_pure(input: HydraulicsInput) -> (r: Result<
    HydraulicsResult,
    HydraulicsError,
>)
    ensures
        r is Err <==> hydraulics_error_of(input) is Some,
        r is Err ==> hydraulics_error_of(input) == Some(r->Err_0),
        r is Ok ==> ({
            let res = r->Ok_0;
            &&& res.annular_velocity == annular_velocity_of(input)
            &&& res.pressure_loss == pressure_loss_of(input)
            &&& res.ecd == ecd_of(input)
            &&& res.frac_risk == frac_risk_of(ecd_of(input), input.fracture_gradient as int)
            &&& res.frac_risk_msg@ == frac_risk_message(res.ecd as nat, res.frac_risk)
        }),
{
    if input.hole_diam <= input.pipe_od {
        return Err(HydraulicsError::InvalidAnnulus);
    }
    if input.depth == 0 {
        return Err(HydraulicsError::InvalidDepth);
    }
    let q = input.flow_rate as u128;
    let dh = input.hole_diam as u128;
    let dp = input.pipe_od as u128;
    let depth = input.depth as u128;
    let yp = input.yield_point as u128;
    let pv = input.plastic_viscosity as u128;
    let bound: u128 = 0x1_0000_0000;
    proof {
        assert(dh * dh < bound * bound) by (nonlinear_arith)
            requires
                dh < bound,
        ;
        assert(dp * dp <= dh * dh) by (nonlinear_arith)
            requires
                dp < dh,
        ;
        assert(depth * yp < bound * bound) by (nonlinear_arith)
            requires
                depth < bound,
                yp < bound,
        ;
        assert(depth * pv < bound * bound) by (nonlinear_arith)
            requires
                depth < bound,
                pv < bound,
        ;
    }
    let square_diff = dh * dh - dp * dp;
    let gap = dh - dp;
    proof {
        assert(square_diff > 0) by (nonlinear_arith)
            requires
                dp < dh,
                square_diff == dh * dh - dp * dp,
        ;
        assert(gap * gap < bound * bound) by (nonlinear_arith)
            requires
                gap < bound,
        ;
        assert(gap * gap > 0) by (nonlinear_arith)
            requires
                gap > 0,
        ;
        lemma_round_div_bound(24_500_000 * q, square_diff as int);
    }
    let velocity = (2 * (24_500_000 * q) + square_diff) / (2 * square_diff);
    proof {
        assert(depth * pv * velocity <= bound * bound * (24_500_000 * bound)) by (nonlinear_arith)
            requires
                depth * pv < bound * bound,
                velocity <= 24_500_000 * q,
                q < bound,
        ;
        lemma_round_div_bound(depth * yp, 225 * gap);
        lemma_round_div_bound(depth * pv * velocity, 1500 * (gap * gap));
    }
    let yield_loss = (2 * (depth * yp) + 225 * gap) / (2 * (225 * gap));
    let viscous_loss = (2 * (depth * pv * velocity) + 1500 * (gap * gap)) / (2 * (1500 * (
    gap * gap)));
    let pressure_loss = yield_loss + viscous_loss;
    // Scale by a million as a quotient plus a scaled remainder, so that the
    // product never exceeds 128 bits.
    let divisor = 52 * depth;
    let whole = pressure_loss / divisor;
    let rest = pressure_loss % divisor;
    proof {
        let k = yp + pv * velocity;
        assert(pressure_loss <= depth * k) by (nonlinear_arith)
            requires
                yield_loss <= depth * yp,
                viscous_loss <= depth * pv * velocity,
                pressure_loss == yield_loss + viscous_loss,
                k == yp + pv * velocity,
        ;
        lemma_fundamental_div_mod(pressure_loss as int, divisor as int);
        lemma_mod_pos_bound(pressure_loss as int, divisor as int);
        lemma_div_pos_is_pos(pressure_loss as int, divisor as int);
        assert(whole <= k) by (nonlinear_arith)
            requires
                divisor * whole <= pressure_loss,
                divisor == 52 * depth,
                pressure_loss <= depth * k,
                depth >= 1,
                whole >= 0,
        ;
        assert(pv * velocity <= bound * (24_500_000 * bound)) by (nonlinear_arith)
            requires
                pv < bound,
                velocity <= 24_500_000 * q,
                q < bound,
        ;
        let x = 2 * 1_000_000 * rest + divisor;
        assert(2 * (1_000_000 * pressure_loss) + divisor == x + (1_000_000 * whole) * (2
            * divisor)) by (nonlinear_arith)
            requires
                pressure_loss == divisor * whole + rest,
                x == 2 * 1_000_000 * rest + divisor,
        ;
        lemma_hoist_over_denominator(x, 1_000_000 * whole, (2 * divisor) as nat);
        assert(rest * 2_000_000 + divisor < 2_000_001 * divisor);
        lemma_div_is_ordered(x, 2_000_001 * divisor, 2 * divisor);
        assert((2_000_001 * divisor) / (2 * divisor) <= 1_000_001) by (nonlinear_arith)
            requires
                divisor >= 1,
        ;
    }
    let ecd = input.mud_density as u128 + 1_000_000 * whole + (2_000_000 * rest + divisor) / (2
        * divisor);
    let frac_risk = 52 * ecd > 1000 * (input.fracture_gradient as u128);
    let mut frac_risk_msg = String::new();
    if frac_risk {
        let hundredths = (2 * ecd + 10) / 20;
        frac_risk_msg.append("WARNING: ECD (");
        push_hundredths(&mut frac_risk_msg, hundredths / 100, hundredths % 100);
        frac_risk_msg.append(" ppg) exceeds Frac Gradient!");
    } else {
        frac_risk_msg.append("Safe");
    }
    assert(frac_risk_msg@ =~= frac_risk_message(ecd as nat, frac_risk));
    Ok(HydraulicsResult {
        annular_velocity: velocity,
        pressure_loss,
        ecd,
        frac_risk,
        frac_risk_msg,
    })
}

/// The same configuration with another flow rate.
pub open spec fn with_flow_rate(i: HydraulicsInput, flow_rate: u32) -> HydraulicsInput {
    HydraulicsInput { flow_rate, ..i }
}

/// ECD does not decrease as the flow rate grows, all else fixed: annular
/// velocity grows with the flow rate, the viscous pressure loss with the
/// velocity, and ECD with the pressure loss. On every configuration the
/// analyser accepts, this is the ECD that `calculate_hydraulics_pure` returns.
pub proof fn lemma_ecd_monotone_in_flow_rate(i: HydraulicsInput, higher_flow_rate: u32)
    requires
        i.flow_rate <= higher_flow_rate,
    ensures
        hydraulics_error_of(i) is None ==> hydraulics_error_of(
            with_flow_rate(i, higher_flow_rate),
        ) is None && ecd_of(i) <= ecd_of(with_flow_rate(i, higher_flow_rate)),
{
    let j = with_flow_rate(i, higher_flow_rate);
    if i.hole_diam > i.pipe_od && i.depth > 0 {
        let d = annulus_square_diff(i);
        assert(d > 0) by (nonlinear_arith)
            requires
                i.hole_diam > i.pipe_od,
                i.pipe_od >= 0,
                d == i.hole_diam * i.hole_diam - i.pipe_od * i.pipe_od,
        ;
        lemma_mul_inequality(i.flow_rate as int, higher_flow_rate as int, 24_500_000);
        lemma_round_div_ordered(24_500_000 * i.flow_rate, 24_500_000 * higher_flow_rate, d);
        let g = annulus_gap(i);
        assert(1500 * (g * g) >= 1) by (nonlinear_arith)
            requires
                g > 0,
        ;
        let lp = i.depth * i.plastic_viscosity;
        assert(lp * annular_velocity_of(i) <= lp * annular_velocity_of(j)) by (nonlinear_arith)
            requires
                lp >= 0,
                annular_velocity_of(i) <= annular_velocity_of(j),
        ;
        lemma_round_div_ordered(
            i.depth * i.plastic_viscosity * annular_velocity_of(i),
            i.depth * i.plastic_viscosity * annular_velocity_of(j),
            1500 * (g * g),
        );
        assert(pressure_loss_of(i) <= pressure_loss_of(j));
        lemma_mul_inequality(pressure_loss_of(i), pressure_loss_of(j), 1_000_000);
        lemma_round_div_ordered(
            1_000_000 * pressure_loss_of(i),
            1_000_000 * pressure_loss_of(j),
            52 * i.depth,
        );
    }
}

} // verus!
