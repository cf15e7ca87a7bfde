use hdd_core::hydraulics::{calculate_hydraulics_pure, HydraulicsError, HydraulicsInput};

fn sample_well(flow_rate: u32, fracture_gradient: u32) -> HydraulicsInput {
    HydraulicsInput {
        flow_rate,
        mud_density: 9_000,
        plastic_viscosity: 15_000,
        yield_point: 10_000,
        hole_diam: 8_500,
        pipe_od: 5_000,
        depth: 5_000_000,
        fracture_gradient,
    }
}

#[test]
fn worked_example_values() {
    let input = HydraulicsInput {
        flow_rate: 500_000,
        mud_density: 10_000,
        plastic_viscosity: 20_000,
        yield_point: 15_000,
        hole_diam: 8_500,
        pipe_od: 5_000,
        depth: 2_500_000,
        fracture_gradient: 800,
    };
    let r = calculate_hydraulics_pure(input).unwrap();
    assert_eq!(r.annular_velocity, 259_259);
    assert_eq!(r.pressure_loss, 753_086);
    assert_eq!(r.ecd, 15_793);
    assert!(r.frac_risk);
    assert_eq!(r.frac_risk_msg, "WARNING: ECD (15.79 ppg) exceeds Frac Gradient!");
}

#[test]
fn sample_well_values() {
    let r = calculate_hydraulics_pure(sample_well(300_000, 800)).unwrap();
    assert_eq!(r.annular_velocity, 155_556);
    assert_eq!(r.pressure_loss, 698_414);
    assert_eq!(r.ecd, 11_686);
    assert!(!r.frac_risk);
    assert_eq!(r.frac_risk_msg, "Safe");
}

#[test]
fn low_fracture_gradient_warns() {
    let r = calculate_hydraulics_pure(sample_well(300_000, 500)).unwrap();
    assert_eq!(r.ecd, 11_686);
    assert!(r.frac_risk);
    assert_eq!(r.frac_risk_msg, "WARNING: ECD (11.69 ppg) exceeds Frac Gradient!");
}

#[test]
fn ecd_grows_with_flow_rate() {
    let low = calculate_hydraulics_pure(sample_well(300_000, 800)).unwrap();
    let high = calculate_hydraulics_pure(sample_well(600_000, 800)).unwrap();
    assert_eq!(high.annular_velocity, 311_111);
    assert_eq!(high.pressure_loss, 1_333_333);
    assert_eq!(high.ecd, 14_128);
    assert!(low.ecd <= high.ecd);
}

#[test]
fn zero_flow_leaves_yield_loss_only() {
    let r = calculate_hydraulics_pure(sample_well(0, 800)).unwrap();
    assert_eq!(r.annular_velocity, 0);
    assert_eq!(r.pressure_loss, 63_492);
    assert_eq!(r.ecd, 9_244);
}

#[test]
fn hole_narrower_than_pipe_is_invalid_annulus() {
    let mut input = sample_well(300_000, 800);
    input.hole_diam = 4_000;
    input.pipe_od = 5_000;
    assert_eq!(calculate_hydraulics_pure(input).err(), Some(HydraulicsError::InvalidAnnulus));
}

#[test]
fn hole_equal_to_pipe_is_invalid_annulus() {
    let mut input = sample_well(300_000, 800);
    input.hole_diam = 5_000;
    input.depth = 0;
    assert_eq!(calculate_hydraulics_pure(input).err(), Some(HydraulicsError::InvalidAnnulus));
}

#[test]
fn zero_depth_is_invalid_depth() {
    let mut input = sample_well(300_000, 800);
    input.depth = 0;
    assert_eq!(calculate_hydraulics_pure(input).err(), Some(HydraulicsError::InvalidDepth));
}

#[test]
fn largest_inputs_in_a_thin_annulus() {
    let input = HydraulicsInput {
        flow_rate: u32::MAX,
        mud_density: u32::MAX,
        plastic_viscosity: u32::MAX,
        yield_point: u32::MAX,
        hole_diam: 1,
        pipe_od: 0,
        depth: u32::MAX,
        fracture_gradient: 0,
    };
    let r = calculate_hydraulics_pure(input).unwrap();
    assert_eq!(r.annular_velocity, 105_226_698_727_500_000);
    assert_eq!(r.pressure_loss, 1_294_059_986_829_093_803_278_765_735_434_409);
    assert_eq!(r.ecd, 5_794_169_610_197_828_795_905_419_859);
    assert_eq!(
        r.frac_risk_msg,
        "WARNING: ECD (5794169610197828795905419.86 ppg) exceeds Frac Gradient!"
    );
}

#[test]
fn extreme_inputs_at_unit_depth() {
    let input = HydraulicsInput {
        flow_rate: u32::MAX,
        mud_density: u32::MAX,
        plastic_viscosity: u32::MAX,
        yield_point: u32::MAX,
        hole_diam: u32::MAX,
        pipe_od: u32::MAX - 1,
        depth: 1,
        fracture_gradient: 0,
    };
    let r = calculate_hydraulics_pure(input).unwrap();
    assert_eq!(r.annular_velocity, 12_250_000);
    assert_eq!(r.pressure_loss, 35_075_585_331_244);
    assert_eq!(r.ecd, 674_530_491_434_274_987);
    assert_eq!(r.frac_risk_msg, "WARNING: ECD (674530491434274.99 ppg) exceeds Frac Gradient!");
}
