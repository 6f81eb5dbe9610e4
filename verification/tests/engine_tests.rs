use otdr_core::curve::CalibratedCurve;
use otdr_core::engine::{summarize, CalibrationError};
use otdr_core::trace::{CalibrationParameters, DecodedTrace, SampleData, ScaleFactorData};

fn record(
    total_scale_factors_used: i16,
    scale_factor: i16,
    samples: Vec<u16>,
    group_index: i32,
    data_spacing: Vec<i32>,
) -> DecodedTrace {
    DecodedTrace {
        data_points: Some(SampleData {
            total_scale_factors_used,
            scale_factors: vec![ScaleFactorData { scale_factor, samples }],
        }),
        fixed_parameters: Some(CalibrationParameters { group_index, data_spacing }),
    }
}

fn as_f64(num: i128, den: i128) -> f64 {
    num as f64 / den as f64
}

#[test]
fn two_sample_scenario() {
    let r = record(1, 1000, vec![65535, 65035], 146800, vec![2000000]);
    let curve: CalibratedCurve = summarize(&r).unwrap();
    assert_eq!(curve.points.len(), 2);

    // Sample 0: zero distance, amplitude (65535 - 65535) / 1000 = 0.
    assert_eq!(curve.points[0].distance.num, 0);
    assert_eq!(as_f64(curve.points[0].distance.num, curve.points[0].distance.den), 0.0);
    assert_eq!(curve.points[0].amplitude.num, 0);
    assert_eq!(as_f64(curve.points[0].amplitude.num, curve.points[0].amplitude.den), 0.0);

    // Sample 1: one step of data_spacing * c / (group_index * 1e9) metres,
    // amplitude (65535 - 65035) / 1000 = 0.5.
    assert_eq!(curve.points[1].distance.num, 2_000_000i128 * 299_792_458i128);
    assert_eq!(curve.points[1].distance.den, 146_800i128 * 1_000_000_000i128);
    let expected_step = (2e-4 / 10000.0) * (299792458.0 / 1.468);
    let step = as_f64(curve.points[1].distance.num, curve.points[1].distance.den);
    assert!((step - expected_step).abs() < 1e-9);
    assert!((step - 4.084).abs() < 1e-3);
    assert_eq!(curve.points[1].amplitude.num, 500);
    assert_eq!(curve.points[1].amplitude.den, 1000);
    assert_eq!(as_f64(curve.points[1].amplitude.num, curve.points[1].amplitude.den), 0.5);
}

#[test]
fn missing_data_points_gives_missing_samples() {
    let r = DecodedTrace {
        data_points: None,
        fixed_parameters: Some(CalibrationParameters {
            group_index: 146800,
            data_spacing: vec![2000000],
        }),
    };
    assert_eq!(summarize(&r), Err(CalibrationError::MissingSamples));
}

#[test]
fn missing_fixed_parameters_gives_missing_calibration() {
    let r = DecodedTrace {
        data_points: Some(SampleData {
            total_scale_factors_used: 1,
            scale_factors: vec![ScaleFactorData { scale_factor: 1000, samples: vec![65535] }],
        }),
        fixed_parameters: None,
    };
    assert_eq!(summarize(&r), Err(CalibrationError::MissingCalibration));
}

#[test]
fn zero_scale_factors_rejected() {
    let r = record(0, 1000, vec![65535, 65035], 146800, vec![2000000]);
    assert_eq!(summarize(&r), Err(CalibrationError::UnsupportedScaling));
}

#[test]
fn two_scale_factors_rejected() {
    let r = record(2, 1000, vec![65535, 65035], 146800, vec![2000000]);
    assert_eq!(summarize(&r), Err(CalibrationError::UnsupportedScaling));
}

#[test]
fn empty_segment_list_gives_missing_samples() {
    let r = DecodedTrace {
        data_points: Some(SampleData { total_scale_factors_used: 1, scale_factors: vec![] }),
        fixed_parameters: Some(CalibrationParameters {
            group_index: 146800,
            data_spacing: vec![2000000],
        }),
    };
    assert_eq!(summarize(&r), Err(CalibrationError::MissingSamples));
}

#[test]
fn empty_data_spacing_gives_missing_calibration() {
    let r = record(1, 1000, vec![65535], 146800, vec![]);
    assert_eq!(summarize(&r), Err(CalibrationError::MissingCalibration));
}

#[test]
fn summarize_is_deterministic() {
    let r = record(1, 2000, vec![65535, 64535, 63535], 150000, vec![1500000]);
    let first = summarize(&r).unwrap();
    let second = summarize(&r).unwrap();
    assert_eq!(first, second);
}

#[test]
fn output_length_matches_sample_count() {
    let samples: Vec<u16> = (0..257u16).collect();
    let r = record(1, 1000, samples, 146800, vec![2000000]);
    let curve = summarize(&r).unwrap();
    assert_eq!(curve.points.len(), 257);
}

#[test]
fn distances_strictly_increasing() {
    let r = record(1, 1000, vec![65535, 65000, 64000, 63000], 146800, vec![2000000]);
    let curve = summarize(&r).unwrap();
    for w in curve.points.windows(2) {
        let a = as_f64(w[0].distance.num, w[0].distance.den);
        let b = as_f64(w[1].distance.num, w[1].distance.den);
        assert!(a < b);
    }
}

#[test]
fn empty_sample_segment_gives_empty_curve() {
    let r = record(1, 1000, vec![], 146800, vec![2000000]);
    let curve = summarize(&r).unwrap();
    assert_eq!(curve.points.len(), 0);
}

#[test]
fn zero_scale_factor_field_keeps_exact_denominator() {
    // A zero scale factor denotes an undefined amplitude; the exact
    // representation keeps the raw numerator and the zero denominator
    // instead of rounding through a division.
    let r = record(1, 0, vec![65000], 146800, vec![2000000]);
    let curve = summarize(&r).unwrap();
    assert_eq!(curve.points[0].amplitude.num, 535);
    assert_eq!(curve.points[0].amplitude.den, 0);
}
