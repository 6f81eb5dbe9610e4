//! The calibration engine: validates a decoded trace and derives its
//! calibrated (distance, amplitude) curve.
//!
//! For sample index `i` with raw value `v`, the curve point is
//! `distance = i * data_spacing * c / (group_index * 1_000_000_000)` metres
//! and `amplitude = (65535 - v) / scale_factor`, where `c` is the vacuum
//! speed of light in metres per second. The denominator scale collects the
//! format's unit conventions: `data_spacing` is the time over a block of
//! 10,000 samples in 1e-10 second units, and `group_index` carries the
//! refractive index scaled by 100,000, so one sample step in metres is
//! `(data_spacing / 1e10 / 1e4) * (c * 1e5 / group_index)
//!  = data_spacing * c / (group_index * 1e9)`.

use vstd::prelude::*;

use crate::curve::{CalibratedCurve, CurvePoint, Rational, rat_lt, rat_pos};
use crate::trace::{DecodedTrace, TraceView};
use rayon::iter::{IndexedParallelIterator, IntoParallelIterator, ParallelIterator};

verus! {

/// Speed of light in vacuum, in metres per second.
pub const SPEED_OF_LIGHT_M_PER_S: i128 = 299792458;

/// Combined denominator scale of the distance formula; see the module
/// documentation for its derivation from the file format's unit conventions.
pub const DISTANCE_DEN_SCALE: i128 = 1_000_000_000;

/// Largest raw sample value; the file format stores amplitudes inverted, so
/// larger raw values mean lower signal level.
pub const RAW_SAMPLE_CEILING: i128 = 65535;

/// Why a trace record cannot be calibrated.
#[derive(Clone, Copy, PartialEq, Eq, Structural, Debug)]
pub enum CalibrationError {
    /// The record carries no trace sample data.
    MissingSamples,
    /// The record uses a number of scale factors other than exactly one;
    /// multi-segment trace reconstruction is deliberately unsupported.
    UnsupportedScaling,
    /// The record carries no fixed calibration parameters (group index and
    /// inter-sample spacing).
    MissingCalibration,
}

/// The validation outcome for a trace record, checked in order with the
/// first failure winning: sample data present, exactly one scale factor
/// used, a sample segment present, fixed parameters present, a spacing
/// value present.
pub open spec fn spec_validate(t: TraceView) -> Option<CalibrationError> {
    if t.data_points is None {
        Some(CalibrationError::MissingSamples)
    } else if t.data_points->Some_0.total_scale_factors_used != 1 {
        Some(CalibrationError::UnsupportedScaling)
    } else if t.data_points->Some_0.scale_factors.len() == 0 {
        Some(CalibrationError::MissingSamples)
    } else if t.fixed_parameters is None {
        Some(CalibrationError::MissingCalibration)
    } else if t.fixed_parameters->Some_0.data_spacing.len() == 0 {
        Some(CalibrationError::MissingCalibration)
    } else {
        None
    }
}

/// The single sample segment of a valid record.
pub open spec fn spec_segment(t: TraceView) -> crate::trace::ScaleFactorDataView
    recommends
        spec_validate(t) is None,
{
    t.data_points->Some_0.scale_factors[0]
}

/// The raw samples of a valid record: those of its single scale-factor
/// segment.
pub open spec fn spec_samples(t: TraceView) -> Seq<u16>
    recommends
        spec_validate(t) is None,
{
    spec_segment(t).samples
}

/// The scale factor of a valid record's single segment.
pub open spec fn spec_scale_factor(t: TraceView) -> i16
    recommends
        spec_validate(t) is None,
{
    spec_segment(t).scale_factor
}

/// The group index of a valid record.
pub open spec fn spec_group_index(t: TraceView) -> i32
    recommends
        spec_validate(t) is None,
{
    t.fixed_parameters->Some_0.group_index
}

/// The inter-sample spacing of a valid record: element 0 of the spacing
/// list.
pub open spec fn spec_data_spacing(t: TraceView) -> i32
    recommends
        spec_validate(t) is None,
{
    t.fixed_parameters->Some_0.data_spacing[0]
}

/// The curve point at index `i` carries exactly the integer products of the
/// calibration formula for the record `t`.
pub open spec fn point_matches(p: CurvePoint, t: TraceView, i: int) -> bool {
    &&& p.distance.num == i * (spec_data_spacing(t) as int) * (SPEED_OF_LIGHT_M_PER_S as int)
    &&& p.distance.den == (spec_group_index(t) as int) * (DISTANCE_DEN_SCALE as int)
    &&& p.amplitude.num == (RAW_SAMPLE_CEILING as int) - (spec_samples(t)[i] as int)
    &&& p.amplitude.den == spec_scale_factor(t) as int
}

/// The sequence `pts` is the calibrated curve of the record `t`: one point
/// per sample, index-aligned, each carrying the exact formula values.
pub open spec fn curve_matches(pts: Seq<CurvePoint>, t: TraceView) -> bool {
    &&& pts.len() == spec_samples(t).len()
    &&& forall|i: int| 0 <= i < pts.len() ==> point_matches(#[trigger] pts[i], t, i)
}

/// The calibrated curve of a valid record, as a function of the record
/// alone.
pub open spec fn spec_curve(t: TraceView) -> Seq<CurvePoint>
    recommends
        spec_validate(t) is None,
{
    Seq::new(
        spec_samples(t).len(),
        |i: int|
            CurvePoint {
                distance: Rational {
                    num: (i * (spec_data_spacing(t) as int) * (SPEED_OF_LIGHT_M_PER_S as int)) as i128,
                    den: ((spec_group_index(t) as int) * (DISTANCE_DEN_SCALE as int)) as i128,
                },
                amplitude: Rational {
                    num: ((RAW_SAMPLE_CEILING as int) - (spec_samples(t)[i] as int)) as i128,
                    den: spec_scale_factor(t) as i128,
                },
            },
    )
}

/// Relies on rayon's `zip_eq`, `map` and `collect` over indexed parallel
/// iterators: the two vectors are paired index by index, and collection
/// preserves index order regardless of execution order.
#[verifier::external_body]
fn pair_points(distances: Vec<Rational>, amplitudes: Vec<Rational>) -> (r: Vec<CurvePoint>)
    requires
        distances@.len() == amplitudes@.len(),
    ensures
        r@.len() == distances@.len(),
        forall|i: int|
            0 <= i < r@.len() ==> r@[i] == (CurvePoint {
                distance: distances@[i],
                amplitude: amplitudes@[i],
            }),
{
    distances
        .into_par_iter()
        .zip_eq(amplitudes.into_par_iter())
        .map(|(distance, amplitude)| CurvePoint { distance, amplitude })
        .collect()
}

/// Validates `record` and derives its calibrated curve.
///
/// On success the curve is exactly `spec_curve(record@)`: one point per raw
/// sample, index-aligned with the source samples, each carrying the exact
/// integer products of the calibration formula. On failure the error is
/// exactly the first validation failure. Validation failures are
/// deterministic and terminal for the input.
pub fn summarize(record: &DecodedTrace) -> (r: Result<CalibratedCurve, CalibrationError>)
    ensures
        match r {
            Ok(c) => spec_validate(record@) is None && curve_matches(c@, record@) && c@
                == spec_curve(record@),
            Err(e) => spec_validate(record@) == Some(e),
        },
{
    let dp = match &record.data_points {
        None => return Err(CalibrationError::MissingSamples),
        Some(d) => d,
    };
    if dp.total_scale_factors_used != 1 {
        return Err(CalibrationError::UnsupportedScaling);
    }
    if dp.scale_factors.len() == 0 {
        return Err(CalibrationError::MissingSamples);
    }
    let fp = match &record.fixed_parameters {
        None => return Err(CalibrationError::MissingCalibration),
        Some(f) => f,
    };
    if fp.data_spacing.len() == 0 {
        return Err(CalibrationError::MissingCalibration);
    }
    let segment = &dp.scale_factors[0];
    let scale_factor: i16 = segment.scale_factor;
    let group_index: i32 = fp.group_index;
    let data_spacing: i32 = fp.data_spacing[0];
    let n: usize = segment.samples.len();
    let distance_den: i128 = (group_index as i128) * DISTANCE_DEN_SCALE;
    let amplitude_den: i128 = scale_factor as i128;
    let mut distances: Vec<Rational> = Vec::new();
    let mut amplitudes: Vec<Rational> = Vec::new();
    let mut i: usize = 0;
    while i < n
        invariant
            i <= n,
            n == segment.samples@.len(),
            segment == &dp.scale_factors[0],
            spec_validate(record@) is None,
            segment@ == spec_segment(record@),
            distance_den == (group_index as int) * (DISTANCE_DEN_SCALE as int),
            amplitude_den == scale_factor as int,
            scale_factor == spec_scale_factor(record@),
            group_index == spec_group_index(record@),
            data_spacing == spec_data_spacing(record@),
            distances@.len() == i as int,
            amplitudes@.len() == i as int,
            forall|j: int|
                0 <= j < i ==> (#[trigger] distances@[j]) == (Rational {
                    num: (j * (data_spacing as int) * (SPEED_OF_LIGHT_M_PER_S as int)) as i128,
                    den: distance_den,
                }),
            forall|j: int|
                0 <= j < i ==> (#[trigger] amplitudes@[j]) == (Rational {
                    num: ((RAW_SAMPLE_CEILING as int) - (segment.samples@[j] as int)) as i128,
                    den: amplitude_den,
                }),
        decreases n - i,
    {
        let v: u16 = segment.samples[i];
        proof {
            lemma_distance_product_in_range(i as int, data_spacing as int);
        }
        let distance_num: i128 = (i as i128) * (data_spacing as i128) * SPEED_OF_LIGHT_M_PER_S;
        let amplitude_num: i128 = RAW_SAMPLE_CEILING - (v as i128);
        distances.push(Rational { num: distance_num, den: distance_den });
        amplitudes.push(Rational { num: amplitude_num, den: amplitude_den });
        i = i + 1;
    }
    let points = pair_points(distances, amplitudes);
    let c = CalibratedCurve { points };
    proof {
        assert(c@.len() == n as int);
        assert forall|j: int| 0 <= j < c@.len() implies point_matches(#[trigger] c@[j], record@, j)
            && c@[j] == spec_curve(record@)[j] by {
            lemma_distance_product_in_range(j, data_spacing as int);
            assert(c@[j].distance == distances@[j]);
            assert(c@[j].amplitude == amplitudes@[j]);
        }
        assert(c@ =~= spec_curve(record@));
    }
    Ok(c)
}

/// The product `i * data_spacing * c` of the distance formula stays far
/// inside the 128-bit range for any vector index `i`.
proof fn lemma_distance_product_in_range(i: int, ds: int)
    requires
        0 <= i <= usize::MAX,
        i32::MIN <= ds <= i32::MAX,
    ensures
        i128::MIN < i * ds * SPEED_OF_LIGHT_M_PER_S < i128::MAX,
        i128::MIN < i * ds < i128::MAX,
{
    assert(i128::MIN < i * ds * 299792458 < i128::MAX && i128::MIN < i * ds < i128::MAX)
        by (nonlinear_arith)
        requires
            0 <= i <= 0xFFFF_FFFF_FFFF_FFFFu64,
            -0x8000_0000 <= ds <= 0x7FFF_FFFF,
    ;
}

/// Repeated calibration of one record gives identical output: any two
/// results that satisfy `summarize`'s contract for the same record agree,
/// both on success and on failure.
pub proof fn lemma_summarize_deterministic(
    t: TraceView,
    r1: Result<CalibratedCurve, CalibrationError>,
    r2: Result<CalibratedCurve, CalibrationError>,
)
    requires
        summarize_post(t, r1),
        summarize_post(t, r2),
    ensures
        match (r1, r2) {
            (Ok(c1), Ok(c2)) => c1@ == c2@,
            (Err(e1), Err(e2)) => e1 == e2,
            _ => false,
        },
{
}

/// What `summarize` guarantees of its result; its `ensures` clause stated
/// as a predicate so that laws can quantify over results.
pub open spec fn summarize_post(t: TraceView, r: Result<CalibratedCurve, CalibrationError>) -> bool {
    match r {
        Ok(c) => spec_validate(t) is None && curve_matches(c@, t) && c@ == spec_curve(t),
        Err(e) => spec_validate(t) == Some(e),
    }
}

/// The per-sample distance step of a valid record, as an exact rational.
pub open spec fn spec_distance_per_sample(t: TraceView) -> Rational
    recommends
        spec_validate(t) is None,
{
    Rational {
        num: ((spec_data_spacing(t) as int) * (SPEED_OF_LIGHT_M_PER_S as int)) as i128,
        den: ((spec_group_index(t) as int) * (DISTANCE_DEN_SCALE as int)) as i128,
    }
}

/// Order preservation: whenever the per-sample distance step is positive,
/// the distances of a calibrated curve are strictly increasing in the
/// sample index.
pub proof fn lemma_distances_strictly_increasing(
    t: TraceView,
    c: CalibratedCurve,
    i: int,
    j: int,
)
    requires
        summarize_post(t, Ok(c)),
        rat_pos(spec_distance_per_sample(t)),
        0 <= i < j < c@.len(),
    ensures
        rat_lt(c@[i].distance, c@[j].distance),
{
    let ds = spec_data_spacing(t) as int;
    let gi = spec_group_index(t) as int;
    let sol = SPEED_OF_LIGHT_M_PER_S as int;
    let dden = DISTANCE_DEN_SCALE as int;
    let step_num = spec_distance_per_sample(t).num as int;
    let step_den = spec_distance_per_sample(t).den as int;
    assert(step_num == ds * sol && step_den == gi * dden) by {
        assert(i128::MIN < ds * sol < i128::MAX && i128::MIN < gi * dden < i128::MAX)
            by (nonlinear_arith)
            requires
                -0x8000_0000 <= ds <= 0x7FFF_FFFF,
                -0x8000_0000 <= gi <= 0x7FFF_FFFF,
                sol == 299792458,
                dden == 1_000_000_000,
        ;
    }
    assert(c@[i].distance.num == i * ds * sol && c@[i].distance.den == gi * dden);
    assert(c@[j].distance.num == j * ds * sol && c@[j].distance.den == gi * dden);
    assert((gi * dden) * (gi * dden) > 0 && (i * ds * sol) * (gi * dden) < (j * ds * sol) * (gi
        * dden)) by (nonlinear_arith)
        requires
            (ds * sol) * (gi * dden) > 0,
            0 <= i < j,
    ;
}

/// Rejection of multi-scale-factor records: a record whose sample data
/// declares any number of scale factors other than one is refused with
/// `UnsupportedScaling`, regardless of sample content.
pub proof fn lemma_multi_scale_factors_rejected(
    t: TraceView,
    r: Result<CalibratedCurve, CalibrationError>,
)
    requires
        summarize_post(t, r),
        t.data_points matches Some(dp) && dp.total_scale_factors_used != 1,
    ensures
        r matches Err(e) && e == CalibrationError::UnsupportedScaling,
{
}

} // verus!
