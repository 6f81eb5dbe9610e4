//! The decoded-trace data model: the fields of an OTDR trace file that the
//! calibration engine reads, held as plain values.
//!
//! A trace file is decoded externally; what arrives here is the subset of the
//! decoded record that calibration depends on. Both block groups are optional
//! because the file format does not guarantee their presence, and their
//! absence is a distinct, reportable failure.

use vstd::prelude::*;

verus! {

/// One scale-factor segment of a trace: the fixed-point scale factor (the
/// file format stores 1000 times the factor) and the raw sixteen-bit
/// samples recorded under it.
pub struct ScaleFactorData {
    pub scale_factor: i16,
    pub samples: Vec<u16>,
}

/// The mathematical content of a [`ScaleFactorData`] value.
pub struct ScaleFactorDataView {
    pub scale_factor: i16,
    pub samples: Seq<u16>,
}

impl View for ScaleFactorData {
    type V = ScaleFactorDataView;

    open spec fn view(&self) -> ScaleFactorDataView {
        ScaleFactorDataView { scale_factor: self.scale_factor, samples: self.samples@ }
    }
}

/// The sample data of a trace: how many scale factors the file declares it
/// uses, and one segment of samples per scale factor.
pub struct SampleData {
    pub total_scale_factors_used: i16,
    pub scale_factors: Vec<ScaleFactorData>,
}

/// The mathematical content of a [`SampleData`] value.
pub struct SampleDataView {
    pub total_scale_factors_used: i16,
    pub scale_factors: Seq<ScaleFactorDataView>,
}

impl View for SampleData {
    type V = SampleDataView;

    open spec fn view(&self) -> SampleDataView {
        SampleDataView {
            total_scale_factors_used: self.total_scale_factors_used,
            scale_factors: self.scale_factors@.map_values(|b: ScaleFactorData| b@),
        }
    }
}

/// The fixed calibration parameters of a trace: the fibre's group refractive
/// index scaled by 100,000, and the inter-sample time spacings, each in units
/// of 1e-10 seconds over a block of 10,000 samples.
pub struct CalibrationParameters {
    pub group_index: i32,
    pub data_spacing: Vec<i32>,
}

/// The mathematical content of a [`CalibrationParameters`] value.
pub struct CalibrationParametersView {
    pub group_index: i32,
    pub data_spacing: Seq<i32>,
}

impl View for CalibrationParameters {
    type V = CalibrationParametersView;

    open spec fn view(&self) -> CalibrationParametersView {
        CalibrationParametersView {
            group_index: self.group_index,
            data_spacing: self.data_spacing@,
        }
    }
}

/// A decoded trace record, immutable once produced by the decoder.
pub struct DecodedTrace {
    pub data_points: Option<SampleData>,
    pub fixed_parameters: Option<CalibrationParameters>,
}

/// The mathematical content of a [`DecodedTrace`] value.
pub struct TraceView {
    pub data_points: Option<SampleDataView>,
    pub fixed_parameters: Option<CalibrationParametersView>,
}

impl View for DecodedTrace {
    type V = TraceView;

    open spec fn view(&self) -> TraceView {
        TraceView {
            data_points: match self.data_points {
                Some(ref d) => Some(d@),
                None => None,
            },
            fixed_parameters: match self.fixed_parameters {
                Some(ref f) => Some(f@),
                None => None,
            },
        }
    }
}

fn copy_u16s(v: &Vec<u16>) -> (r: Vec<u16>)
    ensures
        r@ == v@,
{
    let mut out: Vec<u16> = Vec::new();
    let mut i: usize = 0;
    while i < v.len()
        invariant
            i <= v.len(),
            out@ == v@.take(i as int),
        decreases v.len() - i,
    {
        out.push(v[i]);
        proof {
            assert(out@ =~= v@.take(i + 1));
        }
        i = i + 1;
    }
    proof {
        assert(v@.take(v@.len() as int) =~= v@);
    }
    out
}

fn copy_i32s(v: &Vec<i32>) -> (r: Vec<i32>)
    ensures
        r@ == v@,
{
    let mut out: Vec<i32> = Vec::new();
    let mut i: usize = 0;
    while i < v.len()
        invariant
            i <= v.len(),
            out@ == v@.take(i as int),
        decreases v.len() - i,
    {
        out.push(v[i]);
        proof {
            assert(out@ =~= v@.take(i + 1));
        }
        i = i + 1;
    }
    proof {
        assert(v@.take(v@.len() as int) =~= v@);
    }
    out
}

impl Clone for ScaleFactorData {
    fn clone(&self) -> (r: Self)
        ensures
            r@ == self@,
    {
        ScaleFactorData { scale_factor: self.scale_factor, samples: copy_u16s(&self.samples) }
    }
}

impl Clone for SampleData {
    fn clone(&self) -> (r: Self)
        ensures
            r@ == self@,
    {
        let mut blocks: Vec<ScaleFactorData> = Vec::new();
        let mut i: usize = 0;
        while i < self.scale_factors.len()
            invariant
                i <= self.scale_factors.len(),
                blocks@.len() == i as int,
                forall|j: int| 0 <= j < i ==> (#[trigger] blocks@[j])@ == self.scale_factors@[j]@,
            decreases self.scale_factors.len() - i,
        {
            blocks.push(self.scale_factors[i].clone());
            i = i + 1;
        }
        let r = SampleData {
            total_scale_factors_used: self.total_scale_factors_used,
            scale_factors: blocks,
        };
        proof {
            assert(r@.scale_factors =~= self@.scale_factors);
        }
        r
    }
}

impl Clone for CalibrationParameters {
    fn clone(&self) -> (r: Self)
        ensures
            r@ == self@,
    {
        CalibrationParameters {
            group_index: self.group_index,
            data_spacing: copy_i32s(&self.data_spacing),
        }
    }
}

impl Clone for DecodedTrace {
    fn clone(&self) -> (r: Self)
        ensures
            r@ == self@,
    {
        DecodedTrace {
            data_points: match &self.data_points {
                Some(d) => Some(d.clone()),
                None => None,
            },
            fixed_parameters: match &self.fixed_parameters {
                Some(f) => Some(f.clone()),
                None => None,
            },
        }
    }
}

} // verus!
