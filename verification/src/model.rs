use vstd::prelude::*;

verus! {

/// What a drag on the canvas moves: one of the four calibration points, or a data point by
/// its index.
#[derive(Debug, Clone, Copy, PartialEq, Eq, Structural)]
pub enum DragTarget {
    X1,
    X2,
    Y1,
    Y2,
    DataPoint(usize),
}

/// Which calibration point the next click on the canvas places.
#[derive(Debug, Clone, Copy, PartialEq, Eq, Structural)]
pub enum PickTarget {
    X1,
    X2,
    Y1,
    Y2,
}

/// How extracted points are ordered for output: as placed (`Unsorted`), or by calibrated X
/// or Y value.
#[derive(Debug, Clone, Copy, PartialEq, Eq, Structural)]
pub enum SortOrder {
    Unsorted,
    X,
    Y,
}

/// Where a data point comes from: placed by hand, or found by the curve tracer.
#[derive(Debug, Clone, Copy, PartialEq, Eq, Structural)]
pub enum PointSource {
    Manual,
    AutoTrace,
}

/// The tab shown in the right-hand panel.
#[derive(Debug, Clone, Copy, PartialEq, Eq, Structural)]
pub enum RightTab {
    Points,
    Plot,
    KuvaPlot,
}

/// A data point on the image: its pixel position `point`, and where it came from.
#[derive(Debug, Clone, Copy)]
pub struct DataPoint<P> {
    pub point: P,
    pub source: PointSource,
}

/// A data point as a saved project holds it: with its source, or, in files written before
/// points had one, the position alone.
#[derive(Debug, Clone, Copy)]
pub enum SavedDataPoint<P> {
    WithSource { point: P, source: PointSource },
    JustPoint(P),
}

/// The data point that a saved point stands for; a point saved without a source was placed
/// by hand.
pub open spec fn spec_from_saved<P>(saved: SavedDataPoint<P>) -> DataPoint<P> {
    match saved {
        SavedDataPoint::WithSource { point, source } => DataPoint { point, source },
        SavedDataPoint::JustPoint(point) => DataPoint { point, source: PointSource::Manual },
    }
}

impl<P> DataPoint<P> {
    /// The data point that a saved point stands for; a point saved without a source was
    /// placed by hand.
    pub fn from_saved(saved: SavedDataPoint<P>) -> (d: DataPoint<P>)
        ensures
            d == spec_from_saved(saved),
    {
        match saved {
            SavedDataPoint::WithSource { point, source } => DataPoint { point, source },
            SavedDataPoint::JustPoint(point) => DataPoint { point, source: PointSource::Manual },
        }
    }
}

/// Whether a point was placed by hand.
pub fn is_manual(source: PointSource) -> (b: bool)
    ensures
        b == (source == PointSource::Manual),
{
    match source {
        PointSource::Manual => true,
        PointSource::AutoTrace => false,
    }
}

/// The name under which a point's source is written out.
pub fn source_label(source: PointSource) -> (s: &'static str)
    ensures
        source == PointSource::Manual ==> s@ == "Manual"@,
        source == PointSource::AutoTrace ==> s@ == "AutoTrace"@,
{
    match source {
        PointSource::Manual => "Manual",
        PointSource::AutoTrace => "AutoTrace",
    }
}

} // verus!
