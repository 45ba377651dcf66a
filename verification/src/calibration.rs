use vstd::prelude::*;

use crate::model::{DataPoint, DragTarget, PickTarget};
use crate::points::move_point;

verus! {

/// A reference point of an axis: where it lies on the image, and the axis value it stands
/// for; either may still be unset.
#[derive(Debug, Clone, Copy)]
pub struct CalibrationPoint<P, V> {
    pub pixel: Option<P>,
    pub value: Option<V>,
}

/// The axis calibration of a plot image: two reference points for X, two for Y, and whether
/// each axis is logarithmic. `P` is a pixel position, `V` an axis value.
#[derive(Debug, Clone, Copy)]
pub struct Calibration<P, V> {
    pub x1: CalibrationPoint<P, V>,
    pub x2: CalibrationPoint<P, V>,
    pub y1: CalibrationPoint<P, V>,
    pub y2: CalibrationPoint<P, V>,
    pub x_log: bool,
    pub y_log: bool,
}

/// A reference point with neither position nor value.
pub open spec fn unset_point<P, V>() -> CalibrationPoint<P, V> {
    CalibrationPoint { pixel: None, value: None }
}

/// Whether a reference point has both its position and its value.
pub open spec fn point_complete<P, V>(p: CalibrationPoint<P, V>) -> bool {
    p.pixel is Some && p.value is Some
}

impl<P, V> Calibration<P, V> {
    /// Whether all four reference points have both a position and a value.
    pub open spec fn spec_fully_configured(&self) -> bool {
        &&& point_complete(self.x1)
        &&& point_complete(self.x2)
        &&& point_complete(self.y1)
        &&& point_complete(self.y2)
    }

    /// The reference point that `target` names.
    pub open spec fn point_of(&self, target: PickTarget) -> CalibrationPoint<P, V> {
        match target {
            PickTarget::X1 => self.x1,
            PickTarget::X2 => self.x2,
            PickTarget::Y1 => self.y1,
            PickTarget::Y2 => self.y2,
        }
    }

    /// This calibration with the reference point that `target` names replaced by `p`.
    pub open spec fn with_point(self, target: PickTarget, p: CalibrationPoint<P, V>) -> Self {
        match target {
            PickTarget::X1 => Calibration { x1: p, ..self },
            PickTarget::X2 => Calibration { x2: p, ..self },
            PickTarget::Y1 => Calibration { y1: p, ..self },
            PickTarget::Y2 => Calibration { y2: p, ..self },
        }
    }

    /// An empty calibration: no reference point set, both axes linear.
    pub open spec fn spec_unset() -> Self {
        Calibration {
            x1: unset_point(),
            x2: unset_point(),
            y1: unset_point(),
            y2: unset_point(),
            x_log: false,
            y_log: false,
        }
    }

    /// An empty calibration: no reference point set, both axes linear.
    pub fn unset() -> (c: Self)
        ensures
            c == Self::spec_unset(),
            !c.spec_fully_configured(),
    {
        Calibration {
            x1: CalibrationPoint { pixel: None, value: None },
            x2: CalibrationPoint { pixel: None, value: None },
            y1: CalibrationPoint { pixel: None, value: None },
            y2: CalibrationPoint { pixel: None, value: None },
            x_log: false,
            y_log: false,
        }
    }

    /// Whether all four reference points have both a position and a value.
    pub fn is_fully_configured(&self) -> (b: bool)
        ensures
            b == self.spec_fully_configured(),
            b <==> (self.x1.pixel is Some && self.x1.value is Some && self.x2.pixel is Some
                && self.x2.value is Some && self.y1.pixel is Some && self.y1.value is Some
                && self.y2.pixel is Some && self.y2.value is Some),
    {
        self.x1.pixel.is_some() && self.x1.value.is_some() && self.x2.pixel.is_some()
            && self.x2.value.is_some() && self.y1.pixel.is_some() && self.y1.value.is_some()
            && self.y2.pixel.is_some() && self.y2.value.is_some()
    }

    /// Places the reference point that `target` names at `pixel`, keeping its value.
    pub fn set_pixel(&mut self, target: PickTarget, pixel: P)
        ensures
            *final(self) == old(self).with_point(
                target,
                CalibrationPoint { pixel: Some(pixel), value: old(self).point_of(target).value },
            ),
    {
        match target {
            PickTarget::X1 => {
                self.x1.pixel = Some(pixel);
            },
            PickTarget::X2 => {
                self.x2.pixel = Some(pixel);
            },
            PickTarget::Y1 => {
                self.y1.pixel = Some(pixel);
            },
            PickTarget::Y2 => {
                self.y2.pixel = Some(pixel);
            },
        }
    }

    /// Gives the reference point that `target` names the axis value `value`, keeping its
    /// position.
    pub fn set_value(&mut self, target: PickTarget, value: V)
        ensures
            *final(self) == old(self).with_point(
                target,
                CalibrationPoint { pixel: old(self).point_of(target).pixel, value: Some(value) },
            ),
    {
        match target {
            PickTarget::X1 => {
                self.x1.value = Some(value);
            },
            PickTarget::X2 => {
                self.x2.value = Some(value);
            },
            PickTarget::Y1 => {
                self.y1.value = Some(value);
            },
            PickTarget::Y2 => {
                self.y2.value = Some(value);
            },
        }
    }
}

impl<P, V> Default for Calibration<P, V> {
    /// An empty calibration: no reference point set, both axes linear.
    fn default() -> (c: Self)
        ensures
            c == Self::spec_unset(),
    {
        Self::unset()
    }
}

/// Replacing the reference point that a pick target names changes that point alone: X1, X2, Y1
/// and Y2 name the fields `x1`, `x2`, `y1` and `y2`, and the others and both log flags keep
/// their values.
pub proof fn lemma_with_point_fields<P, V>(
    c: Calibration<P, V>,
    target: PickTarget,
    p: CalibrationPoint<P, V>,
)
    ensures
        c.with_point(target, p).x1 == (if target == PickTarget::X1 { p } else { c.x1 }),
        c.with_point(target, p).x2 == (if target == PickTarget::X2 { p } else { c.x2 }),
        c.with_point(target, p).y1 == (if target == PickTarget::Y1 { p } else { c.y1 }),
        c.with_point(target, p).y2 == (if target == PickTarget::Y2 { p } else { c.y2 }),
        c.with_point(target, p).x_log == c.x_log,
        c.with_point(target, p).y_log == c.y_log,
        target == PickTarget::X1 ==> c.point_of(target) == c.x1,
        target == PickTarget::X2 ==> c.point_of(target) == c.x2,
        target == PickTarget::Y1 ==> c.point_of(target) == c.y1,
        target == PickTarget::Y2 ==> c.point_of(target) == c.y2,
{
}

/// A calibration is fully configured exactly when each of its four reference points has both
/// a position on the image and an axis value.
pub proof fn lemma_fully_configured_fields<P, V>(c: Calibration<P, V>)
    ensures
        c.spec_fully_configured() <==> (c.x1.pixel is Some && c.x1.value is Some && c.x2.pixel
            is Some && c.x2.value is Some && c.y1.pixel is Some && c.y1.value is Some
            && c.y2.pixel is Some && c.y2.value is Some),
{
}

/// Once a position and a value are given to each reference point, the calibration is fully
/// configured, whatever it was before.
pub proof fn lemma_configure_all<P, V>(c: Calibration<P, V>, px: Seq<P>, vals: Seq<V>)
    requires
        px.len() == 4,
        vals.len() == 4,
    ensures
        c.with_point(PickTarget::X1, CalibrationPoint { pixel: Some(px[0]), value: Some(vals[0]) })
            .with_point(PickTarget::X2, CalibrationPoint { pixel: Some(px[1]), value: Some(vals[1]) })
            .with_point(PickTarget::Y1, CalibrationPoint { pixel: Some(px[2]), value: Some(vals[2]) })
            .with_point(PickTarget::Y2, CalibrationPoint { pixel: Some(px[3]), value: Some(vals[3]) })
            .spec_fully_configured(),
{
}

/// The pick target after the pick button of `target` is pressed: pressing the active one
/// turns picking off, any other makes it the active one.
pub fn toggle_pick(active: Option<PickTarget>, target: PickTarget) -> (r: Option<PickTarget>)
    ensures
        r == if active == Some(target) {
            None::<PickTarget>
        } else {
            Some(target)
        },
{
    if active == Some(target) {
        None
    } else {
        Some(target)
    }
}

/// Moves what a drag holds to `pixel`: a calibration point, or the data point at the dragged
/// index when it still exists.
pub fn apply_drag<P, V>(
    target: DragTarget,
    calibration: &mut Calibration<P, V>,
    points: &mut Vec<DataPoint<P>>,
    pixel: P,
)
    ensures
        target is DataPoint ==> *final(calibration) == *old(calibration),
        target is X1 ==> *final(calibration) == old(calibration).with_point(
            PickTarget::X1,
            CalibrationPoint { pixel: Some(pixel), value: old(calibration).x1.value },
        ),
        target is X2 ==> *final(calibration) == old(calibration).with_point(
            PickTarget::X2,
            CalibrationPoint { pixel: Some(pixel), value: old(calibration).x2.value },
        ),
        target is Y1 ==> *final(calibration) == old(calibration).with_point(
            PickTarget::Y1,
            CalibrationPoint { pixel: Some(pixel), value: old(calibration).y1.value },
        ),
        target is Y2 ==> *final(calibration) == old(calibration).with_point(
            PickTarget::Y2,
            CalibrationPoint { pixel: Some(pixel), value: old(calibration).y2.value },
        ),
        !(target is DataPoint) ==> final(points)@ == old(points)@,
        forall|idx: usize|
            target == DragTarget::DataPoint(idx) && idx < old(points)@.len() ==> final(points)@
                == old(points)@.update(
                idx as int,
                DataPoint { point: pixel, source: old(points)@[idx as int].source },
            ),
        forall|idx: usize|
            target == DragTarget::DataPoint(idx) && idx >= old(points)@.len() ==> final(points)@
                == old(points)@,
{
    match target {
        DragTarget::X1 => calibration.set_pixel(PickTarget::X1, pixel),
        DragTarget::X2 => calibration.set_pixel(PickTarget::X2, pixel),
        DragTarget::Y1 => calibration.set_pixel(PickTarget::Y1, pixel),
        DragTarget::Y2 => calibration.set_pixel(PickTarget::Y2, pixel),
        DragTarget::DataPoint(idx) => move_point(points, idx, pixel),
    }
}

} // verus!
