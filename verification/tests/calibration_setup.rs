use r3data::calibration::{apply_drag, toggle_pick, Calibration};
use r3data::model::{DataPoint, DragTarget, PickTarget, PointSource};

type Cal = Calibration<(i32, i32), f64>;

#[test]
fn default_calibration_is_empty() {
    let cal: Cal = Calibration::default();
    assert!(!cal.is_fully_configured());
    assert!(cal.x1.pixel.is_none() && cal.y2.value.is_none());
    assert!(!cal.x_log && !cal.y_log);
}

#[test]
fn setting_all_points_configures_the_calibration() {
    let mut cal: Cal = Calibration::unset();
    let targets = [PickTarget::X1, PickTarget::X2, PickTarget::Y1, PickTarget::Y2];
    for (i, t) in targets.iter().enumerate() {
        cal.set_pixel(*t, (i as i32, 0));
        assert!(!cal.is_fully_configured());
    }
    for (i, t) in targets.iter().enumerate() {
        assert!(!cal.is_fully_configured());
        cal.set_value(*t, i as f64);
    }
    assert!(cal.is_fully_configured());
    assert_eq!(cal.x2.pixel, Some((1, 0)));
    assert_eq!(cal.y1.value, Some(2.0));
}

#[test]
fn pick_toggles() {
    assert_eq!(toggle_pick(None, PickTarget::X1), Some(PickTarget::X1));
    assert_eq!(toggle_pick(Some(PickTarget::X1), PickTarget::X1), None);
    assert_eq!(toggle_pick(Some(PickTarget::Y2), PickTarget::X1), Some(PickTarget::X1));
}

#[test]
fn drag_moves_calibration_point_or_data_point() {
    let mut cal: Cal = Calibration::unset();
    cal.set_value(PickTarget::Y1, 5.0);
    let mut points = vec![DataPoint { point: (1, 1), source: PointSource::AutoTrace }];
    apply_drag(DragTarget::Y1, &mut cal, &mut points, (7, 8));
    assert_eq!(cal.y1.pixel, Some((7, 8)));
    assert_eq!(cal.y1.value, Some(5.0));
    assert_eq!(points[0].point, (1, 1));
    apply_drag(DragTarget::DataPoint(0), &mut cal, &mut points, (3, 4));
    assert_eq!(points[0].point, (3, 4));
    assert_eq!(points[0].source, PointSource::AutoTrace);
    apply_drag(DragTarget::DataPoint(5), &mut cal, &mut points, (9, 9));
    assert_eq!(points.len(), 1);
    assert_eq!(points[0].point, (3, 4));
}
