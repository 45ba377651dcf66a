use r3data::model::{DataPoint, PointSource};
use r3data::points::{
    add_manual_point, clear_points, manual_count, move_point, plan_trace, remove_point,
    retain_manual, selected_manual, undo_last_point, TracePlan,
};

fn pt(id: i32, source: PointSource) -> DataPoint<i32> {
    DataPoint { point: id, source }
}

fn ids(points: &[DataPoint<i32>]) -> Vec<i32> {
    points.iter().map(|d| d.point).collect()
}

#[test]
fn counts_manual_points() {
    let points = vec![
        pt(1, PointSource::Manual),
        pt(2, PointSource::AutoTrace),
        pt(3, PointSource::Manual),
    ];
    assert_eq!(manual_count(&points), 2);
    assert_eq!(manual_count(&Vec::<DataPoint<i32>>::new()), 0);
}

#[test]
fn plans_between_guides_with_two_manual_points() {
    let points = vec![pt(1, PointSource::Manual), pt(2, PointSource::Manual)];
    assert_eq!(plan_trace(&points, None), TracePlan::BetweenGuides);
}

#[test]
fn plans_rightward_from_single_selected_manual_point() {
    let points = vec![pt(1, PointSource::AutoTrace), pt(2, PointSource::Manual)];
    assert_eq!(plan_trace(&points, Some(1)), TracePlan::Rightward(1));
    assert_eq!(plan_trace(&points, Some(0)), TracePlan::NeedGuides);
    assert_eq!(plan_trace(&points, None), TracePlan::NeedGuides);
    assert_eq!(plan_trace(&points, Some(7)), TracePlan::NeedGuides);
}

#[test]
fn plans_nothing_without_manual_points() {
    let points = vec![pt(1, PointSource::AutoTrace)];
    assert_eq!(plan_trace(&points, Some(0)), TracePlan::NeedGuides);
}

#[test]
fn selected_manual_needs_a_manual_point_in_range() {
    let points = vec![pt(1, PointSource::Manual), pt(2, PointSource::AutoTrace)];
    assert_eq!(selected_manual(&points, Some(0)), Some(0));
    assert_eq!(selected_manual(&points, Some(1)), None);
    assert_eq!(selected_manual(&points, Some(2)), None);
    assert_eq!(selected_manual(&points, None), None);
}

#[test]
fn removing_a_point_keeps_the_selected_point_selected() {
    let mut points = vec![
        pt(10, PointSource::Manual),
        pt(20, PointSource::Manual),
        pt(30, PointSource::AutoTrace),
    ];
    let sel = remove_point(&mut points, Some(2), 0);
    assert_eq!(ids(&points), vec![20, 30]);
    assert_eq!(sel, Some(1));
    assert_eq!(points[1].point, 30);

    let sel = remove_point(&mut points, Some(0), 1);
    assert_eq!(ids(&points), vec![20]);
    assert_eq!(sel, Some(0));

    let sel = remove_point(&mut points, Some(0), 0);
    assert!(points.is_empty());
    assert_eq!(sel, None);
}

#[test]
fn removing_without_selection_keeps_no_selection() {
    let mut points = vec![pt(1, PointSource::Manual), pt(2, PointSource::Manual)];
    assert_eq!(remove_point(&mut points, None, 1), None);
    assert_eq!(ids(&points), vec![1]);
}

#[test]
fn undo_removes_last_point_and_clears_stale_selection() {
    let mut points = vec![pt(1, PointSource::Manual), pt(2, PointSource::Manual)];
    assert_eq!(undo_last_point(&mut points, Some(1)), None);
    assert_eq!(ids(&points), vec![1]);
    assert_eq!(undo_last_point(&mut points, Some(0)), None);
    assert!(points.is_empty());
    assert_eq!(undo_last_point(&mut points, None), None);
    assert!(points.is_empty());

    let mut points = vec![pt(1, PointSource::Manual), pt(2, PointSource::Manual)];
    assert_eq!(undo_last_point(&mut points, Some(0)), Some(0));
}

#[test]
fn clear_and_add() {
    let mut points = vec![pt(1, PointSource::AutoTrace)];
    assert_eq!(clear_points(&mut points), None);
    assert!(points.is_empty());
    assert_eq!(add_manual_point(&mut points, 5), Some(0));
    assert_eq!(add_manual_point(&mut points, 6), Some(1));
    assert_eq!(ids(&points), vec![5, 6]);
    assert_eq!(points[1].source, PointSource::Manual);
}

#[test]
fn move_point_keeps_source_and_ignores_stale_index() {
    let mut points = vec![pt(1, PointSource::AutoTrace)];
    move_point(&mut points, 0, 9);
    assert_eq!(points[0].point, 9);
    assert_eq!(points[0].source, PointSource::AutoTrace);
    move_point(&mut points, 3, 11);
    assert_eq!(ids(&points), vec![9]);
}

#[test]
fn retain_manual_keeps_manual_points_in_order() {
    let mut points = vec![
        pt(1, PointSource::AutoTrace),
        pt(2, PointSource::Manual),
        pt(3, PointSource::AutoTrace),
        pt(4, PointSource::Manual),
    ];
    retain_manual(&mut points);
    assert_eq!(ids(&points), vec![2, 4]);
    retain_manual(&mut points);
    assert_eq!(ids(&points), vec![2, 4]);
}
