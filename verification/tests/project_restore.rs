use r3data::model::{RightTab, SortOrder};
use r3data::calibration::Calibration;
use r3data::model::{DataPoint, PickTarget, PointSource};
use r3data::project::{
    apply_project_data, last_project_pointer_in, project_path_from_pointer, restore_setting,
    restored_input_text, ProjectState, SavedProject,
};

#[test]
fn saved_settings_replace_current_ones() {
    assert_eq!(restore_setting(SortOrder::X, Some(SortOrder::Y)), SortOrder::Y);
    assert_eq!(restore_setting(SortOrder::X, None), SortOrder::X);
    assert_eq!(restore_setting(RightTab::Plot, Some(RightTab::Points)), RightTab::Points);
    assert!(!restore_setting(true, Some(false)));
}

#[test]
fn input_text_falls_back_to_the_value() {
    assert_eq!(restored_input_text(Some("1e3".to_string()), Some("1000".to_string())), "1e3");
    assert_eq!(restored_input_text(None, Some("1000".to_string())), "1000");
    assert_eq!(restored_input_text(None, None), "");
}

#[test]
fn pointer_file_lives_in_home() {
    assert_eq!(last_project_pointer_in("/home/ada"), "/home/ada/.r3data_last_project");
}

#[test]
fn pointer_contents_are_trimmed() {
    assert_eq!(project_path_from_pointer("  /tmp/p.r3data\n"), "/tmp/p.r3data");
    assert_eq!(project_path_from_pointer("\t\u{3000}"), "");
    assert_eq!(project_path_from_pointer("a b"), "a b");
}

type State = ProjectState<(i32, i32), f64, f32, &'static str>;
type Saved = SavedProject<(i32, i32), f64, f32>;

fn state() -> State {
    ProjectState {
        image_path: Some("old.png".to_string()),
        image_size: Some((10, 10)),
        image_data_url: Some("data:old".to_string()),
        raw_image: Some("old pixels"),
        calibration: Calibration::unset(),
        points: vec![],
        zoom_factor: 0.8,
        pan_offset: (50, 50),
        sort_order: SortOrder::X,
        include_errors: false,
        connect_lines: true,
        marker_size: 4.5,
        auto_trace_step: 5.0,
        auto_trace_tol: 1.0,
        right_tab: RightTab::Plot,
        x_label: "X".to_string(),
        y_label: "Y".to_string(),
        x1_input: "a".to_string(),
        x2_input: "b".to_string(),
        y1_input: "c".to_string(),
        y2_input: "d".to_string(),
    }
}

fn saved(image_path: Option<&str>) -> Saved {
    let mut calibration = Calibration::unset();
    calibration.set_value(PickTarget::X1, 2.0);
    SavedProject {
        image_path: image_path.map(|p| p.to_string()),
        calibration,
        points: vec![DataPoint { point: (3, 4), source: PointSource::Manual }],
        x_label: "time".to_string(),
        y_label: "speed".to_string(),
        zoom_factor: Some(2.0),
        pan_offset: None,
        sort_order: Some(SortOrder::Unsorted),
        include_errors: None,
        connect_lines: Some(false),
        marker_size: None,
        auto_trace_step: Some(9.0),
        auto_trace_tol: None,
        right_tab: None,
        x1_input: None,
        x2_input: Some("ten".to_string()),
        y1_input: None,
        y2_input: None,
    }
}

fn texts() -> (Option<String>, Option<String>, Option<String>, Option<String>) {
    (Some("2".to_string()), None, None, None)
}

#[test]
fn applying_a_project_replaces_data_and_restores_settings() {
    let mut st = state();
    let img = Some(Ok(("data:new".to_string(), (3, 2), "new pixels")));
    let err = apply_project_data(&mut st, saved(Some("new.png")), img, texts());
    assert_eq!(err, None);
    assert_eq!(st.image_path.as_deref(), Some("new.png"));
    assert_eq!(st.image_size, Some((3, 2)));
    assert_eq!(st.image_data_url.as_deref(), Some("data:new"));
    assert_eq!(st.raw_image, Some("new pixels"));
    assert_eq!(st.calibration.x1.value, Some(2.0));
    assert_eq!(st.points.len(), 1);
    assert_eq!((st.x_label.as_str(), st.y_label.as_str()), ("time", "speed"));
    assert_eq!(st.zoom_factor, 2.0);
    assert_eq!(st.pan_offset, (50, 50));
    assert_eq!(st.sort_order, SortOrder::Unsorted);
    assert!(!st.include_errors);
    assert!(!st.connect_lines);
    assert_eq!(st.marker_size, 4.5);
    assert_eq!(st.auto_trace_step, 9.0);
    assert_eq!(st.auto_trace_tol, 1.0);
    assert_eq!(st.right_tab, RightTab::Plot);
    assert_eq!(st.x1_input, "2");
    assert_eq!(st.x2_input, "ten");
    assert_eq!(st.y1_input, "");
}

#[test]
fn applying_a_project_without_image_clears_it() {
    let mut st = state();
    assert_eq!(apply_project_data(&mut st, saved(None), None, texts()), None);
    assert!(st.image_path.is_none() && st.image_size.is_none());
    assert!(st.image_data_url.is_none() && st.raw_image.is_none());
}

#[test]
fn a_failed_image_load_keeps_the_image_and_reports() {
    let mut st = state();
    let err = apply_project_data(&mut st, saved(Some("gone.png")), Some(Err("no such file".to_string())), texts());
    assert_eq!(err.as_deref(), Some("Error loading image: no such file"));
    assert_eq!(st.image_path.as_deref(), Some("old.png"));
    assert_eq!(st.raw_image, Some("old pixels"));
    assert_eq!(st.x_label, "time");
}
