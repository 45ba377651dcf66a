use r3data::model::{
    is_manual, source_label, DataPoint, PointSource, SavedDataPoint, SortOrder,
};

#[test]
fn saved_point_without_source_is_manual() {
    let d = DataPoint::from_saved(SavedDataPoint::JustPoint((1.5f64, 2.0f64)));
    assert_eq!(d.source, PointSource::Manual);
    assert_eq!(d.point, (1.5, 2.0));
}

#[test]
fn saved_point_keeps_its_source() {
    let d = DataPoint::from_saved(SavedDataPoint::WithSource {
        point: 7u32,
        source: PointSource::AutoTrace,
    });
    assert_eq!(d.source, PointSource::AutoTrace);
    assert_eq!(d.point, 7);
}

#[test]
fn source_labels() {
    assert_eq!(source_label(PointSource::Manual), "Manual");
    assert_eq!(source_label(PointSource::AutoTrace), "AutoTrace");
    assert!(is_manual(PointSource::Manual));
    assert!(!is_manual(PointSource::AutoTrace));
}

#[test]
fn sort_orders_differ() {
    assert_ne!(SortOrder::Unsorted, SortOrder::X);
    assert_ne!(SortOrder::X, SortOrder::Y);
}
