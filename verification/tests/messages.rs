use r3data::model::{DataPoint, PointSource};
use r3data::text::{
    between_guides_message, image_error_message, need_guides_message, numbered_text,
    push_decimal, rightward_message, selected_point_message, trace_badge,
};

#[test]
fn decimal_notation() {
    let mut s = String::new();
    push_decimal(&mut s, 0);
    assert_eq!(s, "0");
    let mut s = String::from("n=");
    push_decimal(&mut s, 1207);
    assert_eq!(s, "n=1207");
    let mut s = String::new();
    push_decimal(&mut s, u64::MAX);
    assert_eq!(s, u64::MAX.to_string());
    assert_eq!(numbered_text("a", 10, "b"), "a10b");
}

#[test]
fn trace_messages() {
    assert_eq!(
        need_guides_message(),
        "Place 2+ manual points or select 1 manual point to enable auto tracing"
    );
    assert_eq!(between_guides_message(12), "Auto-extracted 12 points between manual guides!");
    assert_eq!(
        rightward_message(0),
        "Auto-extracted 0 points to the right starting from color center!"
    );
}

#[test]
fn status_messages() {
    assert_eq!(selected_point_message(0), "Selected point #1");
    assert_eq!(selected_point_message(41), "Selected point #42");
    assert_eq!(image_error_message("bad file"), "Error loading image: bad file");
}

#[test]
fn trace_badges() {
    let two = vec![
        DataPoint { point: 0u8, source: PointSource::Manual },
        DataPoint { point: 1u8, source: PointSource::AutoTrace },
        DataPoint { point: 2u8, source: PointSource::Manual },
    ];
    assert_eq!(
        trace_badge(&two, None),
        (true, "Found 2 manual guides. Ready to trace between them.".to_string())
    );
    let one = vec![
        DataPoint { point: 1u8, source: PointSource::AutoTrace },
        DataPoint { point: 2u8, source: PointSource::Manual },
    ];
    assert_eq!(
        trace_badge(&one, Some(1)),
        (true, "Point #2 selected. Ready to trace rightward.".to_string())
    );
    assert_eq!(
        trace_badge(&one, Some(0)),
        (
            false,
            "Place 2+ manual points (or select 1 manual point) to enable auto tracing".to_string()
        )
    );
}
