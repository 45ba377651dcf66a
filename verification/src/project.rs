use vstd::prelude::*;

use crate::calibration::Calibration;
use crate::model::{DataPoint, RightTab, SortOrder};
use crate::text::{image_error_message, joined_text};

verus! {

/// The value a setting has after a project is loaded: the saved one when the project holds
/// it, the current one otherwise (projects written by older versions lack some settings).
pub open spec fn restored<T>(current: T, saved: Option<T>) -> T {
    match saved {
        Some(v) => v,
        None => current,
    }
}

/// The value a setting has after a project is loaded: the saved one when the project holds
/// it, the current one otherwise.
pub fn restore_setting<T>(current: T, saved: Option<T>) -> (r: T)
    ensures
        r == restored(current, saved),
{
    match saved {
        Some(v) => v,
        None => current,
    }
}

/// The text of a calibration value's input box after a project is loaded: the saved text
/// when the project holds it, else the text of the calibration value, else nothing.
pub open spec fn restored_text(saved: Option<String>, value_text: Option<String>) -> Seq<char> {
    match saved {
        Some(s) => s@,
        None => match value_text {
            Some(v) => v@,
            None => Seq::<char>::empty(),
        },
    }
}

/// The text of a calibration value's input box after a project is loaded: the saved text
/// when the project holds it, else the text of the calibration value, else nothing.
pub fn restored_input_text(saved: Option<String>, value_text: Option<String>) -> (r: String)
    ensures
        r@ == restored_text(saved, value_text),
{
    match saved {
        Some(s) => s,
        None => match value_text {
            Some(v) => v,
            None => String::new(),
        },
    }
}

/// The name of the file, in the home directory, that remembers the last project.
pub open spec fn pointer_file_name() -> Seq<char> {
    "/.r3data_last_project"@
}

/// The path of the file that remembers the last opened or saved project, in the home
/// directory `home`.
pub fn last_project_pointer_in(home: &str) -> (path: String)
    ensures
        path@ == home@ + pointer_file_name(),
{
    joined_text(home, "/.r3data_last_project")
}

/// Whether `c` has the Unicode `White_Space` property: tab, line feed, vertical tab, form
/// feed, carriage return, space, next line, no-break space, ogham space mark, the spaces
/// U+2000 to U+200A, line and paragraph separators, narrow no-break space, medium
/// mathematical space and ideographic space.
pub open spec fn unicode_white_space(c: char) -> bool {
    let v = c as int;
    ||| 9 <= v <= 13
    ||| v == 32
    ||| v == 0x85
    ||| v == 0xa0
    ||| v == 0x1680
    ||| 0x2000 <= v <= 0x200a
    ||| v == 0x2028
    ||| v == 0x2029
    ||| v == 0x202f
    ||| v == 0x205f
    ||| v == 0x3000
}

/// `s` without its leading whitespace.
pub open spec fn trim_start(s: Seq<char>) -> Seq<char>
    decreases s.len(),
{
    if s.len() > 0 && unicode_white_space(s[0]) {
        trim_start(s.drop_first())
    } else {
        s
    }
}

/// `s` without its trailing whitespace.
pub open spec fn trim_end(s: Seq<char>) -> Seq<char>
    decreases s.len(),
{
    if s.len() > 0 && unicode_white_space(s.last()) {
        trim_end(s.drop_last())
    } else {
        s
    }
}

/// `s` without its leading and trailing whitespace.
pub open spec fn trimmed(s: Seq<char>) -> Seq<char> {
    trim_end(trim_start(s))
}

/// `s` without its leading and trailing whitespace.
/// Trusted: `str::trim`, then `to_string`; its documentation removes the leading and
/// trailing characters with the Unicode `White_Space` property, which is [`trimmed`].
#[verifier::external_body]
fn trim_text(s: &str) -> (r: String)
    ensures
        r@ == trimmed(s@),
{
    s.trim().to_string()
}

/// The project path that the pointer file's contents name: the contents without surrounding
/// whitespace.
pub fn project_path_from_pointer(contents: &str) -> (path: String)
    ensures
        path@ == trimmed(contents@),
{
    trim_text(contents)
}


/// What a saved project can restore of the app's state: the image, the calibration, the
/// points, the view and output settings, the axis labels and the calibration input texts.
/// `P` is a pixel position, `V` an axis value, `S` a view scalar, `I` a decoded image.
pub struct ProjectState<P, V, S, I> {
    pub image_path: Option<String>,
    pub image_size: Option<(u32, u32)>,
    pub image_data_url: Option<String>,
    pub raw_image: Option<I>,
    pub calibration: Calibration<P, V>,
    pub points: Vec<DataPoint<P>>,
    pub zoom_factor: S,
    pub pan_offset: P,
    pub sort_order: SortOrder,
    pub include_errors: bool,
    pub connect_lines: bool,
    pub marker_size: S,
    pub auto_trace_step: S,
    pub auto_trace_tol: S,
    pub right_tab: RightTab,
    pub x_label: String,
    pub y_label: String,
    pub x1_input: String,
    pub x2_input: String,
    pub y1_input: String,
    pub y2_input: String,
}

/// A saved project. Settings and input texts are optional: files written by older versions
/// lack them.
pub struct SavedProject<P, V, S> {
    pub image_path: Option<String>,
    pub calibration: Calibration<P, V>,
    pub points: Vec<DataPoint<P>>,
    pub x_label: String,
    pub y_label: String,
    pub zoom_factor: Option<S>,
    pub pan_offset: Option<P>,
    pub sort_order: Option<SortOrder>,
    pub include_errors: Option<bool>,
    pub connect_lines: Option<bool>,
    pub marker_size: Option<S>,
    pub auto_trace_step: Option<S>,
    pub auto_trace_tol: Option<S>,
    pub right_tab: Option<RightTab>,
    pub x1_input: Option<String>,
    pub x2_input: Option<String>,
    pub y1_input: Option<String>,
    pub y2_input: Option<String>,
}

/// Applies a loaded project onto the app's state. `image` is the outcome of loading the
/// project's image (its data URL, size and pixels, or the loader's error), present exactly
/// when the project names an image; `value_texts` are the texts of the project's four
/// calibration values (X1, X2, Y1, Y2), used for input boxes the project saved no text for.
/// Calibration, points and labels are replaced; the image is set, or cleared when the project
/// has none, or kept when it failed to load, which gives the error message; each setting
/// the project holds replaces the current one.
pub fn apply_project_data<P: Copy, V, S: Copy, I>(
    state: &mut ProjectState<P, V, S, I>,
    data: SavedProject<P, V, S>,
    image: Option<Result<(String, (u32, u32), I), String>>,
    value_texts: (Option<String>, Option<String>, Option<String>, Option<String>),
) -> (err: Option<String>)
    requires
        data.image_path is Some <==> image is Some,
    ensures
        final(state).calibration == data.calibration,
        final(state).points == data.points,
        final(state).x_label == data.x_label,
        final(state).y_label == data.y_label,
        image is None ==> {
            &&& final(state).image_path is None
            &&& final(state).image_size is None
            &&& final(state).image_data_url is None
            &&& final(state).raw_image is None
        },
        forall|url: String, size: (u32, u32), img: I|
            image == Some(Ok::<(String, (u32, u32), I), String>((url, size, img))) ==> {
                &&& final(state).image_path == data.image_path
                &&& final(state).image_size == Some(size)
                &&& final(state).image_data_url == Some(url)
                &&& final(state).raw_image == Some(img)
            },
        forall|e: String|
            image == Some(Err::<(String, (u32, u32), I), String>(e)) ==> {
                &&& final(state).image_path == old(state).image_path
                &&& final(state).image_size == old(state).image_size
                &&& final(state).image_data_url == old(state).image_data_url
                &&& final(state).raw_image == old(state).raw_image
                &&& err matches Some(m) && m@ == "Error loading image: "@ + e@
            },
        err is Some <==> image matches Some(Err(_)),
        final(state).zoom_factor == restored(old(state).zoom_factor, data.zoom_factor),
        final(state).pan_offset == restored(old(state).pan_offset, data.pan_offset),
        final(state).sort_order == restored(old(state).sort_order, data.sort_order),
        final(state).include_errors == restored(old(state).include_errors, data.include_errors),
        final(state).connect_lines == restored(old(state).connect_lines, data.connect_lines),
        final(state).marker_size == restored(old(state).marker_size, data.marker_size),
        final(state).auto_trace_step == restored(old(state).auto_trace_step, data.auto_trace_step),
        final(state).auto_trace_tol == restored(old(state).auto_trace_tol, data.auto_trace_tol),
        final(state).right_tab == restored(old(state).right_tab, data.right_tab),
        final(state).x1_input@ == restored_text(data.x1_input, value_texts.0),
        final(state).x2_input@ == restored_text(data.x2_input, value_texts.1),
        final(state).y1_input@ == restored_text(data.y1_input, value_texts.2),
        final(state).y2_input@ == restored_text(data.y2_input, value_texts.3),
{
    let SavedProject {
        image_path,
        calibration,
        points,
        x_label,
        y_label,
        zoom_factor,
        pan_offset,
        sort_order,
        include_errors,
        connect_lines,
        marker_size,
        auto_trace_step,
        auto_trace_tol,
        right_tab,
        x1_input,
        x2_input,
        y1_input,
        y2_input,
    } = data;
    state.calibration = calibration;
    state.points = points;
    state.x_label = x_label;
    state.y_label = y_label;

    let mut image_error: Option<String> = None;
    match image {
        Some(Ok((url, size, img))) => {
            state.image_path = image_path;
            state.image_size = Some(size);
            state.image_data_url = Some(url);
            state.raw_image = Some(img);
        },
        Some(Err(e)) => {
            image_error = Some(image_error_message(e.as_str()));
        },
        None => {
            state.image_path = None;
            state.image_size = None;
            state.image_data_url = None;
            state.raw_image = None;
        },
    }

    let old_zoom = state.zoom_factor;
    state.zoom_factor = restore_setting(old_zoom, zoom_factor);
    let old_pan = state.pan_offset;
    state.pan_offset = restore_setting(old_pan, pan_offset);
    state.sort_order = restore_setting(state.sort_order, sort_order);
    state.include_errors = restore_setting(state.include_errors, include_errors);
    state.connect_lines = restore_setting(state.connect_lines, connect_lines);
    let old_marker = state.marker_size;
    state.marker_size = restore_setting(old_marker, marker_size);
    let old_step = state.auto_trace_step;
    state.auto_trace_step = restore_setting(old_step, auto_trace_step);
    let old_tol = state.auto_trace_tol;
    state.auto_trace_tol = restore_setting(old_tol, auto_trace_tol);
    state.right_tab = restore_setting(state.right_tab, right_tab);

    let (t1, t2, t3, t4) = value_texts;
    state.x1_input = restored_input_text(x1_input, t1);
    state.x2_input = restored_input_text(x2_input, t2);
    state.y1_input = restored_input_text(y1_input, t3);
    state.y2_input = restored_input_text(y2_input, t4);

    image_error
}

} // verus!
