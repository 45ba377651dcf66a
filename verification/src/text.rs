use vstd::prelude::*;

use crate::model::DataPoint;
use crate::points::{plan_trace, spec_plan_trace, TracePlan};

verus! {

/// Appends `c` to `s`.
/// Trusted: `String::push`, documented to append the given `char` to the end of the
/// `String`.
#[verifier::external_body]
fn append_char(s: &mut String, c: char)
    ensures
        final(s)@ == old(s)@.push(c),
{
    s.push(c);
}

/// The character of decimal digit `d`.
pub open spec fn digit_char(d: int) -> char {
    (48 + d) as char
}

/// The decimal notation of `n`, without leading zeros.
pub open spec fn decimal(n: nat) -> Seq<char>
    decreases n,
{
    if n < 10 {
        seq![digit_char(n as int)]
    } else {
        decimal(n / 10).push(digit_char((n % 10) as int))
    }
}

/// The character of the decimal digit `d`.
fn digit(d: u64) -> (c: char)
    requires
        d < 10,
    ensures
        c == digit_char(d as int),
{
    ((48u8 + d as u8) as char)
}

/// Appends the decimal notation of `n` to `s`.
pub fn push_decimal(s: &mut String, n: u64)
    ensures
        final(s)@ == old(s)@ + decimal(n as nat),
    decreases n,
{
    if n >= 10 {
        push_decimal(s, n / 10);
    }
    append_char(s, digit(n % 10));
    proof {
        if n >= 10 {
            assert(decimal(n as nat) == decimal((n / 10) as nat).push(digit_char((n % 10) as int)));
        }
    }
}

/// `prefix`, the decimal notation of `n`, then `suffix`.
pub fn numbered_text(prefix: &str, n: u64, suffix: &str) -> (s: String)
    ensures
        s@ == prefix@ + decimal(n as nat) + suffix@,
{
    let mut s = String::new();
    s.append(prefix);
    push_decimal(&mut s, n);
    s.append(suffix);
    s
}

/// `prefix` followed by `rest`.
pub fn joined_text(prefix: &str, rest: &str) -> (s: String)
    ensures
        s@ == prefix@ + rest@,
{
    let mut s = String::new();
    s.append(prefix);
    s.append(rest);
    s
}

/// What the tracer reports when it was given too little guidance.
pub fn need_guides_message() -> (s: String)
    ensures
        s@ == "Place 2+ manual points or select 1 manual point to enable auto tracing"@,
{
    "Place 2+ manual points or select 1 manual point to enable auto tracing".to_owned()
}

/// What the tracer reports after tracing between guides and adding `added` points.
pub fn between_guides_message(added: u64) -> (s: String)
    ensures
        s@ == "Auto-extracted "@ + decimal(added as nat) + " points between manual guides!"@,
{
    numbered_text("Auto-extracted ", added, " points between manual guides!")
}

/// What the tracer reports after tracing rightwards and adding `added` points.
pub fn rightward_message(added: u64) -> (s: String)
    ensures
        s@ == "Auto-extracted "@ + decimal(added as nat)
            + " points to the right starting from color center!"@,
{
    numbered_text("Auto-extracted ", added, " points to the right starting from color center!")
}

/// The status line shown after the point at `idx` is selected; points are numbered from 1.
pub fn selected_point_message(idx: usize) -> (s: String)
    requires
        idx < usize::MAX,
    ensures
        s@ == "Selected point #"@ + decimal((idx + 1) as nat),
{
    let mut s = "Selected point #".to_owned();
    push_decimal(&mut s, (idx + 1) as u64);
    s
}

/// The status line shown when an image could not be loaded.
pub fn image_error_message(error: &str) -> (s: String)
    ensures
        s@ == "Error loading image: "@ + error@,
{
    joined_text("Error loading image: ", error)
}

/// The tracer's readiness as shown beside the trace button: whether it can trace, and why.
pub open spec fn spec_trace_badge<P>(s: Seq<DataPoint<P>>, selected: Option<usize>) -> (bool, Seq<
    char,
>) {
    match spec_plan_trace(s, selected) {
        TracePlan::BetweenGuides => (
            true,
            "Found "@ + decimal(crate::points::manual_points(s).len()) + " manual guides. Ready to trace between them."@,
        ),
        TracePlan::Rightward(i) => (
            true,
            "Point #"@ + decimal((i + 1) as nat) + " selected. Ready to trace rightward."@,
        ),
        TracePlan::NeedGuides => (
            false,
            "Place 2+ manual points (or select 1 manual point) to enable auto tracing"@,
        ),
    }
}

/// The tracer's readiness as shown beside the trace button: whether it can trace, and why.
pub fn trace_badge<P>(points: &Vec<DataPoint<P>>, selected: Option<usize>) -> (r: (bool, String))
    ensures
        r.0 == spec_trace_badge(points@, selected).0,
        r.1@ == spec_trace_badge(points@, selected).1,
{
    match plan_trace(points, selected) {
        TracePlan::BetweenGuides => {
            let n = crate::points::manual_count(points);
            (true, numbered_text("Found ", n as u64, " manual guides. Ready to trace between them."))
        },
        TracePlan::Rightward(i) => {
            let _len = points.len();
            (true, numbered_text("Point #", (i + 1) as u64, " selected. Ready to trace rightward."))
        },
        TracePlan::NeedGuides => (
            false,
            "Place 2+ manual points (or select 1 manual point) to enable auto tracing".to_owned(),
        ),
    }
}

} // verus!
