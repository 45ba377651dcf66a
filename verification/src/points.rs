use vstd::prelude::*;

use crate::model::{is_manual, DataPoint, PointSource};

verus! {

/// Whether a data point was placed by hand.
pub open spec fn placed_by_hand<P>(d: DataPoint<P>) -> bool {
    d.source == PointSource::Manual
}

/// The points placed by hand, in their order.
pub open spec fn manual_points<P>(s: Seq<DataPoint<P>>) -> Seq<DataPoint<P>> {
    s.filter(|d: DataPoint<P>| placed_by_hand(d))
}

/// A selection is valid when it is empty or names a point of the list.
pub open spec fn selection_valid(selected: Option<usize>, len: nat) -> bool {
    selected matches Some(s) ==> s < len
}

/// The selection after the point at `idx` is removed: cleared when that point was selected,
/// moved down one place when a later point was.
pub open spec fn selection_after_remove(selected: Option<usize>, idx: usize) -> Option<usize> {
    match selected {
        Some(s) => if s == idx {
            None
        } else if s > idx {
            Some((s - 1) as usize)
        } else {
            Some(s)
        },
        None => None,
    }
}

/// The selected point, when it exists and was placed by hand.
pub open spec fn spec_selected_manual<P>(s: Seq<DataPoint<P>>, selected: Option<usize>) -> Option<
    usize,
> {
    match selected {
        Some(i) => if i < s.len() && placed_by_hand(s[i as int]) {
            Some(i)
        } else {
            None
        },
        None => None,
    }
}

/// What the curve tracer can do with the current points.
#[derive(Debug, Clone, Copy, PartialEq, Eq, Structural)]
pub enum TracePlan {
    /// Not enough guidance: fewer than two points placed by hand, and no single one selected.
    NeedGuides,
    /// Trace between each two neighbouring points placed by hand.
    BetweenGuides,
    /// Trace rightwards from the only point placed by hand, which is selected at this index.
    Rightward(usize),
}

/// The tracer's plan: between guides when at least two points were placed by hand; rightwards
/// when exactly one was and it is selected; otherwise more guidance is needed.
pub open spec fn spec_plan_trace<P>(s: Seq<DataPoint<P>>, selected: Option<usize>) -> TracePlan {
    if manual_points(s).len() >= 2 {
        TracePlan::BetweenGuides
    } else if manual_points(s).len() == 1 && spec_selected_manual(s, selected) is Some {
        TracePlan::Rightward(spec_selected_manual(s, selected)->0)
    } else {
        TracePlan::NeedGuides
    }
}

proof fn lemma_manual_points_step<P>(s: Seq<DataPoint<P>>, i: int)
    requires
        0 <= i < s.len(),
    ensures
        manual_points(s.take(i + 1)) == if placed_by_hand(s[i]) {
            manual_points(s.take(i)).push(s[i])
        } else {
            manual_points(s.take(i))
        },
{
    reveal(Seq::filter);
    assert(s.take(i + 1).drop_last() =~= s.take(i));
    assert(s.take(i + 1).last() == s[i]);
}

/// The number of points placed by hand.
pub fn manual_count<P>(points: &Vec<DataPoint<P>>) -> (n: usize)
    ensures
        n == manual_points(points@).len(),
{
    let mut n: usize = 0;
    let mut i: usize = 0;
    while i < points.len()
        invariant
            i <= points@.len(),
            n == manual_points(points@.take(i as int)).len(),
            n <= i,
        decreases points@.len() - i,
    {
        proof {
            lemma_manual_points_step(points@, i as int);
        }
        if is_manual(points[i].source) {
            n = n + 1;
        }
        i = i + 1;
    }
    assert(points@.take(points@.len() as int) =~= points@);
    n
}

/// The selected point's index, when it names a point placed by hand.
pub fn selected_manual<P>(points: &Vec<DataPoint<P>>, selected: Option<usize>) -> (r: Option<usize>)
    ensures
        r == spec_selected_manual(points@, selected),
{
    match selected {
        Some(i) => {
            if i < points.len() && is_manual(points[i].source) {
                Some(i)
            } else {
                None
            }
        },
        None => None,
    }
}

/// What the curve tracer can do with these points and this selection.
pub fn plan_trace<P>(points: &Vec<DataPoint<P>>, selected: Option<usize>) -> (plan: TracePlan)
    ensures
        plan == spec_plan_trace(points@, selected),
        manual_points(points@).len() >= 2 ==> plan == TracePlan::BetweenGuides,
        forall|i: usize|
            manual_points(points@).len() == 1 && selected == Some(i) && i < points@.len()
                && points@[i as int].source == PointSource::Manual ==> plan == TracePlan::Rightward(i),
        manual_points(points@).len() < 2 && !(selected matches Some(i) && i < points@.len()
            && points@[i as int].source == PointSource::Manual) ==> plan == TracePlan::NeedGuides,
{
    let n = manual_count(points);
    if n >= 2 {
        TracePlan::BetweenGuides
    } else if n == 1 {
        match selected_manual(points, selected) {
            Some(i) => TracePlan::Rightward(i),
            None => TracePlan::NeedGuides,
        }
    } else {
        TracePlan::NeedGuides
    }
}

/// Keeps only the points placed by hand, in their order.
pub fn retain_manual<P: Copy>(points: &mut Vec<DataPoint<P>>)
    ensures
        final(points)@ == manual_points(old(points)@),
{
    let mut kept: Vec<DataPoint<P>> = Vec::new();
    let mut i: usize = 0;
    while i < points.len()
        invariant
            i <= points@.len(),
            points@ == old(points)@,
            kept@ == manual_points(points@.take(i as int)),
        decreases points@.len() - i,
    {
        proof {
            lemma_manual_points_step(points@, i as int);
        }
        let d = points[i];
        if is_manual(d.source) {
            kept.push(d);
        }
        i = i + 1;
    }
    assert(points@.take(points@.len() as int) =~= points@);
    *points = kept;
}

/// Keeping the points placed by hand twice keeps the same points as doing it once.
pub proof fn lemma_retain_manual_idempotent<P>(s: Seq<DataPoint<P>>)
    ensures
        manual_points(manual_points(s)) == manual_points(s),
    decreases s.len(),
{
    reveal(Seq::filter);
    if s.len() > 0 {
        lemma_retain_manual_idempotent(s.drop_last());
        let rest = manual_points(s.drop_last());
        if placed_by_hand(s.last()) {
            assert(rest.push(s.last()).drop_last() =~= rest);
        }
    }
}

/// Every point kept by [`retain_manual`] was placed by hand.
pub proof fn lemma_manual_points_all_manual<P>(s: Seq<DataPoint<P>>)
    ensures
        forall|i: int| 0 <= i < manual_points(s).len() ==> placed_by_hand(#[trigger] manual_points(s)[i]),
        manual_points(s).len() <= s.len(),
    decreases s.len(),
{
    reveal(Seq::filter);
    if s.len() > 0 {
        lemma_manual_points_all_manual(s.drop_last());
    }
}

/// What the tracer does, by the points placed by hand and the selection: with two or more
/// guides it traces between them, whatever is selected; with exactly one guide, selected, it
/// traces rightwards from that guide; otherwise it asks for more guidance.
pub proof fn lemma_plan_trace_cases<P>(s: Seq<DataPoint<P>>, selected: Option<usize>)
    ensures
        manual_points(s).len() >= 2 ==> spec_plan_trace(s, selected) == TracePlan::BetweenGuides,
        forall|i: usize|
            manual_points(s).len() == 1 && selected == Some(i) && i < s.len() && s[i as int].source
                == PointSource::Manual ==> spec_plan_trace(s, selected) == TracePlan::Rightward(i),
        manual_points(s).len() < 2 && !(selected matches Some(i) && i < s.len() && s[i as int].source
            == PointSource::Manual) ==> spec_plan_trace(s, selected) == TracePlan::NeedGuides,
{
}

/// Removing a point never selects a point that was not selected before: removing the selected
/// point clears the selection, no selection stays empty, and a selection that survives moves
/// down one place exactly when it named a later point, so it names the same point.
pub proof fn lemma_remove_keeps_selection(selected: Option<usize>, idx: usize)
    ensures
        selected == Some(idx) ==> selection_after_remove(selected, idx) is None,
        selected is None ==> selection_after_remove(selected, idx) is None,
        forall|t: usize|
            selection_after_remove(selected, idx) == Some(t) ==> (selected matches Some(s) && s
                != idx && (if s > idx {
                t + 1 == s
            } else {
                t == s
            })),
{
}

/// Removes the point at `idx` and returns the selection that keeps naming the same point:
/// cleared when the removed point was selected, moved down when a later point was.
pub fn remove_point<P>(points: &mut Vec<DataPoint<P>>, selected: Option<usize>, idx: usize) -> (sel:
    Option<usize>)
    requires
        idx < old(points)@.len(),
    ensures
        final(points)@ == old(points)@.remove(idx as int),
        sel == selection_after_remove(selected, idx),
        selection_valid(selected, old(points)@.len()) ==> selection_valid(sel, final(points)@.len()),
        forall|s: usize|
            selected == Some(s) && s != idx && s < old(points)@.len() ==> (sel matches Some(t)
                && final(points)@[t as int] == old(points)@[s as int]),
        selected == Some(idx) ==> sel is None,
        selected is None ==> sel is None,
        forall|t: usize|
            sel == Some(t) ==> (selected matches Some(s) && s != idx && (if s > idx {
                t + 1 == s
            } else {
                t == s
            })),
{
    points.remove(idx);
    match selected {
        Some(s) => {
            if s == idx {
                None
            } else if s > idx {
                Some(s - 1)
            } else {
                Some(s)
            }
        },
        None => None,
    }
}

/// Removes the last point, if any; a selection that no longer names a point is cleared.
pub fn undo_last_point<P>(points: &mut Vec<DataPoint<P>>, selected: Option<usize>) -> (sel: Option<
    usize,
>)
    ensures
        final(points)@ == if old(points)@.len() > 0 {
            old(points)@.drop_last()
        } else {
            old(points)@
        },
        sel == match selected {
            Some(s) => if s >= final(points)@.len() {
                None
            } else {
                Some(s)
            },
            None => None,
        },
        selection_valid(sel, final(points)@.len()),
{
    let _ = points.pop();
    match selected {
        Some(s) => {
            if s >= points.len() {
                None
            } else {
                Some(s)
            }
        },
        None => None,
    }
}

/// Removes every point; nothing stays selected.
pub fn clear_points<P>(points: &mut Vec<DataPoint<P>>) -> (sel: Option<usize>)
    ensures
        final(points)@ == Seq::<DataPoint<P>>::empty(),
        sel is None,
{
    points.clear();
    None
}

/// Adds a point placed by hand at `p` and selects it.
pub fn add_manual_point<P>(points: &mut Vec<DataPoint<P>>, p: P) -> (sel: Option<usize>)
    ensures
        final(points)@ == old(points)@.push(DataPoint { point: p, source: PointSource::Manual }),
        sel == Some(old(points)@.len() as usize),
        selection_valid(sel, final(points)@.len()),
{
    points.push(DataPoint { point: p, source: PointSource::Manual });
    Some(points.len() - 1)
}

/// Moves the point at `idx` to `p`, keeping its source; an index past the end changes
/// nothing.
pub fn move_point<P>(points: &mut Vec<DataPoint<P>>, idx: usize, p: P)
    ensures
        idx < old(points)@.len() ==> final(points)@ == old(points)@.update(
            idx as int,
            DataPoint { point: p, source: old(points)@[idx as int].source },
        ),
        idx >= old(points)@.len() ==> final(points)@ == old(points)@,
{
    if idx < points.len() {
        let source = points[idx].source;
        points.set(idx, DataPoint { point: p, source });
    }
}

} // verus!
