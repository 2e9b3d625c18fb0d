//! What the host hands in each tick: pointer events and the data of the hit
//! that caused them.

use vstd::prelude::*;
use crate::math::{Direction, Vec3};

verus! {

/// A button of a pointer.
#[derive(Clone, Copy, Debug, PartialEq, Eq, Structural)]
pub enum PointerButton {
    Primary,
    Secondary,
    Middle,
}

/// One hit of a pointer ray on a target.
#[derive(Clone, Copy, Debug, PartialEq, Eq)]
pub struct HitData {
    /// The camera whose ray made the hit.
    pub camera: u64,
    /// The distance of the hit along the ray.
    pub depth: i64,
    /// Where the ray hit, in the world.
    pub position: Option<Vec3>,
    /// The surface normal at the hit, in the world.
    pub normal: Option<Direction>,
}

/// A pointer came over a target, moved on it or left it.
#[derive(Clone, Copy, Debug, PartialEq, Eq)]
pub struct PointerEvent {
    pub target: u64,
    pub pointer_id: u64,
    pub hit: HitData,
}

/// A button went down on a target and the pointer began to move.
#[derive(Clone, Copy, Debug, PartialEq, Eq)]
pub struct DragStart {
    pub target: u64,
    pub pointer_id: u64,
    pub button: PointerButton,
    pub hit: HitData,
}

/// The button of a drag was let go.
#[derive(Clone, Copy, Debug, PartialEq, Eq)]
pub struct DragEnd {
    pub target: u64,
    pub pointer_id: u64,
    pub button: PointerButton,
}

/// Whether any of the events is aimed at `target`.
pub open spec fn any_targets(events: Seq<PointerEvent>, target: u64) -> bool {
    exists|i: int| 0 <= i < events.len() && (#[trigger] events[i]).target == target
}

/// Whether any of the drag ends is aimed at `target`.
pub open spec fn any_drag_end_targets(events: Seq<DragEnd>, target: u64) -> bool {
    exists|i: int| 0 <= i < events.len() && (#[trigger] events[i]).target == target
}

/// The last of the events that is aimed at `target`.
pub open spec fn last_targeting(events: Seq<PointerEvent>, target: u64) -> Option<PointerEvent>
    decreases events.len(),
{
    if events.len() == 0 {
        None
    } else if events.last().target == target {
        Some(events.last())
    } else {
        last_targeting(events.drop_last(), target)
    }
}

/// Looks for an event aimed at `target`.
pub fn targets_any(events: &Vec<PointerEvent>, target: u64) -> (found: bool)
    ensures
        found == any_targets(events@, target),
{
    let mut i: usize = 0;
    while i < events.len()
        invariant
            i <= events.len(),
            forall|j: int| 0 <= j < i ==> (#[trigger] events@[j]).target != target,
        decreases events.len() - i,
    {
        if events[i].target == target {
            return true;
        }
        i += 1;
    }
    false
}

/// Looks for a drag end aimed at `target`.
pub fn drag_end_targets_any(events: &Vec<DragEnd>, target: u64) -> (found: bool)
    ensures
        found == any_drag_end_targets(events@, target),
{
    let mut i: usize = 0;
    while i < events.len()
        invariant
            i <= events.len(),
            forall|j: int| 0 <= j < i ==> (#[trigger] events@[j]).target != target,
        decreases events.len() - i,
    {
        if events[i].target == target {
            return true;
        }
        i += 1;
    }
    false
}

/// Finds the last event aimed at `target`.
pub fn last_event_for(events: &Vec<PointerEvent>, target: u64) -> (found: Option<PointerEvent>)
    ensures
        found == last_targeting(events@, target),
        found is Some <==> any_targets(events@, target),
{
    let mut found: Option<PointerEvent> = None;
    let mut i: usize = 0;
    while i < events.len()
        invariant
            i <= events.len(),
            found == last_targeting(events@.take(i as int), target),
            found is Some <==> any_targets(events@.take(i as int), target),
        decreases events.len() - i,
    {
        let ghost before = events@.take(i as int);
        let ghost after = events@.take(i as int + 1);
        assert(after.drop_last() =~= before);
        assert(after.last() == events@[i as int]);
        if events[i].target == target {
            found = Some(events[i]);
            assert(after[i as int].target == target);
        } else {
            proof {
                if any_targets(after, target) {
                    let k = choose|k: int| 0 <= k < after.len() && (#[trigger] after[k]).target == target;
                    assert(before[k].target == target);
                }
                if any_targets(before, target) {
                    let k = choose|k: int| 0 <= k < before.len() && (#[trigger] before[k]).target == target;
                    assert(after[k].target == target);
                }
            }
        }
        i += 1;
    }
    assert(events@.take(events.len() as int) =~= events@);
    found
}

} // verus!
