//! Whether the handles of a frame are drawn.

use vstd::prelude::*;
use crate::box_frame::{BoxFrame, BoxFrameView, Visibility};
use crate::events::{any_targets, targets_any, PointerEvent};

verus! {

/// What a tick makes of the visibility of a frame's handles, or none where
/// the tick leaves it alone.
///
/// A frame that is being dragged never shows its handles. Any other frame
/// shows them while a pointer is on it: the last event of the tick that is
/// aimed at it decides, the events taken in the order overs, moves, outs.
pub open spec fn handle_visibility_of(
    frame: BoxFrameView,
    entity: u64,
    overs: Seq<PointerEvent>,
    moves: Seq<PointerEvent>,
    outs: Seq<PointerEvent>,
) -> Option<Visibility> {
    if frame.dragging is Some {
        Some(Visibility::Hidden)
    } else if any_targets(outs, entity) {
        Some(Visibility::Hidden)
    } else if any_targets(overs, entity) || any_targets(moves, entity) {
        Some(Visibility::Visible)
    } else {
        None
    }
}

/// One tick of handle visibility for one frame: the visibility that all six
/// of its handles are to have, or nothing where the tick leaves them alone.
pub fn handle_visibility(
    frame: &BoxFrame,
    entity: u64,
    over_events: &Vec<PointerEvent>,
    move_events: &Vec<PointerEvent>,
    out_events: &Vec<PointerEvent>,
) -> (visibility: Option<Visibility>)
    ensures
        visibility == handle_visibility_of(
            frame@,
            entity,
            over_events@,
            move_events@,
            out_events@,
        ),
{
    // Dragging frames never have visible handles.
    if frame.dragging().is_some() {
        return Some(Visibility::Hidden);
    }
    if targets_any(out_events, entity) {
        Some(Visibility::Hidden)
    } else if targets_any(over_events, entity) || targets_any(move_events, entity) {
        Some(Visibility::Visible)
    } else {
        None
    }
}

} // verus!
