//! Which face of a frame is emphasised, and how large a handle is drawn.

use vstd::prelude::*;
use crate::box_frame::{scale_length, scaled, BoxFrame, BoxFrameHandle, BoxFrameView, MaterialUpdate};
use crate::events::{
    any_drag_end_targets, any_targets, drag_end_targets_any, last_event_for, last_targeting,
    targets_any, DragEnd, HitData, PointerEvent,
};
use crate::geometry::{best_face_of, face_index_from_world_normal, FaceIndex};
use crate::math::Rotation;

verus! {

/// The face that a hit points at: the one closest to the hit's normal, or
/// none where the hit has no normal.
pub open spec fn picked_face(rotation: Rotation, hit: HitData) -> Option<int> {
    match hit.normal {
        Some(normal) => Some(best_face_of(rotation.to_model(normal@))),
        None => None,
    }
}

/// What a tick makes of the highlight of a frame.
///
/// The outer `None` leaves the frame's materials as they are. `Some(None)`
/// gives every face the plain material; `Some(Some(face))` gives that face
/// the highlight material and every other face the plain one.
///
/// A frame that is being dragged shows its dragged face whatever the
/// pointers do. For any other frame the last event of the tick that is aimed
/// at it decides, the events taken in the order overs, moves, outs, drag
/// ends: an out or a drag end clears the highlight, an over or a move shows
/// the face that its hit points at.
pub open spec fn highlight_of(
    frame: BoxFrameView,
    entity: u64,
    rotation: Rotation,
    overs: Seq<PointerEvent>,
    moves: Seq<PointerEvent>,
    outs: Seq<PointerEvent>,
    drag_ends: Seq<DragEnd>,
) -> Option<Option<int>> {
    if let Some(drag) = frame.dragging {
        Some(Some(drag.face))
    } else if any_drag_end_targets(drag_ends, entity) || any_targets(outs, entity) {
        Some(None)
    } else if let Some(ev) = last_targeting(moves, entity) {
        Some(picked_face(rotation, ev.hit))
    } else if let Some(ev) = last_targeting(overs, entity) {
        Some(picked_face(rotation, ev.hit))
    } else {
        None
    }
}

/// The size at which a tick draws a handle, or none where the tick leaves
/// it alone: its base size once a pointer has left it, its hover size while
/// one has come over it and none has left.
pub open spec fn handle_size_of(
    handle_entity: u64,
    handle: BoxFrameHandle,
    overs: Seq<PointerEvent>,
    outs: Seq<PointerEvent>,
) -> Option<int> {
    if any_targets(outs, handle_entity) {
        Some(handle.base_scale as int)
    } else if any_targets(overs, handle_entity) {
        Some(scaled(handle.base_scale as int, handle.hover_scale as int))
    } else {
        None
    }
}

/// The materials of all six faces with at most one face emphasised.
fn face_materials(frame: &BoxFrame, highlighted: Option<FaceIndex>) -> (updates: [MaterialUpdate;
    6])
    requires
        highlighted matches Some(face) ==> face < 6,
    ensures
        forall|face: int|
            0 <= face < 6 ==> #[trigger] updates[face] == frame@.material_of(
                face,
                match highlighted {
                    Some(f) => Some(f as int),
                    None => None,
                },
            ),
{
    let mut updates = frame.clear_highlights();
    if let Some(face) = highlighted {
        updates[face] = frame.highlight_face(face);
    }
    updates
}

fn pick_face(rotation: &Rotation, hit: &HitData) -> (face: Option<FaceIndex>)
    ensures
        match face {
            Some(f) => picked_face(*rotation, *hit) == Some(f as int) && f < 6,
            None => picked_face(*rotation, *hit) is None,
        },
{
    match hit.normal {
        Some(world_normal) => Some(face_index_from_world_normal(world_normal, rotation)),
        None => None,
    }
}

/// One tick of face highlighting for one frame: the material that each of
/// its faces is to have, or nothing where the tick leaves them alone.
///
/// Highlighting follows dragging first: the dragged face of a frame that is
/// being dragged is emphasised whatever the pointers do. Otherwise the face
/// under the pointer is: see [`highlight_of`].
pub fn highlight_face(
    frame: &BoxFrame,
    entity: u64,
    rotation: &Rotation,
    over_events: &Vec<PointerEvent>,
    move_events: &Vec<PointerEvent>,
    out_events: &Vec<PointerEvent>,
    drag_end_events: &Vec<DragEnd>,
) -> (updates: Option<[MaterialUpdate; 6]>)
    ensures
        match highlight_of(
            frame@,
            entity,
            *rotation,
            over_events@,
            move_events@,
            out_events@,
            drag_end_events@,
        ) {
            None => updates is None,
            Some(highlighted) => {
                &&& updates matches Some(materials)
                &&& forall|face: int|
                    0 <= face < 6 ==> #[trigger] materials[face] == frame@.material_of(
                        face,
                        highlighted,
                    )
            },
        },
{
    // Prioritize highlighting based on faces being dragged.
    if let Some(dragging) = frame.dragging() {
        return Some(face_materials(frame, Some(dragging.face())));
    }
    // "Out" and "drag end" events clear all highlights.
    if drag_end_targets_any(drag_end_events, entity) || targets_any(out_events, entity) {
        return Some(face_materials(frame, None));
    }
    // Highlight the face under a pointer ray.
    if let Some(ev) = last_event_for(move_events, entity) {
        return Some(face_materials(frame, pick_face(rotation, &ev.hit)));
    }
    if let Some(ev) = last_event_for(over_events, entity) {
        return Some(face_materials(frame, pick_face(rotation, &ev.hit)));
    }
    None
}

/// One tick of handle highlighting for one handle: the size at which it is
/// to be drawn, or nothing where the tick leaves it alone.
pub fn highlight_handles(
    handle_entity: u64,
    handle: &BoxFrameHandle,
    over_events: &Vec<PointerEvent>,
    out_events: &Vec<PointerEvent>,
) -> (scale: Option<u64>)
    ensures
        match handle_size_of(handle_entity, *handle, over_events@, out_events@) {
            None => scale is None,
            Some(size) => scale == Some(size as u64),
        },
{
    if targets_any(out_events, handle_entity) {
        Some(handle.base_scale)
    } else if targets_any(over_events, handle_entity) {
        Some(scale_length(handle.base_scale, handle.hover_scale))
    } else {
        None
    }
}

} // verus!
