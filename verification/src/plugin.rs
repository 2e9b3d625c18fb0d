//! One tick of pointer interaction with a frame.

use vstd::prelude::*;
use crate::box_frame::{BoxFrame, BoxFrameHandle, MaterialUpdate, Visibility};
use crate::drag_face::{after_drag_tick, drag_face, is_drag_outcome, DragOutcome};
use crate::events::{DragEnd, DragStart, PointerEvent};
use crate::handle_visibility::{handle_visibility, handle_visibility_of};
use crate::highlight::{handle_size_of, highlight_face, highlight_handles, highlight_of};
use crate::math::Rotation;
use crate::ray::RayMap;

verus! {

/// The pointer events of one tick, each kind in the order in which the
/// events came.
#[derive(Clone, Debug, PartialEq, Eq)]
pub struct PointerEvents {
    pub over: Vec<PointerEvent>,
    pub moved: Vec<PointerEvent>,
    pub out: Vec<PointerEvent>,
    pub drag_start: Vec<DragStart>,
    pub drag_end: Vec<DragEnd>,
}

/// What one tick changes in the scene around a frame.
#[derive(Clone, Copy, Debug, PartialEq, Eq)]
pub struct FrameUpdate {
    /// What dragging did to the geometry.
    pub drag: DragOutcome,
    /// The visibility that the six handles are to have, if it is to change.
    pub handle_visibility: Option<Visibility>,
    /// The material that each face is to have, if they are to change.
    pub face_materials: Option<[MaterialUpdate; 6]>,
    /// The size at which each handle is to be drawn, where it is to change.
    pub handle_scales: [Option<u64>; 6],
}

/// Enables pointer interactions for [`BoxFrame`] entities.
///
/// The host picks first, with
/// [`box_frame_backend`](crate::picking_backend::box_frame_backend), and
/// turns the hits into pointer events. Then, for each frame, it calls
/// [`BoxFramePlugin::update`].
#[derive(Clone, Copy, Debug, Default)]
pub struct BoxFramePlugin;

impl BoxFramePlugin {
    /// One tick for one frame: dragging first, then the highlights, which
    /// depend on whether the frame is being dragged once the tick's events
    /// are in.
    ///
    /// `handles` is what the host keeps with the six handles of the frame.
    pub fn update(
        &self,
        frame: &mut BoxFrame,
        entity: u64,
        rotation: &Rotation,
        handles: &[BoxFrameHandle; 6],
        events: &PointerEvents,
        ray_map: &RayMap,
    ) -> (update: FrameUpdate)
        ensures
            final(frame)@ == after_drag_tick(
                old(frame)@,
                entity,
                *rotation,
                events.drag_start@,
                events.drag_end@,
                ray_map@,
            ),
            final(frame)@.wf(),
            is_drag_outcome(
                update.drag,
                old(frame)@,
                final(frame)@,
                entity,
                *rotation,
                events.drag_start@,
                events.drag_end@,
                ray_map@,
            ),
            update.handle_visibility == handle_visibility_of(
                final(frame)@,
                entity,
                events.over@,
                events.moved@,
                events.out@,
            ),
            match highlight_of(
                final(frame)@,
                entity,
                *rotation,
                events.over@,
                events.moved@,
                events.out@,
                events.drag_end@,
            ) {
                None => update.face_materials is None,
                Some(highlighted) => {
                    &&& update.face_materials matches Some(materials)
                    &&& forall|face: int|
                        0 <= face < 6 ==> #[trigger] materials[face] == final(frame)@.material_of(
                            face,
                            highlighted,
                        )
                },
            },
            forall|k: int|
                0 <= k < 6 ==> match handle_size_of(
                    final(frame)@.handle_entities[k],
                    handles[k],
                    events.over@,
                    events.out@,
                ) {
                    None => (#[trigger] update.handle_scales[k]) is None,
                    Some(size) => update.handle_scales[k] == Some(size as u64),
                },
    {
        let drag = drag_face(
            frame,
            entity,
            rotation,
            &events.drag_start,
            &events.drag_end,
            ray_map,
        );
        let handle_visibility = handle_visibility(
            frame,
            entity,
            &events.over,
            &events.moved,
            &events.out,
        );
        let face_materials = highlight_face(
            frame,
            entity,
            rotation,
            &events.over,
            &events.moved,
            &events.out,
            &events.drag_end,
        );
        let entities = frame.handle_entities();
        let handle_scales = [
            highlight_handles(entities[0], &handles[0], &events.over, &events.out),
            highlight_handles(entities[1], &handles[1], &events.over, &events.out),
            highlight_handles(entities[2], &handles[2], &events.over, &events.out),
            highlight_handles(entities[3], &handles[3], &events.over, &events.out),
            highlight_handles(entities[4], &handles[4], &events.over, &events.out),
            highlight_handles(entities[5], &handles[5], &events.over, &events.out),
        ];
        FrameUpdate { drag, handle_visibility, face_materials, handle_scales }
    }
}

} // verus!
