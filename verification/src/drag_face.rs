//! Dragging a face: the state of a drag and what each tick makes of it.

use vstd::prelude::*;
use crate::box_frame::{BoxFrame, BoxFrameView, HandlePlacement, LineUpdate, Regenerated};
use crate::events::{any_drag_end_targets, drag_end_targets_any, DragEnd, DragStart};
use crate::geometry::{
    best_face_of, face_index_from_world_normal, face_sign_of, faces_sorted, lemma_best_face_exists,
    opposite_face, sorted_faces_of, FaceIndex,
};
use crate::math::{clamp_coordinate, clamp_to_coordinate, Rotation};
use crate::ray::{
    closest_parameter_1, closest_points_on_two_rays, vectors_parallel, Ray, RayId, RayMap,
};

verus! {

/// What is fixed while a drag goes on.
#[derive(Clone, Copy, Debug)]
pub struct Dragging {
    // The ray that started dragging.
    ray_id: RayId,
    // The face being dragged.
    face: FaceIndex,
    // The face's coordinate at the start of the drag.
    initial_coord: i32,
    // The ray along which the face moves during dragging. In world
    // coordinates.
    drag_ray: Ray,
}

/// A drag as contracts see it.
pub struct DragState {
    /// The pointer ray that drives the drag.
    pub ray_id: RayId,
    /// The face being dragged.
    pub face: int,
    /// The face's coordinate at the start of the drag.
    pub initial_coord: int,
    /// The ray along which the face moves: from the point where the pointer
    /// picked the face, along the face's normal, in the world.
    pub drag_ray: Ray,
}

impl View for Dragging {
    type V = DragState;

    closed spec fn view(&self) -> DragState {
        DragState {
            ray_id: self.ray_id,
            face: self.face as int,
            initial_coord: self.initial_coord as int,
            drag_ray: self.drag_ray,
        }
    }
}

impl Dragging {
    #[verifier::type_invariant]
    spec fn face_in_range(&self) -> bool {
        self.face < 6
    }

    pub(crate) fn new(ray_id: RayId, face: FaceIndex, initial_coord: i32, drag_ray: Ray) -> (d:
        Dragging)
        requires
            face < 6,
        ensures
            d@ == (DragState {
                ray_id,
                face: face as int,
                initial_coord: initial_coord as int,
                drag_ray,
            }),
    {
        Dragging { ray_id, face, initial_coord, drag_ray }
    }

    /// The face being dragged.
    pub fn face(&self) -> (face: FaceIndex)
        ensures
            face == self@.face,
            face < 6,
    {
        proof {
            use_type_invariant(self);
        }
        self.face
    }

    /// The pointer ray that drives the drag.
    pub fn ray_id(&self) -> (ray_id: RayId)
        ensures
            ray_id == self@.ray_id,
    {
        self.ray_id
    }

    /// The face's coordinate at the start of the drag.
    pub fn initial_coord(&self) -> (coord: i32)
        ensures
            coord == self@.initial_coord,
    {
        self.initial_coord
    }

    /// The ray along which the face moves.
    pub fn drag_ray(&self) -> (ray: Ray)
        ensures
            ray == self@.drag_ray,
    {
        self.drag_ray
    }
}

/// What a tick of dragging did to a frame.
#[derive(Clone, Copy, Debug, PartialEq, Eq)]
pub enum DragOutcome {
    /// Nothing of the frame's geometry changed.
    Unchanged,
    /// A drag end was aimed at the frame: no drag goes on, the faces are
    /// sorted, and all of the geometry is new.
    Ended(Regenerated),
    /// The dragged face moved: its edge loop and its handle are new.
    Moved { face: FaceIndex, line: LineUpdate, handle: HandlePlacement },
}

/// Whether a drag start begins a drag of this frame: it is aimed at the
/// frame, with the frame's drag button, and its hit has both a position and
/// a normal.
pub open spec fn drag_start_accepted(frame: BoxFrameView, entity: u64, ev: DragStart) -> bool {
    &&& ev.target == entity
    &&& ev.button == frame.drag_button
    &&& ev.hit.position is Some
    &&& ev.hit.normal is Some
}

/// The drag that an accepted drag start begins: of the face that the hit
/// normal points at, from where the face stands, along the ray from the hit
/// position along the hit normal.
pub open spec fn drag_started(frame: BoxFrameView, rotation: Rotation, ev: DragStart) -> DragState {
    let normal = ev.hit.normal->0;
    let face = best_face_of(rotation.to_model(normal@));
    DragState {
        ray_id: RayId { camera: ev.hit.camera, pointer: ev.pointer_id },
        face,
        initial_coord: frame.faces[face] as int,
        drag_ray: Ray { origin: ev.hit.position->0, direction: normal },
    }
}

/// The frame after one drag start.
pub open spec fn after_drag_start(
    frame: BoxFrameView,
    entity: u64,
    rotation: Rotation,
    ev: DragStart,
) -> BoxFrameView {
    if drag_start_accepted(frame, entity, ev) {
        BoxFrameView { dragging: Some(drag_started(frame, rotation, ev)), ..frame }
    } else {
        frame
    }
}

/// The frame after a run of drag starts, taken in order.
pub open spec fn after_drag_starts(
    frame: BoxFrameView,
    entity: u64,
    rotation: Rotation,
    events: Seq<DragStart>,
) -> BoxFrameView
    decreases events.len(),
{
    if events.len() == 0 {
        frame
    } else {
        after_drag_start(
            after_drag_starts(frame, entity, rotation, events.drop_last()),
            entity,
            rotation,
            events.last(),
        )
    }
}

/// The frame after a drag end: idle, with its faces sorted.
pub open spec fn after_drag_end(frame: BoxFrameView) -> BoxFrameView {
    BoxFrameView { dragging: None, faces: sorted_faces_of(frame.faces), ..frame }
}

/// How far the pointer has pulled along the drag ray: the parameter of the
/// point on the drag ray that is closest to the pointer's ray. There is
/// none while the pointer's ray is unknown or parallel to the drag ray.
pub open spec fn drag_delta(drag: DragState, rays: Map<RayId, Ray>) -> Option<int> {
    if !rays.contains_key(drag.ray_id) {
        None
    } else if vectors_parallel(drag.drag_ray.direction@, rays[drag.ray_id].direction@) {
        None
    } else {
        Some(closest_parameter_1(drag.drag_ray, rays[drag.ray_id]))
    }
}

/// Where a pull of `delta` along the drag ray puts the dragged face. A pull
/// outward moves a high face up and a low face down. Where the frame has a
/// least extent, the face stops that far short of the face opposite.
pub open spec fn dragged_coordinate(frame: BoxFrameView, drag: DragState, delta: int) -> int {
    let candidate = if drag.face < 3 {
        drag.initial_coord - delta
    } else {
        drag.initial_coord + delta
    };
    let opposite = frame.faces[opposite_face(drag.face)] as int;
    let kept = match frame.visuals.minimum_extent {
        None => candidate,
        Some(least) => if drag.face < 3 {
            if candidate <= opposite - least {
                candidate
            } else {
                opposite - least
            }
        } else {
            if candidate >= opposite + least {
                candidate
            } else {
                opposite + least
            }
        },
    };
    clamp_coordinate(kept)
}

/// The frame after the update of a tick: while a drag goes on and the
/// pointer's pull is known, the dragged face stands where the pull puts it.
pub open spec fn after_drag_update(frame: BoxFrameView, rays: Map<RayId, Ray>) -> BoxFrameView {
    match frame.dragging {
        None => frame,
        Some(drag) => match drag_delta(drag, rays) {
            None => frame,
            Some(delta) => BoxFrameView {
                faces: frame.faces.update(drag.face, dragged_coordinate(frame, drag, delta) as i32),
                ..frame
            },
        },
    }
}

/// The frame after one tick of dragging: first the drag starts, then the
/// drag ends, then the update of a drag that still goes on.
pub open spec fn after_drag_tick(
    frame: BoxFrameView,
    entity: u64,
    rotation: Rotation,
    drag_starts: Seq<DragStart>,
    drag_ends: Seq<DragEnd>,
    rays: Map<RayId, Ray>,
) -> BoxFrameView {
    let started = after_drag_starts(frame, entity, rotation, drag_starts);
    if any_drag_end_targets(drag_ends, entity) {
        after_drag_end(started)
    } else {
        after_drag_update(started, rays)
    }
}

/// Whether `outcome` says what a tick of dragging did, `before` being the
/// frame before the tick and `after` the frame after it.
///
/// A drag end aimed at the frame gives `Ended`, with the geometry of all six
/// faces. Otherwise a drag that goes on, with a pull that is known, gives
/// `Moved`, with the dragged face and its new edge loop and handle. Anything
/// else gives `Unchanged`.
pub open spec fn is_drag_outcome(
    outcome: DragOutcome,
    before: BoxFrameView,
    after: BoxFrameView,
    entity: u64,
    rotation: Rotation,
    drag_starts: Seq<DragStart>,
    drag_ends: Seq<DragEnd>,
    rays: Map<RayId, Ray>,
) -> bool {
    let started = after_drag_starts(before, entity, rotation, drag_starts);
    match outcome {
        DragOutcome::Unchanged => {
            &&& !any_drag_end_targets(drag_ends, entity)
            &&& match started.dragging {
                None => true,
                Some(drag) => drag_delta(drag, rays) is None,
            }
        },
        DragOutcome::Ended(parts) => {
            &&& any_drag_end_targets(drag_ends, entity)
            &&& after.is_geometry(parts)
        },
        DragOutcome::Moved { face, line, handle } => {
            &&& !any_drag_end_targets(drag_ends, entity)
            &&& started.dragging matches Some(drag)
            &&& drag_delta(drag, rays) is Some
            &&& face == drag.face
            &&& face < 6
            &&& after.is_line_of(face as int, line)
            &&& handle == after.handle_of(face as int)
        },
    }
}

/// Drag starts leave the faces where they are.
pub proof fn lemma_drag_starts_keep_faces(
    frame: BoxFrameView,
    entity: u64,
    rotation: Rotation,
    events: Seq<DragStart>,
)
    ensures
        after_drag_starts(frame, entity, rotation, events).faces == frame.faces,
        after_drag_starts(frame, entity, rotation, events).face_entities == frame.face_entities,
        after_drag_starts(frame, entity, rotation, events).handle_entities
            == frame.handle_entities,
        after_drag_starts(frame, entity, rotation, events).visuals == frame.visuals,
        after_drag_starts(frame, entity, rotation, events).drag_button == frame.drag_button,
        frame.wf() ==> after_drag_starts(frame, entity, rotation, events).wf(),
    decreases events.len(),
{
    if events.len() > 0 {
        lemma_drag_starts_keep_faces(frame, entity, rotation, events.drop_last());
        let ev = events.last();
        if ev.hit.normal is Some {
            lemma_best_face_exists(rotation.to_model(ev.hit.normal->0@));
        }
    }
}

/// A tick with a drag end aimed at the frame leaves the frame idle and its
/// faces in order, wherever the drag had put them.
pub proof fn lemma_drag_end_restores_order(
    frame: BoxFrameView,
    entity: u64,
    rotation: Rotation,
    drag_starts: Seq<DragStart>,
    drag_ends: Seq<DragEnd>,
    rays: Map<RayId, Ray>,
)
    requires
        frame.faces.len() == 6,
        any_drag_end_targets(drag_ends, entity),
    ensures
        after_drag_tick(frame, entity, rotation, drag_starts, drag_ends, rays).dragging is None,
        faces_sorted(after_drag_tick(frame, entity, rotation, drag_starts, drag_ends, rays).faces),
        after_drag_tick(frame, entity, rotation, drag_starts, drag_ends, rays).faces
            == sorted_faces_of(frame.faces),
{
    lemma_drag_starts_keep_faces(frame, entity, rotation, drag_starts);
}

/// A tick of dragging keeps a frame well formed: its faces stay six, its
/// dragged face one of them, and while it is idle its faces stay in order.
pub proof fn lemma_drag_tick_keeps_wf(
    frame: BoxFrameView,
    entity: u64,
    rotation: Rotation,
    drag_starts: Seq<DragStart>,
    drag_ends: Seq<DragEnd>,
    rays: Map<RayId, Ray>,
)
    requires
        frame.wf(),
    ensures
        after_drag_tick(frame, entity, rotation, drag_starts, drag_ends, rays).wf(),
{
    lemma_drag_starts_keep_faces(frame, entity, rotation, drag_starts);
}

/// Without a least extent, and within the grid, a pull of `delta` puts the
/// dragged face at its coordinate from the start of the drag plus `delta`
/// for a high face, minus `delta` for a low one.
pub proof fn lemma_dragged_coordinate_follows_pull(frame: BoxFrameView, drag: DragState, delta: int)
    requires
        frame.visuals.minimum_extent is None,
        i32::MIN <= drag.initial_coord + face_sign_of(drag.face) * delta <= i32::MAX,
    ensures
        dragged_coordinate(frame, drag, delta) == drag.initial_coord + face_sign_of(drag.face)
            * delta,
{
}

/// With a least extent, and within the grid, the dragged face ends at
/// least that far on its own side of the face opposite.
pub proof fn lemma_least_extent_is_kept(frame: BoxFrameView, drag: DragState, delta: int)
    requires
        frame.visuals.minimum_extent is Some,
        frame.faces.len() == 6,
        0 <= drag.face < 6,
        ({
            let opposite = frame.faces[opposite_face(drag.face)];
            &&& i32::MIN <= opposite - frame.visuals.minimum_extent->0
            &&& opposite + frame.visuals.minimum_extent->0 <= i32::MAX
        }),
    ensures
        ({
            let opposite = frame.faces[opposite_face(drag.face)];
            let least = frame.visuals.minimum_extent->0;
            if drag.face < 3 {
                dragged_coordinate(frame, drag, delta) <= opposite - least
            } else {
                dragged_coordinate(frame, drag, delta) >= opposite + least
            }
        }),
{
}

/// Takes one drag start.
fn start_drag(frame: &mut BoxFrame, entity: u64, rotation: &Rotation, ev: &DragStart)
    ensures
        final(frame)@ == after_drag_start(old(frame)@, entity, *rotation, *ev),
{
    if ev.target != entity {
        return;
    }
    if ev.button != frame.drag_button() {
        return;
    }
    match (ev.hit.position, ev.hit.normal) {
        (Some(world_position), Some(world_normal)) => {
            let face = face_index_from_world_normal(world_normal, rotation);
            let faces = frame.faces();
            frame.set_dragging(
                Some(
                    Dragging::new(
                        RayId { camera: ev.hit.camera, pointer: ev.pointer_id },
                        face,
                        faces[face],
                        Ray { origin: world_position, direction: world_normal },
                    ),
                ),
            );
        },
        _ => {},
    }
}

/// Where a pull of `delta` puts the dragged face.
fn drag_coordinate(frame: &BoxFrame, drag: &Dragging, delta: i128) -> (coord: i32)
    requires
        -0x1_0000_0000_0000_0000_0000_0000 <= delta <= 0x1_0000_0000_0000_0000_0000_0000,
    ensures
        coord == dragged_coordinate(frame@, drag@, delta as int),
{
    let face = drag.face();
    let initial = drag.initial_coord() as i128;
    let candidate: i128 = if face < 3 {
        initial - delta
    } else {
        initial + delta
    };
    let faces = frame.faces();
    let opposite = faces[(face + 3) % 6] as i128;
    let kept: i128 = match frame.visuals().minimum_extent {
        None => candidate,
        Some(least) => if face < 3 {
            let limit = opposite - least as i128;
            if candidate <= limit {
                candidate
            } else {
                limit
            }
        } else {
            let limit = opposite + least as i128;
            if candidate >= limit {
                candidate
            } else {
                limit
            }
        },
    };
    clamp_to_coordinate(kept)
}

/// The update of a tick.
fn update_drag(frame: &mut BoxFrame, ray_map: &RayMap) -> (outcome: DragOutcome)
    ensures
        final(frame)@ == after_drag_update(old(frame)@, ray_map@),
        match outcome {
            DragOutcome::Unchanged => match old(frame)@.dragging {
                None => true,
                Some(drag) => drag_delta(drag, ray_map@) is None,
            },
            DragOutcome::Ended(_) => false,
            DragOutcome::Moved { face, line, handle } => {
                &&& old(frame)@.dragging matches Some(drag)
                &&& drag_delta(drag, ray_map@) is Some
                &&& face == drag.face
                &&& face < 6
                &&& final(frame)@.is_line_of(face as int, line)
                &&& handle == final(frame)@.handle_of(face as int)
            },
        },
{
    let Some(drag) = frame.dragging() else {
        return DragOutcome::Unchanged;
    };
    let Some(pointer_ray) = ray_map.get(drag.ray_id()) else {
        return DragOutcome::Unchanged;
    };
    // Determine the new face coordinate from where the pointer pulls the
    // dragged face.
    let Some((delta, _)) = closest_points_on_two_rays(&drag.drag_ray(), &pointer_ray) else {
        return DragOutcome::Unchanged;
    };
    let face = drag.face();
    let coord = drag_coordinate(frame, &drag, delta);
    frame.set_face_during_drag(face, coord);
    DragOutcome::Moved {
        face,
        line: frame.reset_line(face),
        handle: frame.transform_handle(face),
    }
}

/// One tick of dragging for one frame.
///
/// Starts or stops the drag as the events of the tick say: a drag start
/// aimed at `entity` with the frame's drag button and a complete hit begins
/// a drag of the face that the hit normal points at; a drag end aimed at
/// `entity` ends it, sorts the faces and renews all of the geometry. While
/// a drag then still goes on, the dragged face follows the pointer ray that
/// began the drag, and the edge loop and the handle of that face are
/// renewed. Where the pointer ray is missing from `ray_map`, or parallel to
/// the drag ray, the frame stays as it is.
pub fn drag_face(
    frame: &mut BoxFrame,
    entity: u64,
    rotation: &Rotation,
    drag_starts: &Vec<DragStart>,
    drag_ends: &Vec<DragEnd>,
    ray_map: &RayMap,
) -> (outcome: DragOutcome)
    ensures
        final(frame)@ == after_drag_tick(
            old(frame)@,
            entity,
            *rotation,
            drag_starts@,
            drag_ends@,
            ray_map@,
        ),
        final(frame)@.wf(),
        is_drag_outcome(
            outcome,
            old(frame)@,
            final(frame)@,
            entity,
            *rotation,
            drag_starts@,
            drag_ends@,
            ray_map@,
        ),
{
    let mut i: usize = 0;
    while i < drag_starts.len()
        invariant
            i <= drag_starts.len(),
            frame@ == after_drag_starts(
                old(frame)@,
                entity,
                *rotation,
                drag_starts@.take(i as int),
            ),
        decreases drag_starts.len() - i,
    {
        proof {
            assert(drag_starts@.take(i as int + 1).drop_last() =~= drag_starts@.take(i as int));
        }
        start_drag(frame, entity, rotation, &drag_starts[i]);
        i += 1;
    }
    proof {
        assert(drag_starts@.take(i as int) =~= drag_starts@);
    }
    let outcome = if drag_end_targets_any(drag_ends, entity) {
        DragOutcome::Ended(frame.on_drag_end())
    } else {
        update_drag(frame, ray_map)
    };
    let _ = frame.dragging();
    outcome
}

} // verus!
