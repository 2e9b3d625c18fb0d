use box_frame::geometry::face_polyline;
use box_frame::{
    drag_face, BoxFrame, BoxFrameVisuals, Direction, DragEnd, DragOutcome, DragStart, HitData,
    PointerButton, Ray, RayId, RayMap, Rotation, Vec3, UNIT,
};

const FRAME: u64 = 7;
const CAMERA: u64 = 9;
const POINTER: u64 = 1;
const FACE_ENTITIES: [u64; 6] = [10, 11, 12, 13, 14, 15];
const HANDLE_ENTITIES: [u64; 6] = [20, 21, 22, 23, 24, 25];

fn v(x: i32, y: i32, z: i32) -> Vec3 {
    Vec3 { x, y, z }
}

fn d(x: i16, y: i16, z: i16) -> Direction {
    Direction { x, y, z }
}

fn cube(minimum_extent: Option<u32>) -> BoxFrame {
    let mut visuals = BoxFrameVisuals::new_default(1, 2, 3, 4);
    visuals.minimum_extent = minimum_extent;
    BoxFrame::build(
        [-2000, -2000, -2000, 2000, 2000, 2000],
        PointerButton::Primary,
        visuals,
        FACE_ENTITIES,
        HANDLE_ENTITIES,
    )
    .0
}

fn start(position: Vec3, normal: Direction) -> DragStart {
    DragStart {
        target: FRAME,
        pointer_id: POINTER,
        button: PointerButton::Primary,
        hit: HitData { camera: CAMERA, depth: 3000, position: Some(position), normal: Some(normal) },
    }
}

fn end() -> DragEnd {
    DragEnd { target: FRAME, pointer_id: POINTER, button: PointerButton::Primary }
}

/// A pointer ray that looks down the Z axis at the given x and y.
fn pointer_at(x: i32, y: i32) -> RayMap {
    let mut map = RayMap::new();
    map.insert(
        RayId { camera: CAMERA, pointer: POINTER },
        Ray { origin: v(x, y, 5000), direction: d(0, 0, -UNIT) },
    );
    map
}

fn tick(frame: &mut BoxFrame, starts: Vec<DragStart>, ends: Vec<DragEnd>, rays: &RayMap) -> DragOutcome {
    drag_face(frame, FRAME, &Rotation::identity(), &starts, &ends, rays)
}

#[test]
fn dragging_a_high_face_outward_raises_its_coordinate() {
    let mut frame = cube(None);
    let outcome =
        tick(&mut frame, vec![start(v(2000, 0, 0), d(UNIT, 0, 0))], vec![], &pointer_at(2500, 1000));
    let dragging = frame.dragging().unwrap();
    assert_eq!(dragging.face(), 3);
    assert_eq!(dragging.initial_coord(), 2000);
    assert_eq!(frame.faces()[3], 2500);
    assert_eq!(frame.faces(), [-2000, -2000, -2000, 2500, 2000, 2000]);
    assert!(matches!(outcome, DragOutcome::Moved { face: 3, .. }));
}

#[test]
fn dragging_a_low_face_outward_lowers_its_coordinate() {
    let mut frame = cube(None);
    tick(&mut frame, vec![start(v(-2000, 0, 0), d(-UNIT, 0, 0))], vec![], &pointer_at(-2500, 1000));
    let dragging = frame.dragging().unwrap();
    assert_eq!(dragging.face(), 0);
    assert_eq!(dragging.initial_coord(), -2000);
    // The pull along the outward normal is 500 again: the sign of a low
    // face turns it into a step down.
    assert_eq!(frame.faces()[0], -2500);
}

#[test]
fn dragging_a_low_face_inward_raises_its_coordinate() {
    let mut frame = cube(None);
    tick(&mut frame, vec![start(v(-2000, 0, 0), d(-UNIT, 0, 0))], vec![], &pointer_at(-1500, 1000));
    assert_eq!(frame.faces()[0], -1500);
}

#[test]
fn drag_state_records_where_the_drag_began() {
    let mut frame = cube(None);
    tick(&mut frame, vec![start(v(2000, 30, -40), d(UNIT, 0, 0))], vec![], &RayMap::new());
    let dragging = frame.dragging().unwrap();
    assert_eq!(dragging.face(), 3);
    assert_eq!(dragging.initial_coord(), 2000);
    assert_eq!(dragging.ray_id(), RayId { camera: CAMERA, pointer: POINTER });
    assert_eq!(dragging.drag_ray(), Ray { origin: v(2000, 30, -40), direction: d(UNIT, 0, 0) });
}

#[test]
fn the_drag_follows_the_pointer_from_where_it_began() {
    let mut frame = cube(None);
    tick(&mut frame, vec![start(v(2000, 0, 0), d(UNIT, 0, 0))], vec![], &pointer_at(2500, 0));
    assert_eq!(frame.faces()[3], 2500);
    tick(&mut frame, vec![], vec![], &pointer_at(2100, 0));
    assert_eq!(frame.faces()[3], 2100);
    tick(&mut frame, vec![], vec![], &pointer_at(2000, 0));
    assert_eq!(frame.faces()[3], 2000);
    assert_eq!(frame.dragging().unwrap().initial_coord(), 2000);
}

#[test]
fn a_moved_face_brings_its_edge_loop_and_handle() {
    let mut frame = cube(None);
    let outcome =
        tick(&mut frame, vec![start(v(2000, 0, 0), d(UNIT, 0, 0))], vec![], &pointer_at(2500, 1000));
    let DragOutcome::Moved { face, line, handle } = outcome else {
        panic!("the face did not move");
    };
    assert_eq!(face, 3);
    assert_eq!(line.entity, 13);
    assert_eq!(line.polyline, face_polyline([-2000, -2000, -2000, 2500, 2000, 2000], 3));
    assert_eq!(
        line.polyline.vertices,
        [
            v(2500, -2000, -2000),
            v(2500, -2000, 2000),
            v(2500, 2000, 2000),
            v(2500, 2000, -2000),
            v(2500, -2000, -2000)
        ]
    );
    assert_eq!(handle.entity, 23);
    assert_eq!(handle.translation, v(2500, 0, 0));
    assert_eq!(handle.base_scale, 200);
    assert_eq!(handle.scale, 200);
}

#[test]
fn a_face_can_pass_through_the_face_opposite() {
    let mut frame = cube(None);
    tick(&mut frame, vec![start(v(2000, 0, 0), d(UNIT, 0, 0))], vec![], &pointer_at(-3000, 0));
    assert_eq!(frame.faces(), [-2000, -2000, -2000, -3000, 2000, 2000]);
    assert_eq!(frame.sorted_faces(), [-3000, -2000, -2000, -2000, 2000, 2000]);
    assert_eq!(frame.extents(), [1000, 4000, 4000]);
}

#[test]
fn drag_end_restores_the_order_of_the_faces() {
    let mut frame = cube(None);
    tick(&mut frame, vec![start(v(2000, 0, 0), d(UNIT, 0, 0))], vec![], &pointer_at(-3000, 0));
    assert_eq!(frame.faces()[3], -3000);
    let outcome = tick(&mut frame, vec![], vec![end()], &pointer_at(-3000, 0));
    assert!(frame.dragging().is_none());
    assert_eq!(frame.faces(), [-3000, -2000, -2000, -2000, 2000, 2000]);
    let DragOutcome::Ended(parts) = outcome else {
        panic!("the drag did not end");
    };
    assert_eq!(parts.lines, frame.reset_lines());
    assert_eq!(parts.handles, frame.transform_handles());
    assert_eq!(parts.handles[0].translation, v(-3000, 0, 0));
    assert_eq!(parts.handles[3].translation, v(-2000, 0, 0));
    assert_eq!(parts.handles[3].scale, 200);
}

#[test]
fn start_and_end_in_one_tick_leave_the_frame_idle() {
    let mut frame = cube(None);
    let outcome = tick(
        &mut frame,
        vec![start(v(2000, 0, 0), d(UNIT, 0, 0))],
        vec![end()],
        &pointer_at(2500, 0),
    );
    assert!(frame.dragging().is_none());
    assert_eq!(frame.faces(), [-2000, -2000, -2000, 2000, 2000, 2000]);
    assert!(matches!(outcome, DragOutcome::Ended(_)));
}

#[test]
fn a_drag_end_for_another_target_is_ignored() {
    let mut frame = cube(None);
    tick(&mut frame, vec![start(v(2000, 0, 0), d(UNIT, 0, 0))], vec![], &pointer_at(2500, 0));
    let other = DragEnd { target: FRAME + 1, pointer_id: POINTER, button: PointerButton::Primary };
    let outcome = tick(&mut frame, vec![], vec![other], &pointer_at(2600, 0));
    assert!(frame.dragging().is_some());
    assert_eq!(frame.faces()[3], 2600);
    assert!(matches!(outcome, DragOutcome::Moved { face: 3, .. }));
}

#[test]
fn the_last_drag_start_of_a_tick_counts() {
    let mut frame = cube(None);
    tick(
        &mut frame,
        vec![start(v(2000, 0, 0), d(UNIT, 0, 0)), start(v(0, 2000, 0), d(0, UNIT, 0))],
        vec![],
        &pointer_at(0, 2750),
    );
    assert_eq!(frame.dragging().unwrap().face(), 4);
    assert_eq!(frame.faces(), [-2000, -2000, -2000, 2000, 2750, 2000]);
}

#[test]
fn a_drag_start_without_position_or_normal_is_ignored() {
    let mut no_normal = start(v(2000, 0, 0), d(UNIT, 0, 0));
    no_normal.hit.normal = None;
    let mut no_position = start(v(2000, 0, 0), d(UNIT, 0, 0));
    no_position.hit.position = None;
    let mut frame = cube(None);
    let outcome = tick(&mut frame, vec![no_normal, no_position], vec![], &pointer_at(2500, 0));
    assert!(frame.dragging().is_none());
    assert_eq!(frame.faces(), [-2000, -2000, -2000, 2000, 2000, 2000]);
    assert_eq!(outcome, DragOutcome::Unchanged);
}

#[test]
fn a_drag_start_for_another_target_or_button_is_ignored() {
    let mut other_target = start(v(2000, 0, 0), d(UNIT, 0, 0));
    other_target.target = FRAME + 1;
    let mut other_button = start(v(2000, 0, 0), d(UNIT, 0, 0));
    other_button.button = PointerButton::Secondary;
    let mut frame = cube(None);
    let outcome = tick(&mut frame, vec![other_target, other_button], vec![], &pointer_at(2500, 0));
    assert!(frame.dragging().is_none());
    assert_eq!(outcome, DragOutcome::Unchanged);
}

#[test]
fn an_ignored_drag_start_leaves_a_drag_under_way() {
    let mut other_button = start(v(0, 2000, 0), d(0, UNIT, 0));
    other_button.button = PointerButton::Middle;
    let mut frame = cube(None);
    tick(
        &mut frame,
        vec![start(v(2000, 0, 0), d(UNIT, 0, 0)), other_button],
        vec![],
        &pointer_at(2500, 0),
    );
    assert_eq!(frame.dragging().unwrap().face(), 3);
    assert_eq!(frame.faces()[3], 2500);
}

#[test]
fn without_the_pointer_ray_the_frame_stays_as_it_is() {
    let mut frame = cube(None);
    tick(&mut frame, vec![start(v(2000, 0, 0), d(UNIT, 0, 0))], vec![], &pointer_at(2500, 0));
    let mut other = RayMap::new();
    other.insert(
        RayId { camera: CAMERA, pointer: POINTER + 1 },
        Ray { origin: v(2900, 0, 5000), direction: d(0, 0, -UNIT) },
    );
    let outcome = tick(&mut frame, vec![], vec![], &other);
    assert_eq!(outcome, DragOutcome::Unchanged);
    assert!(frame.dragging().is_some());
    assert_eq!(frame.faces()[3], 2500);
    let outcome = tick(&mut frame, vec![], vec![], &RayMap::new());
    assert_eq!(outcome, DragOutcome::Unchanged);
    assert_eq!(frame.faces()[3], 2500);
}

#[test]
fn a_parallel_pointer_ray_leaves_the_frame_as_it_is() {
    let mut frame = cube(None);
    tick(&mut frame, vec![start(v(2000, 0, 0), d(UNIT, 0, 0))], vec![], &pointer_at(2500, 0));
    let mut along = RayMap::new();
    along.insert(
        RayId { camera: CAMERA, pointer: POINTER },
        Ray { origin: v(9000, 100, 100), direction: d(UNIT, 0, 0) },
    );
    let outcome = tick(&mut frame, vec![], vec![], &along);
    assert_eq!(outcome, DragOutcome::Unchanged);
    assert!(frame.dragging().is_some());
    assert_eq!(frame.faces()[3], 2500);
    // The next tick, with a ray across, the drag goes on.
    tick(&mut frame, vec![], vec![], &pointer_at(2700, 0));
    assert_eq!(frame.faces()[3], 2700);
}

#[test]
fn an_idle_frame_does_nothing() {
    let mut frame = cube(None);
    let outcome = tick(&mut frame, vec![], vec![], &pointer_at(2500, 0));
    assert_eq!(outcome, DragOutcome::Unchanged);
    assert_eq!(frame.faces(), [-2000, -2000, -2000, 2000, 2000, 2000]);
}

#[test]
fn the_least_extent_stops_a_high_face_short_of_the_low_face() {
    let mut frame = cube(Some(100));
    tick(&mut frame, vec![start(v(2000, 0, 0), d(UNIT, 0, 0))], vec![], &pointer_at(-3000, 0));
    assert_eq!(frame.faces()[3], -1900);
    tick(&mut frame, vec![], vec![], &pointer_at(-1900, 0));
    assert_eq!(frame.faces()[3], -1900);
    tick(&mut frame, vec![], vec![], &pointer_at(-1899, 0));
    assert_eq!(frame.faces()[3], -1899);
}

#[test]
fn the_least_extent_stops_a_low_face_short_of_the_high_face() {
    let mut frame = cube(Some(100));
    tick(&mut frame, vec![start(v(-2000, 0, 0), d(-UNIT, 0, 0))], vec![], &pointer_at(3000, 0));
    assert_eq!(frame.faces()[0], 1900);
    tick(&mut frame, vec![], vec![], &pointer_at(-2600, 0));
    assert_eq!(frame.faces()[0], -2600);
}

#[test]
fn a_least_extent_of_zero_lets_the_faces_meet() {
    let mut frame = cube(Some(0));
    tick(&mut frame, vec![start(v(2000, 0, 0), d(UNIT, 0, 0))], vec![], &pointer_at(-3000, 0));
    assert_eq!(frame.faces()[3], -2000);
    assert_eq!(frame.extents()[0], 0);
}

#[test]
fn a_pull_beyond_the_grid_stops_at_its_edge() {
    // A pointer ray that is almost parallel to the drag ray meets it far
    // away.
    let mut frame = cube(None);
    let mut rays = RayMap::new();
    rays.insert(
        RayId { camera: CAMERA, pointer: POINTER },
        Ray { origin: v(2000, 1_000_000, 0), direction: d(UNIT, 1, 0) },
    );
    tick(&mut frame, vec![start(v(2000, 0, 0), d(UNIT, 0, 0))], vec![], &rays);
    assert_eq!(frame.faces()[3], i32::MIN);
    let mut rays = RayMap::new();
    rays.insert(
        RayId { camera: CAMERA, pointer: POINTER },
        Ray { origin: v(2000, -1_000_000, 0), direction: d(UNIT, 1, 0) },
    );
    tick(&mut frame, vec![], vec![], &rays);
    assert_eq!(frame.faces()[3], i32::MAX);
}

#[test]
fn a_turned_box_is_dragged_along_its_own_normal() {
    // A quarter turn about Z: the +X face of the box looks along the
    // world's Y.
    let turned = Rotation {
        x_axis: d(0, UNIT, 0),
        y_axis: d(-UNIT, 0, 0),
        z_axis: d(0, 0, UNIT),
    };
    let mut frame = cube(None);
    let mut rays = RayMap::new();
    rays.insert(
        RayId { camera: CAMERA, pointer: POINTER },
        Ray { origin: v(300, 2400, 5000), direction: d(0, 0, -UNIT) },
    );
    let outcome = drag_face(
        &mut frame,
        FRAME,
        &turned,
        &vec![start(v(0, 2000, 0), d(0, UNIT, 0))],
        &vec![],
        &rays,
    );
    assert!(matches!(outcome, DragOutcome::Moved { face: 3, .. }));
    assert_eq!(frame.faces(), [-2000, -2000, -2000, 2400, 2000, 2000]);
}
