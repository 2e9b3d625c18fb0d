use box_frame::{
    BoxFrame, BoxFrameHandle, BoxFramePlugin, BoxFrameVisuals, Direction, DragEnd, DragOutcome,
    DragStart, HitData, MaterialUpdate, PointerButton, PointerEvent, PointerEvents, Ray, RayId,
    RayMap, Rotation, Vec3, Visibility, UNIT,
};

const FRAME: u64 = 7;
const CAMERA: u64 = 9;
const POINTER: u64 = 1;
const PLAIN: u64 = 1;
const LIT: u64 = 2;
const FACE_ENTITIES: [u64; 6] = [10, 11, 12, 13, 14, 15];
const HANDLE_ENTITIES: [u64; 6] = [20, 21, 22, 23, 24, 25];
const HANDLES: [BoxFrameHandle; 6] = [BoxFrameHandle { base_scale: 200, hover_scale: 1200 }; 6];

fn v(x: i32, y: i32, z: i32) -> Vec3 {
    Vec3 { x, y, z }
}

fn d(x: i16, y: i16, z: i16) -> Direction {
    Direction { x, y, z }
}

fn cube() -> BoxFrame {
    BoxFrame::build(
        [-2000, -2000, -2000, 2000, 2000, 2000],
        PointerButton::Primary,
        BoxFrameVisuals::new_default(PLAIN, LIT, 3, 4),
        FACE_ENTITIES,
        HANDLE_ENTITIES,
    )
    .0
}

fn hit_on_x() -> HitData {
    HitData {
        camera: CAMERA,
        depth: 3000,
        position: Some(v(2000, 0, 0)),
        normal: Some(d(UNIT, 0, 0)),
    }
}

fn pointer_event(target: u64) -> PointerEvent {
    PointerEvent { target, pointer_id: POINTER, hit: hit_on_x() }
}

fn no_events() -> PointerEvents {
    PointerEvents { over: vec![], moved: vec![], out: vec![], drag_start: vec![], drag_end: vec![] }
}

fn pointer_at(x: i32) -> RayMap {
    let mut map = RayMap::new();
    map.insert(
        RayId { camera: CAMERA, pointer: POINTER },
        Ray { origin: v(x, 0, 5000), direction: d(0, 0, -UNIT) },
    );
    map
}

fn materials(highlighted: Option<usize>) -> [MaterialUpdate; 6] {
    let mut all = [MaterialUpdate { entity: 0, material: PLAIN }; 6];
    for face in 0..6 {
        all[face].entity = FACE_ENTITIES[face];
        if highlighted == Some(face) {
            all[face].material = LIT;
        }
    }
    all
}

#[test]
fn hover_drag_and_release() {
    let plugin = BoxFramePlugin;
    let rotation = Rotation::identity();
    let mut frame = cube();

    // The pointer comes over the +X face: the face lights up and the
    // handles show.
    let mut events = no_events();
    events.over.push(pointer_event(FRAME));
    let update = plugin.update(&mut frame, FRAME, &rotation, &HANDLES, &events, &pointer_at(2000));
    assert_eq!(update.drag, DragOutcome::Unchanged);
    assert_eq!(update.face_materials, Some(materials(Some(3))));
    assert_eq!(update.handle_visibility, Some(Visibility::Visible));
    assert_eq!(update.handle_scales, [None; 6]);

    // It leaves: the highlight goes and the handles hide.
    let mut events = no_events();
    events.out.push(pointer_event(FRAME));
    let update = plugin.update(&mut frame, FRAME, &rotation, &HANDLES, &events, &pointer_at(2000));
    assert_eq!(update.face_materials, Some(materials(None)));
    assert_eq!(update.handle_visibility, Some(Visibility::Hidden));

    // A drag begins on the +X face and pulls it through the -X face.
    let mut events = no_events();
    events.drag_start.push(DragStart {
        target: FRAME,
        pointer_id: POINTER,
        button: PointerButton::Primary,
        hit: hit_on_x(),
    });
    let update = plugin.update(&mut frame, FRAME, &rotation, &HANDLES, &events, &pointer_at(-3000));
    assert!(matches!(update.drag, DragOutcome::Moved { face: 3, .. }));
    assert_eq!(frame.faces(), [-2000, -2000, -2000, -3000, 2000, 2000]);
    assert_eq!(update.face_materials, Some(materials(Some(3))));
    assert_eq!(update.handle_visibility, Some(Visibility::Hidden));

    // While the drag goes on, a move over another face changes nothing.
    let mut events = no_events();
    let mut on_y = pointer_event(FRAME);
    on_y.hit.normal = Some(d(0, UNIT, 0));
    events.moved.push(on_y);
    let update = plugin.update(&mut frame, FRAME, &rotation, &HANDLES, &events, &pointer_at(-3500));
    assert_eq!(frame.faces()[3], -3500);
    assert_eq!(update.face_materials, Some(materials(Some(3))));
    assert_eq!(update.handle_visibility, Some(Visibility::Hidden));

    // The button is let go: the faces are put in order again.
    let mut events = no_events();
    events.drag_end.push(DragEnd {
        target: FRAME,
        pointer_id: POINTER,
        button: PointerButton::Primary,
    });
    let update = plugin.update(&mut frame, FRAME, &rotation, &HANDLES, &events, &pointer_at(-3500));
    assert!(matches!(update.drag, DragOutcome::Ended(_)));
    assert!(frame.dragging().is_none());
    assert_eq!(frame.faces(), [-3500, -2000, -2000, -2000, 2000, 2000]);
    assert_eq!(update.face_materials, Some(materials(None)));
    assert_eq!(update.handle_visibility, None);
}

#[test]
fn a_tick_sizes_the_handles_under_the_pointer() {
    let plugin = BoxFramePlugin;
    let mut frame = cube();
    let mut events = no_events();
    events.over.push(pointer_event(HANDLE_ENTITIES[2]));
    events.over.push(pointer_event(HANDLE_ENTITIES[4]));
    events.out.push(pointer_event(HANDLE_ENTITIES[4]));
    events.out.push(pointer_event(HANDLE_ENTITIES[5]));
    let update =
        plugin.update(&mut frame, FRAME, &Rotation::identity(), &HANDLES, &events, &RayMap::new());
    assert_eq!(update.handle_scales, [None, None, Some(240), None, Some(200), Some(200)]);
    assert_eq!(update.drag, DragOutcome::Unchanged);
    assert_eq!(update.face_materials, None);
    assert_eq!(update.handle_visibility, None);
}

#[test]
fn a_tick_without_events_changes_nothing() {
    let plugin = BoxFramePlugin;
    let mut frame = cube();
    let update = plugin.update(
        &mut frame,
        FRAME,
        &Rotation::identity(),
        &HANDLES,
        &no_events(),
        &pointer_at(2500),
    );
    assert_eq!(update.drag, DragOutcome::Unchanged);
    assert_eq!(update.face_materials, None);
    assert_eq!(update.handle_visibility, None);
    assert_eq!(update.handle_scales, [None; 6]);
    assert_eq!(frame.faces(), [-2000, -2000, -2000, 2000, 2000, 2000]);
}
