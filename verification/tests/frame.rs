use box_frame::box_frame::{scale_length, DEFAULT_HANDLE_HOVER_SCALE, DEFAULT_HANDLE_SCALE};
use box_frame::geometry::face_polyline;
use box_frame::{
    BoxFrame, BoxFrameHandle, BoxFramePlugin, BoxFrameVisuals, FrameParts, PointerButton, Vec3,
    Visibility,
};

const FACE_ENTITIES: [u64; 6] = [10, 11, 12, 13, 14, 15];
const HANDLE_ENTITIES: [u64; 6] = [20, 21, 22, 23, 24, 25];

fn v(x: i32, y: i32, z: i32) -> Vec3 {
    Vec3 { x, y, z }
}

fn visuals() -> BoxFrameVisuals {
    BoxFrameVisuals::new_default(1, 2, 3, 4)
}

fn build(faces: [i32; 6]) -> (BoxFrame, FrameParts) {
    BoxFrame::build(faces, PointerButton::Primary, visuals(), FACE_ENTITIES, HANDLE_ENTITIES)
}

#[test]
fn default_visuals_keep_the_assets_and_set_the_scales() {
    let visuals = BoxFrameVisuals::new_default(1, 2, 3, 4);
    assert_eq!(visuals.edge_material, 1);
    assert_eq!(visuals.edge_highlight_material, 2);
    assert_eq!(visuals.handle_mesh, 3);
    assert_eq!(visuals.handle_material, 4);
    assert_eq!(visuals.handle_scale, 50);
    assert_eq!(visuals.handle_hover_scale, 1200);
    assert_eq!(visuals.minimum_extent, None);
    assert_eq!(DEFAULT_HANDLE_SCALE, 50);
    assert_eq!(DEFAULT_HANDLE_HOVER_SCALE, 1200);
}

#[test]
fn build_sorts_the_faces() {
    let (frame, _) = build([1000, 0, 9000, 0, 5000, 0]);
    assert_eq!(frame.faces(), [0, 0, 0, 1000, 5000, 9000]);
    assert_eq!(frame.sorted_faces(), [0, 0, 0, 1000, 5000, 9000]);
    assert!(frame.dragging().is_none());
    assert_eq!(frame.drag_button(), PointerButton::Primary);
    assert_eq!(frame.visuals(), visuals());
    assert_eq!(frame.face_entities(), FACE_ENTITIES);
    assert_eq!(frame.handle_entities(), HANDLE_ENTITIES);
}

#[test]
fn build_says_what_to_spawn_for_each_face() {
    let (_, parts) = build([1000, 0, 9000, 0, 5000, 0]);
    for face in 0..6 {
        let part = parts.faces[face];
        assert_eq!(part.entity, FACE_ENTITIES[face]);
        assert_eq!(part.material, 1);
        assert_eq!(part.polyline, face_polyline([0, 0, 0, 1000, 5000, 9000], face));
    }
    assert_eq!(
        parts.faces[3].polyline.vertices,
        [
            v(1000, 0, 0),
            v(1000, 0, 9000),
            v(1000, 5000, 9000),
            v(1000, 5000, 0),
            v(1000, 0, 0)
        ]
    );
}

#[test]
fn build_says_what_to_spawn_for_each_handle() {
    let (_, parts) = build([1000, 0, 9000, 0, 5000, 0]);
    let centers = [
        v(0, 2500, 4500),
        v(500, 0, 4500),
        v(500, 2500, 0),
        v(1000, 2500, 4500),
        v(500, 5000, 4500),
        v(500, 2500, 9000),
    ];
    for face in 0..6 {
        let part = parts.handles[face];
        assert_eq!(part.entity, HANDLE_ENTITIES[face]);
        assert_eq!(part.mesh, 3);
        assert_eq!(part.material, 4);
        assert_eq!(part.translation, centers[face]);
        assert_eq!(part.scale, 250);
        assert_eq!(part.visibility, Visibility::Hidden);
        assert_eq!(part.handle, BoxFrameHandle { base_scale: 250, hover_scale: 1200 });
    }
}

#[test]
fn queries_follow_the_faces() {
    let (frame, _) = build([-1000, -2000, -3000, 1000, 2000, 3001]);
    assert_eq!(frame.extents(), [2000, 4000, 6001]);
    assert_eq!(frame.center(), v(0, 0, 0));
    assert_eq!(frame.aabb().mins, v(-1000, -2000, -3000));
    assert_eq!(frame.aabb().maxs, v(1000, 2000, 3001));
    assert_eq!(
        frame.face_centers(),
        [
            v(-1000, 0, 0),
            v(0, -2000, 0),
            v(0, 0, -3000),
            v(1000, 0, 0),
            v(0, 2000, 0),
            v(0, 0, 3001)
        ]
    );
    assert_eq!(frame.handle_ball().radius, 200);
}

#[test]
fn handle_ball_is_a_twentieth_of_the_median_extent() {
    let (frame, _) = build([0, 0, 0, 1000, 5000, 9000]);
    assert_eq!(frame.handle_ball().radius, 250);
    let (frame, _) = build([0, 0, 0, 19, 19, 19]);
    assert_eq!(frame.handle_ball().radius, 0);
    let (frame, _) = build([0, 0, 0, 20, 39, 40]);
    assert_eq!(frame.handle_ball().radius, 1);
    let (frame, _) = build([i32::MIN, i32::MIN, i32::MIN, i32::MAX, i32::MAX, i32::MAX]);
    assert_eq!(frame.handle_ball().radius, 214_748_364);
}

#[test]
fn handle_scale_follows_the_visuals() {
    let (mut frame, _) = build([0, 0, 0, 1000, 5000, 9000]);
    let mut visuals = frame.visuals();
    visuals.handle_scale = 1000;
    frame.set_visuals(visuals);
    assert_eq!(frame.handle_ball().radius, 5000);
    assert_eq!(frame.transform_handle(0).scale, 5000);
    assert_eq!(frame.transform_handle(0).base_scale, 5000);
    frame.set_drag_button(PointerButton::Middle);
    assert_eq!(frame.drag_button(), PointerButton::Middle);
    assert_eq!(frame.faces(), [0, 0, 0, 1000, 5000, 9000]);
}

#[test]
fn scale_length_is_in_thousandths_rounded_down() {
    assert_eq!(scale_length(5000, 50), 250);
    assert_eq!(scale_length(250, 1200), 300);
    assert_eq!(scale_length(999, 1), 0);
    assert_eq!(scale_length(1000, 1), 1);
    assert_eq!(scale_length(7, 0), 0);
    assert_eq!(scale_length(u64::MAX, 1000), u64::MAX);
    assert_eq!(scale_length(u64::MAX, 1001), u64::MAX);
    assert_eq!(scale_length(u64::MAX, 500), u64::MAX / 2);
}

#[test]
fn transform_handles_places_each_handle_on_its_face() {
    let (frame, _) = build([0, 0, 0, 1000, 5000, 9000]);
    let placements = frame.transform_handles();
    let centers = frame.face_centers();
    for face in 0..6 {
        assert_eq!(placements[face], frame.transform_handle(face));
        assert_eq!(placements[face].entity, HANDLE_ENTITIES[face]);
        assert_eq!(placements[face].translation, centers[face]);
        assert_eq!(placements[face].base_scale, 250);
        assert_eq!(placements[face].scale, 250);
    }
}

#[test]
fn reset_lines_gives_each_face_its_edge_loop() {
    let (frame, _) = build([0, 0, 0, 1000, 5000, 9000]);
    let lines = frame.reset_lines();
    for face in 0..6 {
        assert_eq!(lines[face], frame.reset_line(face));
        assert_eq!(lines[face].entity, FACE_ENTITIES[face]);
        assert_eq!(lines[face].polyline, face_polyline(frame.faces(), face));
    }
}

#[test]
fn highlights_swap_the_material_of_one_face() {
    let (frame, _) = build([0, 0, 0, 1000, 5000, 9000]);
    let cleared = frame.clear_highlights();
    for face in 0..6 {
        assert_eq!(cleared[face].entity, FACE_ENTITIES[face]);
        assert_eq!(cleared[face].material, 1);
    }
    let lit = frame.highlight_face(4);
    assert_eq!(lit.entity, 14);
    assert_eq!(lit.material, 2);
}

#[test]
fn plugin_is_a_unit_value() {
    let plugin = BoxFramePlugin;
    let copy = plugin;
    let _ = (plugin, copy, BoxFramePlugin::default());
}
