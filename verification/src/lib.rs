//! A box gizmo core on an integer grid: a wireframe box whose six faces can
//! be dragged one at a time along their axes, with the picking, drag and
//! highlight decisions that go with it.
//!
//! Coordinates are whole numbers of world units; the host chooses how fine
//! a unit is. Directions are short vectors whose unit length is
//! [`math::UNIT`]. The host owns the scene: it casts the pointer rays,
//! delivers the pointer events of each tick and applies the updates that
//! the functions here return.
//!
//! A tick goes in this order: [`picking_backend::box_frame_backend`] turns
//! the ray casts of the tick into hits; the host turns hits into pointer
//! events; [`BoxFramePlugin::update`] takes the events to each frame.

pub mod box_frame;
pub mod drag_face;
pub mod events;
pub mod geometry;
pub mod handle_visibility;
pub mod highlight;
pub mod math;
pub mod picking_backend;
pub mod plugin;
pub mod ray;

pub use box_frame::{
    Ball, BoxFrame, BoxFrameHandle, BoxFrameVisuals, FacePart, FrameParts, HandlePart,
    HandlePlacement, LineUpdate, MaterialUpdate, Regenerated, Visibility,
};
pub use drag_face::{drag_face, DragOutcome, Dragging};
pub use events::{DragEnd, DragStart, HitData, PointerButton, PointerEvent};
pub use geometry::{median3, Aabb, FaceIndex, Polyline};
pub use handle_visibility::handle_visibility;
pub use highlight::{highlight_face, highlight_handles};
pub use math::{Direction, Rotation, Vec3, UNIT};
pub use picking_backend::{
    box_frame_backend, BoxHit, CameraView, FrameProbe, HandleHit, PointerHits, RayProbe,
};
pub use plugin::{BoxFramePlugin, FrameUpdate, PointerEvents};
pub use ray::{closest_points_on_two_rays, Ray, RayId, RayMap};
