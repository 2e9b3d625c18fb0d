//! The box frame itself: its face coordinates, its parts in the host's scene
//! and what of it is being dragged.

use vstd::prelude::*;
use crate::drag_face::{DragState, Dragging};
use crate::events::PointerButton;
use crate::geometry::{
    aabb_from_faces, aabb_of, box_extents, edge_loop_of, extent_of, face_center,
    face_center_of, face_polyline, faces_sorted, median3, median_of, sorted_faces,
    sorted_faces_of, Aabb, FaceIndex, Polyline,
};
use crate::math::{lemma_product_bound, Vec3};

verus! {

/// Scaling factors are given in thousandths.
pub const PER_MILLE: u64 = 1000;

/// The handle scale of [`BoxFrameVisuals::new_default`]: a twentieth of the
/// median extent.
pub const DEFAULT_HANDLE_SCALE: u16 = 50;

/// The hover scale of [`BoxFrameVisuals::new_default`]: a fifth larger.
pub const DEFAULT_HANDLE_HOVER_SCALE: u16 = 1200;

/// Whether a part of the scene is drawn.
#[derive(Clone, Copy, Debug, PartialEq, Eq, Structural)]
pub enum Visibility {
    Visible,
    Hidden,
}

/// Assets and configuration for how the gizmo is rendered. The assets are
/// the host's: the frame only hands their ids on.
#[derive(Clone, Copy, Debug, PartialEq, Eq)]
pub struct BoxFrameVisuals {
    /// Material used for frame edges.
    pub edge_material: u64,
    /// Material used for highlighting frame edges.
    pub edge_highlight_material: u64,
    /// Mesh used to render a face handle.
    pub handle_mesh: u64,
    /// Material used to render a face handle.
    pub handle_material: u64,
    /// The size of a handle that no pointer hovers over, in thousandths of
    /// the median extent of the box. This is also the radius of the ball
    /// that stands for the handle in picking.
    pub handle_scale: u16,
    /// The size of a handle under a pointer, in thousandths of its size
    /// without one.
    pub handle_hover_scale: u16,
    /// The least distance that a drag leaves between a face and the face
    /// opposite. Without one a face can be dragged through the box.
    pub minimum_extent: Option<u32>,
}

/// What the host keeps with each handle.
#[derive(Clone, Copy, Debug, PartialEq, Eq, Structural)]
pub struct BoxFrameHandle {
    pub base_scale: u64,
    pub hover_scale: u16,
}

/// The ball that stands for a handle in picking.
#[derive(Clone, Copy, Debug, PartialEq, Eq, Structural)]
pub struct Ball {
    pub radius: u64,
}

/// The edge loop that a face of the frame gets.
#[derive(Clone, Copy, Debug, PartialEq, Eq)]
pub struct LineUpdate {
    pub entity: u64,
    pub polyline: Polyline,
}

/// Where a handle goes and how large it is.
#[derive(Clone, Copy, Debug, PartialEq, Eq, Structural)]
pub struct HandlePlacement {
    pub entity: u64,
    pub base_scale: u64,
    pub translation: Vec3,
    pub scale: u64,
}

/// The material that a face of the frame gets.
#[derive(Clone, Copy, Debug, PartialEq, Eq, Structural)]
pub struct MaterialUpdate {
    pub entity: u64,
    pub material: u64,
}

/// What the host spawns for one face of a new frame.
#[derive(Clone, Copy, Debug, PartialEq, Eq)]
pub struct FacePart {
    pub entity: u64,
    pub polyline: Polyline,
    pub material: u64,
}

/// What the host spawns for one handle of a new frame.
#[derive(Clone, Copy, Debug, PartialEq, Eq, Structural)]
pub struct HandlePart {
    pub entity: u64,
    pub mesh: u64,
    pub material: u64,
    pub translation: Vec3,
    pub scale: u64,
    pub visibility: Visibility,
    pub handle: BoxFrameHandle,
}

/// What the host spawns for a new frame.
#[derive(Clone, Copy, Debug, PartialEq, Eq)]
pub struct FrameParts {
    pub faces: [FacePart; 6],
    pub handles: [HandlePart; 6],
}

/// The geometry that goes with all six faces.
#[derive(Clone, Copy, Debug, PartialEq, Eq)]
pub struct Regenerated {
    pub lines: [LineUpdate; 6],
    pub handles: [HandlePlacement; 6],
}

/// The behavioral component of a box frame entity.
///
/// Users should not manually construct this type. Instead use
/// [`BoxFrame::build`].
pub struct BoxFrame {
    drag_button: PointerButton,
    visuals: BoxFrameVisuals,
    dragging_face: Option<Dragging>,
    faces: [i32; 6],
    face_entities: [u64; 6],
    handle_entities: [u64; 6],
}

/// What a [`BoxFrame`] holds, as contracts see it.
pub struct BoxFrameView {
    /// The button that triggers face dragging.
    pub drag_button: PointerButton,
    /// Assets and configuration for how the gizmo is rendered.
    pub visuals: BoxFrameVisuals,
    /// The drag that is under way, if one is.
    pub dragging: Option<DragState>,
    /// The coordinate of each face.
    pub faces: Seq<i32>,
    /// The scene entity of each face's edge loop.
    pub face_entities: Seq<u64>,
    /// The scene entity of each face's handle.
    pub handle_entities: Seq<u64>,
}

/// `length` scaled by a factor in thousandths, rounded down, and no more
/// than 64 bits hold.
pub open spec fn scaled(length: int, per_mille: int) -> int {
    let s = length * per_mille / (PER_MILLE as int);
    if s > u64::MAX {
        u64::MAX as int
    } else {
        s
    }
}

/// The size of the handles of a box: the median of its extents, scaled.
pub open spec fn handle_scale_of(visuals: BoxFrameVisuals, faces: Seq<i32>) -> int {
    scaled(
        median_of(extent_of(faces, 0), extent_of(faces, 1), extent_of(faces, 2)),
        visuals.handle_scale as int,
    )
}

impl BoxFrameView {
    /// Six faces, six entities of each kind, a dragged face that is one of
    /// the six, and faces that are in order unless a drag is under way.
    pub open spec fn wf(self) -> bool {
        &&& self.faces.len() == 6
        &&& self.face_entities.len() == 6
        &&& self.handle_entities.len() == 6
        &&& self.dragging matches Some(d) ==> 0 <= d.face < 6
        &&& self.dragging is None ==> faces_sorted(self.faces)
    }

    /// Whether `update` is the edge loop of `face` as the faces stand.
    pub open spec fn is_line_of(self, face: int, update: LineUpdate) -> bool {
        &&& update.entity == self.face_entities[face]
        &&& update.polyline.vertices@ == edge_loop_of(self.faces, face)
    }

    /// Where the handle of `face` belongs as the faces stand.
    pub open spec fn handle_of(self, face: int) -> HandlePlacement {
        HandlePlacement {
            entity: self.handle_entities[face],
            base_scale: handle_scale_of(self.visuals, self.faces) as u64,
            translation: face_center_of(self.faces, face),
            scale: handle_scale_of(self.visuals, self.faces) as u64,
        }
    }

    /// The material of `face` where `highlighted` is the face to emphasise.
    pub open spec fn material_of(self, face: int, highlighted: Option<int>) -> MaterialUpdate {
        MaterialUpdate {
            entity: self.face_entities[face],
            material: if highlighted == Some(face) {
                self.visuals.edge_highlight_material
            } else {
                self.visuals.edge_material
            },
        }
    }

    /// Whether `parts` is the geometry of all six faces as they stand.
    pub open spec fn is_geometry(self, parts: Regenerated) -> bool {
        &&& forall|face: int| 0 <= face < 6 ==> self.is_line_of(face, #[trigger] parts.lines[face])
        &&& forall|face: int| 0 <= face < 6 ==> #[trigger] parts.handles[face] == self.handle_of(face)
    }
}

impl View for BoxFrame {
    type V = BoxFrameView;

    closed spec fn view(&self) -> BoxFrameView {
        BoxFrameView {
            drag_button: self.drag_button,
            visuals: self.visuals,
            dragging: match self.dragging_face {
                Some(d) => Some(d@),
                None => None,
            },
            faces: self.faces@,
            face_entities: self.face_entities@,
            handle_entities: self.handle_entities@,
        }
    }
}

/// Scales a length by a factor in thousandths.
pub fn scale_length(length: u64, per_mille: u16) -> (s: u64)
    ensures
        s == scaled(length as int, per_mille as int),
{
    proof {
        lemma_product_bound(
            length as int,
            per_mille as int,
            0x1_0000_0000_0000_0000,
            0x1_0000,
        );
    }
    let wide: u128 = (length as u128) * (per_mille as u128) / (PER_MILLE as u128);
    if wide > u64::MAX as u128 {
        u64::MAX
    } else {
        wide as u64
    }
}

impl BoxFrameVisuals {
    /// The default configuration around the host's assets: handles a
    /// twentieth of the median extent in size, a fifth larger under a
    /// pointer, and no least extent.
    pub fn new_default(
        edge_material: u64,
        edge_highlight_material: u64,
        handle_mesh: u64,
        handle_material: u64,
    ) -> (visuals: BoxFrameVisuals)
        ensures
            visuals == (BoxFrameVisuals {
                edge_material,
                edge_highlight_material,
                handle_mesh,
                handle_material,
                handle_scale: DEFAULT_HANDLE_SCALE,
                handle_hover_scale: DEFAULT_HANDLE_HOVER_SCALE,
                minimum_extent: None,
            }),
    {
        BoxFrameVisuals {
            edge_material,
            edge_highlight_material,
            handle_mesh,
            handle_material,
            handle_scale: DEFAULT_HANDLE_SCALE,
            handle_hover_scale: DEFAULT_HANDLE_HOVER_SCALE,
            minimum_extent: None,
        }
    }
}

impl BoxFrame {
    /// While no drag is under way the faces are in order.
    #[verifier::type_invariant]
    spec fn settled(&self) -> bool {
        self.dragging_face is None ==> faces_sorted(self.faces@)
    }

    /// Builds a box frame and says what the host is to spawn for it.
    ///
    /// `faces`: Coordinates of each face along its normal axis, in any
    /// order along each axis; the frame keeps them sorted. See
    /// [`FaceIndex`]. `face_entities` and `handle_entities` are the scene
    /// entities that will carry the edge loop and the handle of each face.
    pub fn build(
        faces: [i32; 6],
        drag_button: PointerButton,
        visuals: BoxFrameVisuals,
        face_entities: [u64; 6],
        handle_entities: [u64; 6],
    ) -> (built: (BoxFrame, FrameParts))
        ensures
            built.0@ == (BoxFrameView {
                drag_button,
                visuals,
                dragging: None,
                faces: sorted_faces_of(faces@),
                face_entities: face_entities@,
                handle_entities: handle_entities@,
            }),
            built.0@.wf(),
            forall|face: int|
                0 <= face < 6 ==> {
                    let part = #[trigger] built.1.faces[face];
                    &&& part.entity == face_entities[face]
                    &&& part.polyline.vertices@ == edge_loop_of(sorted_faces_of(faces@), face)
                    &&& part.material == visuals.edge_material
                },
            forall|face: int|
                0 <= face < 6 ==> #[trigger] built.1.handles[face] == (HandlePart {
                    entity: handle_entities[face],
                    mesh: visuals.handle_mesh,
                    material: visuals.handle_material,
                    translation: built.0@.handle_of(face).translation,
                    scale: built.0@.handle_of(face).scale,
                    visibility: Visibility::Hidden,
                    handle: BoxFrameHandle {
                        base_scale: built.0@.handle_of(face).base_scale,
                        hover_scale: visuals.handle_hover_scale,
                    },
                }),
    {
        let faces = sorted_faces(faces);
        let frame = BoxFrame {
            drag_button,
            visuals,
            dragging_face: None,
            faces,
            face_entities,
            handle_entities,
        };
        let parts = FrameParts {
            faces: [
                frame.face_part(0),
                frame.face_part(1),
                frame.face_part(2),
                frame.face_part(3),
                frame.face_part(4),
                frame.face_part(5),
            ],
            handles: [
                frame.handle_part(0),
                frame.handle_part(1),
                frame.handle_part(2),
                frame.handle_part(3),
                frame.handle_part(4),
                frame.handle_part(5),
            ],
        };
        (frame, parts)
    }

    fn face_part(&self, face: FaceIndex) -> (part: FacePart)
        requires
            face < 6,
        ensures
            part.entity == self@.face_entities[face as int],
            part.polyline.vertices@ == edge_loop_of(self@.faces, face as int),
            part.material == self@.visuals.edge_material,
    {
        FacePart {
            entity: self.face_entities[face],
            polyline: face_polyline(self.faces, face),
            material: self.visuals.edge_material,
        }
    }

    fn handle_part(&self, face: FaceIndex) -> (part: HandlePart)
        requires
            face < 6,
        ensures
            part == (HandlePart {
                entity: self@.handle_entities[face as int],
                mesh: self@.visuals.handle_mesh,
                material: self@.visuals.handle_material,
                translation: self@.handle_of(face as int).translation,
                scale: self@.handle_of(face as int).scale,
                visibility: Visibility::Hidden,
                handle: BoxFrameHandle {
                    base_scale: self@.handle_of(face as int).base_scale,
                    hover_scale: self@.visuals.handle_hover_scale,
                },
            }),
    {
        let placement = self.transform_handle(face);
        HandlePart {
            entity: placement.entity,
            mesh: self.visuals.handle_mesh,
            material: self.visuals.handle_material,
            translation: placement.translation,
            scale: placement.scale,
            visibility: Visibility::Hidden,
            handle: BoxFrameHandle {
                base_scale: placement.base_scale,
                hover_scale: self.visuals.handle_hover_scale,
            },
        }
    }

    /// The button that triggers face dragging.
    pub fn drag_button(&self) -> (button: PointerButton)
        ensures
            button == self@.drag_button,
    {
        self.drag_button
    }

    /// Sets the button that triggers face dragging.
    pub fn set_drag_button(&mut self, button: PointerButton)
        ensures
            final(self)@ == (BoxFrameView { drag_button: button, ..old(self)@ }),
    {
        proof {
            use_type_invariant(&*self);
        }
        self.drag_button = button;
    }

    /// Assets and configuration for how the gizmo is rendered.
    pub fn visuals(&self) -> (visuals: BoxFrameVisuals)
        ensures
            visuals == self@.visuals,
    {
        self.visuals
    }

    /// Sets the assets and configuration for how the gizmo is rendered.
    pub fn set_visuals(&mut self, visuals: BoxFrameVisuals)
        ensures
            final(self)@ == (BoxFrameView { visuals, ..old(self)@ }),
    {
        proof {
            use_type_invariant(&*self);
        }
        self.visuals = visuals;
    }

    /// The drag that is under way, if one is.
    pub fn dragging(&self) -> (dragging: Option<Dragging>)
        ensures
            match dragging {
                Some(d) => self@.dragging == Some(d@),
                None => self@.dragging is None,
            },
            self@.wf(),
    {
        proof {
            use_type_invariant(self);
        }
        if let Some(d) = &self.dragging_face {
            let _ = d.face();
        }
        self.dragging_face
    }

    /// The coordinates of each face. See [`FaceIndex`].
    ///
    /// WARNING: While dragging a face, the minimum and maximum values along
    /// one axis may swap places in order to stay consistent with the face
    /// indices used at the start of the drag. This is intentional, but if
    /// you don't want this, use `self.sorted_faces()`.
    pub fn faces(&self) -> (faces: [i32; 6])
        ensures
            faces@ == self@.faces,
            self@.dragging is None ==> faces_sorted(faces@),
    {
        proof {
            use_type_invariant(self);
        }
        self.faces
    }

    /// Same as `self.faces()`, but the relative order of minimum and
    /// maximum values along each axis is always `min <= max`, as specified
    /// by [`FaceIndex`].
    pub fn sorted_faces(&self) -> (faces: [i32; 6])
        ensures
            faces@ == sorted_faces_of(self@.faces),
    {
        sorted_faces(self.faces)
    }

    /// The center of the box's AABB in local coordinates, rounded down to
    /// the grid.
    pub fn center(&self) -> (center: Vec3)
        ensures
            center.x == (aabb_of(self@.faces).mins.x + aabb_of(self@.faces).maxs.x) / 2,
            center.y == (aabb_of(self@.faces).mins.y + aabb_of(self@.faces).maxs.y) / 2,
            center.z == (aabb_of(self@.faces).mins.z + aabb_of(self@.faces).maxs.z) / 2,
    {
        self.aabb().center()
    }

    /// The full extents of the box along each axis.
    pub fn extents(&self) -> (extents: [u64; 3])
        ensures
            forall|axis: int|
                0 <= axis < 3 ==> #[trigger] extents[axis] == extent_of(self@.faces, axis),
    {
        box_extents(self.faces)
    }

    /// The bounding box in local coordinates.
    pub fn aabb(&self) -> (aabb: Aabb)
        ensures
            aabb == aabb_of(self@.faces),
    {
        aabb_from_faces(self.faces)
    }

    /// The centre of each face in local coordinates.
    pub fn face_centers(&self) -> (centers: [Vec3; 6])
        ensures
            forall|face: int|
                0 <= face < 6 ==> #[trigger] centers[face] == face_center_of(self@.faces, face),
    {
        [
            face_center(self.faces, 0),
            face_center(self.faces, 1),
            face_center(self.faces, 2),
            face_center(self.faces, 3),
            face_center(self.faces, 4),
            face_center(self.faces, 5),
        ]
    }

    fn handle_scale(&self) -> (scale: u64)
        ensures
            scale == handle_scale_of(self@.visuals, self@.faces),
    {
        let extents = box_extents(self.faces);
        scale_length(median3(extents), self.visuals.handle_scale)
    }

    /// The ball that stands for each handle in picking.
    pub fn handle_ball(&self) -> (ball: Ball)
        ensures
            ball.radius == handle_scale_of(self@.visuals, self@.faces),
    {
        Ball { radius: self.handle_scale() }
    }

    /// The scene entity of each face's handle.
    pub fn handle_entities(&self) -> (entities: [u64; 6])
        ensures
            entities@ == self@.handle_entities,
    {
        self.handle_entities
    }

    /// The scene entity of each face's edge loop.
    pub fn face_entities(&self) -> (entities: [u64; 6])
        ensures
            entities@ == self@.face_entities,
    {
        self.face_entities
    }

    /// Begins or ends a drag.
    pub(crate) fn set_dragging(&mut self, dragging: Option<Dragging>)
        requires
            dragging is None ==> faces_sorted(old(self)@.faces),
        ensures
            final(self)@ == (BoxFrameView {
                dragging: match dragging {
                    Some(d) => Some(d@),
                    None => None,
                },
                ..old(self)@
            }),
    {
        self.dragging_face = dragging;
    }

    /// Moves one face. The faces are not sorted until the drag ends: this
    /// lets them pass through each other.
    pub(crate) fn set_face_during_drag(&mut self, face: FaceIndex, coord: i32)
        requires
            face < 6,
            old(self)@.dragging is Some,
        ensures
            final(self)@ == (BoxFrameView {
                faces: old(self)@.faces.update(face as int, coord),
                ..old(self)@
            }),
    {
        self.faces[face] = coord;
    }

    /// Ends the drag and puts the faces in order, so that the next pick
    /// finds the right face. Returns the geometry of the sorted box.
    pub(crate) fn on_drag_end(&mut self) -> (parts: Regenerated)
        ensures
            final(self)@ == (BoxFrameView {
                dragging: None,
                faces: sorted_faces_of(old(self)@.faces),
                ..old(self)@
            }),
            final(self)@.is_geometry(parts),
    {
        self.faces = sorted_faces(self.faces);
        self.dragging_face = None;
        Regenerated { lines: self.reset_lines(), handles: self.transform_handles() }
    }

    /// Where the handle of one face belongs, and its size.
    pub fn transform_handle(&self, face: FaceIndex) -> (placement: HandlePlacement)
        requires
            face < 6,
        ensures
            placement == self@.handle_of(face as int),
    {
        let handle_scale = self.handle_scale();
        HandlePlacement {
            entity: self.handle_entities[face],
            base_scale: handle_scale,
            translation: face_center(self.faces, face),
            scale: handle_scale,
        }
    }

    /// Where each handle belongs, and its size.
    pub fn transform_handles(&self) -> (placements: [HandlePlacement; 6])
        ensures
            forall|face: int|
                0 <= face < 6 ==> #[trigger] placements[face] == self@.handle_of(face),
    {
        let p0 = self.transform_handle(0);
        let p1 = self.transform_handle(1);
        let p2 = self.transform_handle(2);
        let p3 = self.transform_handle(3);
        let p4 = self.transform_handle(4);
        let p5 = self.transform_handle(5);
        let placements = [p0, p1, p2, p3, p4, p5];
        assert(placements[0] == p0 && placements[1] == p1 && placements[2] == p2 && placements[3]
            == p3 && placements[4] == p4 && placements[5] == p5);
        placements
    }

    /// The edge loop of one face as the faces stand.
    pub fn reset_line(&self, face: FaceIndex) -> (update: LineUpdate)
        requires
            face < 6,
        ensures
            self@.is_line_of(face as int, update),
    {
        LineUpdate { entity: self.face_entities[face], polyline: face_polyline(self.faces, face) }
    }

    /// The edge loop of each face as the faces stand.
    pub fn reset_lines(&self) -> (updates: [LineUpdate; 6])
        ensures
            forall|face: int| 0 <= face < 6 ==> self@.is_line_of(face, #[trigger] updates[face]),
    {
        [
            self.reset_line(0),
            self.reset_line(1),
            self.reset_line(2),
            self.reset_line(3),
            self.reset_line(4),
            self.reset_line(5),
        ]
    }

    /// Every face with the plain edge material.
    pub fn clear_highlights(&self) -> (updates: [MaterialUpdate; 6])
        ensures
            forall|face: int|
                0 <= face < 6 ==> #[trigger] updates[face] == self@.material_of(face, None),
    {
        [
            MaterialUpdate { entity: self.face_entities[0], material: self.visuals.edge_material },
            MaterialUpdate { entity: self.face_entities[1], material: self.visuals.edge_material },
            MaterialUpdate { entity: self.face_entities[2], material: self.visuals.edge_material },
            MaterialUpdate { entity: self.face_entities[3], material: self.visuals.edge_material },
            MaterialUpdate { entity: self.face_entities[4], material: self.visuals.edge_material },
            MaterialUpdate { entity: self.face_entities[5], material: self.visuals.edge_material },
        ]
    }

    /// One face with the highlight material.
    pub fn highlight_face(&self, face: FaceIndex) -> (update: MaterialUpdate)
        requires
            face < 6,
        ensures
            update == self@.material_of(face as int, Some(face as int)),
    {
        MaterialUpdate {
            entity: self.face_entities[face],
            material: self.visuals.edge_highlight_material,
        }
    }
}

} // verus!
