//! The picking backend: what each pointer ray hits of the frames and their
//! handles.
//!
//! The host casts the rays. For each ray, and for each frame on it, it
//! says where the ray meets the ball of each handle and the bounding box of
//! the frame; from that the backend decides which hits to report.

use vstd::prelude::*;
use crate::events::HitData;
use crate::math::{direction_between, normalized, Direction, Vec3};
use crate::ray::{point_at_of, Ray, RayId};

verus! {

/// By how much the hit of a handle is reported nearer than the hit of its
/// frame at the same point, so that the two never tie.
pub const HANDLE_DEPTH_BIAS: i64 = 1;

/// What the backend needs to know of the camera of a ray.
#[derive(Clone, Copy, Debug, PartialEq, Eq, Structural)]
pub struct CameraView {
    /// Where the camera stands among the cameras that render to one
    /// target.
    pub order: i64,
}

/// A ray meets the ball of a handle.
#[derive(Clone, Copy, Debug, PartialEq, Eq, Structural)]
pub struct HandleHit {
    /// The handle.
    pub entity: u64,
    /// How far along the ray.
    pub toi: i64,
    /// The centre of the handle in the world.
    pub world_center: Vec3,
}

/// A ray meets the bounding box of a frame.
#[derive(Clone, Copy, Debug, PartialEq, Eq, Structural)]
pub struct BoxHit {
    /// How far along the ray.
    pub toi: i64,
    /// The normal of the face that the ray enters by, in the world.
    pub normal: Direction,
}

/// One frame as one ray finds it.
#[derive(Clone, Copy, Debug, PartialEq, Eq)]
pub struct FrameProbe {
    /// The frame.
    pub entity: u64,
    /// Whether the camera of the ray renders the frame at all.
    pub in_view: bool,
    /// The centre of the frame in the world.
    pub world_center: Vec3,
    /// The hit on each handle, where there is one.
    pub handles: [Option<HandleHit>; 6],
    /// The hit on the bounding box, if there is one.
    pub box_hit: Option<BoxHit>,
}

/// One pointer ray and what it finds.
#[derive(Clone, Debug, PartialEq, Eq)]
pub struct RayProbe {
    pub ray_id: RayId,
    pub ray: Ray,
    /// The camera of the ray, if it is still there.
    pub camera: Option<CameraView>,
    /// The frames, in the order in which their hits are to be reported.
    pub frames: Vec<FrameProbe>,
}

/// The hits of one pointer ray.
#[derive(Clone, Debug, PartialEq, Eq)]
pub struct PointerHits {
    pub pointer: u64,
    pub picks: Vec<(u64, HitData)>,
    pub order: i64,
}

/// None of the handles is hit.
pub open spec fn no_handle_hit(handles: Seq<Option<HandleHit>>) -> bool {
    forall|j: int| 0 <= j < handles.len() ==> (#[trigger] handles[j]) is None
}

/// Handle `i` is hit, no handle is hit nearer, and every handle before it
/// is hit further away or not at all.
pub open spec fn is_nearest_handle(i: int, handles: Seq<Option<HandleHit>>) -> bool {
    &&& 0 <= i < handles.len()
    &&& handles[i] is Some
    &&& forall|j: int|
        0 <= j < handles.len() && (#[trigger] handles[j]) is Some ==> handles[i]->0.toi
            <= handles[j]->0.toi
    &&& forall|j: int|
        0 <= j < i && (#[trigger] handles[j]) is Some ==> handles[i]->0.toi < handles[j]->0.toi
}

/// The nearest of the handle hits; of two that are equally near, the
/// first.
pub open spec fn nearest_handle_of(handles: Seq<Option<HandleHit>>) -> Option<HandleHit> {
    if no_handle_hit(handles) {
        None
    } else {
        handles[choose|i: int| is_nearest_handle(i, handles)]
    }
}

/// The depth of a handle hit as it is reported: nearer by the bias, as far
/// as 64 bits allow.
pub open spec fn biased_depth(toi: i64) -> i64 {
    if toi - HANDLE_DEPTH_BIAS < i64::MIN {
        i64::MIN
    } else {
        (toi - HANDLE_DEPTH_BIAS) as i64
    }
}

/// What a ray reports of one frame.
///
/// A frame out of view reports nothing. Handles come first: where the ray
/// hits one, it reports the nearest handle, and with it the frame at the
/// same point, with the direction from the frame's centre to the handle's
/// for a normal. Only where it hits no handle does the hit on the bounding
/// box count.
pub open spec fn frame_picks(camera: u64, ray: Ray, probe: FrameProbe) -> Seq<(u64, HitData)> {
    if !probe.in_view {
        seq![]
    } else {
        match nearest_handle_of(probe.handles@) {
            Some(hit) => seq![
                (
                    hit.entity,
                    HitData {
                        camera,
                        depth: biased_depth(hit.toi),
                        position: Some(point_at_of(ray, hit.toi as int)),
                        normal: None,
                    },
                ),
                (
                    probe.entity,
                    HitData {
                        camera,
                        depth: hit.toi,
                        position: Some(point_at_of(ray, hit.toi as int)),
                        normal: normalized(hit.world_center@.minus(probe.world_center@)),
                    },
                ),
            ],
            None => match probe.box_hit {
                Some(hit) => seq![
                    (
                        probe.entity,
                        HitData {
                            camera,
                            depth: hit.toi,
                            position: Some(point_at_of(ray, hit.toi as int)),
                            normal: Some(hit.normal),
                        },
                    ),
                ],
                None => seq![],
            },
        }
    }
}

/// What a ray reports of a run of frames: what it reports of each, in
/// order.
pub open spec fn ray_picks(camera: u64, ray: Ray, frames: Seq<FrameProbe>) -> Seq<(u64, HitData)>
    decreases frames.len(),
{
    if frames.len() == 0 {
        seq![]
    } else {
        ray_picks(camera, ray, frames.drop_last()) + frame_picks(camera, ray, frames.last())
    }
}

/// Whether a ray has anything to report: its camera is there and it hits
/// something.
pub open spec fn ray_reports(probe: RayProbe) -> bool {
    probe.camera is Some && ray_picks(probe.ray_id.camera, probe.ray, probe.frames@).len() > 0
}

/// Whether `hits` is the report of a ray.
pub open spec fn is_report_of(hits: PointerHits, probe: RayProbe) -> bool {
    &&& probe.camera is Some
    &&& hits.pointer == probe.ray_id.pointer
    &&& hits.order == probe.camera->0.order
    &&& hits.picks@ == ray_picks(probe.ray_id.camera, probe.ray, probe.frames@)
}

/// Whether `reports` holds the report of each ray that has one, in the
/// order of the rays, and nothing else.
pub open spec fn are_reports_of(reports: Seq<PointerHits>, rays: Seq<RayProbe>) -> bool
    decreases rays.len(),
{
    if rays.len() == 0 {
        reports.len() == 0
    } else if ray_reports(rays.last()) {
        &&& reports.len() > 0
        &&& is_report_of(reports.last(), rays.last())
        &&& are_reports_of(reports.drop_last(), rays.drop_last())
    } else {
        are_reports_of(reports, rays.drop_last())
    }
}

/// There is one nearest handle and only one.
pub proof fn lemma_nearest_handle_unique(i: int, handles: Seq<Option<HandleHit>>)
    requires
        is_nearest_handle(i, handles),
    ensures
        nearest_handle_of(handles) == handles[i],
{
    assert(!no_handle_hit(handles));
    let k = choose|k: int| is_nearest_handle(k, handles);
    assert(is_nearest_handle(k, handles));
    if k < i {
        assert(handles[k] is Some);
    } else if i < k {
        assert(handles[i] is Some);
    }
}

/// Where a ray hits a handle of a frame in view, it reports two hits at one
/// point: the handle, and the frame behind it. The handle is the nearer of
/// the two by [`HANDLE_DEPTH_BIAS`].
pub proof fn lemma_handle_hit_is_nearer(camera: u64, ray: Ray, probe: FrameProbe)
    requires
        probe.in_view,
        !no_handle_hit(probe.handles@),
    ensures
        ({
            let picks = frame_picks(camera, ray, probe);
            let hit = nearest_handle_of(probe.handles@);
            &&& hit is Some
            &&& picks.len() == 2
            &&& picks[0].0 == hit->0.entity
            &&& picks[1].0 == probe.entity
            &&& picks[0].1.position == picks[1].1.position
            &&& picks[1].1.depth == hit->0.toi
            &&& hit->0.toi > i64::MIN ==> picks[0].1.depth == picks[1].1.depth - HANDLE_DEPTH_BIAS
        }),
{
    let handles = probe.handles@;
    lemma_some_handle_is_nearest(handles, handles.len() as int);
    assert(handles.take(handles.len() as int) =~= handles);
    let k = choose|k: int| is_nearest_handle(k, handles);
    assert(is_nearest_handle(k, handles));
}

/// Among handles of which one is hit, one is the nearest.
proof fn lemma_some_handle_is_nearest(handles: Seq<Option<HandleHit>>, n: int)
    requires
        0 <= n <= handles.len(),
    ensures
        !no_handle_hit(handles.take(n)) ==> exists|i: int| is_nearest_handle(i, handles.take(n)),
    decreases n,
{
    let now = handles.take(n);
    if n > 0 && !no_handle_hit(now) {
        let before = handles.take(n - 1);
        assert(before =~= now.take(n - 1));
        lemma_some_handle_is_nearest(handles, n - 1);
        if no_handle_hit(before) {
            assert(now[n - 1] is Some) by {
                if now[n - 1] is None {
                    assert forall|j: int| 0 <= j < now.len() implies (#[trigger] now[j]) is None by {
                        if j < n - 1 {
                            assert(before[j] is None);
                        }
                    }
                }
            }
            assert(is_nearest_handle(n - 1, now)) by {
                assert forall|j: int| 0 <= j < n - 1 implies (#[trigger] now[j]) is None by {
                    assert(before[j] is None);
                }
            }
        } else {
            let i = choose|i: int| is_nearest_handle(i, before);
            assert(is_nearest_handle(i, before));
            assert(now[i] == before[i]);
            assert forall|j: int| 0 <= j < n - 1 implies (#[trigger] now[j]) == before[j] by {}
            if now[n - 1] is Some && now[n - 1]->0.toi < now[i]->0.toi {
                assert(is_nearest_handle(n - 1, now)) by {
                    assert forall|j: int|
                        0 <= j < n - 1 && (#[trigger] now[j]) is Some implies now[n - 1]->0.toi
                        < now[j]->0.toi by {
                        assert(before[j] is Some);
                    }
                }
            } else {
                assert(is_nearest_handle(i, now)) by {
                    assert forall|j: int|
                        0 <= j < now.len() && (#[trigger] now[j]) is Some implies now[i]->0.toi
                        <= now[j]->0.toi by {
                        if j < n - 1 {
                            assert(before[j] is Some);
                        }
                    }
                    assert forall|j: int| 0 <= j < i && (#[trigger] now[j]) is Some implies now[i]->0.toi
                        < now[j]->0.toi by {
                        assert(before[j] is Some);
                    }
                }
            }
        }
    }
}

/// Picks the nearest of the handle hits.
pub fn nearest_handle(handles: &[Option<HandleHit>; 6]) -> (nearest: Option<HandleHit>)
    ensures
        nearest == nearest_handle_of(handles@),
{
    let mut best: Option<(usize, HandleHit)> = None;
    let mut i: usize = 0;
    while i < 6
        invariant
            i <= 6,
            handles@.len() == 6,
            match best {
                None => no_handle_hit(handles@.take(i as int)),
                Some((k, hit)) => k < i && handles@[k as int] == Some(hit) && is_nearest_handle(
                    k as int,
                    handles@.take(i as int),
                ),
            },
        decreases 6 - i,
    {
        let ghost before = handles@.take(i as int);
        let ghost now = handles@.take(i as int + 1);
        assert(forall|j: int| 0 <= j < i ==> (#[trigger] now[j]) == before[j]);
        assert(now[i as int] == handles@[i as int]);
        if let Some(hit) = handles[i] {
            match best {
                None => {
                    assert forall|j: int| 0 <= j < i implies (#[trigger] now[j]) is None by {
                        assert(before[j] is None);
                    }
                    best = Some((i, hit));
                },
                Some((k, nearest)) => {
                    if hit.toi < nearest.toi {
                        assert forall|j: int|
                            0 <= j < i && (#[trigger] now[j]) is Some implies hit.toi
                            < now[j]->0.toi by {
                            assert(before[j] is Some);
                        }
                        best = Some((i, hit));
                    } else {
                        assert forall|j: int|
                            0 <= j < now.len() && (#[trigger] now[j]) is Some implies nearest.toi
                            <= now[j]->0.toi by {
                            if j < i {
                                assert(before[j] is Some);
                            }
                        }
                        assert forall|j: int|
                            0 <= j < k && (#[trigger] now[j]) is Some implies nearest.toi
                            < now[j]->0.toi by {
                            assert(before[j] is Some);
                        }
                    }
                },
            }
        } else {
            match best {
                None => {
                    assert forall|j: int| 0 <= j < now.len() implies (#[trigger] now[j]) is None by {
                        if j < i {
                            assert(before[j] is None);
                        }
                    }
                },
                Some((k, nearest)) => {
                    assert forall|j: int|
                        0 <= j < now.len() && (#[trigger] now[j]) is Some implies nearest.toi
                        <= now[j]->0.toi by {
                        assert(before[j] is Some);
                    }
                    assert forall|j: int|
                        0 <= j < k && (#[trigger] now[j]) is Some implies nearest.toi
                        < now[j]->0.toi by {
                        assert(before[j] is Some);
                    }
                },
            }
        }
        i += 1;
    }
    assert(handles@.take(6) =~= handles@);
    match best {
        None => None,
        Some((k, hit)) => {
            proof {
                lemma_nearest_handle_unique(k as int, handles@);
            }
            Some(hit)
        },
    }
}

fn bias_depth(toi: i64) -> (depth: i64)
    ensures
        depth == biased_depth(toi),
{
    if toi == i64::MIN {
        toi
    } else {
        toi - HANDLE_DEPTH_BIAS
    }
}

/// Adds to `picks` what a ray reports of one frame.
fn pick_frame(camera: u64, ray: &Ray, probe: &FrameProbe, picks: &mut Vec<(u64, HitData)>)
    ensures
        final(picks)@ == old(picks)@ + frame_picks(camera, *ray, *probe),
{
    if !probe.in_view {
        assert(picks@ =~= picks@ + frame_picks(camera, *ray, *probe));
        return;
    }
    // Check handle intersections first, they always take priority.
    if let Some(hit) = nearest_handle(&probe.handles) {
        let world_normal = direction_between(probe.world_center, hit.world_center);
        let intersect_p = ray.point_at(hit.toi);
        picks.push(
            (
                hit.entity,
                HitData {
                    camera,
                    depth: bias_depth(hit.toi),
                    position: Some(intersect_p),
                    normal: None,
                },
            ),
        );
        picks.push(
            (
                probe.entity,
                HitData {
                    camera,
                    depth: hit.toi,
                    position: Some(intersect_p),
                    normal: world_normal,
                },
            ),
        );
        assert(picks@ =~= old(picks)@ + frame_picks(camera, *ray, *probe));
        return;
    }
    // No handle intersections, check for AABB intersection.
    if let Some(hit) = probe.box_hit {
        picks.push(
            (
                probe.entity,
                HitData {
                    camera,
                    depth: hit.toi,
                    position: Some(ray.point_at(hit.toi)),
                    normal: Some(hit.normal),
                },
            ),
        );
        assert(picks@ =~= old(picks)@ + frame_picks(camera, *ray, *probe));
        return;
    }
    assert(picks@ =~= old(picks)@ + frame_picks(camera, *ray, *probe));
}

/// What one pointer ray reports, if it reports anything.
pub fn pick_ray(probe: &RayProbe) -> (hits: Option<PointerHits>)
    ensures
        hits is Some <==> ray_reports(*probe),
        hits matches Some(h) ==> is_report_of(h, *probe),
{
    let Some(camera) = probe.camera else {
        return None;
    };
    let mut picks: Vec<(u64, HitData)> = Vec::new();
    let mut i: usize = 0;
    while i < probe.frames.len()
        invariant
            i <= probe.frames.len(),
            picks@ == ray_picks(probe.ray_id.camera, probe.ray, probe.frames@.take(i as int)),
        decreases probe.frames.len() - i,
    {
        proof {
            assert(probe.frames@.take(i as int + 1).drop_last() =~= probe.frames@.take(i as int));
        }
        pick_frame(probe.ray_id.camera, &probe.ray, &probe.frames[i], &mut picks);
        i += 1;
    }
    proof {
        assert(probe.frames@.take(i as int) =~= probe.frames@);
    }
    if picks.len() > 0 {
        Some(PointerHits { pointer: probe.ray_id.pointer, picks, order: camera.order })
    } else {
        None
    }
}

/// Generates pointer hits for the bounding boxes and the handles of the
/// frames: the report of each ray that has one, in the order of the rays.
pub fn box_frame_backend(rays: &Vec<RayProbe>) -> (picking_out: Vec<PointerHits>)
    ensures
        are_reports_of(picking_out@, rays@),
{
    let mut picking_out: Vec<PointerHits> = Vec::new();
    let mut i: usize = 0;
    while i < rays.len()
        invariant
            i <= rays.len(),
            are_reports_of(picking_out@, rays@.take(i as int)),
        decreases rays.len() - i,
    {
        proof {
            assert(rays@.take(i as int + 1).drop_last() =~= rays@.take(i as int));
        }
        let ghost before = picking_out@;
        if let Some(hits) = pick_ray(&rays[i]) {
            picking_out.push(hits);
            proof {
                assert(picking_out@.drop_last() =~= before);
            }
        }
        i += 1;
    }
    proof {
        assert(rays@.take(i as int) =~= rays@);
    }
    picking_out
}

} // verus!
