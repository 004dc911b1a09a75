//! What a camera does on each request: the decisions, with the fit and the
//! queue behind them. The host looks up the camera and the points, and
//! carries out what comes back.

use std::collections::VecDeque;
use vstd::prelude::*;
use crate::animation::{CameraMove, CameraMoveList, TickOutcome};
use crate::camera::{OrbitCamera, SmoothnessStash};
use crate::events::{
    AnimateToFit,
    AnimationBegin,
    AnimationEnd,
    CameraMoveBegin,
    CameraMoveEnd,
    CurrentFitTarget,
    PlayAnimation,
    QueueEvent,
    SetFitTarget,
    ZoomAnimationMarker,
    ZoomBegin,
    ZoomEnd,
    ZoomToFit,
};
use crate::fit::{calculate_fit, spec_calculate_fit};
use crate::projection::{CameraBasis, Projection, Viewport};
use crate::vec3::Vec3;

verus! {

/// What a framing request led to.
pub enum ZoomEffect {
    /// No fit was found: nothing changes.
    Failed,
    /// The camera is to be animated to the fit: the marker goes onto the
    /// camera and the animation is to be played.
    Animate { marker: ZoomAnimationMarker, play: PlayAnimation, fit_target: CurrentFitTarget },
    /// The camera was put at the fit at once.
    Snapped { end: ZoomEnd, fit_target: CurrentFitTarget },
}

/// The answer to a framing request: the notification that it began, and its effect.
pub struct ZoomResponse {
    pub begin: ZoomBegin,
    pub effect: ZoomEffect,
}

/// The camera put at the fit `(radius, focus)`.
pub open spec fn snapped_to(camera: OrbitCamera, fit: (i64, Vec3)) -> OrbitCamera {
    OrbitCamera { target_focus: fit.1, target_radius: fit.0, force_update: true, ..camera }
}

/// The one move that takes a camera to the fit `(radius, focus)` at `yaw` and `pitch`.
pub open spec fn move_to_fit(
    fit: (i64, Vec3),
    yaw: i64,
    pitch: i64,
    duration_ms: i64,
    easing: crate::animation::EaseFunction,
) -> CameraMove {
    CameraMove::ToOrbit { focus: fit.1, yaw, pitch, radius: fit.0, duration_ms, easing }
}

fn single_move(mv: CameraMove) -> (moves: VecDeque<CameraMove>)
    ensures
        moves@ == seq![mv],
{
    let mut moves = VecDeque::new();
    moves.push_back(mv);
    moves
}

/// Frames `points` in the view of `camera`, as `zoom` asks.
///
/// `basis` is the orientation of the camera at its yaw and pitch. Where
/// [`calculate_fit`] finds no fit the request fails and the camera stays.
/// With a positive duration the camera stays too, and gets one `ToOrbit`
/// move to the fit at its own yaw and pitch. Otherwise it is put at the
/// fit at once.
pub fn on_zoom_to_fit(
    zoom: &ZoomToFit,
    camera: &mut OrbitCamera,
    points: &[Vec3],
    geometric_center: Vec3,
    basis: &CameraBasis,
    projection: &Projection,
    viewport: Option<Viewport>,
) -> (response: ZoomResponse)
    ensures
        response.begin == (ZoomBegin {
            camera_entity: zoom.camera_entity,
            target_entity: zoom.target,
            margin: zoom.margin,
            duration_ms: zoom.duration_ms,
            easing: zoom.easing,
        }),
        match spec_calculate_fit(
            points@,
            geometric_center,
            *basis,
            zoom.margin,
            *projection,
            viewport,
        ) {
            None => response.effect is Failed && *final(camera) == *old(camera),
            Some(fit) => if zoom.duration_ms > 0 {
                &&& *final(camera) == *old(camera)
                &&& response.effect matches ZoomEffect::Animate { marker, play, fit_target }
                &&& marker == (ZoomAnimationMarker {
                    target_entity: zoom.target,
                    margin: zoom.margin,
                    duration_ms: zoom.duration_ms,
                    easing: zoom.easing,
                })
                &&& play.camera_entity == zoom.camera_entity
                &&& play.moves@ == seq![
                    move_to_fit(
                        fit,
                        old(camera).target_yaw,
                        old(camera).target_pitch,
                        zoom.duration_ms,
                        zoom.easing,
                    ),
                ]
                &&& fit_target == CurrentFitTarget(zoom.target)
            } else {
                &&& *final(camera) == snapped_to(*old(camera), fit)
                &&& response.effect matches ZoomEffect::Snapped { end, fit_target }
                &&& end == (ZoomEnd {
                    camera_entity: zoom.camera_entity,
                    target_entity: zoom.target,
                    margin: zoom.margin,
                    duration_ms: zoom.duration_ms,
                    easing: zoom.easing,
                })
                &&& fit_target == CurrentFitTarget(zoom.target)
            },
        },
{
    let begin = ZoomBegin {
        camera_entity: zoom.camera_entity,
        target_entity: zoom.target,
        margin: zoom.margin,
        duration_ms: zoom.duration_ms,
        easing: zoom.easing,
    };
    let effect = match calculate_fit(
        points,
        geometric_center,
        basis,
        zoom.margin,
        projection,
        viewport,
    ) {
        None => ZoomEffect::Failed,
        Some((target_radius, target_focus)) => {
            if zoom.duration_ms > 0 {
                let moves = single_move(
                    CameraMove::ToOrbit {
                        focus: target_focus,
                        yaw: camera.target_yaw,
                        pitch: camera.target_pitch,
                        radius: target_radius,
                        duration_ms: zoom.duration_ms,
                        easing: zoom.easing,
                    },
                );
                ZoomEffect::Animate {
                    marker: ZoomAnimationMarker {
                        target_entity: zoom.target,
                        margin: zoom.margin,
                        duration_ms: zoom.duration_ms,
                        easing: zoom.easing,
                    },
                    play: PlayAnimation::new(zoom.camera_entity, moves),
                    fit_target: CurrentFitTarget(zoom.target),
                }
            } else {
                camera.target_focus = target_focus;
                camera.target_radius = target_radius;
                camera.force_update = true;
                ZoomEffect::Snapped {
                    end: ZoomEnd {
                        camera_entity: zoom.camera_entity,
                        target_entity: zoom.target,
                        margin: zoom.margin,
                        duration_ms: zoom.duration_ms,
                        easing: zoom.easing,
                    },
                    fit_target: CurrentFitTarget(zoom.target),
                }
            }
        },
    };
    ZoomResponse { begin, effect }
}

/// Turns a camera to the yaw and pitch of `event` while framing `points`.
///
/// `basis` is the orientation at that yaw and pitch. Where
/// [`calculate_fit`] finds a fit, the answer is one `ToOrbit` move to it,
/// to be played, and the target to mark; else `None`.
pub fn on_animate_to_fit(
    event: &AnimateToFit,
    points: &[Vec3],
    geometric_center: Vec3,
    basis: &CameraBasis,
    projection: &Projection,
    viewport: Option<Viewport>,
) -> (r: Option<(PlayAnimation, CurrentFitTarget)>)
    ensures
        match spec_calculate_fit(
            points@,
            geometric_center,
            *basis,
            event.margin,
            *projection,
            viewport,
        ) {
            None => r is None,
            Some(fit) => {
                &&& r matches Some((play, fit_target))
                &&& play.camera_entity == event.camera_entity
                &&& play.moves@ == seq![
                    move_to_fit(fit, event.yaw, event.pitch, event.duration_ms, event.easing),
                ]
                &&& fit_target == CurrentFitTarget(event.target)
            },
        },
{
    match calculate_fit(points, geometric_center, basis, event.margin, projection, viewport) {
        None => None,
        Some((target_radius, target_focus)) => {
            let moves = single_move(
                CameraMove::ToOrbit {
                    focus: target_focus,
                    yaw: event.yaw,
                    pitch: event.pitch,
                    radius: target_radius,
                    duration_ms: event.duration_ms,
                    easing: event.easing,
                },
            );
            Some((PlayAnimation::new(event.camera_entity, moves), CurrentFitTarget(event.target)))
        },
    }
}

/// What playing an animation sets up.
pub struct PlayResponse {
    /// Given for an animation the user asked for, not for one that frames a target.
    pub begin: Option<AnimationBegin>,
    /// The smoothness the camera had, to be given back when the queue has run out.
    pub stash: SmoothnessStash,
    /// The queue to tick.
    pub list: CameraMoveList,
}

/// Starts the animation `start` on `camera`: smoothing is stashed and
/// switched off, and the moves become a queue that is ready to begin.
pub fn on_play_animation(start: PlayAnimation, camera: &mut OrbitCamera, has_zoom_marker: bool) -> (r:
    PlayResponse)
    ensures
        r.begin == if has_zoom_marker {
            None
        } else {
            Some(AnimationBegin { camera_entity: start.camera_entity })
        },
        r.stash == old(camera).smoothness(),
        *final(camera) == old(camera).without_smoothing(),
        r.list.moves@ == start.moves@,
        r.list.state is Ready,
{
    let begin = if has_zoom_marker {
        None
    } else {
        Some(AnimationBegin { camera_entity: start.camera_entity })
    };
    let stash = camera.stash_and_disable_smoothness();
    PlayResponse { begin, stash, list: CameraMoveList::new(start.moves) }
}

/// The target that `set_target` marks.
pub fn on_set_fit_target(set_target: &SetFitTarget) -> (r: CurrentFitTarget)
    ensures
        r == CurrentFitTarget(set_target.target),
{
    CurrentFitTarget(set_target.target)
}

/// Gives a camera whose queue has run out its smoothness back.
pub fn restore_smoothness_on_move_end(stash: &SmoothnessStash, camera: &mut OrbitCamera)
    ensures
        *final(camera) == old(camera).with_smoothness(*stash),
{
    camera.restore_smoothness(*stash);
}

/// The end of the framing operation that an animation was, when it has
/// run out on a camera that carries the marker; `None` without the marker.
pub fn on_zoom_animation_end(event: &AnimationEnd, marker: Option<ZoomAnimationMarker>) -> (r: Option<
    ZoomEnd,
>)
    ensures
        r == match marker {
            None => None,
            Some(m) => Some(
                ZoomEnd {
                    camera_entity: event.camera_entity,
                    target_entity: m.target_entity,
                    margin: m.margin,
                    duration_ms: m.duration_ms,
                    easing: m.easing,
                },
            ),
        },
{
    match marker {
        None => None,
        Some(m) => Some(
            ZoomEnd {
                camera_entity: event.camera_entity,
                target_entity: m.target_entity,
                margin: m.margin,
                duration_ms: m.duration_ms,
                easing: m.easing,
            },
        ),
    }
}

/// The notification a tick calls for.
///
/// A queue that has run out ends the framing operation where the camera
/// carries its marker, and the animation where it does not. The begin and
/// end of a single move are announced for animations only.
pub open spec fn spec_queue_event(
    outcome: TickOutcome,
    camera_entity: u64,
    marker: Option<ZoomAnimationMarker>,
) -> Option<QueueEvent> {
    match outcome {
        TickOutcome::QueueEmpty => match marker {
            Some(m) => Some(
                QueueEvent::ZoomEnd(
                    ZoomEnd {
                        camera_entity,
                        target_entity: m.target_entity,
                        margin: m.margin,
                        duration_ms: m.duration_ms,
                        easing: m.easing,
                    },
                ),
            ),
            None => Some(QueueEvent::AnimationEnd(AnimationEnd { camera_entity })),
        },
        TickOutcome::MoveBegan(camera_move) => if marker is None {
            Some(QueueEvent::CameraMoveBegin(CameraMoveBegin { camera_entity, camera_move }))
        } else {
            None
        },
        TickOutcome::Advanced => None,
        TickOutcome::MoveEnded(camera_move) => if marker is None {
            Some(QueueEvent::CameraMoveEnd(CameraMoveEnd { camera_entity, camera_move }))
        } else {
            None
        },
    }
}

#[verifier::when_used_as_spec(spec_queue_event)]
pub fn queue_event(outcome: TickOutcome, camera_entity: u64, marker: Option<ZoomAnimationMarker>) -> (r:
    Option<QueueEvent>)
    ensures
        r == spec_queue_event(outcome, camera_entity, marker),
{
    match outcome {
        TickOutcome::QueueEmpty => match marker {
            Some(m) => Some(
                QueueEvent::ZoomEnd(
                    ZoomEnd {
                        camera_entity,
                        target_entity: m.target_entity,
                        margin: m.margin,
                        duration_ms: m.duration_ms,
                        easing: m.easing,
                    },
                ),
            ),
            None => Some(QueueEvent::AnimationEnd(AnimationEnd { camera_entity })),
        },
        TickOutcome::MoveBegan(camera_move) => if marker.is_none() {
            Some(QueueEvent::CameraMoveBegin(CameraMoveBegin { camera_entity, camera_move }))
        } else {
            None
        },
        TickOutcome::Advanced => None,
        TickOutcome::MoveEnded(camera_move) => if marker.is_none() {
            Some(QueueEvent::CameraMoveEnd(CameraMoveEnd { camera_entity, camera_move }))
        } else {
            None
        },
    }
}

/// The camera after a framing request that is carried out at once: put
/// at the fit where there is one, as it was where there is none.
pub open spec fn fitted_camera(
    camera: OrbitCamera,
    points: Seq<Vec3>,
    geometric_center: Vec3,
    basis: CameraBasis,
    margin: i64,
    projection: Projection,
    viewport: Option<Viewport>,
) -> OrbitCamera {
    match spec_calculate_fit(points, geometric_center, basis, margin, projection, viewport) {
        None => camera,
        Some(fit) => snapped_to(camera, fit),
    }
}

/// A camera that was put at a fit stays there when fitted again.
///
/// The fit reads the yaw and pitch of a camera (through the basis), not
/// its radius or focus, and putting a camera at a fit changes neither yaw
/// nor pitch. So the same request on the camera as it stands after the
/// first finds the same fit and leaves the camera as it is.
pub proof fn lemma_fit_is_a_fixed_point(
    camera: OrbitCamera,
    points: Seq<Vec3>,
    geometric_center: Vec3,
    basis: CameraBasis,
    margin: i64,
    projection: Projection,
    viewport: Option<Viewport>,
)
    ensures
        ({
            let once = fitted_camera(
                camera,
                points,
                geometric_center,
                basis,
                margin,
                projection,
                viewport,
            );
            let twice = fitted_camera(
                once,
                points,
                geometric_center,
                basis,
                margin,
                projection,
                viewport,
            );
            &&& twice == once
            &&& once.target_yaw == camera.target_yaw
            &&& once.target_pitch == camera.target_pitch
        }),
{
}

} // verus!
