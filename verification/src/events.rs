//! Requests to a camera, the notifications it answers with, and the
//! markers it carries while it works. Entities are named by their bits.

use std::collections::VecDeque;
use vstd::prelude::*;
use crate::animation::{CameraMove, EaseFunction};

verus! {

/// A queue of moves began to run.
#[derive(Clone, Copy, Debug, PartialEq, Eq, Structural)]
pub struct AnimationBegin {
    pub camera_entity: u64,
}

/// A queue of moves has run out.
#[derive(Clone, Copy, Debug, PartialEq, Eq, Structural)]
pub struct AnimationEnd {
    pub camera_entity: u64,
}

/// One move began.
#[derive(Clone, Copy, Debug, PartialEq, Eq, Structural)]
pub struct CameraMoveBegin {
    pub camera_entity: u64,
    pub camera_move: CameraMove,
}

/// One move is complete.
#[derive(Clone, Copy, Debug, PartialEq, Eq, Structural)]
pub struct CameraMoveEnd {
    pub camera_entity: u64,
    pub camera_move: CameraMove,
}

/// A framing operation began.
#[derive(Clone, Copy, Debug, PartialEq, Eq, Structural)]
pub struct ZoomBegin {
    pub camera_entity: u64,
    pub target_entity: u64,
    pub margin: i64,
    pub duration_ms: i64,
    pub easing: EaseFunction,
}

/// A framing operation is complete; it carries what the request asked for.
#[derive(Clone, Copy, Debug, PartialEq, Eq, Structural)]
pub struct ZoomEnd {
    pub camera_entity: u64,
    pub target_entity: u64,
    pub margin: i64,
    pub duration_ms: i64,
    pub easing: EaseFunction,
}

/// Request to frame a target in the view of a camera: animated over
/// `duration_ms` where that is positive, at once where it is not. `margin`
/// is the whole share of the constraining axis left free, half on each side.
#[derive(Clone, Copy, Debug, PartialEq, Eq, Structural)]
pub struct ZoomToFit {
    pub camera_entity: u64,
    pub target: u64,
    pub margin: i64,
    pub duration_ms: i64,
    pub easing: EaseFunction,
}

impl ZoomToFit {
    pub fn new(camera_entity: u64, target: u64, margin: i64, duration_ms: i64, easing: EaseFunction) -> (r:
        Self)
        ensures
            r == (ZoomToFit { camera_entity, target, margin, duration_ms, easing }),
    {
        Self { camera_entity, target, margin, duration_ms, easing }
    }
}

/// Request to run a queue of moves on a camera.
pub struct PlayAnimation {
    pub camera_entity: u64,
    pub moves: VecDeque<CameraMove>,
}

impl PlayAnimation {
    pub fn new(camera_entity: u64, moves: VecDeque<CameraMove>) -> (r: Self)
        ensures
            r.camera_entity == camera_entity,
            r.moves@ == moves@,
    {
        Self { camera_entity, moves }
    }
}

/// Request to mark a target as the one a camera is fitted to.
#[derive(Clone, Copy, Debug, PartialEq, Eq, Structural)]
pub struct SetFitTarget {
    pub camera_entity: u64,
    pub target: u64,
}

impl SetFitTarget {
    pub fn new(camera_entity: u64, target: u64) -> (r: Self)
        ensures
            r == (SetFitTarget { camera_entity, target }),
    {
        Self { camera_entity, target }
    }
}

/// Request to turn a camera to `yaw` and `pitch` while framing a target.
#[derive(Clone, Copy, Debug, PartialEq, Eq, Structural)]
pub struct AnimateToFit {
    pub camera_entity: u64,
    pub target: u64,
    pub yaw: i64,
    pub pitch: i64,
    pub margin: i64,
    pub duration_ms: i64,
    pub easing: EaseFunction,
}

impl AnimateToFit {
    pub fn new(
        camera_entity: u64,
        target: u64,
        yaw: i64,
        pitch: i64,
        margin: i64,
        duration_ms: i64,
        easing: EaseFunction,
    ) -> (r: Self)
        ensures
            r == (AnimateToFit { camera_entity, target, yaw, pitch, margin, duration_ms, easing }),
    {
        Self { camera_entity, target, yaw, pitch, margin, duration_ms, easing }
    }
}

/// The entity a camera is fitted to.
#[derive(Clone, Copy, Debug, PartialEq, Eq, Structural)]
pub struct CurrentFitTarget(pub u64);

/// Marks a camera whose running queue is a framing operation, and keeps
/// what the request asked for until the queue has run out.
#[derive(Clone, Copy, Debug, PartialEq, Eq, Structural)]
pub struct ZoomAnimationMarker {
    pub target_entity: u64,
    pub margin: i64,
    pub duration_ms: i64,
    pub easing: EaseFunction,
}

/// A notification of the move queue.
#[derive(Clone, Copy, Debug, PartialEq, Eq, Structural)]
pub enum QueueEvent {
    AnimationEnd(AnimationEnd),
    ZoomEnd(ZoomEnd),
    CameraMoveBegin(CameraMoveBegin),
    CameraMoveEnd(CameraMoveEnd),
}

} // verus!
