//! The orbit move state machine: queued camera moves, advanced once per tick.

use std::collections::VecDeque;
use vstd::prelude::*;
use crate::camera::OrbitCamera;
use crate::fixed::{fx_add, fx_div, fx_lerp, fx_max, fx_mul, fx_sub, lemma_fx_div_reaches_one, lemma_fx_mul_by_one, lemma_fx_mul_monotone, SCALE};
use crate::projection::CameraBasis;
use crate::vec3::Vec3;

verus! {

/// Half a turn, in radians.
pub const PI: i64 = 3_141_593;

/// A full turn, in radians: exactly twice [`PI`].
pub const TAU: i64 = 6_283_186;

/// Names one of the host's easing curves. The host evaluates the curve; the
/// library only carries the name from the move to the tick that needs it.
#[derive(Clone, Copy, Debug, PartialEq, Eq, Structural)]
pub struct EaseFunction {
    pub id: u32,
}

/// Yaw, pitch and radius of a camera round its focus.
#[derive(Clone, Copy, Debug, PartialEq, Eq, Structural)]
pub struct OrbitalParams {
    pub yaw: i64,
    pub pitch: i64,
    pub radius: i64,
}

/// A camera pose in orbital form.
#[derive(Clone, Copy, Debug, PartialEq, Eq, Structural)]
pub struct OrbitPose {
    pub focus: Vec3,
    pub yaw: i64,
    pub pitch: i64,
    pub radius: i64,
}

/// Yaw and pitch of a direction, as the host decomposed it.
#[derive(Clone, Copy, Debug, PartialEq, Eq, Structural)]
pub struct Direction {
    pub yaw: i64,
    pub pitch: i64,
}

/// One camera movement with its target and duration.
#[derive(Clone, Copy, Debug, PartialEq, Eq, Structural)]
pub enum CameraMove {
    /// Move to a world-space position, looking at a focus point.
    ToPosition { translation: Vec3, focus: Vec3, duration_ms: i64, easing: EaseFunction },
    /// Move to orbital parameters round a focus point.
    ToOrbit { focus: Vec3, yaw: i64, pitch: i64, radius: i64, duration_ms: i64, easing: EaseFunction },
}

impl CameraMove {
    pub open spec fn spec_duration_ms(&self) -> i64 {
        match self {
            CameraMove::ToPosition { duration_ms, .. } => *duration_ms,
            CameraMove::ToOrbit { duration_ms, .. } => *duration_ms,
        }
    }

    #[verifier::when_used_as_spec(spec_duration_ms)]
    pub fn duration_ms(&self) -> (r: i64)
        ensures
            r == self.spec_duration_ms(),
    {
        match self {
            CameraMove::ToPosition { duration_ms, .. } => *duration_ms,
            CameraMove::ToOrbit { duration_ms, .. } => *duration_ms,
        }
    }

    pub open spec fn spec_easing(&self) -> EaseFunction {
        match self {
            CameraMove::ToPosition { easing, .. } => *easing,
            CameraMove::ToOrbit { easing, .. } => *easing,
        }
    }

    #[verifier::when_used_as_spec(spec_easing)]
    pub fn easing(&self) -> (r: EaseFunction)
        ensures
            r == self.spec_easing(),
    {
        match self {
            CameraMove::ToPosition { easing, .. } => *easing,
            CameraMove::ToOrbit { easing, .. } => *easing,
        }
    }

    pub open spec fn spec_focus(&self) -> Vec3 {
        match self {
            CameraMove::ToPosition { focus, .. } => *focus,
            CameraMove::ToOrbit { focus, .. } => *focus,
        }
    }

    #[verifier::when_used_as_spec(spec_focus)]
    pub fn focus(&self) -> (r: Vec3)
        ensures
            r == self.spec_focus(),
    {
        match self {
            CameraMove::ToPosition { focus, .. } => *focus,
            CameraMove::ToOrbit { focus, .. } => *focus,
        }
    }

    /// World-space position of the camera at the end of the move. `basis`
    /// is the orientation at the yaw and pitch of a `ToOrbit` move, and is
    /// not read for a `ToPosition` move.
    pub open spec fn spec_translation(&self, basis: CameraBasis) -> Vec3 {
        match self {
            CameraMove::ToPosition { translation, .. } => *translation,
            CameraMove::ToOrbit { focus, radius, .. } => basis.frame_at(*focus, *radius).position,
        }
    }

    #[verifier::when_used_as_spec(spec_translation)]
    pub fn translation(&self, basis: CameraBasis) -> (r: Vec3)
        ensures
            r == self.spec_translation(basis),
    {
        match self {
            CameraMove::ToPosition { translation, .. } => *translation,
            CameraMove::ToOrbit { focus, radius, .. } => basis.frame_at(*focus, *radius).position,
        }
    }

    /// Offset from the focus to the target position of a `ToPosition` move;
    /// `None` for a `ToOrbit` move, whose angles need no decomposition.
    pub open spec fn spec_offset(&self) -> Option<Vec3> {
        match self {
            CameraMove::ToPosition { translation, focus, .. } => Some(translation.minus(*focus)),
            CameraMove::ToOrbit { .. } => None,
        }
    }

    #[verifier::when_used_as_spec(spec_offset)]
    pub fn offset(&self) -> (r: Option<Vec3>)
        ensures
            r == self.spec_offset(),
    {
        match self {
            CameraMove::ToPosition { translation, focus, .. } => Some(translation.minus(*focus)),
            CameraMove::ToOrbit { .. } => None,
        }
    }

    /// The orbital parameters the move ends at. `ToOrbit` carries them;
    /// `ToPosition` has the length of its offset for a radius and takes yaw
    /// and pitch from `decomposed`, the host's decomposition of that offset.
    pub open spec fn spec_orbital_params(&self, decomposed: Direction) -> OrbitalParams {
        match self {
            CameraMove::ToPosition { translation, focus, .. } => OrbitalParams {
                yaw: decomposed.yaw,
                pitch: decomposed.pitch,
                radius: translation.minus(*focus).length(),
            },
            CameraMove::ToOrbit { yaw, pitch, radius, .. } => OrbitalParams {
                yaw: *yaw,
                pitch: *pitch,
                radius: *radius,
            },
        }
    }

    #[verifier::when_used_as_spec(spec_orbital_params)]
    pub fn orbital_params(&self, decomposed: Direction) -> (r: OrbitalParams)
        ensures
            r == self.spec_orbital_params(decomposed),
            self is ToOrbit ==> r == (OrbitalParams {
                yaw: self->ToOrbit_yaw,
                pitch: self->ToOrbit_pitch,
                radius: self->ToOrbit_radius,
            }),
    {
        match self {
            CameraMove::ToPosition { translation, focus, .. } => OrbitalParams {
                yaw: decomposed.yaw,
                pitch: decomposed.pitch,
                radius: translation.minus(*focus).length(),
            },
            CameraMove::ToOrbit { yaw, pitch, radius, .. } => OrbitalParams {
                yaw: *yaw,
                pitch: *pitch,
                radius: *radius,
            },
        }
    }
}

/// `diff` brought into `[-PI, PI)` by whole turns: `diff - TAU * floor((diff + PI) / TAU)`.
pub open spec fn spec_wrap_angle(diff: i64) -> i64 {
    (((diff + PI) % (TAU as int)) - PI) as i64
}

/// The shortest signed rotation that is `diff` up to whole turns.
#[verifier::when_used_as_spec(spec_wrap_angle)]
pub fn wrap_angle(diff: i64) -> (r: i64)
    ensures
        r == spec_wrap_angle(diff),
        -PI <= r < PI,
        (diff - r) % (TAU as int) == 0,
        -PI <= diff < PI ==> r == diff,
{
    let shifted: i128 = diff as i128 + PI as i128;
    let rem: i128 = shifted % (TAU as i128);
    let turned: i128 = if rem < 0 {
        rem + TAU as i128
    } else {
        rem
    };
    (turned - PI as i128) as i64
}

/// Rotation from `start` to `target` along the shorter way round.
pub open spec fn spec_yaw_diff(start: i64, target: i64) -> i64 {
    wrap_angle(fx_sub(target, start))
}

#[verifier::when_used_as_spec(spec_yaw_diff)]
pub fn yaw_diff(start: i64, target: i64) -> (r: i64)
    ensures
        r == spec_yaw_diff(start, target),
        -PI <= r < PI,
{
    wrap_angle(fx_sub(target, start))
}

/// Pitch change from `start` to `target`: where the plain difference is
/// more than half a turn, the target is taken one turn nearer first.
pub open spec fn spec_pitch_diff(start: i64, target: i64) -> i64 {
    let raw = fx_sub(target, start);
    if raw > PI {
        fx_sub(fx_sub(target, TAU), start)
    } else if raw < -PI {
        fx_sub(fx_add(target, TAU), start)
    } else {
        raw
    }
}

#[verifier::when_used_as_spec(spec_pitch_diff)]
pub fn pitch_diff(start: i64, target: i64) -> (r: i64)
    ensures
        r == spec_pitch_diff(start, target),
{
    let raw = fx_sub(target, start);
    if raw > PI {
        fx_sub(fx_sub(target, TAU), start)
    } else if raw < -PI {
        fx_sub(fx_add(target, TAU), start)
    } else {
        raw
    }
}

/// Fraction of a move of `duration_ms` that is over after `elapsed_ms`:
/// their quotient, clamped to `[0, 1]`. A move of no duration is over at
/// once; one of positive duration is over exactly when the elapsed time
/// has reached the duration.
pub open spec fn spec_progress(elapsed_ms: i64, duration_ms: i64) -> i64 {
    if duration_ms == 0 {
        SCALE
    } else {
        let t = fx_div(elapsed_ms, duration_ms);
        if t < 0 {
            0
        } else if t > SCALE {
            SCALE
        } else {
            t
        }
    }
}

#[verifier::when_used_as_spec(spec_progress)]
pub fn progress(elapsed_ms: i64, duration_ms: i64) -> (t: i64)
    ensures
        t == spec_progress(elapsed_ms, duration_ms),
        0 <= t <= SCALE,
        duration_ms == 0 ==> t == SCALE,
        duration_ms > 0 ==> (t == SCALE <==> elapsed_ms >= duration_ms),
{
    if duration_ms == 0 {
        SCALE
    } else {
        proof {
            if duration_ms > 0 {
                lemma_fx_div_reaches_one(elapsed_ms, duration_ms);
            }
        }
        let t = fx_div(elapsed_ms, duration_ms);
        if t < 0 {
            0
        } else if t > SCALE {
            SCALE
        } else {
            t
        }
    }
}

/// A move of positive duration is over exactly when its time is up: its
/// progress is one where the elapsed time has reached the duration, and
/// below one else.
pub proof fn lemma_over_when_time_is_up(elapsed_ms: i64, duration_ms: i64)
    requires
        duration_ms > 0,
    ensures
        progress(elapsed_ms, duration_ms) >= SCALE <==> elapsed_ms >= duration_ms,
{
    if duration_ms > 0 {
        lemma_fx_div_reaches_one(elapsed_ms, duration_ms);
    }
}

/// The pose `t_interp` of the way from `start` to `target`, with focus
/// `target_focus`: yaw along the shorter way round, the rest linearly.
pub open spec fn spec_interpolate(
    start: OrbitPose,
    target_focus: Vec3,
    target: OrbitalParams,
    t_interp: i64,
) -> OrbitPose {
    OrbitPose {
        focus: start.focus.lerp(target_focus, t_interp),
        yaw: fx_add(start.yaw, fx_mul(yaw_diff(start.yaw, target.yaw), t_interp)),
        pitch: fx_add(start.pitch, fx_mul(pitch_diff(start.pitch, target.pitch), t_interp)),
        radius: fx_lerp(start.radius, target.radius, t_interp),
    }
}

#[verifier::when_used_as_spec(spec_interpolate)]
pub fn interpolate(start: OrbitPose, target_focus: Vec3, target: OrbitalParams, t_interp: i64) -> (r:
    OrbitPose)
    ensures
        r == spec_interpolate(start, target_focus, target, t_interp),
{
    OrbitPose {
        focus: start.focus.lerp(target_focus, t_interp),
        yaw: fx_add(start.yaw, fx_mul(yaw_diff(start.yaw, target.yaw), t_interp)),
        pitch: fx_add(start.pitch, fx_mul(pitch_diff(start.pitch, target.pitch), t_interp)),
        radius: fx_lerp(start.radius, target.radius, t_interp),
    }
}

/// Where the queue stands with its front move.
#[derive(Clone, Copy, Debug, PartialEq, Eq, Structural)]
pub enum MoveState {
    /// The front move is under way since `elapsed_ms`, from the pose the
    /// camera had when it began.
    InProgress {
        elapsed_ms: i64,
        start_focus: Vec3,
        start_pitch: i64,
        start_radius: i64,
        start_yaw: i64,
    },
    /// The front move has not begun.
    Ready,
}

impl MoveState {
    /// The state of a move that begins at `pose`.
    pub open spec fn begun_at(pose: OrbitPose) -> MoveState {
        MoveState::InProgress {
            elapsed_ms: 0,
            start_focus: pose.focus,
            start_pitch: pose.pitch,
            start_radius: pose.radius,
            start_yaw: pose.yaw,
        }
    }

    /// The pose at which the move under way began.
    pub open spec fn start(self) -> OrbitPose
        recommends
            self is InProgress,
    {
        OrbitPose {
            focus: self->start_focus,
            yaw: self->start_yaw,
            pitch: self->start_pitch,
            radius: self->start_radius,
        }
    }

    /// The same move under way, `elapsed_ms` after it began.
    pub open spec fn at(self, elapsed_ms: i64) -> MoveState
        recommends
            self is InProgress,
    {
        MoveState::InProgress {
            elapsed_ms,
            start_focus: self->start_focus,
            start_pitch: self->start_pitch,
            start_radius: self->start_radius,
            start_yaw: self->start_yaw,
        }
    }
}

/// Sum of the durations of `moves[lo..hi]`, added up from the left.
pub open spec fn total_duration(moves: Seq<CameraMove>, lo: int, hi: int) -> i64
    decreases hi - lo,
{
    if hi <= lo {
        0
    } else {
        fx_add(total_duration(moves, lo, hi - 1), moves[hi - 1].duration_ms())
    }
}

/// Camera moves to run one after the other.
pub struct CameraMoveList {
    pub moves: VecDeque<CameraMove>,
    pub state: MoveState,
}

/// What a tick did.
#[derive(Clone, Copy, Debug, PartialEq, Eq, Structural)]
pub enum TickOutcome {
    /// The queue holds no move: the animation is complete and nothing changed.
    QueueEmpty,
    /// The move began: smoothing is off and the camera pose is its origin.
    MoveBegan(CameraMove),
    /// The camera moved and the move goes on.
    Advanced,
    /// The camera moved and the move, now complete, left the queue.
    MoveEnded(CameraMove),
}

impl CameraMoveList {
    /// A queue that is about to begin its first move.
    pub fn new(moves: VecDeque<CameraMove>) -> (list: Self)
        ensures
            list.moves@ == moves@,
            list.state is Ready,
    {
        Self { moves, state: MoveState::Ready }
    }

    /// Whether no move is left.
    pub fn is_empty(&self) -> (r: bool)
        ensures
            r == (self.moves@.len() == 0),
    {
        self.moves.len() == 0
    }

    /// Time left for the front move: its duration less what has elapsed,
    /// not below zero; zero for an empty queue.
    pub open spec fn current_remaining(&self) -> i64 {
        if self.moves@.len() == 0 {
            0
        } else {
            match self.state {
                MoveState::InProgress { elapsed_ms, .. } => fx_max(
                    fx_sub(self.moves@[0].duration_ms(), elapsed_ms),
                    0,
                ),
                MoveState::Ready => self.moves@[0].duration_ms(),
            }
        }
    }

    pub open spec fn spec_remaining_time_ms(&self) -> i64 {
        fx_add(self.current_remaining(), total_duration(self.moves@, 1, self.moves@.len() as int))
    }

    /// Time in milliseconds until the queue has run out: what is left of
    /// the front move and the durations of all that follow.
    #[verifier::when_used_as_spec(spec_remaining_time_ms)]
    pub fn remaining_time_ms(&self) -> (r: i64)
        ensures
            r == self.spec_remaining_time_ms(),
    {
        let n = self.moves.len();
        let current_remaining = if n == 0 {
            0
        } else {
            match self.state {
                MoveState::InProgress { elapsed_ms, .. } => fx_max(
                    fx_sub(self.moves[0].duration_ms(), elapsed_ms),
                    0,
                ),
                MoveState::Ready => self.moves[0].duration_ms(),
            }
        };
        let mut rest: i64 = 0;
        let mut i: usize = 1;
        while i < n
            invariant
                1 <= i,
                n == self.moves@.len(),
                i <= n || n == 0,
                rest == total_duration(self.moves@, 1, if n == 0 { 1 } else { i as int }),
            decreases n - i,
        {
            rest = fx_add(rest, self.moves[i].duration_ms());
            i += 1;
        }
        fx_add(current_remaining, rest)
    }

    /// The progress the front move will have made once `delta_ms` more have
    /// elapsed, with the curve to ease it by; `None` unless a move is under
    /// way. The next tick expects this progress, eased.
    pub open spec fn spec_sample_point(&self, delta_ms: i64) -> Option<(i64, EaseFunction)> {
        if self.moves@.len() == 0 {
            None
        } else {
            match self.state {
                MoveState::InProgress { elapsed_ms, .. } => Some(
                    (
                        progress(fx_add(elapsed_ms, delta_ms), self.moves@[0].duration_ms()),
                        self.moves@[0].easing(),
                    ),
                ),
                MoveState::Ready => None,
            }
        }
    }

    #[verifier::when_used_as_spec(spec_sample_point)]
    pub fn sample_point(&self, delta_ms: i64) -> (r: Option<(i64, EaseFunction)>)
        ensures
            r == self.spec_sample_point(delta_ms),
    {
        if self.moves.len() == 0 {
            None
        } else {
            match self.state {
                MoveState::InProgress { elapsed_ms, .. } => Some(
                    (
                        progress(fx_add(elapsed_ms, delta_ms), self.moves[0].duration_ms()),
                        self.moves[0].easing(),
                    ),
                ),
                MoveState::Ready => None,
            }
        }
    }
}

/// Advances the move queue of one camera by one tick of `delta_ms`.
///
/// - An empty queue is left alone: the animation is complete.
/// - A front move that has not begun begins: smoothing is switched off and
///   the pose of the camera becomes the origin of the move. The camera does
///   not move in this tick.
/// - A move under way has `delta_ms` added to its elapsed time, and the
///   camera takes the pose `t_interp` of the way from the origin to the
///   target of the move. `t_interp` is the progress that
///   [`CameraMoveList::sample_point`] gave for this tick, eased by the
///   host; `decomposed` is the host's decomposition of the offset of a
///   `ToPosition` move, and is not read for a `ToOrbit` move. Once the
///   elapsed time has reached the duration the move leaves the queue, and
///   the next one, if any, begins with the next tick.
pub fn process_camera_move_list(
    camera: &mut OrbitCamera,
    queue: &mut CameraMoveList,
    delta_ms: i64,
    t_interp: i64,
    decomposed: Direction,
) -> (outcome: TickOutcome)
    ensures
        old(queue).moves@.len() == 0 ==> {
            &&& outcome is QueueEmpty
            &&& *final(camera) == *old(camera)
            &&& final(queue).moves@ == old(queue).moves@
            &&& final(queue).state == old(queue).state
        },
        old(queue).moves@.len() > 0 && old(queue).state is Ready ==> {
            &&& outcome == TickOutcome::MoveBegan(old(queue).moves@[0])
            &&& *final(camera) == old(camera).without_smoothing()
            &&& final(queue).moves@ == old(queue).moves@
            &&& final(queue).state == MoveState::begun_at(old(camera).pose())
        },
        old(queue).moves@.len() > 0 && old(queue).state is InProgress ==> {
            let current = old(queue).moves@[0];
            let elapsed = fx_add(old(queue).state->elapsed_ms, delta_ms);
            let pose = interpolate(
                old(queue).state.start(),
                current.focus(),
                current.orbital_params(decomposed),
                t_interp,
            );
            &&& *final(camera) == old(camera).moved_to(pose)
            &&& if progress(elapsed, current.duration_ms()) >= SCALE {
                &&& outcome == TickOutcome::MoveEnded(current)
                &&& final(queue).moves@ == old(queue).moves@.subrange(
                    1,
                    old(queue).moves@.len() as int,
                )
                &&& final(queue).state is Ready
            } else {
                &&& outcome is Advanced
                &&& final(queue).moves@ == old(queue).moves@
                &&& final(queue).state == old(queue).state.at(elapsed)
            }
        },
{
    if queue.moves.len() == 0 {
        return TickOutcome::QueueEmpty;
    }
    let current = queue.moves[0];
    match queue.state {
        MoveState::Ready => {
            camera.disable_interpolation();
            queue.state = MoveState::InProgress {
                elapsed_ms: 0,
                start_focus: camera.target_focus,
                start_pitch: camera.target_pitch,
                start_radius: camera.target_radius,
                start_yaw: camera.target_yaw,
            };
            TickOutcome::MoveBegan(current)
        },
        MoveState::InProgress { elapsed_ms, start_focus, start_pitch, start_radius, start_yaw } => {
            let elapsed = fx_add(elapsed_ms, delta_ms);
            let t = progress(elapsed, current.duration_ms());
            let start = OrbitPose {
                focus: start_focus,
                yaw: start_yaw,
                pitch: start_pitch,
                radius: start_radius,
            };
            let pose = interpolate(
                start,
                current.focus(),
                current.orbital_params(decomposed),
                t_interp,
            );
            camera.set_pose(pose);
            if t >= SCALE {
                queue.moves.pop_front();
                queue.state = MoveState::Ready;
                TickOutcome::MoveEnded(current)
            } else {
                queue.state = MoveState::InProgress {
                    elapsed_ms: elapsed,
                    start_focus,
                    start_pitch,
                    start_radius,
                    start_yaw,
                };
                TickOutcome::Advanced
            }
        },
    }
}

/// Largest magnitude of an angle or a coordinate for which the sums and
/// differences of an interpolation are exact.
pub const EXACT_RANGE: i64 = 0x1fff_ffff_ffff_ffff;

/// Whether `a` is small enough for interpolation to be exact on it.
pub open spec fn in_exact_range(a: i64) -> bool {
    -EXACT_RANGE <= a <= EXACT_RANGE
}

/// Whether each coordinate of `v` is small enough for interpolation to be exact on it.
pub open spec fn vec_in_exact_range(v: Vec3) -> bool {
    in_exact_range(v.x) && in_exact_range(v.y) && in_exact_range(v.z)
}

/// Yaw `t_interp` of the way from `start` to `target`, as [`interpolate`] gives it.
pub open spec fn yaw_at(start: i64, target: i64, t_interp: i64) -> i64 {
    fx_add(start, fx_mul(yaw_diff(start, target), t_interp))
}

/// Yaw is interpolated along the shorter way round.
///
/// As the eased progress grows from zero to one the yaw moves in one
/// direction only, from where it started to where it ends, and the whole
/// sweep is at most half a turn. Where no sum saturates the end is the
/// target up to whole turns.
pub proof fn lemma_yaw_takes_short_way(start: i64, target: i64, t1: i64, t2: i64)
    requires
        0 <= t1 <= t2 <= SCALE,
    ensures
        yaw_diff(start, target) >= 0 ==> yaw_at(start, target, 0) <= yaw_at(start, target, t1)
            <= yaw_at(start, target, t2) <= yaw_at(start, target, SCALE),
        yaw_diff(start, target) <= 0 ==> yaw_at(start, target, 0) >= yaw_at(start, target, t1)
            >= yaw_at(start, target, t2) >= yaw_at(start, target, SCALE),
        -PI <= yaw_at(start, target, SCALE) - yaw_at(start, target, 0) <= PI,
        in_exact_range(start) && in_exact_range(target) ==> (yaw_at(start, target, SCALE) - target)
            % (TAU as int) == 0,
{
    let d = yaw_diff(start, target);
    lemma_fx_mul_monotone(d, 0, t1);
    lemma_fx_mul_monotone(d, t1, t2);
    lemma_fx_mul_monotone(d, t2, SCALE);
    lemma_fx_mul_by_one(d);
    assert(fx_mul(d, 0) == 0) by {
        assert(d * 0 == 0);
    }
    if in_exact_range(start) && in_exact_range(target) {
        let raw = fx_sub(target, start);
        assert(raw == target - start);
        assert((raw - d) % (TAU as int) == 0);
        assert(yaw_at(start, target, SCALE) == start + d);
        assert(start + d - target == -(raw - d));
        assert((-(raw - d)) % (TAU as int) == 0) by {
            let k = (raw - d) / (TAU as int);
            assert(raw - d == k * TAU);
            assert(-(raw - d) == (-k) * TAU);
            vstd::arithmetic::div_mod::lemma_mod_multiples_basic(-k, TAU as int);
        }
    }
}

/// A `ToOrbit` move ends exactly at its target.
///
/// At an eased progress of one the interpolated pose has the focus, pitch
/// and radius of the move, and its yaw up to whole turns: the yaw itself
/// where it is less than half a turn from the start. The host's
/// decomposition is not read. This holds for poses within
/// [`EXACT_RANGE`], with no radius negative and the pitch within half a
/// turn of the start.
pub proof fn lemma_to_orbit_reaches_target(
    start: OrbitPose,
    focus: Vec3,
    yaw: i64,
    pitch: i64,
    radius: i64,
    duration_ms: i64,
    easing: EaseFunction,
    decomposed: Direction,
)
    requires
        vec_in_exact_range(start.focus),
        vec_in_exact_range(focus),
        in_exact_range(start.yaw),
        in_exact_range(yaw),
        in_exact_range(start.pitch),
        in_exact_range(pitch),
        -PI <= pitch - start.pitch <= PI,
        0 <= start.radius,
        0 <= radius,
    ensures
        ({
            let mv = CameraMove::ToOrbit { focus, yaw, pitch, radius, duration_ms, easing };
            let end = interpolate(start, mv.focus(), mv.orbital_params(decomposed), SCALE);
            &&& end.focus == focus
            &&& end.pitch == pitch
            &&& end.radius == radius
            &&& (end.yaw - yaw) % (TAU as int) == 0
            &&& -PI <= yaw - start.yaw < PI ==> end.yaw == yaw
        }),
{
    lemma_yaw_takes_short_way(start.yaw, yaw, 0, SCALE);
    lemma_fx_mul_by_one(pitch_diff(start.pitch, pitch));
    lemma_fx_mul_by_one(fx_sub(radius, start.radius));
    lemma_fx_mul_by_one(fx_sub(focus.x, start.focus.x));
    lemma_fx_mul_by_one(fx_sub(focus.y, start.focus.y));
    lemma_fx_mul_by_one(fx_sub(focus.z, start.focus.z));
    lemma_fx_mul_by_one(yaw_diff(start.yaw, yaw));
}

} // verus!
