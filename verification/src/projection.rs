//! Projection model: from world space to normalized screen coordinates.

use vstd::prelude::*;
use crate::fixed::{fx_abs, fx_div, fx_half, fx_midpoint, fx_mul, SCALE};
use crate::vec3::Vec3;

verus! {

/// A perspective point at or below this depth counts as behind the camera (0.1).
pub const MIN_VISIBLE_DEPTH: i64 = 100_000;

/// Smallest positive scalar; a magnitude below it is zero.
pub const EPSILON: i64 = 1;

/// How the camera maps camera space onto the screen.
#[derive(Clone, Copy, Debug, PartialEq, Eq, Structural)]
pub enum Projection {
    /// `half_tan_vfov` is the tangent of half the vertical field of view.
    Perspective { half_tan_vfov: i64, aspect_ratio_hint: Option<i64> },
    /// `width` and `height` span the visible area at `scale`; the camera sits
    /// halfway between `near` and `far` from the focus.
    Orthographic { width: i64, height: i64, scale: i64, near: i64, far: i64 },
    /// A projection this library cannot frame.
    Custom,
}

/// Size of the viewport in pixels.
#[derive(Clone, Copy, Debug, PartialEq, Eq, Structural)]
pub struct Viewport {
    pub width: i64,
    pub height: i64,
}

/// Orientation of a camera: three world-space unit directions.
#[derive(Clone, Copy, Debug, PartialEq, Eq, Structural)]
pub struct CameraBasis {
    pub right: Vec3,
    pub up: Vec3,
    pub forward: Vec3,
}

/// Position and orientation of a camera.
#[derive(Clone, Copy, Debug, PartialEq, Eq, Structural)]
pub struct CameraFrame {
    pub position: Vec3,
    pub right: Vec3,
    pub up: Vec3,
    pub forward: Vec3,
}

impl CameraBasis {
    /// The frame of a camera that looks at `focus` from `distance` behind it.
    pub open spec fn spec_frame_at(self, focus: Vec3, distance: i64) -> CameraFrame {
        CameraFrame {
            position: focus.minus(self.forward.scaled(distance)),
            right: self.right,
            up: self.up,
            forward: self.forward,
        }
    }

    #[verifier::when_used_as_spec(spec_frame_at)]
    pub fn frame_at(self, focus: Vec3, distance: i64) -> (frame: CameraFrame)
        ensures
            frame == self.spec_frame_at(focus, distance),
    {
        CameraFrame {
            position: focus.minus(self.forward.scaled(distance)),
            right: self.right,
            up: self.up,
            forward: self.forward,
        }
    }
}

/// Half extents of the visible area and the kind of projection.
#[derive(Clone, Copy, Debug, PartialEq, Eq, Structural)]
pub struct ProjectionParams {
    /// Perspective: `half_tan_vfov` times the aspect ratio; orthographic: half the width.
    pub half_extent_x: i64,
    /// Perspective: `half_tan_vfov`; orthographic: half the height.
    pub half_extent_y: i64,
    pub is_ortho: bool,
}

impl ProjectionParams {
    pub open spec fn spec_from_projection(projection: Projection, viewport_aspect: i64) -> Option<
        ProjectionParams,
    > {
        match projection {
            Projection::Perspective { half_tan_vfov, .. } => Some(
                ProjectionParams {
                    half_extent_x: fx_mul(half_tan_vfov, viewport_aspect),
                    half_extent_y: half_tan_vfov,
                    is_ortho: false,
                },
            ),
            Projection::Orthographic { width, height, .. } => Some(
                ProjectionParams {
                    half_extent_x: fx_half(width),
                    half_extent_y: fx_half(height),
                    is_ortho: true,
                },
            ),
            Projection::Custom => None,
        }
    }

    /// The half extents of `projection`; `None` for a projection that is
    /// neither perspective nor orthographic.
    #[verifier::when_used_as_spec(spec_from_projection)]
    pub fn from_projection(projection: Projection, viewport_aspect: i64) -> (r: Option<
        ProjectionParams,
    >)
        ensures
            r == Self::spec_from_projection(projection, viewport_aspect),
            r is None <==> projection is Custom,
    {
        match projection {
            Projection::Perspective { half_tan_vfov, .. } => Some(
                ProjectionParams {
                    half_extent_x: fx_mul(half_tan_vfov, viewport_aspect),
                    half_extent_y: half_tan_vfov,
                    is_ortho: false,
                },
            ),
            Projection::Orthographic { width, height, .. } => Some(
                ProjectionParams {
                    half_extent_x: fx_half(width),
                    half_extent_y: fx_half(height),
                    is_ortho: true,
                },
            ),
            Projection::Custom => None,
        }
    }
}

/// Depth of `point` along the camera's forward axis.
pub open spec fn depth_of(point: Vec3, cam_pos: Vec3, cam_forward: Vec3) -> i64 {
    point.minus(cam_pos).dot(cam_forward)
}

pub open spec fn spec_project_point(
    point: Vec3,
    cam_pos: Vec3,
    cam_right: Vec3,
    cam_up: Vec3,
    cam_forward: Vec3,
    is_ortho: bool,
) -> Option<(i64, i64, i64)> {
    let relative = point.minus(cam_pos);
    let depth = relative.dot(cam_forward);
    if !is_ortho && depth <= MIN_VISIBLE_DEPTH {
        None
    } else if is_ortho {
        Some((relative.dot(cam_right), relative.dot(cam_up), depth))
    } else {
        Some((fx_div(relative.dot(cam_right), depth), fx_div(relative.dot(cam_up), depth), depth))
    }
}

/// Projects a world-space point to `(norm_x, norm_y, depth)`.
///
/// Perspective divides the camera-space coordinates by the depth and fails
/// for a point at or below [`MIN_VISIBLE_DEPTH`]; orthographic returns the
/// camera-space coordinates as they are and never fails.
#[verifier::when_used_as_spec(spec_project_point)]
pub fn project_point(
    point: Vec3,
    cam_pos: Vec3,
    cam_right: Vec3,
    cam_up: Vec3,
    cam_forward: Vec3,
    is_ortho: bool,
) -> (r: Option<(i64, i64, i64)>)
    ensures
        r == spec_project_point(point, cam_pos, cam_right, cam_up, cam_forward, is_ortho),
        r is None <==> !is_ortho && depth_of(point, cam_pos, cam_forward) <= MIN_VISIBLE_DEPTH,
        r matches Some(p) ==> p.2 == depth_of(point, cam_pos, cam_forward),
{
    let relative = point.minus(cam_pos);
    let depth = relative.dot(cam_forward);
    if !is_ortho && depth <= MIN_VISIBLE_DEPTH {
        return None;
    }
    let x = relative.dot(cam_right);
    let y = relative.dot(cam_up);
    if is_ortho {
        Some((x, y, depth))
    } else {
        Some((fx_div(x, depth), fx_div(y, depth), depth))
    }
}

pub open spec fn spec_projection_aspect_ratio(
    projection: Projection,
    viewport: Option<Viewport>,
) -> Option<i64> {
    match projection {
        Projection::Perspective { aspect_ratio_hint, .. } => match viewport {
            Some(size) => Some(fx_div(size.width, size.height)),
            None => aspect_ratio_hint,
        },
        Projection::Orthographic { width, height, .. } => if fx_abs(height) < EPSILON {
            None
        } else {
            Some(fx_div(width, height))
        },
        Projection::Custom => None,
    }
}

/// Width over height of what the camera shows.
///
/// For perspective the viewport, when known, overrides the stored hint. For
/// orthographic it is that of the visible area, and `None` when the area has
/// no height. `None` for any other projection.
#[verifier::when_used_as_spec(spec_projection_aspect_ratio)]
pub fn projection_aspect_ratio(projection: Projection, viewport: Option<Viewport>) -> (r: Option<
    i64,
>)
    ensures
        r == spec_projection_aspect_ratio(projection, viewport),
{
    match projection {
        Projection::Perspective { aspect_ratio_hint, .. } => match viewport {
            Some(size) => Some(fx_div(size.width, size.height)),
            None => aspect_ratio_hint,
        },
        Projection::Orthographic { width, height, .. } => if fx_abs(height) < EPSILON {
            None
        } else {
            Some(fx_div(width, height))
        },
        Projection::Custom => None,
    }
}

/// Distance from the focus at which an orthographic camera is held.
pub open spec fn spec_ortho_fixed_distance(projection: Projection) -> Option<i64> {
    match projection {
        Projection::Orthographic { near, far, .. } => Some(fx_midpoint(near, far)),
        _ => None,
    }
}

#[verifier::when_used_as_spec(spec_ortho_fixed_distance)]
pub fn ortho_fixed_distance(projection: Projection) -> (r: Option<i64>)
    ensures
        r == spec_ortho_fixed_distance(projection),
{
    match projection {
        Projection::Orthographic { near, far, .. } => Some(fx_midpoint(near, far)),
        _ => None,
    }
}

/// The projection as it would be with `test_radius` as its scale.
pub open spec fn spec_build_test_projection(projection: Projection, test_radius: i64) -> Projection {
    match projection {
        Projection::Orthographic { width, height, scale, near, far } => {
            let ratio = if fx_abs(scale) >= EPSILON {
                fx_div(test_radius, scale)
            } else {
                SCALE
            };
            Projection::Orthographic {
                width: fx_mul(width, ratio),
                height: fx_mul(height, ratio),
                scale: test_radius,
                near,
                far,
            }
        },
        _ => projection,
    }
}

/// The projection to evaluate a candidate radius with.
///
/// Perspective is returned unchanged. For orthographic the radius drives the
/// scale, so the visible area is resized by `test_radius / scale` (by one
/// where the current scale is zero).
#[verifier::when_used_as_spec(spec_build_test_projection)]
pub fn build_test_projection(projection: Projection, test_radius: i64) -> (r: Projection)
    ensures
        r == spec_build_test_projection(projection, test_radius),
{
    match projection {
        Projection::Orthographic { width, height, scale, near, far } => {
            let ratio = if fx_abs(scale) >= EPSILON {
                fx_div(test_radius, scale)
            } else {
                SCALE
            };
            Projection::Orthographic {
                width: fx_mul(width, ratio),
                height: fx_mul(height, ratio),
                scale: test_radius,
                near,
                far,
            }
        },
        _ => projection,
    }
}

} // verus!
