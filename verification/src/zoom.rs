//! Frame-by-frame convergence onto a framed box: each tick moves the camera
//! a share of the way to where the box would fit, until it does.

use vstd::prelude::*;
use crate::bounds::{extremes_of, lemma_extremes_of, projected, Extremes};
use crate::camera::OrbitCamera;
use crate::fixed::{fx_abs, fx_add, fx_div, fx_max, fx_midpoint, fx_min, fx_mul, fx_sub, SCALE};
use crate::projection::{project_point, CameraFrame, Projection, Viewport, MIN_VISIBLE_DEPTH};
use crate::vec3::Vec3;

verus! {

/// How a camera converges onto its target.
#[derive(Clone, Copy, Debug, PartialEq, Eq, Structural)]
pub struct ZoomConfig {
    /// Ticks after which the camera gives up.
    pub max_iterations: usize,
    /// Share of the screen left free round the target.
    pub margin: i64,
    /// How near the margins have to come to count as reached.
    pub margin_tolerance: i64,
    /// Share of the remaining way the camera goes in one tick.
    pub convergence_rate: i64,
}

impl Default for ZoomConfig {
    fn default() -> (r: Self)
        ensures
            r == (ZoomConfig {
                max_iterations: 200,
                margin: 100_000,
                margin_tolerance: 10,
                convergence_rate: 300_000,
            }),
    {
        Self { max_iterations: 200, margin: 100_000, margin_tolerance: 10, convergence_rate: 300_000 }
    }
}

impl ZoomConfig {
    pub open spec fn spec_zoom_margin_multiplier(&self) -> i64 {
        fx_div(SCALE, fx_sub(SCALE, self.margin))
    }

    /// `1 / (1 - margin)`.
    #[verifier::when_used_as_spec(spec_zoom_margin_multiplier)]
    pub fn zoom_margin_multiplier(&self) -> (r: i64)
        ensures
            r == self.spec_zoom_margin_multiplier(),
    {
        fx_div(SCALE, fx_sub(SCALE, self.margin))
    }
}

/// Marks a camera that is converging onto a box, and counts its ticks.
#[derive(Clone, Copy, Debug)]
pub struct ZoomToFitComponent {
    pub target_corners: [Vec3; 8],
    pub iteration_count: usize,
}

/// Rate at which the camera closes small differences (0.8).
pub const FINE_RATE: i64 = 800_000;

/// Share of the radius below which a difference is small (0.05).
pub const FINE_THRESHOLD: i64 = 50_000;

/// Factor by which the camera backs off when a corner is behind it (1.5).
pub const BACK_OFF: i64 = 1_500_000;

/// The number eight, as a scalar.
pub const EIGHT: i64 = 8_000_000;

/// Sum of the depths of the first `n` projections.
pub open spec fn depth_sum(ps: Seq<Option<(i64, i64, i64)>>, n: int) -> i64
    decreases n,
{
    if n <= 0 {
        0
    } else {
        fx_add(depth_sum(ps, n - 1), ps[n - 1].unwrap().2)
    }
}

/// Sum of the first `n` vectors.
pub open spec fn vec_sum(vs: Seq<Vec3>, n: int) -> Vec3
    decreases n,
{
    if n <= 0 {
        Vec3 { x: 0, y: 0, z: 0 }
    } else {
        vec_sum(vs, n - 1).plus(vs[n - 1])
    }
}

/// The mean of eight corners.
pub open spec fn spec_corners_center(corners: Seq<Vec3>) -> Vec3 {
    let total = vec_sum(corners, 8);
    Vec3 { x: fx_div(total.x, EIGHT), y: fx_div(total.y, EIGHT), z: fx_div(total.z, EIGHT) }
}

pub fn corners_center(corners: &[Vec3; 8]) -> (r: Vec3)
    ensures
        r == spec_corners_center(corners@),
{
    let mut total = Vec3 { x: 0, y: 0, z: 0 };
    let mut i: usize = 0;
    while i < 8
        invariant
            i <= 8,
            total == vec_sum(corners@, i as int),
        decreases 8 - i,
    {
        total = total.plus(corners[i]);
        i += 1;
    }
    Vec3 { x: fx_div(total.x, EIGHT), y: fx_div(total.y, EIGHT), z: fx_div(total.z, EIGHT) }
}

/// The projected bounding box of the eight corners of a box in a
/// perspective view, with its margins to the screen edges.
#[derive(Clone, Copy, Debug, PartialEq, Eq, Structural)]
pub struct ScreenSpaceBounds {
    pub left_margin: i64,
    pub right_margin: i64,
    pub top_margin: i64,
    pub bottom_margin: i64,
    pub target_margin_x: i64,
    pub target_margin_y: i64,
    pub min_norm_x: i64,
    pub max_norm_x: i64,
    pub min_norm_y: i64,
    pub max_norm_y: i64,
    /// Mean depth of the corners.
    pub avg_depth: i64,
    pub half_tan_vfov: i64,
    pub half_tan_hfov: i64,
}

impl ScreenSpaceBounds {
    /// The bounds that the extremes `e` and the mean depth give on a screen
    /// of vertical half extent `half_tan_vfov`.
    pub open spec fn spec_assemble(
        e: Extremes,
        avg_depth: i64,
        half_tan_vfov: i64,
        viewport_aspect: i64,
        zoom_multiplier: i64,
    ) -> Self {
        let half_tan_hfov = fx_mul(half_tan_vfov, viewport_aspect);
        ScreenSpaceBounds {
            left_margin: fx_add(e.min_x, half_tan_hfov),
            right_margin: fx_sub(half_tan_hfov, e.max_x),
            top_margin: fx_sub(half_tan_vfov, e.max_y),
            bottom_margin: fx_add(e.min_y, half_tan_vfov),
            target_margin_x: fx_sub(half_tan_hfov, fx_div(half_tan_hfov, zoom_multiplier)),
            target_margin_y: fx_sub(half_tan_vfov, fx_div(half_tan_vfov, zoom_multiplier)),
            min_norm_x: e.min_x,
            max_norm_x: e.max_x,
            min_norm_y: e.min_y,
            max_norm_y: e.max_y,
            avg_depth,
            half_tan_vfov,
            half_tan_hfov,
        }
    }

    #[verifier::when_used_as_spec(spec_assemble)]
    pub fn assemble(
        e: Extremes,
        avg_depth: i64,
        half_tan_vfov: i64,
        viewport_aspect: i64,
        zoom_multiplier: i64,
    ) -> (b: Self)
        ensures
            b == Self::spec_assemble(e, avg_depth, half_tan_vfov, viewport_aspect, zoom_multiplier),
    {
        let half_tan_hfov = fx_mul(half_tan_vfov, viewport_aspect);
        ScreenSpaceBounds {
            left_margin: fx_add(e.min_x, half_tan_hfov),
            right_margin: fx_sub(half_tan_hfov, e.max_x),
            top_margin: fx_sub(half_tan_vfov, e.max_y),
            bottom_margin: fx_add(e.min_y, half_tan_vfov),
            target_margin_x: fx_sub(half_tan_hfov, fx_div(half_tan_hfov, zoom_multiplier)),
            target_margin_y: fx_sub(half_tan_vfov, fx_div(half_tan_vfov, zoom_multiplier)),
            min_norm_x: e.min_x,
            max_norm_x: e.max_x,
            min_norm_y: e.min_y,
            max_norm_y: e.max_y,
            avg_depth,
            half_tan_vfov,
            half_tan_hfov,
        }
    }

    pub open spec fn spec_from_corners(
        corners: Seq<Vec3>,
        frame: CameraFrame,
        half_tan_vfov: i64,
        viewport_aspect: i64,
        zoom_multiplier: i64,
    ) -> Option<Self> {
        let ps = projected(corners, frame, false);
        match extremes_of(ps, 8) {
            None => None,
            Some(e) => Some(
                Self::assemble(
                    e,
                    fx_div(depth_sum(ps, 8), EIGHT),
                    half_tan_vfov,
                    viewport_aspect,
                    zoom_multiplier,
                ),
            ),
        }
    }

    /// The screen-space bounds of eight corners seen from `frame` in
    /// perspective; `None` where a corner is at or below
    /// [`MIN_VISIBLE_DEPTH`].
    pub fn from_corners(
        corners: &[Vec3; 8],
        frame: &CameraFrame,
        half_tan_vfov: i64,
        viewport_aspect: i64,
        zoom_multiplier: i64,
    ) -> (r: Option<Self>)
        ensures
            r == Self::spec_from_corners(
                corners@,
                *frame,
                half_tan_vfov,
                viewport_aspect,
                zoom_multiplier,
            ),
            r is Some <==> forall|i: int|
                0 <= i < 8 ==> crate::projection::depth_of(
                    #[trigger] corners@[i],
                    frame.position,
                    frame.forward,
                ) > MIN_VISIBLE_DEPTH,
    {
        let ghost ps = projected(corners@, *frame, false);
        proof {
            lemma_extremes_of(ps, 8);
        }
        let first = match project_point(
            corners[0],
            frame.position,
            frame.right,
            frame.up,
            frame.forward,
            false,
        ) {
            None => {
                assert(ps[0] is None);
                return None;
            },
            Some(p) => p,
        };
        assert(ps[0] == Some(first));
        let mut e = Extremes::start(first);
        let mut total = fx_add(0, first.2);
        assert(depth_sum(ps, 0) == 0);
        assert(total == depth_sum(ps, 1));
        let mut i: usize = 1;
        while i < 8
            invariant
                1 <= i <= 8,
                corners@.len() == 8,
                ps == projected(corners@, *frame, false),
                extremes_of(ps, i as int) == Some(e),
                total == depth_sum(ps, i as int),
                extremes_of(ps, 8) is Some <==> crate::bounds::all_visible(ps, 8),
            decreases 8 - i,
        {
            match project_point(
                corners[i],
                frame.position,
                frame.right,
                frame.up,
                frame.forward,
                false,
            ) {
                None => {
                    assert(ps[i as int] is None);
                    assert(!crate::bounds::all_visible(ps, 8));
                    assert(!(crate::projection::depth_of(
                        corners@[i as int],
                        frame.position,
                        frame.forward,
                    ) > MIN_VISIBLE_DEPTH));
                    return None;
                },
                Some(p) => {
                    assert(ps[i as int] == Some(p));
                    e = e.with_point(p);
                    total = fx_add(total, p.2);
                },
            }
            i += 1;
        }
        proof {
            assert(crate::bounds::all_visible(ps, 8));
            assert forall|j: int| 0 <= j < 8 implies crate::projection::depth_of(
                #[trigger] corners@[j],
                frame.position,
                frame.forward,
            ) > MIN_VISIBLE_DEPTH by {
                assert(ps[j] is Some);
            }
        }
        Some(
            Self::assemble(e, fx_div(total, EIGHT), half_tan_vfov, viewport_aspect, zoom_multiplier),
        )
    }

    pub open spec fn spec_is_balanced(&self, tolerance: i64) -> bool {
        fx_abs(fx_sub(self.left_margin, self.right_margin)) < tolerance && fx_abs(
            fx_sub(self.top_margin, self.bottom_margin),
        ) < tolerance
    }

    /// Whether opposite margins differ by less than `tolerance` on both axes.
    #[verifier::when_used_as_spec(spec_is_balanced)]
    pub fn is_balanced(&self, tolerance: i64) -> (r: bool)
        ensures
            r == self.spec_is_balanced(tolerance),
    {
        fx_abs(fx_sub(self.left_margin, self.right_margin)) < tolerance && fx_abs(
            fx_sub(self.top_margin, self.bottom_margin),
        ) < tolerance
    }

    pub open spec fn spec_is_fitted(&self, at_target_tolerance: i64) -> bool {
        let h_min = fx_min(self.left_margin, self.right_margin);
        let v_min = fx_min(self.top_margin, self.bottom_margin);
        if h_min < v_min {
            fx_abs(fx_sub(h_min, self.target_margin_x)) < at_target_tolerance
        } else {
            fx_abs(fx_sub(v_min, self.target_margin_y)) < at_target_tolerance
        }
    }

    /// Whether the tighter margin of the constraining axis is within
    /// `at_target_tolerance` of its target.
    #[verifier::when_used_as_spec(spec_is_fitted)]
    pub fn is_fitted(&self, at_target_tolerance: i64) -> (r: bool)
        ensures
            r == self.spec_is_fitted(at_target_tolerance),
    {
        let h_min = fx_min(self.left_margin, self.right_margin);
        let v_min = fx_min(self.top_margin, self.bottom_margin);
        if h_min < v_min {
            fx_abs(fx_sub(h_min, self.target_margin_x)) < at_target_tolerance
        } else {
            fx_abs(fx_sub(v_min, self.target_margin_y)) < at_target_tolerance
        }
    }

    pub open spec fn spec_center(&self) -> (i64, i64) {
        (
            fx_midpoint(self.min_norm_x, self.max_norm_x),
            fx_midpoint(self.min_norm_y, self.max_norm_y),
        )
    }

    /// Center of the box in normalized screen space.
    #[verifier::when_used_as_spec(spec_center)]
    pub fn center(&self) -> (r: (i64, i64))
        ensures
            r == self.spec_center(),
    {
        (
            fx_midpoint(self.min_norm_x, self.max_norm_x),
            fx_midpoint(self.min_norm_y, self.max_norm_y),
        )
    }

    pub open spec fn spec_span(&self) -> (i64, i64) {
        (fx_sub(self.max_norm_x, self.min_norm_x), fx_sub(self.max_norm_y, self.min_norm_y))
    }

    /// Width and height of the box in normalized screen space.
    #[verifier::when_used_as_spec(spec_span)]
    pub fn span(&self) -> (r: (i64, i64))
        ensures
            r == self.spec_span(),
    {
        (fx_sub(self.max_norm_x, self.min_norm_x), fx_sub(self.max_norm_y, self.min_norm_y))
    }
}

/// Where the focus should go: to the origin while the focus is more than
/// half a radius away from it, else to where the box is centered on screen.
pub open spec fn spec_calculate_target_focus(
    current_focus: Vec3,
    current_radius: i64,
    bounds: ScreenSpaceBounds,
    frame: CameraFrame,
) -> Vec3 {
    let origin = Vec3 { x: 0, y: 0, z: 0 };
    if current_focus.distance(origin) > fx_mul(current_radius, 500_000) {
        origin
    } else {
        current_focus.plus(
            frame.right.scaled(fx_mul(bounds.center().0, bounds.avg_depth)).plus(
                frame.up.scaled(fx_mul(bounds.center().1, bounds.avg_depth)),
            ),
        )
    }
}

#[verifier::when_used_as_spec(spec_calculate_target_focus)]
pub fn calculate_target_focus(
    current_focus: Vec3,
    current_radius: i64,
    bounds: ScreenSpaceBounds,
    frame: CameraFrame,
) -> (r: Vec3)
    ensures
        r == spec_calculate_target_focus(current_focus, current_radius, bounds, frame),
{
    let origin = Vec3 { x: 0, y: 0, z: 0 };
    if current_focus.distance(origin) > fx_mul(current_radius, 500_000) {
        origin
    } else {
        let (center_x, center_y) = bounds.center();
        current_focus.plus(
            frame.right.scaled(fx_mul(center_x, bounds.avg_depth)).plus(
                frame.up.scaled(fx_mul(center_y, bounds.avg_depth)),
            ),
        )
    }
}

/// The radius at which the larger of the two spans would reach its target:
/// the current radius times the larger ratio of span to target span.
pub open spec fn spec_calculate_target_radius(
    current_radius: i64,
    span_x: i64,
    span_y: i64,
    bounds: ScreenSpaceBounds,
    zoom_config: ZoomConfig,
) -> i64 {
    let target_span_x = fx_div(
        fx_add(bounds.half_tan_hfov, bounds.half_tan_hfov),
        zoom_config.zoom_margin_multiplier(),
    );
    let target_span_y = fx_div(
        fx_add(bounds.half_tan_vfov, bounds.half_tan_vfov),
        zoom_config.zoom_margin_multiplier(),
    );
    fx_mul(current_radius, fx_max(fx_div(span_x, target_span_x), fx_div(span_y, target_span_y)))
}

#[verifier::when_used_as_spec(spec_calculate_target_radius)]
pub fn calculate_target_radius(
    current_radius: i64,
    span_x: i64,
    span_y: i64,
    bounds: ScreenSpaceBounds,
    zoom_config: ZoomConfig,
) -> (r: i64)
    ensures
        r == spec_calculate_target_radius(current_radius, span_x, span_y, bounds, zoom_config),
{
    let target_span_x = fx_div(
        fx_add(bounds.half_tan_hfov, bounds.half_tan_hfov),
        zoom_config.zoom_margin_multiplier(),
    );
    let target_span_y = fx_div(
        fx_add(bounds.half_tan_vfov, bounds.half_tan_vfov),
        zoom_config.zoom_margin_multiplier(),
    );
    fx_mul(current_radius, fx_max(fx_div(span_x, target_span_x), fx_div(span_y, target_span_y)))
}

/// The camera after one step toward `target_focus` and `target_radius`:
/// [`FINE_RATE`] of the way where both differences are below
/// [`FINE_THRESHOLD`] of the radius, else `base_rate` of it.
pub open spec fn spec_stepped_toward(
    camera: OrbitCamera,
    target_focus: Vec3,
    target_radius: i64,
    base_rate: i64,
) -> OrbitCamera {
    let current_radius = camera.target_radius;
    let focus_delta = target_focus.minus(camera.target_focus);
    let radius_delta = fx_sub(target_radius, current_radius);
    let scale = fx_max(current_radius, MIN_VISIBLE_DEPTH);
    let rate = if fx_div(fx_abs(radius_delta), scale) < FINE_THRESHOLD && fx_div(
        focus_delta.length(),
        scale,
    ) < FINE_THRESHOLD {
        FINE_RATE
    } else {
        base_rate
    };
    OrbitCamera {
        target_focus: camera.target_focus.plus(focus_delta.scaled(rate)),
        target_radius: fx_add(current_radius, fx_mul(radius_delta, rate)),
        force_update: true,
        ..camera
    }
}

#[verifier::when_used_as_spec(spec_stepped_toward)]
pub fn stepped_toward(
    camera: OrbitCamera,
    target_focus: Vec3,
    target_radius: i64,
    base_rate: i64,
) -> (r: OrbitCamera)
    ensures
        r == spec_stepped_toward(camera, target_focus, target_radius, base_rate),
{
    let current_radius = camera.target_radius;
    let focus_delta = target_focus.minus(camera.target_focus);
    let radius_delta = fx_sub(target_radius, current_radius);
    let scale = fx_max(current_radius, MIN_VISIBLE_DEPTH);
    let rate = if fx_div(fx_abs(radius_delta), scale) < FINE_THRESHOLD && fx_div(
        focus_delta.length(),
        scale,
    ) < FINE_THRESHOLD {
        FINE_RATE
    } else {
        base_rate
    };
    let mut next = camera;
    next.target_focus = camera.target_focus.plus(focus_delta.scaled(rate));
    next.target_radius = fx_add(current_radius, fx_mul(radius_delta, rate));
    next.force_update = true;
    next
}

/// The aspect ratio a perspective projection is seen with: that of the
/// viewport where it is known, else the hint of the projection.
pub open spec fn perspective_aspect(projection: Projection, viewport: Option<Viewport>) -> Option<
    i64,
> {
    match projection {
        Projection::Perspective { aspect_ratio_hint, .. } => match viewport {
            Some(size) => Some(fx_div(size.width, size.height)),
            None => aspect_ratio_hint,
        },
        _ => None,
    }
}

/// One tick of a camera that is converging onto the box of `zoom_state`,
/// seen from `frame`. Returns whether the convergence is over.
///
/// - Without a perspective projection and an aspect ratio nothing happens.
/// - Where a corner is behind the camera, the camera looks at the center of
///   the corners from one and a half times as far, and the tick is counted.
/// - Else the camera steps toward the focus and radius at which the box
///   would fit. With margins balanced and fitted within the tolerance the
///   convergence is over; else the tick is counted, and the convergence is
///   over when the count has reached the maximum.
pub fn zoom_to_fit_convergence_system(
    camera: &mut OrbitCamera,
    zoom_state: &mut ZoomToFitComponent,
    frame: &CameraFrame,
    projection: &Projection,
    viewport: Option<Viewport>,
    zoom_config: &ZoomConfig,
) -> (done: bool)
    ensures
        final(zoom_state).target_corners == old(zoom_state).target_corners,
        match perspective_aspect(*projection, viewport) {
            None => !done && *final(camera) == *old(camera) && final(zoom_state).iteration_count
                == old(zoom_state).iteration_count,
            Some(aspect) => match ScreenSpaceBounds::spec_from_corners(
                old(zoom_state).target_corners@,
                *frame,
                projection->half_tan_vfov,
                aspect,
                zoom_config.zoom_margin_multiplier(),
            ) {
                None => {
                    &&& !done
                    &&& *final(camera) == (OrbitCamera {
                        target_focus: spec_corners_center(old(zoom_state).target_corners@),
                        target_radius: fx_mul(old(camera).target_radius, BACK_OFF),
                        force_update: true,
                        ..*old(camera)
                    })
                    &&& final(zoom_state).iteration_count == counted(
                        old(zoom_state).iteration_count,
                    )
                },
                Some(bounds) => {
                    &&& *final(camera) == stepped_toward(
                        *old(camera),
                        calculate_target_focus(
                            old(camera).target_focus,
                            old(camera).target_radius,
                            bounds,
                            *frame,
                        ),
                        calculate_target_radius(
                            old(camera).target_radius,
                            bounds.span().0,
                            bounds.span().1,
                            bounds,
                            *zoom_config,
                        ),
                        zoom_config.convergence_rate,
                    )
                    &&& if bounds.is_balanced(zoom_config.margin_tolerance) && bounds.is_fitted(
                        zoom_config.margin_tolerance,
                    ) {
                        done && final(zoom_state).iteration_count == old(
                            zoom_state,
                        ).iteration_count
                    } else {
                        &&& final(zoom_state).iteration_count == counted(
                            old(zoom_state).iteration_count,
                        )
                        &&& done == (final(zoom_state).iteration_count
                            >= zoom_config.max_iterations)
                    }
                },
            },
        },
{
    let (half_tan_vfov, aspect_ratio) = match projection {
        Projection::Perspective { half_tan_vfov, aspect_ratio_hint } => {
            let aspect = match viewport {
                Some(size) => Some(fx_div(size.width, size.height)),
                None => *aspect_ratio_hint,
            };
            match aspect {
                None => {
                    return false;
                },
                Some(aspect) => (*half_tan_vfov, aspect),
            }
        },
        _ => {
            return false;
        },
    };
    let bounds = match ScreenSpaceBounds::from_corners(
        &zoom_state.target_corners,
        frame,
        half_tan_vfov,
        aspect_ratio,
        zoom_config.zoom_margin_multiplier(),
    ) {
        None => {
            camera.target_focus = corners_center(&zoom_state.target_corners);
            camera.target_radius = fx_mul(camera.target_radius, BACK_OFF);
            camera.force_update = true;
            zoom_state.iteration_count = count(zoom_state.iteration_count);
            return false;
        },
        Some(bounds) => bounds,
    };
    let current_radius = camera.target_radius;
    let target_focus = calculate_target_focus(camera.target_focus, current_radius, bounds, *frame);
    let (span_x, span_y) = bounds.span();
    let target_radius = calculate_target_radius(current_radius, span_x, span_y, bounds, *zoom_config);
    *camera = stepped_toward(*camera, target_focus, target_radius, zoom_config.convergence_rate);
    if bounds.is_balanced(zoom_config.margin_tolerance) && bounds.is_fitted(
        zoom_config.margin_tolerance,
    ) {
        return true;
    }
    zoom_state.iteration_count = count(zoom_state.iteration_count);
    zoom_state.iteration_count >= zoom_config.max_iterations
}

/// One more than `n`, unless `n` is the largest count there is.
pub open spec fn counted(n: usize) -> usize {
    if n < usize::MAX {
        (n + 1) as usize
    } else {
        n
    }
}

#[verifier::when_used_as_spec(counted)]
pub fn count(n: usize) -> (r: usize)
    ensures
        r == counted(n),
{
    if n < usize::MAX {
        n + 1
    } else {
        n
    }
}

} // verus!
