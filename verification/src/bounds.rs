//! Screen-space bounds of a projected point set.

use vstd::prelude::*;
use crate::fixed::{
    fx_abs,
    fx_add,
    fx_div,
    fx_midpoint,
    fx_min,
    fx_mul,
    fx_sub,
    lemma_fx_div_antitone,
    lemma_fx_div_monotone,
    lemma_fx_mul_monotone_left,
    SCALE,
};
use crate::projection::{project_point, CameraFrame, Projection, ProjectionParams};
use crate::vec3::Vec3;

verus! {

/// A screen edge.
#[derive(Clone, Copy, Debug, PartialEq, Eq, Structural)]
pub enum Edge {
    Left,
    Right,
    Top,
    Bottom,
}

pub open spec fn spec_zoom_margin_multiplier(margin: i64) -> i64 {
    fx_div(SCALE, fx_sub(SCALE, margin))
}

/// `1 / (1 - margin)`: a margin of 0.25 gives about 1.333.
#[verifier::when_used_as_spec(spec_zoom_margin_multiplier)]
pub fn zoom_margin_multiplier(margin: i64) -> (r: i64)
    ensures
        r == spec_zoom_margin_multiplier(margin),
{
    fx_div(SCALE, fx_sub(SCALE, margin))
}

/// `2 * d1 * d2 / (d1 + d2)`.
pub open spec fn spec_harmonic_mean(d1: i64, d2: i64) -> i64 {
    fx_div(fx_mul(fx_add(d1, d1), d2), fx_add(d1, d2))
}

#[verifier::when_used_as_spec(spec_harmonic_mean)]
pub fn harmonic_mean(d1: i64, d2: i64) -> (r: i64)
    ensures
        r == spec_harmonic_mean(d1, d2),
{
    fx_div(fx_mul(fx_add(d1, d1), d2), fx_add(d1, d2))
}

/// Extreme normalized coordinates of a projected point set, each with the
/// depth of the first point that reached it.
#[derive(Clone, Copy, Debug, PartialEq, Eq, Structural)]
pub struct Extremes {
    pub min_x: i64,
    pub max_x: i64,
    pub min_y: i64,
    pub max_y: i64,
    pub min_x_depth: i64,
    pub max_x_depth: i64,
    pub min_y_depth: i64,
    pub max_y_depth: i64,
}

impl Extremes {
    /// The extremes of a single projected point.
    pub open spec fn spec_start(p: (i64, i64, i64)) -> Extremes {
        Extremes {
            min_x: p.0,
            max_x: p.0,
            min_y: p.1,
            max_y: p.1,
            min_x_depth: p.2,
            max_x_depth: p.2,
            min_y_depth: p.2,
            max_y_depth: p.2,
        }
    }

    /// The extremes after one more projected point; a tie keeps the earlier point.
    pub open spec fn spec_with_point(self, p: (i64, i64, i64)) -> Extremes {
        Extremes {
            min_x: if p.0 < self.min_x { p.0 } else { self.min_x },
            min_x_depth: if p.0 < self.min_x { p.2 } else { self.min_x_depth },
            max_x: if p.0 > self.max_x { p.0 } else { self.max_x },
            max_x_depth: if p.0 > self.max_x { p.2 } else { self.max_x_depth },
            min_y: if p.1 < self.min_y { p.1 } else { self.min_y },
            min_y_depth: if p.1 < self.min_y { p.2 } else { self.min_y_depth },
            max_y: if p.1 > self.max_y { p.1 } else { self.max_y },
            max_y_depth: if p.1 > self.max_y { p.2 } else { self.max_y_depth },
        }
    }

    #[verifier::when_used_as_spec(spec_start)]
    pub fn start(p: (i64, i64, i64)) -> (e: Extremes)
        ensures
            e == Self::spec_start(p),
    {
        Extremes {
            min_x: p.0,
            max_x: p.0,
            min_y: p.1,
            max_y: p.1,
            min_x_depth: p.2,
            max_x_depth: p.2,
            min_y_depth: p.2,
            max_y_depth: p.2,
        }
    }

    #[verifier::when_used_as_spec(spec_with_point)]
    pub fn with_point(self, p: (i64, i64, i64)) -> (e: Extremes)
        ensures
            e == self.spec_with_point(p),
    {
        let mut e = self;
        if p.0 < self.min_x {
            e.min_x = p.0;
            e.min_x_depth = p.2;
        }
        if p.0 > self.max_x {
            e.max_x = p.0;
            e.max_x_depth = p.2;
        }
        if p.1 < self.min_y {
            e.min_y = p.1;
            e.min_y_depth = p.2;
        }
        if p.1 > self.max_y {
            e.max_y = p.1;
            e.max_y_depth = p.2;
        }
        e
    }
}

/// Projection of one point into the frame of a camera.
pub open spec fn project_into(point: Vec3, frame: CameraFrame, is_ortho: bool) -> Option<
    (i64, i64, i64),
> {
    project_point(point, frame.position, frame.right, frame.up, frame.forward, is_ortho)
}

/// Every point of `points` projected into `frame`, in order.
pub open spec fn projected(points: Seq<Vec3>, frame: CameraFrame, is_ortho: bool) -> Seq<
    Option<(i64, i64, i64)>,
> {
    Seq::new(points.len(), |i: int| project_into(points[i], frame, is_ortho))
}

/// Whether every one of the first `n` projections succeeded.
pub open spec fn all_visible(ps: Seq<Option<(i64, i64, i64)>>, n: int) -> bool {
    forall|i: int| 0 <= i < n ==> (#[trigger] ps[i]) is Some
}

/// Extremes of the first `n` projections, or `None` where one of them
/// failed or `n` is not positive.
pub open spec fn extremes_of(ps: Seq<Option<(i64, i64, i64)>>, n: int) -> Option<Extremes>
    decreases n,
{
    if n <= 0 {
        None
    } else {
        match ps[n - 1] {
            None => None,
            Some(p) => if n == 1 {
                Some(Extremes::start(p))
            } else {
                match extremes_of(ps, n - 1) {
                    None => None,
                    Some(e) => Some(e.with_point(p)),
                }
            },
        }
    }
}

/// Whether each of the first `n` projections lies within `e`.
pub open spec fn encloses(e: Extremes, ps: Seq<Option<(i64, i64, i64)>>, n: int) -> bool {
    forall|i: int|
        0 <= i < n ==> {
            let p = (#[trigger] ps[i])->0;
            e.min_x <= p.0 <= e.max_x && e.min_y <= p.1 <= e.max_y
        }
}

/// Whether one of the first `n` projections has `x` as its horizontal
/// coordinate and `depth` as its depth.
pub open spec fn reached_x(x: i64, depth: i64, ps: Seq<Option<(i64, i64, i64)>>, n: int) -> bool {
    exists|i: int|
        0 <= i < n && (#[trigger] ps[i]) is Some && ps[i].unwrap().0 == x && ps[i].unwrap().2
            == depth
}

/// Whether one of the first `n` projections has `y` as its vertical
/// coordinate and `depth` as its depth.
pub open spec fn reached_y(y: i64, depth: i64, ps: Seq<Option<(i64, i64, i64)>>, n: int) -> bool {
    exists|i: int|
        0 <= i < n && (#[trigger] ps[i]) is Some && ps[i].unwrap().1 == y && ps[i].unwrap().2
            == depth
}

/// Whether `e` is the tight frame of the first `n` projections: it encloses
/// each, and each of its four extremes, with its depth, is that of one of them.
pub open spec fn frames(e: Extremes, ps: Seq<Option<(i64, i64, i64)>>, n: int) -> bool {
    &&& encloses(e, ps, n)
    &&& reached_x(e.min_x, e.min_x_depth, ps, n)
    &&& reached_x(e.max_x, e.max_x_depth, ps, n)
    &&& reached_y(e.min_y, e.min_y_depth, ps, n)
    &&& reached_y(e.max_y, e.max_y_depth, ps, n)
}

proof fn lemma_reached_x_step(
    x0: i64,
    d0: i64,
    p: (i64, i64, i64),
    replace: bool,
    ps: Seq<Option<(i64, i64, i64)>>,
    n: int,
)
    requires
        1 < n <= ps.len(),
        ps[n - 1] == Some(p),
        reached_x(x0, d0, ps, n - 1),
    ensures
        reached_x(if replace { p.0 } else { x0 }, if replace { p.2 } else { d0 }, ps, n),
{
    if replace {
        assert(ps[n - 1] is Some);
    } else {
        let i = choose|i: int|
            0 <= i < n - 1 && (#[trigger] ps[i]) is Some && ps[i].unwrap().0 == x0
                && ps[i].unwrap().2 == d0;
        assert(0 <= i < n && ps[i] is Some);
    }
}

proof fn lemma_reached_y_step(
    y0: i64,
    d0: i64,
    p: (i64, i64, i64),
    replace: bool,
    ps: Seq<Option<(i64, i64, i64)>>,
    n: int,
)
    requires
        1 < n <= ps.len(),
        ps[n - 1] == Some(p),
        reached_y(y0, d0, ps, n - 1),
    ensures
        reached_y(if replace { p.1 } else { y0 }, if replace { p.2 } else { d0 }, ps, n),
{
    if replace {
        assert(ps[n - 1] is Some);
    } else {
        let i = choose|i: int|
            0 <= i < n - 1 && (#[trigger] ps[i]) is Some && ps[i].unwrap().1 == y0
                && ps[i].unwrap().2 == d0;
        assert(0 <= i < n && ps[i] is Some);
    }
}

/// The extremes exist exactly when there is a projection and none failed;
/// they are then the tight frame of the projections.
pub proof fn lemma_extremes_of(ps: Seq<Option<(i64, i64, i64)>>, n: int)
    requires
        n <= ps.len(),
    ensures
        extremes_of(ps, n) is Some <==> n > 0 && all_visible(ps, n),
        extremes_of(ps, n) matches Some(e) ==> frames(e, ps, n),
    decreases n,
{
    if n <= 0 {
    } else if n == 1 {
        match ps[0] {
            None => {},
            Some(p) => {
                assert(ps[0] is Some);
            },
        }
    } else {
        lemma_extremes_of(ps, n - 1);
        match ps[n - 1] {
            None => {},
            Some(p) => {
                match extremes_of(ps, n - 1) {
                    None => {},
                    Some(e0) => {
                        let e = e0.with_point(p);
                        assert(all_visible(ps, n));
                        assert(encloses(e, ps, n));
                        lemma_reached_x_step(e0.min_x, e0.min_x_depth, p, p.0 < e0.min_x, ps, n);
                        lemma_reached_x_step(e0.max_x, e0.max_x_depth, p, p.0 > e0.max_x, ps, n);
                        lemma_reached_y_step(e0.min_y, e0.min_y_depth, p, p.1 < e0.min_y, ps, n);
                        lemma_reached_y_step(e0.max_y, e0.max_y_depth, p, p.1 > e0.max_y, ps, n);
                    },
                }
            },
        }
    }
}

/// The projected bounding box of a point set, with its margins to the screen edges.
#[derive(Clone, Copy, Debug, PartialEq, Eq, Structural)]
pub struct ScreenSpaceBounds {
    /// Distance from the left edge (positive inside, negative outside).
    pub left_margin: i64,
    /// Distance from the right edge (positive inside, negative outside).
    pub right_margin: i64,
    /// Distance from the top edge (positive inside, negative outside).
    pub top_margin: i64,
    /// Distance from the bottom edge (positive inside, negative outside).
    pub bottom_margin: i64,
    /// Horizontal margin aimed at.
    pub target_margin_x: i64,
    /// Vertical margin aimed at.
    pub target_margin_y: i64,
    pub min_norm_x: i64,
    pub max_norm_x: i64,
    pub min_norm_y: i64,
    pub max_norm_y: i64,
    /// Harmonic mean of the depths of the two horizontal extremes (one for orthographic).
    pub centering_depth_x: i64,
    /// Harmonic mean of the depths of the two vertical extremes (one for orthographic).
    pub centering_depth_y: i64,
    pub half_extent_x: i64,
    pub half_extent_y: i64,
}

impl ScreenSpaceBounds {
    /// Whether the box is wider, relative to its height, than the screen:
    /// the margin then binds on the horizontal axis.
    pub open spec fn width_constrains(e: Extremes, params: ProjectionParams) -> bool {
        fx_div(fx_sub(e.max_x, e.min_x), fx_sub(e.max_y, e.min_y)) > fx_div(
            params.half_extent_x,
            params.half_extent_y,
        )
    }

    /// Half extent aimed at on the horizontal axis.
    pub open spec fn target_edge_x(e: Extremes, params: ProjectionParams, zoom_multiplier: i64) -> i64 {
        let boundary_aspect = fx_div(fx_sub(e.max_x, e.min_x), fx_sub(e.max_y, e.min_y));
        if Self::width_constrains(e, params) {
            fx_div(params.half_extent_x, zoom_multiplier)
        } else {
            fx_mul(fx_div(params.half_extent_y, zoom_multiplier), boundary_aspect)
        }
    }

    /// Half extent aimed at on the vertical axis.
    pub open spec fn target_edge_y(e: Extremes, params: ProjectionParams, zoom_multiplier: i64) -> i64 {
        let boundary_aspect = fx_div(fx_sub(e.max_x, e.min_x), fx_sub(e.max_y, e.min_y));
        if Self::width_constrains(e, params) {
            fx_div(fx_div(params.half_extent_x, zoom_multiplier), boundary_aspect)
        } else {
            fx_div(params.half_extent_y, zoom_multiplier)
        }
    }

    /// The bounds that the extremes `e` give on a screen of half extents `params`.
    pub open spec fn spec_assemble(e: Extremes, params: ProjectionParams, zoom_multiplier: i64) -> Self {
        ScreenSpaceBounds {
            left_margin: fx_add(e.min_x, params.half_extent_x),
            right_margin: fx_sub(params.half_extent_x, e.max_x),
            top_margin: fx_sub(params.half_extent_y, e.max_y),
            bottom_margin: fx_add(e.min_y, params.half_extent_y),
            target_margin_x: fx_sub(
                params.half_extent_x,
                Self::target_edge_x(e, params, zoom_multiplier),
            ),
            target_margin_y: fx_sub(
                params.half_extent_y,
                Self::target_edge_y(e, params, zoom_multiplier),
            ),
            min_norm_x: e.min_x,
            max_norm_x: e.max_x,
            min_norm_y: e.min_y,
            max_norm_y: e.max_y,
            centering_depth_x: if params.is_ortho {
                SCALE
            } else {
                harmonic_mean(e.min_x_depth, e.max_x_depth)
            },
            centering_depth_y: if params.is_ortho {
                SCALE
            } else {
                harmonic_mean(e.min_y_depth, e.max_y_depth)
            },
            half_extent_x: params.half_extent_x,
            half_extent_y: params.half_extent_y,
        }
    }

    #[verifier::when_used_as_spec(spec_assemble)]
    pub fn assemble(e: Extremes, params: ProjectionParams, zoom_multiplier: i64) -> (b: Self)
        ensures
            b == Self::spec_assemble(e, params, zoom_multiplier),
    {
        let centering_depth_x = if params.is_ortho {
            SCALE
        } else {
            harmonic_mean(e.min_x_depth, e.max_x_depth)
        };
        let centering_depth_y = if params.is_ortho {
            SCALE
        } else {
            harmonic_mean(e.min_y_depth, e.max_y_depth)
        };
        let boundary_aspect = fx_div(fx_sub(e.max_x, e.min_x), fx_sub(e.max_y, e.min_y));
        let screen_aspect = fx_div(params.half_extent_x, params.half_extent_y);
        let target_edge_x: i64;
        let target_edge_y: i64;
        if boundary_aspect > screen_aspect {
            target_edge_x = fx_div(params.half_extent_x, zoom_multiplier);
            target_edge_y = fx_div(target_edge_x, boundary_aspect);
        } else {
            target_edge_y = fx_div(params.half_extent_y, zoom_multiplier);
            target_edge_x = fx_mul(target_edge_y, boundary_aspect);
        }
        ScreenSpaceBounds {
            left_margin: fx_add(e.min_x, params.half_extent_x),
            right_margin: fx_sub(params.half_extent_x, e.max_x),
            top_margin: fx_sub(params.half_extent_y, e.max_y),
            bottom_margin: fx_add(e.min_y, params.half_extent_y),
            target_margin_x: fx_sub(params.half_extent_x, target_edge_x),
            target_margin_y: fx_sub(params.half_extent_y, target_edge_y),
            min_norm_x: e.min_x,
            max_norm_x: e.max_x,
            min_norm_y: e.min_y,
            max_norm_y: e.max_y,
            centering_depth_x,
            centering_depth_y,
            half_extent_x: params.half_extent_x,
            half_extent_y: params.half_extent_y,
        }
    }

    pub open spec fn spec_from_points(
        points: Seq<Vec3>,
        frame: CameraFrame,
        projection: Projection,
        viewport_aspect: i64,
        zoom_multiplier: i64,
    ) -> Option<Self> {
        match ProjectionParams::from_projection(projection, viewport_aspect) {
            None => None,
            Some(params) => match extremes_of(
                projected(points, frame, params.is_ortho),
                points.len() as int,
            ) {
                None => None,
                Some(e) => Some(Self::assemble(e, params, zoom_multiplier)),
            },
        }
    }

    /// The screen-space bounds of `points` seen from `frame`.
    ///
    /// `None` where the projection is neither perspective nor orthographic,
    /// where there is no point, or where a point does not project (behind a
    /// perspective camera). Otherwise the box is the tight frame of the
    /// projected points.
    pub fn from_points(
        points: &[Vec3],
        frame: &CameraFrame,
        projection: &Projection,
        viewport_aspect: i64,
        zoom_multiplier: i64,
    ) -> (r: Option<Self>)
        ensures
            r == Self::spec_from_points(
                points@,
                *frame,
                *projection,
                viewport_aspect,
                zoom_multiplier,
            ),
            r is Some <==> *projection !is Custom && points@.len() > 0 && all_visible(
                projected(points@, *frame, *projection is Orthographic),
                points@.len() as int,
            ),
            r matches Some(b) ==> frames(
                extremes_of(
                    projected(points@, *frame, *projection is Orthographic),
                    points@.len() as int,
                ).unwrap(),
                projected(points@, *frame, *projection is Orthographic),
                points@.len() as int,
            ),
    {
        let params = match ProjectionParams::from_projection(*projection, viewport_aspect) {
            None => {
                return None;
            },
            Some(params) => params,
        };
        let ghost ps = projected(points@, *frame, params.is_ortho);
        proof {
            lemma_extremes_of(ps, points@.len() as int);
        }
        if points.len() == 0 {
            return None;
        }
        let first = match project_point(
            points[0],
            frame.position,
            frame.right,
            frame.up,
            frame.forward,
            params.is_ortho,
        ) {
            None => {
                assert(ps[0] is None);
                return None;
            },
            Some(p) => p,
        };
        let mut e = Extremes::start(first);
        let mut i: usize = 1;
        assert(ps[0] == Some(first));
        while i < points.len()
            invariant
                1 <= i <= points.len(),
                ps == projected(points@, *frame, params.is_ortho),
                ProjectionParams::from_projection(*projection, viewport_aspect) == Some(params),
                extremes_of(ps, i as int) == Some(e),
                extremes_of(ps, points@.len() as int) is Some <==> all_visible(
                    ps,
                    points@.len() as int,
                ),
            decreases points.len() - i,
        {
            match project_point(
                points[i],
                frame.position,
                frame.right,
                frame.up,
                frame.forward,
                params.is_ortho,
            ) {
                None => {
                    assert(ps[i as int] is None);
                    assert(!all_visible(ps, points@.len() as int));
                    return None;
                },
                Some(p) => {
                    assert(ps[i as int] == Some(p));
                    e = e.with_point(p);
                },
            }
            i += 1;
        }
        Some(Self::assemble(e, params, zoom_multiplier))
    }

    pub open spec fn spec_is_balanced(&self, tolerance: i64) -> bool {
        fx_abs(fx_sub(self.left_margin, self.right_margin)) < tolerance && fx_abs(
            fx_sub(self.top_margin, self.bottom_margin),
        ) < tolerance
    }

    /// Whether opposite margins differ by less than `tolerance` on both axes.
    #[verifier::when_used_as_spec(spec_is_balanced)]
    pub fn is_balanced(&self, tolerance: i64) -> (r: bool)
        ensures
            r == self.spec_is_balanced(tolerance),
    {
        fx_abs(fx_sub(self.left_margin, self.right_margin)) < tolerance && fx_abs(
            fx_sub(self.top_margin, self.bottom_margin),
        ) < tolerance
    }

    /// The tighter horizontal margin.
    pub open spec fn h_min(&self) -> i64 {
        fx_min(self.left_margin, self.right_margin)
    }

    /// The tighter vertical margin.
    pub open spec fn v_min(&self) -> i64 {
        fx_min(self.top_margin, self.bottom_margin)
    }

    /// Current and target margin of the constraining axis: the axis with the
    /// smaller of the two tighter margins, the vertical one on a tie.
    pub open spec fn spec_constraining_margins(&self) -> (i64, i64) {
        if self.h_min() < self.v_min() {
            (self.h_min(), self.target_margin_x)
        } else {
            (self.v_min(), self.target_margin_y)
        }
    }

    #[verifier::when_used_as_spec(spec_constraining_margins)]
    pub fn constraining_margins(&self) -> (r: (i64, i64))
        ensures
            r == self.spec_constraining_margins(),
    {
        let h_min = fx_min(self.left_margin, self.right_margin);
        let v_min = fx_min(self.top_margin, self.bottom_margin);
        if h_min < v_min {
            (h_min, self.target_margin_x)
        } else {
            (v_min, self.target_margin_y)
        }
    }

    /// Distance of the constraining margin from its target.
    pub open spec fn spec_margin_error(&self) -> i64 {
        fx_abs(fx_sub(self.constraining_margins().0, self.constraining_margins().1))
    }

    #[verifier::when_used_as_spec(spec_margin_error)]
    pub fn margin_error(&self) -> (r: i64)
        ensures
            r == self.spec_margin_error(),
            r >= 0,
    {
        let (current, target) = self.constraining_margins();
        fx_abs(fx_sub(current, target))
    }

    pub open spec fn spec_is_fitted(&self, at_target_tolerance: i64) -> bool {
        self.margin_error() < at_target_tolerance
    }

    /// Whether the constraining margin is within `at_target_tolerance` of its target.
    #[verifier::when_used_as_spec(spec_is_fitted)]
    pub fn is_fitted(&self, at_target_tolerance: i64) -> (r: bool)
        ensures
            r == self.spec_is_fitted(at_target_tolerance),
    {
        self.margin_error() < at_target_tolerance
    }

    pub open spec fn spec_center(&self) -> (i64, i64) {
        (
            fx_midpoint(self.min_norm_x, self.max_norm_x),
            fx_midpoint(self.min_norm_y, self.max_norm_y),
        )
    }

    /// Center of the box in normalized screen space.
    #[verifier::when_used_as_spec(spec_center)]
    pub fn center(&self) -> (r: (i64, i64))
        ensures
            r == self.spec_center(),
    {
        (
            fx_midpoint(self.min_norm_x, self.max_norm_x),
            fx_midpoint(self.min_norm_y, self.max_norm_y),
        )
    }

    pub open spec fn spec_span(&self) -> (i64, i64) {
        (fx_sub(self.max_norm_x, self.min_norm_x), fx_sub(self.max_norm_y, self.min_norm_y))
    }

    /// Width and height of the box in normalized screen space.
    #[verifier::when_used_as_spec(spec_span)]
    pub fn span(&self) -> (r: (i64, i64))
        ensures
            r == self.spec_span(),
    {
        (fx_sub(self.max_norm_x, self.min_norm_x), fx_sub(self.max_norm_y, self.min_norm_y))
    }

    pub open spec fn spec_margin(&self, edge: Edge) -> i64 {
        match edge {
            Edge::Left => self.left_margin,
            Edge::Right => self.right_margin,
            Edge::Top => self.top_margin,
            Edge::Bottom => self.bottom_margin,
        }
    }

    /// The margin to one screen edge.
    #[verifier::when_used_as_spec(spec_margin)]
    pub fn margin(&self, edge: Edge) -> (r: i64)
        ensures
            r == self.spec_margin(edge),
    {
        match edge {
            Edge::Left => self.left_margin,
            Edge::Right => self.right_margin,
            Edge::Top => self.top_margin,
            Edge::Bottom => self.bottom_margin,
        }
    }
}

/// More margin means a larger multiplier: for margins from zero up to,
/// not including, one, the multiplier is at least one and grows with the margin.
pub proof fn lemma_margin_multiplier_grows(m1: i64, m2: i64)
    requires
        0 <= m1 <= m2 < SCALE,
    ensures
        SCALE <= zoom_margin_multiplier(m1) <= zoom_margin_multiplier(m2),
{
    lemma_fx_div_antitone(SCALE, fx_sub(SCALE, m2), fx_sub(SCALE, m1));
    lemma_fx_div_antitone(SCALE, fx_sub(SCALE, m1), SCALE);
    assert(fx_div(SCALE, SCALE) == SCALE);
}

/// More margin means larger target margins: for one projected box on one
/// screen, both target margins grow with the multiplier.
pub proof fn lemma_target_margins_grow(e: Extremes, params: ProjectionParams, z1: i64, z2: i64)
    requires
        e.min_x <= e.max_x,
        e.min_y <= e.max_y,
        0 <= params.half_extent_x,
        0 <= params.half_extent_y,
        0 < z1 <= z2,
    ensures
        ScreenSpaceBounds::assemble(e, params, z1).target_margin_x <= ScreenSpaceBounds::assemble(
            e,
            params,
            z2,
        ).target_margin_x,
        ScreenSpaceBounds::assemble(e, params, z1).target_margin_y <= ScreenSpaceBounds::assemble(
            e,
            params,
            z2,
        ).target_margin_y,
{
    let aspect = fx_div(fx_sub(e.max_x, e.min_x), fx_sub(e.max_y, e.min_y));
    assert(aspect >= 0) by {
        lemma_fx_div_monotone(0, fx_sub(e.max_x, e.min_x), fx_sub(e.max_y, e.min_y));
        assert(0 * SCALE == 0);
    }
    lemma_fx_div_antitone(params.half_extent_x, z1, z2);
    lemma_fx_div_antitone(params.half_extent_y, z1, z2);
    if ScreenSpaceBounds::width_constrains(e, params) {
        lemma_fx_div_monotone(
            fx_div(params.half_extent_x, z2),
            fx_div(params.half_extent_x, z1),
            aspect,
        );
    } else {
        lemma_fx_mul_monotone_left(
            fx_div(params.half_extent_y, z2),
            fx_div(params.half_extent_y, z1),
            aspect,
        );
    }
}

} // verus!
