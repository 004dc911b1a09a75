//! The framing engine: the camera radius and focus that fit a point set to a margin.

use vstd::prelude::*;
use crate::bounds::{
    extremes_of,
    lemma_extremes_of,
    lemma_target_margins_grow,
    projected,
    zoom_margin_multiplier,
    ScreenSpaceBounds,
};
use crate::fixed::{
    fx_abs,
    fx_max,
    fx_midpoint,
    fx_mul,
    fx_sub,
    lemma_fx_div_monotone,
    lemma_fx_mul_monotone_left,
    SCALE,
};
use crate::projection::{
    build_test_projection,
    ortho_fixed_distance,
    projection_aspect_ratio,
    CameraBasis,
    Projection,
    ProjectionParams,
    Viewport,
};
use crate::vec3::Vec3;

verus! {

/// Most radius candidates the search tries.
pub const MAX_ITERATIONS: usize = 200;

/// Width of the radius interval below which the search has converged (0.001).
pub const TOLERANCE: i64 = 1_000;

/// Most corrections of the focus at one candidate radius.
pub const CENTERING_MAX_ITERATIONS: usize = 10;

/// Offset of the projected center from the screen center that counts as centered (0.0001).
pub const CENTERING_TOLERANCE: i64 = 100;

/// Smallest object radius the search is sized by (0.001).
pub const MIN_OBJECT_RADIUS: i64 = 1_000;

/// Lower end of the search interval, as a fraction of the object radius (0.1).
pub const MIN_RADIUS_FACTOR: i64 = 100_000;

/// Upper end of the search interval, as a multiple of the object radius (100).
pub const MAX_RADIUS_FACTOR: i64 = 100_000_000;

/// Largest distance from `center` to one of the first `n` points; zero for none.
pub open spec fn max_distance(points: Seq<Vec3>, center: Vec3, n: int) -> i64
    decreases n,
{
    if n <= 0 {
        0
    } else {
        fx_max(max_distance(points, center, n - 1), points[n - 1].distance(center))
    }
}

/// `max_distance` is not negative, no point is farther away, and where it
/// is positive some point is exactly that far.
pub proof fn lemma_max_distance(points: Seq<Vec3>, center: Vec3, n: int)
    requires
        n <= points.len(),
    ensures
        max_distance(points, center, n) >= 0,
        forall|i: int|
            0 <= i < n ==> (#[trigger] points[i]).distance(center) <= max_distance(
                points,
                center,
                n,
            ),
        max_distance(points, center, n) > 0 ==> exists|i: int|
            0 <= i < n && (#[trigger] points[i]).distance(center) == max_distance(
                points,
                center,
                n,
            ),
    decreases n,
{
    if n > 0 {
        lemma_max_distance(points, center, n - 1);
        let prev = max_distance(points, center, n - 1);
        let last = points[n - 1].distance(center);
        if last > prev {
            assert(points[n - 1].distance(center) == max_distance(points, center, n));
        } else if prev > 0 {
            let i = choose|i: int|
                0 <= i < n - 1 && (#[trigger] points[i]).distance(center) == prev;
            assert(0 <= i < n && points[i].distance(center) == max_distance(points, center, n));
        }
    }
}

/// Radius of the smallest sphere round `center` that holds every point.
pub fn object_radius(points: &[Vec3], center: Vec3) -> (r: i64)
    ensures
        r == max_distance(points@, center, points@.len() as int),
        r >= 0,
        forall|i: int| 0 <= i < points@.len() ==> (#[trigger] points@[i]).distance(center) <= r,
{
    let mut best: i64 = 0;
    let mut i: usize = 0;
    while i < points.len()
        invariant
            i <= points.len(),
            best == max_distance(points@, center, i as int),
        decreases points.len() - i,
    {
        best = fx_max(best, points[i].distance(center));
        i += 1;
    }
    proof {
        lemma_max_distance(points@, center, points@.len() as int);
    }
    best
}

/// What one fit computation is given.
pub struct FitProblem {
    pub points: Seq<Vec3>,
    pub center: Vec3,
    pub basis: CameraBasis,
    pub projection: Projection,
    pub aspect: i64,
    pub zoom_multiplier: i64,
}

/// A radius that was evaluated, the focus that centers the points at it, and
/// how far its constraining margin is from the target.
#[derive(Clone, Copy, Debug, PartialEq, Eq, Structural)]
pub struct Candidate {
    pub radius: i64,
    pub focus: Vec3,
    pub error: i64,
}

/// The radius interval still searched and the best candidate seen.
#[derive(Clone, Copy, Debug, PartialEq, Eq, Structural)]
pub struct SearchState {
    pub min_radius: i64,
    pub max_radius: i64,
    pub best: Option<Candidate>,
}

impl FitProblem {
    /// The radius the search interval is sized by.
    pub open spec fn search_radius(self) -> i64 {
        fx_max(max_distance(self.points, self.center, self.points.len() as int), MIN_OBJECT_RADIUS)
    }

    /// Lower end of the search interval.
    pub open spec fn lowest_radius(self) -> i64 {
        fx_mul(self.search_radius(), MIN_RADIUS_FACTOR)
    }

    /// Upper end of the search interval.
    pub open spec fn highest_radius(self) -> i64 {
        fx_mul(self.search_radius(), MAX_RADIUS_FACTOR)
    }

    /// Distance from focus to camera at `radius`: the radius itself for
    /// perspective, the fixed distance for orthographic.
    pub open spec fn cam_distance(self, radius: i64) -> i64 {
        match ortho_fixed_distance(self.projection) {
            Some(d) => d,
            None => radius,
        }
    }

    /// Bounds of the points, seen at `radius` with the camera looking at `focus`.
    pub open spec fn bounds_at(self, radius: i64, focus: Vec3, zoom_multiplier: i64) -> Option<
        ScreenSpaceBounds,
    > {
        ScreenSpaceBounds::spec_from_points(
            self.points,
            self.basis.frame_at(focus, self.cam_distance(radius)),
            build_test_projection(self.projection, radius),
            self.aspect,
            zoom_multiplier,
        )
    }

    /// The focus after one centering correction, or `None` where `focus`
    /// stays: the points do not project, or their box is centered already.
    pub open spec fn centering_step(self, radius: i64, focus: Vec3) -> Option<Vec3> {
        match self.bounds_at(radius, focus, SCALE) {
            None => None,
            Some(b) => recentered(self.basis, focus, b),
        }
    }

    /// The focus after at most `k` centering corrections, starting at `focus`.
    pub open spec fn refine_focus(self, radius: i64, focus: Vec3, k: nat) -> Vec3
        decreases k,
    {
        if k == 0 {
            focus
        } else {
            match self.centering_step(radius, focus) {
                None => focus,
                Some(next) => self.refine_focus(radius, next, (k - 1) as nat),
            }
        }
    }

    /// How many centering corrections are made from `focus`, of at most `k`.
    pub open spec fn corrections(self, radius: i64, focus: Vec3, k: nat) -> nat
        decreases k,
    {
        if k == 0 {
            0
        } else {
            match self.centering_step(radius, focus) {
                None => 0,
                Some(next) => 1 + self.corrections(radius, next, (k - 1) as nat),
            }
        }
    }

    /// Whether the projected box of the points, seen at `radius` with the
    /// camera looking at `focus`, has its center within
    /// [`CENTERING_TOLERANCE`] of the screen center on both axes.
    pub open spec fn centered_at(self, radius: i64, focus: Vec3) -> bool {
        self.bounds_at(radius, focus, SCALE) matches Some(b) && fx_abs(b.center().0)
            < CENTERING_TOLERANCE && fx_abs(b.center().1) < CENTERING_TOLERANCE
    }

    /// Centering that needs fewer corrections than it may make ends at a
    /// focus that needs none: from there the points do not project, or
    /// their box is centered.
    pub proof fn lemma_centering_settles(self, radius: i64, focus: Vec3, k: nat)
        requires
            self.corrections(radius, focus, k) < k,
        ensures
            self.centering_step(radius, self.refine_focus(radius, focus, k)) is None,
        decreases k,
    {
        if k > 0 {
            match self.centering_step(radius, focus) {
                None => {},
                Some(next) => {
                    self.lemma_centering_settles(radius, next, (k - 1) as nat);
                },
            }
        }
    }

    /// The focus that centers the points at `radius`.
    pub open spec fn centered_focus(self, radius: i64) -> Vec3 {
        self.refine_focus(radius, self.center, CENTERING_MAX_ITERATIONS as nat)
    }

    /// Bounds of the points at `radius`, seen from the centered focus.
    pub open spec fn centered_bounds(self, radius: i64) -> Option<ScreenSpaceBounds> {
        self.bounds_at(radius, self.centered_focus(radius), self.zoom_multiplier)
    }

    /// The state of the search before its first candidate.
    pub open spec fn initial_state(self) -> SearchState {
        SearchState {
            min_radius: self.lowest_radius(),
            max_radius: self.highest_radius(),
            best: None,
        }
    }

    /// The state after the midpoint of the interval was tried.
    #[verifier::opaque]
    pub open spec fn search_step(self, s: SearchState) -> SearchState {
        let radius = fx_midpoint(s.min_radius, s.max_radius);
        match self.centered_bounds(radius) {
            None => SearchState { min_radius: radius, ..s },
            Some(b) => advance(s, radius, self.centered_focus(radius), b),
        }
    }

    /// Whether the search ends after the step from `s`: the midpoint was
    /// visible and the interval has become narrower than [`TOLERANCE`].
    #[verifier::opaque]
    pub open spec fn stops_after(self, s: SearchState) -> bool {
        let next = self.search_step(s);
        self.centered_bounds(fx_midpoint(s.min_radius, s.max_radius)) is Some && fx_sub(
            next.max_radius,
            next.min_radius,
        ) < TOLERANCE
    }

    /// The state in which the search from `s` ends, with at most `k` candidates left to try.
    pub open spec fn search(self, s: SearchState, k: nat) -> SearchState
        decreases k,
    {
        if k == 0 {
            s
        } else if self.stops_after(s) {
            self.search_step(s)
        } else {
            self.search(self.search_step(s), (k - 1) as nat)
        }
    }

    /// The radius and focus the search settles on, if any candidate was visible.
    pub open spec fn solution(self) -> Option<(i64, Vec3)> {
        chosen(self.search(self.initial_state(), MAX_ITERATIONS as nat))
    }

    /// Whether every point projects when the camera is placed at `radius`
    /// looking at `focus`.
    pub open spec fn visible_at(self, radius: i64, focus: Vec3) -> bool {
        self.bounds_at(radius, focus, self.zoom_multiplier) is Some
    }

    /// Whether `c` is what evaluating its radius gives: a radius of the
    /// search interval, the focus that centers the points at it, all points
    /// visible from there, and the margin error seen from there.
    pub open spec fn evaluated(self, c: Candidate) -> bool {
        &&& self.lowest_radius() <= c.radius <= self.highest_radius()
        &&& c.focus == self.centered_focus(c.radius)
        &&& self.centered_bounds(c.radius) matches Some(b) && c.error == b.margin_error()
    }

    /// Whether `s` can occur in a search: its interval lies within the
    /// search interval and its best candidate, if any, was evaluated.
    pub open spec fn reachable(self, s: SearchState) -> bool {
        &&& self.lowest_radius() <= s.min_radius <= s.max_radius <= self.highest_radius()
        &&& s.best matches Some(c) ==> self.evaluated(c)
    }

    /// The search interval is not empty, so the search can start.
    pub proof fn lemma_initial_reachable(self)
        ensures
            self.reachable(self.initial_state()),
    {
        let r = self.search_radius();
        assert(r >= MIN_OBJECT_RADIUS);
        assert(r * MIN_RADIUS_FACTOR == r * 100_000);
        assert(r * MAX_RADIUS_FACTOR == r * 100_000_000);
    }

    /// One step of the search keeps the state reachable.
    pub proof fn lemma_step_reachable(self, s: SearchState)
        requires
            self.reachable(s),
        ensures
            self.reachable(self.search_step(s)),
    {
        reveal(FitProblem::search_step);
    }

    /// Wherever the search ends, its state is reachable.
    pub proof fn lemma_search_reachable(self, s: SearchState, k: nat)
        requires
            self.reachable(s),
        ensures
            self.reachable(self.search(s, k)),
        decreases k,
    {
        if k > 0 {
            self.lemma_step_reachable(s);
            if !self.stops_after(s) {
                self.lemma_search_reachable(self.search_step(s), (k - 1) as nat);
            }
        }
    }

    /// Without a visible candidate a search that has no best candidate ends with none.
    pub proof fn lemma_search_without_points(self, s: SearchState, k: nat)
        requires
            self.points.len() == 0,
            s.best is None,
        ensures
            self.search(s, k).best is None,
        decreases k,
    {
        reveal(FitProblem::search_step);
        if k > 0 {
            if !self.stops_after(s) {
                self.lemma_search_without_points(self.search_step(s), (k - 1) as nat);
            }
        }
    }

    /// An empty point set has no solution.
    pub proof fn lemma_nothing_to_fit(self)
        requires
            self.points.len() == 0,
        ensures
            self.solution() is None,
    {
        self.lemma_search_without_points(self.initial_state(), MAX_ITERATIONS as nat);
    }

    /// What evaluating `radius` gives: the candidate with the focus centered
    /// at that radius and the margin error seen from there, or `None`
    /// where a point does not project.
    pub open spec fn candidate_at(self, radius: i64) -> Option<Candidate> {
        match self.centered_bounds(radius) {
            None => None,
            Some(b) => Some(
                Candidate { radius, focus: self.centered_focus(radius), error: b.margin_error() },
            ),
        }
    }

    /// Whether the search from `s`, with at most `k` candidates left to
    /// try, tries `radius`.
    pub open spec fn tries(self, s: SearchState, k: nat, radius: i64) -> bool
        decreases k,
    {
        k > 0 && (radius == fx_midpoint(s.min_radius, s.max_radius) || (!self.stops_after(s)
            && self.tries(self.search_step(s), (k - 1) as nat, radius)))
    }

    /// Whether `c` has the least error among the best candidate of `s` and
    /// the visible candidates that the search from `s` tries.
    pub open spec fn is_least(self, c: Candidate, s: SearchState, k: nat) -> bool {
        &&& s.best matches Some(b) ==> c.error <= b.error
        &&& forall|radius: i64|
            #![trigger self.tries(s, k, radius)]
            self.tries(s, k, radius) ==> (self.candidate_at(radius) matches Some(d) ==> c.error
                <= d.error)
    }

    /// The search ends with the best candidate seen: one it started with or
    /// one it tried, and none of those has a smaller error.
    pub proof fn lemma_best_is_least(self, s: SearchState, k: nat)
        ensures
            self.search(s, k).best matches Some(c) ==> {
                &&& s.best == Some(c) || (self.tries(s, k, c.radius) && self.candidate_at(c.radius)
                    == Some(c))
                &&& self.is_least(c, s, k)
            },
            self.search(s, k).best is None ==> s.best is None && forall|radius: i64|
                #![trigger self.tries(s, k, radius)]
                self.tries(s, k, radius) ==> self.candidate_at(radius) is None,
        decreases k,
    {
        reveal(FitProblem::search_step);
        if k > 0 {
            let next = self.search_step(s);
            let mid = fx_midpoint(s.min_radius, s.max_radius);
            if self.stops_after(s) {
                assert forall|radius: i64| #[trigger] self.tries(s, k, radius) implies radius
                    == mid by {}
            } else {
                self.lemma_best_is_least(next, (k - 1) as nat);
                assert forall|radius: i64| #[trigger] self.tries(s, k, radius) implies radius
                    == mid || self.tries(next, (k - 1) as nat, radius) by {}
                if self.search(s, k).best is None {
                    assert(self.tries(s, k, mid));
                }
            }
        }
    }

    /// One step of the search halves the interval.
    pub proof fn lemma_step_halves_interval(self, s: SearchState)
        requires
            s.min_radius <= s.max_radius,
        ensures
            s.min_radius <= self.search_step(s).min_radius <= self.search_step(s).max_radius
                <= s.max_radius,
            2 * (self.search_step(s).max_radius - self.search_step(s).min_radius) <= s.max_radius
                - s.min_radius + 1,
    {
        reveal(FitProblem::search_step);
    }

    /// A best candidate, once found, is never given up.
    pub proof fn lemma_best_is_kept(self, s: SearchState, k: nat)
        requires
            s.best is Some,
        ensures
            self.search(s, k).best is Some,
        decreases k,
    {
        reveal(FitProblem::search_step);
        if k > 0 {
            if !self.stops_after(s) {
                self.lemma_best_is_kept(self.search_step(s), (k - 1) as nat);
            }
        }
    }

    /// The first radius the search tries: the midpoint of the search interval.
    pub open spec fn first_radius(self) -> i64 {
        fx_midpoint(self.lowest_radius(), self.highest_radius())
    }

    /// Where every point is visible at the first radius tried, there is a solution.
    pub proof fn lemma_visible_start_gives_solution(self)
        requires
            self.centered_bounds(self.first_radius()) is Some,
        ensures
            self.solution() is Some,
    {
        reveal(FitProblem::search_step);
        let first = self.search_step(self.initial_state());
        assert(first.best is Some);
        if !self.stops_after(self.initial_state()) {
            self.lemma_best_is_kept(first, (MAX_ITERATIONS - 1) as nat);
        }
    }

    /// Whether the search tries `radius`.
    pub open spec fn tried(self, radius: i64) -> bool {
        self.tries(self.initial_state(), MAX_ITERATIONS as nat, radius)
    }

    /// Whether centering at `radius` made fewer corrections than it may.
    pub open spec fn centering_settled(self, radius: i64) -> bool {
        self.corrections(radius, self.center, CENTERING_MAX_ITERATIONS as nat)
            < CENTERING_MAX_ITERATIONS
    }

    /// Whether `radius` is a visible candidate that the search tries, and
    /// no visible candidate that it tries has a smaller margin error.
    pub open spec fn is_best_tried(self, radius: i64) -> bool {
        &&& self.tried(radius)
        &&& self.candidate_at(radius) matches Some(c)
        &&& forall|other: i64|
            #![trigger self.tried(other)]
            self.tried(other) ==> (self.candidate_at(other) matches Some(d) ==> c.error <= d.error)
    }

    /// A solution is a radius of the search interval with the focus that
    /// centers the points at it, and every point is visible from there.
    /// It is the best of the candidates tried; without a solution none of
    /// them was visible.
    pub proof fn lemma_solution_visible(self)
        ensures
            self.solution() matches Some((radius, focus)) ==> {
                &&& self.lowest_radius() <= radius <= self.highest_radius()
                &&& focus == self.centered_focus(radius)
                &&& self.visible_at(radius, focus)
                &&& self.is_best_tried(radius)
                &&& self.centering_settled(radius) ==> self.centered_at(radius, focus)
            },
            self.solution() is None ==> forall|radius: i64|
                #![trigger self.tried(radius)]
                self.tried(radius) ==> self.candidate_at(radius) is None,
    {
        self.lemma_initial_reachable();
        self.lemma_search_reachable(self.initial_state(), MAX_ITERATIONS as nat);
        self.lemma_best_is_least(self.initial_state(), MAX_ITERATIONS as nat);
        match self.solution() {
            None => {},
            Some((radius, focus)) => {
                if self.centering_settled(radius) {
                    self.lemma_centering_settles(
                        radius,
                        self.center,
                        CENTERING_MAX_ITERATIONS as nat,
                    );
                }
            },
        }
    }
}

/// The focus moved so that the box `b` comes to the screen center, or
/// `None` where the center of `b` is within [`CENTERING_TOLERANCE`] on both axes.
pub open spec fn spec_recentered(basis: CameraBasis, focus: Vec3, b: ScreenSpaceBounds) -> Option<
    Vec3,
> {
    let c = b.center();
    if fx_abs(c.0) < CENTERING_TOLERANCE && fx_abs(c.1) < CENTERING_TOLERANCE {
        None
    } else {
        Some(
            focus.plus(
                basis.right.scaled(fx_mul(c.0, b.centering_depth_x)).plus(
                    basis.up.scaled(fx_mul(c.1, b.centering_depth_y)),
                ),
            ),
        )
    }
}

#[verifier::when_used_as_spec(spec_recentered)]
pub fn recentered(basis: CameraBasis, focus: Vec3, b: ScreenSpaceBounds) -> (r: Option<Vec3>)
    ensures
        r == spec_recentered(basis, focus, b),
{
    let c = b.center();
    if fx_abs(c.0) < CENTERING_TOLERANCE && fx_abs(c.1) < CENTERING_TOLERANCE {
        None
    } else {
        Some(
            focus.plus(
                basis.right.scaled(fx_mul(c.0, b.centering_depth_x)).plus(
                    basis.up.scaled(fx_mul(c.1, b.centering_depth_y)),
                ),
            ),
        )
    }
}

/// The search state after a visible candidate: it replaces the best one
/// where its error is smaller, and it becomes the upper end of the interval
/// where its margin is above target, else the lower end.
pub open spec fn spec_advance(s: SearchState, radius: i64, focus: Vec3, b: ScreenSpaceBounds) -> SearchState {
    let error = b.margin_error();
    let best = match s.best {
        Some(c) if !(error < c.error) => Some(c),
        _ => Some(Candidate { radius, focus, error }),
    };
    if b.constraining_margins().0 > b.constraining_margins().1 {
        SearchState { min_radius: s.min_radius, max_radius: radius, best }
    } else {
        SearchState { min_radius: radius, max_radius: s.max_radius, best }
    }
}

#[verifier::when_used_as_spec(spec_advance)]
pub fn advance(s: SearchState, radius: i64, focus: Vec3, b: ScreenSpaceBounds) -> (r: SearchState)
    ensures
        r == spec_advance(s, radius, focus, b),
{
    let error = b.margin_error();
    let best = match s.best {
        Some(c) if !(error < c.error) => Some(c),
        _ => Some(Candidate { radius, focus, error }),
    };
    let (current, target) = b.constraining_margins();
    if current > target {
        SearchState { min_radius: s.min_radius, max_radius: radius, best }
    } else {
        SearchState { min_radius: radius, max_radius: s.max_radius, best }
    }
}

/// The fit problem that the arguments of [`calculate_fit`] pose at aspect ratio `aspect`.
pub open spec fn fit_problem(
    points: Seq<Vec3>,
    geometric_center: Vec3,
    basis: CameraBasis,
    margin: i64,
    projection: Projection,
    aspect: i64,
) -> FitProblem {
    FitProblem {
        points,
        center: geometric_center,
        basis,
        projection,
        aspect,
        zoom_multiplier: zoom_margin_multiplier(margin),
    }
}

pub open spec fn spec_calculate_fit(
    points: Seq<Vec3>,
    geometric_center: Vec3,
    basis: CameraBasis,
    margin: i64,
    projection: Projection,
    viewport: Option<Viewport>,
) -> Option<(i64, Vec3)> {
    match projection_aspect_ratio(projection, viewport) {
        None => None,
        Some(aspect) => fit_problem(
            points,
            geometric_center,
            basis,
            margin,
            projection,
            aspect,
        ).solution(),
    }
}

/// Moves `initial_focus` until the projected box of the points is centered
/// on screen at `radius`, in at most [`CENTERING_MAX_ITERATIONS`] corrections.
fn refine_focus_centering(
    points: &[Vec3],
    initial_focus: Vec3,
    radius: i64,
    basis: &CameraBasis,
    projection: &Projection,
    aspect_ratio: i64,
    Ghost(problem): Ghost<FitProblem>,
) -> (focus: Vec3)
    requires
        problem.points == points@,
        problem.basis == *basis,
        problem.projection == *projection,
        problem.aspect == aspect_ratio,
    ensures
        focus == problem.refine_focus(radius, initial_focus, CENTERING_MAX_ITERATIONS as nat),
{
    let test_projection = build_test_projection(*projection, radius);
    let cam_distance = match ortho_fixed_distance(*projection) {
        Some(d) => d,
        None => radius,
    };
    let mut focus = initial_focus;
    let mut i: usize = 0;
    while i < CENTERING_MAX_ITERATIONS
        invariant
            i <= CENTERING_MAX_ITERATIONS,
            problem.points == points@,
            problem.basis == *basis,
            problem.projection == *projection,
            problem.aspect == aspect_ratio,
            test_projection == build_test_projection(*projection, radius),
            cam_distance == problem.cam_distance(radius),
            problem.refine_focus(radius, initial_focus, CENTERING_MAX_ITERATIONS as nat)
                == problem.refine_focus(radius, focus, (CENTERING_MAX_ITERATIONS - i) as nat),
        decreases CENTERING_MAX_ITERATIONS - i,
    {
        let frame = basis.frame_at(focus, cam_distance);
        let next = match ScreenSpaceBounds::from_points(
            points,
            &frame,
            &test_projection,
            aspect_ratio,
            SCALE,
        ) {
            None => None,
            Some(b) => recentered(*basis, focus, b),
        };
        assert(next == problem.centering_step(radius, focus));
        match next {
            None => {
                return focus;
            },
            Some(moved) => {
                focus = moved;
            },
        }
        i += 1;
    }
    focus
}

/// The radius and focus of the best candidate of `s`.
pub open spec fn spec_chosen(s: SearchState) -> Option<(i64, Vec3)> {
    match s.best {
        None => None,
        Some(c) => Some((c.radius, c.focus)),
    }
}

#[verifier::when_used_as_spec(spec_chosen)]
pub fn chosen(s: SearchState) -> (r: Option<(i64, Vec3)>)
    ensures
        r == spec_chosen(s),
{
    match s.best {
        None => None,
        Some(c) => Some((c.radius, c.focus)),
    }
}

/// Evaluates the midpoint of the interval of `state`: the next state, and
/// whether the search ends with it.
fn try_midpoint(
    points: &[Vec3],
    geometric_center: Vec3,
    basis: &CameraBasis,
    projection: &Projection,
    aspect_ratio: i64,
    zoom_multiplier: i64,
    state: SearchState,
    Ghost(problem): Ghost<FitProblem>,
) -> (r: (SearchState, bool))
    requires
        problem.points == points@,
        problem.center == geometric_center,
        problem.basis == *basis,
        problem.projection == *projection,
        problem.aspect == aspect_ratio,
        problem.zoom_multiplier == zoom_multiplier,
    ensures
        r.0 == problem.search_step(state),
        r.1 == problem.stops_after(state),
{
    proof {
        reveal(FitProblem::search_step);
        reveal(FitProblem::stops_after);
    }
    let test_radius = fx_midpoint(state.min_radius, state.max_radius);
    let test_projection = build_test_projection(*projection, test_radius);
    let centered_focus = refine_focus_centering(
        points,
        geometric_center,
        test_radius,
        basis,
        projection,
        aspect_ratio,
        Ghost(problem),
    );
    let cam_distance = match ortho_fixed_distance(*projection) {
        Some(d) => d,
        None => test_radius,
    };
    let frame = basis.frame_at(centered_focus, cam_distance);
    match ScreenSpaceBounds::from_points(
        points,
        &frame,
        &test_projection,
        aspect_ratio,
        zoom_multiplier,
    ) {
        None => (
            SearchState {
                min_radius: test_radius,
                max_radius: state.max_radius,
                best: state.best,
            },
            false,
        ),
        Some(bounds) => {
            let next = advance(state, test_radius, centered_focus, bounds);
            (next, fx_sub(next.max_radius, next.min_radius) < TOLERANCE)
        },
    }
}

/// Runs the bisection of `problem` to its end.
fn run_search(
    points: &[Vec3],
    geometric_center: Vec3,
    basis: &CameraBasis,
    projection: &Projection,
    aspect_ratio: i64,
    zoom_multiplier: i64,
    Ghost(problem): Ghost<FitProblem>,
) -> (r: Option<(i64, Vec3)>)
    requires
        problem.points == points@,
        problem.center == geometric_center,
        problem.basis == *basis,
        problem.projection == *projection,
        problem.aspect == aspect_ratio,
        problem.zoom_multiplier == zoom_multiplier,
    ensures
        r == problem.solution(),
{
    let search_radius = fx_max(object_radius(points, geometric_center), MIN_OBJECT_RADIUS);
    let mut state = SearchState {
        min_radius: fx_mul(search_radius, MIN_RADIUS_FACTOR),
        max_radius: fx_mul(search_radius, MAX_RADIUS_FACTOR),
        best: None,
    };
    assert(state == problem.initial_state());
    let mut iteration: usize = 0;
    while iteration < MAX_ITERATIONS
        invariant
            iteration <= MAX_ITERATIONS,
            problem.points == points@,
            problem.center == geometric_center,
            problem.basis == *basis,
            problem.projection == *projection,
            problem.aspect == aspect_ratio,
            problem.zoom_multiplier == zoom_multiplier,
            problem.search(problem.initial_state(), MAX_ITERATIONS as nat) == problem.search(
                state,
                (MAX_ITERATIONS - iteration) as nat,
            ),
        decreases MAX_ITERATIONS - iteration,
    {
        let (next, stop) = try_midpoint(
            points,
            geometric_center,
            basis,
            projection,
            aspect_ratio,
            zoom_multiplier,
            state,
            Ghost(problem),
        );
        state = next;
        if stop {
            return chosen(state);
        }
        iteration += 1;
    }
    chosen(state)
}

/// The camera radius and focus that frame `points` with `margin`, seen
/// along `basis`.
///
/// The radius is searched by bisection between 0.1 and 100 times the object
/// radius (the largest distance from `geometric_center` to a point, at
/// least [`MIN_OBJECT_RADIUS`]). Each candidate is evaluated at the focus
/// that centers the points on screen; one at which a point does not project
/// counts as too small. The candidate whose constraining margin came
/// closest to its target is returned. The search ends when the interval is
/// narrower than [`TOLERANCE`] or after [`MAX_ITERATIONS`] candidates.
///
/// `None` where the projection has no aspect ratio (it is neither
/// perspective nor orthographic, or has no height), where there is no
/// point, or where no candidate was visible; a fit is found at the latest
/// where the first candidate is visible. A result lies within the search
/// interval, every point is visible from it, and no visible candidate that
/// was tried has a smaller margin error. Unless centering used up its
/// corrections, the projected box is centered on screen within
/// [`CENTERING_TOLERANCE`].
pub fn calculate_fit(
    points: &[Vec3],
    geometric_center: Vec3,
    basis: &CameraBasis,
    margin: i64,
    projection: &Projection,
    viewport: Option<Viewport>,
) -> (r: Option<(i64, Vec3)>)
    ensures
        r == spec_calculate_fit(points@, geometric_center, *basis, margin, *projection, viewport),
        projection_aspect_ratio(*projection, viewport) is None ==> r is None,
        points@.len() == 0 ==> r is None,
        projection_aspect_ratio(*projection, viewport) matches Some(aspect) ==> {
            let problem = fit_problem(
                points@,
                geometric_center,
                *basis,
                margin,
                *projection,
                aspect,
            );
            problem.centered_bounds(problem.first_radius()) is Some ==> r is Some
        },
        r matches Some((radius, focus)) ==> {
            let problem = fit_problem(
                points@,
                geometric_center,
                *basis,
                margin,
                *projection,
                projection_aspect_ratio(*projection, viewport).unwrap(),
            );
            &&& problem.lowest_radius() <= radius <= problem.highest_radius()
            &&& focus == problem.centered_focus(radius)
            &&& problem.visible_at(radius, focus)
            &&& problem.is_best_tried(radius)
            &&& problem.centering_settled(radius) ==> problem.centered_at(radius, focus)
        },
{
    let aspect_ratio = match projection_aspect_ratio(*projection, viewport) {
        None => {
            return None;
        },
        Some(aspect_ratio) => aspect_ratio,
    };
    let zoom_multiplier = zoom_margin_multiplier(margin);
    let ghost problem = fit_problem(
        points@,
        geometric_center,
        *basis,
        margin,
        *projection,
        aspect_ratio,
    );
    proof {
        problem.lemma_solution_visible();
        if points@.len() == 0 {
            problem.lemma_nothing_to_fit();
        }
        if problem.centered_bounds(problem.first_radius()) is Some {
            problem.lemma_visible_start_gives_solution();
        }
    }
    run_search(
        points,
        geometric_center,
        basis,
        projection,
        aspect_ratio,
        zoom_multiplier,
        Ghost(problem),
    )
}

/// The radius of [`calculate_fit`] alone.
pub fn calculate_fit_radius(
    points: &[Vec3],
    geometric_center: Vec3,
    basis: &CameraBasis,
    margin: i64,
    projection: &Projection,
    viewport: Option<Viewport>,
) -> (r: Option<i64>)
    ensures
        r == match spec_calculate_fit(
            points@,
            geometric_center,
            *basis,
            margin,
            *projection,
            viewport,
        ) {
            None => None,
            Some(fit) => Some(fit.0),
        },
{
    match calculate_fit(points, geometric_center, basis, margin, projection, viewport) {
        None => None,
        Some((radius, _)) => Some(radius),
    }
}

/// Whether the visible area of `projection` has no negative extent: a
/// field of view and aspect ratio that are not negative, or a visible area
/// that is not negative at a positive scale.
pub open spec fn shows_an_area(projection: Projection, aspect: i64) -> bool {
    match projection {
        Projection::Perspective { half_tan_vfov, .. } => half_tan_vfov >= 0 && aspect >= 0,
        Projection::Orthographic { width, height, scale, .. } => width >= 0 && height >= 0 && scale
            > 0,
        Projection::Custom => true,
    }
}

/// Whether `a` and `b` differ in nothing but the margin asked for.
pub open spec fn same_scene(a: FitProblem, b: FitProblem) -> bool {
    &&& a.points == b.points
    &&& a.center == b.center
    &&& a.basis == b.basis
    &&& a.projection == b.projection
    &&& a.aspect == b.aspect
}

/// Centering does not look at the margin.
pub proof fn lemma_centering_ignores_margin(
    a: FitProblem,
    b: FitProblem,
    radius: i64,
    focus: Vec3,
    k: nat,
)
    requires
        same_scene(a, b),
    ensures
        a.refine_focus(radius, focus, k) == b.refine_focus(radius, focus, k),
    decreases k,
{
    if k > 0 {
        assert(a.centering_step(radius, focus) == b.centering_step(radius, focus));
        match a.centering_step(radius, focus) {
            None => {},
            Some(next) => {
                lemma_centering_ignores_margin(a, b, radius, next, (k - 1) as nat);
            },
        }
    }
}

/// More margin never moves the search interval down.
///
/// From one state, the step of the search for the larger margin ends with
/// an interval whose ends are no lower than those of the step for the
/// smaller margin.
pub proof fn lemma_step_no_lower_with_more_margin(a: FitProblem, b: FitProblem, s: SearchState)
    requires
        same_scene(a, b),
        0 < a.zoom_multiplier <= b.zoom_multiplier,
        shows_an_area(a.projection, a.aspect),
        0 <= s.min_radius <= s.max_radius,
    ensures
        a.search_step(s).min_radius <= b.search_step(s).min_radius,
        a.search_step(s).max_radius <= b.search_step(s).max_radius,
{
    reveal(FitProblem::search_step);
    let radius = fx_midpoint(s.min_radius, s.max_radius);
    assert(s.min_radius <= radius <= s.max_radius);
    lemma_centering_ignores_margin(a, b, radius, a.center, CENTERING_MAX_ITERATIONS as nat);
    let focus = a.centered_focus(radius);
    assert(focus == b.centered_focus(radius));
    let test_projection = build_test_projection(a.projection, radius);
    match ProjectionParams::from_projection(test_projection, a.aspect) {
        None => {},
        Some(params) => {
            let frame = a.basis.frame_at(focus, a.cam_distance(radius));
            let ps = projected(a.points, frame, params.is_ortho);
            let n = a.points.len() as int;
            lemma_extremes_of(ps, n);
            match extremes_of(ps, n) {
                None => {},
                Some(e) => {
                    assert(ps[0] is Some);
                    assert(e.min_x <= e.max_x && e.min_y <= e.max_y);
                    assert(params.half_extent_x >= 0 && params.half_extent_y >= 0) by {
                        lemma_area_is_not_negative(a.projection, a.aspect, radius);
                    }
                    lemma_target_margins_grow(e, params, a.zoom_multiplier, b.zoom_multiplier);
                    let ba = ScreenSpaceBounds::assemble(e, params, a.zoom_multiplier);
                    let bb = ScreenSpaceBounds::assemble(e, params, b.zoom_multiplier);
                    assert(a.centered_bounds(radius) == Some(ba));
                    assert(b.centered_bounds(radius) == Some(bb));
                    assert(ba.constraining_margins().0 == bb.constraining_margins().0);
                    assert(ba.constraining_margins().1 <= bb.constraining_margins().1);
                },
            }
        },
    }
}

/// The half extents of a projection that shows an area, resized for a
/// radius that is not negative, are not negative.
pub proof fn lemma_area_is_not_negative(projection: Projection, aspect: i64, radius: i64)
    requires
        shows_an_area(projection, aspect),
        radius >= 0,
    ensures
        ProjectionParams::from_projection(build_test_projection(projection, radius), aspect)
            matches Some(params) ==> params.half_extent_x >= 0 && params.half_extent_y >= 0,
{
    match projection {
        Projection::Perspective { half_tan_vfov, .. } => {
            lemma_fx_mul_monotone_left(0, half_tan_vfov, aspect);
            assert(0 * aspect == 0);
        },
        Projection::Orthographic { width, height, scale, .. } => {
            let ratio = if fx_abs(scale) >= crate::projection::EPSILON {
                crate::fixed::fx_div(radius, scale)
            } else {
                SCALE
            };
            assert(ratio >= 0) by {
                lemma_fx_div_monotone(0, radius, scale);
                assert(0 * SCALE == 0);
            }
            lemma_fx_mul_monotone_left(0, width, ratio);
            lemma_fx_mul_monotone_left(0, height, ratio);
            assert(0 * ratio == 0);
        },
        Projection::Custom => {},
    }
}

} // verus!
