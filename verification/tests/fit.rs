use panorbit_camera_ext::bounds::{zoom_margin_multiplier, ScreenSpaceBounds};
use panorbit_camera_ext::fit::{calculate_fit, calculate_fit_radius, object_radius};
use panorbit_camera_ext::projection::{
    build_test_projection, ortho_fixed_distance, CameraBasis, Projection, Viewport,
};
use panorbit_camera_ext::vec3::Vec3;

fn fx(v: f64) -> i64 {
    (v * 1_000_000.0).round() as i64
}

fn units(v: i64) -> f64 {
    v as f64 / 1_000_000.0
}

fn v3(x: f64, y: f64, z: f64) -> Vec3 {
    Vec3::new(fx(x), fx(y), fx(z))
}

fn cube(half: f64) -> Vec<Vec3> {
    let mut corners = Vec::new();
    for &x in &[-half, half] {
        for &y in &[-half, half] {
            for &z in &[-half, half] {
                corners.push(v3(x, y, z));
            }
        }
    }
    corners
}

/// Camera basis for yaw round the world up axis, then pitch round the
/// camera's own right axis.
fn basis(yaw: f64, pitch: f64) -> CameraBasis {
    let (sy, cy) = yaw.sin_cos();
    let (sp, cp) = pitch.sin_cos();
    CameraBasis {
        right: v3(cy, 0.0, -sy),
        up: v3(-sy * sp, cp, -cy * sp),
        forward: v3(-sy * cp, -sp, -cy * cp),
    }
}

fn perspective() -> Projection {
    Projection::Perspective {
        half_tan_vfov: fx((std::f64::consts::FRAC_PI_4 / 2.0).tan()),
        aspect_ratio_hint: Some(fx(1.0)),
    }
}

fn orthographic() -> Projection {
    Projection::Orthographic {
        width: fx(1.6),
        height: fx(0.9),
        scale: fx(1.0),
        near: fx(0.0),
        far: fx(1000.0),
    }
}

fn wide() -> Option<Viewport> {
    Some(Viewport { width: fx(1280.0), height: fx(720.0) })
}

fn bounds_at(
    points: &[Vec3],
    b: &CameraBasis,
    projection: &Projection,
    viewport: Option<Viewport>,
    margin: i64,
    radius: i64,
    focus: Vec3,
) -> ScreenSpaceBounds {
    let aspect = panorbit_camera_ext::projection::projection_aspect_ratio(*projection, viewport)
        .unwrap();
    let distance = ortho_fixed_distance(*projection).unwrap_or(radius);
    let frame = b.frame_at(focus, distance);
    let test_projection = build_test_projection(*projection, radius);
    ScreenSpaceBounds::from_points(
        points,
        &frame,
        &test_projection,
        aspect,
        zoom_margin_multiplier(margin),
    )
    .unwrap()
}

#[test]
fn object_radius_of_unit_cube() {
    let points = cube(0.5);
    let r = object_radius(&points, Vec3::zero());
    assert_eq!(r, 866_025);
    assert_eq!(object_radius(&[], Vec3::zero()), 0);
}

#[test]
fn perspective_fit_head_on_touches_the_screen_edge() {
    let points = cube(0.5);
    let b = basis(0.0, 0.0);
    let (radius, focus) =
        calculate_fit(&points, Vec3::zero(), &b, 0, &perspective(), wide()).unwrap();
    // The near face (half height 0.5) has to reach tan(22.5 deg) at depth radius - 0.5.
    let expected = 0.5 + 0.5 / (std::f64::consts::FRAC_PI_4 / 2.0).tan();
    assert!((units(radius) - expected).abs() < 2e-3, "radius {}", units(radius));
    assert!(units(focus.x).abs() < 1e-3 && units(focus.y).abs() < 1e-3);
    let bounds = bounds_at(&points, &b, &perspective(), wide(), 0, radius, focus);
    assert!(units(bounds.top_margin).abs() < 1e-3, "top {}", units(bounds.top_margin));
    assert!(units(bounds.bottom_margin).abs() < 1e-3);
    assert!(bounds.left_margin > 0 && bounds.right_margin > 0);
}

#[test]
fn orthographic_fit_head_on_touches_the_screen_edge() {
    let points = cube(0.5);
    let b = basis(0.0, 0.0);
    let (radius, focus) =
        calculate_fit(&points, Vec3::zero(), &b, 0, &orthographic(), None).unwrap();
    // Half the visible height is 0.45 * radius and has to be 0.5.
    assert!((units(radius) - 0.5 / 0.45).abs() < 2e-3, "radius {}", units(radius));
    assert!(units(focus.x).abs() < 1e-3 && units(focus.y).abs() < 1e-3);
    let bounds = bounds_at(&points, &b, &orthographic(), None, 0, radius, focus);
    assert!(units(bounds.top_margin).abs() < 1e-3, "top {}", units(bounds.top_margin));
    assert!(units(bounds.bottom_margin).abs() < 1e-3);
}

#[test]
fn fit_is_a_fixed_point() {
    let points = cube(0.5);
    let b = basis(0.7, 0.4);
    let first = calculate_fit(&points, Vec3::zero(), &b, fx(0.1), &perspective(), wide()).unwrap();
    let again = calculate_fit(&points, Vec3::zero(), &b, fx(0.1), &perspective(), wide()).unwrap();
    assert_eq!(first, again);
}

#[test]
fn more_margin_does_not_bring_the_camera_nearer() {
    let points = cube(0.5);
    let b = basis(0.3, 0.2);
    let mut last = 0;
    for margin in [0.0, 0.05, 0.1, 0.25, 0.5] {
        let radius =
            calculate_fit_radius(&points, Vec3::zero(), &b, fx(margin), &perspective(), wide())
                .unwrap();
        assert!(radius >= last, "margin {} radius {}", margin, units(radius));
        last = radius;
    }
}

#[test]
fn margin_of_a_quarter_leaves_an_eighth_each_side() {
    let points = cube(0.5);
    let b = basis(0.0, 0.0);
    let (radius, focus) =
        calculate_fit(&points, Vec3::zero(), &b, fx(0.25), &perspective(), wide()).unwrap();
    let bounds = bounds_at(&points, &b, &perspective(), wide(), fx(0.25), radius, focus);
    // The box takes 75% of the constraining (vertical) axis.
    let share = units(bounds.span().1) / (2.0 * units(bounds.half_extent_y));
    assert!((share - 0.75).abs() < 2e-3, "share {}", share);
}

#[test]
fn off_axis_fit_is_centered() {
    let points = cube(0.5);
    let b = basis(0.9, 0.5);
    let center = v3(3.0, -2.0, 1.0);
    let shifted: Vec<Vec3> = points.iter().map(|p| p.plus(center)).collect();
    let (radius, focus) =
        calculate_fit(&shifted, center, &b, fx(0.1), &perspective(), wide()).unwrap();
    let bounds = bounds_at(&shifted, &b, &perspective(), wide(), fx(0.1), radius, focus);
    let (cx, cy) = bounds.center();
    assert!(units(cx).abs() < 1e-3 && units(cy).abs() < 1e-3);
    assert!(bounds.is_balanced(fx(2e-3)));
    assert!(bounds.is_fitted(fx(2e-3)));
}

#[test]
fn camera_inside_the_cube_is_handled() {
    // Radius 0.05 would put the camera inside the cube: such candidates count
    // as too small and the search goes on above them.
    let points = cube(0.5);
    let b = basis(0.0, 0.0);
    let inside = b.frame_at(Vec3::zero(), fx(0.05));
    assert!(ScreenSpaceBounds::from_points(&points, &inside, &perspective(), fx(1.0), fx(1.0))
        .is_none());
    let fit = calculate_fit(&points, Vec3::zero(), &b, fx(0.1), &perspective(), wide());
    let (radius, _) = fit.unwrap();
    assert!(units(radius) > 0.5);
}

#[test]
fn unsupported_projection_fails() {
    let points = cube(0.5);
    let b = basis(0.0, 0.0);
    assert_eq!(calculate_fit(&points, Vec3::zero(), &b, 0, &Projection::Custom, wide()), None);
}

#[test]
fn no_points_fail() {
    let b = basis(0.0, 0.0);
    assert_eq!(calculate_fit(&[], Vec3::zero(), &b, 0, &perspective(), wide()), None);
}

#[test]
fn single_point_terminates() {
    let b = basis(0.0, 0.0);
    let points = vec![v3(1.0, 2.0, 3.0)];
    let fit = calculate_fit(&points, v3(1.0, 2.0, 3.0), &b, fx(0.1), &perspective(), wide());
    if let Some((radius, _)) = fit {
        assert!(radius >= 100 && radius <= 100_000);
    }
}

#[test]
fn large_and_small_objects_fit_alike() {
    let half_tan = (std::f64::consts::FRAC_PI_4 / 2.0).tan();
    for scale in [0.01, 1.0, 100.0, 5000.0] {
        let center = v3(1000.0, 500.0, -2000.0);
        let points: Vec<Vec3> = cube(0.5 * scale).iter().map(|p| p.plus(center)).collect();
        let b = basis(0.0, 0.0);
        let (radius, focus) =
            calculate_fit(&points, center, &b, fx(0.2), &perspective(), wide()).unwrap();
        // The near face takes 80% of the vertical half extent; a point has
        // to be at least 0.1 in front of the camera.
        let expected = (scale * (0.5 + 0.5 / (half_tan * 0.8))).max(0.5 * scale + 0.1);
        assert!(
            (units(radius) - expected).abs() < 2e-3 * scale.max(1.0),
            "scale {} radius {} expected {}",
            scale,
            units(radius),
            expected
        );
        assert!((units(focus.x) - 1000.0).abs() < 1e-3 * scale.max(1.0));
        assert!((units(focus.y) - 500.0).abs() < 1e-3 * scale.max(1.0));
    }
}

#[test]
fn oblique_views_reach_the_target_margin() {
    let points = cube(0.5);
    for (yaw, pitch) in [(0.4, 0.3), (2.0, -0.7), (-2.8, 1.2), (3.1, -1.5)] {
        let b = basis(yaw, pitch);
        for projection in [perspective(), orthographic()] {
            let (radius, focus) =
                calculate_fit(&points, Vec3::zero(), &b, fx(0.15), &projection, wide()).unwrap();
            let bounds = bounds_at(&points, &b, &projection, wide(), fx(0.15), radius, focus);
            assert!(bounds.is_fitted(fx(2e-3)), "yaw {} pitch {}", yaw, pitch);
            assert!(bounds.is_balanced(fx(2e-3)), "yaw {} pitch {}", yaw, pitch);
        }
    }
}
