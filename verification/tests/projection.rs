use panorbit_camera_ext::bounds::{
    harmonic_mean, zoom_margin_multiplier, Edge, Extremes, ScreenSpaceBounds,
};
use panorbit_camera_ext::fixed::{LIMIT, SCALE};
use panorbit_camera_ext::projection::{
    build_test_projection, ortho_fixed_distance, project_point, projection_aspect_ratio,
    CameraBasis, CameraFrame, Projection, ProjectionParams, Viewport, EPSILON, MIN_VISIBLE_DEPTH,
};
use panorbit_camera_ext::vec3::Vec3;

fn fx(v: f64) -> i64 {
    (v * 1_000_000.0).round() as i64
}

fn v3(x: f64, y: f64, z: f64) -> Vec3 {
    Vec3::new(fx(x), fx(y), fx(z))
}

fn head_on() -> CameraBasis {
    CameraBasis { right: v3(1.0, 0.0, 0.0), up: v3(0.0, 1.0, 0.0), forward: v3(0.0, 0.0, -1.0) }
}

fn frame(distance: f64) -> CameraFrame {
    head_on().frame_at(Vec3::zero(), fx(distance))
}

fn project(point: Vec3, f: &CameraFrame, is_ortho: bool) -> Option<(i64, i64, i64)> {
    project_point(point, f.position, f.right, f.up, f.forward, is_ortho)
}

#[test]
fn frame_sits_behind_the_focus() {
    let f = head_on().frame_at(v3(1.0, 2.0, 3.0), fx(5.0));
    assert_eq!(f.position, v3(1.0, 2.0, 8.0));
    assert_eq!(f.right, head_on().right);
    assert_eq!(f.up, head_on().up);
    assert_eq!(f.forward, head_on().forward);
}

#[test]
fn perspective_divides_by_depth() {
    let f = frame(5.0);
    assert_eq!(project(v3(1.0, -2.0, 1.0), &f, false), Some((fx(0.25), fx(-0.5), fx(4.0))));
    assert_eq!(project(v3(1.0, 1.0, 2.0), &f, false), Some((333_333, 333_333, fx(3.0))));
}

#[test]
fn orthographic_keeps_camera_coordinates() {
    let f = frame(5.0);
    assert_eq!(project(v3(1.0, -2.0, 1.0), &f, true), Some((fx(1.0), fx(-2.0), fx(4.0))));
    assert_eq!(project(v3(1.0, -2.0, 9.0), &f, true), Some((fx(1.0), fx(-2.0), fx(-4.0))));
}

#[test]
fn perspective_rejects_points_too_near() {
    let f = frame(5.0);
    assert_eq!(MIN_VISIBLE_DEPTH, fx(0.1));
    assert_eq!(project(v3(0.0, 0.0, 4.9), &f, false), None);
    assert_eq!(project(v3(0.0, 0.0, 6.0), &f, false), None);
    assert_eq!(project(v3(0.0, 0.0, 4.899999), &f, false).map(|p| p.2), Some(100_001));
}

#[test]
fn half_extents_of_each_projection() {
    let perspective =
        Projection::Perspective { half_tan_vfov: fx(0.5), aspect_ratio_hint: Some(fx(1.0)) };
    assert_eq!(
        ProjectionParams::from_projection(perspective, fx(1.5)),
        Some(ProjectionParams { half_extent_x: fx(0.75), half_extent_y: fx(0.5), is_ortho: false })
    );
    let ortho = Projection::Orthographic {
        width: fx(16.0),
        height: fx(9.0),
        scale: fx(1.0),
        near: 0,
        far: fx(1000.0),
    };
    assert_eq!(
        ProjectionParams::from_projection(ortho, fx(1.5)),
        Some(ProjectionParams { half_extent_x: fx(8.0), half_extent_y: fx(4.5), is_ortho: true })
    );
    assert_eq!(ProjectionParams::from_projection(Projection::Custom, fx(1.5)), None);
}

#[test]
fn viewport_overrides_the_hint() {
    let hinted =
        Projection::Perspective { half_tan_vfov: fx(0.5), aspect_ratio_hint: Some(fx(1.25)) };
    let bare = Projection::Perspective { half_tan_vfov: fx(0.5), aspect_ratio_hint: None };
    let size = Some(Viewport { width: fx(1920.0), height: fx(1080.0) });
    assert_eq!(projection_aspect_ratio(hinted, size), Some(1_777_777));
    assert_eq!(projection_aspect_ratio(hinted, None), Some(fx(1.25)));
    assert_eq!(projection_aspect_ratio(bare, size), Some(1_777_777));
    assert_eq!(projection_aspect_ratio(bare, None), None);
}

#[test]
fn orthographic_aspect_needs_a_height() {
    let ortho = |height: i64| Projection::Orthographic {
        width: fx(16.0),
        height,
        scale: fx(1.0),
        near: 0,
        far: fx(1000.0),
    };
    assert_eq!(EPSILON, 1);
    assert_eq!(projection_aspect_ratio(ortho(fx(8.0)), None), Some(fx(2.0)));
    assert_eq!(
        projection_aspect_ratio(ortho(fx(8.0)), Some(Viewport { width: 1, height: 1 })),
        Some(fx(2.0))
    );
    assert_eq!(projection_aspect_ratio(ortho(0), None), None);
    assert_eq!(projection_aspect_ratio(ortho(1), None), Some(16_000_000_000_000));
    assert_eq!(projection_aspect_ratio(Projection::Custom, None), None);
}

#[test]
fn orthographic_camera_keeps_its_distance() {
    let ortho = Projection::Orthographic {
        width: fx(16.0),
        height: fx(9.0),
        scale: fx(1.0),
        near: fx(0.1),
        far: fx(999.9),
    };
    assert_eq!(ortho_fixed_distance(ortho), Some(fx(500.0)));
    let perspective = Projection::Perspective { half_tan_vfov: fx(0.5), aspect_ratio_hint: None };
    assert_eq!(ortho_fixed_distance(perspective), None);
    assert_eq!(ortho_fixed_distance(Projection::Custom), None);
}

#[test]
fn test_projection_scales_the_visible_area() {
    let ortho = Projection::Orthographic {
        width: fx(16.0),
        height: fx(9.0),
        scale: fx(2.0),
        near: 0,
        far: fx(1000.0),
    };
    assert_eq!(
        build_test_projection(ortho, fx(5.0)),
        Projection::Orthographic {
            width: fx(40.0),
            height: fx(22.5),
            scale: fx(5.0),
            near: 0,
            far: fx(1000.0),
        }
    );
    let flat = Projection::Orthographic {
        width: fx(16.0),
        height: fx(9.0),
        scale: 0,
        near: 0,
        far: fx(1000.0),
    };
    assert_eq!(
        build_test_projection(flat, fx(5.0)),
        Projection::Orthographic {
            width: fx(16.0),
            height: fx(9.0),
            scale: fx(5.0),
            near: 0,
            far: fx(1000.0),
        }
    );
    let perspective = Projection::Perspective { half_tan_vfov: fx(0.5), aspect_ratio_hint: None };
    assert_eq!(build_test_projection(perspective, fx(5.0)), perspective);
    assert_eq!(build_test_projection(Projection::Custom, fx(5.0)), Projection::Custom);
}

#[test]
fn margin_multiplier_values() {
    assert_eq!(zoom_margin_multiplier(0), SCALE);
    assert_eq!(zoom_margin_multiplier(fx(0.25)), 1_333_333);
    assert_eq!(zoom_margin_multiplier(fx(0.5)), fx(2.0));
    assert_eq!(zoom_margin_multiplier(fx(0.08)), 1_086_956);
    assert_eq!(zoom_margin_multiplier(fx(1.0)), LIMIT);
}

#[test]
fn harmonic_mean_values() {
    assert_eq!(harmonic_mean(fx(2.0), fx(2.0)), fx(2.0));
    assert_eq!(harmonic_mean(fx(1.0), fx(3.0)), fx(1.5));
    assert_eq!(harmonic_mean(fx(4.0), fx(12.0)), fx(6.0));
}

#[test]
fn extremes_keep_the_first_point_on_a_tie() {
    let e = Extremes::start((fx(1.0), fx(2.0), fx(3.0)));
    assert_eq!(e.min_x, fx(1.0));
    assert_eq!(e.max_y, fx(2.0));
    assert_eq!(e.max_x_depth, fx(3.0));
    let tie = e.with_point((fx(1.0), fx(2.0), fx(9.0)));
    assert_eq!(tie, e);
    let wider = e.with_point((fx(-1.0), fx(5.0), fx(4.0)));
    assert_eq!(
        wider,
        Extremes {
            min_x: fx(-1.0),
            max_x: fx(1.0),
            min_y: fx(2.0),
            max_y: fx(5.0),
            min_x_depth: fx(4.0),
            max_x_depth: fx(3.0),
            min_y_depth: fx(3.0),
            max_y_depth: fx(4.0),
        }
    );
}

fn square_perspective() -> Projection {
    Projection::Perspective { half_tan_vfov: fx(0.5), aspect_ratio_hint: None }
}

#[test]
fn bounds_of_a_wide_box_bind_on_the_width() {
    // Depth 4 for all: the box spans [-0.25, 0.5] by [-0.125, 0.125].
    let points = vec![v3(-1.0, -0.5, 1.0), v3(2.0, 0.5, 1.0), v3(0.0, 0.0, 1.0)];
    let b = ScreenSpaceBounds::from_points(
        &points,
        &frame(5.0),
        &square_perspective(),
        fx(1.0),
        fx(2.0),
    )
    .unwrap();
    assert_eq!(b.min_norm_x, fx(-0.25));
    assert_eq!(b.max_norm_x, fx(0.5));
    assert_eq!(b.min_norm_y, fx(-0.125));
    assert_eq!(b.max_norm_y, fx(0.125));
    assert_eq!(b.half_extent_x, fx(0.5));
    assert_eq!(b.half_extent_y, fx(0.5));
    assert_eq!(b.left_margin, fx(0.25));
    assert_eq!(b.right_margin, 0);
    assert_eq!(b.top_margin, fx(0.375));
    assert_eq!(b.bottom_margin, fx(0.375));
    // Box aspect 3 against screen aspect 1: the width binds, at half the half extent.
    assert_eq!(b.target_margin_x, fx(0.25));
    assert_eq!(b.target_margin_y, 416_667);
    assert_eq!(b.centering_depth_x, fx(4.0));
    assert_eq!(b.centering_depth_y, fx(4.0));
    assert_eq!(b.center(), (fx(0.125), 0));
    assert_eq!(b.span(), (fx(0.75), fx(0.25)));
    assert_eq!(b.constraining_margins(), (0, fx(0.25)));
    assert_eq!(b.margin_error(), fx(0.25));
    assert!(!b.is_fitted(fx(0.25)));
    assert!(b.is_fitted(fx(0.25) + 1));
    assert!(!b.is_balanced(fx(0.25)));
    assert!(b.is_balanced(fx(0.25) + 1));
    assert_eq!(b.margin(Edge::Left), fx(0.25));
    assert_eq!(b.margin(Edge::Right), 0);
    assert_eq!(b.margin(Edge::Top), fx(0.375));
    assert_eq!(b.margin(Edge::Bottom), fx(0.375));
}

#[test]
fn bounds_of_a_tall_box_bind_on_the_height() {
    let points = vec![v3(-0.5, -1.0, 1.0), v3(0.5, 2.0, 1.0)];
    let b = ScreenSpaceBounds::from_points(
        &points,
        &frame(5.0),
        &square_perspective(),
        fx(1.0),
        fx(2.0),
    )
    .unwrap();
    assert_eq!(b.span(), (fx(0.25), fx(0.75)));
    assert_eq!(b.target_margin_y, fx(0.25));
    // The horizontal target keeps the aspect of the box: 0.25 * (1 / 3).
    assert_eq!(b.target_margin_x, fx(0.5) - 83_333);
    assert_eq!(b.constraining_margins(), (0, fx(0.25)));
}

#[test]
fn centering_depth_is_the_harmonic_mean_of_the_extremes() {
    // Depths 2 and 6 bound the box on both axes.
    let points = vec![v3(-1.0, -1.0, 3.0), v3(3.0, 3.0, -1.0)];
    let b = ScreenSpaceBounds::from_points(
        &points,
        &frame(5.0),
        &square_perspective(),
        fx(1.0),
        fx(1.0),
    )
    .unwrap();
    assert_eq!((b.min_norm_x, b.max_norm_x), (fx(-0.5), fx(0.5)));
    assert_eq!(b.centering_depth_x, fx(3.0));
    assert_eq!(b.centering_depth_y, fx(3.0));
}

#[test]
fn orthographic_bounds_do_not_depend_on_depth() {
    let ortho = Projection::Orthographic {
        width: fx(8.0),
        height: fx(4.0),
        scale: fx(1.0),
        near: 0,
        far: fx(1000.0),
    };
    let points = vec![v3(-1.0, -0.5, 1.0), v3(2.0, 0.5, 700.0)];
    let b = ScreenSpaceBounds::from_points(&points, &frame(5.0), &ortho, fx(2.0), fx(1.0)).unwrap();
    assert_eq!((b.min_norm_x, b.max_norm_x), (fx(-1.0), fx(2.0)));
    assert_eq!((b.min_norm_y, b.max_norm_y), (fx(-0.5), fx(0.5)));
    assert_eq!(b.centering_depth_x, SCALE);
    assert_eq!(b.centering_depth_y, SCALE);
    assert_eq!((b.half_extent_x, b.half_extent_y), (fx(4.0), fx(2.0)));
}

#[test]
fn bounds_fail_without_points_or_behind_the_camera() {
    let f = frame(5.0);
    let p = square_perspective();
    assert_eq!(ScreenSpaceBounds::from_points(&[], &f, &p, fx(1.0), fx(1.0)), None);
    let behind = vec![v3(0.0, 0.0, 0.0), v3(0.0, 0.0, 5.5)];
    assert_eq!(ScreenSpaceBounds::from_points(&behind, &f, &p, fx(1.0), fx(1.0)), None);
    let visible = vec![v3(0.0, 0.0, 0.0)];
    assert!(ScreenSpaceBounds::from_points(&visible, &f, &p, fx(1.0), fx(1.0)).is_some());
    assert_eq!(
        ScreenSpaceBounds::from_points(&visible, &f, &Projection::Custom, fx(1.0), fx(1.0)),
        None
    );
}
