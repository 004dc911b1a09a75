use panorbit_camera_ext::camera::OrbitCamera;
use panorbit_camera_ext::fixed::SCALE;
use panorbit_camera_ext::geometry::{aabb_to_world_corners, compute_bounding_corners, Affine};
use panorbit_camera_ext::projection::{CameraBasis, CameraFrame, Projection, Viewport};
use panorbit_camera_ext::vec3::Vec3;
use panorbit_camera_ext::zoom::{
    calculate_target_focus, calculate_target_radius, corners_center, count, stepped_toward,
    zoom_to_fit_convergence_system, ScreenSpaceBounds, ZoomConfig, ZoomToFitComponent,
};

fn fx(v: f64) -> i64 {
    (v * 1_000_000.0).round() as i64
}

fn units(v: i64) -> f64 {
    v as f64 / 1_000_000.0
}

fn v3(x: f64, y: f64, z: f64) -> Vec3 {
    Vec3::new(fx(x), fx(y), fx(z))
}

fn head_on() -> CameraBasis {
    CameraBasis { right: v3(1.0, 0.0, 0.0), up: v3(0.0, 1.0, 0.0), forward: v3(0.0, 0.0, -1.0) }
}

fn frame(distance: f64) -> CameraFrame {
    head_on().frame_at(Vec3::zero(), fx(distance))
}

fn camera(focus: Vec3, radius: f64) -> OrbitCamera {
    OrbitCamera {
        target_focus: focus,
        target_yaw: 0,
        target_pitch: 0,
        target_radius: fx(radius),
        zoom_smoothness: 0,
        pan_smoothness: 0,
        orbit_smoothness: 0,
        force_update: false,
    }
}

#[test]
fn unit_cube_corners() {
    let corners = compute_bounding_corners(&Affine::identity());
    assert_eq!(
        corners,
        [
            v3(-0.5, -0.5, -0.5),
            v3(0.5, -0.5, -0.5),
            v3(-0.5, 0.5, -0.5),
            v3(0.5, 0.5, -0.5),
            v3(-0.5, -0.5, 0.5),
            v3(0.5, -0.5, 0.5),
            v3(-0.5, 0.5, 0.5),
            v3(0.5, 0.5, 0.5),
        ]
    );
    assert_eq!(corners_center(&corners), Vec3::zero());
}

#[test]
fn transformed_box_corners() {
    // Scale by (2, 3, 4), then a quarter turn round z, then a shift.
    let transform = Affine {
        x_axis: v3(0.0, 2.0, 0.0),
        y_axis: v3(-3.0, 0.0, 0.0),
        z_axis: v3(0.0, 0.0, 4.0),
        translation: v3(10.0, 20.0, 30.0),
    };
    assert_eq!(transform.transform_point(v3(1.0, 1.0, 1.0)), v3(7.0, 22.0, 34.0));
    assert_eq!(Affine::identity().transform_point(v3(1.5, -2.0, 3.0)), v3(1.5, -2.0, 3.0));
    let corners = aabb_to_world_corners(v3(1.0, 0.0, 0.0), v3(1.0, 2.0, 0.5), &transform);
    assert_eq!(corners[0], v3(16.0, 20.0, 28.0));
    assert_eq!(corners[1], v3(16.0, 24.0, 28.0));
    assert_eq!(corners[2], v3(4.0, 20.0, 28.0));
    assert_eq!(corners[7], v3(4.0, 24.0, 32.0));
    assert_eq!(corners_center(&corners), v3(10.0, 22.0, 30.0));
}

#[test]
fn config_defaults() {
    let config = ZoomConfig::default();
    assert_eq!(config.max_iterations, 200);
    assert_eq!(config.margin, fx(0.1));
    assert_eq!(config.margin_tolerance, 10);
    assert_eq!(config.convergence_rate, fx(0.3));
    assert_eq!(config.zoom_margin_multiplier(), 1_111_111);
    let tight = ZoomConfig { margin: fx(0.08), ..config };
    assert_eq!(tight.zoom_margin_multiplier(), 1_086_956);
}

#[test]
fn bounds_of_the_unit_cube() {
    let corners = compute_bounding_corners(&Affine::identity());
    let b = ScreenSpaceBounds::from_corners(&corners, &frame(2.5), fx(0.5), fx(2.0), fx(2.0))
        .unwrap();
    // The near face is at depth 2, the far face at depth 3.
    assert_eq!((b.min_norm_x, b.max_norm_x), (fx(-0.25), fx(0.25)));
    assert_eq!((b.min_norm_y, b.max_norm_y), (fx(-0.25), fx(0.25)));
    assert_eq!(b.avg_depth, fx(2.5));
    assert_eq!((b.half_tan_vfov, b.half_tan_hfov), (fx(0.5), fx(1.0)));
    assert_eq!((b.left_margin, b.right_margin), (fx(0.75), fx(0.75)));
    assert_eq!((b.top_margin, b.bottom_margin), (fx(0.25), fx(0.25)));
    assert_eq!((b.target_margin_x, b.target_margin_y), (fx(0.5), fx(0.25)));
    assert_eq!(b.center(), (0, 0));
    assert_eq!(b.span(), (fx(0.5), fx(0.5)));
    assert!(b.is_balanced(1));
    assert!(!b.is_balanced(0));
    assert!(b.is_fitted(1));
    assert!(!b.is_fitted(0));
}

#[test]
fn bounds_fail_with_a_corner_behind_the_camera() {
    let corners = compute_bounding_corners(&Affine::identity());
    assert_eq!(
        ScreenSpaceBounds::from_corners(&corners, &frame(0.6), fx(0.5), fx(1.0), fx(1.0)),
        None
    );
    assert!(ScreenSpaceBounds::from_corners(&corners, &frame(0.7), fx(0.5), fx(1.0), fx(1.0))
        .is_some());
}

#[test]
fn target_focus_goes_to_the_origin_from_afar() {
    let corners = compute_bounding_corners(&Affine::identity());
    let f = head_on().frame_at(v3(0.3, 0.0, 0.0), fx(2.5));
    let b = ScreenSpaceBounds::from_corners(&corners, &f, fx(0.5), fx(1.0), fx(1.0)).unwrap();
    assert_eq!(calculate_target_focus(v3(3.0, 0.0, 0.0), fx(2.5), b, f), Vec3::zero());
    // Near the origin the focus moves by the screen offset of the box at its mean depth.
    let (cx, cy) = b.center();
    // Seen from x = 0.3 the box spans [-0.8 / 2, 0.2 / 2] = [-0.4, 0.1].
    assert_eq!((cx, cy), (-150_000, 0));
    assert_eq!(calculate_target_focus(v3(0.3, 0.0, 0.0), fx(2.5), b, f), v3(-0.075, 0.0, 0.0));
}

#[test]
fn target_radius_scales_by_the_larger_span_ratio() {
    let corners = compute_bounding_corners(&Affine::identity());
    let b = ScreenSpaceBounds::from_corners(&corners, &frame(2.5), fx(0.5), fx(2.0), fx(2.0))
        .unwrap();
    let config = ZoomConfig { margin: fx(0.5), ..ZoomConfig::default() };
    // Target spans are 1.0 and 0.5; the spans are 0.5 both: ratios 0.5 and 1.0.
    assert_eq!(calculate_target_radius(fx(2.5), fx(0.5), fx(0.5), b, config), fx(2.5));
    assert_eq!(calculate_target_radius(fx(2.5), fx(1.5), fx(0.5), b, config), fx(3.75));
}

#[test]
fn steps_are_a_share_of_the_way() {
    let cam = camera(v3(1.0, 0.0, 0.0), 10.0);
    let coarse = stepped_toward(cam, v3(3.0, 0.0, 0.0), fx(20.0), fx(0.3));
    assert_eq!(coarse.target_focus, v3(1.6, 0.0, 0.0));
    assert_eq!(coarse.target_radius, fx(13.0));
    assert!(coarse.force_update);
    let fine = stepped_toward(cam, v3(1.1, 0.0, 0.0), fx(10.2), fx(0.3));
    assert_eq!(fine.target_focus, v3(1.08, 0.0, 0.0));
    assert_eq!(fine.target_radius, fx(10.16));
}

#[test]
fn counting_stops_at_the_top() {
    assert_eq!(count(0), 1);
    assert_eq!(count(41), 42);
    assert_eq!(count(usize::MAX), usize::MAX);
}

#[test]
fn convergence_backs_off_from_inside_the_box() {
    let corners = compute_bounding_corners(&Affine { translation: v3(1.0, 0.0, 0.0), ..Affine::identity() });
    let mut cam = camera(v3(1.0, 0.0, 0.0), 0.2);
    let mut state = ZoomToFitComponent { target_corners: corners, iteration_count: 0 };
    let perspective = Projection::Perspective { half_tan_vfov: fx(0.5), aspect_ratio_hint: None };
    let f = head_on().frame_at(cam.target_focus, cam.target_radius);
    let done = zoom_to_fit_convergence_system(
        &mut cam,
        &mut state,
        &f,
        &perspective,
        Some(Viewport { width: fx(800.0), height: fx(600.0) }),
        &ZoomConfig::default(),
    );
    assert!(!done);
    assert_eq!(cam.target_focus, v3(1.0, 0.0, 0.0));
    assert_eq!(cam.target_radius, fx(0.3));
    assert!(cam.force_update);
    assert_eq!(state.iteration_count, 1);
}

#[test]
fn convergence_needs_a_perspective_view() {
    let corners = compute_bounding_corners(&Affine::identity());
    let mut cam = camera(Vec3::zero(), 5.0);
    let before = cam;
    let mut state = ZoomToFitComponent { target_corners: corners, iteration_count: 3 };
    let f = frame(5.0);
    let ortho = Projection::Orthographic {
        width: fx(8.0),
        height: fx(4.0),
        scale: SCALE,
        near: 0,
        far: fx(1000.0),
    };
    let config = ZoomConfig::default();
    assert!(!zoom_to_fit_convergence_system(&mut cam, &mut state, &f, &ortho, None, &config));
    assert!(!zoom_to_fit_convergence_system(&mut cam, &mut state, &f, &Projection::Custom, None, &config));
    let bare = Projection::Perspective { half_tan_vfov: fx(0.5), aspect_ratio_hint: None };
    assert!(!zoom_to_fit_convergence_system(&mut cam, &mut state, &f, &bare, None, &config));
    assert_eq!(cam, before);
    assert_eq!(state.iteration_count, 3);
}

#[test]
fn convergence_settles_on_the_fit() {
    let corners = compute_bounding_corners(&Affine::identity());
    let mut cam = camera(v3(0.2, 0.1, 0.0), 10.0);
    let mut state = ZoomToFitComponent { target_corners: corners, iteration_count: 0 };
    let half_tan = (std::f64::consts::FRAC_PI_4 / 2.0).tan();
    let perspective =
        Projection::Perspective { half_tan_vfov: fx(half_tan), aspect_ratio_hint: Some(fx(1.5)) };
    let config = ZoomConfig::default();
    let mut ticks = 0;
    loop {
        let f = head_on().frame_at(cam.target_focus, cam.target_radius);
        ticks += 1;
        if zoom_to_fit_convergence_system(&mut cam, &mut state, &f, &perspective, None, &config) {
            break;
        }
        assert!(ticks < 200);
    }
    // The near face (half height 0.5) takes 90% of the vertical half extent.
    let expected = 0.5 + 0.5 / (half_tan / (1.0 / 0.9));
    assert!((units(cam.target_radius) - expected).abs() < 1e-2, "{}", units(cam.target_radius));
    assert!(units(cam.target_focus.x).abs() < 1e-3);
    assert!(units(cam.target_focus.y).abs() < 1e-3);
    assert!(state.iteration_count <= 200);
}
