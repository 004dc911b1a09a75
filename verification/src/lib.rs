//! Orbit-camera framing and animation on fixed-point numbers.
//!
//! Every scalar (coordinates, angles in radians, durations in milliseconds,
//! interpolation factors) is an `i64` counting millionths: the value `1.0` is
//! [`fixed::SCALE`]. Arithmetic saturates instead of overflowing, so every
//! function here is total.
//!
//! - [`fit`] finds the camera radius and focus that frame a point set with
//!   a margin, from the screen-space bounds of [`bounds`] under the
//!   projections of [`projection`].
//! - [`animation`] is the queue of camera moves and the tick that advances
//!   it; [`camera`] is the live camera it writes to.
//! - [`observers`] decides what a camera does on the requests of
//!   [`events`].
//! - [`zoom`] converges onto a box frame by frame; [`geometry`] gives the
//!   corners of boxes.
//!
//! Sines, arc tangents and easing curves are not computed here: the host
//! hands in camera bases, decomposed directions and eased progress.

pub mod animation;
pub mod bounds;
pub mod camera;
pub mod events;
pub mod fit;
pub mod fixed;
pub mod geometry;
pub mod observers;
pub mod projection;
pub mod vec3;
pub mod zoom;

pub use animation::{process_camera_move_list, CameraMove, CameraMoveList};
pub use bounds::{zoom_margin_multiplier, Edge, ScreenSpaceBounds};
pub use camera::{OrbitCamera, SmoothnessStash};
pub use events::{
    AnimateToFit, AnimationBegin, AnimationEnd, CameraMoveBegin, CameraMoveEnd, CurrentFitTarget,
    PlayAnimation, SetFitTarget, ZoomAnimationMarker, ZoomBegin, ZoomEnd, ZoomToFit,
};
pub use fit::{calculate_fit, calculate_fit_radius};
pub use projection::{project_point, projection_aspect_ratio, ProjectionParams};
