//! The live camera as the library sees it, and the smoothness stash.

use vstd::prelude::*;
use crate::animation::OrbitPose;
use crate::vec3::Vec3;

verus! {

/// Smoothness values of a camera, kept while an animation has them switched off.
#[derive(Clone, Copy, Debug, PartialEq, Eq, Structural)]
pub struct SmoothnessStash {
    pub zoom: i64,
    pub pan: i64,
    pub orbit: i64,
}

/// The orbital state of a live camera: the pose it is heading for, how
/// smoothly it follows, and whether its transform has to be derived anew.
#[derive(Clone, Copy, Debug, PartialEq, Eq, Structural)]
pub struct OrbitCamera {
    pub target_focus: Vec3,
    pub target_yaw: i64,
    pub target_pitch: i64,
    pub target_radius: i64,
    pub zoom_smoothness: i64,
    pub pan_smoothness: i64,
    pub orbit_smoothness: i64,
    pub force_update: bool,
}

impl OrbitCamera {
    /// The camera with all smoothing switched off.
    pub open spec fn without_smoothing(self) -> OrbitCamera {
        OrbitCamera { zoom_smoothness: 0, pan_smoothness: 0, orbit_smoothness: 0, ..self }
    }

    /// The smoothness values of the camera.
    pub open spec fn smoothness(self) -> SmoothnessStash {
        SmoothnessStash {
            zoom: self.zoom_smoothness,
            pan: self.pan_smoothness,
            orbit: self.orbit_smoothness,
        }
    }

    /// The camera following with the smoothness values of `stash`.
    pub open spec fn with_smoothness(self, stash: SmoothnessStash) -> OrbitCamera {
        OrbitCamera {
            zoom_smoothness: stash.zoom,
            pan_smoothness: stash.pan,
            orbit_smoothness: stash.orbit,
            ..self
        }
    }

    pub open spec fn spec_pose(self) -> OrbitPose {
        OrbitPose {
            focus: self.target_focus,
            yaw: self.target_yaw,
            pitch: self.target_pitch,
            radius: self.target_radius,
        }
    }

    /// The camera heading for `pose`, marked to derive its transform anew.
    pub open spec fn moved_to(self, pose: OrbitPose) -> OrbitCamera {
        OrbitCamera {
            target_focus: pose.focus,
            target_yaw: pose.yaw,
            target_pitch: pose.pitch,
            target_radius: pose.radius,
            force_update: true,
            ..self
        }
    }

    /// The pose the camera is heading for.
    #[verifier::when_used_as_spec(spec_pose)]
    pub fn pose(self) -> (r: OrbitPose)
        ensures
            r == self.spec_pose(),
    {
        OrbitPose {
            focus: self.target_focus,
            yaw: self.target_yaw,
            pitch: self.target_pitch,
            radius: self.target_radius,
        }
    }

    /// Heads for `pose` and marks the transform as to be derived anew.
    pub fn set_pose(&mut self, pose: OrbitPose)
        ensures
            *final(self) == old(self).moved_to(pose),
    {
        self.target_focus = pose.focus;
        self.target_yaw = pose.yaw;
        self.target_pitch = pose.pitch;
        self.target_radius = pose.radius;
        self.force_update = true;
    }

    /// Switches smoothing off, for exact control during an animation.
    pub fn disable_interpolation(&mut self)
        ensures
            *final(self) == old(self).without_smoothing(),
    {
        self.zoom_smoothness = 0;
        self.pan_smoothness = 0;
        self.orbit_smoothness = 0;
    }

    /// Sets the three smoothness values.
    pub fn enable_interpolation(&mut self, zoom: i64, pan: i64, orbit: i64)
        ensures
            *final(self) == old(self).with_smoothness(SmoothnessStash { zoom, pan, orbit }),
    {
        self.zoom_smoothness = zoom;
        self.pan_smoothness = pan;
        self.orbit_smoothness = orbit;
    }

    /// Switches smoothing off and returns the values it had.
    pub fn stash_and_disable_smoothness(&mut self) -> (stash: SmoothnessStash)
        ensures
            stash == old(self).smoothness(),
            *final(self) == old(self).without_smoothing(),
    {
        let stash = SmoothnessStash {
            zoom: self.zoom_smoothness,
            pan: self.pan_smoothness,
            orbit: self.orbit_smoothness,
        };
        self.zoom_smoothness = 0;
        self.pan_smoothness = 0;
        self.orbit_smoothness = 0;
        stash
    }

    /// Gives the camera back the smoothness values that were stashed.
    pub fn restore_smoothness(&mut self, stash: SmoothnessStash)
        ensures
            *final(self) == old(self).with_smoothness(stash),
    {
        self.zoom_smoothness = stash.zoom;
        self.pan_smoothness = stash.pan;
        self.orbit_smoothness = stash.orbit;
    }
}

/// Stashing the smoothness and restoring it leaves the camera as it was.
pub proof fn lemma_stash_then_restore(camera: OrbitCamera)
    ensures
        camera.without_smoothing().with_smoothness(camera.smoothness()) == camera,
{
}

} // verus!
