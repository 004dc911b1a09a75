//! Affine transforms and the corners of boxes.

use vstd::prelude::*;
use crate::fixed::{fx_neg, SCALE};
use crate::vec3::Vec3;

verus! {

/// An affine transform: a point `p` goes to
/// `x_axis * p.x + y_axis * p.y + z_axis * p.z + translation`.
#[derive(Clone, Copy, Debug, PartialEq, Eq, Structural)]
pub struct Affine {
    pub x_axis: Vec3,
    pub y_axis: Vec3,
    pub z_axis: Vec3,
    pub translation: Vec3,
}

impl Affine {
    pub open spec fn spec_transform_point(&self, p: Vec3) -> Vec3 {
        self.x_axis.scaled(p.x).plus(self.y_axis.scaled(p.y)).plus(self.z_axis.scaled(p.z)).plus(
            self.translation,
        )
    }

    /// The image of `p`.
    #[verifier::when_used_as_spec(spec_transform_point)]
    pub fn transform_point(&self, p: Vec3) -> (r: Vec3)
        ensures
            r == self.spec_transform_point(p),
    {
        self.x_axis.scaled(p.x).plus(self.y_axis.scaled(p.y)).plus(self.z_axis.scaled(p.z)).plus(
            self.translation,
        )
    }

    /// The transform that leaves every point where it is.
    pub fn identity() -> (r: Affine)
        ensures
            r == (Affine {
                x_axis: Vec3 { x: SCALE, y: 0, z: 0 },
                y_axis: Vec3 { x: 0, y: SCALE, z: 0 },
                z_axis: Vec3 { x: 0, y: 0, z: SCALE },
                translation: Vec3 { x: 0, y: 0, z: 0 },
            }),
    {
        Affine {
            x_axis: Vec3 { x: SCALE, y: 0, z: 0 },
            y_axis: Vec3 { x: 0, y: SCALE, z: 0 },
            z_axis: Vec3 { x: 0, y: 0, z: SCALE },
            translation: Vec3 { x: 0, y: 0, z: 0 },
        }
    }
}

/// The eight corners of the box round `center` with `half_extents`: x
/// alternates fastest, then y, then z, each from low to high.
pub open spec fn box_corners(center: Vec3, half_extents: Vec3) -> Seq<Vec3> {
    let h = half_extents;
    let l = Vec3 { x: fx_neg(h.x), y: fx_neg(h.y), z: fx_neg(h.z) };
    seq![
        center.plus(Vec3 { x: l.x, y: l.y, z: l.z }),
        center.plus(Vec3 { x: h.x, y: l.y, z: l.z }),
        center.plus(Vec3 { x: l.x, y: h.y, z: l.z }),
        center.plus(Vec3 { x: h.x, y: h.y, z: l.z }),
        center.plus(Vec3 { x: l.x, y: l.y, z: h.z }),
        center.plus(Vec3 { x: h.x, y: l.y, z: h.z }),
        center.plus(Vec3 { x: l.x, y: h.y, z: h.z }),
        center.plus(Vec3 { x: h.x, y: h.y, z: h.z }),
    ]
}

/// The eight corners of an axis-aligned box, carried into world space by `global_transform`.
pub fn aabb_to_world_corners(center: Vec3, half_extents: Vec3, global_transform: &Affine) -> (r: [Vec3;
    8])
    ensures
        r@.len() == 8,
        forall|i: int|
            0 <= i < 8 ==> r@[i] == global_transform.transform_point(
                #[trigger] box_corners(center, half_extents)[i],
            ),
{
    let h = half_extents;
    let l = Vec3 { x: fx_neg(h.x), y: fx_neg(h.y), z: fx_neg(h.z) };
    [
        global_transform.transform_point(center.plus(Vec3 { x: l.x, y: l.y, z: l.z })),
        global_transform.transform_point(center.plus(Vec3 { x: h.x, y: l.y, z: l.z })),
        global_transform.transform_point(center.plus(Vec3 { x: l.x, y: h.y, z: l.z })),
        global_transform.transform_point(center.plus(Vec3 { x: h.x, y: h.y, z: l.z })),
        global_transform.transform_point(center.plus(Vec3 { x: l.x, y: l.y, z: h.z })),
        global_transform.transform_point(center.plus(Vec3 { x: h.x, y: l.y, z: h.z })),
        global_transform.transform_point(center.plus(Vec3 { x: l.x, y: h.y, z: h.z })),
        global_transform.transform_point(center.plus(Vec3 { x: h.x, y: h.y, z: h.z })),
    ]
}

/// Half the edge of the unit cube (0.5).
pub const UNIT_HALF: i64 = 500_000;

/// The corners of the unit cube round the origin, carried by `transform`.
pub fn compute_bounding_corners(transform: &Affine) -> (r: [Vec3; 8])
    ensures
        r@.len() == 8,
        forall|i: int|
            0 <= i < 8 ==> r@[i] == transform.transform_point(
                #[trigger] box_corners(
                    Vec3 { x: 0, y: 0, z: 0 },
                    Vec3 { x: UNIT_HALF, y: UNIT_HALF, z: UNIT_HALF },
                )[i],
            ),
{
    aabb_to_world_corners(
        Vec3 { x: 0, y: 0, z: 0 },
        Vec3 { x: UNIT_HALF, y: UNIT_HALF, z: UNIT_HALF },
        transform,
    )
}

} // verus!
