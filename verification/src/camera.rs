//! The camera, and the block of values that the shader reads for it.

use vstd::prelude::*;
use crate::scalar::{Scalar, ONE_BITS, ZERO_BITS};
use crate::vector::{Quaternion, Vec3};

verus! {

/// Bit pattern of the smallest distance at which a ray may start: one ten
/// thousandth, rounded to binary32.
pub const MIN_DISTANCE_FLOOR_BITS: u32 = 0x38d1_b717;

/// Bit pattern of the smallest distance at which a ray may end: zero.
pub const MAX_DISTANCE_FLOOR_BITS: u32 = ZERO_BITS;

/// Bit pattern of minus three, where the camera stands at the start.
pub const START_DEPTH_BITS: u32 = 0xc040_0000;

/// Bit pattern of one half.
pub const HALF_BITS: u32 = 0x3f00_0000;

/// Bit pattern of seven tenths, rounded to binary32.
pub const SEVEN_TENTHS_BITS: u32 = 0x3f33_3333;

/// Bit pattern of one thousandth, rounded to binary32.
pub const START_MIN_DISTANCE_BITS: u32 = 0x3a83_126f;

/// Bit pattern of one thousand.
pub const START_MAX_DISTANCE_BITS: u32 = 0x447a_0000;

/// The floor under the distance at which rays start.
pub open spec fn min_distance_floor() -> Scalar {
    Scalar { bits: MIN_DISTANCE_FLOOR_BITS }
}

/// The floor under the distance at which rays end.
pub open spec fn max_distance_floor() -> Scalar {
    Scalar { bits: MAX_DISTANCE_FLOOR_BITS }
}

/// What a camera holds, as contracts speak of it.
#[derive(Clone, Copy, Debug, PartialEq, Eq, Structural)]
pub struct CameraView {
    pub position: Vec3,
    pub rotation: Quaternion,
    pub up_sky_color: Vec3,
    pub down_sky_color: Vec3,
    pub min_distance: Scalar,
    pub max_distance: Scalar,
}

impl CameraView {
    /// Both distances are numbers and neither lies under its floor.
    pub open spec fn valid(self) -> bool {
        min_distance_floor().le(self.min_distance) && max_distance_floor().le(self.max_distance)
    }

    /// The camera of a new session: three units behind the origin, not
    /// rotated, under a sky that fades from white to light blue.
    pub open spec fn start() -> CameraView {
        CameraView {
            position: Vec3::of_bits(ZERO_BITS, ZERO_BITS, START_DEPTH_BITS),
            rotation: Quaternion {
                s: Scalar { bits: ONE_BITS },
                v: Vec3::of_bits(ZERO_BITS, ZERO_BITS, ZERO_BITS),
            },
            up_sky_color: Vec3::of_bits(ONE_BITS, ONE_BITS, ONE_BITS),
            down_sky_color: Vec3::of_bits(HALF_BITS, SEVEN_TENTHS_BITS, ONE_BITS),
            min_distance: Scalar { bits: START_MIN_DISTANCE_BITS },
            max_distance: Scalar { bits: START_MAX_DISTANCE_BITS },
        }
    }
}

/// The camera. Its distances never leave the range that `CameraView::valid`
/// describes: whatever is written to them is clamped first.
#[derive(Clone, Copy, Debug, PartialEq, Eq)]
pub struct Camera {
    position: Vec3,
    rotation: Quaternion,
    up_sky_color: Vec3,
    down_sky_color: Vec3,
    min_distance: Scalar,
    max_distance: Scalar,
}

impl View for Camera {
    type V = CameraView;

    closed spec fn view(&self) -> CameraView {
        CameraView {
            position: self.position,
            rotation: self.rotation,
            up_sky_color: self.up_sky_color,
            down_sky_color: self.down_sky_color,
            min_distance: self.min_distance,
            max_distance: self.max_distance,
        }
    }
}

impl Camera {
    #[verifier::type_invariant]
    spec fn distances_in_range(self) -> bool {
        self@.valid()
    }

    /// A camera with the given values, the two distances clamped.
    pub fn new(
        position: Vec3,
        rotation: Quaternion,
        up_sky_color: Vec3,
        down_sky_color: Vec3,
        min_distance: Scalar,
        max_distance: Scalar,
    ) -> (camera: Camera)
        ensures
            camera@ == (CameraView {
                position,
                rotation,
                up_sky_color,
                down_sky_color,
                min_distance: min_distance.raised_to(min_distance_floor()),
                max_distance: max_distance.raised_to(max_distance_floor()),
            }),
            camera@.valid(),
    {
        Camera {
            position,
            rotation,
            up_sky_color,
            down_sky_color,
            min_distance: min_distance.at_least(Scalar::from_bits(MIN_DISTANCE_FLOOR_BITS)),
            max_distance: max_distance.at_least(Scalar::from_bits(MAX_DISTANCE_FLOOR_BITS)),
        }
    }

    pub fn position(&self) -> (v: Vec3)
        ensures
            v == self@.position,
    {
        self.position
    }

    pub fn rotation(&self) -> (q: Quaternion)
        ensures
            q == self@.rotation,
    {
        self.rotation
    }

    pub fn up_sky_color(&self) -> (v: Vec3)
        ensures
            v == self@.up_sky_color,
    {
        self.up_sky_color
    }

    pub fn down_sky_color(&self) -> (v: Vec3)
        ensures
            v == self@.down_sky_color,
    {
        self.down_sky_color
    }

    pub fn min_distance(&self) -> (d: Scalar)
        ensures
            d == self@.min_distance,
            min_distance_floor().le(d),
    {
        proof {
            use_type_invariant(self);
        }
        self.min_distance
    }

    pub fn max_distance(&self) -> (d: Scalar)
        ensures
            d == self@.max_distance,
            max_distance_floor().le(d),
    {
        proof {
            use_type_invariant(self);
        }
        self.max_distance
    }

    pub fn set_position(&mut self, position: Vec3)
        ensures
            final(self)@ == (CameraView { position, ..old(self)@ }),
            final(self)@.valid(),
    {
        proof {
            use_type_invariant(&*self);
        }
        self.position = position;
    }

    pub fn set_rotation(&mut self, rotation: Quaternion)
        ensures
            final(self)@ == (CameraView { rotation, ..old(self)@ }),
            final(self)@.valid(),
    {
        proof {
            use_type_invariant(&*self);
        }
        self.rotation = rotation;
    }

    /// Sets the colour of the sky straight up and straight down.
    pub fn set_sky_colors(&mut self, up: Vec3, down: Vec3)
        ensures
            final(self)@ == (CameraView { up_sky_color: up, down_sky_color: down, ..old(self)@ }),
            final(self)@.valid(),
    {
        proof {
            use_type_invariant(&*self);
        }
        self.up_sky_color = up;
        self.down_sky_color = down;
    }

    /// Sets the distance at which rays start, clamped to its floor.
    pub fn set_min_distance(&mut self, distance: Scalar)
        ensures
            final(self)@ == (CameraView {
                min_distance: distance.raised_to(min_distance_floor()),
                ..old(self)@
            }),
            final(self)@.valid(),
    {
        proof {
            use_type_invariant(&*self);
        }
        self.min_distance = distance.at_least(Scalar::from_bits(MIN_DISTANCE_FLOOR_BITS));
    }

    /// Sets the distance at which rays end, clamped to its floor.
    pub fn set_max_distance(&mut self, distance: Scalar)
        ensures
            final(self)@ == (CameraView {
                max_distance: distance.raised_to(max_distance_floor()),
                ..old(self)@
            }),
            final(self)@.valid(),
    {
        proof {
            use_type_invariant(&*self);
        }
        self.max_distance = distance.at_least(Scalar::from_bits(MAX_DISTANCE_FLOOR_BITS));
    }
}

impl Default for Camera {
    fn default() -> (camera: Camera)
        ensures
            camera@ == CameraView::start(),
            camera@.valid(),
    {
        Camera {
            position: Vec3::from_bits(ZERO_BITS, ZERO_BITS, START_DEPTH_BITS),
            rotation: Quaternion {
                s: Scalar::from_bits(ONE_BITS),
                v: Vec3::from_bits(ZERO_BITS, ZERO_BITS, ZERO_BITS),
            },
            up_sky_color: Vec3::from_bits(ONE_BITS, ONE_BITS, ONE_BITS),
            down_sky_color: Vec3::from_bits(HALF_BITS, SEVEN_TENTHS_BITS, ONE_BITS),
            min_distance: Scalar::from_bits(START_MIN_DISTANCE_BITS),
            max_distance: Scalar::from_bits(START_MAX_DISTANCE_BITS),
        }
    }
}

/// The camera as the shader reads it: where it stands, the three unit
/// vectors of its orientation, the sky and the two distances.
#[derive(Clone, Copy, Debug, PartialEq, Eq, Structural)]
pub struct CameraUniform {
    pub position: Vec3,
    pub forward: Vec3,
    pub right: Vec3,
    pub up: Vec3,
    pub up_sky_color: Vec3,
    pub down_sky_color: Vec3,
    pub min_distance: Scalar,
    pub max_distance: Scalar,
}

impl CameraUniform {
    /// Both distances are numbers and neither lies under its floor.
    pub open spec fn valid_distances(self) -> bool {
        min_distance_floor().le(self.min_distance) && max_distance_floor().le(self.max_distance)
    }

    /// The block for `camera`, given the axes that its rotation turns the
    /// z, x and y axis into.
    pub fn new(camera: &Camera, forward: Vec3, right: Vec3, up: Vec3) -> (uniform: CameraUniform)
        ensures
            uniform == (CameraUniform {
                position: camera@.position,
                forward,
                right,
                up,
                up_sky_color: camera@.up_sky_color,
                down_sky_color: camera@.down_sky_color,
                min_distance: camera@.min_distance,
                max_distance: camera@.max_distance,
            }),
            uniform.valid_distances(),
    {
        CameraUniform {
            position: camera.position(),
            forward,
            right,
            up,
            up_sky_color: camera.up_sky_color(),
            down_sky_color: camera.down_sky_color(),
            min_distance: camera.min_distance(),
            max_distance: camera.max_distance(),
        }
    }
}

} // verus!
