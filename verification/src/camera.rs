//! The perspective camera.
//!
//! The camera is generic in its scalar. The library keeps the aspect ratio
//! exact, as the two sides of the drawable size, and decides which fields
//! change when; evaluating the view-projection matrix is left to the
//! caller's numeric code.

use vstd::prelude::*;
use crate::surface::Extent;

verus! {

/// A width-to-height ratio, kept exact as the two integers it was taken
/// from.
#[derive(Clone, Copy, Debug, PartialEq, Eq, Structural)]
pub struct AspectRatio {
    pub width: u32,
    pub height: u32,
}

impl AspectRatio {
    /// The aspect ratio of a drawable of size `size`.
    pub open spec fn of(size: Extent) -> AspectRatio {
        AspectRatio { width: size.width, height: size.height }
    }

    /// Whether the ratio is a number: its height is not zero.
    pub open spec fn defined(self) -> bool {
        self.height != 0
    }

    /// Whether this ratio is the number `width / height`, compared exactly
    /// by cross-multiplication.
    pub open spec fn is_ratio(self, width: int, height: int) -> bool {
        &&& self.defined()
        &&& height != 0
        &&& self.width * height == width * self.height
    }

    /// The aspect ratio of a drawable of size `size`.
    pub fn from_extent(size: Extent) -> (ratio: AspectRatio)
        ensures
            ratio == AspectRatio::of(size),
    {
        AspectRatio { width: size.width, height: size.height }
    }
}

/// A perspective camera looking from `eye` towards `target`.
#[derive(Clone, Copy, Debug, PartialEq)]
pub struct PerspectiveCamera<S> {
    pub eye: [S; 3],
    pub target: [S; 3],
    pub up: [S; 3],
    pub aspect_ratio: AspectRatio,
    pub fov_y_rad: S,
    pub z_near: S,
    pub z_far: S,
}

impl<S> PerspectiveCamera<S> {
    /// This camera with its aspect ratio replaced.
    pub open spec fn with_aspect_ratio(self, aspect_ratio: AspectRatio) -> PerspectiveCamera<S> {
        PerspectiveCamera { aspect_ratio, ..self }
    }

    /// This camera with the z coordinate of its eye replaced.
    pub open spec fn with_eye_z(self, z: S) -> PerspectiveCamera<S> {
        PerspectiveCamera { eye: vstd::array::spec_array_update(self.eye, 2, z), ..self }
    }

}

impl<S: Copy> PerspectiveCamera<S> {
    /// Takes the aspect ratio of a drawable of size `size`. No other field
    /// changes.
    pub fn set_aspect_ratio(&mut self, size: Extent)
        ensures
            *final(self) == old(self).with_aspect_ratio(AspectRatio::of(size)),
    {
        self.aspect_ratio = AspectRatio::from_extent(size);
    }

    /// Moves the eye along the z axis to `z`. No other field changes, nor
    /// the eye's x and y.
    pub fn set_eye_z(&mut self, z: S)
        ensures
            *final(self) == old(self).with_eye_z(z),
            final(self).eye@ == old(self).eye@.update(2, z),
    {
        let eye: [S; 3] = [self.eye[0], self.eye[1], z];
        assert(eye@ =~= old(self).eye@.update(2, z));
        assert(eye =~= vstd::array::spec_array_update(old(self).eye, 2, z));
        self.eye = eye;
    }
}

} // verus!
