//! Point lights.

use vstd::prelude::*;
use crate::color::Color;
use crate::fixed::fx_wf;
use crate::vec3::Vec3;

verus! {

/// A point light; contributions of several lights are summed, so their
/// order in a scene does not matter.
#[derive(Clone, Copy, Debug, PartialEq, Eq, Structural)]
pub struct Light {
    pub position: Vec3,
    pub color: Color,
    pub intensity: i64,
}

impl Light {
    pub open spec fn wf(&self) -> bool {
        self.position.wf() && self.color.wf() && fx_wf(self.intensity)
    }

    pub fn new(position: Vec3, color: Color, intensity: i64) -> (l: Light)
        ensures
            l == (Light { position, color, intensity }),
    {
        Light { position, color, intensity }
    }
}

} // verus!
