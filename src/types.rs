use crate::frame_format::FrameFormat;
use crate::ranges::{admits_int, Range, ValidatableRange};
use vstd::prelude::*;

verus! {

/// Frames per second.
pub type FrameRate = u32;

/// Width and height of a frame, in pixels.
///
/// Ordered by width first, then height.
#[derive(Copy, Clone, Debug, Hash, PartialEq, Eq, Structural, PartialOrd, Ord)]
pub struct Resolution {
    pub width_x: u32,
    pub height_y: u32,
}

impl Resolution {
    pub fn new(x: u32, y: u32) -> (r: Self)
        ensures
            r.width_x == x,
            r.height_y == y,
    {
        Resolution { width_x: x, height_y: y }
    }

    pub fn width(&self) -> (r: u32)
        ensures
            r == self.width_x,
    {
        self.width_x
    }

    pub fn height(&self) -> (r: u32)
        ensures
            r == self.height_y,
    {
        self.height_y
    }

    /// Position of this resolution in its natural order (width, then height).
    pub open spec fn rank(self) -> int {
        self.width_x as int * 0x1_0000_0000 + self.height_y as int
    }

    /// Manhattan distance between two resolutions.
    pub open spec fn spec_distance(self, other: Resolution) -> int {
        crate::ranges::abs(self.width_x - other.width_x) + crate::ranges::abs(
            self.height_y - other.height_y,
        )
    }

    /// Distance to another resolution: the sum of the differences in width and in height.
    pub fn distance_from(&self, other: &Resolution) -> (r: u64)
        ensures
            r as int == self.spec_distance(*other),
    {
        let dw: u64 = if self.width_x >= other.width_x {
            (self.width_x - other.width_x) as u64
        } else {
            (other.width_x - self.width_x) as u64
        };
        let dh: u64 = if self.height_y >= other.height_y {
            (self.height_y - other.height_y) as u64
        } else {
            (other.height_y - self.height_y) as u64
        };
        dw + dh
    }
}

/// The width part of an optional resolution step.
pub open spec fn width_step(step: Option<Resolution>) -> Option<int> {
    match step {
        Some(s) => Some(s.width_x as int),
        None => None,
    }
}

/// The height part of an optional resolution step.
pub open spec fn height_step(step: Option<Resolution>) -> Option<int> {
    match step {
        Some(s) => Some(s.height_y as int),
        None => None,
    }
}

/// A range of resolutions bounds width and height each on its own: both must lie
/// within their bounds, and on their step if one is set.
impl ValidatableRange for Range<Resolution> {
    type Validation = Resolution;

    open spec fn admits(&self, value: Resolution) -> bool {
        &&& admits_int(
            self.minimum.width_x as int,
            self.lower_inclusive,
            self.maximum.width_x as int,
            self.upper_inclusive,
            width_step(self.step),
            value.width_x as int,
        )
        &&& admits_int(
            self.minimum.height_y as int,
            self.lower_inclusive,
            self.maximum.height_y as int,
            self.upper_inclusive,
            height_step(self.step),
            value.height_y as int,
        )
    }

    fn validate(&self, value: &Resolution) -> (r: bool) {
        let (w_step, h_step) = match self.step {
            Some(s) => (Some(s.width_x as i128), Some(s.height_y as i128)),
            None => (None, None),
        };
        crate::ranges::check_int(
            self.minimum.width_x as i128,
            self.lower_inclusive,
            self.maximum.width_x as i128,
            self.upper_inclusive,
            w_step,
            value.width_x as i128,
        ) && crate::ranges::check_int(
            self.minimum.height_y as i128,
            self.lower_inclusive,
            self.maximum.height_y as i128,
            self.upper_inclusive,
            h_step,
            value.height_y as i128,
        )
    }
}

/// A resolution, an encoding and a frame rate that a device can capture in.
#[derive(Copy, Clone, Debug, Hash, PartialEq, Eq, Structural)]
pub struct CameraFormat {
    pub resolution: Resolution,
    pub format: FrameFormat,
    pub frame_rate: FrameRate,
}

impl CameraFormat {
    pub fn new(resolution: Resolution, format: FrameFormat, frame_rate: FrameRate) -> (r: Self)
        ensures
            r == (CameraFormat { resolution, format, frame_rate }),
    {
        CameraFormat { resolution, format, frame_rate }
    }

    pub fn resolution(&self) -> (r: Resolution)
        ensures
            r == self.resolution,
    {
        self.resolution
    }

    pub fn format(&self) -> (r: FrameFormat)
        ensures
            r == self.format,
    {
        self.format
    }

    pub fn frame_rate(&self) -> (r: FrameRate)
        ensures
            r == self.frame_rate,
    {
        self.frame_rate
    }

    pub fn width(&self) -> (r: u32)
        ensures
            r == self.resolution.width_x,
    {
        self.resolution.width_x
    }

    pub fn height(&self) -> (r: u32)
        ensures
            r == self.resolution.height_y,
    {
        self.resolution.height_y
    }
}

} // verus!
