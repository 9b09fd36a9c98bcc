use crate::control::{ControlId, ControlValue, Controls};
use crate::error::NokhwaError;
use crate::frame_format::FrameFormat;
use crate::stream::StreamHandle;
use crate::types::{CameraFormat, FrameRate, Resolution};
use vstd::prelude::*;

verus! {

/// Formats and controls of an open device.
pub trait Setting {
    /// Every resolution, frame format and frame rate the device supports.
    fn enumerate_formats(&self) -> Result<Vec<CameraFormat>, NokhwaError>;

    /// The resolutions of one frame format, each with its frame rates; empty when the
    /// device reports none.
    fn enumerate_resolution_and_frame_rates(
        &self,
        frame_format: FrameFormat,
    ) -> Result<Vec<(Resolution, Vec<FrameRate>)>, NokhwaError>;

    /// Makes the format the active one.
    fn set_format(&mut self, camera_format: CameraFormat) -> Result<(), NokhwaError>;

    /// The controls of the device.
    fn controls(&self) -> &Controls;

    /// Writes the value of a control.
    fn set_control(&mut self, property: &ControlId, value: ControlValue) -> Result<(), NokhwaError>;

    /// Reads the controls from the device again, replacing them as a whole.
    fn refresh_controls(&mut self) -> Result<(), NokhwaError>;
}

/// Streaming from an open device. At most one stream is open at a time.
pub trait Capture {
    /// Opens the stream; fails when one is already open.
    fn open_stream(&mut self) -> Result<StreamHandle, NokhwaError>;

    /// Closes the stream; closing a closed stream does nothing.
    fn close_stream(&mut self) -> Result<(), NokhwaError>;
}

/// An open device.
pub trait Camera: Setting + Capture {

}

} // verus!
