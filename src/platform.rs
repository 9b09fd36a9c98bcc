use crate::camera::Camera;
use crate::error::NokhwaError;
use vstd::prelude::*;

verus! {

/// The backends a camera can be reached through.
#[derive(Copy, Clone, Debug, PartialEq, Eq)]
pub enum Backends {
    Video4Linux2,
    WebWASM,
    AVFoundation,
    MicrosoftMediaFoundation,
    OpenCV,
    Custom(&'static str),
}

/// How a backend identifies a device: by number or by path.
#[derive(Clone, Debug, PartialEq, Eq)]
pub enum CameraIndex {
    Index(u32),
    String(String),
}

/// What a backend reports of a device.
#[derive(Clone, Debug)]
pub struct CameraInformation {
    pub human_name: String,
    pub description: String,
    pub misc: String,
    pub index: CameraIndex,
}

impl CameraInformation {
    pub fn new(human_name: String, description: String, misc: String, index: CameraIndex) -> (r: Self)
        ensures
            r.human_name@ == human_name@,
            r.description@ == description@,
            r.misc@ == misc@,
            r.index == index,
    {
        CameraInformation { human_name, description, misc, index }
    }
}

/// A backend: it finds devices and opens them.
pub trait PlatformTrait {
    /// The device handle this backend opens.
    type Camera: Camera;

    /// Which backend this is.
    fn platform(&self) -> Backends;

    /// Waits until the user has granted access to cameras, or fails.
    fn block_on_permission(&mut self) -> Result<(), NokhwaError>;

    /// Whether access to cameras has been granted.
    fn check_permission_given(&mut self) -> bool;

    /// The devices this backend can see.
    fn query(&mut self) -> Result<Vec<CameraInformation>, NokhwaError>;

    /// Opens a device; fails with an `OpenDeviceError` naming the index.
    fn open(&mut self, index: &CameraIndex) -> Result<Self::Camera, NokhwaError>;
}

} // verus!
