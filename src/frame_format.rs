use vstd::prelude::*;

verus! {

/// Describes a frame format (how the bytes of a frame are encoded). Often called `FourCC`.
#[derive(Copy, Clone, Debug, Hash, Ord, PartialOrd, Eq, PartialEq, Structural)]
pub enum FrameFormat {
    H265,
    H264,
    Avc1,
    H263,
    Av1,
    Mpeg1,
    Mpeg2,
    Mpeg4,
    MJpeg,
    XVid,
    VP8,
    VP9,
    Ayuv444,
    Yuyv422,
    Uyvy422,
    Yvyu422,
    Yv12,
    Nv12,
    Nv21,
    I420,
    Yvu9,
    Luma8,
    Luma16,
    Depth16,
    Rgb332,
    Rgb555,
    Rgb565,
    Rgb888,
    Bgr888,
    RgbA8888,
    BgrA8888,
    ARgb8888,
    Bayer8,
    Bayer16,
    /// A format named by an eight-byte tag of its own, packed with the first
    /// byte most significant.
    Custom(u64),
}

} // verus!
