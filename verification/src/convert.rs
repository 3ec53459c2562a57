//! The color converter: turns a raw BGRA frame into the three-plane I420
//! layout the encoder consumes. The per-plane buffer sizes are computed
//! before allocating, and a frame whose byte count falls short of what its
//! declared dimensions demand is rejected rather than converted.

use vstd::prelude::*;

verus! {

use crate::Dimensions;

/// Pixel layout of a frame's byte buffer.
#[derive(Clone, Copy, PartialEq, Eq, Structural, Debug)]
pub enum PixelFormat {
    /// One plane, four bytes per pixel, blue first.
    Bgra,
    /// Three planes: full-resolution luma, then two chroma planes at half
    /// resolution in each direction.
    I420,
}

/// Color space a frame's samples are expressed in.
#[derive(Clone, Copy, PartialEq, Eq, Structural, Debug)]
pub enum ColorSpace {
    Rgb,
    Bt601,
}

/// A conversion failure; any such failure is fatal to the pipeline.
#[derive(Clone, Copy, PartialEq, Eq, Structural, Debug)]
pub enum ConvertError {
    /// The source frame is not in the one supported layout (BGRA over RGB).
    UnsupportedFormat,
    /// The source buffer holds fewer bytes than its declared dimensions
    /// demand.
    SizeMismatch,
}

/// Bytes of the luma plane of an I420 image of the given dimensions.
pub open spec fn luma_size(width: int, height: int) -> int {
    width * height
}

/// Bytes of one chroma plane of an I420 image of the given dimensions:
/// half the width and half the height, each rounded up.
pub open spec fn chroma_size(width: int, height: int) -> int {
    ((width + 1) / 2) * ((height + 1) / 2)
}

/// The per-plane buffer sizes planned for one frame's dimensions, computed
/// before any buffer is allocated.
#[derive(Clone, Copy, PartialEq, Eq, Structural, Debug)]
pub struct PlanePlan {
    pub y_size: usize,
    pub chroma_size: usize,
}

impl PlanePlan {
    /// The plan holds exactly the sizes the I420 layout demands for `dims`.
    pub open spec fn matches(self, dims: Dimensions) -> bool {
        &&& self.y_size == luma_size(dims.width as int, dims.height as int)
        &&& self.chroma_size == chroma_size(dims.width as int, dims.height as int)
    }

    /// Total bytes over the three planes.
    pub open spec fn total_size(self) -> int {
        self.y_size + 2 * self.chroma_size
    }
}

/// Relies on `dcv_color_primitives::get_buffers_size`: for the three-plane
/// I420 layout with default strides it reports `width * height` bytes for
/// the luma plane and `ceil(width / 2) * ceil(height / 2)` bytes for each
/// of the two chroma planes.
#[verifier::external_body]
fn dcp_i420_buffers_size(width: u32, height: u32) -> (r: (usize, usize))
    requires
        width * height <= usize::MAX,
    ensures
        r.0 == luma_size(width as int, height as int),
        r.1 == chroma_size(width as int, height as int),
{
    let format = dcv_color_primitives::ImageFormat {
        pixel_format: dcv_color_primitives::PixelFormat::I420,
        color_space: dcv_color_primitives::ColorSpace::Bt601,
        num_planes: 3,
    };
    let mut sizes = [0usize; 3];
    let _ = dcv_color_primitives::get_buffers_size(width, height, &format, None, &mut sizes);
    (sizes[0], sizes[1])
}

/// Relies on `dcv_color_primitives::convert_image` for the BGRA-to-I420
/// conversion (BT.601, default strides): it succeeds exactly when the
/// dimensions are zero or every buffer holds at least the bytes the plane
/// layout demands, and it writes pixel data without resizing any buffer.
#[verifier::external_body]
fn dcp_convert_bgra_to_i420(
    width: u32,
    height: u32,
    src: &Vec<u8>,
    y: &mut Vec<u8>,
    u: &mut Vec<u8>,
    v: &mut Vec<u8>,
) -> (ok: bool)
    ensures
        final(y)@.len() == old(y)@.len(),
        final(u)@.len() == old(u)@.len(),
        final(v)@.len() == old(v)@.len(),
        ok <==> (width == 0 || height == 0 || (src@.len() >= 4 * width * height
            && old(y)@.len() >= luma_size(width as int, height as int)
            && old(u)@.len() >= chroma_size(width as int, height as int)
            && old(v)@.len() >= chroma_size(width as int, height as int))),
{
    let src_format = dcv_color_primitives::ImageFormat {
        pixel_format: dcv_color_primitives::PixelFormat::Bgra,
        color_space: dcv_color_primitives::ColorSpace::Rgb,
        num_planes: 1,
    };
    let dst_format = dcv_color_primitives::ImageFormat {
        pixel_format: dcv_color_primitives::PixelFormat::I420,
        color_space: dcv_color_primitives::ColorSpace::Bt601,
        num_planes: 3,
    };
    let dst: &mut [&mut [u8]] = &mut [&mut y[..], &mut u[..], &mut v[..]];
    dcv_color_primitives::convert_image(
        width, height, &src_format, None, &[&src[..]], &dst_format, None, dst,
    )
    .is_ok()
}

/// A raw frame as the frame source yields it: an immutable byte buffer with
/// its declared dimensions and format, consumed exactly once by `convert`.
pub struct RawFrame {
    pub dims: Dimensions,
    pub pixel_format: PixelFormat,
    pub color_space: ColorSpace,
    pub data: Vec<u8>,
}

impl RawFrame {
    /// The frame is in the one source layout the converter supports.
    pub open spec fn format_supported(self) -> bool {
        self.pixel_format is Bgra && self.color_space is Rgb
    }

    /// The buffer holds at least the bytes the declared dimensions demand
    /// of a BGRA frame (four bytes per pixel); frames with a zero dimension
    /// hold no pixels and demand nothing.
    pub open spec fn data_sufficient(self) -> bool {
        ||| self.dims.width == 0
        ||| self.dims.height == 0
        ||| self.data@.len() >= 4 * self.dims.width * self.dims.height
    }

    /// The declared dimensions match the buffer exactly: four bytes per
    /// declared pixel, no more and no fewer.
    pub open spec fn dims_match_data(self) -> bool {
        self.data@.len() == 4 * self.dims.width * self.dims.height
    }
}

/// A converted frame: the three I420 planes (BT.601), each exactly the size
/// the plane plan demands for the frame's dimensions.
pub struct ConvertedFrame {
    pub dims: Dimensions,
    pub y: Vec<u8>,
    pub u: Vec<u8>,
    pub v: Vec<u8>,
}

impl ConvertedFrame {
    /// The plane sizes match the frame's dimensions exactly; a mismatch is
    /// a hard conversion failure and no such value is ever built.
    pub open spec fn wf(self) -> bool {
        &&& self.y@.len() == luma_size(self.dims.width as int, self.dims.height as int)
        &&& self.u@.len() == chroma_size(self.dims.width as int, self.dims.height as int)
        &&& self.v@.len() == chroma_size(self.dims.width as int, self.dims.height as int)
    }

    /// Reduces the three planes to one contiguous buffer, luma first.
    pub fn into_contiguous(self) -> (r: Vec<u8>)
        ensures
            r@ == self.y@ + self.u@ + self.v@,
    {
        let ConvertedFrame { dims: _, y, u, v } = self;
        let mut data = y;
        let mut u = u;
        let mut v = v;
        data.append(&mut u);
        data.append(&mut v);
        data
    }
}

/// Computes the per-plane buffer sizes for one frame's dimensions.
pub fn compute_plan(dims: Dimensions) -> (p: PlanePlan)
    requires
        dims.width * dims.height <= usize::MAX,
    ensures
        p.matches(dims),
{
    let (y_size, chroma_size) = dcp_i420_buffers_size(dims.width, dims.height);
    PlanePlan { y_size, chroma_size }
}

/// Converts a raw BGRA frame into a fresh three-plane I420 frame.
///
/// The call is pure and stateless: it allocates fresh output buffers sized
/// by the plane plan for the frame's declared dimensions, and fails rather
/// than convert a frame whose buffer falls short of those dimensions.
pub fn convert(frame: &RawFrame) -> (r: Result<ConvertedFrame, ConvertError>)
    requires
        frame.dims.width * frame.dims.height <= usize::MAX,
    ensures
        match r {
            Ok(cf) => {
                &&& frame.format_supported()
                &&& frame.data_sufficient()
                &&& cf.dims == frame.dims
                &&& cf.wf()
            },
            Err(ConvertError::UnsupportedFormat) => !frame.format_supported(),
            Err(ConvertError::SizeMismatch) => frame.format_supported()
                && !frame.data_sufficient(),
        },
        frame.format_supported() && frame.dims_match_data() ==> r is Ok,
{
    match (frame.pixel_format, frame.color_space) {
        (PixelFormat::Bgra, ColorSpace::Rgb) => (),
        _ => {
            return Err(ConvertError::UnsupportedFormat);
        },
    }
    let plan = compute_plan(frame.dims);
    let mut y: Vec<u8> = vec![0u8; plan.y_size];
    let mut u: Vec<u8> = vec![0u8; plan.chroma_size];
    let mut v: Vec<u8> = vec![0u8; plan.chroma_size];
    let ok = dcp_convert_bgra_to_i420(
        frame.dims.width,
        frame.dims.height,
        &frame.data,
        &mut y,
        &mut u,
        &mut v,
    );
    if ok {
        Ok(ConvertedFrame { dims: frame.dims, y, u, v })
    } else {
        Err(ConvertError::SizeMismatch)
    }
}

} // verus!
