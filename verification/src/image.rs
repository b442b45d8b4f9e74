//! Decoded raster images and the default decoder.
//!
//! A decoded image is shared across many consumers through an atomically
//! reference-counted, immutable handle; cloning the handle never copies the
//! pixels. The default decoder hands the encoded bytes to stb and then
//! rearranges each four-byte pixel into RGBA order.

use std::sync::Arc;
use vstd::prelude::*;

verus! {

/// The mathematical value of an [`Image`].
pub ghost struct ImageView {
    pub width: nat,
    pub height: nat,
    pub depth: nat,
    pub data: Seq<u8>,
}

/// A decoded raster image. The pixels are never mutated after decoding.
pub struct Image {
    pub width: usize,
    pub height: usize,
    pub depth: usize,
    pub data: Vec<u8>,
}

impl View for Image {
    type V = ImageView;

    open spec fn view(&self) -> ImageView {
        ImageView {
            width: self.width as nat,
            height: self.height as nat,
            depth: self.depth as nat,
            data: self.data@,
        }
    }
}

impl DeepView for Image {
    type V = ImageView;

    open spec fn deep_view(&self) -> ImageView {
        self.view()
    }
}

/// Hand out a new strong reference to a shared image.
///
/// Relies on `Arc::clone` from std: the result is a handle to the same
/// allocation, so it carries the same image value.
#[verifier::external_body]
pub fn clone_image_handle(image: &Arc<Image>) -> (r: Arc<Image>)
    ensures
        r == *image,
{
    image.clone()
}

/// What stb's decoder yields for a given byte buffer, forced to four
/// channels. Decoding depends on the bytes alone, so the result can be
/// named even though it takes pages to state.
pub uninterp spec fn stb_decoded(buffer: Seq<u8>) -> Option<ImageView>;

/// Relies on stb_image's `load_from_memory_with_depth`, forcing four output
/// channels: it decodes the buffer alone, and on success returns a raster of
/// `width * height` four-byte pixels.
#[verifier::external_body]
fn stb_load_four_channel(buffer: &[u8]) -> (r: Option<Image>)
    ensures
        r.deep_view() == stb_decoded(buffer@),
        r matches Some(img) ==> img.depth == 4 && img.data.len() == img.width * img.height * 4,
{
    match stb_image::image::load_from_memory_with_depth(buffer, 4, false) {
        stb_image::image::LoadResult::ImageU8(img) => Some(Image {
            width: img.width,
            height: img.height,
            depth: img.depth,
            data: img.data,
        }),
        stb_image::image::LoadResult::ImageF32(_) => None,
        stb_image::image::LoadResult::Error(_) => None,
    }
}

/// One output byte of the colour-order conversion: the stb raster carries
/// each pixel in the opposite colour order, and the alpha byte is forced to
/// fully opaque.
pub open spec fn converted_byte(data: Seq<u8>, i: int) -> u8 {
    let pixel = i / 4;
    if i % 4 == 0 {
        data[pixel * 4 + 2]
    } else if i % 4 == 1 {
        data[pixel * 4 + 1]
    } else if i % 4 == 2 {
        data[pixel * 4]
    } else {
        0xff
    }
}

/// The colour-order conversion over a whole raster.
pub open spec fn converted_data(data: Seq<u8>) -> Seq<u8> {
    Seq::new(data.len(), |i: int| converted_byte(data, i))
}

/// What the decoder makes of a raw raster: a well-formed four-channel image
/// has its pixels reordered; anything else is rejected.
pub open spec fn convert_model(raw: ImageView) -> Option<ImageView> {
    if raw.depth == 4 && raw.data.len() == raw.width * raw.height * 4 {
        Some(ImageView { width: raw.width, height: raw.height, depth: raw.depth, data: converted_data(raw.data) })
    } else {
        None
    }
}

/// What [`load_from_memory`] returns for a given buffer.
pub open spec fn load_model(buffer: Seq<u8>) -> Option<ImageView> {
    match stb_decoded(buffer) {
        Some(raw) => convert_model(raw),
        None => None,
    }
}

/// Reorder the colour channels of a decoded raster. Rejects rasters that are
/// not four bytes per pixel or whose buffer does not match their dimensions.
pub fn convert_decoded(raw: Image) -> (r: Option<Image>)
    ensures
        r.deep_view() == convert_model(raw@),
{
    if raw.depth != 4 {
        return None;
    }
    let len = raw.data.len();
    let pixels = match raw.width.checked_mul(raw.height) {
        Some(p) => p,
        None => {
            proof {
                assert(raw@.width * raw@.height * 4 >= raw@.width * raw@.height) by (nonlinear_arith);
            }
            return None;
        },
    };
    let n = match pixels.checked_mul(4) {
        Some(n) => n,
        None => {
            return None;
        },
    };
    if len != n {
        return None;
    }
    let mut data: Vec<u8> = Vec::new();
    let mut i: usize = 0;
    while i < n
        invariant
            n == raw.data@.len(),
            n == raw@.width * raw@.height * 4,
            i <= n,
            n % 4 == 0,
            data@.len() == i,
            forall|j: int| 0 <= j < i ==> data@[j] == converted_byte(raw.data@, j),
        decreases n - i,
    {
        let pixel = i / 4;
        let color = i % 4;
        proof {
            assert(pixel * 4 + color == i);
            assert(i + (4 - color) <= n);
        }
        let byte = if color == 0 {
            raw.data[pixel * 4 + 2]
        } else if color == 1 {
            raw.data[pixel * 4 + 1]
        } else if color == 2 {
            raw.data[pixel * 4]
        } else {
            0xff
        };
        data.push(byte);
        i = i + 1;
    }
    let out = Image { width: raw.width, height: raw.height, depth: raw.depth, data };
    proof {
        assert(out@.data =~= converted_data(raw@.data));
    }
    Some(out)
}

/// Decode an encoded image from memory: stb decodes the bytes, and the
/// raster is reordered into RGBA. Returns `None` when decoding fails.
pub fn load_from_memory(buffer: &Vec<u8>) -> (r: Option<Image>)
    ensures
        r.deep_view() == load_model(buffer@),
{
    match stb_load_four_channel(buffer.as_slice()) {
        Some(raw) => convert_decoded(raw),
        None => None,
    }
}

/// Length of the byte buffer that [`test_image_bin`] returns.
pub const TEST_IMAGE_LEN: usize = 4962;

/// The byte at each position of the buffer that [`test_image_bin`] returns.
pub open spec fn test_image_byte(i: int) -> u8 {
    (i % 251) as u8
}

/// A fixed byte buffer that stands in for an encoded image binary in tests.
pub fn test_image_bin() -> (r: Vec<u8>)
    ensures
        r@.len() == TEST_IMAGE_LEN,
        forall|i: int| 0 <= i < r@.len() ==> r@[i] == test_image_byte(i),
{
    let mut data: Vec<u8> = Vec::new();
    let mut i: usize = 0;
    while i < TEST_IMAGE_LEN
        invariant
            i <= TEST_IMAGE_LEN,
            data@.len() == i,
            forall|j: int| 0 <= j < i ==> data@[j] == test_image_byte(j),
        decreases TEST_IMAGE_LEN - i,
    {
        data.push((i % 251) as u8);
        i = i + 1;
    }
    data
}

} // verus!
