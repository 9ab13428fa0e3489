//! The resize decision and the transcoding of a decoded picture.

use vstd::prelude::*;
use vstd::string::*;
use crate::codec::{
    block_fits,
    encode_webp,
    load_rgba,
    thumbnail,
    thumbnail_fits,
    thumbnail_rgba,
    webp_lossless,
    DecodedImage,
};
use crate::config::{is_resizable_extension, resizable_extension};

verus! {

/// Whether a picture is shrunk: its extension is one that is resized, and it
/// is wider than asked for.
pub fn should_resize(extension: &str, decoded_width: u32, requested_width: u32) -> (yes: bool)
    ensures
        yes == (resizable_extension(extension@) && decoded_width > requested_width),
{
    is_resizable_extension(extension) && decoded_width > requested_width
}

/// The size of the thumbnail of a `width` by `height` picture for a requested
/// width: never wider than the picture, the height in proportion, rounded
/// down.
pub open spec fn thumbnail_dims(width: u32, height: u32, requested: u32) -> (int, int) {
    let new_width = if width <= requested { width as int } else { requested as int };
    (new_width, height as int * new_width / width as int)
}

/// The thumbnail is no larger than the picture, and keeps its proportions up
/// to the rounding of the height.
pub proof fn lemma_thumbnail_dims(width: u32, height: u32, requested: u32)
    requires
        width > 0,
    ensures
        thumbnail_dims(width, height, requested).0 <= width,
        thumbnail_dims(width, height, requested).0 <= requested,
        thumbnail_dims(width, height, requested).0 == width || thumbnail_dims(
            width,
            height,
            requested,
        ).0 == requested,
        0 <= thumbnail_dims(width, height, requested).1 <= height,
        thumbnail_dims(width, height, requested).1 * width <= height * thumbnail_dims(
            width,
            height,
            requested,
        ).0 < (thumbnail_dims(width, height, requested).1 + 1) * width,
        thumbnail_dims(width, height, requested).0 * thumbnail_dims(width, height, requested).1
            <= width * height,
{
    let w = width as int;
    let h = height as int;
    let nw = thumbnail_dims(width, height, requested).0;
    let nh = thumbnail_dims(width, height, requested).1;
    assert(nh == (h * nw) / w);
    assert(0 <= h * nw <= h * w) by (nonlinear_arith)
        requires
            0 <= nw <= w,
            0 <= h,
    ;
    assert(nh * w <= h * nw < (nh + 1) * w && 0 <= nh <= h) by (nonlinear_arith)
        requires
            nh == (h * nw) / w,
            w > 0,
            0 <= h * nw <= h * w,
    ;
    assert(nw * nh <= w * h) by (nonlinear_arith)
        requires
            0 <= nw <= w,
            0 <= nh <= h,
    ;
}

/// Computes the size of the thumbnail.
pub fn thumbnail_size(width: u32, height: u32, requested: u32) -> (dims: (u32, u32))
    requires
        width > 0,
    ensures
        (dims.0 as int, dims.1 as int) == thumbnail_dims(width, height, requested),
        dims.0 <= width,
        dims.1 <= height,
{
    proof {
        lemma_thumbnail_dims(width, height, requested);
    }
    let new_width: u32 = if width <= requested { width } else { requested };
    assert((height as u64) * (new_width as u64) <= 0xffff_ffff * 0xffff_ffff) by (nonlinear_arith)
        requires
            height <= 0xffff_ffff,
            new_width <= 0xffff_ffff,
    ;
    let scaled: u64 = (height as u64) * (new_width as u64) / (width as u64);
    (new_width, scaled as u32)
}

/// Decodes the bytes of an image file, whatever its format, to RGBA. What
/// comes back is the decoder's to say; a picture that does come back holds
/// four samples for each pixel.
pub fn decode(bytes: &[u8]) -> (outcome: Result<DecodedImage, String>)
    ensures
        outcome matches Ok(img) ==> img.wf(),
{
    match load_rgba(bytes) {
        Err(cause) => Err(cause),
        Ok((width, height, pixels)) => match DecodedImage::new(width, height, pixels) {
            Some(img) => Ok(img),
            None => Err(String::from_str("the samples do not fill the picture")),
        },
    }
}

/// What transcoding makes of a picture: the WebP file of its thumbnail, or
/// why there is none.
pub open spec fn transcoding(pixels: Seq<u8>, width: u32, height: u32, requested: u32) -> Result<
    Seq<u8>,
    Seq<char>,
> {
    let dims = thumbnail_dims(width, height, requested);
    if !block_fits(width, height, dims.0 as u32, dims.1 as u32) {
        Err("Failed to resize image: the picture is too large for the requested width"@)
    } else {
        let small = thumbnail_rgba(pixels, width, height, dims.0 as u32, dims.1 as u32);
        match webp_lossless(small, dims.0 as u32, dims.1 as u32) {
            Ok(data) => Ok(data),
            Err(e) => Err("Failed to encode image to webp: "@ + e),
        }
    }
}

/// The outcome of a transcoding as plain values.
pub open spec fn transcoded_of(transcoded: Result<Vec<u8>, String>) -> Result<Seq<u8>, Seq<char>> {
    match transcoded {
        Ok(data) => Ok(data@),
        Err(e) => Err(e@),
    }
}

/// Names the failure of an encoder.
pub fn encoding_outcome(encoded: Result<Vec<u8>, String>) -> (outcome: Result<Vec<u8>, String>)
    ensures
        match (encoded, outcome) {
            (Ok(a), Ok(b)) => a == b,
            (Err(e), Err(m)) => m@ == "Failed to encode image to webp: "@ + e@,
            _ => false,
        },
{
    match encoded {
        Ok(data) => Ok(data),
        Err(e) => Err(String::from_str("Failed to encode image to webp: ").concat(e.as_str())),
    }
}

/// Shrinks a picture to the requested width, or keeps it where it is
/// narrower, and encodes the result as lossless WebP. A picture whose blocks
/// are too large to be averaged is refused.
pub fn resize_image_to_webp(img: &DecodedImage, width: u32) -> (outcome: Result<Vec<u8>, String>)
    requires
        img.wf(),
        img.width > 0,
    ensures
        transcoded_of(outcome) == transcoding(img.pixels@, img.width, img.height, width),
{
    let (new_width, new_height) = thumbnail_size(img.width, img.height, width);
    if !thumbnail_fits(img.width, img.height, new_width, new_height) {
        return Err(
            String::from_str(
                "Failed to resize image: the picture is too large for the requested width",
            ),
        );
    }
    let held: usize = img.pixels.len();
    proof {
        lemma_thumbnail_dims(img.width, img.height, width);
        assert(new_width as int * new_height as int * 4 <= held);
    }
    let small = thumbnail(img, new_width, new_height);
    encoding_outcome(encode_webp(small.pixels.as_slice(), new_width, new_height))
}

/// Transcoding the same picture to the same width twice gives the same
/// bytes, or the same failure.
pub proof fn lemma_same_picture_same_transcoding(
    first: Result<Vec<u8>, String>,
    second: Result<Vec<u8>, String>,
    pixels: Seq<u8>,
    width: u32,
    height: u32,
    requested: u32,
)
    requires
        transcoded_of(first) == transcoding(pixels, width, height, requested),
        transcoded_of(second) == transcoding(pixels, width, height, requested),
    ensures
        transcoded_of(first) == transcoded_of(second),
{
}

} // verus!
