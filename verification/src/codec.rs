//! The image codec: decoding, thumbnails and WebP encoding, done by the
//! `image` crate on plain pixel buffers.

use vstd::prelude::*;

verus! {

/// A decoded picture: RGBA samples of eight bits, row by row from the top.
#[derive(Clone, Debug, PartialEq, Eq)]
pub struct DecodedImage {
    /// Pixels in a row.
    pub width: u32,
    /// Rows.
    pub height: u32,
    /// Four samples for each pixel.
    pub pixels: Vec<u8>,
}

impl DecodedImage {
    /// The buffer holds exactly the samples of `width` by `height` pixels.
    pub open spec fn wf(&self) -> bool {
        self.pixels@.len() == self.width as int * self.height as int * 4
    }

    /// A picture from its samples, where their number fits the dimensions.
    pub fn new(width: u32, height: u32, pixels: Vec<u8>) -> (img: Option<DecodedImage>)
        ensures
            match img {
                Some(i) => i.wf() && i.width == width && i.height == height && i.pixels@
                    == pixels@,
                None => pixels@.len() != width as int * height as int * 4,
            },
    {
        assert((width as u128) * (height as u128) <= 0xffff_ffff * 0xffff_ffff)
            by (nonlinear_arith)
            requires
                width <= 0xffff_ffff,
                height <= 0xffff_ffff,
        ;
        let wanted: u128 = (width as u128) * (height as u128) * 4;
        if pixels.len() as u128 == wanted {
            Some(DecodedImage { width, height, pixels })
        } else {
            None
        }
    }
}

/// Whether a thumbnail of `new_width` by `new_height` can be averaged from a
/// picture of `width` by `height` in 32 bits. Each pixel of the thumbnail is
/// the average of a block of the picture, whose samples are summed up first;
/// a block is at most four pixels wider and higher than the ratio of the
/// sizes, and a sample at most 255. Sides above 2^22 are left out, since the
/// block's corners are computed in single precision. A thumbnail without
/// pixels needs no sum.
pub open spec fn block_fits(width: u32, height: u32, new_width: u32, new_height: u32) -> bool {
    new_width == 0 || new_height == 0 || (width <= 0x40_0000 && height <= 0x40_0000
        && new_width <= width && new_height <= height && (width / new_width + 4) * (height
        / new_height + 4) * 256 <= 0xffff_ffff)
}

/// Computes `block_fits`.
pub fn thumbnail_fits(width: u32, height: u32, new_width: u32, new_height: u32) -> (fits: bool)
    ensures
        fits == block_fits(width, height, new_width, new_height),
{
    if new_width == 0 || new_height == 0 {
        return true;
    }
    if width > 0x40_0000 || height > 0x40_0000 || new_width > width || new_height > height {
        return false;
    }
    let across: u64 = (width / new_width) as u64 + 4;
    let down: u64 = (height / new_height) as u64 + 4;
    assert(across * down <= 0x40_0004 * 0x40_0004) by (nonlinear_arith)
        requires
            0 <= across <= 0x40_0004,
            0 <= down <= 0x40_0004,
    ;
    across * down * 256 <= 0xffff_ffff
}

/// The samples that `image::imageops::thumbnail` computes from an RGBA
/// picture of `width` by `height` for the size `new_width` by `new_height`.
pub uninterp spec fn thumbnail_rgba(
    pixels: Seq<u8>,
    width: u32,
    height: u32,
    new_width: u32,
    new_height: u32,
) -> Seq<u8>;

/// The lossless WebP file that `image`'s encoder writes for an RGBA picture,
/// or the encoder's complaint.
pub uninterp spec fn webp_lossless(pixels: Seq<u8>, width: u32, height: u32) -> Result<
    Seq<u8>,
    Seq<char>,
>;

/// Calls `image::load_from_memory`, which guesses the format from the bytes
/// and decodes them, and hands the picture on as width, height and RGBA
/// samples (`DynamicImage::into_rgba8`), or the decoder's complaint. Nothing
/// is claimed of the outcome: which decoder reads the bytes depends on what
/// the process has registered with the crate.
#[verifier::external_body]
pub(crate) fn load_rgba(bytes: &[u8]) -> (loaded: Result<(u32, u32, Vec<u8>), String>) {
    match image::load_from_memory(bytes) {
        Ok(img) => {
            let rgba = img.into_rgba8();
            Ok((rgba.width(), rgba.height(), rgba.into_raw()))
        },
        Err(e) => Err(e.to_string()),
    }
}

/// Calls `image::imageops::thumbnail` on the picture's samples. Trusted: the
/// result has the size asked for, four samples for each pixel, and is the
/// named function of the arguments. The function panics where the length of
/// the new buffer overflows `usize`, and where the 32-bit sum of a block's
/// samples overflows; `requires` leaves both out.
#[verifier::external_body]
pub(crate) fn thumbnail(img: &DecodedImage, new_width: u32, new_height: u32) -> (small:
    DecodedImage)
    requires
        img.wf(),
        new_width as int * new_height as int * 4 <= usize::MAX,
        block_fits(img.width, img.height, new_width, new_height),
    ensures
        small.wf(),
        small.width == new_width,
        small.height == new_height,
        small.pixels@ == thumbnail_rgba(img.pixels@, img.width, img.height, new_width, new_height),
{
    let samples: &[u8] = img.pixels.as_slice();
    let source = image::ImageBuffer::<image::Rgba<u8>, &[u8]>::from_raw(
        img.width,
        img.height,
        samples,
    ).unwrap();
    let small = image::imageops::thumbnail(&source, new_width, new_height);
    DecodedImage { width: new_width, height: new_height, pixels: small.into_raw() }
}

/// Calls `WebPEncoder::new_lossless(..).encode(..)` of `image` with the colour
/// type RGBA8, writing into a fresh buffer. Trusted: the outcome is the named
/// function of the arguments. The encoder panics unless the buffer holds four
/// samples for each pixel, which `requires` asks for.
#[verifier::external_body]
pub(crate) fn encode_webp(pixels: &[u8], width: u32, height: u32) -> (encoded: Result<
    Vec<u8>,
    String,
>)
    requires
        pixels@.len() == width as int * height as int * 4,
    ensures
        match encoded {
            Ok(data) => webp_lossless(pixels@, width, height) == Ok::<Seq<u8>, Seq<char>>(data@),
            Err(e) => webp_lossless(pixels@, width, height) == Err::<Seq<u8>, Seq<char>>(e@),
        },
{
    let mut buf = Vec::new();
    let encoder = image::codecs::webp::WebPEncoder::new_lossless(&mut buf);
    match encoder.encode(pixels, width, height, image::ExtendedColorType::Rgba8) {
        Ok(()) => Ok(buf),
        Err(e) => Err(e.to_string()),
    }
}

} // verus!
