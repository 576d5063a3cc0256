//! Checking an uploaded image and turning it into the stored format.
use vstd::prelude::*;

verus! {

/// Width every thumbnail must have.
pub const IMAGE_WIDTH: u32 = 1920;

/// Height every thumbnail must have.
pub const IMAGE_HEIGHT: u32 = 1080;

/// Largest side that the WebP format can hold.
pub const WEBP_MAX_SIDE: u32 = 16383;

/// A decoded image as rows of 8-bit red, green and blue samples.
pub struct RgbFrame {
    pub width: u32,
    pub height: u32,
    pub pixels: Vec<u8>,
}

/// What decoding `data` gives: width, height and RGB samples, or nothing where
/// the bytes are not an image in a known format.
pub uninterp spec fn decoded_rgb(data: Seq<u8>) -> Option<(u32, u32, Seq<u8>)>;

/// The lossless WebP encoding of RGB samples of the given size.
pub uninterp spec fn webp_lossless(rgb: Seq<u8>, width: u32, height: u32) -> Seq<u8>;

/// Relies on image::load_from_memory, which guesses the format from the bytes
/// and decodes them, and on DynamicImage::into_rgb8, whose buffer holds three
/// samples for each pixel. The error is the decoder's message.
#[verifier::external_body]
fn decode_rgb(data: &[u8]) -> (r: Result<RgbFrame, String>)
    ensures
        match r {
            Ok(f) => decoded_rgb(data@) == Some((f.width, f.height, f.pixels@)),
            Err(_) => decoded_rgb(data@) is None,
        },
        r matches Ok(f) ==> f.pixels@.len() == f.width * f.height * 3,
{
    match image::load_from_memory(data) {
        Ok(img) => {
            let width = img.width();
            let height = img.height();
            Ok(RgbFrame { width, height, pixels: img.into_rgb8().into_raw() })
        },
        Err(e) => Err(e.to_string()),
    }
}

/// Relies on webp::Encoder::from_rgb and encode_lossless. The encoder panics on
/// a buffer shorter than the size asks for and fails on a side of zero or over
/// the format's maximum, so those inputs are excluded.
#[verifier::external_body]
fn encode_webp_lossless(rgb: &[u8], width: u32, height: u32) -> (r: Vec<u8>)
    requires
        rgb@.len() == width * height * 3,
        1 <= width <= WEBP_MAX_SIDE,
        1 <= height <= WEBP_MAX_SIDE,
    ensures
        r@ == webp_lossless(rgb@, width, height),
{
    webp::Encoder::from_rgb(rgb, width, height).encode_lossless().to_vec()
}

/// Why an upload is not a usable thumbnail.
#[derive(Debug, Clone, PartialEq, Eq)]
pub enum ImageRejection {
    /// The bytes could not be decoded; the decoder's message.
    Undecodable(String),
    /// The image decoded but has the wrong size.
    WrongSize { width: u32, height: u32 },
}

/// Whether a decoding result has the fixed thumbnail size.
pub open spec fn has_thumbnail_size(decoded: Option<(u32, u32, Seq<u8>)>) -> bool {
    decoded matches Some((w, h, _)) && w == IMAGE_WIDTH && h == IMAGE_HEIGHT
}

/// Takes a decoding result and keeps the frame only where it has the fixed
/// thumbnail size.
pub fn screen_frame(decoded: Result<RgbFrame, String>) -> (r: Result<RgbFrame, ImageRejection>)
    ensures
        match decoded {
            Err(msg) => r == Err::<RgbFrame, ImageRejection>(ImageRejection::Undecodable(msg)),
            Ok(f) => if f.width == IMAGE_WIDTH && f.height == IMAGE_HEIGHT {
                r == Ok::<RgbFrame, ImageRejection>(f)
            } else {
                r == Err::<RgbFrame, ImageRejection>(
                    ImageRejection::WrongSize { width: f.width, height: f.height },
                )
            },
        },
{
    match decoded {
        Err(msg) => Err(ImageRejection::Undecodable(msg)),
        Ok(f) => {
            if f.width == IMAGE_WIDTH && f.height == IMAGE_HEIGHT {
                Ok(f)
            } else {
                let width = f.width;
                let height = f.height;
                Err(ImageRejection::WrongSize { width, height })
            }
        },
    }
}

/// Decodes an upload, checks that it is exactly the thumbnail size, and
/// encodes it as lossless WebP.
pub fn process_image(data: &[u8]) -> (r: Result<Vec<u8>, ImageRejection>)
    ensures
        decoded_rgb(data@) is None <==> r matches Err(ImageRejection::Undecodable(_)),
        decoded_rgb(data@) matches Some((w, h, _)) && (w != IMAGE_WIDTH || h != IMAGE_HEIGHT)
            <==> r matches Err(ImageRejection::WrongSize { .. }),
        r matches Err(ImageRejection::WrongSize { width, height }) ==> decoded_rgb(data@) matches Some((
            w,
            h,
            _,
        )) && w == width && h == height,
        has_thumbnail_size(decoded_rgb(data@)) <==> r is Ok,
        r matches Ok(bytes) ==> decoded_rgb(data@) matches Some((w, h, px)) && bytes@ == webp_lossless(
            px,
            w,
            h,
        ),
{
    match screen_frame(decode_rgb(data)) {
        Ok(frame) => Ok(encode_webp_lossless(frame.pixels.as_slice(), frame.width, frame.height)),
        Err(e) => Err(e),
    }
}

impl ImageRejection {
    /// The message shown to the uploader.
    pub fn message(&self) -> (r: String)
        ensures
            self matches ImageRejection::Undecodable(m) ==> r@ == "Invalid image data: "@ + m@,
            self is WrongSize ==> r@ == "Image must be exactly 1920x1080"@,
    {
        match self {
            ImageRejection::Undecodable(m) => String::from_str("Invalid image data: ").concat(m.as_str()),
            ImageRejection::WrongSize { .. } => String::from_str("Image must be exactly 1920x1080"),
        }
    }
}

/// RGB samples resampled to a new size with the Lanczos filter of radius 3.
pub uninterp spec fn lanczos_resized(rgb: Seq<u8>, width: u32, height: u32, new_width: u32, new_height: u32) -> Seq<u8>;

/// Relies on image::ImageBuffer::from_raw, which accepts a buffer of exactly
/// three samples per pixel, and on image::imageops::resize with the Lanczos3
/// filter, whose result has the new size.
#[verifier::external_body]
fn resize_rgb(rgb: &[u8], width: u32, height: u32, new_width: u32, new_height: u32) -> (r: Vec<u8>)
    requires
        rgb@.len() == width * height * 3,
    ensures
        r@ == lanczos_resized(rgb@, width, height, new_width, new_height),
        r@.len() == new_width * new_height * 3,
{
    let img = image::RgbImage::from_raw(width, height, rgb.to_vec()).unwrap();
    image::imageops::resize(&img, new_width, new_height, image::imageops::FilterType::Lanczos3).into_raw()
}

/// A stored thumbnail scaled to another size and encoded as lossless WebP; the
/// decoder's message where the stored bytes do not decode.
pub fn resize_image(data: &[u8], width: u32, height: u32) -> (r: Result<Vec<u8>, String>)
    requires
        1 <= width <= WEBP_MAX_SIDE,
        1 <= height <= WEBP_MAX_SIDE,
    ensures
        decoded_rgb(data@) is None <==> r is Err,
        r matches Ok(bytes) ==> decoded_rgb(data@) matches Some((w, h, px)) && bytes@ == webp_lossless(
            lanczos_resized(px, w, h, width, height),
            width,
            height,
        ),
{
    match decode_rgb(data) {
        Err(e) => Err(String::from_str("Failed to decode image: ").concat(e.as_str())),
        Ok(frame) => {
            let resized = resize_rgb(frame.pixels.as_slice(), frame.width, frame.height, width, height);
            Ok(encode_webp_lossless(resized.as_slice(), width, height))
        },
    }
}

} // verus!
