//! Handing a finished raster over: its channel bytes in row-major order,
//! wrapped as an image and encoded as PNG.

use vstd::prelude::*;
use image::{ImageBuffer, ImageError, ImageFormat, Rgb};
use std::io::Cursor;
use crate::error::FieldError;
use crate::pixel::PixelSample;

verus! {

/// An image of three 8-bit channels per pixel, kept as an
/// `image::ImageBuffer` over a vector of bytes.
///
/// The buffer's type is bounded by a trait of the `image` crate, so it is
/// held here, out of the verifier's sight. What an image holds is spoken
/// of through `image_samples` and `image_dimensions`.
#[verifier::external_body]
pub struct RgbImage {
    inner: ImageBuffer<Rgb<u8>, Vec<u8>>,
}

/// `image::ImageError`, carried from the encoder to `encoding_outcome`.
#[verifier::external_type_specification]
#[verifier::external_body]
pub struct ExImageError(ImageError);

/// The samples of an image, row by row, three per pixel.
pub uninterp spec fn image_samples(img: RgbImage) -> Seq<u8>;

/// The width and the height of an image.
pub uninterp spec fn image_dimensions(img: RgbImage) -> (u32, u32);

/// The PNG file that the `image` crate writes for an image of the given
/// dimensions and samples, or `None` where its encoder refuses the image.
pub uninterp spec fn png_encoding(dimensions: (u32, u32), samples: Seq<u8>) -> Option<Seq<u8>>;

/// Channel `c` of a sample: red, green, blue for 0, 1, 2.
pub open spec fn channel(p: PixelSample, c: int) -> u8 {
    if c == 0 {
        p.r
    } else if c == 1 {
        p.g
    } else {
        p.b
    }
}

/// The channel bytes of a run of samples: three per sample, in the order
/// red, green, blue.
pub open spec fn channel_bytes(pixels: Seq<PixelSample>) -> Seq<u8> {
    Seq::new(3 * pixels.len(), |k: int| channel(pixels[k / 3], k % 3))
}

/// Flattens samples into their channel bytes.
pub fn flatten_pixels(rows: &Vec<PixelSample>) -> (bytes: Vec<u8>)
    ensures
        bytes@ == channel_bytes(rows@),
{
    let mut bytes: Vec<u8> = Vec::new();
    let mut i: usize = 0;
    while i < rows.len()
        invariant
            i <= rows@.len(),
            bytes@.len() == 3 * i,
            forall|k: int| 0 <= k < 3 * i ==> bytes@[k] == channel(rows@[k / 3], k % 3),
        decreases rows@.len() - i,
    {
        let p = rows[i];
        bytes.push(p.r);
        bytes.push(p.g);
        bytes.push(p.b);
        i += 1;
    }
    assert(bytes@ =~= channel_bytes(rows@));
    bytes
}

/// `ImageBuffer::from_raw` on a vector of bytes, three channels per
/// pixel.
///
/// Claimed of it: it counts the samples of one row, then of all rows, in
/// `usize`, and makes an image exactly when neither count overflows and
/// the vector holds at least that many samples. The image keeps the
/// vector and the two dimensions as they were given.
#[verifier::external_body]
fn image_from_raw(width: u32, height: u32, samples: Vec<u8>) -> (img: Option<RgbImage>)
    ensures
        img is Some <==> (3 * width <= usize::MAX && 3 * (width * height) <= samples@.len()),
        img matches Some(made) ==> image_samples(made) == samples@ && image_dimensions(made) == (
            width,
            height,
        ),
{
    match ImageBuffer::from_raw(width, height, samples) {
        Some(inner) => Some(RgbImage { inner }),
        None => None,
    }
}

/// `ImageBuffer::write_to` with `ImageFormat::Png`, into a vector in
/// memory.
///
/// Claimed of it: whether a file comes out, and which bytes it holds,
/// depends on the image's dimensions and samples alone, and no file comes
/// out for an image of width or height zero.
#[verifier::external_body]
fn png_write(img: &RgbImage) -> (written: Result<Vec<u8>, ImageError>)
    ensures
        match written {
            Ok(file) => png_encoding(image_dimensions(*img), image_samples(*img)) == Some(file@),
            Err(_) => png_encoding(image_dimensions(*img), image_samples(*img)) is None,
        },
        written is Ok ==> image_dimensions(*img).0 > 0 && image_dimensions(*img).1 > 0,
{
    let mut file = Cursor::new(Vec::new());
    match img.inner.write_to(&mut file, ImageFormat::Png) {
        Ok(()) => Ok(file.into_inner()),
        Err(e) => Err(e),
    }
}

/// Wraps a finished raster as an image of `width` by `height` pixels.
///
/// A raster that does not hold exactly one sample per pixel is refused,
/// and so is a width whose row of samples cannot be counted in `usize`,
/// which a machine with 32-bit addresses meets above 1431655765.
pub fn convert_pixels_to_image_buffer(rows: Vec<PixelSample>, width: u32, height: u32) -> (out:
    Result<RgbImage, FieldError>)
    ensures
        out is Ok <==> (rows@.len() == width * height && 3 * width <= usize::MAX),
        out matches Ok(img) ==> image_samples(img) == channel_bytes(rows@) && image_dimensions(img)
            == (width, height),
        out matches Err(e) ==> e == FieldError::ShapeMismatch,
{
    assert(width * height <= 0xFFFF_FFFF * 0xFFFF_FFFF) by (nonlinear_arith)
        requires
            width <= 0xFFFF_FFFF,
            height <= 0xFFFF_FFFF,
    ;
    let area: u64 = (width as u64) * (height as u64);
    if rows.len() as u64 != area {
        return Err(FieldError::ShapeMismatch);
    }
    let bytes = flatten_pixels(&rows);
    match image_from_raw(width, height, bytes) {
        Some(img) => Ok(img),
        None => Err(FieldError::ShapeMismatch),
    }
}

/// What an attempt to write a PNG file comes to: the file, or the
/// encoder's complaint as an error of this library.
pub fn encoding_outcome(written: Result<Vec<u8>, ImageError>) -> (out: Result<Vec<u8>, FieldError>)
    ensures
        written is Ok ==> out == Ok::<Vec<u8>, FieldError>(written->Ok_0),
        written matches Err(e) ==> out matches Err(FieldError::Encoding(text))
            && vstd::string::to_string_from_display_ensures::<ImageError>(&e, text),
{
    match written {
        Ok(file) => Ok(file),
        Err(e) => Err(FieldError::Encoding(e.to_string())),
    }
}

/// Encodes an image as a PNG file in memory.
///
/// A file comes out exactly where the encoder takes an image of these
/// dimensions and samples, and then it is the encoder's file. An image of
/// width or height zero is never taken.
pub fn encode_png(img: &RgbImage) -> (out: Result<Vec<u8>, FieldError>)
    ensures
        out is Ok <==> png_encoding(image_dimensions(*img), image_samples(*img)) is Some,
        out matches Ok(file) ==> png_encoding(image_dimensions(*img), image_samples(*img))
            == Some(file@),
        out matches Err(e) ==> e is Encoding,
        image_dimensions(*img).0 == 0 || image_dimensions(*img).1 == 0 ==> out is Err,
{
    encoding_outcome(png_write(img))
}

} // verus!
