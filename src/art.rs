//! Album art: a small bitmap thumbnail for list views and a bounded
//! full-size image for storage, made once when an album is created.
use vstd::prelude::*;
use image::DynamicImage;
use image::codecs::jpeg::JpegEncoder;
use image::imageops::FilterType;
use std::io::Cursor;

verus! {

#[verifier::external_type_specification]
#[verifier::external_body]
pub struct ExDynamicImage(DynamicImage);

/// Side of the square thumbnail, in pixels.
pub const THUMBNAIL_SIZE: u32 = 70;

/// Largest width or height kept for the full-size image, in pixels.
pub const FULL_SIZE_LIMIT: u32 = 1024;

/// JPEG quality of a downscaled full-size image.
pub const FULL_QUALITY: u8 = 70;

/// The (width, height) of the image that `image::load_from_memory` decodes
/// from `bytes`, or none when it cannot decode them.
pub uninterp spec fn decoded_size(bytes: Seq<u8>) -> Option<(u32, u32)>;

/// A little-endian 32-bit field of `b` at `i`.
pub open spec fn le32(b: Seq<u8>, i: int) -> u32 {
    (b[i] as int + 256 * b[i + 1] as int + 65536 * b[i + 2] as int + 16777216 * b[i + 3] as int) as u32
}

/// A big-endian 16-bit field of `b` at `i`.
pub open spec fn be16(b: Seq<u8>, i: int) -> u32 {
    (256 * b[i] as int + b[i + 1] as int) as u32
}

/// The (width, height) in the header of a BMP file: the `BM` signature,
/// then width and height at bytes 18 and 22 of the headers.
pub open spec fn bmp_size(b: Seq<u8>) -> Option<(u32, u32)> {
    if b.len() >= 26 && b[0] == 66u8 && b[1] == 77u8 {
        Some((le32(b, 18), le32(b, 22)))
    } else {
        None
    }
}

/// The (width, height) of a baseline JPEG that starts with the start-of-image
/// marker, a 16-byte JFIF segment and the frame header.
pub open spec fn jpeg_size(b: Seq<u8>) -> Option<(u32, u32)> {
    if b.len() >= 29 && b[0] == 0xFFu8 && b[1] == 0xD8u8 && b[20] == 0xFFu8 && b[21] == 0xC0u8 {
        Some((be16(b, 27), be16(b, 25)))
    } else {
        None
    }
}

/// Whether an image of this (width, height) is stored as it came: only one
/// larger than the limit in either dimension is downscaled.
pub open spec fn within_limit(size: (u32, u32)) -> bool {
    size.0 <= FULL_SIZE_LIMIT && size.1 <= FULL_SIZE_LIMIT
}

/// A decoded image and its size. Only the functions below that call into
/// the image crate make one, reading the size from the pixels they hold.
struct Raster {
    pixels: DynamicImage,
    width: u32,
    height: u32,
}

/// Relies on `image::load_from_memory`: guesses the format from the bytes
/// and decodes them; `None` when that fails.
#[verifier::external_body]
fn decode(bytes: &[u8]) -> (r: Option<Raster>)
    ensures
        r is None <==> decoded_size(bytes@) is None,
        r matches Some(img) ==> decoded_size(bytes@) == Some((img.width, img.height)),
{
    match image::load_from_memory(bytes) {
        Ok(pixels) => Some(Raster { width: pixels.width(), height: pixels.height(), pixels }),
        Err(_) => None,
    }
}

/// Relies on `DynamicImage::thumbnail_exact`, applied to the RGBA form of
/// the image: an image of exactly `width` by `height`.
#[verifier::external_body]
fn thumbnail(img: &Raster, width: u32, height: u32) -> (r: Raster)
    ensures
        r.width == width,
        r.height == height,
{
    let pixels = DynamicImage::ImageRgba8(img.pixels.to_rgba8()).thumbnail_exact(width, height);
    Raster { width: pixels.width(), height: pixels.height(), pixels }
}

/// Relies on `DynamicImage::resize` with the Lanczos filter: the image
/// scaled to fit within `width` by `height`, its aspect ratio kept, at least
/// one pixel each way.
#[verifier::external_body]
fn resize_lanczos(img: &Raster, width: u32, height: u32) -> (r: Raster)
    requires
        width >= 1,
        height >= 1,
    ensures
        1 <= r.width <= width,
        1 <= r.height <= height,
{
    let pixels = img.pixels.resize(width, height, FilterType::Lanczos3);
    Raster { width: pixels.width(), height: pixels.height(), pixels }
}

/// Relies on `DynamicImage::write_to` in the BMP format: the header holds
/// the image's size; the encoder fails only on sizes whose byte counts
/// overflow 32 bits.
#[verifier::external_body]
fn encode_bmp(img: &Raster) -> (r: Option<Vec<u8>>)
    ensures
        img.width <= 4096 && img.height <= 4096 ==> r is Some,
        r matches Some(b) ==> bmp_size(b@) == Some((img.width, img.height)),
{
    let mut buf = Cursor::new(Vec::new());
    img.pixels.write_to(&mut buf, image::ImageFormat::Bmp).ok().map(|_| buf.into_inner())
}

/// Relies on `JpegEncoder::encode_image` at the given quality, applied to
/// the RGB form of the image: it fails only on a side outside 1..=65535,
/// and writes the start-of-image marker, the JFIF segment and the frame
/// header with the image's size.
#[verifier::external_body]
fn encode_jpeg(img: &Raster, quality: u8) -> (r: Option<Vec<u8>>)
    ensures
        1 <= img.width <= 65535 && 1 <= img.height <= 65535 ==> r is Some,
        r matches Some(b) ==> jpeg_size(b@) == Some((img.width, img.height)),
{
    let mut buf = Cursor::new(Vec::new());
    let done = JpegEncoder::new_with_quality(&mut buf, quality).encode_image(&img.pixels.to_rgb8());
    done.ok().map(|_| buf.into_inner())
}

/// Whether an image of `width` by `height` pixels is stored as it came.
pub fn keeps_original(width: u32, height: u32) -> (r: bool)
    ensures
        r == within_limit((width, height)),
{
    width <= FULL_SIZE_LIMIT && height <= FULL_SIZE_LIMIT
}

/// The two stored forms of an album's art.
pub struct AlbumArt {
    /// A `THUMBNAIL_SIZE` square bitmap.
    pub thumbnail: Vec<u8>,
    /// The original bytes, or a JPEG re-encoding of a downscaled copy.
    pub full: Vec<u8>,
}

/// The stored forms of album art as values.
pub struct ArtView {
    pub thumbnail: Seq<u8>,
    pub full: Seq<u8>,
}

/// Optional album art as values.
pub open spec fn art_view(a: Option<AlbumArt>) -> Option<ArtView> {
    match a {
        Some(x) => Some(ArtView { thumbnail: x.thumbnail@, full: x.full@ }),
        None => None,
    }
}

/// Whether `art` is what the pipeline makes of the source bytes: nothing
/// when they do not decode; else a `THUMBNAIL_SIZE` square BMP, and the
/// bytes themselves when the image is within the limit, or a JPEG that fits
/// within the limit when it is not.
pub open spec fn made_from(bytes: Seq<u8>, art: Option<ArtView>) -> bool {
    match decoded_size(bytes) {
        None => art is None,
        Some(size) => art matches Some(a) && bmp_size(a.thumbnail) == Some(
            (THUMBNAIL_SIZE, THUMBNAIL_SIZE),
        ) && if within_limit(size) {
            a.full == bytes
        } else {
            jpeg_size(a.full) matches Some(s) && 1 <= s.0 <= FULL_SIZE_LIMIT && 1 <= s.1
                <= FULL_SIZE_LIMIT
        },
    }
}

/// Makes the stored forms of the art in `bytes`. Art that cannot be decoded
/// gives `None`: the album is then created without art.
pub fn process_art(bytes: &Vec<u8>) -> (r: Option<AlbumArt>)
    ensures
        made_from(bytes@, art_view(r)),
{
    let img = match decode(bytes.as_slice()) {
        Some(i) => i,
        None => {
            return None;
        },
    };
    let small = thumbnail(&img, THUMBNAIL_SIZE, THUMBNAIL_SIZE);
    let thumb = match encode_bmp(&small) {
        Some(t) => t,
        None => {
            return None;
        },
    };
    let full = if keeps_original(img.width, img.height) {
        let f = bytes.clone();
        assert(f@ =~= bytes@);
        f
    } else {
        let scaled = resize_lanczos(&img, FULL_SIZE_LIMIT, FULL_SIZE_LIMIT);
        match encode_jpeg(&scaled, FULL_QUALITY) {
            Some(f) => f,
            None => {
                return None;
            },
        }
    };
    Some(AlbumArt { thumbnail: thumb, full })
}

} // verus!
