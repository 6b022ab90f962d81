//! Clearing the red channel of an RGBA picture decoded from PNG bytes.

use vstd::prelude::*;

verus! {

/// An 8-bit RGBA picture: `pixels` holds four bytes per pixel (red,
/// green, blue, alpha), row after row.
pub struct RgbaImage {
    pub width: u32,
    pub height: u32,
    pub pixels: Vec<u8>,
}

impl RgbaImage {
    /// The buffer holds exactly one RGBA quadruple per pixel.
    pub open spec fn wf(&self) -> bool {
        self.pixels@.len() == 4 * self.width * self.height
    }
}

/// Why a picture could not be produced.
#[derive(Debug, Clone, Copy, PartialEq, Eq)]
pub enum UnredError {
    /// The bytes are not a PNG picture that the decoder accepts.
    Decode,
}

/// The picture with every red byte set to zero: byte `i` is red when
/// `i % 4 == 0`; every other byte is kept.
pub open spec fn red_cleared(pixels: Seq<u8>) -> Seq<u8> {
    Seq::new(pixels.len(), |i: int| if i % 4 == 0 { 0u8 } else { pixels[i] })
}

/// What the `image` crate makes of `bytes` read as PNG and converted to
/// 8-bit RGBA: width, height and the pixel bytes, or `None` where it
/// reports an error.
pub uninterp spec fn png_rgba8(bytes: Seq<u8>) -> Option<(u32, u32, Seq<u8>)>;

#[verifier::external_type_specification]
#[verifier::external_body]
pub struct ExImageError(image::ImageError);

/// Calls `image::load_from_memory_with_format` with the PNG format and
/// converts the decoded picture with `DynamicImage::to_rgba8`. Claimed: the
/// call succeeds exactly where `png_rgba8` is `Some`, the picture returned is
/// that value, and its buffer holds four bytes per pixel (`to_rgba8` builds
/// it with `ImageBuffer::new(width, height)`). Nothing is said of how the
/// decoder reads the bytes.
#[verifier::external_body]
fn decode_png_rgba8(bytes: &[u8]) -> (res: Result<RgbaImage, image::ImageError>)
    ensures
        res is Ok <==> png_rgba8(bytes@) is Some,
        res matches Ok(img) ==> png_rgba8(bytes@) == Some((img.width, img.height, img.pixels@)),
        res matches Ok(img) ==> img.wf(),
{
    match image::load_from_memory_with_format(bytes, image::ImageFormat::Png) {
        Ok(decoded) => {
            let rgba = decoded.to_rgba8();
            Ok(RgbaImage { width: rgba.width(), height: rgba.height(), pixels: rgba.into_raw() })
        },
        Err(e) => Err(e),
    }
}

/// Sets the red byte of every pixel whose red byte is not zero to zero,
/// keeping green, blue and alpha.
pub fn clear_red(image: &mut RgbaImage)
    requires
        old(image).wf(),
    ensures
        final(image).width == old(image).width,
        final(image).height == old(image).height,
        final(image).pixels@ == red_cleared(old(image).pixels@),
        final(image).wf(),
        final(image).pixels@.len() == old(image).pixels@.len(),
        forall|i: int|
            0 <= i < old(image).pixels@.len() && i % 4 == 0 ==> #[trigger] final(image).pixels@[i] == 0,
        forall|i: int|
            0 <= i < old(image).pixels@.len() && i % 4 != 0 ==> #[trigger] final(image).pixels@[i]
                == old(image).pixels@[i],
{
    let ghost orig = image.pixels@;
    let n = image.pixels.len();
    assert(n % 4 == 0) by {
        let w = image.width as int;
        let h = image.height as int;
        assert(4 * w * h == (w * h) * 4) by (nonlinear_arith);
        vstd::arithmetic::div_mod::lemma_mod_multiples_basic(w * h, 4);
    }
    let mut i: usize = 0;
    while i < n
        invariant
            n == image.pixels@.len(),
            n == orig.len(),
            n % 4 == 0,
            i % 4 == 0,
            i <= n,
            image.width == old(image).width,
            image.height == old(image).height,
            orig == old(image).pixels@,
            forall|j: int| 0 <= j < i ==> #[trigger] image.pixels@[j] == red_cleared(orig)[j],
            forall|j: int| i <= j < n ==> #[trigger] image.pixels@[j] == orig[j],
        decreases n - i,
    {
        if image.pixels[i] > 0 {
            image.pixels.set(i, 0);
        }
        i = i + 4;
    }
    assert(image.pixels@ =~= red_cleared(orig));
}

/// Decodes `png` as a PNG picture in 8-bit RGBA and clears its red
/// channel. Fails with `UnredError::Decode` exactly where the decoder
/// reports an error.
pub fn unred_png(png: &[u8]) -> (res: Result<RgbaImage, UnredError>)
    ensures
        res is Err <==> png_rgba8(png@) is None,
        res matches Err(e) ==> e == UnredError::Decode,
        res matches Ok(img) ==> clears_red_of(png_rgba8(png@), img),
{
    match decode_png_rgba8(png) {
        Ok(mut img) => {
            clear_red(&mut img);
            Ok(img)
        },
        Err(_) => Err(UnredError::Decode),
    }
}

/// `img` is the decoded picture `decoded` with its red channel cleared.
pub open spec fn clears_red_of(decoded: Option<(u32, u32, Seq<u8>)>, img: RgbaImage) -> bool {
    &&& decoded matches Some((width, height, pixels))
    &&& img.width == width
    &&& img.height == height
    &&& img.pixels@ == red_cleared(pixels)
    &&& img.wf()
}

/// Clearing the red channel, for a buffer of any length, sets every red
/// byte (index `i` with `i % 4 == 0`) to zero and keeps every other byte.
pub proof fn lemma_clear_red_bytes(pixels: Seq<u8>)
    ensures
        red_cleared(pixels).len() == pixels.len(),
        forall|i: int| 0 <= i < pixels.len() && i % 4 == 0 ==> #[trigger] red_cleared(pixels)[i] == 0,
        forall|i: int|
            0 <= i < pixels.len() && i % 4 != 0 ==> #[trigger] red_cleared(pixels)[i] == pixels[i],
{
}

/// Clearing the red channel twice gives what clearing it once gives.
pub proof fn lemma_clear_red_idempotent(pixels: Seq<u8>)
    ensures
        red_cleared(red_cleared(pixels)) == red_cleared(pixels),
{
    assert(red_cleared(red_cleared(pixels)) =~= red_cleared(pixels));
}

} // verus!
