//! The texture loader. A raw byte buffer is accepted only when it carries the
//! PNG magic signature; anything else fails the format check rather than being
//! decoded silently. A signature-carrying buffer is then decoded to an 8-bit
//! RGBA pixel grid by the `image` crate, behind a trusted wrapper.

use vstd::prelude::*;

verus! {

/// The eight-byte PNG magic signature.
pub open spec fn png_signature() -> Seq<u8> {
    seq![137u8, 80u8, 78u8, 71u8, 13u8, 10u8, 26u8, 10u8]
}

/// Whether a byte buffer begins with the PNG magic signature — the same test
/// the format guess of the decoder makes for PNG.
pub open spec fn is_png(data: Seq<u8>) -> bool {
    data.len() >= 8 && data.take(8) == png_signature()
}

/// What decoding a buffer as PNG yields: `None` where the decoder rejects the
/// buffer, otherwise the width, height and 8-bit RGBA pixel data. Decoding is
/// a function of the input bytes alone.
pub uninterp spec fn png_rgba_of(data: Seq<u8>) -> Option<(u32, u32, Seq<u8>)>;

/// Why loading an image failed.
#[derive(Clone, Copy, Debug, PartialEq, Eq, Structural)]
pub enum ImageError {
    /// The buffer does not begin with the PNG magic signature.
    NotPng,
    /// The buffer carries the signature but is not a decodable PNG image.
    DecodeFailed,
}

/// A decoded image: its dimensions in pixels and its 8-bit RGBA pixel data,
/// four bytes per pixel, row by row.
#[derive(Clone, Debug, PartialEq, Eq)]
pub struct DecodedImage {
    pub width: u32,
    pub height: u32,
    pub rgba: Vec<u8>,
}

/// The mathematical value of a [`DecodedImage`].
pub struct DecodedImageModel {
    pub width: u32,
    pub height: u32,
    pub rgba: Seq<u8>,
}

impl View for DecodedImage {
    type V = DecodedImageModel;

    open spec fn view(&self) -> DecodedImageModel {
        DecodedImageModel { width: self.width, height: self.height, rgba: self.rgba@ }
    }
}

impl DecodedImageModel {
    /// A decoded image is well formed when it holds four bytes for each of
    /// its width times height pixels.
    pub open spec fn wf(self) -> bool {
        self.rgba.len() == 4 * self.width * self.height
    }
}

impl DecodedImage {
    /// Whether the image is well formed.
    pub open spec fn wf(&self) -> bool {
        self@.wf()
    }
}

/// Relies on `image::load_from_memory_with_format` with the PNG format,
/// `DynamicImage::to_rgba8` and `ImageBuffer::into_raw`: decoding is a
/// function of the input bytes alone, and the RGBA buffer of a decoded image
/// holds exactly four bytes per pixel.
#[verifier::external_body]
fn decode_png_rgba(data: &[u8]) -> (r: Option<(u32, u32, Vec<u8>)>)
    ensures
        r is Some <==> png_rgba_of(data@) is Some,
        r matches Some(t) ==> {
            &&& png_rgba_of(data@) == Some((t.0, t.1, t.2@))
            &&& t.2@.len() == 4 * t.0 * t.1
        },
{
    match image::load_from_memory_with_format(data, image::ImageFormat::Png) {
        Ok(img) => {
            let (w, h) = image::GenericImageView::dimensions(&img);
            Some((w, h, img.to_rgba8().into_raw()))
        }
        Err(_) => None,
    }
}

/// Tests whether a byte buffer begins with the PNG magic signature.
pub fn has_png_signature(data: &[u8]) -> (b: bool)
    ensures
        b == is_png(data@),
{
    if data.len() < 8 {
        return false;
    }
    let ok = data[0] == 137 && data[1] == 80 && data[2] == 78 && data[3] == 71 && data[4] == 13
        && data[5] == 10 && data[6] == 26 && data[7] == 10;
    proof {
        assert(forall|i: int| 0 <= i < 8 ==> #[trigger] data@.take(8)[i] == data@[i]);
        if ok {
            assert(data@.take(8) =~= png_signature());
        } else {
            assert(data@.take(8) != png_signature());
        }
    }
    ok
}

/// Loads a texture image from a raw byte buffer. The buffer must carry the
/// PNG magic signature: any other format fails the format check with
/// [`ImageError::NotPng`] rather than being decoded. A signature-carrying
/// buffer is decoded to its 8-bit RGBA pixel grid, or fails with
/// [`ImageError::DecodeFailed`] where it is not a valid PNG image.
pub fn load_image(data: &[u8]) -> (r: Result<DecodedImage, ImageError>)
    ensures
        !is_png(data@) ==> r == Err::<DecodedImage, ImageError>(ImageError::NotPng),
        is_png(data@) && png_rgba_of(data@) is None ==> r == Err::<DecodedImage, ImageError>(
            ImageError::DecodeFailed,
        ),
        is_png(data@) && png_rgba_of(data@) is Some ==> ({
            let m = png_rgba_of(data@)->Some_0;
            &&& r is Ok
            &&& r->Ok_0@ == (DecodedImageModel { width: m.0, height: m.1, rgba: m.2 })
            &&& r->Ok_0.wf()
        }),
{
    if !has_png_signature(data) {
        return Err(ImageError::NotPng);
    }
    match decode_png_rgba(data) {
        Some((width, height, rgba)) => Ok(DecodedImage { width, height, rgba }),
        None => Err(ImageError::DecodeFailed),
    }
}

} // verus!
