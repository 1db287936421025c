//! Images as pixel buffers: decoding encoded images, the grey scale that QR
//! decoding works on, and PNG encoding.
use vstd::prelude::*;
use image::DynamicImage::{
    ImageLuma16, ImageLuma8, ImageLumaA16, ImageLumaA8, ImageRgb16, ImageRgb8, ImageRgba16,
    ImageRgba8,
};
use image::codecs::png::PngEncoder;
use image::ExtendedColorType::{
    L16 as PngL16, L8 as PngL8, La16 as PngLa16, La8 as PngLa8, Rgb16 as PngRgb16, Rgb8 as PngRgb8,
    Rgba16 as PngRgba16, Rgba8 as PngRgba8,
};
use image::ImageEncoder;

verus! {

use Samples::{L16, L8, La16, La8, Rgb16, Rgb8, Rgba16, Rgba8};

/// A decoded image's samples in the layout the decoder gave them, row by row:
/// grey, grey and alpha, RGB or RGBA, with 8-bit or 16-bit samples.
#[derive(Debug, Clone)]
pub enum Samples {
    L8(Vec<u8>),
    La8(Vec<u8>),
    Rgb8(Vec<u8>),
    Rgba8(Vec<u8>),
    L16(Vec<u16>),
    La16(Vec<u16>),
    Rgb16(Vec<u16>),
    Rgba16(Vec<u16>),
}

/// The samples of an image as sequences.
pub enum SampleView {
    L8(Seq<u8>),
    La8(Seq<u8>),
    Rgb8(Seq<u8>),
    Rgba8(Seq<u8>),
    L16(Seq<u16>),
    La16(Seq<u16>),
    Rgb16(Seq<u16>),
    Rgba16(Seq<u16>),
}

impl View for Samples {
    type V = SampleView;

    open spec fn view(&self) -> SampleView {
        match self {
            Samples::L8(b) => SampleView::L8(b@),
            Samples::La8(b) => SampleView::La8(b@),
            Samples::Rgb8(b) => SampleView::Rgb8(b@),
            Samples::Rgba8(b) => SampleView::Rgba8(b@),
            Samples::L16(w) => SampleView::L16(w@),
            Samples::La16(w) => SampleView::La16(w@),
            Samples::Rgb16(w) => SampleView::Rgb16(w@),
            Samples::Rgba16(w) => SampleView::Rgba16(w@),
        }
    }
}

/// The number of samples the view holds for each pixel, and how many it holds.
pub open spec fn sample_shape(s: SampleView) -> (int, int) {
    match s {
        SampleView::L8(b) => (1, b.len() as int),
        SampleView::La8(b) => (2, b.len() as int),
        SampleView::Rgb8(b) => (3, b.len() as int),
        SampleView::Rgba8(b) => (4, b.len() as int),
        SampleView::L16(w) => (1, w.len() as int),
        SampleView::La16(w) => (2, w.len() as int),
        SampleView::Rgb16(w) => (3, w.len() as int),
        SampleView::Rgba16(w) => (4, w.len() as int),
    }
}

/// A decoded image: its samples, and the image converted to 8-bit RGBA, four
/// bytes per pixel.
#[derive(Debug, Clone)]
pub struct DecodedImage {
    pub width: u32,
    pub height: u32,
    pub samples: Samples,
    pub rgba: Vec<u8>,
}

/// What a decoded image holds: width, height, samples and RGBA bytes.
pub type ImageParts = (u32, u32, SampleView, Seq<u8>);

impl DecodedImage {
    /// The number of pixels.
    pub open spec fn pixel_count(&self) -> int {
        self.width as int * self.height as int
    }

    /// The image's parts as plain values.
    pub open spec fn parts(&self) -> ImageParts {
        (self.width, self.height, self.samples@, self.rgba@)
    }

    /// The buffers hold exactly the samples that the layout and size call for.
    pub open spec fn well_formed(&self) -> bool {
        &&& self.rgba@.len() == 4 * self.pixel_count()
        &&& sample_shape(self.samples@).1 == sample_shape(self.samples@).0 * self.pixel_count()
    }
}

/// An image with one luminance byte per pixel, row by row.
#[derive(Debug, Clone)]
pub struct GreyImage {
    pub width: u32,
    pub height: u32,
    pub pixels: Vec<u8>,
}

/// The image that an encoded image file decodes to, or `None` when the bytes
/// are no image that the decoder reads.
pub uninterp spec fn decoded_image(encoded: Seq<u8>) -> Option<ImageParts>;

/// The PNG file that image's PNG encoder writes for an image of the given size
/// and samples (what `DynamicImage::write_to` writes for such an image), or
/// `None` when it fails.
pub uninterp spec fn png_encoding(width: u32, height: u32, samples: SampleView) -> Option<Seq<u8>>;

/// Decodes an encoded image with `image::load_from_memory`, which guesses the
/// format from the bytes, and takes its samples as they are (`into_raw` of the
/// variant's buffer) and its RGBA conversion (`DynamicImage::to_rgba8`).
/// Claimed: the result is `decoded_image` of the bytes, and the buffers have
/// the sizes that `well_formed` asks (the decoder fills buffers of exactly that
/// size). A float image, which neither enabled decoder (PNG, JPEG) produces,
/// gives `None`.
#[verifier::external_body]
pub(crate) fn decode_image(encoded: &[u8]) -> (res: Option<DecodedImage>)
    ensures
        match res {
            Some(img) => decoded_image(encoded@) == Some(img.parts()) && img.well_formed(),
            None => decoded_image(encoded@) is None,
        },
{
    let img = image::load_from_memory(encoded).ok()?;
    let (width, height, rgba) = (img.width(), img.height(), img.to_rgba8().into_raw());
    let samples = match img {
        ImageLuma8(b) => L8(b.into_raw()),
        ImageLumaA8(b) => La8(b.into_raw()),
        ImageRgb8(b) => Rgb8(b.into_raw()),
        ImageRgba8(b) => Rgba8(b.into_raw()),
        ImageLuma16(b) => L16(b.into_raw()),
        ImageLumaA16(b) => La16(b.into_raw()),
        ImageRgb16(b) => Rgb16(b.into_raw()),
        ImageRgba16(b) => Rgba16(b.into_raw()),
        _ => return None,
    };
    Some(DecodedImage { width, height, samples, rgba })
}

/// Writes a decoded image as PNG in the image's own colour type and depth,
/// with `PngEncoder::write_image`: the encoder and the call that
/// `DynamicImage::write_to` makes for `ImageFormat::Png`, handed the samples
/// as native-endian bytes as `DynamicImage::as_bytes` gives them. Claimed: the
/// bytes written are `png_encoding` of the image's size and samples, `None`
/// when the encoder reports an error. The encoder asserts that the buffer
/// fits the size, which `well_formed` ensures.
#[verifier::external_body]
pub(crate) fn encode_png(image: &DecodedImage) -> (res: Option<Vec<u8>>)
    requires
        image.well_formed(),
    ensures
        match res {
            Some(png) => png_encoding(image.width, image.height, image.samples@) == Some(png@),
            None => png_encoding(image.width, image.height, image.samples@) is None,
        },
{
    let colour = match &image.samples {
        L8(_) => PngL8, La8(_) => PngLa8, Rgb8(_) => PngRgb8, Rgba8(_) => PngRgba8,
        L16(_) => PngL16, La16(_) => PngLa16, Rgb16(_) => PngRgb16, Rgba16(_) => PngRgba16,
    };
    let bytes = match &image.samples {
        L8(b) | La8(b) | Rgb8(b) | Rgba8(b) => b.clone(),
        L16(w) | La16(w) | Rgb16(w) | Rgba16(w) => w.iter().flat_map(|s| s.to_ne_bytes()).collect(),
    };
    let mut png = Vec::new();
    PngEncoder::new(&mut png).write_image(&bytes, image.width, image.height, colour).ok()?;
    Some(png)
}

/// The luminance of an RGBA pixel: `(306 R + 601 G + 117 B + 512) / 1024`, and
/// white for a fully transparent pixel.
pub open spec fn luma(r: u8, g: u8, b: u8, a: u8) -> u8 {
    if a == 0 {
        255u8
    } else {
        ((306 * r + 601 * g + 117 * b + 512) / 1024) as u8
    }
}

/// The luminance of pixel `i`: a grey sample as it is, its high byte for
/// 16-bit grey, white where a grey pixel's alpha is zero, and the RGBA
/// luminance for colour images.
pub open spec fn grey_at(samples: SampleView, rgba: Seq<u8>, i: int) -> u8 {
    match samples {
        SampleView::L8(b) => b[i],
        SampleView::La8(b) => if b[2 * i + 1] == 0 {
            255u8
        } else {
            b[2 * i]
        },
        SampleView::L16(w) => (w[i] / 256) as u8,
        SampleView::La16(w) => if w[2 * i + 1] == 0 {
            255u8
        } else {
            (w[2 * i] / 256) as u8
        },
        _ => luma(rgba[4 * i], rgba[4 * i + 1], rgba[4 * i + 2], rgba[4 * i + 3]),
    }
}

/// The luminance of each pixel of a decoded image.
pub open spec fn grey_pixels(parts: ImageParts) -> Seq<u8> {
    Seq::new(parts.3.len() / 4, |i: int| grey_at(parts.2, parts.3, i))
}

/// The grey image that an encoded image decodes to.
pub open spec fn decoded_grey(encoded: Seq<u8>) -> Option<(u32, u32, Seq<u8>)> {
    match decoded_image(encoded) {
        Some(parts) => Some((parts.0, parts.1, grey_pixels(parts))),
        None => None,
    }
}

/// The luminance of one RGBA pixel.
pub fn pixel_luma(r: u8, g: u8, b: u8, a: u8) -> (res: u8)
    ensures
        res == luma(r, g, b, a),
{
    if a == 0 {
        255
    } else {
        let weighted: u32 = 306 * (r as u32) + 601 * (g as u32) + 117 * (b as u32) + 512;
        assert(weighted / 1024 <= 255);
        (weighted / 1024) as u8
    }
}

/// The grey-scale version of a decoded image, pixel by pixel.
pub fn to_grey(image: &DecodedImage) -> (res: GreyImage)
    requires
        image.well_formed(),
    ensures
        res.width == image.width,
        res.height == image.height,
        res.pixels@ == grey_pixels(image.parts()),
{
    let len: usize = image.rgba.len();
    let n: usize = len / 4;
    assert(n == image.pixel_count());
    let mut grey: Vec<u8> = Vec::new();
    let mut i: usize = 0;
    while i < n
        invariant
            image.well_formed(),
            len == image.rgba@.len(),
            n == image.pixel_count(),
            4 * n == len,
            i <= n,
            grey@.len() == i,
            forall|j: int| 0 <= j < i ==> grey@[j] == grey_pixels(image.parts())[j],
        decreases n - i,
    {
        let l: u8 = match &image.samples {
            L8(b) => b[i],
            La8(b) => if b[2 * i + 1] == 0 {
                255
            } else {
                b[2 * i]
            },
            L16(w) => (w[i] / 256) as u8,
            La16(w) => if w[2 * i + 1] == 0 {
                255
            } else {
                (w[2 * i] / 256) as u8
            },
            _ => {
                let base: usize = 4 * i;
                pixel_luma(
                    image.rgba[base],
                    image.rgba[base + 1],
                    image.rgba[base + 2],
                    image.rgba[base + 3],
                )
            },
        };
        grey.push(l);
        i = i + 1;
    }
    assert(grey@ =~= grey_pixels(image.parts()));
    GreyImage { width: image.width, height: image.height, pixels: grey }
}

/// The grey image of an encoded image has the decoded image's own width and
/// height, one grey value for each of its pixels; an image that does not decode
/// has no grey image.
pub proof fn grey_image_keeps_the_image_size(encoded: Seq<u8>)
    ensures
        decoded_grey(encoded) is None <==> decoded_image(encoded) is None,
        decoded_grey(encoded) matches Some((width, height, grey)) ==> {
            &&& decoded_image(encoded) matches Some(parts)
            &&& width == parts.0
            &&& height == parts.1
            &&& grey.len() == parts.3.len() / 4
        },
{
}

/// Each pixel of a colour image, whatever its colour layout (RGB or RGBA, 8 or
/// 16 bits), has the luminance of its RGBA conversion as its grey value.
pub proof fn colour_pixel_grey_is_its_rgba_luma(parts: ImageParts, i: int)
    requires
        parts.2 is Rgb8 || parts.2 is Rgba8 || parts.2 is Rgb16 || parts.2 is Rgba16,
        0 <= i,
        4 * i + 3 < parts.3.len(),
    ensures
        grey_pixels(parts).len() == parts.3.len() / 4,
        grey_pixels(parts)[i] == luma(
            parts.3[4 * i],
            parts.3[4 * i + 1],
            parts.3[4 * i + 2],
            parts.3[4 * i + 3],
        ),
{
}

/// Each pixel of a grey image keeps its grey sample: an 8-bit sample as it is,
/// the high byte of a 16-bit sample; a pixel with grey and alpha is white when
/// its alpha is zero and its grey sample otherwise.
pub proof fn grey_pixel_keeps_its_sample(parts: ImageParts, i: int)
    requires
        0 <= i,
        4 * i + 3 < parts.3.len(),
    ensures
        parts.2 matches SampleView::L8(b) ==> grey_pixels(parts)[i] == b[i],
        parts.2 matches SampleView::L16(w) ==> 256 * grey_pixels(parts)[i] <= w[i] < 256
            * grey_pixels(parts)[i] + 256,
        parts.2 matches SampleView::La8(b) ==> grey_pixels(parts)[i] == if b[2 * i + 1] == 0 {
            255
        } else {
            b[2 * i]
        },
        parts.2 matches SampleView::La16(w) ==> (w[2 * i + 1] == 0 ==> grey_pixels(parts)[i] == 255)
            && (w[2 * i + 1] != 0 ==> 256 * grey_pixels(parts)[i] <= w[2 * i] < 256
            * grey_pixels(parts)[i] + 256),
{
}

/// The luminance of a pixel that is not fully transparent is the weighted sum
/// `306 R + 601 G + 117 B` divided by 1024 and rounded to the nearest; a fully
/// transparent pixel is white.
pub proof fn luma_rounds_the_weighted_sum(r: u8, g: u8, b: u8, a: u8)
    ensures
        a == 0 ==> luma(r, g, b, a) == 255,
        a != 0 ==> 1024 * luma(r, g, b, a) <= 306 * r + 601 * g + 117 * b + 512 < 1024 * luma(
            r,
            g,
            b,
            a,
        ) + 1024,
{
}

/// An opaque pixel whose red, green and blue are equal keeps that value as its
/// luminance: grey images come through the grey-scale conversion unchanged.
pub proof fn grey_pixel_keeps_its_luma(l: u8, a: u8)
    requires
        a != 0,
    ensures
        luma(l, l, l, a) == l,
{
    assert((306 * l + 601 * l + 117 * l + 512) / 1024 == l as int) by (nonlinear_arith);
}

} // verus!
