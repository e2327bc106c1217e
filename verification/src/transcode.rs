use vstd::prelude::*;
use crate::resolve::TargetDimensions;

verus! {

/// The in-memory raster an image decodes to; opaque here, produced and
/// consumed only by the imaging wrappers below.
#[verifier::external_type_specification]
#[verifier::external_body]
pub struct ExDynamicImage(image::DynamicImage);

/// Whether the stored bytes decode as an image. Format sniffing and decoding
/// are deterministic in the bytes alone.
pub uninterp spec fn spec_decodable(bytes: Seq<u8>) -> bool;

/// The raster the stored bytes decode to, when they are decodable; a
/// function of the bytes alone.
pub uninterp spec fn spec_decoded(bytes: Seq<u8>) -> image::DynamicImage;

/// The raster image::DynamicImage::resize_to_fill produces with the Gaussian
/// filter for the given raster and target box.
pub uninterp spec fn spec_covered(
    img: image::DynamicImage,
    width: u32,
    height: u32,
) -> image::DynamicImage;

/// The raster image::DynamicImage::thumbnail_exact produces for the given
/// raster and target box.
pub uninterp spec fn spec_contained(
    img: image::DynamicImage,
    width: u32,
    height: u32,
) -> image::DynamicImage;

/// What PNG encoding makes of a raster: the bitstream, or nothing where the
/// codec refuses it; a function of the raster alone.
pub uninterp spec fn spec_png_of(img: image::DynamicImage) -> Option<Seq<u8>>;

/// What lossy WebP encoding at a given quality makes of a raster; nothing
/// where the raster is not eight-bit RGB or RGBA, or the codec fails.
pub uninterp spec fn spec_webp_lossy_of(img: image::DynamicImage, quality: u8) -> Option<Seq<u8>>;

/// What lossless WebP encoding makes of a raster; nothing where the raster
/// is not eight-bit RGB or RGBA, or the codec fails.
pub uninterp spec fn spec_webp_lossless_of(img: image::DynamicImage) -> Option<Seq<u8>>;

/// Relies on image::ImageReader::with_guessed_format and
/// image::ImageReader::decode: the format is sniffed from the bytes, never
/// from a caller-declared type, and both steps depend on the bytes alone.
#[verifier::external_body]
fn decode_image(buf: &[u8]) -> (r: Option<image::DynamicImage>)
    ensures
        r is Some <==> spec_decodable(buf@),
        r matches Some(img) ==> img == spec_decoded(buf@),
{
    let reader = image::ImageReader::new(std::io::Cursor::new(buf));
    match reader.with_guessed_format() {
        Ok(sniffed) => sniffed.decode().ok(),
        Err(_) => None,
    }
}

/// Relies on image::DynamicImage::resize_to_fill with the Gaussian filter:
/// fills the exact target box, cropping overflowing source content; total
/// and deterministic for positive target dimensions.
#[verifier::external_body]
fn resize_cover(img: &image::DynamicImage, width: u32, height: u32) -> (r: image::DynamicImage)
    requires
        1 <= width,
        1 <= height,
    ensures
        r == spec_covered(*img, width, height),
{
    img.resize_to_fill(width, height, image::imageops::FilterType::Gaussian)
}

/// Relies on image::DynamicImage::thumbnail_exact: scales to the exact
/// target box with the fast box-style filter; total and deterministic for
/// positive target dimensions. The exact box is deliberate: the resolver
/// derives the box aspect-true except when a request pins both axes, and a
/// pinned box is honored as given, distortion included.
#[verifier::external_body]
fn resize_contain(img: &image::DynamicImage, width: u32, height: u32) -> (r: image::DynamicImage)
    requires
        1 <= width,
        1 <= height,
    ensures
        r == spec_contained(*img, width, height),
{
    img.thumbnail_exact(width, height)
}

/// Relies on image::DynamicImage::write_to with the PNG format: encodes the
/// raster losslessly and deterministically, reporting codec failure as
/// `None`.
#[verifier::external_body]
fn encode_png(img: &image::DynamicImage) -> (r: Option<Vec<u8>>)
    ensures
        r is Some <==> spec_png_of(*img) is Some,
        r matches Some(b) ==> spec_png_of(*img) matches Some(s) && b@ == s,
{
    let mut bytes: Vec<u8> = Vec::new();
    let mut writer = std::io::Cursor::new(&mut bytes);
    match img.write_to(&mut writer, image::ImageFormat::Png) {
        Ok(()) => Some(bytes),
        Err(_) => None,
    }
}

/// Relies on webp::Encoder::from_image and webp::Encoder::encode_simple with
/// lossless off: lossy encoding at the given quality, deterministic in the
/// raster and quality. `from_image` refuses rasters that are not eight-bit
/// RGB or RGBA; either failure is `None`.
#[verifier::external_body]
fn encode_webp_lossy(img: &image::DynamicImage, quality: u8) -> (r: Option<Vec<u8>>)
    requires
        quality <= 100,
    ensures
        r is Some <==> spec_webp_lossy_of(*img, quality) is Some,
        r matches Some(b) ==> spec_webp_lossy_of(*img, quality) matches Some(s) && b@ == s,
{
    let encoder = match webp::Encoder::from_image(img) {
        Ok(encoder) => encoder,
        Err(_) => return None,
    };
    match encoder.encode_simple(false, quality.into()) {
        Ok(memory) => Some(memory.to_vec()),
        Err(_) => None,
    }
}

/// Relies on webp::Encoder::from_image and webp::Encoder::encode_simple with
/// lossless on (the crate's own lossless entry point fixes the same unused
/// quality value this body passes); deterministic in the raster; either
/// failure is `None`.
#[verifier::external_body]
fn encode_webp_lossless(img: &image::DynamicImage) -> (r: Option<Vec<u8>>)
    ensures
        r is Some <==> spec_webp_lossless_of(*img) is Some,
        r matches Some(b) ==> spec_webp_lossless_of(*img) matches Some(s) && b@ == s,
{
    let encoder = match webp::Encoder::from_image(img) {
        Ok(encoder) => encoder,
        Err(_) => return None,
    };
    match encoder.encode_simple(true, 75u8.into()) {
        Ok(memory) => Some(memory.to_vec()),
        Err(_) => None,
    }
}

/// The process-wide output codec: a closed enumeration, so an invalid
/// configuration is unrepresentable. The switchable codec encodes lossily
/// exactly when a quality is configured.
#[derive(Clone, Copy, PartialEq, Eq, Structural, Debug)]
pub enum OutputCodec {
    Png,
    Webp { quality: Option<u8> },
}

impl OutputCodec {
    /// A configured quality is a percentage.
    pub open spec fn wf(&self) -> bool {
        match self {
            OutputCodec::Png => true,
            OutputCodec::Webp { quality } => match quality {
                Some(q) => q <= 100,
                None => true,
            },
        }
    }

    /// The MIME type of what this codec emits, never the source's type.
    pub open spec fn spec_mime(&self) -> Seq<char> {
        match self {
            OutputCodec::Png => "image/png"@,
            OutputCodec::Webp { .. } => "image/webp"@,
        }
    }

    /// The MIME type as an owned header value.
    pub fn mime_type(&self) -> (r: String)
        ensures
            r@ == self.spec_mime(),
    {
        match self {
            OutputCodec::Png => "image/png".to_owned(),
            OutputCodec::Webp { .. } => "image/webp".to_owned(),
        }
    }
}

/// How the source raster maps onto the target box. Covering fills the box
/// with a high-quality filter, cropping overflow. The default, containing
/// fit scales to the exact resolved box with a fast filter — intended: the
/// resolver derives that box aspect-true in every case but the one where a
/// request pins both axes, and a pinned box may distort.
#[derive(Clone, Copy, PartialEq, Eq, Structural, Debug)]
pub enum FitPolicy {
    Cover,
    Contain,
}

/// The recognized `fit` value selects covering; anything else, absence
/// included, is the default containing fit.
pub open spec fn spec_fit(fit: Option<String>) -> FitPolicy {
    match fit {
        Some(s) => if s@ == "cover"@ {
            FitPolicy::Cover
        } else {
            FitPolicy::Contain
        },
        None => FitPolicy::Contain,
    }
}

/// Maps the optional `fit` parameter to the policy it names.
pub fn fit_of(fit: &Option<String>) -> (r: FitPolicy)
    ensures
        r == spec_fit(*fit),
{
    match fit {
        Some(s) => {
            if crate::policy::str_eq(s.as_str(), "cover") {
                FitPolicy::Cover
            } else {
                FitPolicy::Contain
            }
        },
        None => FitPolicy::Contain,
    }
}

/// The raster the selected fit policy produces for a target box.
pub open spec fn spec_resized(
    img: image::DynamicImage,
    fit: FitPolicy,
    width: u32,
    height: u32,
) -> image::DynamicImage {
    match fit {
        FitPolicy::Cover => spec_covered(img, width, height),
        FitPolicy::Contain => spec_contained(img, width, height),
    }
}

/// The bitstream the configured codec makes of a raster, or nothing where
/// the codec refuses it.
pub open spec fn spec_encoded(img: image::DynamicImage, codec: OutputCodec) -> Option<Seq<u8>> {
    match codec {
        OutputCodec::Png => spec_png_of(img),
        OutputCodec::Webp { quality } => match quality {
            Some(q) => spec_webp_lossy_of(img, q),
            None => spec_webp_lossless_of(img),
        },
    }
}

/// The whole transcode as a function of its inputs: decode, fit onto the
/// target box, encode. Nothing where the bytes do not decode or the codec
/// refuses the resized raster.
pub open spec fn spec_transcoded(
    bytes: Seq<u8>,
    target: TargetDimensions,
    fit: FitPolicy,
    codec: OutputCodec,
) -> Option<Seq<u8>> {
    if spec_decodable(bytes) {
        spec_encoded(spec_resized(spec_decoded(bytes), fit, target.width, target.height), codec)
    } else {
        None
    }
}

/// Why a transcode failed; never surfaced to the client.
#[derive(Clone, Copy, PartialEq, Eq, Structural, Debug)]
pub enum TranscodeError {
    DecodeError,
    EncodeError,
}

/// A successful transcode: the re-encoded bytes and their MIME type.
#[derive(Debug)]
pub struct TranscodeOutput {
    pub bytes: Vec<u8>,
    pub content_type: String,
}

/// Decodes the stored bytes (sniffing the format), applies the selected fit
/// onto the target box, and re-encodes with the configured codec. Succeeds
/// exactly when the bytes decode and the codec accepts the resized raster,
/// and then returns that raster's encoding under the codec's MIME type;
/// fails with the decode error exactly on bytes that do not decode as an
/// image, and with the encode error exactly when the codec refuses an
/// otherwise decodable source.
pub fn transcode(
    buf: &Vec<u8>,
    target: TargetDimensions,
    fit: FitPolicy,
    codec: &OutputCodec,
) -> (r: Result<TranscodeOutput, TranscodeError>)
    requires
        codec.wf(),
        target.wf(),
    ensures
        r is Ok <==> spec_transcoded(buf@, target, fit, *codec) is Some,
        r matches Ok(out) ==> {
            &&& spec_transcoded(buf@, target, fit, *codec) matches Some(b) && out.bytes@ == b
            &&& out.content_type@ == codec.spec_mime()
        },
        (r matches Err(e) && e == TranscodeError::DecodeError) <==> !spec_decodable(buf@),
        (r matches Err(e) && e == TranscodeError::EncodeError) <==> (spec_decodable(buf@)
            && spec_transcoded(buf@, target, fit, *codec) is None),
{
    let decoded = match decode_image(buf.as_slice()) {
        Some(img) => img,
        None => {
            return Err(TranscodeError::DecodeError);
        },
    };
    let resized = match fit {
        FitPolicy::Cover => resize_cover(&decoded, target.width, target.height),
        FitPolicy::Contain => resize_contain(&decoded, target.width, target.height),
    };
    let encoded: Option<Vec<u8>> = match codec {
        OutputCodec::Png => encode_png(&resized),
        OutputCodec::Webp { quality } => match quality {
            Some(q) => encode_webp_lossy(&resized, *q),
            None => encode_webp_lossless(&resized),
        },
    };
    match encoded {
        Some(bytes) => Ok(TranscodeOutput { bytes, content_type: codec.mime_type() }),
        None => Err(TranscodeError::EncodeError),
    }
}

} // verus!
