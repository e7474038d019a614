//! Image engine: decode with `image`, convert to RGBA, encode in the target
//! format. `image` covers every advertised target except HEIC (HEVC decoding
//! is missing) and PDF (the text engine's job). JPEG has no alpha channel, so
//! transparency is composited onto white rather than dropped.
use vstd::prelude::*;
use ::image::ImageEncoder;
use super::{ConvertError, ErrorView, Job, DispatchStep, StepView, opt_view};
use crate::settings::Settings;
use crate::text::{chars_of, eq_str, one_of, views};

verus! {

/// Outputs the engine accepts (SVG is input-only).
pub open spec fn output_list() -> Seq<Seq<char>> {
    seq!["png"@, "jpg"@, "bmp"@, "gif"@, "tiff"@, "webp"@, "heic"@, "ico"@, "pdf"@]
}

/// Outputs the engine accepts (SVG is input-only).
pub fn outputs() -> (r: &'static [&'static str])
    ensures
        views(r@) == output_list(),
{
    let r: &'static [&'static str] = &["png", "jpg", "bmp", "gif", "tiff", "webp", "heic", "ico", "pdf"];
    assert(views(r@) =~= output_list());
    r
}

/// The JPEG quality actually used: the setting clamped to 1..=100.
pub open spec fn clamped_quality(q: u8) -> u8 {
    if q < 1 { 1 } else if q > 100 { 100 } else { q }
}

/// "no output path resolved for <input>".
pub open spec fn no_output_text(input: Seq<char>) -> Seq<char> {
    "no output path resolved for "@ + input
}

/// What the image engine does with a job: refuse it, or transcode it.
pub open spec fn image_step(input: Seq<char>, ext: Seq<char>, output: Option<Seq<char>>, quality: u8) -> StepView {
    if !output_list().contains(ext) {
        StepView::Finished(Err(ErrorView::Unsupported("image"@, ext)))
    } else if output is None {
        StepView::Finished(Err(ErrorView::Io(no_output_text(input))))
    } else if ext == "heic"@ {
        StepView::Finished(Err(ErrorView::HevcUnsupported))
    } else if ext == "pdf"@ {
        StepView::Finished(Err(ErrorView::Unsupported(ext, "pdf belongs to the text engine (SQU-51)"@)))
    } else {
        StepView::Transcode(input, output->0, ext, clamped_quality(quality))
    }
}

/// The image engine's decision for a job whose output path `dispatch` has
/// resolved.
pub fn convert(job: &Job, settings: &Settings) -> (r: DispatchStep)
    ensures
        r@ == image_step(job.input@, job.output_ext@, opt_view(job.output), settings.jpeg_quality),
{
    let ext = chars_of(job.output_ext.as_str());
    if !one_of(&ext, outputs()) {
        return DispatchStep::Finished(
            Err(ConvertError::Unsupported("image".to_owned(), job.output_ext.clone())),
        );
    }
    let output = match &job.output {
        Some(o) => o.clone(),
        None => {
            let mut m = "no output path resolved for ".to_owned();
            m.append(job.input.as_str());
            return DispatchStep::Finished(Err(ConvertError::Io(m)));
        },
    };
    if eq_str(&ext, "heic") {
        return DispatchStep::Finished(Err(ConvertError::HevcUnsupported));
    }
    if eq_str(&ext, "pdf") {
        return DispatchStep::Finished(
            Err(
                ConvertError::Unsupported(
                    job.output_ext.clone(),
                    "pdf belongs to the text engine (SQU-51)".to_owned(),
                ),
            ),
        );
    }
    let q = settings.jpeg_quality;
    let quality: u8 = if q < 1 {
        1
    } else if q > 100 {
        100
    } else {
        q
    };
    DispatchStep::Transcode { input: job.input.clone(), output, ext: job.output_ext.clone(), jpeg_quality: quality }
}

/// One channel of a pixel composited onto white:
/// `value * alpha + 255 * (255 - alpha)`, divided by 255, rounded.
pub open spec fn blend(value: u8, alpha: u8) -> u8 {
    ((value * alpha + 255 * (255 - alpha) + 127) / 255) as u8
}

/// RGBA8 composited onto an opaque white background, as RGB8. A trailing
/// partial pixel is ignored.
pub open spec fn flattened(rgba: Seq<u8>) -> Seq<u8> {
    Seq::new(
        (3 * (rgba.len() / 4)) as nat,
        |i: int| blend(rgba[4 * (i / 3) + i % 3], rgba[4 * (i / 3) + 3]),
    )
}

fn blend_channel(value: u8, alpha: u8) -> (r: u8)
    ensures
        r == blend(value, alpha),
{
    let v = value as u32;
    let a = alpha as u32;
    assert(v * a <= 255 * 255) by (nonlinear_arith)
        requires
            v <= 255,
            a <= 255,
    ;
    assert(v * a <= 255 * a) by (nonlinear_arith)
        requires
            v <= 255,
    ;
    assert((v * a + 255 * (255 - a) + 127) / 255 <= 255) by (nonlinear_arith)
        requires
            v <= 255,
            a <= 255,
            v * a <= 255 * a,
    ;
    let blended = (v * a + 255 * (255 - a) + 127) / 255;
    blended as u8
}

/// Composite RGBA8 onto an opaque white background, returning RGB8.
pub fn flatten_onto_white(rgba: &[u8], width: u32, height: u32) -> (r: Vec<u8>)
    ensures
        r@ == flattened(rgba@),
{
    let len = rgba.len();
    let pixels = len / 4;
    let mut rgb: Vec<u8> = Vec::new();
    let mut k: usize = 0;
    while k < pixels
        invariant
            len == rgba@.len(),
            pixels == len / 4,
            k <= pixels,
            rgb@.len() == 3 * k,
            forall|i: int| 0 <= i < 3 * k ==> rgb@[i] == #[trigger] flattened(rgba@)[i],
        decreases pixels - k,
    {
        assert(4 * k + 4 <= len) by (nonlinear_arith)
            requires
                k < pixels,
                pixels == len / 4,
        ;
        let base = 4 * k;
        let alpha = rgba[base + 3];
        let r0 = blend_channel(rgba[base], alpha);
        let g0 = blend_channel(rgba[base + 1], alpha);
        let b0 = blend_channel(rgba[base + 2], alpha);
        rgb.push(r0);
        rgb.push(g0);
        rgb.push(b0);
        assert forall|i: int| 3 * k <= i < 3 * k + 3 implies rgb@[i] == #[trigger] flattened(
            rgba@,
        )[i] by {
            assert(i / 3 == k);
            assert(i % 3 == i - 3 * k);
        }
        k = k + 1;
    }
    assert(rgb@ =~= flattened(rgba@));
    rgb
}

/// The bytes an encoder produced, or its error text, as views.
pub open spec fn bytes_view(r: Result<Vec<u8>, String>) -> Result<Seq<u8>, Seq<char>> {
    match r {
        Ok(b) => Ok(b@),
        Err(e) => Err(e@),
    }
}

/// What `image` decodes from `bytes` read from a file at `path` (whose
/// extension names the format): RGBA8 pixels, width and height, or the
/// decoder's error text.
pub uninterp spec fn decoded(bytes: Seq<u8>, path: Seq<char>) -> Result<(Seq<u8>, u32, u32), Seq<char>>;

/// `image::ImageFormat::from_path` picks the format from the path's extension,
/// `image::load_from_memory_with_format` decodes `bytes` as that format, and
/// the result is converted to RGBA8 (`DynamicImage::to_rgba8`). Claimed: the
/// outcome is a function of the bytes and the path (`decoded`), and an RGBA8
/// buffer holds four bytes per pixel.
#[verifier::external_body]
fn decode_rgba(bytes: &[u8], path: &str) -> (r: Result<(Vec<u8>, u32, u32), String>)
    ensures
        match r {
            Ok((pixels, width, height)) => decoded(bytes@, path@) == Ok::<
                (Seq<u8>, u32, u32),
                Seq<char>,
            >((pixels@, width, height)) && pixels@.len() == width * height * 4,
            Err(e) => decoded(bytes@, path@) == Err::<(Seq<u8>, u32, u32), Seq<char>>(e@),
        },
{
    let format = ::image::ImageFormat::from_path(path).map_err(|e| e.to_string())?;
    let rgba = ::image::load_from_memory_with_format(bytes, format).map_err(|e| e.to_string())?.to_rgba8();
    let (width, height) = rgba.dimensions();
    Ok((rgba.into_raw(), width, height))
}

/// PNG bytes for an RGBA8 image, or the encoder's error text.
pub uninterp spec fn png_encoded(rgba: Seq<u8>, width: u32, height: u32) -> Result<Seq<u8>, Seq<char>>;

/// `image::codecs::png::PngEncoder::write_image` on RGBA8 into memory.
/// Claimed: the outcome is a function of the pixels and dimensions; the
/// encoder panics unless the buffer holds exactly four bytes per pixel.
#[verifier::external_body]
fn encode_png(rgba: &[u8], width: u32, height: u32) -> (r: Result<Vec<u8>, String>)
    requires
        rgba@.len() == width * height * 4,
    ensures
        bytes_view(r) == png_encoded(rgba@, width, height),
{
    let mut out: Vec<u8> = Vec::new();
    ::image::codecs::png::PngEncoder::new(&mut out).write_image(rgba, width, height, ::image::ExtendedColorType::Rgba8).map_err(|e| e.to_string())?;
    Ok(out)
}

/// BMP bytes for an RGBA8 image, or the encoder's error text.
pub uninterp spec fn bmp_encoded(rgba: Seq<u8>, width: u32, height: u32) -> Result<Seq<u8>, Seq<char>>;

/// `image::codecs::bmp::BmpEncoder::write_image` on RGBA8 into memory.
/// Claimed: the outcome is a function of the pixels and dimensions; the
/// encoder panics unless the buffer holds exactly four bytes per pixel.
#[verifier::external_body]
fn encode_bmp(rgba: &[u8], width: u32, height: u32) -> (r: Result<Vec<u8>, String>)
    requires
        rgba@.len() == width * height * 4,
    ensures
        bytes_view(r) == bmp_encoded(rgba@, width, height),
{
    let mut out: Vec<u8> = Vec::new();
    ::image::codecs::bmp::BmpEncoder::new(&mut out).write_image(rgba, width, height, ::image::ExtendedColorType::Rgba8).map_err(|e| e.to_string())?;
    Ok(out)
}

/// GIF bytes for an RGBA8 image, or the encoder's error text.
pub uninterp spec fn gif_encoded(rgba: Seq<u8>, width: u32, height: u32) -> Result<Seq<u8>, Seq<char>>;

/// `image::codecs::gif::GifEncoder::write_image` on RGBA8 into memory; the
/// trailer is written when the encoder is dropped at the end of the call.
/// Claimed: the outcome is a function of the pixels and dimensions; the
/// encoder panics unless the buffer holds exactly four bytes per pixel.
#[verifier::external_body]
fn encode_gif(rgba: &[u8], width: u32, height: u32) -> (r: Result<Vec<u8>, String>)
    requires
        rgba@.len() == width * height * 4,
    ensures
        bytes_view(r) == gif_encoded(rgba@, width, height),
{
    let mut out: Vec<u8> = Vec::new();
    ::image::codecs::gif::GifEncoder::new(&mut out).write_image(rgba, width, height, ::image::ExtendedColorType::Rgba8).map_err(|e| e.to_string())?;
    Ok(out)
}

/// TIFF bytes for an RGBA8 image, or the encoder's error text.
pub uninterp spec fn tiff_encoded(rgba: Seq<u8>, width: u32, height: u32) -> Result<Seq<u8>, Seq<char>>;

/// `image::codecs::tiff::TiffEncoder::write_image` on RGBA8 into an in-memory
/// cursor (TIFF needs a seekable writer). Claimed: the outcome is a function
/// of the pixels and dimensions; the encoder panics unless the buffer holds
/// exactly four bytes per pixel.
#[verifier::external_body]
fn encode_tiff(rgba: &[u8], width: u32, height: u32) -> (r: Result<Vec<u8>, String>)
    requires
        rgba@.len() == width * height * 4,
    ensures
        bytes_view(r) == tiff_encoded(rgba@, width, height),
{
    let mut out = std::io::Cursor::new(Vec::new());
    ::image::codecs::tiff::TiffEncoder::new(&mut out).write_image(rgba, width, height, ::image::ExtendedColorType::Rgba8).map_err(|e| e.to_string())?;
    Ok(out.into_inner())
}

/// Lossless WebP bytes for an RGBA8 image, or the encoder's error text.
pub uninterp spec fn webp_encoded(rgba: Seq<u8>, width: u32, height: u32) -> Result<Seq<u8>, Seq<char>>;

/// `image::codecs::webp::WebPEncoder::new_lossless` then `write_image` on
/// RGBA8 into memory. Claimed: the outcome is a function of the pixels and
/// dimensions; the encoder panics unless the buffer holds exactly four bytes
/// per pixel.
#[verifier::external_body]
fn encode_webp(rgba: &[u8], width: u32, height: u32) -> (r: Result<Vec<u8>, String>)
    requires
        rgba@.len() == width * height * 4,
    ensures
        bytes_view(r) == webp_encoded(rgba@, width, height),
{
    let mut out: Vec<u8> = Vec::new();
    ::image::codecs::webp::WebPEncoder::new_lossless(&mut out).write_image(rgba, width, height, ::image::ExtendedColorType::Rgba8).map_err(|e| e.to_string())?;
    Ok(out)
}

/// ICO bytes for an RGBA8 image, or the encoder's error text.
pub uninterp spec fn ico_encoded(rgba: Seq<u8>, width: u32, height: u32) -> Result<Seq<u8>, Seq<char>>;

/// `image::codecs::ico::IcoEncoder::write_image` on RGBA8 into memory.
/// Claimed: the outcome is a function of the pixels and dimensions; the
/// encoder panics unless the buffer holds exactly four bytes per pixel.
#[verifier::external_body]
fn encode_ico(rgba: &[u8], width: u32, height: u32) -> (r: Result<Vec<u8>, String>)
    requires
        rgba@.len() == width * height * 4,
    ensures
        bytes_view(r) == ico_encoded(rgba@, width, height),
{
    let mut out: Vec<u8> = Vec::new();
    ::image::codecs::ico::IcoEncoder::new(&mut out).write_image(rgba, width, height, ::image::ExtendedColorType::Rgba8).map_err(|e| e.to_string())?;
    Ok(out)
}

/// JPEG bytes at `quality` for an RGB8 image, or the encoder's error text.
pub uninterp spec fn jpeg_encoded(rgb: Seq<u8>, width: u32, height: u32, quality: u8) -> Result<Seq<u8>, Seq<char>>;

/// `image::codecs::jpeg::JpegEncoder::new_with_quality` then `write_image` on
/// RGB8 into memory. Claimed: the outcome is a function of the pixels,
/// dimensions and quality; the encoder panics unless the buffer holds exactly
/// three bytes per pixel.
#[verifier::external_body]
fn encode_jpeg(rgb: &[u8], width: u32, height: u32, quality: u8) -> (r: Result<Vec<u8>, String>)
    requires
        rgb@.len() == width * height * 3,
    ensures
        bytes_view(r) == jpeg_encoded(rgb@, width, height, quality),
{
    let mut out: Vec<u8> = Vec::new();
    ::image::codecs::jpeg::JpegEncoder::new_with_quality(&mut out, quality).write_image(rgb, width, height, ::image::ExtendedColorType::Rgb8).map_err(|e| e.to_string())?;
    Ok(out)
}

/// A decoded image: RGBA8 pixels and dimensions.
#[derive(Debug)]
pub struct Decoded {
    pub rgba: Vec<u8>,
    pub width: u32,
    pub height: u32,
}

/// "<input> cannot be read as an image: <detail>".
pub open spec fn unreadable_text(input: Seq<char>, detail: Seq<char>) -> Seq<char> {
    input + " cannot be read as an image: "@ + detail
}

/// Decode the bytes read from `input` into RGBA8.
pub fn transcode(input: &str, bytes: &[u8]) -> (r: Result<Decoded, ConvertError>)
    ensures
        match decoded(bytes@, input@) {
            Ok((pixels, width, height)) => r matches Ok(d) && d.rgba@ == pixels && d.width == width
                && d.height == height && pixels.len() == width * height * 4,
            Err(detail) => r matches Err(e) && e@ == ErrorView::Io(unreadable_text(input@, detail)),
        },
{
    match decode_rgba(bytes, input) {
        Ok((rgba, width, height)) => Ok(Decoded { rgba, width, height }),
        Err(detail) => {
            let mut m = input.to_owned();
            m.append(" cannot be read as an image: ");
            m.append(detail.as_str());
            Err(ConvertError::Io(m))
        },
    }
}

/// "<output> could not be encoded: <detail>".
pub open spec fn unencodable_text(output: Seq<char>, detail: Seq<char>) -> Seq<char> {
    output + " could not be encoded: "@ + detail
}

/// The encoding of an RGBA8 image as `ext`, as the engine produces it.
pub open spec fn encoding(ext: Seq<char>, rgba: Seq<u8>, width: u32, height: u32, quality: u8) -> Option<Result<Seq<u8>, Seq<char>>> {
    if ext == "jpg"@ || ext == "jpeg"@ {
        Some(jpeg_encoded(flattened(rgba), width, height, quality))
    } else if ext == "png"@ {
        Some(png_encoded(rgba, width, height))
    } else if ext == "bmp"@ {
        Some(bmp_encoded(rgba, width, height))
    } else if ext == "gif"@ {
        Some(gif_encoded(rgba, width, height))
    } else if ext == "tiff"@ {
        Some(tiff_encoded(rgba, width, height))
    } else if ext == "webp"@ {
        Some(webp_encoded(rgba, width, height))
    } else if ext == "ico"@ {
        Some(ico_encoded(rgba, width, height))
    } else {
        None
    }
}

/// What `write` yields for `ext`.
pub open spec fn written(output: Seq<char>, ext: Seq<char>, rgba: Seq<u8>, width: u32, height: u32, quality: u8) -> Result<Seq<u8>, ErrorView> {
    match encoding(ext, rgba, width, height, quality) {
        None => Err(ErrorView::Unsupported("image"@, ext)),
        Some(Ok(bytes)) => Ok(bytes),
        Some(Err(detail)) => Err(ErrorView::Io(unencodable_text(output, detail))),
    }
}

pub open spec fn written_view(r: Result<Vec<u8>, ConvertError>) -> Result<Seq<u8>, ErrorView> {
    match r {
        Ok(b) => Ok(b@),
        Err(e) => Err(e@),
    }
}

fn encode_error(output: &str, detail: String) -> (r: ConvertError)
    ensures
        r@ == ErrorView::Io(unencodable_text(output@, detail@)),
{
    let mut m = output.to_owned();
    m.append(" could not be encoded: ");
    m.append(detail.as_str());
    ConvertError::Io(m)
}

fn map_encoded(output: &str, r: Result<Vec<u8>, String>) -> (out: Result<Vec<u8>, ConvertError>)
    ensures
        written_view(out) == match bytes_view(r) {
            Ok(bytes) => Ok(bytes),
            Err(detail) => Err::<Seq<u8>, ErrorView>(ErrorView::Io(unencodable_text(output@, detail))),
        },
{
    match r {
        Ok(bytes) => Ok(bytes),
        Err(detail) => Err(encode_error(output, detail)),
    }
}

/// The bytes of the image re-encoded as `ext`, for writing to `output`. JPEG
/// gets the image composited onto white at `jpeg_quality`; the other targets
/// keep the alpha channel.
pub fn write(output: &str, ext: &str, rgba: &[u8], width: u32, height: u32, jpeg_quality: u8) -> (r: Result<Vec<u8>, ConvertError>)
    requires
        rgba@.len() == width * height * 4,
    ensures
        written_view(r) == written(output@, ext@, rgba@, width, height, jpeg_quality),
{
    let e = chars_of(ext);
    if eq_str(&e, "jpg") || eq_str(&e, "jpeg") {
        let rgb = flatten_onto_white(rgba, width, height);
        assert(rgb@.len() == width * height * 3) by (nonlinear_arith)
            requires
                rgb@.len() == 3 * (rgba@.len() / 4),
                rgba@.len() == width * height * 4,
        ;
        return map_encoded(output, encode_jpeg(rgb.as_slice(), width, height, jpeg_quality));
    }
    if eq_str(&e, "png") {
        map_encoded(output, encode_png(rgba, width, height))
    } else if eq_str(&e, "bmp") {
        map_encoded(output, encode_bmp(rgba, width, height))
    } else if eq_str(&e, "gif") {
        map_encoded(output, encode_gif(rgba, width, height))
    } else if eq_str(&e, "tiff") {
        map_encoded(output, encode_tiff(rgba, width, height))
    } else if eq_str(&e, "webp") {
        map_encoded(output, encode_webp(rgba, width, height))
    } else if eq_str(&e, "ico") {
        map_encoded(output, encode_ico(rgba, width, height))
    } else {
        Err(ConvertError::Unsupported("image".to_owned(), ext.to_owned()))
    }
}

/// A transparent pixel comes out white, an opaque one keeps its colour.
pub proof fn law_flatten_extremes(value: u8)
    ensures
        blend(value, 0) == 255,
        blend(value, 255) == value,
{
    assert(value * 0 == 0);
    assert((value * 255 + 127) / 255 == value) by (nonlinear_arith)
        requires
            value <= 255,
    ;
}

/// The image engine accepts PNG, JPG, BMP, GIF, TIFF, WebP, HEIC, ICO and PDF
/// as targets (HEIC and PDF only to explain why they cannot be produced).
pub proof fn law_image_engine_targets()
    ensures
        output_list() == seq!["png"@, "jpg"@, "bmp"@, "gif"@, "tiff"@, "webp"@, "heic"@, "ico"@, "pdf"@],
{
}

} // verus!
