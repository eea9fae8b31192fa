//! Output formats: parsing the format name and encoding a finished canvas.

use vstd::prelude::*;
use vstd::string::*;
use crate::canvas::Canvas;

verus! {

/// JPEG output is written at this quality, on the encoder's 0-100 scale.
pub const JPEG_QUALITY: u8 = 80;

/// WebP output is written lossily at this quality, on a 0-100 scale.
pub const WEBP_QUALITY: u8 = 75;

/// The raster container formats the generator can write. `jpg` and `jpeg`
/// both name [`OutputFormat::Jpeg`].
#[derive(Clone, Copy, PartialEq, Eq, Structural, Debug)]
pub enum OutputFormat {
    Png,
    Jpeg,
    Bmp,
    Gif,
    Webp,
}

/// ASCII lowercasing of one character; anything outside `A-Z` is unchanged.
pub open spec fn ascii_lower_char(c: char) -> char {
    if 'A' <= c && c <= 'Z' {
        ((c as u8) + 32) as char
    } else {
        c
    }
}

/// ASCII lowercasing of a whole string.
pub open spec fn ascii_lower(s: Seq<char>) -> Seq<char> {
    s.map_values(|c: char| ascii_lower_char(c))
}

/// The format named by `s`, compared case-insensitively, or `None` when `s`
/// names none of the supported formats.
pub open spec fn spec_parse_format(s: Seq<char>) -> Option<OutputFormat> {
    let l = ascii_lower(s);
    if l == "png"@ {
        Some(OutputFormat::Png)
    } else if l == "jpeg"@ || l == "jpg"@ {
        Some(OutputFormat::Jpeg)
    } else if l == "bmp"@ {
        Some(OutputFormat::Bmp)
    } else if l == "gif"@ {
        Some(OutputFormat::Gif)
    } else if l == "webp"@ {
        Some(OutputFormat::Webp)
    } else {
        None
    }
}

/// A format name outside the supported set; `given` is the rejected input.
#[derive(Debug)]
pub struct FormatError {
    pub given: String,
}

impl FormatError {
    /// The diagnostic text for a rejected format name.
    pub fn message(&self) -> (m: String)
        ensures
            m@ == "Unsupported format: "@ + self.given@,
    {
        let mut m = String::from_str("Unsupported format: ");
        m.append(self.given.as_str());
        m
    }
}

fn lower_char(c: char) -> (l: char)
    ensures
        l == ascii_lower_char(c),
{
    let cu: u32 = c as u32;
    if 65 <= cu && cu <= 90 {
        ((cu + 32) as u8) as char
    } else {
        c
    }
}

/// Whether `s` and `t` are equal after ASCII lowercasing of both.
fn eq_lower(s: &str, t: &str) -> (r: bool)
    ensures
        r == (ascii_lower(s@) == ascii_lower(t@)),
{
    let ns = s.unicode_len();
    let nt = t.unicode_len();
    if ns != nt {
        proof {
            assert(ascii_lower(s@).len() == s@.len());
            assert(ascii_lower(t@).len() == t@.len());
        }
        return false;
    }
    let mut i: usize = 0;
    while i < ns
        invariant
            0 <= i <= ns,
            ns == s@.len(),
            ns == t@.len(),
            forall|j: int| 0 <= j < i ==> ascii_lower_char(s@[j]) == ascii_lower_char(t@[j]),
        decreases ns - i,
    {
        if lower_char(s.get_char(i)) != lower_char(t.get_char(i)) {
            assert(ascii_lower(s@)[i as int] != ascii_lower(t@)[i as int]);
            return false;
        }
        i += 1;
    }
    proof {
        assert(ascii_lower(s@) =~= ascii_lower(t@));
    }
    true
}

/// Parses a format name, case-insensitively, from the supported set
/// `{png, jpeg, jpg, bmp, gif, webp}`; any other name is rejected with an
/// error naming the given string.
pub fn parse_format(s: &str) -> (r: Result<OutputFormat, FormatError>)
    ensures
        r is Ok <==> spec_parse_format(s@) is Some,
        r matches Ok(f) ==> Some(f) == spec_parse_format(s@),
        r matches Err(e) ==> e.given@ == s@,
{
    proof {
        reveal_strlit("png");
        reveal_strlit("jpeg");
        reveal_strlit("jpg");
        reveal_strlit("bmp");
        reveal_strlit("gif");
        reveal_strlit("webp");
        assert(ascii_lower("png"@) =~= "png"@);
        assert(ascii_lower("jpeg"@) =~= "jpeg"@);
        assert(ascii_lower("jpg"@) =~= "jpg"@);
        assert(ascii_lower("bmp"@) =~= "bmp"@);
        assert(ascii_lower("gif"@) =~= "gif"@);
        assert(ascii_lower("webp"@) =~= "webp"@);
    }
    if eq_lower(s, "png") {
        Ok(OutputFormat::Png)
    } else if eq_lower(s, "jpeg") || eq_lower(s, "jpg") {
        Ok(OutputFormat::Jpeg)
    } else if eq_lower(s, "bmp") {
        Ok(OutputFormat::Bmp)
    } else if eq_lower(s, "gif") {
        Ok(OutputFormat::Gif)
    } else if eq_lower(s, "webp") {
        Ok(OutputFormat::Webp)
    } else {
        Err(FormatError { given: String::from_str(s) })
    }
}

impl OutputFormat {
    /// The lowercase name of the format.
    pub open spec fn spec_name(self) -> Seq<char> {
        match self {
            OutputFormat::Png => "png"@,
            OutputFormat::Jpeg => "jpeg"@,
            OutputFormat::Bmp => "bmp"@,
            OutputFormat::Gif => "gif"@,
            OutputFormat::Webp => "webp"@,
        }
    }

    pub fn name(&self) -> (n: &'static str)
        ensures
            n@ == self.spec_name(),
    {
        match self {
            OutputFormat::Png => "png",
            OutputFormat::Jpeg => "jpeg",
            OutputFormat::Bmp => "bmp",
            OutputFormat::Gif => "gif",
            OutputFormat::Webp => "webp",
        }
    }
}

/// The error type of the `image` crate's encoders, carried through opaquely.
#[verifier::external_type_specification]
#[verifier::external_body]
pub struct ExImageError(image::ImageError);

/// The PNG encoding of an RGBA buffer, as `image`'s PNG encoder writes it.
pub uninterp spec fn png_encoding(width: u32, height: u32, pixels: Seq<u8>) -> Seq<u8>;

/// The JPEG encoding of an RGBA buffer at a given quality.
pub uninterp spec fn jpeg_encoding(quality: u8, width: u32, height: u32, pixels: Seq<u8>) -> Seq<
    u8,
>;

/// The BMP encoding of an RGBA buffer.
pub uninterp spec fn bmp_encoding(width: u32, height: u32, pixels: Seq<u8>) -> Seq<u8>;

/// The GIF encoding of an RGBA buffer.
pub uninterp spec fn gif_encoding(width: u32, height: u32, pixels: Seq<u8>) -> Seq<u8>;

/// The lossy WebP encoding of an RGBA buffer at a given quality.
pub uninterp spec fn webp_encoding(quality: u8, width: u32, height: u32, pixels: Seq<u8>) -> Seq<
    u8,
>;

/// Relies on image's `PngEncoder::write_image` with an in-memory writer: it
/// fails exactly when a dimension is zero, its output depends only on the
/// dimensions and the pixel bytes, and it panics only on a buffer-length
/// mismatch, which the precondition rules out.
#[verifier::external_body]
fn png_encode(width: u32, height: u32, buf: &Vec<u8>) -> (r: Result<Vec<u8>, image::ImageError>)
    requires
        buf@.len() == 4 * (width as int) * (height as int),
    ensures
        r is Ok <==> (width > 0 && height > 0),
        r matches Ok(b) ==> b@ == png_encoding(width, height, buf@),
{
    let mut out = Vec::new();
    let enc = image::codecs::png::PngEncoder::new(&mut out);
    image::ImageEncoder::write_image(enc, buf, width, height, image::ExtendedColorType::Rgba8)?;
    Ok(out)
}

/// Relies on image's `JpegEncoder::encode_image` with an in-memory writer: it
/// fails exactly when a dimension lies outside 1..=65535, and its output
/// depends only on the quality, the dimensions and the pixel bytes.
#[verifier::external_body]
fn jpeg_encode(quality: u8, width: u32, height: u32, buf: &Vec<u8>) -> (r: Result<
    Vec<u8>,
    image::ImageError,
>)
    requires
        buf@.len() == 4 * (width as int) * (height as int),
    ensures
        r is Ok <==> (1 <= width <= 65535 && 1 <= height <= 65535),
        r matches Ok(b) ==> b@ == jpeg_encoding(quality, width, height, buf@),
{
    let img: image::ImageBuffer<image::Rgba<u8>, &[u8]> = image::ImageBuffer::from_raw(
        width,
        height,
        buf.as_slice(),
    ).unwrap();
    let mut out = Vec::new();
    let mut enc = image::codecs::jpeg::JpegEncoder::new_with_quality(&mut out, quality);
    enc.encode_image(&img)?;
    Ok(out)
}

/// Relies on image's `BmpEncoder::encode` with an in-memory writer: for RGBA
/// input it fails exactly when a computed 32-bit size overflows (the padded
/// rows, or the 122 header bytes plus the pixel data), its output depends
/// only on the dimensions and the pixel bytes, and it panics only on a
/// buffer-length mismatch, which the precondition rules out.
#[verifier::external_body]
fn bmp_encode(width: u32, height: u32, buf: &Vec<u8>) -> (r: Result<Vec<u8>, image::ImageError>)
    requires
        buf@.len() == 4 * (width as int) * (height as int),
    ensures
        r is Ok <==> (4 * (width as int) <= u32::MAX && 4 * (width as int) * (height as int) + 122
            <= u32::MAX),
        r matches Ok(b) ==> b@ == bmp_encoding(width, height, buf@),
{
    let mut out = Vec::new();
    let mut enc = image::codecs::bmp::BmpEncoder::new(&mut out);
    enc.encode(buf, width, height, image::ExtendedColorType::Rgba8)?;
    Ok(out)
}

/// Relies on image's `GifEncoder::encode` with an in-memory writer: it fails
/// exactly when a dimension exceeds 65535, its output depends only on the
/// dimensions and the pixel bytes, and it panics only on a buffer-length
/// mismatch, which the precondition rules out.
#[verifier::external_body]
fn gif_encode(width: u32, height: u32, buf: &Vec<u8>) -> (r: Result<Vec<u8>, image::ImageError>)
    requires
        buf@.len() == 4 * (width as int) * (height as int),
    ensures
        r is Ok <==> (width <= 65535 && height <= 65535),
        r matches Ok(b) ==> b@ == gif_encoding(width, height, buf@),
{
    let mut out = Vec::new();
    {
        let mut enc = image::codecs::gif::GifEncoder::new(&mut out);
        enc.encode(buf, width, height, image::ExtendedColorType::Rgba8)?;
    }
    Ok(out)
}

/// Relies on webp's `Encoder::from_rgba` and `Encoder::encode` (libwebp): for
/// a quality within 0-100 and dimensions within 1..=16383 (the WebP format
/// limit) encoding succeeds, and its output depends only on the quality, the
/// dimensions and the pixel bytes. Outside those bounds, or on a
/// buffer-length mismatch, it panics, which the precondition rules out.
#[verifier::external_body]
fn webp_encode(quality: u8, width: u32, height: u32, buf: &Vec<u8>) -> (r: Vec<u8>)
    requires
        buf@.len() == 4 * (width as int) * (height as int),
        1 <= width <= 16383,
        1 <= height <= 16383,
        quality <= 100,
    ensures
        r@ == webp_encoding(quality, width, height, buf@),
{
    let enc = webp::Encoder::from_rgba(buf, width, height);
    let mem = enc.encode(quality.into());
    mem.to_vec()
}

/// A canvas whose dimensions the chosen encoder cannot represent.
#[derive(Debug)]
pub struct EncodeError {
    pub format: OutputFormat,
}

impl EncodeError {
    /// The diagnostic text for a canvas the encoder rejected.
    pub fn message(&self) -> (m: String)
        ensures
            m@ == "Unsupported dimensions for format: "@ + self.format.spec_name(),
    {
        let mut m = String::from_str("Unsupported dimensions for format: ");
        m.append(self.format.name());
        m
    }
}

/// Whether `format`'s encoder can represent a `width` by `height` image.
pub open spec fn spec_dims_encodable(format: OutputFormat, width: u32, height: u32) -> bool {
    match format {
        OutputFormat::Png => width > 0 && height > 0,
        OutputFormat::Jpeg => 1 <= width <= 65535 && 1 <= height <= 65535,
        OutputFormat::Bmp => 4 * (width as int) <= u32::MAX && 4 * (width as int) * (height as int)
            + 122 <= u32::MAX,
        OutputFormat::Gif => width <= 65535 && height <= 65535,
        OutputFormat::Webp => 1 <= width <= 16383 && 1 <= height <= 16383,
    }
}

/// The encoded bytes of an RGBA buffer in `format`, at the fixed qualities
/// the generator uses for the lossy formats.
pub open spec fn spec_encoding(
    format: OutputFormat,
    width: u32,
    height: u32,
    pixels: Seq<u8>,
) -> Seq<u8> {
    match format {
        OutputFormat::Png => png_encoding(width, height, pixels),
        OutputFormat::Jpeg => jpeg_encoding(JPEG_QUALITY, width, height, pixels),
        OutputFormat::Bmp => bmp_encoding(width, height, pixels),
        OutputFormat::Gif => gif_encoding(width, height, pixels),
        OutputFormat::Webp => webp_encoding(WEBP_QUALITY, width, height, pixels),
    }
}

/// Serializes the canvas in the requested format: PNG, BMP and GIF losslessly,
/// JPEG at quality [`JPEG_QUALITY`] and WebP at quality [`WEBP_QUALITY`].
/// Succeeds exactly when the encoder can represent the canvas dimensions.
pub fn encode_canvas(canvas: &Canvas, format: OutputFormat) -> (r: Result<Vec<u8>, EncodeError>)
    requires
        canvas.wf(),
    ensures
        r is Ok <==> spec_dims_encodable(format, canvas.spec_width(), canvas.spec_height()),
        r matches Ok(b) ==> b@ == spec_encoding(
            format,
            canvas.spec_width(),
            canvas.spec_height(),
            canvas.bytes(),
        ),
        r matches Err(e) ==> e.format == format,
{
    let width = canvas.width();
    let height = canvas.height();
    let buf = canvas.rgba_bytes();
    match format {
        OutputFormat::Png => match png_encode(width, height, buf) {
            Ok(b) => Ok(b),
            Err(_) => Err(EncodeError { format }),
        },
        OutputFormat::Jpeg => match jpeg_encode(JPEG_QUALITY, width, height, buf) {
            Ok(b) => Ok(b),
            Err(_) => Err(EncodeError { format }),
        },
        OutputFormat::Bmp => match bmp_encode(width, height, buf) {
            Ok(b) => Ok(b),
            Err(_) => Err(EncodeError { format }),
        },
        OutputFormat::Gif => match gif_encode(width, height, buf) {
            Ok(b) => Ok(b),
            Err(_) => Err(EncodeError { format }),
        },
        OutputFormat::Webp => {
            if 1 <= width && width <= 16383 && 1 <= height && height <= 16383 {
                Ok(webp_encode(WEBP_QUALITY, width, height, buf))
            } else {
                Err(EncodeError { format })
            }
        },
    }
}

} // verus!
