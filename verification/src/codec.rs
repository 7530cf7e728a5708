use vstd::prelude::*;
use base64::Engine;
use crate::raster::Raster;

verus! {

// ---------------------------------------------------------------------------
// base64
// ---------------------------------------------------------------------------

/// What base64's STANDARD engine decodes a text to: the bytes, or the
/// decoder's own error description when the text is not standard base64.
pub uninterp spec fn b64_decode_of(s: Seq<char>) -> Result<Seq<u8>, Seq<char>>;

/// What base64's STANDARD engine encodes a byte sequence to.
pub uninterp spec fn b64_encode_of(b: Seq<u8>) -> Seq<char>;

/// Relies on base64's STANDARD engine decode: a pure function of the input
/// text, failing exactly on text that is not standard base64; the error
/// description is the decoder's own.
#[verifier::external_body]
pub(crate) fn b64_decode(s: &str) -> (r: Result<Vec<u8>, String>)
    ensures
        r is Ok <==> b64_decode_of(s@) is Ok,
        r matches Ok(v) ==> (b64_decode_of(s@) matches Ok(bs) && bs == v@),
        r matches Err(e) ==> (b64_decode_of(s@) matches Err(c) && c == e@),
{
    match base64::engine::general_purpose::STANDARD.decode(s) {
        Ok(v) => Ok(v),
        Err(e) => Err(e.to_string()),
    }
}

/// Relies on base64's STANDARD engine encode: a pure function of the input
/// bytes.
#[verifier::external_body]
pub(crate) fn b64_encode(b: &Vec<u8>) -> (r: String)
    ensures
        r@ == b64_encode_of(b@),
{
    base64::engine::general_purpose::STANDARD.encode(b)
}

// ---------------------------------------------------------------------------
// PNG header
// ---------------------------------------------------------------------------

/// The byte sequence opens with the eight-byte PNG signature and is long
/// enough to hold the IHDR width and height fields.
pub open spec fn is_png_header(b: Seq<u8>) -> bool {
    b.len() >= 24 && b[0] == 0x89u8 && b[1] == 0x50u8 && b[2] == 0x4eu8 && b[3] == 0x47u8
        && b[4] == 0x0du8 && b[5] == 0x0au8 && b[6] == 0x1au8 && b[7] == 0x0au8
}

/// The big-endian 32-bit integer stored at byte offset `i`.
pub open spec fn be_u32(b: Seq<u8>, i: int) -> int {
    b[i] * 0x100_0000 + b[i + 1] * 0x1_0000 + b[i + 2] * 0x100 + b[i + 3]
}

/// Read the width and height out of a PNG byte stream: the two big-endian
/// 32-bit fields at offsets 16 and 20 of the IHDR chunk. Bytes that do not
/// open with the PNG signature yield `None`.
pub fn png_dimensions(bytes: &Vec<u8>) -> (r: Option<(u32, u32)>)
    ensures
        r is Some <==> is_png_header(bytes@),
        r matches Some(d) ==> d.0 == be_u32(bytes@, 16) && d.1 == be_u32(bytes@, 20),
{
    if bytes.len() < 24 {
        return None;
    }
    if !(*bytes.get(0).unwrap() == 0x89u8 && *bytes.get(1).unwrap() == 0x50u8
        && *bytes.get(2).unwrap() == 0x4eu8 && *bytes.get(3).unwrap() == 0x47u8
        && *bytes.get(4).unwrap() == 0x0du8 && *bytes.get(5).unwrap() == 0x0au8
        && *bytes.get(6).unwrap() == 0x1au8 && *bytes.get(7).unwrap() == 0x0au8) {
        return None;
    }
    let w: u32 = (*bytes.get(16).unwrap() as u32) * 0x100_0000
        + (*bytes.get(17).unwrap() as u32) * 0x1_0000
        + (*bytes.get(18).unwrap() as u32) * 0x100
        + (*bytes.get(19).unwrap() as u32);
    let h: u32 = (*bytes.get(20).unwrap() as u32) * 0x100_0000
        + (*bytes.get(21).unwrap() as u32) * 0x1_0000
        + (*bytes.get(22).unwrap() as u32) * 0x100
        + (*bytes.get(23).unwrap() as u32);
    Some((w, h))
}

/// Decode a base64 text and read the PNG dimensions out of the decoded bytes.
pub fn get_image_dimensions(base64_data: &str) -> (r: Option<(u32, u32)>)
    ensures
        b64_decode_of(base64_data@) is Err ==> r is None,
        b64_decode_of(base64_data@) matches Ok(bs) ==> {
            &&& r is Some <==> is_png_header(bs)
            &&& r matches Some(d) ==> d.0 == be_u32(bs, 16) && d.1 == be_u32(bs, 20)
        },
{
    match b64_decode(base64_data) {
        Err(_) => None,
        Ok(bytes) => png_dimensions(&bytes),
    }
}

// ---------------------------------------------------------------------------
// Output format tokens
// ---------------------------------------------------------------------------

/// A target container format for encoding. Tokens that name no supported
/// format fall back to PNG; that fallback is a design choice, not an error.
#[derive(Debug, Clone, Copy, PartialEq, Eq, Structural)]
pub enum OutputFormat {
    Png,
    Jpeg,
    WebP,
}

/// The code under which an output format stands in codec contracts.
pub open spec fn format_code(f: OutputFormat) -> int {
    match f {
        OutputFormat::Png => 0,
        OutputFormat::Jpeg => 1,
        OutputFormat::WebP => 2,
    }
}

/// ASCII upper-case letters folded to lower case; every other character kept.
pub open spec fn lower_code(c: char) -> int {
    if 65 <= c as int && c as int <= 90 { c as int + 32 } else { c as int }
}

/// Equality of two texts up to ASCII case.
pub open spec fn eq_ignore_ascii_case(a: Seq<char>, b: Seq<char>) -> bool {
    a.len() == b.len() && forall|i: int| 0 <= i < a.len() ==> lower_code(a[i]) == lower_code(b[i])
}

/// The format a token selects: "jpg" and "jpeg" select JPEG, "webp" selects
/// WebP, ASCII case notwithstanding; anything else selects PNG.
pub open spec fn format_of_token(s: Seq<char>) -> OutputFormat {
    if eq_ignore_ascii_case(s, "jpg"@) || eq_ignore_ascii_case(s, "jpeg"@) {
        OutputFormat::Jpeg
    } else if eq_ignore_ascii_case(s, "webp"@) {
        OutputFormat::WebP
    } else {
        OutputFormat::Png
    }
}

fn eq_ic(a: &str, b: &str) -> (r: bool)
    ensures
        r == eq_ignore_ascii_case(a@, b@),
{
    let la = a.unicode_len();
    let lb = b.unicode_len();
    if la != lb {
        return false;
    }
    let mut i: usize = 0;
    while i < la
        invariant
            0 <= i <= la,
            la == a@.len(),
            la == b@.len(),
            forall|k: int| 0 <= k < i ==> lower_code(a@[k]) == lower_code(b@[k]),
        decreases la - i,
    {
        let ca = a.get_char(i) as u32;
        let cb = b.get_char(i) as u32;
        let fa = if 65 <= ca && ca <= 90 { ca + 32 } else { ca };
        let fb = if 65 <= cb && cb <= 90 { cb + 32 } else { cb };
        if fa != fb {
            return false;
        }
        i = i + 1;
    }
    true
}

/// Map a format token to the format it selects.
pub fn output_format(token: &str) -> (f: OutputFormat)
    ensures
        f == format_of_token(token@),
{
    if eq_ic(token, "jpg") || eq_ic(token, "jpeg") {
        OutputFormat::Jpeg
    } else if eq_ic(token, "webp") {
        OutputFormat::WebP
    } else {
        OutputFormat::Png
    }
}

// ---------------------------------------------------------------------------
// Raster codecs
// ---------------------------------------------------------------------------

/// What the image crate decodes a byte stream to, read as an RGBA raster:
/// width, height and pixel buffer; or the decoder's own error description
/// when the bytes hold no decodable image. The container format is
/// auto-detected from the bytes.
pub uninterp spec fn decoded_image_of(b: Seq<u8>) -> Result<(u32, u32, Seq<u8>), Seq<char>>;

/// What the image crate encodes an RGBA raster to under a given format code,
/// or the encoder's own error description where it rejects the raster.
pub uninterp spec fn encoded_image_of(p: Seq<u8>, w: int, h: int, f: int) -> Result<Seq<u8>, Seq<char>>;

/// Relies on image::load_from_memory (container auto-detected) and
/// DynamicImage::to_rgba8: the decoded raster and any error description are
/// functions of the input bytes alone, and the raw buffer of an RGBA image
/// buffer holds exactly width * height * 4 bytes.
#[verifier::external_body]
pub(crate) fn decode_raster(bytes: &Vec<u8>) -> (r: Result<Raster, String>)
    ensures
        r is Ok <==> decoded_image_of(bytes@) is Ok,
        r matches Ok(img) ==> img.wf() && (decoded_image_of(bytes@) matches Ok(t)
            && t == (img.width, img.height, img.pixels@)),
        r matches Err(e) ==> (decoded_image_of(bytes@) matches Err(c) && c == e@),
{
    match image::load_from_memory(bytes) {
        Ok(img) => {
            let rgba = img.to_rgba8();
            let (w, h) = (rgba.width(), rgba.height());
            Ok(Raster { width: w, height: h, pixels: rgba.into_raw() })
        }
        Err(e) => Err(e.to_string()),
    }
}

/// Relies on image's resize_exact with the Lanczos3 filter: the result has
/// exactly the requested dimensions, its RGBA buffer holds nw * nh * 4 bytes,
/// and the resampled content is a function of the input raster and the target
/// size alone.
#[verifier::external_body]
pub(crate) fn resize_raster(r: &Raster, nw: u32, nh: u32) -> (out: Raster)
    requires
        r.wf(),
        nw > 0,
        nh > 0,
    ensures
        out.width == nw,
        out.height == nh,
        out.wf(),
        out.pixels@ == lanczos3_resize_of(
            r.pixels@, r.width as int, r.height as int, nw as int, nh as int,
        ),
{
    let buf = image::RgbaImage::from_raw(r.width, r.height, r.pixels.clone()).unwrap();
    let resized = image::DynamicImage::ImageRgba8(buf)
        .resize_exact(nw, nh, image::imageops::FilterType::Lanczos3);
    let rgba = resized.to_rgba8();
    let (w, h) = (rgba.width(), rgba.height());
    Raster { width: w, height: h, pixels: rgba.into_raw() }
}

/// What image's Lanczos3 resize_exact resamples an RGBA buffer to.
pub uninterp spec fn lanczos3_resize_of(p: Seq<u8>, w: int, h: int, nw: int, nh: int) -> Seq<u8>;

/// Relies on image's DynamicImage::write_to for the PNG, JPEG and WebP
/// encoders: the encoded bytes and any error description are functions of
/// the raster and the format alone. (For JPEG, write_to first drops the
/// alpha channel, since that encoder takes no RGBA input; the bytes are
/// still a function of the raster.)
#[verifier::external_body]
pub(crate) fn encode_raster(r: &Raster, f: OutputFormat) -> (out: Result<Vec<u8>, String>)
    requires
        r.wf(),
    ensures
        out is Ok <==> encoded_image_of(
            r.pixels@, r.width as int, r.height as int, format_code(f),
        ) is Ok,
        out matches Ok(v) ==> (encoded_image_of(
            r.pixels@, r.width as int, r.height as int, format_code(f),
        ) matches Ok(bs) && bs == v@),
        out matches Err(e) ==> (encoded_image_of(
            r.pixels@, r.width as int, r.height as int, format_code(f),
        ) matches Err(c) && c == e@),
{
    let buf = image::RgbaImage::from_raw(r.width, r.height, r.pixels.clone()).unwrap();
    let fmt = match f {
        OutputFormat::Png => image::ImageFormat::Png,
        OutputFormat::Jpeg => image::ImageFormat::Jpeg,
        OutputFormat::WebP => image::ImageFormat::WebP,
    };
    let mut cursor = std::io::Cursor::new(Vec::new());
    match image::DynamicImage::ImageRgba8(buf).write_to(&mut cursor, fmt) {
        Ok(_) => Ok(cursor.into_inner()),
        Err(e) => Err(e.to_string()),
    }
}

/// What decoding a base64 image text yields: the raster's dimensions and
/// pixels, or the error message, which preserves the failing codec's own
/// description of the cause.
pub open spec fn decode_image_result(s: Seq<char>) -> Result<(u32, u32, Seq<u8>), Seq<char>> {
    match b64_decode_of(s) {
        Err(cause) => Err("Failed to decode base64: "@ + cause),
        Ok(bs) => match decoded_image_of(bs) {
            Err(cause) => Err("Failed to load image: "@ + cause),
            Ok(t) => Ok(t),
        },
    }
}

/// Decode a base64 text to an RGBA raster. An error preserves the underlying
/// cause message of the stage that failed.
pub fn decode_image(base64_data: &str) -> (r: Result<Raster, String>)
    ensures
        r is Ok <==> decode_image_result(base64_data@) is Ok,
        r matches Ok(img) ==> img.wf() && (decode_image_result(base64_data@) matches Ok(t)
            && t == (img.width, img.height, img.pixels@)),
        r matches Err(m) ==> (decode_image_result(base64_data@) matches Err(c) && c == m@),
{
    match b64_decode(base64_data) {
        Err(cause) => Err(String::from_str("Failed to decode base64: ").concat(cause.as_str())),
        Ok(bytes) => match decode_raster(&bytes) {
            Err(cause) => Err(String::from_str("Failed to load image: ").concat(cause.as_str())),
            Ok(img) => Ok(img),
        },
    }
}

/// What encoding a raster under a format token yields: the encoded bytes as
/// base64 text, or the error message, which preserves the encoder's own
/// description of the cause.
pub open spec fn encode_image_result(p: Seq<u8>, w: int, h: int, token: Seq<char>) -> Result<
    Seq<char>,
    Seq<char>,
> {
    match encoded_image_of(p, w, h, format_code(format_of_token(token))) {
        Err(cause) => Err("Failed to encode image: "@ + cause),
        Ok(bs) => Ok(b64_encode_of(bs)),
    }
}

/// Encode a raster under the format a token selects and return the encoded
/// bytes as base64 text. An error preserves the encoder's underlying cause
/// message.
pub fn encode_image(img: &Raster, format: &str) -> (r: Result<String, String>)
    requires
        img.wf(),
    ensures
        r is Ok <==> encode_image_result(
            img.pixels@, img.width as int, img.height as int, format@,
        ) is Ok,
        r matches Ok(s) ==> (encode_image_result(
            img.pixels@, img.width as int, img.height as int, format@,
        ) matches Ok(t) && t == s@),
        r matches Err(m) ==> (encode_image_result(
            img.pixels@, img.width as int, img.height as int, format@,
        ) matches Err(c) && c == m@),
{
    let f = output_format(format);
    match encode_raster(img, f) {
        Ok(bytes) => Ok(b64_encode(&bytes)),
        Err(cause) => Err(String::from_str("Failed to encode image: ").concat(cause.as_str())),
    }
}

} // verus!
