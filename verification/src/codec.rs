//! The encoders that the library borrows: JSON, the QR symbol, PNG, base64 and
//! two text conversions of the standard library. Each is reached through one
//! function whose contract is taken on trust; what an encoder returns is
//! given a name, so that callers can say exactly which encoder output they
//! hand on.

use vstd::prelude::*;

verus! {

/// A single-channel image, one byte of luminance per pixel, row by row.
#[derive(Clone, Debug)]
pub struct Bitmap {
    pub width: u32,
    pub height: u32,
    pub pixels: Vec<u8>,
}

impl Bitmap {
    /// There is exactly one byte for each pixel.
    pub open spec fn wf(&self) -> bool {
        self.pixels@.len() == self.width * self.height
    }
}

/// What a rendering attempt holds: the image's width, height and bytes, or
/// the text of the failure.
pub open spec fn bitmap_outcome(r: Result<Bitmap, String>) -> Result<(u32, u32, Seq<u8>), Seq<char>> {
    match r {
        Ok(b) => Ok((b.width, b.height, b.pixels@)),
        Err(e) => Err(e@),
    }
}

/// What an encoding attempt holds: the bytes, or the text of the failure.
pub open spec fn bytes_outcome(r: Result<Vec<u8>, String>) -> Result<Seq<u8>, Seq<char>> {
    match r {
        Ok(b) => Ok(b@),
        Err(e) => Err(e@),
    }
}

/// What a text-producing attempt holds.
pub open spec fn text_outcome(r: Result<String, String>) -> Result<Seq<char>, Seq<char>> {
    match r {
        Ok(s) => Ok(s@),
        Err(e) => Err(e@),
    }
}

/// What the lookup of a member holds.
pub open spec fn member_outcome(r: Result<Option<String>, String>) -> Result<
    Option<Seq<char>>,
    Seq<char>,
> {
    match r {
        Ok(Some(s)) => Ok(Some(s@)),
        Ok(None) => Ok(None),
        Err(e) => Err(e@),
    }
}

/// The text that `String::from_utf8_lossy` makes of the bytes.
pub uninterp spec fn utf8_lossy(bytes: Seq<u8>) -> Seq<char>;

/// The text that `str::trim` leaves of a text.
pub uninterp spec fn trimmed(s: Seq<char>) -> Seq<char>;

/// The member `key` of the JSON document `body`, as serde_json reads it: the
/// text of the parse error where `body` is no JSON document; the member's
/// text where the document is an object whose member `key` is a string;
/// nothing otherwise.
pub uninterp spec fn json_member(body: Seq<u8>, key: Seq<char>) -> Result<Option<Seq<char>>, Seq<char>>;

/// The compact JSON text of a string value, quotes and escapes included, as
/// serde_json writes it.
pub uninterp spec fn json_quoted(s: Seq<char>) -> Seq<char>;

/// The QR symbol of `data` at error-correction level M, drawn by the qrcode
/// crate with its quiet zone and at least `min_side` pixels a side; or the
/// text of the crate's error where the data does not fit a symbol.
pub uninterp spec fn qr_luma(data: Seq<char>, min_side: u32) -> Result<(u32, u32, Seq<u8>), Seq<char>>;

/// The PNG file that the image crate writes for an 8-bit luminance image, or
/// the text of its error.
pub uninterp spec fn png_of(pixels: Seq<u8>, width: u32, height: u32) -> Result<Seq<u8>, Seq<char>>;

/// The standard base64 text of the bytes, with padding.
pub uninterp spec fn base64_of(bytes: Seq<u8>) -> Seq<char>;

/// Calls `String::from_utf8_lossy`, which decodes UTF-8 and puts U+FFFD in
/// place of what is not valid. The contract only names the result.
#[verifier::external_body]
pub(crate) fn from_utf8_lossy(bytes: &[u8]) -> (r: String)
    ensures
        r@ == utf8_lossy(bytes@),
{
    String::from_utf8_lossy(bytes).into_owned()
}

/// Calls `str::trim`, which drops leading and trailing white space. The
/// contract only names the result.
#[verifier::external_body]
pub(crate) fn trim(s: &str) -> (r: String)
    ensures
        r@ == trimmed(s@),
{
    s.trim().to_string()
}

/// Calls `serde_json::from_slice` for a `serde_json::Value`, indexes the value
/// by `key` and takes the text with `Value::as_str`. The contract names the
/// result; the error is handed on as the text that serde_json displays.
#[verifier::external_body]
pub(crate) fn read_json_member(body: &[u8], key: &str) -> (r: Result<Option<String>, String>)
    ensures
        member_outcome(r) == json_member(body@, key@),
{
    match serde_json::from_slice::<serde_json::Value>(body) {
        Ok(value) => Ok(value[key].as_str().map(String::from)),
        Err(e) => Err(e.to_string()),
    }
}

/// Displays `serde_json::Value::String`, which writes the text as one compact
/// JSON string. The contract only names the result.
#[verifier::external_body]
pub(crate) fn quote_json(s: &str) -> (r: String)
    ensures
        r@ == json_quoted(s@),
{
    serde_json::Value::String(String::from(s)).to_string()
}

/// Calls `qrcode::QrCode::with_error_correction_level` at level M and renders
/// the symbol as 8-bit luminance with `min_dimensions(min_side, min_side)` and
/// the quiet zone. The renderer multiplies the symbol's width in modules by a
/// module size rounded up, so neither side is under `min_side`, and the image
/// buffer holds one byte per pixel. The bound on `min_side` keeps the
/// renderer's 32-bit sums from overflowing.
#[verifier::external_body]
pub(crate) fn render_qr(data: &str, min_side: u32) -> (r: Result<Bitmap, String>)
    requires
        min_side <= 4096,
    ensures
        bitmap_outcome(r) == qr_luma(data@, min_side),
        r matches Ok(b) ==> b.wf() && b.width >= min_side && b.height >= min_side,
{
    match qrcode::QrCode::with_error_correction_level(data, qrcode::EcLevel::M) {
        Ok(code) => {
            let img = code.render::<image::Luma<u8>>().min_dimensions(min_side, min_side).quiet_zone(true).build();
            Ok(Bitmap { width: img.width(), height: img.height(), pixels: img.into_raw() })
        },
        Err(e) => Err(e.to_string()),
    }
}

/// Calls `image::write_buffer_with_format` for the PNG format and the colour
/// type L8, into a buffer in memory. The encoder panics unless there is one
/// byte per pixel, which `requires` asks for. The contract names the result.
#[verifier::external_body]
pub(crate) fn encode_png(bitmap: &Bitmap) -> (r: Result<Vec<u8>, String>)
    requires
        bitmap.wf(),
    ensures
        bytes_outcome(r) == png_of(bitmap.pixels@, bitmap.width, bitmap.height),
{
    let mut out = std::io::Cursor::new(Vec::new());
    match image::write_buffer_with_format(&mut out, &bitmap.pixels, bitmap.width, bitmap.height,
        image::ExtendedColorType::L8, image::ImageFormat::Png) {
        Ok(()) => Ok(out.into_inner()),
        Err(e) => Err(e.to_string()),
    }
}

/// Calls `encode` of base64's `STANDARD` engine, which panics only where the
/// length of the text does not fit a `usize`; four thirds of a slice's
/// length always fit. The contract only names the result.
#[verifier::external_body]
pub(crate) fn encode_base64(bytes: &[u8]) -> (r: String)
    ensures
        r@ == base64_of(bytes@),
{
    base64::Engine::encode(&base64::engine::general_purpose::STANDARD, bytes)
}

} // verus!
