use vstd::prelude::*;

use crate::models::WifiQrError;

verus! {

#[verifier::external_type_specification]
#[verifier::external_body]
pub struct ExQrError(qrcode::types::QrError);

/// A rendered QR code raster: grayscale, one byte per pixel, rows from the
/// top, `width * height` bytes in all.
pub struct QrImage {
    pub width: u32,
    pub height: u32,
    pub pixels: Vec<u8>,
}

impl QrImage {
    /// The raster holds exactly one byte for each of its `width * height`
    /// pixels.
    pub open spec fn well_formed(&self) -> bool {
        self.pixels@.len() == self.width * self.height
    }
}

/// Whether the barcode encoder accepts the given text. It decides from the
/// text alone; in particular it rejects text that is too long to fit the
/// largest QR code version.
pub uninterp spec fn qr_encodable(text: Seq<char>) -> bool;

/// The width in pixels of the raster that the barcode renderer produces for
/// the given text; it depends on the text alone.
pub uninterp spec fn qr_raster_width_of(text: Seq<char>) -> u32;

/// The height in pixels of the raster that the barcode renderer produces for
/// the given text; it depends on the text alone.
pub uninterp spec fn qr_raster_height_of(text: Seq<char>) -> u32;

/// The pixel bytes of the raster that the barcode renderer produces for the
/// given text; they depend on the text alone.
pub uninterp spec fn qr_raster_pixels_of(text: Seq<char>) -> Seq<u8>;

/// Relies on qrcode::QrCode::new: it encodes the given bytes into a QR
/// symbol at the medium error-correction level, succeeding exactly when the
/// data fits, which depends on the data alone. Relies on qrcode::QrCode::render
/// and qrcode::render::Renderer::build to rasterize the symbol into a
/// grayscale image with the default module size and quiet zone (deterministic
/// in the symbol, hence in the text, and never smaller than one module), and
/// on image::ImageBuffer's width, height and into_raw to hand the raster out
/// as plain values; such a buffer holds exactly `width * height` one-byte
/// pixels.
#[verifier::external_body]
fn qr_render_text(text: &str) -> (r: Result<QrImage, qrcode::types::QrError>)
    ensures
        r is Ok <==> qr_encodable(text@),
        r matches Ok(img) ==> img.width == qr_raster_width_of(text@) && img.height
            == qr_raster_height_of(text@) && img.pixels@ == qr_raster_pixels_of(text@)
            && img.well_formed() && img.width > 0 && img.height > 0,
{
    let code = qrcode::QrCode::new(text.as_bytes())?;
    let img = code.render::<image::Luma<u8>>().build();
    let width = img.width();
    let height = img.height();
    Ok(QrImage { width, height, pixels: img.into_raw() })
}

/// Relies on the Display impl of qrcode::types::QrError: each variant carries
/// a fixed short description. Nothing is claimed of the text.
#[verifier::external_body]
fn qr_error_message(e: &qrcode::types::QrError) -> String {
    format!("{}", e)
}

/// Render a text string as a grayscale QR code raster.
///
/// The result is `Ok` exactly when the barcode encoder accepts the text; the
/// raster is then the one the renderer produces for the text, well formed and
/// never empty. Otherwise the encoder's error is surfaced as an encoding
/// error.
pub fn render_wifi_qr_image(text: String) -> (r: Result<QrImage, WifiQrError>)
    ensures
        r is Ok <==> qr_encodable(text@),
        r matches Ok(img) ==> img.width == qr_raster_width_of(text@) && img.height
            == qr_raster_height_of(text@) && img.pixels@ == qr_raster_pixels_of(text@)
            && img.well_formed() && img.width > 0 && img.height > 0,
        r matches Err(e) ==> e is Encoding,
{
    match qr_render_text(text.as_str()) {
        Ok(img) => Ok(img),
        Err(e) => Err(WifiQrError::Encoding(qr_error_message(&e))),
    }
}

} // verus!
