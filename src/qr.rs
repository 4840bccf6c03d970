//! Rendering a URI as a QR-code PNG image.
use vstd::prelude::*;

verus! {

/// What `qrcodegen_image::draw_png` gives for a text: the PNG bytes, or
/// `None` where the text does not fit in a QR symbol.
pub uninterp spec fn qr_png(s: Seq<char>) -> Option<Seq<u8>>;

/// The text was too long for a QR symbol; the message is the renderer's.
#[derive(Debug)]
pub struct QrError {
    pub message: String,
}

/// Relies on `qrcodegen_image::draw_png`: encodes the text as a QR symbol at
/// medium error correction and rasterises it to a PNG, failing where the
/// text exceeds the symbol's capacity.
#[verifier::external_body]
fn draw_png(text: &str) -> (r: Result<Vec<u8>, String>)
    ensures
        match r {
            Ok(p) => qr_png(text@) == Some(p@),
            Err(_) => qr_png(text@) is None,
        },
{
    qrcodegen_image::draw_png(text)
}

/// Renders a URI as a QR-code PNG image.
pub fn render(uri: &str) -> (r: Result<Vec<u8>, QrError>)
    ensures
        match r {
            Ok(p) => qr_png(uri@) == Some(p@),
            Err(_) => qr_png(uri@) is None,
        },
{
    match draw_png(uri) {
        Ok(p) => Ok(p),
        Err(message) => Err(QrError { message }),
    }
}

} // verus!
