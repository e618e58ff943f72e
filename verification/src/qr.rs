//! Rendering of a URI into a QR text block through an external symbol
//! encoder, surfaced as a recoverable error when the payload is rejected.

use vstd::prelude::*;

verus! {

/// The one failure the credential model can report: the QR symbol encoder
/// rejected the URI, for instance because it fits no QR code version.
#[derive(Clone, Copy, Debug, PartialEq, Eq, Structural)]
pub enum QrEncodeError {
    PayloadRejected,
}

/// The text block that the QR encoder renders for a given URI; it depends
/// on the characters of the URI alone.
pub uninterp spec fn qr_text_of(uri: Seq<char>) -> Seq<char>;

/// Whether the QR encoder accepts a payload of these characters; its
/// verdict, like the rendering, depends on the characters alone.
pub uninterp spec fn qr_accepts(uri: Seq<char>) -> bool;

/// Relies on qrcode::QrCode::new and qrcode::render::unicode::Dense1x2:
/// `new` deterministically encodes the bytes of `uri` into a QR symbol,
/// succeeding or failing by fixed rules of the payload alone (it fails
/// when the payload is too long for any supported QR version); the
/// renderer deterministically draws that symbol as two-tone half-block
/// glyph text, here with the dark and light glyphs swapped for terminal
/// display.
#[verifier::external_body]
pub(crate) fn render_qr_text(uri: &str) -> (r: Result<String, QrEncodeError>)
    ensures
        r is Ok <==> qr_accepts(uri@),
        r matches Ok(text) ==> text@ == qr_text_of(uri@),
        r matches Err(e) ==> e == QrEncodeError::PayloadRejected,
{
    match qrcode::QrCode::new(uri) {
        Ok(code) => Ok(
            code.render::<qrcode::render::unicode::Dense1x2>().dark_color(
                qrcode::render::unicode::Dense1x2::Light,
            ).light_color(qrcode::render::unicode::Dense1x2::Dark).build(),
        ),
        Err(_) => Err(QrEncodeError::PayloadRejected),
    }
}

} // verus!
