//! QR synthesis: a text becomes a QR symbol, rendered as a luminance bitmap
//! and brought to the wanted size without smoothing.

use vstd::prelude::*;
use crate::bitmap::{Bitmap, BitmapView};

verus! {

/// Why a text could not be turned into a QR code.
#[derive(Clone, Copy, Debug, PartialEq, Eq, Structural)]
pub enum QrError {
    /// The text is longer than the largest symbol holds.
    TooLarge,
    /// The encoder refused the text for another reason.
    Unsupported,
}

/// What `QrCode::new` followed by the default luminance rendering gives for a
/// text: the rendered symbol, or the reason for the refusal.
pub uninterp spec fn rendered_symbol(text: Seq<char>) -> Result<BitmapView, QrError>;

/// What `image::imageops::resize` with the nearest-neighbour filter gives for
/// a luminance bitmap and a target size.
pub uninterp spec fn resized_nearest(source: BitmapView, width: nat, height: nat) -> BitmapView;

/// Every sample is black or white.
pub open spec fn two_toned(samples: Seq<u8>) -> bool {
    forall|i: int| 0 <= i < samples.len() ==> samples[i] == 0 || samples[i] == 255
}

/// Every sample of `samples` is a sample of `source`.
pub open spec fn taken_from(samples: Seq<u8>, source: Seq<u8>) -> bool {
    forall|i: int| 0 <= i < samples.len() ==> source.contains(#[trigger] samples[i])
}

/// The view of a synthesis result.
pub open spec fn result_view(r: Result<Bitmap, QrError>) -> Result<BitmapView, QrError> {
    match r {
        Ok(b) => Ok(b@),
        Err(e) => Err(e),
    }
}

/// What synthesis gives: the rendered symbol at the target size, or the
/// encoder's refusal.
pub open spec fn synthesized(text: Seq<char>, width: nat, height: nat) -> Result<
    BitmapView,
    QrError,
> {
    match rendered_symbol(text) {
        Ok(symbol) => Ok(resized_nearest(symbol, width, height)),
        Err(e) => Err(e),
    }
}

/// `qrcode::QrCode::new` at the default error correction, then
/// `render::<Luma<u8>>().build()`. The rendering is a square of eight pixels a
/// module with a quiet zone around it, so it is never empty and holds one
/// sample for each position; the canvas is filled with the light sample 255
/// and dark modules are set to 0, so every sample is one of the two; a text
/// beyond the capacity gives `TooLarge`.
#[verifier::external_body]
fn render_symbol(text: &str) -> (r: Result<Bitmap, QrError>)
    ensures
        result_view(r) == rendered_symbol(text@),
        r matches Ok(b) ==> b.well_formed() && b@.width == b@.height && b@.width > 0 && two_toned(
            b@.pixels,
        ),
{
    match qrcode::QrCode::new(text) {
        Ok(code) => {
            let img = code.render::<image::Luma<u8>>().build();
            Ok(Bitmap { width: img.width(), height: img.height(), pixels: img.into_raw() })
        },
        Err(qrcode::types::QrError::DataTooLong) => Err(QrError::TooLarge),
        Err(_) => Err(QrError::Unsupported),
    }
}

/// `image::imageops::resize` with `FilterType::Nearest` on a luminance image.
/// The result has the size asked for and one sample for each position. With
/// this filter each sample of the result is computed from exactly one sample
/// of the source with weight one, so it is that sample.
#[verifier::external_body]
fn resize_nearest(source: &Bitmap, width: u32, height: u32) -> (out: Bitmap)
    requires
        source.well_formed(),
        source@.width > 0,
        source@.height > 0,
    ensures
        out@ == resized_nearest(source@, width as nat, height as nat),
        out.well_formed(),
        out@.width == width,
        out@.height == height,
        taken_from(out@.pixels, source@.pixels),
{
    let img = image::GrayImage::from_raw(source.width, source.height, source.pixels.clone()).unwrap();
    let out = image::imageops::resize(&img, width, height, image::imageops::FilterType::Nearest);
    Bitmap { width: out.width(), height: out.height(), pixels: out.into_raw() }
}

/// Brings a rendered symbol to the target size.
pub fn fit(symbol: &Bitmap, width: u32, height: u32) -> (out: Bitmap)
    requires
        symbol.well_formed(),
        symbol@.width > 0,
        symbol@.height > 0,
    ensures
        out@ == resized_nearest(symbol@, width as nat, height as nat),
        out.well_formed(),
        out@.width == width,
        out@.height == height,
        taken_from(out@.pixels, symbol@.pixels),
{
    resize_nearest(symbol, width, height)
}

/// Encodes `text` as a QR code of the target size, width first. The modules
/// stay sharp: every sample is black or white. A text beyond the symbol's
/// capacity is refused with `TooLarge`.
pub fn synthesize(text: &str, target_size_px: (u32, u32)) -> (r: Result<Bitmap, QrError>)
    ensures
        result_view(r) == synthesized(text@, target_size_px.0 as nat, target_size_px.1 as nat),
        r matches Ok(b) ==> b.well_formed() && b@.width == target_size_px.0 && b@.height
            == target_size_px.1 && two_toned(b@.pixels),
{
    match render_symbol(text) {
        Ok(symbol) => {
            let out = fit(&symbol, target_size_px.0, target_size_px.1);
            assert forall|i: int| 0 <= i < out@.pixels.len() implies out@.pixels[i] == 0
                || out@.pixels[i] == 255 by {
                assert(symbol@.pixels.contains(out@.pixels[i]));
            }
            Ok(out)
        },
        Err(e) => Err(e),
    }
}

} // verus!
