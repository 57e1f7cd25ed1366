//! The values of the clipboard client SDK and of the `image` crate that the
//! window's state carries, and the few calls into those crates that its logic
//! makes.

use vstd::prelude::*;

use clipboard_history_client_sdk::search::{CancellationTokenSink, CancellationTokenSource};
use clipboard_history_client_sdk::ui_actor::{CommandError, DetailedEntry};
use clipboard_history_client_sdk::ClientError;

verus! {

/// An error that a request to the clipboard server came back with.
#[verifier::external_type_specification]
#[verifier::external_body]
pub struct ExCommandError(CommandError);

/// An error of the SDK's connection to the server.
#[verifier::external_type_specification]
#[verifier::external_body]
pub struct ExClientError(ClientError);

/// The full contents of an entry, as the details view shows them.
#[verifier::external_type_specification]
#[verifier::external_body]
pub struct ExDetailedEntry(DetailedEntry);

/// The half of a search's cancellation token that travels with the request.
#[verifier::external_type_specification]
#[verifier::external_body]
pub struct ExCancellationTokenSource(CancellationTokenSource);

/// The half of a search's cancellation token that the window keeps.
#[verifier::external_type_specification]
#[verifier::external_body]
pub struct ExCancellationTokenSink(CancellationTokenSink);

/// Calls `search::cancellation_token`, which makes a fresh token pair that
/// shares one flag. Nothing is stated of the pair: the flag is set later by
/// the search thread.
#[verifier::external_body]
pub(crate) fn new_search_token() -> (CancellationTokenSource, CancellationTokenSink) {
    clipboard_history_client_sdk::search::cancellation_token()
}

/// Calls `CancellationTokenSink::is_done`, an atomic load of the flag that
/// the search thread sets when it has finished. What it returns depends on
/// that other thread, so nothing is stated of it.
#[verifier::external_body]
pub(crate) fn search_is_done(token: &CancellationTokenSink) -> bool {
    token.is_done()
}

/// The RGBA pixels (width, height, bytes) that `image`'s
/// `DynamicImage::thumbnail` makes of an RGBA image of `width` by `height`
/// with the bytes `rgba`, scaled to fit `max_width` by `max_height`. The
/// sizes come from floating-point arithmetic in the `image` crate, and the
/// pixels from its sampling; both depend on the arguments alone.
pub uninterp spec fn thumbnail_rgba(
    width: u32,
    height: u32,
    rgba: Seq<u8>,
    max_width: u32,
    max_height: u32,
) -> (u32, u32, Seq<u8>);

/// Calls `DynamicImage::thumbnail` on the RGBA image that `rgba` holds and
/// hands back the result's width, height and RGBA bytes, which
/// [`thumbnail_rgba`] names. `RgbaImage::from_raw` accepts a buffer of at
/// least four bytes per pixel, which the precondition asks for. The result
/// fits within `max_width` by `max_height` (one pixel at least on each side),
/// and `ImageBuffer::new` panics when its four bytes per pixel overflow
/// `usize`, so the precondition bounds that box too.
#[verifier::external_body]
pub(crate) fn thumbnail(
    width: u32,
    height: u32,
    rgba: &[u8],
    max_width: u32,
    max_height: u32,
) -> (r: (u32, u32, Vec<u8>))
    requires
        rgba@.len() >= 4 * width * height,
        1 <= max_width,
        1 <= max_height,
        4 * max_width * max_height <= usize::MAX,
    ensures
        (r.0, r.1, r.2@) == thumbnail_rgba(width, height, rgba@, max_width, max_height),
{
    let image = image::RgbaImage::from_raw(width, height, rgba.to_vec()).unwrap();
    let scaled = image::DynamicImage::ImageRgba8(image).thumbnail(max_width, max_height).into_rgba8();
    let (w, h) = scaled.dimensions();
    (w, h, scaled.into_raw())
}

} // verus!
