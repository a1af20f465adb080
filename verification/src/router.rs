//! The output router.
//!
//! A normalized capture is consumed exactly once, by exactly one sink: a
//! file path or the system clipboard, selected by a boolean. Routing only
//! decides and prepares — the returned action carries everything the I/O
//! layer needs (the encoded file bytes, or the raster for the clipboard),
//! and the spec-level clipboard model below pins down what each action
//! does to the clipboard's contents.

use crate::capture::CapturePlan;
use crate::capture::CaptureResult;
use vstd::prelude::*;

verus! {

/// Why a delivery failed before any sink was touched.
#[derive(Debug, Clone, Copy, PartialEq, Eq, Structural)]
pub enum DeliveryError {
    /// The raster could not be encoded for the file sink.
    EncodeFailed,
}

/// The one externally visible effect a delivery performs.
#[derive(Debug, Clone, PartialEq, Eq)]
pub enum DeliveryAction {
    /// No sink is touched at all: saving with an empty path is a
    /// deliberate no-op success.
    Skip,
    /// Write the encoded image to the file at `path`.
    WriteFile { path: String, bytes: Vec<u8> },
    /// Replace the clipboard's current image with `image`.
    SetClipboard { image: CaptureResult },
}

/// The bytes PNG encoding produces for a raster. The result depends on the
/// dimensions and pixels alone.
pub uninterp spec fn png_encoding(width: nat, height: nat, bytes: Seq<u8>) -> Seq<u8>;

/// Relies on `image::codecs::png::PngEncoder::write_image`: on success the
/// returned buffer is the PNG encoding of the raster, a pure function of
/// the dimensions and pixel bytes. The call panics on a buffer whose
/// length does not match the dimensions, so that is required away; with a
/// matching RGBA8 buffer and an in-memory writer the encoder fails only
/// on a zero width or height, so success is promised for every non-empty
/// raster.
#[verifier::external_body]
fn png_encode(width: u32, height: u32, bytes: &Vec<u8>) -> (r: Result<Vec<u8>, DeliveryError>)
    requires
        bytes@.len() == 4 * ((width as int) * (height as int)),
    ensures
        r is Ok ==> r.unwrap()@ == png_encoding(width as nat, height as nat, bytes@),
        width >= 1 && height >= 1 ==> r is Ok,
{
    let mut out: Vec<u8> = Vec::new();
    let enc = image::codecs::png::PngEncoder::new(&mut out);
    match image::ImageEncoder::write_image(
        enc,
        bytes.as_slice(),
        width,
        height,
        image::ExtendedColorType::Rgba8,
    ) {
        Ok(()) => Ok(out),
        Err(_) => Err(DeliveryError::EncodeFailed),
    }
}

/// Routes one capture to exactly one sink.
///
/// `save` selects the file sink, `path` names the file; an empty path with
/// `save` is a no-op success and touches nothing. Without `save` the
/// raster goes to the clipboard unchanged. Only encoding for the file
/// sink can fail, and only on a raster with a zero dimension: every
/// non-empty raster is routed successfully.
pub fn plan_delivery(image: CaptureResult, save: bool, path: String) -> (r: Result<
    DeliveryAction,
    DeliveryError,
>)
    requires
        image.wf(),
    ensures
        save && path@.len() > 0 && image.width >= 1 && image.height >= 1 ==> r is Ok,
        save && path@.len() == 0 ==> r == Ok::<DeliveryAction, DeliveryError>(
            DeliveryAction::Skip,
        ),
        !save ==> r == Ok::<DeliveryAction, DeliveryError>(
            (DeliveryAction::SetClipboard { image }),
        ),
        save && path@.len() > 0 ==> match r {
            Ok(a) => match a {
                DeliveryAction::WriteFile { path: p, bytes } => p == path && bytes@
                    == png_encoding(image.width as nat, image.height as nat, image.bytes@),
                _ => false,
            },
            Err(e) => e == DeliveryError::EncodeFailed,
        },
{
    if save {
        if path.as_str().is_empty() {
            Ok(DeliveryAction::Skip)
        } else {
            match png_encode(image.width, image.height, &image.bytes) {
                Ok(bytes) => Ok(DeliveryAction::WriteFile { path, bytes }),
                Err(e) => Err(e),
            }
        }
    } else {
        Ok(DeliveryAction::SetClipboard { image })
    }
}

/// Normalizes a raw capture and routes it in one step: the tail of a
/// capture request once the raw physical raster is in hand.
///
/// The raster is scaled to the plan's logical output size and handed to
/// exactly one sink, under the same routing rules as `plan_delivery`:
/// delivery fails only when the file sink is selected and the logical
/// output has a zero dimension.
pub fn deliver_capture(plan: &CapturePlan, raw: Vec<u8>, save: bool, path: String) -> (r: Result<
    DeliveryAction,
    DeliveryError,
>)
    requires
        plan.wf(),
        raw@.len() == 4 * ((plan.width as int) * (plan.height as int)),
    ensures
        save && path@.len() > 0 && plan.out_width >= 1 && plan.out_height >= 1 ==> r is Ok,
        save && path@.len() == 0 ==> r == Ok::<DeliveryAction, DeliveryError>(
            DeliveryAction::Skip,
        ),
        !save ==> match r {
            Ok(a) => match a {
                DeliveryAction::SetClipboard { image } => image.wf() && image.width
                    == plan.out_width && image.height == plan.out_height && image.bytes@
                    == crate::capture::spec_normalized(*plan, raw@),
                _ => false,
            },
            Err(_) => false,
        },
        save && path@.len() > 0 ==> match r {
            Ok(a) => match a {
                DeliveryAction::WriteFile { path: p, bytes } => p == path && bytes@
                    == png_encoding(
                    plan.out_width as nat,
                    plan.out_height as nat,
                    crate::capture::spec_normalized(*plan, raw@),
                ),
                _ => false,
            },
            Err(e) => e == DeliveryError::EncodeFailed,
        },
{
    let image = crate::capture::normalize_capture(plan, raw);
    plan_delivery(image, save, path)
}

/// The clipboard's image contents after an action: setting the clipboard
/// replaces whatever was there; every other action leaves it untouched.
pub open spec fn clipboard_after(
    before: Option<CaptureResult>,
    action: DeliveryAction,
) -> Option<CaptureResult> {
    match action {
        DeliveryAction::SetClipboard { image } => Some(image),
        _ => before,
    }
}

/// Whether an action writes to the filesystem.
pub open spec fn writes_file(action: DeliveryAction) -> bool {
    action is WriteFile
}

/// Saving with an empty path succeeds, writes no file, and leaves the
/// clipboard exactly as it was.
pub proof fn lemma_empty_path_is_noop(before: Option<CaptureResult>)
    ensures
        !writes_file(DeliveryAction::Skip),
        clipboard_after(before, DeliveryAction::Skip) == before,
{
}

/// Clipboard deliveries do not accumulate: after two deliveries the
/// clipboard holds the second image only, whatever it held before.
pub proof fn lemma_second_clipboard_delivery_wins(
    before: Option<CaptureResult>,
    first: CaptureResult,
    second: CaptureResult,
)
    ensures
        clipboard_after(
            clipboard_after(before, (DeliveryAction::SetClipboard { image: first })),
            (DeliveryAction::SetClipboard { image: second }),
        ) == Some(second),
{
}

} // verus!
