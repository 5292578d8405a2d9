//! Image formats that the `image` crate reads only once a decoder has been
//! registered for them.

use vstd::prelude::*;

verus! {

/// The file extension of JPEG XL images.
pub const EXTENSION: &'static str = "jxl";

/// The first bytes of a bare JPEG XL codestream.
pub const CODESTREAM_SIGNATURE: [u8; 2] = [0xff, 0x0a];

/// The first bytes of a JPEG XL container file.
pub const CONTAINER_SIGNATURE: [u8; 12] = [
    0x00,
    0x00,
    0x00,
    0x0c,
    0x4a,
    0x58,
    0x4c,
    0x20,
    0x0d,
    0x0a,
    0x87,
    0x0a,
];

/// Calls `image::hooks::register_decoding_hook` for `extension`, with a hook
/// that opens a `jxl_oxide::integration::JxlDecoder` on the reader it is
/// given. The call tells whether the hook was taken, which depends on what
/// the process has registered before: nothing is claimed of the result. The
/// call takes the lock of the registry, and fails only where a thread has
/// panicked while holding it.
#[verifier::external_body]
fn register_jxl_decoder(extension: &str) -> (registered: bool) {
    image::hooks::register_decoding_hook(
        extension.into(),
        Box::new(|reader| Ok(Box::new(jxl_oxide::integration::JxlDecoder::new(reader)?))),
    )
}

/// Calls `image::hooks::register_format_detection_hook` for `extension`
/// with `signature` and no mask. It returns nothing. The call takes the
/// lock of the registry, and fails only where a thread has panicked while
/// holding it.
#[verifier::external_body]
fn register_signature(extension: &str, signature: &'static [u8]) {
    image::hooks::register_format_detection_hook(extension.into(), signature, None)
}

/// Registers the JPEG XL decoder and both JPEG XL signatures. Returns
/// whether the decoder was taken.
fn register_jpegxl() -> (registered: bool) {
    let success = register_jxl_decoder(EXTENSION);
    register_signature(EXTENSION, &CODESTREAM_SIGNATURE);
    register_signature(EXTENSION, &CONTAINER_SIGNATURE);
    success
}

/// Registers the formats that need it. Returns whether every decoder was
/// taken; one is refused where the process already has a decoder for its
/// extension.
pub fn register_image_formats() -> (registered: bool) {
    register_jpegxl()
}

/// The warning to show after `register_image_formats`, if any.
pub fn registration_warning(registered: bool) -> (warning: Option<&'static str>)
    ensures
        registered ==> warning is None,
        !registered ==> warning == Some("Could not register jxl decoder."),
{
    if registered {
        None
    } else {
        Some("Could not register jxl decoder.")
    }
}

} // verus!
