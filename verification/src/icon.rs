use vstd::prelude::*;

verus! {

#[verifier::external_type_specification]
#[verifier::external_body]
pub struct ExImageError(image::ImageError);

/// An icon as RGBA pixels, four bytes a pixel, row after row.
#[derive(Debug)]
pub struct IconRgba {
    pub rgba: Vec<u8>,
    pub width: u32,
    pub height: u32,
}

/// `image::load_from_memory`, which guesses the format of `bytes` and
/// decodes them, with the image it gives converted by
/// `DynamicImage::into_rgba8` into an RGBA buffer and taken apart into its
/// raw bytes, width and height. What holds of every outcome is the buffer's
/// own invariant: the bytes hold at least four per pixel. Whether decoding
/// succeeds, and the pixels and dimensions it gives, are not stated: the
/// crate picks the format and the decoder through process-wide tables that
/// any code may add to, so they are no function of the bytes alone.
#[verifier::external_body]
fn load_rgba8(bytes: &[u8]) -> (icon: Result<IconRgba, image::ImageError>)
    ensures
        icon matches Ok(i) ==> i.rgba@.len() >= 4 * i.width * i.height,
{
    match image::load_from_memory(bytes) {
        Ok(image) => {
            let rgba = image.into_rgba8();
            let (width, height) = rgba.dimensions();
            Ok(IconRgba { rgba: rgba.into_raw(), width, height })
        },
        Err(error) => Err(error),
    }
}

/// Why an icon could not be read.
#[derive(Debug, Clone, Copy, PartialEq, Eq, Structural)]
pub enum IconError {
    /// The bytes are not an image of a format that is understood.
    Decode,
}

/// Decodes an icon file held in memory into RGBA pixels.
pub fn decode_icon(bytes: &[u8]) -> (icon: Result<IconRgba, IconError>)
    ensures
        icon matches Ok(i) ==> i.rgba@.len() >= 4 * i.width * i.height,
        icon matches Err(e) ==> e == IconError::Decode,
{
    match load_rgba8(bytes) {
        Ok(icon) => Ok(icon),
        Err(_) => Err(IconError::Decode),
    }
}

} // verus!
