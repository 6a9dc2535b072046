//! The brand mark as the window's icon.

use vstd::prelude::*;

verus! {

/// A window icon: RGBA8 pixels, row by row.
pub struct IconData {
    pub rgba: Vec<u8>,
    pub width: u32,
    pub height: u32,
}

/// What a PNG decodes to: its RGBA8 pixels, width and height.
pub uninterp spec fn decoded_png(bytes: Seq<u8>) -> Option<(Seq<u8>, u32, u32)>;

/// What an icon holds.
pub open spec fn icon_pixels(icon: Option<IconData>) -> Option<(Seq<u8>, u32, u32)> {
    match icon {
        Some(i) => Some((i.rgba@, i.width, i.height)),
        None => None,
    }
}

/// `image::load_from_memory_with_format` for PNG, then `DynamicImage::into_rgba8`: the pixels of
/// a PNG as RGBA8 with the image's width and height, or nothing where the bytes are not a PNG
/// that can be decoded. The result depends on the bytes alone, and the pixels are four bytes
/// for each point of the image.
#[verifier::external_body]
fn decode_png(bytes: &[u8]) -> (r: Option<IconData>)
    ensures
        icon_pixels(r) == decoded_png(bytes@),
        r is Some ==> r->0.rgba@.len() == 4 * r->0.width * r->0.height,
{
    let rgba = image::load_from_memory_with_format(bytes, image::ImageFormat::Png).ok()?.into_rgba8();
    let (width, height) = rgba.dimensions();
    Some(IconData { rgba: rgba.into_raw(), width, height })
}

/// The window's icon from the mark's PNG. A mark that cannot be decoded gives none, and the
/// window keeps its default icon.
pub fn window_icon(mark: &[u8]) -> (r: Option<IconData>)
    ensures
        icon_pixels(r) == decoded_png(mark@),
        r is Some ==> r->0.rgba@.len() == 4 * r->0.width * r->0.height,
{
    decode_png(mark)
}

} // verus!
