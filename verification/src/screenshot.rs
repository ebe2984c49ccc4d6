//! The screenshot editor hand-off: the captured image travels to the editor
//! as Base64 PNG text and comes back the same way.

use vstd::prelude::*;
use crate::codec::{
    base64_decode, base64_encodable, base64_encode, base64_len_fits, decode_image_rgba8,
    encode_rgba_to_png, rgba8_len, spec_base64_decode, spec_base64_encode,
    spec_png_encode_rgba8, RgbaPixels,
};
use crate::models::opt_str_view;

verus! {

broadcast use vstd::string::group_string_axioms;

/// The screenshot waiting for the editor, as Base64 PNG text.
pub struct ScreenshotData {
    data: Option<String>,
}

impl ScreenshotData {
    /// The waiting screenshot, if any.
    pub closed spec fn pending(&self) -> Option<Seq<char>> {
        opt_str_view(self.data)
    }

    /// Nothing waiting.
    pub fn new() -> (s: Self)
        ensures
            s.pending() is None,
    {
        ScreenshotData { data: None }
    }

    /// Replaces the waiting screenshot.
    pub fn set(&mut self, data: String)
        ensures
            final(self).pending() == Some(data@),
    {
        self.data = Some(data);
    }
}

/// The waiting screenshot for the editor, or `No screenshot data`.
pub fn get_screenshot_data(state: &ScreenshotData) -> (r: Result<String, String>)
    ensures
        match state.pending() {
            Some(d) => r matches Ok(s) && s@ == d,
            None => r matches Err(e) && e@ == "No screenshot data"@,
        },
{
    match &state.data {
        Some(d) => Ok(d.clone()),
        None => Err("No screenshot data".to_string()),
    }
}

/// The editor payload for captured RGBA8 pixels: the Base64 text of their
/// PNG encoding. `Failed to encode image` when the pixels do not cover the
/// image, when the encoder refuses it, or when the Base64 text would not fit
/// in memory.
pub fn editor_payload(width: u32, height: u32, rgba: &[u8]) -> (r: Result<String, String>)
    ensures
        rgba@.len() < rgba8_len(width, height) ==> (r matches Err(e) && e@ == "Failed to encode image"@),
        rgba@.len() >= rgba8_len(width, height) ==> ({
            let png = spec_png_encode_rgba8(width, height, rgba@.take(rgba8_len(width, height)));
            match r {
                Ok(s) => png matches Some(p) && base64_len_fits(p.len()) && s@ == spec_base64_encode(p),
                Err(e) => e@ == "Failed to encode image"@ && (png is None || !base64_len_fits(
                    png.unwrap().len(),
                )),
            }
        }),
{
    match encode_rgba_to_png(width, height, rgba) {
        None => Err("Failed to encode image".to_string()),
        Some(png) => {
            if base64_encodable(png.len()) {
                Ok(base64_encode(png.as_slice()))
            } else {
                Err("Failed to encode image".to_string())
            }
        },
    }
}

/// The pixels of an edited screenshot sent back as Base64 image text;
/// `Err` carries the Base64 or the image decoder's message. Text that is
/// not valid Base64 always fails; on success the pixels were decoded from
/// the image file that the Base64 text encodes, and they cover the whole
/// image.
pub fn screenshot_pixels(data: &str) -> (r: Result<RgbaPixels, String>)
    ensures
        spec_base64_decode(vstd::utf8::encode_utf8(data@)) is None ==> r is Err,
        r matches Ok(p) ==> spec_base64_decode(vstd::utf8::encode_utf8(data@)) == Some(p.source@)
            && p.bytes@.len() >= rgba8_len(p.width, p.height),
{
    let bytes = base64_decode(data)?;
    decode_image_rgba8(bytes.as_slice())
}

} // verus!
