//! Pasting a stored clip: what to write to the clipboard for it, and the
//! marker that keeps the monitor from recording the application's own write.

use vstd::prelude::*;
use crate::models::{Clip, ContentType};

verus! {

/// The one-shot marker set before the application writes to the clipboard
/// itself, so that the monitor skips the change it causes.
pub struct PasteGuard {
    self_triggered: bool,
}

impl PasteGuard {
    /// Whether the marker is set.
    pub closed spec fn is_marked(&self) -> bool {
        self.self_triggered
    }

    /// A guard with the marker clear.
    pub fn new() -> (g: Self)
        ensures
            !g.is_marked(),
    {
        PasteGuard { self_triggered: false }
    }

    /// Sets the marker: the next clipboard change is the application's own.
    pub fn mark_self_triggered(&mut self)
        ensures
            final(self).is_marked(),
    {
        self.self_triggered = true;
    }
}

/// Reads and clears the marker: `true` exactly once after it was set.
pub fn was_self_triggered(guard: &mut PasteGuard) -> (b: bool)
    ensures
        b == old(guard).is_marked(),
        !final(guard).is_marked(),
{
    let b = guard.self_triggered;
    guard.self_triggered = false;
    b
}

/// What pasting a clip writes to the system clipboard.
pub enum PastePayload {
    /// Write this text.
    Text(String),
    /// Decode these image-file bytes and write the image.
    Image(Vec<u8>),
    /// The clip has no content of its kind: write nothing.
    Nothing,
}

/// What to write for `clip`: its text for text, rich-text and file-path
/// clips, its image bytes for image clips, nothing when that part is absent.
pub fn paste_payload(clip: &Clip) -> (p: PastePayload)
    ensures
        match clip.content_type {
            ContentType::Image => match clip.image_data {
                Some(d) => p matches PastePayload::Image(v) && v@ == d@,
                None => p is Nothing,
            },
            _ => match clip.text_content {
                Some(t) => p matches PastePayload::Text(s) && s@ == t@,
                None => p is Nothing,
            },
        },
{
    match clip.content_type {
        ContentType::Image => match &clip.image_data {
            Some(d) => PastePayload::Image(d.clone()),
            None => PastePayload::Nothing,
        },
        _ => match &clip.text_content {
            Some(t) => PastePayload::Text(t.clone()),
            None => PastePayload::Nothing,
        },
    }
}

} // verus!
