//! Verified core of a clipboard-history manager: clip models, content hashing
//! and deduplication, clipboard change detection, settings rules, import and
//! export shaping, and the window debounce rules of the panel.

pub mod clipboard;
pub mod codec;
pub mod digest;
pub mod history;
pub mod menu;
pub mod models;
pub mod paste;
pub mod screenshot;
pub mod settings;
pub mod text;
pub mod window;
