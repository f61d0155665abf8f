//! Clipboard peek: decides, from the types a clipboard offers, what to fetch
//! and show, and validates what is copied back.
//!
//! A look at the clipboard goes through three parts. `classify` reads the
//! offered types (`type_set`, over the line model of `text`) and names the
//! kind of content and the image format to ask for. `fetch` turns that into
//! the requests to make and turns the answers into an outcome; the clipboard
//! itself is a function that the caller hands in. `copy_back` validates what a
//! window copies back before anything is written, and `fade` tells the window
//! when its copy button is in sight.
//!
//! Nothing here reads or writes a clipboard, starts a process or draws a
//! window.

pub mod classify;
pub mod copy_back;
pub mod fade;
pub mod fetch;
pub mod text;
pub mod type_set;

pub use classify::{
    classify, detect_clipboard_content_type, get_image_format_from_types, has_mime_type,
    preferred_image_format, ClipboardContentType, ImageFormat,
};
pub use copy_back::{stage_text_write, validate_and_stage_write, ErrorKind, StagedWrite};
pub use fade::{FadeActions, FadeEvent, FadeState, FADE_DELAY_SECONDS};
pub use fetch::{
    peek_clipboard, resolve_payload, ClipboardPayload, FallbackPolicy, FetchRequest, Outcome,
};
pub use type_set::TypeSet;
