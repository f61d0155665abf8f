//! Validation of what is copied back to the clipboard, made before anything is
//! written.

use crate::classify::ImageFormat;
use crate::fetch::{
    can_reach, lemma_shown_bytes_were_fetched, resolves_to, FallbackPolicy, FetchRequest,
    OutcomeView, StepView,
};
use crate::text::{chars_of, chars_start_with};
use vstd::prelude::*;
use vstd::slice::slice_to_vec;

verus! {

/// The ways in which looking at the clipboard or copying back to it fails.
#[derive(Debug, Clone, Copy, PartialEq, Eq, Structural)]
pub enum ErrorKind {
    /// The clipboard command could not be started.
    ProcessSpawnFailure,
    /// The clipboard command ended with a status other than zero.
    NonZeroExit,
    /// There are no bytes to write.
    EmptyPayload,
    /// The type of an image to write is not an image type.
    InvalidMimeType,
    /// The bytes of an image could not be decoded for showing.
    DecodeFailure,
    /// Writing to the clipboard did not go through.
    WriteFailed,
}

impl ErrorKind {
    /// The wording of the diagnostic for this kind of failure.
    pub open spec fn wording(self) -> Seq<char> {
        match self {
            ErrorKind::ProcessSpawnFailure => "Failed to start the clipboard command"@,
            ErrorKind::NonZeroExit => "Clipboard command failed"@,
            ErrorKind::EmptyPayload => "Empty image data"@,
            ErrorKind::InvalidMimeType => "Invalid image MIME type"@,
            ErrorKind::DecodeFailure => "Failed to decode image data"@,
            ErrorKind::WriteFailed => "Failed to write to the clipboard"@,
        }
    }

    /// The diagnostic for this kind of failure.
    pub fn message(&self) -> (text: String)
        ensures
            text@ == self.wording(),
    {
        match self {
            ErrorKind::ProcessSpawnFailure => "Failed to start the clipboard command".to_owned(),
            ErrorKind::NonZeroExit => "Clipboard command failed".to_owned(),
            ErrorKind::EmptyPayload => "Empty image data".to_owned(),
            ErrorKind::InvalidMimeType => "Invalid image MIME type".to_owned(),
            ErrorKind::DecodeFailure => "Failed to decode image data".to_owned(),
            ErrorKind::WriteFailed => "Failed to write to the clipboard".to_owned(),
        }
    }
}

/// Whether `mime` names an image type: it begins with `image/`.
pub open spec fn is_image_mime(mime: Seq<char>) -> bool {
    "image/"@.is_prefix_of(mime)
}

/// What stands against writing `data` as an image of type `mime`: the type
/// is looked at first, then the data. `None` when nothing does.
pub open spec fn image_write_fault(mime: Seq<char>, data: Seq<u8>) -> Option<ErrorKind> {
    if !is_image_mime(mime) {
        Some(ErrorKind::InvalidMimeType)
    } else if data.len() == 0 {
        Some(ErrorKind::EmptyPayload)
    } else {
        None
    }
}

/// Bytes that have been validated and are ready to be written to the
/// clipboard, with the type to tag them with; plain text carries no type.
///
/// There is always at least one byte, and a type, where there is one, is an
/// image type.
#[derive(Debug, PartialEq, Eq)]
pub struct StagedWrite {
    mime_type: Option<String>,
    data: Vec<u8>,
}

impl StagedWrite {
    /// What holds of every staged write: there is at least one byte, and a
    /// type, where there is one, is an image type.
    #[verifier::type_invariant]
    closed spec fn well_formed(self) -> bool {
        &&& self.data@.len() > 0
        &&& self.mime_type matches Some(mime) ==> is_image_mime(mime@)
    }

    /// The type to tag the bytes with, if any.
    pub closed spec fn mime(self) -> Option<Seq<char>> {
        match self.mime_type {
            Some(mime) => Some(mime@),
            None => None,
        }
    }

    /// The bytes to write.
    pub closed spec fn bytes(self) -> Seq<u8> {
        self.data@
    }

    /// The type to tag the bytes with; `None` for plain text.
    pub fn mime_type(&self) -> (mime: Option<&str>)
        ensures
            match mime {
                Some(name) => self.mime() == Some(name@) && is_image_mime(name@),
                None => self.mime() is None,
            },
    {
        proof {
            use_type_invariant(self);
        }
        match &self.mime_type {
            Some(name) => Some(name.as_str()),
            None => None,
        }
    }

    /// The bytes to write: at least one.
    pub fn data(&self) -> (data: &[u8])
        ensures
            data@ == self.bytes(),
            data@.len() > 0,
    {
        proof {
            use_type_invariant(self);
        }
        self.data.as_slice()
    }
}

/// Validates an image that is to be copied back, and stages it for writing.
///
/// A type that does not begin with `image/` is refused as `InvalidMimeType`,
/// whatever the data; empty data under an image type as `EmptyPayload`.
/// Everything else is staged as it is.
pub fn validate_and_stage_write(mime_type: &str, data: &[u8]) -> (staged: Result<
    StagedWrite,
    ErrorKind,
>)
    ensures
        match staged {
            Ok(write) => {
                &&& image_write_fault(mime_type@, data@) is None
                &&& write.mime() == Some(mime_type@)
                &&& write.bytes() == data@
            },
            Err(kind) => image_write_fault(mime_type@, data@) == Some(kind),
        },
{
    let name = chars_of(mime_type);
    let prefix = chars_of("image/");
    if !chars_start_with(name.as_slice(), prefix.as_slice()) {
        return Err(ErrorKind::InvalidMimeType);
    }
    if data.len() == 0 {
        return Err(ErrorKind::EmptyPayload);
    }
    Ok(StagedWrite { mime_type: Some(mime_type.to_owned()), data: slice_to_vec(data) })
}

/// Stages plain text that is to be copied back. Text carries no type, so
/// only empty data is refused, as `EmptyPayload`.
pub fn stage_text_write(data: &[u8]) -> (staged: Result<StagedWrite, ErrorKind>)
    ensures
        match staged {
            Ok(write) => data@.len() > 0 && write.mime() is None && write.bytes() == data@,
            Err(kind) => data@.len() == 0 && kind == ErrorKind::EmptyPayload,
        },
{
    if data.len() == 0 {
        return Err(ErrorKind::EmptyPayload);
    }
    Ok(StagedWrite { mime_type: None, data: slice_to_vec(data) })
}

/// The token of every image format names an image type.
pub proof fn lemma_image_formats_are_image_types(format: ImageFormat)
    ensures
        is_image_mime(format.mime()),
{
    reveal_strlit("image/");
    reveal_strlit("image/png");
    reveal_strlit("image/jpeg");
    reveal_strlit("image/gif");
}

/// An image that a look at the clipboard shows can always be copied back:
/// nothing stands against writing its bytes under its type.
pub proof fn lemma_shown_image_can_be_copied_back(
    answers: spec_fn(FetchRequest, Option<Seq<u8>>) -> bool,
    format: ImageFormat,
    policy: FallbackPolicy,
    outcome: OutcomeView,
)
    requires
        resolves_to(answers, StepView::Fetch(FetchRequest::Image(format)), policy, outcome),
    ensures
        outcome matches OutcomeView::Displayable { mime, bytes } ==> image_write_fault(mime, bytes)
            is None,
{
    let first = FetchRequest::Image(format);
    lemma_shown_bytes_were_fetched(answers, first, policy, outcome);
    if let OutcomeView::Displayable { mime, bytes } = outcome {
        let asked = choose|asked: FetchRequest|
            {
                &&& #[trigger] can_reach(StepView::Fetch(first), policy, asked)
                &&& mime == asked.mime()
                &&& answers(asked, Some(bytes))
            };
        reveal_with_fuel(can_reach, 4);
        match asked {
            FetchRequest::Image(shown) => {
                lemma_image_formats_are_image_types(shown);
            },
            FetchRequest::PlainText => {},
        }
    }
}

/// Text that a look at the clipboard shows has at least one byte, so it can
/// always be copied back.
pub proof fn lemma_shown_text_can_be_copied_back(
    answers: spec_fn(FetchRequest, Option<Seq<u8>>) -> bool,
    policy: FallbackPolicy,
    outcome: OutcomeView,
)
    requires
        resolves_to(answers, StepView::Fetch(FetchRequest::PlainText), policy, outcome),
    ensures
        outcome matches OutcomeView::Displayable { mime, bytes } ==> bytes.len() > 0,
{
    lemma_shown_bytes_were_fetched(answers, FetchRequest::PlainText, policy, outcome);
}

} // verus!
