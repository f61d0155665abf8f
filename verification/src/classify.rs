//! What kind of content a clipboard holds, and which image format to ask
//! for, decided from the types it offers.

use crate::text::lines;
use crate::type_set::TypeSet;
use vstd::prelude::*;

verus! {

/// The kind of content a clipboard holds.
#[derive(Debug, Clone, Copy, PartialEq, Eq, Structural)]
pub enum ClipboardContentType {
    /// Plain text in one of its forms.
    Text,
    /// An image in a format that can be shown.
    Image,
    /// A list of files.
    File,
    /// Nothing that can be shown.
    Unsupported,
}

/// An image format that can be fetched and shown. When several are offered,
/// PNG is preferred to JPEG, and JPEG to GIF.
#[derive(Debug, Clone, Copy, PartialEq, Eq, Structural)]
pub enum ImageFormat {
    Png,
    Jpeg,
    Gif,
}

impl ImageFormat {
    /// The token under which a clipboard offers this format.
    pub open spec fn mime(self) -> Seq<char> {
        match self {
            ImageFormat::Png => "image/png"@,
            ImageFormat::Jpeg => "image/jpeg"@,
            ImageFormat::Gif => "image/gif"@,
        }
    }

    /// The format that is tried after this one, if any.
    pub open spec fn next_lower(self) -> Option<ImageFormat> {
        match self {
            ImageFormat::Png => Some(ImageFormat::Jpeg),
            ImageFormat::Jpeg => Some(ImageFormat::Gif),
            ImageFormat::Gif => None,
        }
    }

    /// The token under which a clipboard offers this format.
    pub fn mime_type(self) -> (token: &'static str)
        ensures
            token@ == self.mime(),
    {
        match self {
            ImageFormat::Png => "image/png",
            ImageFormat::Jpeg => "image/jpeg",
            ImageFormat::Gif => "image/gif",
        }
    }

    /// The format with the next lower preference, if there is one.
    pub fn lower(self) -> (next: Option<ImageFormat>)
        ensures
            next == self.next_lower(),
    {
        match self {
            ImageFormat::Png => Some(ImageFormat::Jpeg),
            ImageFormat::Jpeg => Some(ImageFormat::Gif),
            ImageFormat::Gif => None,
        }
    }
}

/// A file list is offered.
pub open spec fn file_qualified(types: Seq<Seq<char>>) -> bool {
    types.contains("text/uri-list"@)
}

/// Some image format is offered.
pub open spec fn image_qualified(types: Seq<Seq<char>>) -> bool {
    ||| types.contains("image/png"@)
    ||| types.contains("image/jpeg"@)
    ||| types.contains("image/gif"@)
}

/// Some form of plain text is offered.
pub open spec fn text_qualified(types: Seq<Seq<char>>) -> bool {
    ||| types.contains("text/plain"@)
    ||| types.contains("text/plain;charset=utf-8"@)
    ||| types.contains("UTF8_STRING"@)
    ||| types.contains("TEXT"@)
    ||| types.contains("STRING"@)
}

/// The kind of content behind the offered types: a file list before an
/// image, an image before text, and unsupported when none of them is
/// offered.
pub open spec fn category_of(types: Seq<Seq<char>>) -> ClipboardContentType {
    if file_qualified(types) {
        ClipboardContentType::File
    } else if image_qualified(types) {
        ClipboardContentType::Image
    } else if text_qualified(types) {
        ClipboardContentType::Text
    } else {
        ClipboardContentType::Unsupported
    }
}

/// The most preferred image format among the offered types.
pub open spec fn preferred_format_of(types: Seq<Seq<char>>) -> Option<ImageFormat> {
    if types.contains("image/png"@) {
        Some(ImageFormat::Png)
    } else if types.contains("image/jpeg"@) {
        Some(ImageFormat::Jpeg)
    } else if types.contains("image/gif"@) {
        Some(ImageFormat::Gif)
    } else {
        None
    }
}

/// The kind of content that `types` stands for.
pub fn classify(types: &TypeSet) -> (category: ClipboardContentType)
    ensures
        category == category_of(types@),
{
    if types.has("text/uri-list") {
        ClipboardContentType::File
    } else if types.has("image/png") || types.has("image/jpeg") || types.has("image/gif") {
        ClipboardContentType::Image
    } else if types.has("text/plain") || types.has("text/plain;charset=utf-8") || types.has(
        "UTF8_STRING",
    ) || types.has("TEXT") || types.has("STRING") {
        ClipboardContentType::Text
    } else {
        ClipboardContentType::Unsupported
    }
}

/// The image format to ask for, or `None` when no image format is offered.
pub fn preferred_image_format(types: &TypeSet) -> (format: Option<ImageFormat>)
    ensures
        format == preferred_format_of(types@),
{
    if types.has("image/png") {
        Some(ImageFormat::Png)
    } else if types.has("image/jpeg") {
        Some(ImageFormat::Jpeg)
    } else if types.has("image/gif") {
        Some(ImageFormat::Gif)
    } else {
        None
    }
}

/// Whether some line of the listing `types` is exactly `mime`.
pub fn has_mime_type(types: &str, mime: &str) -> (found: bool)
    ensures
        found == lines(types@).contains(mime@),
{
    TypeSet::parse(types).has(mime)
}

/// The kind of content behind a listing with one offered type on each line.
pub fn detect_clipboard_content_type(types: &str) -> (category: ClipboardContentType)
    ensures
        category == category_of(lines(types@)),
{
    classify(&TypeSet::parse(types))
}

/// The token of the image format to ask for, given a listing with one
/// offered type on each line; `None` when the listing offers no image format.
pub fn get_image_format_from_types(types: &str) -> (token: Option<&'static str>)
    ensures
        match preferred_format_of(lines(types@)) {
            Some(format) => token matches Some(name) && name@ == format.mime(),
            None => token is None,
        },
{
    match preferred_image_format(&TypeSet::parse(types)) {
        Some(format) => Some(format.mime_type()),
        None => None,
    }
}

/// A file list wins over everything else that is offered with it.
pub proof fn lemma_file_list_takes_precedence(types: Seq<Seq<char>>)
    requires
        types.contains("text/uri-list"@),
    ensures
        category_of(types) == ClipboardContentType::File,
{
}

/// Without a file list, one offered image format makes the content an image,
/// whatever text types are offered with it.
pub proof fn lemma_image_precedes_text(types: Seq<Seq<char>>)
    requires
        !types.contains("text/uri-list"@),
        types.contains("image/png"@) || types.contains("image/jpeg"@) || types.contains(
            "image/gif"@,
        ),
    ensures
        category_of(types) == ClipboardContentType::Image,
{
}

/// Without a file list and without an image format, one offered text type
/// makes the content text, and nothing recognised makes it unsupported.
pub proof fn lemma_text_comes_last(types: Seq<Seq<char>>)
    requires
        !file_qualified(types),
        !image_qualified(types),
    ensures
        text_qualified(types) ==> category_of(types) == ClipboardContentType::Text,
        !text_qualified(types) ==> category_of(types) == ClipboardContentType::Unsupported,
{
}

/// Nothing offered is unsupported, and no image format is preferred.
pub proof fn lemma_nothing_offered()
    ensures
        category_of(Seq::empty()) == ClipboardContentType::Unsupported,
        preferred_format_of(Seq::empty()) is None,
{
}

/// PNG is chosen whenever it is offered; JPEG whenever it is offered
/// without PNG; GIF whenever it is offered without the two; nothing
/// otherwise.
pub proof fn lemma_preferred_format_order(types: Seq<Seq<char>>)
    ensures
        types.contains("image/png"@) ==> preferred_format_of(types) == Some(ImageFormat::Png),
        !types.contains("image/png"@) && types.contains("image/jpeg"@) ==> preferred_format_of(
            types,
        ) == Some(ImageFormat::Jpeg),
        !types.contains("image/png"@) && !types.contains("image/jpeg"@) && types.contains(
            "image/gif"@,
        ) ==> preferred_format_of(types) == Some(ImageFormat::Gif),
        !types.contains("image/png"@) && !types.contains("image/jpeg"@) && !types.contains(
            "image/gif"@,
        ) ==> preferred_format_of(types) is None,
{
}

/// The preferred format is one that is offered, and there is one exactly
/// when the types are image-qualified; so content classified as an image
/// always has a format to ask for.
pub proof fn lemma_preferred_format_is_offered(types: Seq<Seq<char>>)
    ensures
        preferred_format_of(types) is Some <==> image_qualified(types),
        preferred_format_of(types) matches Some(format) ==> types.contains(format.mime()),
        category_of(types) == ClipboardContentType::Image ==> preferred_format_of(types) is Some,
{
}

/// The tokens that decide the kind of content: the one of a file list, the
/// three of the image formats, and the five of plain text.
pub open spec fn recognised_tokens() -> Seq<Seq<char>> {
    seq![
        "text/uri-list"@,
        "image/png"@,
        "image/jpeg"@,
        "image/gif"@,
        "text/plain"@,
        "text/plain;charset=utf-8"@,
        "UTF8_STRING"@,
        "TEXT"@,
        "STRING"@,
    ]
}

/// The recognised tokens are nine different strings: each can be offered
/// with or without any of the others, and none qualifies content for two
/// kinds at once.
pub proof fn lemma_recognised_tokens_differ()
    ensures
        recognised_tokens().no_duplicates(),
{
    reveal_strlit("text/uri-list");
    reveal_strlit("image/png");
    reveal_strlit("image/jpeg");
    reveal_strlit("image/gif");
    reveal_strlit("text/plain");
    reveal_strlit("text/plain;charset=utf-8");
    reveal_strlit("UTF8_STRING");
    reveal_strlit("TEXT");
    reveal_strlit("STRING");
    let known = recognised_tokens();
    assert(known[0].len() == 13 && known[1].len() == 9 && known[2].len() == 10 && known[3].len()
        == 9 && known[4].len() == 10 && known[5].len() == 24 && known[6].len() == 11
        && known[7].len() == 4 && known[8].len() == 6);
    assert(known[1][6] != known[3][6]);
    assert(known[2][0] != known[4][0]);
    assert forall|i: int, j: int| 0 <= i < known.len() && 0 <= j < known.len() && i != j implies
        known[i] != known[j] by {
        if known[i].len() == known[j].len() {
            assert((i == 1 && j == 3) || (i == 3 && j == 1) || (i == 2 && j == 4) || (i == 4 && j
                == 2));
        }
    }
}

/// Content that offers one recognised token and nothing else is of the kind
/// of that token.
pub proof fn lemma_one_token_decides(token: Seq<char>)
    ensures
        token == "text/uri-list"@ ==> category_of(seq![token]) == ClipboardContentType::File,
        token == "image/png"@ || token == "image/jpeg"@ || token == "image/gif"@ ==> category_of(
            seq![token],
        ) == ClipboardContentType::Image,
        token == "text/plain"@ || token == "text/plain;charset=utf-8"@ || token == "UTF8_STRING"@
            || token == "TEXT"@ || token == "STRING"@ ==> category_of(seq![token])
            == ClipboardContentType::Text,
        !recognised_tokens().contains(token) ==> category_of(seq![token])
            == ClipboardContentType::Unsupported,
{
    lemma_recognised_tokens_differ();
    let known = recognised_tokens();
    let only = seq![token];
    assert(only[0] == token);
    assert(forall|other: Seq<char>| only.contains(other) <==> other == token);
    assert(known[0] == "text/uri-list"@ && known[1] == "image/png"@ && known[2] == "image/jpeg"@
        && known[3] == "image/gif"@ && known[4] == "text/plain"@ && known[5]
        == "text/plain;charset=utf-8"@ && known[6] == "UTF8_STRING"@ && known[7] == "TEXT"@
        && known[8] == "STRING"@);
}

/// Two collections that offer the same tokens, in whatever order and however
/// often, are classified alike.
pub proof fn lemma_order_and_repeats_do_not_matter(a: Seq<Seq<char>>, b: Seq<Seq<char>>)
    requires
        forall|token: Seq<char>| a.contains(token) <==> b.contains(token),
    ensures
        category_of(a) == category_of(b),
        preferred_format_of(a) == preferred_format_of(b),
{
}

/// Membership is equality with a whole entry: a collection of one entry has
/// exactly that entry.
pub proof fn lemma_membership_is_exact(entry: Seq<char>, token: Seq<char>)
    ensures
        seq![entry].contains(token) <==> entry == token,
{
    if entry == token {
        assert(seq![entry][0] == token);
    }
}

} // verus!
