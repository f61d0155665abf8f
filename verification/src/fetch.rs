//! What to fetch from the clipboard for a kind of content, and what to make
//! of the bytes that come back.
//!
//! The clipboard itself is reached through a function that the caller hands
//! in. It is asked for the bytes under one type at a time and answers with
//! the bytes or with nothing; why it has nothing is not told apart.

use crate::classify::{
    category_of, classify, preferred_format_of, preferred_image_format, ClipboardContentType,
    ImageFormat,
};
use crate::type_set::TypeSet;
use vstd::prelude::*;

verus! {

/// What to do when the clipboard has nothing under the preferred image
/// format.
#[derive(Debug, Clone, Copy, PartialEq, Eq, Structural)]
pub enum FallbackPolicy {
    /// Give up: one request is made and its failure is final.
    NoFallback,
    /// Ask for each less preferred format in turn, whether it was offered
    /// or not, and give up after the last.
    TryLowerFormats,
}

/// One request to the clipboard for the bytes under a type.
#[derive(Debug, Clone, Copy, PartialEq, Eq, Structural)]
pub enum FetchRequest {
    /// The text, as plain text, without the line feed that ends it.
    PlainText,
    /// The image in the given format, byte for byte.
    Image(ImageFormat),
}

impl FetchRequest {
    /// The type that is asked for.
    pub open spec fn mime(self) -> Seq<char> {
        match self {
            FetchRequest::PlainText => "text/plain"@,
            FetchRequest::Image(format) => format.mime(),
        }
    }

    /// Whether the clipboard is to leave out the line feed at the end.
    pub open spec fn strips_newline(self) -> bool {
        self is PlainText
    }

    /// How many requests can still follow this one. It bounds every run.
    pub open spec fn rank(self) -> nat {
        match self {
            FetchRequest::PlainText => 0,
            FetchRequest::Image(ImageFormat::Png) => 2,
            FetchRequest::Image(ImageFormat::Jpeg) => 1,
            FetchRequest::Image(ImageFormat::Gif) => 0,
        }
    }

    /// The type that is asked for.
    pub fn mime_type(self) -> (token: &'static str)
        ensures
            token@ == self.mime(),
    {
        match self {
            FetchRequest::PlainText => "text/plain",
            FetchRequest::Image(format) => format.mime_type(),
        }
    }

    /// Whether the clipboard is to leave out the line feed at the end.
    pub fn strip_trailing_newline(self) -> (strip: bool)
        ensures
            strip == self.strips_newline(),
    {
        match self {
            FetchRequest::PlainText => true,
            FetchRequest::Image(_) => false,
        }
    }
}

/// Bytes from the clipboard and the type under which they were fetched.
#[derive(Debug, Clone, PartialEq, Eq)]
pub struct ClipboardPayload {
    pub mime_type: String,
    pub bytes: Vec<u8>,
}

/// How one look at the clipboard ended.
#[derive(Debug, Clone, PartialEq, Eq)]
pub enum Outcome {
    /// There is something to show.
    Displayable(ClipboardPayload),
    /// The clipboard holds a file list, which is left alone.
    IgnoredFileList,
    /// The clipboard offers nothing that can be shown.
    Unsupported,
    /// The clipboard had nothing under the type that was asked for.
    FetchFailed,
}

/// What an `Outcome` holds, as plain values.
pub enum OutcomeView {
    Displayable { mime: Seq<char>, bytes: Seq<u8> },
    IgnoredFileList,
    Unsupported,
    FetchFailed,
}

impl View for Outcome {
    type V = OutcomeView;

    open spec fn view(&self) -> OutcomeView {
        match *self {
            Outcome::Displayable(payload) => OutcomeView::Displayable {
                mime: payload.mime_type@,
                bytes: payload.bytes@,
            },
            Outcome::IgnoredFileList => OutcomeView::IgnoredFileList,
            Outcome::Unsupported => OutcomeView::Unsupported,
            Outcome::FetchFailed => OutcomeView::FetchFailed,
        }
    }
}

impl Outcome {
    /// The status with which the program ends: 0 when something is shown or
    /// a file list is left alone, 1 otherwise.
    pub fn exit_code(&self) -> (code: i32)
        ensures
            code == if self@ is Displayable || self@ is IgnoredFileList {
                0i32
            } else {
                1i32
            },
    {
        match self {
            Outcome::Displayable(_) => 0,
            Outcome::IgnoredFileList => 0,
            Outcome::Unsupported => 1,
            Outcome::FetchFailed => 1,
        }
    }
}

/// What comes next in a look at the clipboard.
#[derive(Debug, Clone, PartialEq, Eq)]
pub enum Step {
    /// Ask the clipboard, then go on with its answer.
    Fetch(FetchRequest),
    /// Stop: this is the outcome.
    Done(Outcome),
}

/// What a `Step` holds, as plain values.
pub enum StepView {
    Fetch(FetchRequest),
    Done(OutcomeView),
}

impl View for Step {
    type V = StepView;

    open spec fn view(&self) -> StepView {
        match *self {
            Step::Fetch(request) => StepView::Fetch(request),
            Step::Done(outcome) => StepView::Done(outcome@),
        }
    }
}

/// What the clipboard answered, as plain values.
pub open spec fn answer_view(fetched: Option<Vec<u8>>) -> Option<Seq<u8>> {
    match fetched {
        Some(bytes) => Some(bytes@),
        None => None,
    }
}

/// The first step for a kind of content.
///
/// Text is asked for as plain text, an image in its preferred format. A file
/// list and unsupported content end the look at once, without any request:
/// so does an image without a preferred format, for which there is nothing
/// to ask.
pub open spec fn first_step(
    category: ClipboardContentType,
    preferred: Option<ImageFormat>,
) -> StepView {
    match category {
        ClipboardContentType::File => StepView::Done(OutcomeView::IgnoredFileList),
        ClipboardContentType::Unsupported => StepView::Done(OutcomeView::Unsupported),
        ClipboardContentType::Text => StepView::Fetch(FetchRequest::PlainText),
        ClipboardContentType::Image => match preferred {
            Some(format) => StepView::Fetch(FetchRequest::Image(format)),
            None => StepView::Done(OutcomeView::FetchFailed),
        },
    }
}

/// The request that follows a failed one, if the policy allows another.
pub open spec fn retry_after(request: FetchRequest, policy: FallbackPolicy) -> Option<
    FetchRequest,
> {
    match (policy, request) {
        (FallbackPolicy::TryLowerFormats, FetchRequest::Image(format)) => match format.next_lower() {
            Some(lower) => Some(FetchRequest::Image(lower)),
            None => None,
        },
        _ => None,
    }
}

/// Whether an answer holds something to show: at least one byte. No answer
/// and an empty answer are the same failure.
pub open spec fn usable(answer: Option<Seq<u8>>) -> bool {
    answer matches Some(bytes) && bytes.len() > 0
}

/// The outcome when the answer to `request` is final: the answer is shown
/// under the type that was asked for, or the look has failed.
pub open spec fn outcome_of(request: FetchRequest, answer: Option<Seq<u8>>) -> OutcomeView {
    if usable(answer) {
        OutcomeView::Displayable { mime: request.mime(), bytes: answer->0 }
    } else {
        OutcomeView::FetchFailed
    }
}

/// The step that follows the clipboard's answer to `request`.
///
/// A usable answer ends the look. A failure is final unless the policy names
/// another request.
pub open spec fn step_after(
    request: FetchRequest,
    answer: Option<Seq<u8>>,
    policy: FallbackPolicy,
) -> StepView {
    if usable(answer) {
        StepView::Done(outcome_of(request, answer))
    } else {
        match retry_after(request, policy) {
            Some(next) => StepView::Fetch(next),
            None => StepView::Done(outcome_of(request, answer)),
        }
    }
}

/// How many requests a step can still lead to.
pub open spec fn requests_left(step: StepView) -> nat {
    match step {
        StepView::Fetch(request) => request.rank() + 1,
        StepView::Done(_) => 0,
    }
}

/// What the clipboard `fetch` can answer to each request, as a relation
/// between the request and the answer as plain values.
pub open spec fn answers_of<F: Fn(&str, bool) -> Option<Vec<u8>>>(fetch: F) -> spec_fn(
    FetchRequest,
    Option<Seq<u8>>,
) -> bool {
    |request: FetchRequest, answer: Option<Seq<u8>>|
        exists|mime: &str, fetched: Option<Vec<u8>>|
            {
                &&& mime@ == request.mime()
                &&& #[trigger] call_ensures(fetch, (mime, request.strips_newline()), fetched)
                &&& answer_view(fetched) == answer
            }
}

/// `outcome` is a possible end of a look that stands at `step`: each request
/// on the way is answered with something that `answers` allows for it, and
/// the answers lead to `outcome`.
pub open spec fn resolves_to(
    answers: spec_fn(FetchRequest, Option<Seq<u8>>) -> bool,
    step: StepView,
    policy: FallbackPolicy,
    outcome: OutcomeView,
) -> bool
    decreases requests_left(step),
{
    match step {
        StepView::Done(end) => outcome == end,
        StepView::Fetch(request) => exists|answer: Option<Seq<u8>>|
            {
                &&& #[trigger] answers(request, answer)
                &&& resolves_to(answers, step_after(request, answer, policy), policy, outcome)
            },
    }
}

/// A file list and unsupported content end the look before anything is
/// asked of the clipboard, whatever the preferred format and the policy:
/// the outcome does not depend on what the clipboard would answer.
pub proof fn lemma_no_request_for_file_list_or_unsupported(
    answers: spec_fn(FetchRequest, Option<Seq<u8>>) -> bool,
    preferred: Option<ImageFormat>,
    policy: FallbackPolicy,
    outcome: OutcomeView,
)
    ensures
        first_step(ClipboardContentType::File, preferred) == StepView::Done(
            OutcomeView::IgnoredFileList,
        ),
        first_step(ClipboardContentType::Unsupported, preferred) == StepView::Done(
            OutcomeView::Unsupported,
        ),
        resolves_to(answers, first_step(ClipboardContentType::File, preferred), policy, outcome)
            <==> outcome == OutcomeView::IgnoredFileList,
        resolves_to(
            answers,
            first_step(ClipboardContentType::Unsupported, preferred),
            policy,
            outcome,
        ) <==> outcome == OutcomeView::Unsupported,
{
}

/// Without fallback a look makes one request and its answer is final: the
/// outcome shows the answer, or is `FetchFailed` when the answer is absent
/// or empty.
pub proof fn lemma_one_request_without_fallback(
    answers: spec_fn(FetchRequest, Option<Seq<u8>>) -> bool,
    request: FetchRequest,
    outcome: OutcomeView,
)
    ensures
        resolves_to(answers, StepView::Fetch(request), FallbackPolicy::NoFallback, outcome)
            <==> exists|answer: Option<Seq<u8>>| #[trigger]
            answers(request, answer) && outcome == outcome_of(request, answer),
{
    reveal_with_fuel(resolves_to, 2);
}

/// Text is asked for once under either policy: only image formats have a
/// lower format to fall back to.
pub proof fn lemma_text_is_requested_once(
    answers: spec_fn(FetchRequest, Option<Seq<u8>>) -> bool,
    policy: FallbackPolicy,
    outcome: OutcomeView,
)
    ensures
        resolves_to(answers, StepView::Fetch(FetchRequest::PlainText), policy, outcome)
            == resolves_to(
            answers,
            StepView::Fetch(FetchRequest::PlainText),
            FallbackPolicy::NoFallback,
            outcome,
        ),
{
    reveal_with_fuel(resolves_to, 2);
}

/// Whatever the clipboard answers, a look that starts with a request ends
/// with something to show or with `FetchFailed`; what is shown has at least
/// one byte, is an answer of the clipboard to a request that the look could
/// come to, and carries the type of that request.
pub proof fn lemma_shown_bytes_were_fetched(
    answers: spec_fn(FetchRequest, Option<Seq<u8>>) -> bool,
    request: FetchRequest,
    policy: FallbackPolicy,
    outcome: OutcomeView,
)
    requires
        resolves_to(answers, StepView::Fetch(request), policy, outcome),
    ensures
        outcome is FetchFailed || outcome is Displayable,
        outcome matches OutcomeView::Displayable { mime, bytes } ==> {
            &&& bytes.len() > 0
            &&& exists|asked: FetchRequest|
                {
                    &&& #[trigger] can_reach(StepView::Fetch(request), policy, asked)
                    &&& mime == asked.mime()
                    &&& answers(asked, Some(bytes))
                }
        },
    decreases request.rank(),
{
    let answer = choose|answer: Option<Seq<u8>>|
        {
            &&& #[trigger] answers(request, answer)
            &&& resolves_to(answers, step_after(request, answer, policy), policy, outcome)
        };
    match step_after(request, answer, policy) {
        StepView::Done(_) => {
            assert(can_reach(StepView::Fetch(request), policy, request));
        },
        StepView::Fetch(next) => {
            lemma_shown_bytes_were_fetched(answers, next, policy, outcome);
            if let OutcomeView::Displayable { mime, bytes } = outcome {
                let asked = choose|asked: FetchRequest|
                    {
                        &&& #[trigger] can_reach(StepView::Fetch(next), policy, asked)
                        &&& mime == asked.mime()
                        &&& answers(asked, Some(bytes))
                    };
                assert(can_reach(StepView::Fetch(request), policy, asked));
            }
        },
    }
}

/// The clipboard that answers each request with `reply` of it, and with
/// nothing else.
pub open spec fn answers_by(reply: spec_fn(FetchRequest) -> Option<Seq<u8>>) -> spec_fn(
    FetchRequest,
    Option<Seq<u8>>,
) -> bool {
    |request: FetchRequest, answer: Option<Seq<u8>>| answer == reply(request)
}

/// With fallback the formats are gone through in the order of preference,
/// PNG, JPEG, GIF, starting from the preferred one, and the first usable
/// answer is shown; the look fails only when the last format has failed.
pub proof fn lemma_fallback_goes_down_the_formats(
    reply: spec_fn(FetchRequest) -> Option<Seq<u8>>,
    outcome: OutcomeView,
)
    ensures
        resolves_to(
            answers_by(reply),
            StepView::Fetch(FetchRequest::Image(ImageFormat::Gif)),
            FallbackPolicy::TryLowerFormats,
            outcome,
        ) <==> outcome == outcome_of(
            FetchRequest::Image(ImageFormat::Gif),
            reply(FetchRequest::Image(ImageFormat::Gif)),
        ),
        resolves_to(
            answers_by(reply),
            StepView::Fetch(FetchRequest::Image(ImageFormat::Jpeg)),
            FallbackPolicy::TryLowerFormats,
            outcome,
        ) <==> outcome == if usable(reply(FetchRequest::Image(ImageFormat::Jpeg))) {
            outcome_of(
                FetchRequest::Image(ImageFormat::Jpeg),
                reply(FetchRequest::Image(ImageFormat::Jpeg)),
            )
        } else {
            outcome_of(
                FetchRequest::Image(ImageFormat::Gif),
                reply(FetchRequest::Image(ImageFormat::Gif)),
            )
        },
        resolves_to(
            answers_by(reply),
            StepView::Fetch(FetchRequest::Image(ImageFormat::Png)),
            FallbackPolicy::TryLowerFormats,
            outcome,
        ) <==> outcome == if usable(reply(FetchRequest::Image(ImageFormat::Png))) {
            outcome_of(
                FetchRequest::Image(ImageFormat::Png),
                reply(FetchRequest::Image(ImageFormat::Png)),
            )
        } else if usable(reply(FetchRequest::Image(ImageFormat::Jpeg))) {
            outcome_of(
                FetchRequest::Image(ImageFormat::Jpeg),
                reply(FetchRequest::Image(ImageFormat::Jpeg)),
            )
        } else {
            outcome_of(
                FetchRequest::Image(ImageFormat::Gif),
                reply(FetchRequest::Image(ImageFormat::Gif)),
            )
        },
{
    let answers = answers_by(reply);
    let policy = FallbackPolicy::TryLowerFormats;
    let png = FetchRequest::Image(ImageFormat::Png);
    let jpeg = FetchRequest::Image(ImageFormat::Jpeg);
    let gif = FetchRequest::Image(ImageFormat::Gif);
    assert forall|request: FetchRequest| #[trigger]
        resolves_to(answers, StepView::Fetch(request), policy, outcome) == resolves_to(
            answers,
            step_after(request, reply(request), policy),
            policy,
            outcome,
        ) by {
        assert(answers(request, reply(request)));
    }
    assert(resolves_to(answers, StepView::Fetch(gif), policy, outcome) <==> outcome == outcome_of(
        gif,
        reply(gif),
    ));
    assert(step_after(jpeg, reply(jpeg), policy) == if usable(reply(jpeg)) {
        StepView::Done(outcome_of(jpeg, reply(jpeg)))
    } else {
        StepView::Fetch(gif)
    });
    assert(step_after(png, reply(png), policy) == if usable(reply(png)) {
        StepView::Done(outcome_of(png, reply(png)))
    } else {
        StepView::Fetch(jpeg)
    });
}

/// What a look can come to ask for: nothing when it starts with an outcome,
/// as for a file list and for unsupported content; without fallback the
/// request it starts with and no other; with fallback an image format and
/// those below it, and never a format above it.
pub proof fn lemma_what_can_be_asked(
    first: FetchRequest,
    end: OutcomeView,
    policy: FallbackPolicy,
    request: FetchRequest,
)
    ensures
        !can_reach(StepView::Done(end), policy, request),
        can_reach(StepView::Fetch(first), FallbackPolicy::NoFallback, request) <==> request
            == first,
        can_reach(StepView::Fetch(FetchRequest::PlainText), policy, request) <==> request
            == FetchRequest::PlainText,
        can_reach(StepView::Fetch(first), FallbackPolicy::TryLowerFormats, request) <==> {
            ||| request == first
            ||| first is Image && request is Image && request.rank() < first.rank()
        },
{
    reveal_with_fuel(can_reach, 4);
}

/// Content that was classified as an image from the types a clipboard offers
/// always has a format to ask for, and the first request is for a type that
/// the clipboard offers.
pub proof fn lemma_classified_image_is_requested(types: Seq<Seq<char>>)
    requires
        category_of(types) == ClipboardContentType::Image,
    ensures
        first_step(category_of(types), preferred_format_of(types)) matches StepView::Fetch(
            FetchRequest::Image(format),
        ) && types.contains(format.mime()),
{
}

/// Whether a look that stands at `step` can come to make `request`: it is
/// the request of this step, or of a step that follows a failure.
pub open spec fn can_reach(step: StepView, policy: FallbackPolicy, request: FetchRequest) -> bool
    decreases requests_left(step),
{
    match step {
        StepView::Done(_) => false,
        StepView::Fetch(first) => request == first || match retry_after(first, policy) {
            Some(next) => can_reach(StepView::Fetch(next), policy, request),
            None => false,
        },
    }
}

/// Whether a look that stands at `step` can come to ask for `mime` with this
/// setting of `strip`.
pub open spec fn can_be_asked(
    step: StepView,
    policy: FallbackPolicy,
    mime: Seq<char>,
    strip: bool,
) -> bool {
    exists|request: FetchRequest|
        {
            &&& #[trigger] can_reach(step, policy, request)
            &&& mime == request.mime()
            &&& strip == request.strips_newline()
        }
}

/// The first step for a kind of content and its preferred image format.
pub fn begin(category: ClipboardContentType, preferred: Option<ImageFormat>) -> (step: Step)
    ensures
        step@ == first_step(category, preferred),
{
    match category {
        ClipboardContentType::File => Step::Done(Outcome::IgnoredFileList),
        ClipboardContentType::Unsupported => Step::Done(Outcome::Unsupported),
        ClipboardContentType::Text => Step::Fetch(FetchRequest::PlainText),
        ClipboardContentType::Image => match preferred {
            Some(format) => Step::Fetch(FetchRequest::Image(format)),
            None => Step::Done(Outcome::FetchFailed),
        },
    }
}

/// The step that follows the clipboard's answer `fetched` to `request`.
pub fn advance(request: FetchRequest, fetched: Option<Vec<u8>>, policy: FallbackPolicy) -> (step:
    Step)
    ensures
        step@ == step_after(request, answer_view(fetched), policy),
        requests_left(step@) < requests_left(StepView::Fetch(request)),
{
    match fetched {
        Some(bytes) if bytes.len() > 0 => {
            let mime_type = request.mime_type().to_owned();
            Step::Done(Outcome::Displayable(ClipboardPayload { mime_type, bytes }))
        },
        _ => {
            let next = match (policy, request) {
                (FallbackPolicy::TryLowerFormats, FetchRequest::Image(format)) => format.lower(),
                _ => None,
            };
            match next {
                Some(lower) => Step::Fetch(FetchRequest::Image(lower)),
                None => Step::Done(Outcome::FetchFailed),
            }
        },
    }
}

/// Looks at the clipboard for content of kind `category`: asks `fetch` for
/// what the steps name, one request after the other, and returns the outcome
/// they end in.
///
/// `fetch` takes the type to ask for and whether the line feed at the end is
/// to be left out. It has to accept only what this look can come to ask for:
/// nothing at all for a file list and for unsupported content, one request
/// without fallback, and the preferred format and those below it with
/// fallback. Nothing else is ever asked of it.
pub fn resolve_payload<F: Fn(&str, bool) -> Option<Vec<u8>>>(
    category: ClipboardContentType,
    preferred: Option<ImageFormat>,
    policy: FallbackPolicy,
    fetch: F,
) -> (outcome: Outcome)
    requires
        forall|mime: &str, strip: bool|
            can_be_asked(first_step(category, preferred), policy, mime@, strip)
                ==> #[trigger] call_requires(fetch, (mime, strip)),
    ensures
        resolves_to(answers_of(fetch), first_step(category, preferred), policy, outcome@),
{
    let ghost start = first_step(category, preferred);
    let ghost answers = answers_of(fetch);
    let mut step = begin(category, preferred);
    loop
        invariant
            start == first_step(category, preferred),
            answers == answers_of(fetch),
            forall|mime: &str, strip: bool|
                can_be_asked(step@, policy, mime@, strip) ==> #[trigger] call_requires(
                    fetch,
                    (mime, strip),
                ),
            forall|end: OutcomeView|
                resolves_to(answers, step@, policy, end) ==> resolves_to(
                    answers,
                    start,
                    policy,
                    end,
                ),
        decreases requests_left(step@),
    {
        match step {
            Step::Done(outcome) => {
                return outcome;
            },
            Step::Fetch(request) => {
                let mime = request.mime_type();
                let strip = request.strip_trailing_newline();
                let ghost before = step@;
                assert(can_be_asked(before, policy, mime@, strip)) by {
                    assert(can_reach(before, policy, request));
                }
                let fetched = fetch(mime, strip);
                step = advance(request, fetched, policy);
                assert forall|end: OutcomeView|
                    resolves_to(answers, step@, policy, end) implies resolves_to(
                    answers,
                    before,
                    policy,
                    end,
                ) by {
                    assert(answers(request, answer_view(fetched)));
                }
                assert forall|later: &str, mode: bool|
                    can_be_asked(step@, policy, later@, mode) implies #[trigger] call_requires(
                    fetch,
                    (later, mode),
                ) by {
                    let next = choose|next: FetchRequest|
                        {
                            &&& #[trigger] can_reach(step@, policy, next)
                            &&& later@ == next.mime()
                            &&& mode == next.strips_newline()
                        };
                    assert(can_reach(before, policy, next));
                }
            },
        }
    }
}

/// Looks at a clipboard that offers `types`: classifies them, picks the image
/// format, and resolves the payload.
pub fn peek_clipboard<F: Fn(&str, bool) -> Option<Vec<u8>>>(
    types: &TypeSet,
    policy: FallbackPolicy,
    fetch: F,
) -> (outcome: Outcome)
    requires
        forall|mime: &str, strip: bool|
            can_be_asked(
                first_step(category_of(types@), preferred_format_of(types@)),
                policy,
                mime@,
                strip,
            ) ==> #[trigger] call_requires(fetch, (mime, strip)),
    ensures
        resolves_to(
            answers_of(fetch),
            first_step(category_of(types@), preferred_format_of(types@)),
            policy,
            outcome@,
        ),
{
    resolve_payload(classify(types), preferred_image_format(types), policy, fetch)
}

} // verus!
