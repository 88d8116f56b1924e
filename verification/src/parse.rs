//! The payload parser: from the raw arguments of a launch to a payload.
//!
//! The arguments come from shells that quote, split and prefix them as they
//! please. Three strategies are tried in a fixed order: an argument of the
//! form `@path` points to a file that holds the payload; an argument may be
//! the payload as a whole; or the payload stands somewhere between the first
//! `{` and the last `}` of all arguments joined.
//!
//! The parser reads no file and decodes no payload itself. It proceeds in
//! steps: each step either ends the resolution or asks the caller for one
//! thing, and the answer leads to the next step.

use std::collections::VecDeque;
use vstd::prelude::*;
use vstd::utf8::{decode_utf8, valid_utf8};
use crate::extract::{decode_text, decoded_text, has_bom, without_bom};
use crate::handoff::payload_view;
use crate::payload::{LaunchPayload, PayloadView};
use crate::text::{
    chars_of,
    find_first,
    find_last,
    first_index,
    joined,
    last_index,
    lemma_first_index,
    lemma_last_index,
    push_joined,
    push_str,
    slice_of,
    string_of,
    trim,
    trimmed,
    unquote,
    unquoted,
};

verus! {

/// Why the arguments of a launch gave no payload.
#[derive(Debug, PartialEq, Eq)]
pub enum ParseError {
    /// There were no arguments at all.
    NoArguments,
    /// The file that an argument points to could not be read.
    FileRead { path: String },
    /// The file that an argument points to is not UTF-8 text.
    FileNotUtf8 { path: String },
    /// The file that an argument points to holds no payload.
    FileParse { path: String },
    /// No strategy found a payload.
    NoPayloadFound,
}

/// Mathematical model of a [`ParseError`].
pub enum ParseErrorView {
    NoArguments,
    FileRead { path: Seq<char> },
    FileNotUtf8 { path: Seq<char> },
    FileParse { path: Seq<char> },
    NoPayloadFound,
}

impl View for ParseError {
    type V = ParseErrorView;

    open spec fn view(&self) -> ParseErrorView {
        match self {
            ParseError::NoArguments => ParseErrorView::NoArguments,
            ParseError::FileRead { path } => ParseErrorView::FileRead { path: path@ },
            ParseError::FileNotUtf8 { path } => ParseErrorView::FileNotUtf8 { path: path@ },
            ParseError::FileParse { path } => ParseErrorView::FileParse { path: path@ },
            ParseError::NoPayloadFound => ParseErrorView::NoPayloadFound,
        }
    }
}

impl Clone for ParseError {
    fn clone(&self) -> (out: Self)
        ensures
            out@ == self@,
    {
        match self {
            ParseError::NoArguments => ParseError::NoArguments,
            ParseError::FileRead { path } => ParseError::FileRead { path: path.clone() },
            ParseError::FileNotUtf8 { path } => ParseError::FileNotUtf8 { path: path.clone() },
            ParseError::FileParse { path } => ParseError::FileParse { path: path.clone() },
            ParseError::NoPayloadFound => ParseError::NoPayloadFound,
        }
    }
}

/// The text of an error, as it is logged.
pub open spec fn error_text(error: ParseErrorView) -> Seq<char> {
    match error {
        ParseErrorView::NoArguments => "no args"@,
        ParseErrorView::FileRead { path } => "failed to read file: "@ + path,
        ParseErrorView::FileNotUtf8 { path } => "file not utf8: "@ + path,
        ParseErrorView::FileParse { path } => "failed to parse JSON from file "@ + path,
        ParseErrorView::NoPayloadFound => "no JSON payload found"@,
    }
}

impl ParseError {
    /// The text of the error, as it is logged.
    pub fn message(&self) -> (text: String)
        ensures
            text@ == error_text(self@),
    {
        let mut out: Vec<char> = Vec::new();
        match self {
            ParseError::NoArguments => {
                push_str(&mut out, "no args");
            },
            ParseError::FileRead { path } => {
                push_str(&mut out, "failed to read file: ");
                push_str(&mut out, path.as_str());
            },
            ParseError::FileNotUtf8 { path } => {
                push_str(&mut out, "file not utf8: ");
                push_str(&mut out, path.as_str());
            },
            ParseError::FileParse { path } => {
                push_str(&mut out, "failed to parse JSON from file ");
                push_str(&mut out, path.as_str());
            },
            ParseError::NoPayloadFound => {
                push_str(&mut out, "no JSON payload found");
            },
        }
        string_of(&out)
    }
}

/// An argument as the strategies read it: without surrounding white space
/// and without one layer of surrounding quotes.
pub open spec fn normalized(arg: Seq<char>) -> Seq<char> {
    unquoted(trimmed(arg))
}

/// The path that an argument points to: what follows a leading `@`, if
/// anything does.
pub open spec fn indirection(arg: Seq<char>) -> Option<Seq<char>> {
    let n = normalized(arg);
    if n.len() >= 2 && n[0] == '@' {
        Some(n.skip(1))
    } else {
        None
    }
}

/// The path that the first argument of the form `@path` points to.
pub open spec fn first_indirection(args: Seq<Seq<char>>) -> Option<Seq<char>>
    decreases args.len(),
{
    if args.len() == 0 {
        None
    } else {
        match indirection(args[0]) {
            Some(path) => Some(path),
            None => first_indirection(args.drop_first()),
        }
    }
}

/// Tells whether a text begins with `{` and ends with `}`.
pub open spec fn is_inline(text: Seq<char>) -> bool {
    text.len() > 0 && text[0] == '{' && text.last() == '}'
}

/// The arguments, each normalized.
pub open spec fn normalized_all(args: Seq<Seq<char>>) -> Seq<Seq<char>> {
    Seq::new(args.len(), |i: int| normalized(args[i]))
}

/// The normalized arguments that begin with `{` and end with `}`, in order.
pub open spec fn inline_candidates(args: Seq<Seq<char>>) -> Seq<Seq<char>>
    decreases args.len(),
{
    if args.len() == 0 {
        Seq::empty()
    } else if is_inline(normalized(args.last())) {
        inline_candidates(args.drop_last()).push(normalized(args.last()))
    } else {
        inline_candidates(args.drop_last())
    }
}

/// The normalized arguments joined by single spaces.
pub open spec fn joined_args(args: Seq<Seq<char>>) -> Seq<char> {
    joined(normalized_all(args), " "@)
}

/// Tells whether a `{` stands somewhere before a `}` in the text.
pub open spec fn has_span(text: Seq<char>) -> bool {
    exists|open: int, close: int|
        0 <= open < close < text.len() && #[trigger] text[open] == '{' && #[trigger] text[close]
            == '}'
}

/// The text from its first `{` to its last `}`, both included, where the
/// last `}` follows the first `{`.
pub open spec fn brace_span(text: Seq<char>) -> Option<Seq<char>> {
    if first_index(text, '{') < last_index(text, '}') {
        Some(text.subrange(first_index(text, '{'), last_index(text, '}') + 1))
    } else {
        None
    }
}

/// The texts that may hold the payload where no argument points to a file,
/// in the order in which they are tried: every inline argument, then the
/// span of all arguments joined.
pub open spec fn candidates(args: Seq<Seq<char>>) -> Seq<Seq<char>> {
    inline_candidates(args) + match brace_span(joined_args(args)) {
        Some(span) => seq![span],
        None => Seq::empty(),
    }
}

/// Mathematical model of a [`ParseStep`].
pub enum StepView {
    /// The file at `path` is to be read.
    ReadFile { path: Seq<char> },
    /// `text` is to be decoded. It came from the file at `origin`, or is the
    /// first of the candidates of which `later` are left.
    Decode { text: Seq<char>, origin: Option<Seq<char>>, later: Seq<Seq<char>> },
    /// The resolution has ended.
    Done(Result<PayloadView, ParseErrorView>),
}

/// The step that tries the first of the candidates left, or ends the
/// resolution where none is left.
pub open spec fn try_next(left: Seq<Seq<char>>) -> StepView {
    if left.len() == 0 {
        StepView::Done(Err(ParseErrorView::NoPayloadFound))
    } else {
        StepView::Decode { text: left[0], origin: None, later: left.drop_first() }
    }
}

/// The first step of a resolution. No arguments end it at once. An argument
/// that points to a file decides alone: the file is asked for. Otherwise the
/// candidates are tried in order.
pub open spec fn started(args: Seq<Seq<char>>) -> StepView {
    if args.len() == 0 {
        StepView::Done(Err(ParseErrorView::NoArguments))
    } else {
        match first_indirection(args) {
            Some(path) => StepView::ReadFile { path },
            None => try_next(candidates(args)),
        }
    }
}

/// The step after the file at `path` was asked for. Without its bytes, or
/// with bytes that are not UTF-8 after an optional byte-order mark, the
/// resolution ends with an error; otherwise the trimmed text is to be decoded.
pub open spec fn after_file(path: Seq<char>, bytes: Option<Seq<u8>>) -> StepView {
    match bytes {
        None => StepView::Done(Err(ParseErrorView::FileRead { path })),
        Some(bytes) => match decoded_text(bytes) {
            None => StepView::Done(Err(ParseErrorView::FileNotUtf8 { path })),
            Some(text) => StepView::Decode {
                text: trimmed(text),
                origin: Some(path),
                later: Seq::empty(),
            },
        },
    }
}

/// The step after a text was to be decoded. A payload ends the resolution.
/// Without one, a text from a file ends it with an error, and a candidate
/// gives way to the next.
pub open spec fn after_decode(
    origin: Option<Seq<char>>,
    later: Seq<Seq<char>>,
    payload: Option<PayloadView>,
) -> StepView {
    match payload {
        Some(payload) => StepView::Done(Ok(payload)),
        None => match origin {
            Some(path) => StepView::Done(Err(ParseErrorView::FileParse { path })),
            None => try_next(later),
        },
    }
}

/// How many more answers a step may need.
pub open spec fn steps_left(step: StepView) -> nat {
    match step {
        StepView::ReadFile { .. } => 3,
        StepView::Decode { later, .. } => later.len() + 1,
        StepView::Done(_) => 0,
    }
}

/// Where a resolution ends when every question is answered by `file` and
/// `decode`.
pub open spec fn outcome(
    step: StepView,
    file: spec_fn(Seq<char>) -> Option<Seq<u8>>,
    decode: spec_fn(Seq<char>) -> Option<PayloadView>,
) -> Result<PayloadView, ParseErrorView>
    decreases steps_left(step),
{
    match step {
        StepView::ReadFile { path } => outcome(after_file(path, file(path)), file, decode),
        StepView::Decode { text, origin, later } => outcome(
            after_decode(origin, later, decode(text)),
            file,
            decode,
        ),
        StepView::Done(result) => result,
    }
}

/// The views of a queue of strings.
pub open spec fn texts(queue: Seq<String>) -> Seq<Seq<char>> {
    Seq::new(queue.len(), |i: int| queue[i]@)
}

/// A file that the caller is asked to read.
#[derive(Debug)]
pub struct PendingFile {
    path: String,
}

/// A text that the caller is asked to decode.
#[derive(Debug)]
pub struct PendingDecode {
    text: String,
    path: Option<String>,
    later: VecDeque<String>,
}

/// One step of a resolution.
#[derive(Debug)]
pub enum ParseStep {
    /// The caller reads the file and answers with its bytes.
    ReadFile(PendingFile),
    /// The caller decodes the text and answers with the payload.
    Decode(PendingDecode),
    /// The resolution has ended.
    Done(Result<LaunchPayload, ParseError>),
}

impl View for PendingFile {
    type V = StepView;

    closed spec fn view(&self) -> StepView {
        StepView::ReadFile { path: self.path@ }
    }
}

impl View for PendingDecode {
    type V = StepView;

    closed spec fn view(&self) -> StepView {
        StepView::Decode {
            text: self.text@,
            origin: match self.path {
                Some(path) => Some(path@),
                None => None,
            },
            later: texts(self.later@),
        }
    }
}

impl View for ParseStep {
    type V = StepView;

    open spec fn view(&self) -> StepView {
        match self {
            ParseStep::ReadFile(pending) => pending@,
            ParseStep::Decode(pending) => pending@,
            ParseStep::Done(result) => StepView::Done(
                match result {
                    Ok(payload) => Ok(payload@),
                    Err(error) => Err(error@),
                },
            ),
        }
    }
}

/// The model of bytes that were read, or not.
pub open spec fn bytes_view(bytes: Option<Vec<u8>>) -> Option<Seq<u8>> {
    match bytes {
        Some(bytes) => Some(bytes@),
        None => None,
    }
}

impl PendingFile {
    /// The path of the file to read.
    pub fn path(&self) -> (path: &str)
        ensures
            self@ == (StepView::ReadFile { path: path@ }),
    {
        self.path.as_str()
    }

    /// Takes the bytes of the file, or `None` where it could not be read,
    /// and gives the next step.
    pub fn answer(self, bytes: Option<Vec<u8>>) -> (next: ParseStep)
        ensures
            self@ matches StepView::ReadFile { path } && next@ == after_file(
                path,
                bytes_view(bytes),
            ),
    {
        match bytes {
            None => ParseStep::Done(Err(ParseError::FileRead { path: self.path })),
            Some(bytes) => match decode_text(&bytes) {
                None => ParseStep::Done(Err(ParseError::FileNotUtf8 { path: self.path })),
                Some(text) => {
                    let later: VecDeque<String> = VecDeque::new();
                    assert(texts(later@) =~= Seq::<Seq<char>>::empty());
                    ParseStep::Decode(
                        PendingDecode {
                            text: string_of(&trim(&text)),
                            path: Some(self.path),
                            later,
                        },
                    )
                },
            },
        }
    }
}

fn step_to(mut left: VecDeque<String>) -> (next: ParseStep)
    ensures
        next@ == try_next(texts(left@)),
{
    let ghost all = left@;
    match left.pop_front() {
        None => ParseStep::Done(Err(ParseError::NoPayloadFound)),
        Some(text) => {
            assert(texts(left@) =~= texts(all).drop_first());
            ParseStep::Decode(PendingDecode { text, path: None, later: left })
        },
    }
}

impl PendingDecode {
    /// The text to decode.
    pub fn text(&self) -> (text: &str)
        ensures
            self@ matches StepView::Decode { text: t, .. } && t == text@,
    {
        self.text.as_str()
    }

    /// Takes the payload that the text decodes to, or `None` where it
    /// decodes to none, and gives the next step.
    pub fn answer(self, payload: Option<LaunchPayload>) -> (next: ParseStep)
        ensures
            self@ matches StepView::Decode { origin, later, .. } && next@ == after_decode(
                origin,
                later,
                payload_view(payload),
            ),
    {
        match payload {
            Some(payload) => ParseStep::Done(Ok(payload)),
            None => match self.path {
                Some(path) => ParseStep::Done(Err(ParseError::FileParse { path })),
                None => step_to(self.later),
            },
        }
    }
}

/// Normalizes one argument.
pub fn normalize(arg: &str) -> (out: Vec<char>)
    ensures
        out@ == normalized(arg@),
{
    unquote(&trim(&chars_of(arg)))
}

proof fn lemma_inline_take(args: Seq<Seq<char>>, i: int)
    requires
        0 <= i < args.len(),
    ensures
        inline_candidates(args.take(i + 1)) == if is_inline(normalized(args[i])) {
            inline_candidates(args.take(i)).push(normalized(args[i]))
        } else {
            inline_candidates(args.take(i))
        },
{
    assert(args.take(i + 1).drop_last() == args.take(i));
}

/// Begins the resolution of the raw arguments `args` and gives its first
/// step.
pub fn parse_cli_json_inner(args: &Vec<String>) -> (first: ParseStep)
    ensures
        first@ == started(args.deep_view()),
{
    let ghost all = args.deep_view();
    if args.len() == 0 {
        return ParseStep::Done(Err(ParseError::NoArguments));
    }
    let mut i: usize = 0;
    assert(all.skip(0) == all);
    while i < args.len()
        invariant
            i <= args.len(),
            all == args.deep_view(),
            first_indirection(all) == first_indirection(all.skip(i as int)),
        decreases args.len() - i,
    {
        assert(all.skip(i as int).drop_first() == all.skip(i as int + 1));
        let n = normalize(args[i].as_str());
        if n.len() >= 2 && n[0] == '@' {
            let path = string_of(&slice_of(&n, 1, n.len()));
            return ParseStep::ReadFile(PendingFile { path });
        }
        i += 1;
    }
    let mut normal: Vec<String> = Vec::new();
    let mut queue: VecDeque<String> = VecDeque::new();
    let mut k: usize = 0;
    while k < args.len()
        invariant
            k <= args.len(),
            all == args.deep_view(),
            normal.len() == k,
            forall|j: int| 0 <= j < k ==> normal@[j]@ == normalized(all[j]),
            texts(queue@) == inline_candidates(all.take(k as int)),
        decreases args.len() - k,
    {
        let n = normalize(args[k].as_str());
        proof {
            lemma_inline_take(all, k as int);
        }
        if n.len() > 0 && n[0] == '{' && n[n.len() - 1] == '}' {
            queue.push_back(string_of(&n));
        }
        normal.push(string_of(&n));
        k += 1;
    }
    assert(normal.deep_view() =~= normalized_all(all));
    let mut whole: Vec<char> = Vec::new();
    push_joined(&mut whole, &normal, " ");
    let open: usize = find_first(&whole, '{');
    proof {
        lemma_last_index(whole@, '}');
    }
    match find_last(&whole, '}') {
        Some(close) => {
            if open < close {
                let ghost before = queue@;
                let span = string_of(&slice_of(&whole, open, close + 1));
                queue.push_back(span);
                assert(texts(queue@) =~= texts(before) + seq![span@]);
            }
        },
        None => {},
    }
    step_to(queue)
}

/// The UTF-8 byte-order mark.
pub open spec fn byte_order_mark() -> Seq<u8> {
    seq![0xEFu8, 0xBBu8, 0xBFu8]
}

/// Where an argument points to a file that holds UTF-8 text which decodes
/// to a payload, the resolution yields that payload, whether the file
/// begins with a byte-order mark or not.
pub proof fn law_indirection(
    args: Seq<Seq<char>>,
    path: Seq<char>,
    body: Seq<u8>,
    content: Seq<u8>,
    payload: PayloadView,
    file: spec_fn(Seq<char>) -> Option<Seq<u8>>,
    decode: spec_fn(Seq<char>) -> Option<PayloadView>,
)
    requires
        first_indirection(args) == Some(path),
        valid_utf8(body),
        content == byte_order_mark() + body || (content == body && !has_bom(body)),
        file(path) == Some(content),
        decode(trimmed(decode_utf8(body))) == Some(payload),
    ensures
        started(args) == (StepView::ReadFile { path }),
        outcome(started(args), file, decode) == Ok::<PayloadView, ParseErrorView>(payload),
{
    reveal_with_fuel(outcome, 4);
    assert(without_bom(content) == body);
    let second = after_file(path, file(path));
    assert(second == StepView::Decode {
        text: trimmed(decode_utf8(body)),
        origin: Some(path),
        later: Seq::empty(),
    });
}

/// Where an argument points to a file, nothing but that file decides: a
/// file that cannot be read, that is not text or that holds no payload ends
/// the resolution with its error, whatever the other arguments hold.
pub proof fn law_indirection_is_terminal(
    args: Seq<Seq<char>>,
    path: Seq<char>,
    file: spec_fn(Seq<char>) -> Option<Seq<u8>>,
    decode: spec_fn(Seq<char>) -> Option<PayloadView>,
)
    requires
        first_indirection(args) == Some(path),
    ensures
        file(path) is None ==> outcome(started(args), file, decode) == Err::<
            PayloadView,
            ParseErrorView,
        >(ParseErrorView::FileRead { path }),
        file(path) matches Some(bytes) && decoded_text(bytes) is None ==> outcome(
            started(args),
            file,
            decode,
        ) == Err::<PayloadView, ParseErrorView>(ParseErrorView::FileNotUtf8 { path }),
        file(path) matches Some(bytes) && decoded_text(bytes) matches Some(text) && decode(
            trimmed(text),
        ) is None ==> outcome(started(args), file, decode) == Err::<PayloadView, ParseErrorView>(
            ParseErrorView::FileParse { path },
        ),
{
    reveal_with_fuel(outcome, 4);
}

/// A part of a joined text stands in it as a whole.
proof fn lemma_joined_offset(parts: Seq<Seq<char>>, sep: Seq<char>, i: int) -> (at: int)
    requires
        0 <= i < parts.len(),
    ensures
        0 <= at,
        at + parts[i].len() <= joined(parts, sep).len(),
        joined(parts, sep).subrange(at, at + parts[i].len()) == parts[i],
    decreases parts.len(),
{
    if parts.len() == 1 {
        0
    } else {
        let front = joined(parts.drop_last(), sep);
        let whole = joined(parts, sep);
        if i == parts.len() - 1 {
            let at: int = (front.len() + sep.len()) as int;
            at
        } else {
            let at = lemma_joined_offset(parts.drop_last(), sep, i);
            assert(whole.subrange(at, at + parts[i].len()) == front.subrange(
                at,
                at + parts[i].len(),
            ));
            at
        }
    }
}

/// A text has a span from its first `{` to its last `}` exactly where some
/// `{` stands before some `}`.
pub proof fn lemma_span_exists(text: Seq<char>)
    ensures
        brace_span(text) is Some <==> has_span(text),
{
    lemma_first_index(text, '{');
    lemma_last_index(text, '}');
}

proof fn lemma_no_inline(args: Seq<Seq<char>>)
    requires
        forall|i: int| 0 <= i < args.len() ==> !is_inline(normalized(#[trigger] args[i])),
    ensures
        inline_candidates(args) == Seq::<Seq<char>>::empty(),
    decreases args.len(),
{
    if args.len() > 0 {
        lemma_no_inline(args.drop_last());
    }
}

/// Where no argument points to a file and no `{` stands before a `}`
/// anywhere in the normalized arguments, the resolution ends at once: no
/// payload is found, and nothing is asked of the caller.
pub proof fn law_no_span(args: Seq<Seq<char>>)
    requires
        args.len() > 0,
        first_indirection(args) is None,
        !has_span(joined_args(args)),
    ensures
        started(args) == StepView::Done(Err(ParseErrorView::NoPayloadFound)),
        forall|
            file: spec_fn(Seq<char>) -> Option<Seq<u8>>,
            decode: spec_fn(Seq<char>) -> Option<PayloadView>,
        | #[trigger]
            outcome(started(args), file, decode) == Err::<PayloadView, ParseErrorView>(
                ParseErrorView::NoPayloadFound,
            ),
{
    let parts = normalized_all(args);
    let whole = joined_args(args);
    lemma_span_exists(whole);
    assert forall|i: int| 0 <= i < args.len() implies !is_inline(
        normalized(#[trigger] args[i]),
    ) by {
        let n = normalized(args[i]);
        if is_inline(n) {
            let at = lemma_joined_offset(parts, " "@, i);
            assert(whole.subrange(at, at + n.len())[0] == '{');
        }
    }
    lemma_no_inline(args);
}

/// Of the candidates, the first that decodes to a payload ends the
/// resolution with that payload; where none does, no payload is found.
pub proof fn law_first_success_wins(
    left: Seq<Seq<char>>,
    file: spec_fn(Seq<char>) -> Option<Seq<u8>>,
    decode: spec_fn(Seq<char>) -> Option<PayloadView>,
)
    ensures
        (forall|i: int| 0 <= i < left.len() ==> decode(#[trigger] left[i]) is None) ==> outcome(
            try_next(left),
            file,
            decode,
        ) == Err::<PayloadView, ParseErrorView>(ParseErrorView::NoPayloadFound),
        forall|k: int|
            0 <= k < left.len() && decode(#[trigger] left[k]) is Some && (forall|i: int|
                0 <= i < k ==> decode(#[trigger] left[i]) is None) ==> outcome(
                try_next(left),
                file,
                decode,
            ) == Ok::<PayloadView, ParseErrorView>(decode(left[k])->0),
    decreases left.len(),
{
    if left.len() > 0 {
        let rest = left.drop_first();
        law_first_success_wins(rest, file, decode);
        assert(outcome(try_next(left), file, decode) == outcome(
            after_decode(None, rest, decode(left[0])),
            file,
            decode,
        ));
        if decode(left[0]) is None {
            assert forall|k: int|
                0 <= k < left.len() && decode(#[trigger] left[k]) is Some && (forall|i: int|
                    0 <= i < k ==> decode(#[trigger] left[i]) is None) implies outcome(
                try_next(left),
                file,
                decode,
            ) == Ok::<PayloadView, ParseErrorView>(decode(left[k])->0) by {
                assert(rest[k - 1] == left[k]);
            }
        }
    }
}

} // verus!
