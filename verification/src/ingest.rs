//! The ingestion path: a short preview of what a payload holds, with byte
//! and file counts taken before anything is cut.

use vstd::prelude::*;
use crate::buffer::{lemma_steps_capped, push_whole, whole_step};
use crate::extract::{
    extract,
    extracted,
    need_for,
    need_of_kind,
    supplied_at,
    supplied_views,
    ExtractionError,
    ExtractionErrorView,
    Need,
    Supplied,
    SuppliedView,
};
use crate::paths::{display_name, display_name_of, file_kind, kind_of, FileKind};
use crate::payload::{clone_strings, CliContext, ContextView, LaunchPayload};
use crate::text::{
    byte_len,
    decimal,
    joined,
    push_decimal,
    push_joined,
    push_str,
    saturate,
    saturating_sum,
    slice_of,
    string_of,
    utf8_len,
};

verus! {

/// Ceiling of the ingestion buffer, in bytes.
pub const MAX_TEXT_BYTES: usize = 1_000_000;

/// Length of the preview, in characters.
pub const PREVIEW_CHARS: usize = 800;

/// Number of images taken in by one ingestion.
pub const MAX_IMAGES: usize = 6;

/// The ceilings of an ingestion.
#[derive(Debug, Clone, Copy, PartialEq, Eq)]
pub struct IngestLimits {
    /// Ceiling of the text buffer, in bytes.
    pub max_text_bytes: usize,
    /// Length of the preview, in characters.
    pub preview_chars: usize,
    /// Number of images taken in.
    pub max_images: usize,
}

/// The ceilings that [`ingest`] works under.
pub open spec fn standard_limits() -> IngestLimits {
    IngestLimits {
        max_text_bytes: MAX_TEXT_BYTES,
        preview_chars: PREVIEW_CHARS,
        max_images: MAX_IMAGES,
    }
}

impl IngestLimits {
    /// The ceilings that [`ingest`] works under.
    pub fn standard() -> (limits: IngestLimits)
        ensures
            limits == standard_limits(),
    {
        IngestLimits {
            max_text_bytes: MAX_TEXT_BYTES,
            preview_chars: PREVIEW_CHARS,
            max_images: MAX_IMAGES,
        }
    }
}

/// What an ingestion hands to the user interface.
#[derive(Debug, PartialEq, Eq)]
pub struct NormalizedPreview {
    /// `"text"` or `"images"`.
    pub kind: String,
    /// A short snippet to show.
    pub preview: String,
    /// Bytes of all the text extracted, or of all the images counted.
    pub total_bytes: usize,
    /// Number of files taken in.
    pub file_count: usize,
    /// Display names, in the order of the payload: of every file listed,
    /// also of those passed over; of the images taken in.
    pub names: Vec<String>,
}

/// Mathematical model of a [`NormalizedPreview`].
pub struct PreviewView {
    pub kind: Seq<char>,
    pub preview: Seq<char>,
    pub total_bytes: usize,
    pub file_count: usize,
    pub names: Seq<Seq<char>>,
}

impl View for NormalizedPreview {
    type V = PreviewView;

    open spec fn view(&self) -> PreviewView {
        PreviewView {
            kind: self.kind@,
            preview: self.preview@,
            total_bytes: self.total_bytes,
            file_count: self.file_count,
            names: self.names.deep_view(),
        }
    }
}

impl Clone for NormalizedPreview {
    fn clone(&self) -> (out: Self)
        ensures
            out@ == self@,
    {
        NormalizedPreview {
            kind: self.kind.clone(),
            preview: self.preview.clone(),
            total_bytes: self.total_bytes,
            file_count: self.file_count,
            names: clone_strings(&self.names),
        }
    }
}

/// The display names of `paths`, in order.
pub open spec fn names_of(paths: Seq<Seq<char>>) -> Seq<Seq<char>> {
    Seq::new(paths.len(), |i: int| display_name_of(paths[i]))
}

/// What follows a preview that was cut: a line break and three marker
/// characters.
pub open spec fn truncation_marker() -> Seq<char> {
    seq!['\n', '\u{e2}', '\u{20ac}', '\u{a6}']
}

/// The preview of a text buffer: the buffer itself where it has at most
/// `budget` characters, else its first `budget` characters and the marker.
pub open spec fn preview_of(buffer: Seq<char>, budget: nat) -> Seq<char> {
    if buffer.len() <= budget {
        buffer
    } else {
        buffer.take(budget as int) + truncation_marker()
    }
}

/// The one-line summary of a set of images.
pub open spec fn image_summary(names: Seq<Seq<char>>) -> Seq<char> {
    decimal(names.len()) + " image(s): "@ + joined(names, ", "@)
}

/// The state of a text ingestion after some files.
pub struct Tally {
    /// The joined text, under the ceiling.
    pub buffer: Seq<char>,
    /// Bytes of all the text extracted, joined or not.
    pub total_bytes: nat,
    /// Files from which text was extracted.
    pub file_count: nat,
}

/// The tally after one more extracted text: it is counted in any case, and
/// joined to the buffer only if it fits whole under `cap` bytes.
pub open spec fn tally_step(tally: Tally, text: Seq<char>, cap: nat) -> Tally {
    Tally {
        buffer: whole_step(tally.buffer, text, cap),
        total_bytes: tally.total_bytes + utf8_len(text),
        file_count: tally.file_count + 1,
    }
}

/// The tally of the files `paths`, in order, from what was supplied for each
/// position. A file of an unsupported kind changes nothing; the first
/// supported file that yields no text ends the ingestion with its error.
pub open spec fn tally_of(paths: Seq<Seq<char>>, supplied: Seq<SuppliedView>, cap: nat) -> Result<
    Tally,
    ExtractionErrorView,
>
    decreases paths.len(),
{
    if paths.len() == 0 {
        Ok(Tally { buffer: Seq::empty(), total_bytes: 0, file_count: 0 })
    } else {
        let last = paths.len() - 1;
        match tally_of(paths.drop_last(), supplied, cap) {
            Err(e) => Err(e),
            Ok(tally) => if kind_of(paths[last]) == FileKind::Unsupported {
                Ok(tally)
            } else {
                match extracted(kind_of(paths[last]), paths[last], supplied_at(supplied, last)) {
                    Ok(text) => Ok(tally_step(tally, text, cap)),
                    Err(e) => Err(e),
                }
            },
        }
    }
}

/// The bytes of an image, as far as its size was supplied.
pub open spec fn size_of(supplied: SuppliedView) -> nat {
    match supplied {
        SuppliedView::Size(n) => n as nat,
        _ => 0,
    }
}

/// The sizes supplied for the first `n` positions, added up.
pub open spec fn sizes_total(supplied: Seq<SuppliedView>, n: nat) -> nat
    decreases n,
{
    if n == 0 {
        0
    } else {
        sizes_total(supplied, (n - 1) as nat) + size_of(supplied_at(supplied, n - 1))
    }
}

/// How many of `count` items are taken in under a ceiling of `cap`.
pub open spec fn taken_under(count: nat, cap: nat) -> nat {
    if count <= cap {
        count
    } else {
        cap
    }
}

/// What is asked for each path of a payload that is ingested: for a file,
/// what its kind calls for; for an image, its size, as long as the ceiling
/// is not reached.
pub open spec fn ingest_needs(context: ContextView, limits: IngestLimits) -> Seq<Need> {
    match context {
        ContextView::Files(paths) => Seq::new(
            paths.len(),
            |i: int| need_of_kind(kind_of(paths[i])),
        ),
        ContextView::Images(paths) => Seq::new(
            paths.len(),
            |i: int|
                if i < limits.max_images {
                    Need::Size
                } else {
                    Need::Nothing
                },
        ),
    }
}

/// The preview of what a payload names, from what was supplied for its
/// paths.
pub open spec fn ingested(
    context: ContextView,
    supplied: Seq<SuppliedView>,
    limits: IngestLimits,
) -> Result<PreviewView, ExtractionErrorView> {
    match context {
        ContextView::Files(paths) => match tally_of(paths, supplied, limits.max_text_bytes as nat) {
            Ok(tally) => Ok(
                PreviewView {
                    kind: "text"@,
                    preview: preview_of(tally.buffer, limits.preview_chars as nat),
                    total_bytes: saturate(tally.total_bytes as int),
                    file_count: saturate(tally.file_count as int),
                    names: names_of(paths),
                },
            ),
            Err(e) => Err(e),
        },
        ContextView::Images(paths) => {
            let taken = taken_under(paths.len(), limits.max_images as nat);
            Ok(
                PreviewView {
                    kind: "images"@,
                    preview: image_summary(names_of(paths.take(taken as int))),
                    total_bytes: saturate(sizes_total(supplied, taken) as int),
                    file_count: saturate(taken as int),
                    names: names_of(paths.take(taken as int)),
                },
            )
        },
    }
}

/// The buffer of a tally never exceeds the ceiling, and no more files are
/// counted than are listed.
pub proof fn lemma_tally_capped(paths: Seq<Seq<char>>, supplied: Seq<SuppliedView>, cap: nat)
    ensures
        tally_of(paths, supplied, cap) matches Ok(tally) ==> utf8_len(tally.buffer) <= cap
            && tally.file_count <= paths.len(),
    decreases paths.len(),
{
    if paths.len() > 0 {
        lemma_tally_capped(paths.drop_last(), supplied, cap);
        match tally_of(paths.drop_last(), supplied, cap) {
            Ok(tally) => {
                let last = paths.len() - 1;
                if kind_of(paths[last]) != FileKind::Unsupported {
                    let kind = kind_of(paths[last]);
                    match extracted(kind, paths[last], supplied_at(supplied, last)) {
                        Ok(text) => {
                            lemma_steps_capped(tally.buffer, text, cap);
                        },
                        Err(_) => {},
                    }
                }
            },
            Err(_) => {},
        }
    }
}

/// A preview is never longer than the budget and the marker together.
pub proof fn lemma_preview_bounded(buffer: Seq<char>, budget: nat)
    ensures
        preview_of(buffer, budget).len() <= budget + truncation_marker().len(),
        buffer.len() <= budget ==> preview_of(buffer, budget) == buffer,
        buffer.len() > budget ==> preview_of(buffer, budget) == buffer.take(budget as int)
            + truncation_marker(),
{
}

/// Cuts a text buffer down to a preview of at most `budget` characters,
/// followed by the marker where something was cut.
pub fn text_preview(buffer: &Vec<char>, budget: usize) -> (preview: Vec<char>)
    ensures
        preview@ == preview_of(buffer@, budget as nat),
{
    if buffer.len() <= budget {
        let preview = slice_of(buffer, 0, buffer.len());
        preview
    } else {
        let mut preview = slice_of(buffer, 0, budget);
        preview.push('\n');
        preview.push('\u{e2}');
        preview.push('\u{20ac}');
        preview.push('\u{a6}');
        preview
    }
}

/// Writes the one-line summary of a set of images.
pub fn summarize_images(names: &Vec<String>) -> (summary: String)
    ensures
        summary@ == image_summary(names.deep_view()),
{
    let mut out: Vec<char> = Vec::new();
    push_decimal(&mut out, names.len() as u64);
    push_str(&mut out, " image(s): ");
    push_joined(&mut out, names, ", ");
    string_of(&out)
}

/// Builds the preview of extracted text: the buffer cut to `budget`
/// characters, beside the counts as they were before cutting.
pub fn build_text_preview(
    buffer: &Vec<char>,
    names: Vec<String>,
    total_bytes: usize,
    file_count: usize,
    budget: usize,
) -> (preview: NormalizedPreview)
    ensures
        preview@ == (PreviewView {
            kind: "text"@,
            preview: preview_of(buffer@, budget as nat),
            total_bytes,
            file_count,
            names: names.deep_view(),
        }),
{
    NormalizedPreview {
        kind: "text".to_owned(),
        preview: string_of(&text_preview(buffer, budget)),
        total_bytes,
        file_count,
        names,
    }
}

/// Builds the preview of a set of images: a one-line summary of their names,
/// beside their count and the bytes they take.
pub fn build_image_preview(names: Vec<String>, total_bytes: usize) -> (preview: NormalizedPreview)
    ensures
        preview@ == (PreviewView {
            kind: "images"@,
            preview: image_summary(names.deep_view()),
            total_bytes,
            file_count: names.len(),
            names: names.deep_view(),
        }),
{
    let summary = summarize_images(&names);
    NormalizedPreview {
        kind: "images".to_owned(),
        preview: summary,
        total_bytes,
        file_count: names.len(),
        names,
    }
}

/// The display names of the first `count` paths, or of all where there are
/// fewer.
pub fn display_names(paths: &Vec<String>, count: usize) -> (names: Vec<String>)
    ensures
        names.deep_view() == names_of(
            paths.deep_view().take(taken_under(paths.len() as nat, count as nat) as int),
        ),
        names.len() == taken_under(paths.len() as nat, count as nat),
{
    let ghost all = paths.deep_view();
    let count: usize = if paths.len() <= count {
        paths.len()
    } else {
        count
    };
    let mut names: Vec<String> = Vec::new();
    let mut i: usize = 0;
    while i < count
        invariant
            i <= count <= paths.len(),
            all == paths.deep_view(),
            names.len() == i,
            forall|k: int| 0 <= k < i ==> names@[k]@ == display_name_of(all[k]),
        decreases count - i,
    {
        names.push(display_name(paths[i].as_str()));
        i += 1;
    }
    names
}

/// Says what to obtain for each path of `payload` before it is ingested
/// under `limits`.
pub fn ingest_plan_with(payload: &LaunchPayload, limits: &IngestLimits) -> (plan: Vec<Need>)
    ensures
        plan@ == ingest_needs(payload@.context, *limits),
{
    let mut plan: Vec<Need> = Vec::new();
    match &payload.context {
        CliContext::Files { files } => {
            let ghost paths = files.deep_view();
            let mut i: usize = 0;
            while i < files.len()
                invariant
                    i <= files.len(),
                    paths == files.deep_view(),
                    plan.len() == i,
                    forall|k: int| 0 <= k < i ==> plan@[k] == need_of_kind(kind_of(paths[k])),
                decreases files.len() - i,
            {
                plan.push(need_for(file_kind(files[i].as_str())));
                i += 1;
            }
        },
        CliContext::Images { images } => {
            let mut i: usize = 0;
            while i < images.len()
                invariant
                    i <= images.len(),
                    plan.len() == i,
                    forall|k: int|
                        0 <= k < i ==> plan@[k] == if k < limits.max_images {
                            Need::Size
                        } else {
                            Need::Nothing
                        },
                decreases images.len() - i,
            {
                plan.push(
                    if i < limits.max_images {
                        Need::Size
                    } else {
                        Need::Nothing
                    },
                );
                i += 1;
            }
        },
    }
    plan
}

/// Says what to obtain for each path of `payload` before [`ingest`].
pub fn ingest_plan(payload: &LaunchPayload) -> (plan: Vec<Need>)
    ensures
        plan@ == ingest_needs(payload@.context, standard_limits()),
{
    ingest_plan_with(payload, &IngestLimits::standard())
}

fn ingest_files(files: &Vec<String>, supplied: &Vec<Supplied>, limits: &IngestLimits) -> (out:
    Result<NormalizedPreview, ExtractionError>)
    ensures
        out is Ok <==> ingested(
            ContextView::Files(files.deep_view()),
            supplied_views(supplied@),
            *limits,
        ) is Ok,
        out matches Ok(p) ==> p@ == ingested(
            ContextView::Files(files.deep_view()),
            supplied_views(supplied@),
            *limits,
        )->Ok_0,
        out matches Err(e) ==> e@ == ingested(
            ContextView::Files(files.deep_view()),
            supplied_views(supplied@),
            *limits,
        )->Err_0,
{
    let ghost paths = files.deep_view();
    let ghost given = supplied_views(supplied@);
    let cap: usize = limits.max_text_bytes;
    let nothing = Supplied::Nothing;
    let mut buffer: Vec<char> = Vec::new();
    let mut total: usize = 0;
    let mut count: usize = 0;
    let mut i: usize = 0;
    while i < files.len()
        invariant
            i <= files.len(),
            paths == files.deep_view(),
            given == supplied_views(supplied@),
            cap == limits.max_text_bytes,
            nothing@ == SuppliedView::Nothing,
            count <= i,
            tally_of(paths.take(i as int), given, cap as nat) matches Ok(tally) && tally.buffer
                == buffer@ && total == saturate(tally.total_bytes as int) && count
                == tally.file_count,
        decreases files.len() - i,
    {
        assert(paths.take(i as int + 1).drop_last() == paths.take(i as int));
        let path: &str = files[i].as_str();
        let kind = file_kind(path);
        match kind {
            FileKind::Unsupported => {},
            _ => {
                let item: &Supplied = if i < supplied.len() {
                    &supplied[i]
                } else {
                    &nothing
                };
                match extract(kind, path, item) {
                    Ok(text) => {
                        total = saturating_sum(total, byte_len(&text));
                        count = count + 1;
                        push_whole(&mut buffer, &text, cap);
                    },
                    Err(e) => {
                        proof {
                            lemma_error_stays(paths, given, cap as nat, i as int + 1);
                        }
                        return Err(e);
                    },
                }
            },
        }
        i += 1;
    }
    assert(paths.take(paths.len() as int) == paths);
    let names = display_names(files, files.len());
    Ok(build_text_preview(&buffer, names, total, count, limits.preview_chars))
}

/// Once some of the files have failed, the whole list fails the same way:
/// nothing that follows is looked at.
pub proof fn lemma_error_stays(
    paths: Seq<Seq<char>>,
    supplied: Seq<SuppliedView>,
    cap: nat,
    k: int,
)
    requires
        0 <= k <= paths.len(),
        tally_of(paths.take(k), supplied, cap) is Err,
    ensures
        tally_of(paths, supplied, cap) == tally_of(paths.take(k), supplied, cap),
    decreases paths.len() - k,
{
    if k == paths.len() {
        assert(paths.take(k) == paths);
    } else {
        assert(paths.take(k + 1).drop_last() == paths.take(k));
        lemma_error_stays(paths, supplied, cap, k + 1);
    }
}

/// A file of an unsupported kind leaves the buffer and the counts as they
/// are, whatever was supplied for it.
pub proof fn law_unsupported_is_passed_over(
    paths: Seq<Seq<char>>,
    supplied: Seq<SuppliedView>,
    cap: nat,
    path: Seq<char>,
)
    requires
        kind_of(path) == FileKind::Unsupported,
    ensures
        tally_of(paths.push(path), supplied, cap) == tally_of(paths, supplied, cap),
{
    assert(paths.push(path).drop_last() == paths);
}

/// A supported file that yields no text ends the whole ingestion with its
/// error, whatever the other files hold.
pub proof fn law_failure_aborts(
    paths: Seq<Seq<char>>,
    supplied: Seq<SuppliedView>,
    limits: IngestLimits,
    k: int,
)
    requires
        0 <= k < paths.len(),
        tally_of(paths.take(k), supplied, limits.max_text_bytes as nat) is Ok,
        kind_of(paths[k]) != FileKind::Unsupported,
        extracted(kind_of(paths[k]), paths[k], supplied_at(supplied, k)) is Err,
    ensures
        ingested(ContextView::Files(paths), supplied, limits) == Err::<
            PreviewView,
            ExtractionErrorView,
        >(
            extracted(kind_of(paths[k]), paths[k], supplied_at(supplied, k))->Err_0,
        ),
{
    let cap = limits.max_text_bytes as nat;
    assert(paths.take(k + 1).drop_last() == paths.take(k));
    lemma_error_stays(paths, supplied, cap, k + 1);
}

/// The counts are taken before anything is cut: however low the ceiling of
/// the buffer, the same bytes and files are counted, and the same files fail.
pub proof fn law_counts_ignore_cap(
    paths: Seq<Seq<char>>,
    supplied: Seq<SuppliedView>,
    low: nat,
    high: nat,
)
    ensures
        tally_of(paths, supplied, low) is Ok <==> tally_of(paths, supplied, high) is Ok,
        tally_of(paths, supplied, low) matches Ok(a) ==> {
            &&& a.total_bytes == tally_of(paths, supplied, high)->Ok_0.total_bytes
            &&& a.file_count == tally_of(paths, supplied, high)->Ok_0.file_count
        },
        tally_of(paths, supplied, low) matches Err(e) ==> e == tally_of(
            paths,
            supplied,
            high,
        )->Err_0,
    decreases paths.len(),
{
    if paths.len() > 0 {
        law_counts_ignore_cap(paths.drop_last(), supplied, low, high);
    }
}

/// What was supplied for a file of an unsupported kind is never looked at.
pub proof fn lemma_tally_reads_what_it_asks(
    paths: Seq<Seq<char>>,
    a: Seq<SuppliedView>,
    b: Seq<SuppliedView>,
    cap: nat,
)
    requires
        forall|i: int|
            0 <= i < paths.len() && kind_of(#[trigger] paths[i]) != FileKind::Unsupported
                ==> supplied_at(a, i) == supplied_at(b, i),
    ensures
        tally_of(paths, a, cap) == tally_of(paths, b, cap),
    decreases paths.len(),
{
    if paths.len() > 0 {
        let front = paths.drop_last();
        assert forall|i: int|
            0 <= i < front.len() && kind_of(#[trigger] front[i]) != FileKind::Unsupported
                implies supplied_at(a, i) == supplied_at(b, i) by {
            assert(front[i] == paths[i]);
        }
        lemma_tally_reads_what_it_asks(front, a, b, cap);
    }
}

/// Sizes beyond the images taken in are never looked at.
pub proof fn lemma_sizes_read_what_they_ask(a: Seq<SuppliedView>, b: Seq<SuppliedView>, n: nat)
    requires
        forall|i: int| 0 <= i < n ==> #[trigger] supplied_at(a, i) == supplied_at(b, i),
    ensures
        sizes_total(a, n) == sizes_total(b, n),
    decreases n,
{
    if n > 0 {
        lemma_sizes_read_what_they_ask(a, b, (n - 1) as nat);
        assert(supplied_at(a, n - 1) == supplied_at(b, n - 1));
    }
}

/// An ingestion depends on nothing but what its plan asks for: two supplies
/// that agree wherever something is asked for give the same preview.
pub proof fn law_ingest_reads_what_it_asks(
    context: ContextView,
    a: Seq<SuppliedView>,
    b: Seq<SuppliedView>,
    limits: IngestLimits,
)
    requires
        forall|i: int|
            0 <= i < context.paths().len() && #[trigger] ingest_needs(context, limits)[i]
                != Need::Nothing ==> supplied_at(a, i) == supplied_at(b, i),
    ensures
        ingested(context, a, limits) == ingested(context, b, limits),
{
    match context {
        ContextView::Files(paths) => {
            assert forall|i: int|
                0 <= i < paths.len() && kind_of(#[trigger] paths[i]) != FileKind::Unsupported
                    implies supplied_at(a, i) == supplied_at(b, i) by {
                assert(ingest_needs(context, limits)[i] == need_of_kind(kind_of(paths[i])));
            }
            lemma_tally_reads_what_it_asks(paths, a, b, limits.max_text_bytes as nat);
        },
        ContextView::Images(paths) => {
            let taken = taken_under(paths.len(), limits.max_images as nat);
            assert forall|i: int| 0 <= i < taken implies #[trigger] supplied_at(a, i)
                == supplied_at(b, i) by {
                assert(ingest_needs(context, limits)[i] == Need::Size);
            }
            lemma_sizes_read_what_they_ask(a, b, taken);
        },
    }
}

/// Image ingestion stops at the ceiling: as many names and files come out as
/// there are images, but never more than the ceiling allows.
pub proof fn law_image_cap(paths: Seq<Seq<char>>, supplied: Seq<SuppliedView>, limits: IngestLimits)
    ensures
        ingested(ContextView::Images(paths), supplied, limits) matches Ok(preview) && {
            &&& preview.names.len() == preview.file_count
            &&& preview.file_count == taken_under(paths.len(), limits.max_images as nat)
            &&& preview.file_count <= limits.max_images
        },
{
}

fn ingest_images(images: &Vec<String>, supplied: &Vec<Supplied>, limits: &IngestLimits) -> (out:
    NormalizedPreview)
    ensures
        Ok::<PreviewView, ExtractionErrorView>(out@) == ingested(
            ContextView::Images(images.deep_view()),
            supplied_views(supplied@),
            *limits,
        ),
{
    let ghost given = supplied_views(supplied@);
    let taken: usize = if images.len() <= limits.max_images {
        images.len()
    } else {
        limits.max_images
    };
    let mut total: usize = 0;
    let mut i: usize = 0;
    while i < taken
        invariant
            i <= taken,
            given == supplied_views(supplied@),
            total == saturate(sizes_total(given, i as nat) as int),
        decreases taken - i,
    {
        let size: usize = if i < supplied.len() {
            match &supplied[i] {
                Supplied::Size(n) => *n,
                _ => 0,
            }
        } else {
            0
        };
        total = saturating_sum(total, size);
        i += 1;
    }
    build_image_preview(display_names(images, taken), total)
}

/// Builds the preview of `payload` under the ceilings `limits`, from what
/// was supplied for each of its paths.
///
/// Files of an unsupported kind are passed over. The first supported file
/// that cannot be turned into text ends the ingestion with its error. Every
/// text extracted is counted; it is joined to the buffer only while the
/// buffer stays under its ceiling. Images are taken in up to the ceiling for
/// images, each with the size supplied for it.
pub fn ingest_with(payload: LaunchPayload, supplied: Vec<Supplied>, limits: &IngestLimits) -> (out:
    Result<NormalizedPreview, ExtractionError>)
    ensures
        out is Ok <==> ingested(payload@.context, supplied_views(supplied@), *limits) is Ok,
        out matches Ok(p) ==> p@ == ingested(
            payload@.context,
            supplied_views(supplied@),
            *limits,
        )->Ok_0,
        out matches Err(e) ==> e@ == ingested(
            payload@.context,
            supplied_views(supplied@),
            *limits,
        )->Err_0,
{
    match &payload.context {
        CliContext::Files { files } => ingest_files(files, &supplied, limits),
        CliContext::Images { images } => Ok(ingest_images(images, &supplied, limits)),
    }
}

/// Builds the preview of `payload` from what was supplied for each of its
/// paths, under the standard ceilings.
pub fn ingest(payload: LaunchPayload, supplied: Vec<Supplied>) -> (out: Result<
    NormalizedPreview,
    ExtractionError,
>)
    ensures
        out is Ok <==> ingested(
            payload@.context,
            supplied_views(supplied@),
            standard_limits(),
        ) is Ok,
        out matches Ok(p) ==> p@ == ingested(
            payload@.context,
            supplied_views(supplied@),
            standard_limits(),
        )->Ok_0,
        out matches Err(e) ==> e@ == ingested(
            payload@.context,
            supplied_views(supplied@),
            standard_limits(),
        )->Err_0,
{
    ingest_with(payload, supplied, &IngestLimits::standard())
}

} // verus!
