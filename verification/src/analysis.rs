//! The analysis path: a bounded source for one request to the
//! text-generation service, and the prompt made from it.

use vstd::prelude::*;
use crate::buffer::{lemma_steps_capped, partial_step, push_partial};
use crate::extract::{
    extract,
    extracted,
    need_for,
    need_of_kind,
    supplied_at,
    supplied_views,
    unreadable,
    ExtractionError,
    ExtractionErrorView,
    Need,
    Supplied,
    SuppliedView,
};
use crate::ingest::{display_names, taken_under, names_of};
use crate::paths::{file_kind, kind_of, FileKind};
use crate::payload::{clone_strings, CliContext, ContextView, LaunchPayload};
use crate::text::{
    byte_len,
    chars_of,
    decimal,
    joined,
    push_decimal,
    push_joined,
    push_str,
    saturate,
    string_of,
    utf8_len,
};

verus! {

/// Ceiling of the analysis text, in bytes.
pub const ANALYSIS_TEXT_LIMIT: usize = 200_000;

/// Number of images sent with one analysis.
pub const ANALYSIS_IMAGE_CAP: usize = 3;

/// The ceilings of an analysis.
#[derive(Debug, Clone, Copy, PartialEq, Eq)]
pub struct AnalysisLimits {
    /// Ceiling of the text, in bytes.
    pub text_limit: usize,
    /// Number of images taken in.
    pub image_cap: usize,
}

/// The ceilings that [`prepare_analysis`] works under.
pub open spec fn standard_analysis_limits() -> AnalysisLimits {
    AnalysisLimits { text_limit: ANALYSIS_TEXT_LIMIT, image_cap: ANALYSIS_IMAGE_CAP }
}

impl AnalysisLimits {
    /// The ceilings that [`prepare_analysis`] works under.
    pub fn standard() -> (limits: AnalysisLimits)
        ensures
            limits == standard_analysis_limits(),
    {
        AnalysisLimits { text_limit: ANALYSIS_TEXT_LIMIT, image_cap: ANALYSIS_IMAGE_CAP }
    }
}

/// What one analysis works on.
#[derive(Debug, PartialEq, Eq)]
pub enum AnalysisSource {
    /// The joined text of the files, under the ceiling.
    Text { text: String, names: Vec<String> },
    /// The images, each in base64.
    Images { images_b64: Vec<String>, names: Vec<String> },
}

/// Mathematical model of an [`AnalysisSource`].
pub enum AnalysisView {
    Text { text: Seq<char>, names: Seq<Seq<char>> },
    Images { images_b64: Seq<Seq<char>>, names: Seq<Seq<char>> },
}

impl View for AnalysisSource {
    type V = AnalysisView;

    open spec fn view(&self) -> AnalysisView {
        match self {
            AnalysisSource::Text { text, names } => AnalysisView::Text {
                text: text@,
                names: names.deep_view(),
            },
            AnalysisSource::Images { images_b64, names } => AnalysisView::Images {
                images_b64: images_b64.deep_view(),
                names: names.deep_view(),
            },
        }
    }
}

impl Clone for AnalysisSource {
    fn clone(&self) -> (out: Self)
        ensures
            out@ == self@,
    {
        match self {
            AnalysisSource::Text { text, names } => AnalysisSource::Text {
                text: text.clone(),
                names: clone_strings(names),
            },
            AnalysisSource::Images { images_b64, names } => AnalysisSource::Images {
                images_b64: clone_strings(images_b64),
                names: clone_strings(names),
            },
        }
    }
}

/// The standard base64 text of `bytes`, as the `base64` crate writes it.
pub uninterp spec fn base64_standard(bytes: Seq<u8>) -> Seq<char>;

/// `Engine::encode` of the `base64` crate, on its `STANDARD` engine: the
/// RFC 4648 alphabet with padding. The contract gives the text a name; it
/// depends on the bytes alone. The crate gives up only where the length of
/// the text would not fit in `usize`, which no slice in memory reaches.
#[verifier::external_body]
fn encode_base64(bytes: &[u8]) -> (text: String)
    ensures
        text@ == base64_standard(bytes@),
{
    base64::Engine::encode(&base64::engine::general_purpose::STANDARD, bytes)
}

/// The analysis text of the files `paths`, in order, from what was supplied
/// for each position. A file of an unsupported kind changes nothing; the
/// first supported file that yields no text ends the analysis with its
/// error; of every other text, what still fits under `cap` bytes is joined.
pub open spec fn gathered(paths: Seq<Seq<char>>, supplied: Seq<SuppliedView>, cap: nat) -> Result<
    Seq<char>,
    ExtractionErrorView,
>
    decreases paths.len(),
{
    if paths.len() == 0 {
        Ok(Seq::empty())
    } else {
        let last = paths.len() - 1;
        match gathered(paths.drop_last(), supplied, cap) {
            Err(e) => Err(e),
            Ok(buffer) => if kind_of(paths[last]) == FileKind::Unsupported {
                Ok(buffer)
            } else {
                match extracted(kind_of(paths[last]), paths[last], supplied_at(supplied, last)) {
                    Ok(text) => Ok(partial_step(buffer, text, cap)),
                    Err(e) => Err(e),
                }
            },
        }
    }
}

/// The first `count` images in base64, from the bytes supplied for each. The
/// first image without bytes ends the analysis with its error.
pub open spec fn encoded(paths: Seq<Seq<char>>, supplied: Seq<SuppliedView>, count: nat) -> Result<
    Seq<Seq<char>>,
    ExtractionErrorView,
>
    decreases count,
{
    if count == 0 {
        Ok(Seq::empty())
    } else {
        match encoded(paths, supplied, (count - 1) as nat) {
            Err(e) => Err(e),
            Ok(images) => match supplied_at(supplied, count - 1) {
                SuppliedView::Bytes(bytes) => Ok(images.push(base64_standard(bytes))),
                other => Err(unreadable(paths[count - 1], other)),
            },
        }
    }
}

/// What is asked for each path of a payload that is analysed: for a file,
/// what its kind calls for; for an image, its bytes, as long as the ceiling
/// is not reached.
pub open spec fn analysis_needs(context: ContextView, limits: AnalysisLimits) -> Seq<Need> {
    match context {
        ContextView::Files(paths) => Seq::new(
            paths.len(),
            |i: int| need_of_kind(kind_of(paths[i])),
        ),
        ContextView::Images(paths) => Seq::new(
            paths.len(),
            |i: int|
                if i < limits.image_cap {
                    Need::Bytes
                } else {
                    Need::Nothing
                },
        ),
    }
}

/// The analysis source of what a payload names, from what was supplied for
/// its paths.
pub open spec fn prepared(
    context: ContextView,
    supplied: Seq<SuppliedView>,
    limits: AnalysisLimits,
) -> Result<AnalysisView, ExtractionErrorView> {
    match context {
        ContextView::Files(paths) => match gathered(paths, supplied, limits.text_limit as nat) {
            Ok(text) => Ok(AnalysisView::Text { text, names: names_of(paths) }),
            Err(e) => Err(e),
        },
        ContextView::Images(paths) => {
            let taken = taken_under(paths.len(), limits.image_cap as nat);
            match encoded(paths, supplied, taken) {
                Ok(images_b64) => Ok(
                    AnalysisView::Images { images_b64, names: names_of(paths.take(taken as int)) },
                ),
                Err(e) => Err(e),
            }
        },
    }
}

/// The analysis text never exceeds the ceiling.
pub proof fn lemma_gathered_capped(paths: Seq<Seq<char>>, supplied: Seq<SuppliedView>, cap: nat)
    ensures
        gathered(paths, supplied, cap) matches Ok(text) ==> utf8_len(text) <= cap,
    decreases paths.len(),
{
    if paths.len() > 0 {
        lemma_gathered_capped(paths.drop_last(), supplied, cap);
        match gathered(paths.drop_last(), supplied, cap) {
            Ok(buffer) => {
                let last = paths.len() - 1;
                if kind_of(paths[last]) != FileKind::Unsupported {
                    let kind = kind_of(paths[last]);
                    match extracted(kind, paths[last], supplied_at(supplied, last)) {
                        Ok(text) => {
                            lemma_steps_capped(buffer, text, cap);
                        },
                        Err(_) => {},
                    }
                }
            },
            Err(_) => {},
        }
    }
}

/// As many images come out as were taken in.
pub proof fn lemma_encoded_len(paths: Seq<Seq<char>>, supplied: Seq<SuppliedView>, count: nat)
    ensures
        encoded(paths, supplied, count) matches Ok(images) ==> images.len() == count,
    decreases count,
{
    if count > 0 {
        lemma_encoded_len(paths, supplied, (count - 1) as nat);
    }
}

/// Once some of the files have failed, the whole list fails the same way.
pub proof fn lemma_gathered_error_stays(
    paths: Seq<Seq<char>>,
    supplied: Seq<SuppliedView>,
    cap: nat,
    k: int,
)
    requires
        0 <= k <= paths.len(),
        gathered(paths.take(k), supplied, cap) is Err,
    ensures
        gathered(paths, supplied, cap) == gathered(paths.take(k), supplied, cap),
    decreases paths.len() - k,
{
    if k == paths.len() {
        assert(paths.take(k) == paths);
    } else {
        assert(paths.take(k + 1).drop_last() == paths.take(k));
        lemma_gathered_error_stays(paths, supplied, cap, k + 1);
    }
}

/// Once some of the images have failed, a longer run of them fails the same
/// way.
pub proof fn lemma_encoded_error_stays(
    paths: Seq<Seq<char>>,
    supplied: Seq<SuppliedView>,
    k: nat,
    count: nat,
)
    requires
        k <= count,
        encoded(paths, supplied, k) is Err,
    ensures
        encoded(paths, supplied, count) == encoded(paths, supplied, k),
    decreases count - k,
{
    if k < count {
        lemma_encoded_error_stays(paths, supplied, k + 1, count);
    }
}

/// What was supplied for a file of an unsupported kind is never looked at.
pub proof fn lemma_gathered_reads_what_it_asks(
    paths: Seq<Seq<char>>,
    a: Seq<SuppliedView>,
    b: Seq<SuppliedView>,
    cap: nat,
)
    requires
        forall|i: int|
            0 <= i < paths.len() && kind_of(#[trigger] paths[i]) != FileKind::Unsupported
                ==> supplied_at(a, i) == supplied_at(b, i),
    ensures
        gathered(paths, a, cap) == gathered(paths, b, cap),
    decreases paths.len(),
{
    if paths.len() > 0 {
        let front = paths.drop_last();
        assert forall|i: int|
            0 <= i < front.len() && kind_of(#[trigger] front[i]) != FileKind::Unsupported
                implies supplied_at(a, i) == supplied_at(b, i) by {
            assert(front[i] == paths[i]);
        }
        lemma_gathered_reads_what_it_asks(front, a, b, cap);
    }
}

/// Bytes beyond the images taken in are never looked at.
pub proof fn lemma_encoded_reads_what_it_asks(
    paths: Seq<Seq<char>>,
    a: Seq<SuppliedView>,
    b: Seq<SuppliedView>,
    count: nat,
)
    requires
        forall|i: int| 0 <= i < count ==> #[trigger] supplied_at(a, i) == supplied_at(b, i),
    ensures
        encoded(paths, a, count) == encoded(paths, b, count),
    decreases count,
{
    if count > 0 {
        lemma_encoded_reads_what_it_asks(paths, a, b, (count - 1) as nat);
        assert(supplied_at(a, count - 1) == supplied_at(b, count - 1));
    }
}

/// A preparation depends on nothing but what its plan asks for: two
/// supplies that agree wherever something is asked for give the same source.
pub proof fn law_analysis_reads_what_it_asks(
    context: ContextView,
    a: Seq<SuppliedView>,
    b: Seq<SuppliedView>,
    limits: AnalysisLimits,
)
    requires
        forall|i: int|
            0 <= i < context.paths().len() && #[trigger] analysis_needs(context, limits)[i]
                != Need::Nothing ==> supplied_at(a, i) == supplied_at(b, i),
    ensures
        prepared(context, a, limits) == prepared(context, b, limits),
{
    match context {
        ContextView::Files(paths) => {
            assert forall|i: int|
                0 <= i < paths.len() && kind_of(#[trigger] paths[i]) != FileKind::Unsupported
                    implies supplied_at(a, i) == supplied_at(b, i) by {
                assert(analysis_needs(context, limits)[i] == need_of_kind(kind_of(paths[i])));
            }
            lemma_gathered_reads_what_it_asks(paths, a, b, limits.text_limit as nat);
        },
        ContextView::Images(paths) => {
            let taken = taken_under(paths.len(), limits.image_cap as nat);
            assert forall|i: int| 0 <= i < taken implies #[trigger] supplied_at(a, i)
                == supplied_at(b, i) by {
                assert(analysis_needs(context, limits)[i] == Need::Bytes);
            }
            lemma_encoded_reads_what_it_asks(paths, a, b, taken);
        },
    }
}

/// Says what to obtain for each path of `payload` before it is analysed
/// under `limits`.
pub fn analysis_plan_with(payload: &LaunchPayload, limits: &AnalysisLimits) -> (plan: Vec<Need>)
    ensures
        plan@ == analysis_needs(payload@.context, *limits),
{
    let mut plan: Vec<Need> = Vec::new();
    match &payload.context {
        CliContext::Files { files } => {
            let ghost paths = files.deep_view();
            let mut i: usize = 0;
            while i < files.len()
                invariant
                    i <= files.len(),
                    paths == files.deep_view(),
                    plan.len() == i,
                    forall|k: int| 0 <= k < i ==> plan@[k] == need_of_kind(kind_of(paths[k])),
                decreases files.len() - i,
            {
                plan.push(need_for(file_kind(files[i].as_str())));
                i += 1;
            }
        },
        CliContext::Images { images } => {
            let mut i: usize = 0;
            while i < images.len()
                invariant
                    i <= images.len(),
                    plan.len() == i,
                    forall|k: int|
                        0 <= k < i ==> plan@[k] == if k < limits.image_cap {
                            Need::Bytes
                        } else {
                            Need::Nothing
                        },
                decreases images.len() - i,
            {
                plan.push(
                    if i < limits.image_cap {
                        Need::Bytes
                    } else {
                        Need::Nothing
                    },
                );
                i += 1;
            }
        },
    }
    plan
}

/// Says what to obtain for each path of `payload` before
/// [`prepare_analysis`].
pub fn analysis_plan(payload: &LaunchPayload) -> (plan: Vec<Need>)
    ensures
        plan@ == analysis_needs(payload@.context, standard_analysis_limits()),
{
    analysis_plan_with(payload, &AnalysisLimits::standard())
}

fn gather_files(files: &Vec<String>, supplied: &Vec<Supplied>, cap: usize) -> (out: Result<
    Vec<char>,
    ExtractionError,
>)
    ensures
        out is Ok <==> gathered(files.deep_view(), supplied_views(supplied@), cap as nat) is Ok,
        out matches Ok(text) ==> text@ == gathered(
            files.deep_view(),
            supplied_views(supplied@),
            cap as nat,
        )->Ok_0,
        out matches Err(e) ==> e@ == gathered(
            files.deep_view(),
            supplied_views(supplied@),
            cap as nat,
        )->Err_0,
{
    let ghost paths = files.deep_view();
    let ghost given = supplied_views(supplied@);
    let nothing = Supplied::Nothing;
    let mut buffer: Vec<char> = Vec::new();
    let mut i: usize = 0;
    while i < files.len()
        invariant
            i <= files.len(),
            paths == files.deep_view(),
            given == supplied_views(supplied@),
            nothing@ == SuppliedView::Nothing,
            gathered(paths.take(i as int), given, cap as nat) == Ok::<
                Seq<char>,
                ExtractionErrorView,
            >(buffer@),
        decreases files.len() - i,
    {
        assert(paths.take(i as int + 1).drop_last() == paths.take(i as int));
        let path: &str = files[i].as_str();
        let kind = file_kind(path);
        match kind {
            FileKind::Unsupported => {},
            _ => {
                let item: &Supplied = if i < supplied.len() {
                    &supplied[i]
                } else {
                    &nothing
                };
                match extract(kind, path, item) {
                    Ok(text) => {
                        push_partial(&mut buffer, &text, cap);
                    },
                    Err(e) => {
                        proof {
                            lemma_gathered_error_stays(paths, given, cap as nat, i as int + 1);
                        }
                        return Err(e);
                    },
                }
            },
        }
        i += 1;
    }
    assert(paths.take(paths.len() as int) == paths);
    Ok(buffer)
}

fn encode_images(images: &Vec<String>, supplied: &Vec<Supplied>, count: usize) -> (out: Result<
    Vec<String>,
    ExtractionError,
>)
    requires
        count <= images.len(),
    ensures
        out is Ok <==> encoded(images.deep_view(), supplied_views(supplied@), count as nat) is Ok,
        out matches Ok(list) ==> list.deep_view() == encoded(
            images.deep_view(),
            supplied_views(supplied@),
            count as nat,
        )->Ok_0,
        out matches Err(e) ==> e@ == encoded(
            images.deep_view(),
            supplied_views(supplied@),
            count as nat,
        )->Err_0,
{
    let ghost paths = images.deep_view();
    let ghost given = supplied_views(supplied@);
    let nothing = Supplied::Nothing;
    let mut list: Vec<String> = Vec::new();
    let mut i: usize = 0;
    assert(list.deep_view() =~= Seq::<Seq<char>>::empty());
    while i < count
        invariant
            i <= count <= images.len(),
            paths == images.deep_view(),
            given == supplied_views(supplied@),
            nothing@ == SuppliedView::Nothing,
            list.len() == i,
            encoded(paths, given, i as nat) == Ok::<Seq<Seq<char>>, ExtractionErrorView>(
                list.deep_view(),
            ),
        decreases count - i,
    {
        let item: &Supplied = if i < supplied.len() {
            &supplied[i]
        } else {
            &nothing
        };
        match item {
            Supplied::Bytes(bytes) => {
                let ghost before = list.deep_view();
                list.push(encode_base64(bytes.as_slice()));
                assert(list.deep_view() =~= before.push(base64_standard(bytes@)));
            },
            _ => {
                let reason = match item {
                    Supplied::Failed(reason) => reason.clone(),
                    _ => String::new(),
                };
                proof {
                    lemma_encoded_error_stays(paths, given, (i + 1) as nat, count as nat);
                }
                return Err(ExtractionError::Unreadable { path: images[i].clone(), reason });
            },
        }
        i += 1;
    }
    Ok(list)
}

/// Prepares the source of an analysis of `payload` under the ceilings
/// `limits`, from what was supplied for each of its paths.
///
/// Files of an unsupported kind are passed over. The first supported file
/// that cannot be turned into text, or the first image taken in whose bytes
/// were not supplied, ends the preparation with its error. Of each text,
/// the leading characters that still fit under the ceiling are joined.
/// Images are taken in up to the ceiling for images, each in base64.
pub fn prepare_analysis_with(
    payload: LaunchPayload,
    supplied: Vec<Supplied>,
    limits: &AnalysisLimits,
) -> (out: Result<AnalysisSource, ExtractionError>)
    ensures
        out is Ok <==> prepared(payload@.context, supplied_views(supplied@), *limits) is Ok,
        out matches Ok(s) ==> s@ == prepared(
            payload@.context,
            supplied_views(supplied@),
            *limits,
        )->Ok_0,
        out matches Err(e) ==> e@ == prepared(
            payload@.context,
            supplied_views(supplied@),
            *limits,
        )->Err_0,
{
    match &payload.context {
        CliContext::Files { files } => {
            match gather_files(files, &supplied, limits.text_limit) {
                Ok(text) => {
                    let names = display_names(files, files.len());
                    assert(files.deep_view().take(files.len() as int) == files.deep_view());
                    Ok(AnalysisSource::Text { text: string_of(&text), names })
                },
                Err(e) => Err(e),
            }
        },
        CliContext::Images { images } => {
            let taken: usize = if images.len() <= limits.image_cap {
                images.len()
            } else {
                limits.image_cap
            };
            match encode_images(images, &supplied, taken) {
                Ok(images_b64) => Ok(
                    AnalysisSource::Images { images_b64, names: display_names(images, taken) },
                ),
                Err(e) => Err(e),
            }
        },
    }
}

/// Prepares the source of an analysis of `payload` from what was supplied
/// for each of its paths, under the standard ceilings.
pub fn prepare_analysis(payload: LaunchPayload, supplied: Vec<Supplied>) -> (out: Result<
    AnalysisSource,
    ExtractionError,
>)
    ensures
        out is Ok <==> prepared(
            payload@.context,
            supplied_views(supplied@),
            standard_analysis_limits(),
        ) is Ok,
        out matches Ok(s) ==> s@ == prepared(
            payload@.context,
            supplied_views(supplied@),
            standard_analysis_limits(),
        )->Ok_0,
        out matches Err(e) ==> e@ == prepared(
            payload@.context,
            supplied_views(supplied@),
            standard_analysis_limits(),
        )->Err_0,
{
    prepare_analysis_with(payload, supplied, &AnalysisLimits::standard())
}

/// The prompt that asks for a short description of a source.
pub open spec fn analysis_prompt_text(source: AnalysisView) -> Seq<char> {
    match source {
        AnalysisView::Text { text, names } => (if names.len() == 0 {
            "Analyze the following text. Describe briefly what it contains in 1-2 sentences."@
        } else {
            "Analyze the following text from files ("@ + joined(names, ", "@)
                + "). Describe briefly what it contains in 1-2 sentences."@
        }) + "\n\n---\n\n"@ + text,
        AnalysisView::Images { images_b64, names } => "Analyze the provided images ("@ + joined(
            names,
            ", "@,
        ) + "). Briefly describe what they contain in 1-2 sentences."@,
    }
}

/// Writes the prompt that asks for a short description of `source`: for
/// text, an instruction that names the files, a delimiter and the text; for
/// images, an instruction that names them.
pub fn analysis_prompt(source: &AnalysisSource) -> (prompt: String)
    ensures
        prompt@ == analysis_prompt_text(source@),
{
    let mut out: Vec<char> = Vec::new();
    match source {
        AnalysisSource::Text { text, names } => {
            if names.len() == 0 {
                let plain =
                    "Analyze the following text. Describe briefly what it contains in 1-2 sentences.";
                push_str(&mut out, plain);
            } else {
                push_str(&mut out, "Analyze the following text from files (");
                push_joined(&mut out, names, ", ");
                push_str(&mut out, "). Describe briefly what it contains in 1-2 sentences.");
            }
            push_str(&mut out, "\n\n---\n\n");
            push_str(&mut out, text.as_str());
        },
        AnalysisSource::Images { images_b64, names } => {
            push_str(&mut out, "Analyze the provided images (");
            push_joined(&mut out, names, ", ");
            push_str(&mut out, "). Briefly describe what they contain in 1-2 sentences.");
        },
    }
    string_of(&out)
}

/// The diagnostic line that says what was prepared.
pub open spec fn prepared_line(source: AnalysisView) -> Seq<char> {
    match source {
        AnalysisView::Text { text, names } => "quick_analyze: prepared text; bytes="@ + decimal(
            saturate(utf8_len(text) as int) as nat,
        ) + ", files="@ + decimal(names.len()),
        AnalysisView::Images { images_b64, names } => "quick_analyze: prepared images; count="@
            + decimal(images_b64.len()) + ", names="@ + decimal(names.len()),
    }
}

/// Writes the diagnostic line that says what was prepared: the bytes and
/// files of a text, or the count of images and names.
pub fn describe_prepared(source: &AnalysisSource) -> (line: String)
    ensures
        line@ == prepared_line(source@),
{
    let mut out: Vec<char> = Vec::new();
    match source {
        AnalysisSource::Text { text, names } => {
            push_str(&mut out, "quick_analyze: prepared text; bytes=");
            push_decimal(&mut out, byte_len(&chars_of(text.as_str())) as u64);
            push_str(&mut out, ", files=");
            push_decimal(&mut out, names.len() as u64);
        },
        AnalysisSource::Images { images_b64, names } => {
            push_str(&mut out, "quick_analyze: prepared images; count=");
            push_decimal(&mut out, images_b64.len() as u64);
            push_str(&mut out, ", names=");
            push_decimal(&mut out, names.len() as u64);
        },
    }
    string_of(&out)
}

} // verus!
