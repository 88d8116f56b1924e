//! Turning what was read for one file into text.
//!
//! The library reads no file itself. For each listed path it says what it
//! needs ([`Need`]), and the caller hands back what it obtained
//! ([`Supplied`]).

use vstd::prelude::*;
use vstd::slice::slice_subrange;
use vstd::utf8::{decode_utf8, decode_utf8_encode_utf8, valid_utf8};
use crate::paths::FileKind;
use crate::text::{chars_of, lemma_utf8_len_encoded, push_str, string_of, utf8_len};

verus! {

/// What the caller is asked to obtain for one path.
#[derive(Debug, Clone, Copy, PartialEq, Eq, Structural)]
pub enum Need {
    /// Nothing: the path is passed over.
    Nothing,
    /// The size of the file in bytes.
    Size,
    /// The bytes of the file.
    Bytes,
    /// The text layer of the portable document.
    Text,
}

/// What the caller obtained for one path.
#[derive(Debug, PartialEq, Eq)]
pub enum Supplied {
    /// Nothing was asked for, or nothing was done.
    Nothing,
    /// The size of the file in bytes.
    Size(usize),
    /// The bytes of the file.
    Bytes(Vec<u8>),
    /// The text layer of a portable document.
    Text(String),
    /// The file could not be read; the text says why.
    Failed(String),
}

/// Mathematical model of a [`Supplied`].
pub enum SuppliedView {
    Nothing,
    Size(usize),
    Bytes(Seq<u8>),
    Text(Seq<char>),
    Failed(Seq<char>),
}

impl View for Supplied {
    type V = SuppliedView;

    open spec fn view(&self) -> SuppliedView {
        match self {
            Supplied::Nothing => SuppliedView::Nothing,
            Supplied::Size(n) => SuppliedView::Size(*n),
            Supplied::Bytes(b) => SuppliedView::Bytes(b@),
            Supplied::Text(t) => SuppliedView::Text(t@),
            Supplied::Failed(r) => SuppliedView::Failed(r@),
        }
    }
}

impl Clone for Supplied {
    fn clone(&self) -> (out: Self)
        ensures
            out@ == self@,
    {
        match self {
            Supplied::Nothing => Supplied::Nothing,
            Supplied::Size(n) => Supplied::Size(*n),
            Supplied::Bytes(bytes) => {
                let copy = bytes.clone();
                assert(copy@ =~= bytes@);
                Supplied::Bytes(copy)
            },
            Supplied::Text(text) => Supplied::Text(text.clone()),
            Supplied::Failed(reason) => Supplied::Failed(reason.clone()),
        }
    }
}

/// The models of a list of supplied items.
pub open spec fn supplied_views(items: Seq<Supplied>) -> Seq<SuppliedView> {
    Seq::new(items.len(), |i: int| items[i]@)
}

/// The item supplied for position `i`; nothing where the list is too short.
pub open spec fn supplied_at(items: Seq<SuppliedView>, i: int) -> SuppliedView {
    if 0 <= i < items.len() {
        items[i]
    } else {
        SuppliedView::Nothing
    }
}

/// A selected file that could not be turned into text.
#[derive(Debug, PartialEq, Eq)]
pub enum ExtractionError {
    /// The caller could not read the file; `reason` says why, if it is known.
    Unreadable { path: String, reason: String },
    /// The bytes of the file are not UTF-8 text.
    NotUtf8 { path: String },
    /// The document is no zip archive that can be opened.
    BadArchive { path: String },
    /// The archive holds no main document.
    MissingDocument { path: String },
    /// The main document cannot be read as text.
    BadDocument { path: String },
}

/// Mathematical model of an [`ExtractionError`].
pub enum ExtractionErrorView {
    Unreadable { path: Seq<char>, reason: Seq<char> },
    NotUtf8 { path: Seq<char> },
    BadArchive { path: Seq<char> },
    MissingDocument { path: Seq<char> },
    BadDocument { path: Seq<char> },
}

impl View for ExtractionError {
    type V = ExtractionErrorView;

    open spec fn view(&self) -> ExtractionErrorView {
        match self {
            ExtractionError::Unreadable { path, reason } => ExtractionErrorView::Unreadable {
                path: path@,
                reason: reason@,
            },
            ExtractionError::NotUtf8 { path } => ExtractionErrorView::NotUtf8 { path: path@ },
            ExtractionError::BadArchive { path } => ExtractionErrorView::BadArchive { path: path@ },
            ExtractionError::MissingDocument { path } => ExtractionErrorView::MissingDocument {
                path: path@,
            },
            ExtractionError::BadDocument { path } => ExtractionErrorView::BadDocument {
                path: path@,
            },
        }
    }
}

impl Clone for ExtractionError {
    fn clone(&self) -> (out: Self)
        ensures
            out@ == self@,
    {
        match self {
            ExtractionError::Unreadable { path, reason } => ExtractionError::Unreadable {
                path: path.clone(),
                reason: reason.clone(),
            },
            ExtractionError::NotUtf8 { path } => ExtractionError::NotUtf8 { path: path.clone() },
            ExtractionError::BadArchive { path } => ExtractionError::BadArchive {
                path: path.clone(),
            },
            ExtractionError::MissingDocument { path } => ExtractionError::MissingDocument {
                path: path.clone(),
            },
            ExtractionError::BadDocument { path } => ExtractionError::BadDocument {
                path: path.clone(),
            },
        }
    }
}

/// The text of an error, as it is shown and logged. A failure to read is
/// told in the words of whoever tried, where there are any.
pub open spec fn extraction_text(error: ExtractionErrorView) -> Seq<char> {
    match error {
        ExtractionErrorView::Unreadable { path, reason } => if reason.len() == 0 {
            "failed to read file: "@ + path
        } else {
            reason
        },
        ExtractionErrorView::NotUtf8 { path } => "file not utf8: "@ + path,
        ExtractionErrorView::BadArchive { path } => "invalid DOCX archive: "@ + path,
        ExtractionErrorView::MissingDocument { path } => "DOCX missing document.xml"@,
        ExtractionErrorView::BadDocument { path } => "DOCX document.xml unreadable: "@ + path,
    }
}

impl ExtractionError {
    /// The text of the error, as it is shown and logged.
    pub fn message(&self) -> (text: String)
        ensures
            text@ == extraction_text(self@),
    {
        let mut out: Vec<char> = Vec::new();
        match self {
            ExtractionError::Unreadable { path, reason } => {
                if reason.as_str().is_empty() {
                    push_str(&mut out, "failed to read file: ");
                    push_str(&mut out, path.as_str());
                } else {
                    push_str(&mut out, reason.as_str());
                }
            },
            ExtractionError::NotUtf8 { path } => {
                push_str(&mut out, "file not utf8: ");
                push_str(&mut out, path.as_str());
            },
            ExtractionError::BadArchive { path } => {
                push_str(&mut out, "invalid DOCX archive: ");
                push_str(&mut out, path.as_str());
            },
            ExtractionError::MissingDocument { path } => {
                push_str(&mut out, "DOCX missing document.xml");
            },
            ExtractionError::BadDocument { path } => {
                push_str(&mut out, "DOCX document.xml unreadable: ");
                push_str(&mut out, path.as_str());
            },
        }
        string_of(&out)
    }
}

/// What is asked for a file of the given kind.
pub open spec fn need_of_kind(kind: FileKind) -> Need {
    match kind {
        FileKind::Docx => Need::Bytes,
        FileKind::Pdf => Need::Text,
        FileKind::Text => Need::Bytes,
        FileKind::Unsupported => Need::Nothing,
    }
}

/// What is asked for a file of the given kind.
pub fn need_for(kind: FileKind) -> (need: Need)
    ensures
        need == need_of_kind(kind),
{
    match kind {
        FileKind::Docx => Need::Bytes,
        FileKind::Pdf => Need::Text,
        FileKind::Text => Need::Bytes,
        FileKind::Unsupported => Need::Nothing,
    }
}

/// Tells whether `bytes` begins with the UTF-8 byte-order mark.
pub open spec fn has_bom(bytes: Seq<u8>) -> bool {
    bytes.len() >= 3 && bytes[0] == 0xEF && bytes[1] == 0xBB && bytes[2] == 0xBF
}

/// `bytes` without a leading byte-order mark.
pub open spec fn without_bom(bytes: Seq<u8>) -> Seq<u8> {
    if has_bom(bytes) {
        bytes.skip(3)
    } else {
        bytes
    }
}

/// The text that `bytes` holds: UTF-8 after an optional byte-order mark.
pub open spec fn decoded_text(bytes: Seq<u8>) -> Option<Seq<char>> {
    if valid_utf8(without_bom(bytes)) {
        Some(decode_utf8(without_bom(bytes)))
    } else {
        None
    }
}

/// The text of a file takes as many bytes as the file holds after its
/// byte-order mark.
pub proof fn law_text_bytes(bytes: Seq<u8>)
    requires
        decoded_text(bytes) is Some,
    ensures
        utf8_len(decoded_text(bytes)->0) == without_bom(bytes).len(),
{
    lemma_utf8_len_encoded(decode_utf8(without_bom(bytes)));
    decode_utf8_encode_utf8(without_bom(bytes));
}

/// `std::str::from_utf8` accepts exactly the byte strings that are
/// well-formed UTF-8, and what it returns is the text that they encode.
#[verifier::external_body]
fn utf8_text(bytes: &[u8]) -> (text: Option<String>)
    ensures
        text is Some <==> valid_utf8(bytes@),
        text matches Some(t) ==> t@ == decode_utf8(bytes@),
{
    match std::str::from_utf8(bytes) {
        Ok(text) => Some(text.to_string()),
        Err(_) => None,
    }
}

/// Decodes the bytes of a text file: strips a leading byte-order mark, then
/// reads the rest as UTF-8.
pub fn decode_text(bytes: &Vec<u8>) -> (text: Option<Vec<char>>)
    ensures
        text is Some <==> decoded_text(bytes@) is Some,
        text matches Some(t) ==> t@ == decoded_text(bytes@)->0,
{
    let all: &[u8] = bytes.as_slice();
    let n: usize = all.len();
    let body: &[u8] = if n >= 3 && all[0] == 0xEF && all[1] == 0xBB && all[2] == 0xBF {
        slice_subrange(all, 3, n)
    } else {
        all
    };
    match utf8_text(body) {
        Some(text) => Some(chars_of(text.as_str())),
        None => None,
    }
}

/// Tells whether the text `s` ends inside a tag: its last angle bracket, if
/// it has one, is an opening one.
pub open spec fn in_tag_after(s: Seq<char>) -> bool
    decreases s.len(),
{
    if s.len() == 0 {
        false
    } else if s.last() == '<' {
        true
    } else if s.last() == '>' {
        false
    } else {
        in_tag_after(s.drop_last())
    }
}

/// `s` without its markup: the angle brackets and what stands between an
/// opening bracket and the next closing one are removed, everything else is
/// kept in order.
pub open spec fn stripped(s: Seq<char>) -> Seq<char>
    decreases s.len(),
{
    if s.len() == 0 {
        Seq::empty()
    } else if s.last() == '<' || s.last() == '>' || in_tag_after(s.drop_last()) {
        stripped(s.drop_last())
    } else {
        stripped(s.drop_last()).push(s.last())
    }
}

/// What is left of a text is no longer than the text and holds no angle
/// bracket.
pub proof fn lemma_stripped_len(s: Seq<char>)
    ensures
        stripped(s).len() <= s.len(),
        forall|i: int| 0 <= i < stripped(s).len() ==> #[trigger] stripped(s)[i] != '<' && stripped(
            s,
        )[i] != '>',
    decreases s.len(),
{
    if s.len() > 0 {
        lemma_stripped_len(s.drop_last());
    }
}

/// Removes the markup from `xml`, character by character.
pub fn strip_markup_chars(xml: &Vec<char>) -> (out: Vec<char>)
    ensures
        out@ == stripped(xml@),
{
    let mut out: Vec<char> = Vec::new();
    let mut in_tag: bool = false;
    let mut i: usize = 0;
    while i < xml.len()
        invariant
            i <= xml.len(),
            out@ == stripped(xml@.take(i as int)),
            in_tag == in_tag_after(xml@.take(i as int)),
        decreases xml.len() - i,
    {
        assert(xml@.take(i as int + 1).drop_last() == xml@.take(i as int));
        let c: char = xml[i];
        if c == '<' {
            in_tag = true;
        } else if c == '>' {
            in_tag = false;
        } else if !in_tag {
            out.push(c);
        }
        i += 1;
    }
    assert(xml@.take(xml@.len() as int) == xml@);
    out
}

/// Removes the markup from `xml`: the angle brackets and everything between
/// an opening bracket and the next closing one.
pub fn strip_markup(xml: &str) -> (out: String)
    ensures
        out@ == stripped(xml@),
{
    string_of(&strip_markup_chars(&chars_of(xml)))
}

/// The step at which reading an entry of a zip archive failed.
#[derive(Debug, Clone, Copy, PartialEq, Eq, Structural)]
pub enum ArchiveFault {
    /// The bytes are no archive that can be opened.
    Container,
    /// The archive has no entry of that name that can be opened.
    Entry,
    /// The entry cannot be read to its end as UTF-8 text.
    Content,
}

/// What the `zip` crate makes of the entry `name` of the archive `archive`:
/// its text, or the step that failed.
pub uninterp spec fn archive_entry_text(archive: Seq<u8>, name: Seq<char>) -> Result<
    Seq<char>,
    ArchiveFault,
>;

/// Reads one entry of a zip archive held in memory, with the `zip` crate:
/// `ZipArchive::new` opens the archive, `ZipArchive::by_name` finds the entry,
/// and reading it to the end inflates it, checks it and takes it as UTF-8.
/// The contract gives the outcome a name; it depends on the two arguments
/// alone, and nothing more is claimed of it.
#[verifier::external_body]
fn read_archive_entry(bytes: &[u8], name: &str) -> (entry: Result<String, ArchiveFault>)
    ensures
        entry is Ok <==> archive_entry_text(bytes@, name@) is Ok,
        entry matches Ok(text) ==> text@ == archive_entry_text(bytes@, name@)->Ok_0,
        entry matches Err(fault) ==> fault == archive_entry_text(bytes@, name@)->Err_0,
{
    let mut archive = match zip::ZipArchive::new(std::io::Cursor::new(bytes)) {
        Ok(archive) => archive,
        Err(_) => return Err(ArchiveFault::Container),
    };
    let mut entry = match archive.by_name(name) {
        Ok(entry) => entry,
        Err(_) => return Err(ArchiveFault::Entry),
    };
    let mut text = String::new();
    match std::io::Read::read_to_string(&mut entry, &mut text) {
        Ok(_) => Ok(text),
        Err(_) => Err(ArchiveFault::Content),
    }
}

/// The archive entry that holds the text of a document.
pub open spec fn main_document() -> Seq<char> {
    "word/document.xml"@
}

/// The text of the document held in `bytes`: its main entry without markup.
pub open spec fn document_text(bytes: Seq<u8>) -> Result<Seq<char>, ArchiveFault> {
    match archive_entry_text(bytes, main_document()) {
        Ok(xml) => Ok(stripped(xml)),
        Err(fault) => Err(fault),
    }
}

/// Extracts the text of a zip-packaged document: finds the main document in
/// the archive and strips its markup.
pub fn read_docx_text(bytes: &Vec<u8>) -> (text: Result<Vec<char>, ArchiveFault>)
    ensures
        text is Ok <==> document_text(bytes@) is Ok,
        text matches Ok(t) ==> t@ == document_text(bytes@)->Ok_0,
        text matches Err(fault) ==> fault == document_text(bytes@)->Err_0,
{
    match read_archive_entry(bytes.as_slice(), "word/document.xml") {
        Ok(xml) => Ok(strip_markup_chars(&chars_of(xml.as_str()))),
        Err(fault) => Err(fault),
    }
}

/// The error for a file that was not supplied as text can be made from.
pub open spec fn unreadable(path: Seq<char>, supplied: SuppliedView) -> ExtractionErrorView {
    ExtractionErrorView::Unreadable {
        path,
        reason: match supplied {
            SuppliedView::Failed(reason) => reason,
            _ => Seq::empty(),
        },
    }
}

/// The error for a document whose archive failed at the given step.
pub open spec fn archive_error(path: Seq<char>, fault: ArchiveFault) -> ExtractionErrorView {
    match fault {
        ArchiveFault::Container => ExtractionErrorView::BadArchive { path },
        ArchiveFault::Entry => ExtractionErrorView::MissingDocument { path },
        ArchiveFault::Content => ExtractionErrorView::BadDocument { path },
    }
}

/// The text of one file of a supported kind, from what was supplied for it.
/// A document and a text file are made from their bytes, a portable document
/// from its text layer; anything else supplied is a failure to read.
pub open spec fn extracted(kind: FileKind, path: Seq<char>, supplied: SuppliedView) -> Result<
    Seq<char>,
    ExtractionErrorView,
> {
    match kind {
        FileKind::Docx => match supplied {
            SuppliedView::Bytes(bytes) => match document_text(bytes) {
                Ok(text) => Ok(text),
                Err(fault) => Err(archive_error(path, fault)),
            },
            _ => Err(unreadable(path, supplied)),
        },
        FileKind::Pdf => match supplied {
            SuppliedView::Text(text) => Ok(text),
            _ => Err(unreadable(path, supplied)),
        },
        FileKind::Text => match supplied {
            SuppliedView::Bytes(bytes) => match decoded_text(bytes) {
                Some(text) => Ok(text),
                None => Err(ExtractionErrorView::NotUtf8 { path }),
            },
            _ => Err(unreadable(path, supplied)),
        },
        FileKind::Unsupported => Err(unreadable(path, supplied)),
    }
}

fn unreadable_error(path: &str, supplied: &Supplied) -> (e: ExtractionError)
    ensures
        e@ == unreadable(path@, supplied@),
{
    let reason = match supplied {
        Supplied::Failed(reason) => reason.clone(),
        _ => String::new(),
    };
    ExtractionError::Unreadable { path: path.to_owned(), reason }
}

/// Makes the text of one file from what was supplied for it.
pub fn extract(kind: FileKind, path: &str, supplied: &Supplied) -> (text: Result<
    Vec<char>,
    ExtractionError,
>)
    ensures
        text is Ok <==> extracted(kind, path@, supplied@) is Ok,
        text matches Ok(t) ==> t@ == extracted(kind, path@, supplied@)->Ok_0,
        text matches Err(e) ==> e@ == extracted(kind, path@, supplied@)->Err_0,
{
    match kind {
        FileKind::Docx => match supplied {
            Supplied::Bytes(bytes) => match read_docx_text(bytes) {
                Ok(text) => Ok(text),
                Err(ArchiveFault::Container) => Err(
                    ExtractionError::BadArchive { path: path.to_owned() },
                ),
                Err(ArchiveFault::Entry) => Err(
                    ExtractionError::MissingDocument { path: path.to_owned() },
                ),
                Err(ArchiveFault::Content) => Err(
                    ExtractionError::BadDocument { path: path.to_owned() },
                ),
            },
            _ => Err(unreadable_error(path, supplied)),
        },
        FileKind::Pdf => match supplied {
            Supplied::Text(text) => Ok(chars_of(text.as_str())),
            _ => Err(unreadable_error(path, supplied)),
        },
        FileKind::Text => match supplied {
            Supplied::Bytes(bytes) => match decode_text(bytes) {
                Some(text) => Ok(text),
                None => Err(ExtractionError::NotUtf8 { path: path.to_owned() }),
            },
            _ => Err(unreadable_error(path, supplied)),
        },
        FileKind::Unsupported => Err(unreadable_error(path, supplied)),
    }
}

} // verus!
