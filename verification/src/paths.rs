//! What a path string says about a file: its display name and its kind.
//!
//! Paths are read as text, the same way on every platform: both `/` and `\`
//! separate components.

use vstd::prelude::*;
use crate::text::{chars_of, slice_of, string_of};

verus! {

/// The characters that separate the components of a path.
pub open spec fn is_separator(c: char) -> bool {
    c == '/' || c == '\\'
}

/// Where the last component of `s` begins: just after the last separator,
/// or at the start where there is none.
pub open spec fn component_start(s: Seq<char>) -> int
    decreases s.len(),
{
    if s.len() == 0 || is_separator(s.last()) {
        s.len() as int
    } else {
        component_start(s.drop_last())
    }
}

/// The last component begins inside the path, right after a separator or at
/// the start, and holds no separator.
pub proof fn lemma_component_start(s: Seq<char>)
    ensures
        0 <= component_start(s) <= s.len(),
        component_start(s) > 0 ==> is_separator(s[component_start(s) - 1]),
        forall|k: int| component_start(s) <= k < s.len() ==> !is_separator(#[trigger] s[k]),
    decreases s.len(),
{
    if s.len() == 0 || is_separator(s.last()) {
    } else {
        lemma_component_start(s.drop_last());
        assert forall|k: int| component_start(s) <= k < s.len() implies !is_separator(
            #[trigger] s[k],
        ) by {
            if k < s.len() - 1 {
                assert(s.drop_last()[k] == s[k]);
            }
        }
    }
}

/// The file name of a path: its last component, where empty components and
/// `.` are passed over. A path that ends in `..`, or that has no component
/// left, has none.
pub open spec fn file_name(s: Seq<char>) -> Option<Seq<char>>
    decreases s.len(),
{
    let start = component_start(s);
    let comp = s.skip(start);
    if comp.len() == 0 || (comp.len() == 1 && comp[0] == '.') {
        if 1 <= start <= s.len() {
            file_name(s.take(start - 1))
        } else {
            None
        }
    } else if comp.len() == 2 && comp[0] == '.' && comp[1] == '.' {
        None
    } else {
        Some(comp)
    }
}

/// The name under which a path is shown: its file name, or the path itself
/// where it has none.
pub open spec fn display_name_of(path: Seq<char>) -> Seq<char> {
    match file_name(path) {
        Some(name) => name,
        None => path,
    }
}

/// Position of the last `.` in `name`, or -1.
pub open spec fn last_dot(name: Seq<char>) -> int
    decreases name.len(),
{
    if name.len() == 0 {
        -1
    } else if name.last() == '.' {
        name.len() - 1
    } else {
        last_dot(name.drop_last())
    }
}

/// The extension of a file name: what follows its last `.`, unless the name
/// has no `.` or its only `.` comes first.
pub open spec fn extension(name: Seq<char>) -> Option<Seq<char>> {
    let dot = last_dot(name);
    if 1 <= dot < name.len() {
        Some(name.skip(dot + 1))
    } else {
        None
    }
}

/// The extension of a path, empty where it has none.
pub open spec fn extension_of(path: Seq<char>) -> Seq<char> {
    match file_name(path) {
        Some(name) => match extension(name) {
            Some(ext) => ext,
            None => Seq::empty(),
        },
        None => Seq::empty(),
    }
}

/// `c` with an ASCII capital letter folded to its small letter, as a code point.
pub open spec fn folded(c: char) -> u32 {
    let v = c as u32;
    if 0x41 <= v <= 0x5A {
        (v + 0x20) as u32
    } else {
        v
    }
}

/// Equality of texts that tells no ASCII capital from its small letter.
pub open spec fn same_ignoring_case(a: Seq<char>, b: Seq<char>) -> bool {
    &&& a.len() == b.len()
    &&& forall|i: int| 0 <= i < a.len() ==> folded(#[trigger] a[i]) == folded(b[i])
}

/// How the content of a file is obtained.
#[derive(Debug, Clone, Copy, PartialEq, Eq, Structural)]
pub enum FileKind {
    /// A zip-packaged word-processor document.
    Docx,
    /// A portable document, read through its text layer.
    Pdf,
    /// Plain text and the like.
    Text,
    /// Anything else: passed over.
    Unsupported,
}

/// The extensions read as plain text.
pub open spec fn is_text_extension(ext: Seq<char>) -> bool {
    ||| same_ignoring_case(ext, "txt"@)
    ||| same_ignoring_case(ext, "md"@)
    ||| same_ignoring_case(ext, "log"@)
    ||| same_ignoring_case(ext, "json"@)
    ||| same_ignoring_case(ext, "csv"@)
    ||| same_ignoring_case(ext, "toml"@)
    ||| same_ignoring_case(ext, "yaml"@)
    ||| same_ignoring_case(ext, "yml"@)
    ||| same_ignoring_case(ext, "ini"@)
}

/// The kind that an extension stands for, whatever its case.
pub open spec fn kind_of_extension(ext: Seq<char>) -> FileKind {
    if same_ignoring_case(ext, "docx"@) {
        FileKind::Docx
    } else if same_ignoring_case(ext, "pdf"@) {
        FileKind::Pdf
    } else if is_text_extension(ext) {
        FileKind::Text
    } else {
        FileKind::Unsupported
    }
}

/// The kind of the file that a path names, by its extension.
pub open spec fn kind_of(path: Seq<char>) -> FileKind {
    kind_of_extension(extension_of(path))
}

fn is_sep(c: char) -> (b: bool)
    ensures
        b == is_separator(c),
{
    c == '/' || c == '\\'
}

fn last_component_start(v: &Vec<char>, end: usize) -> (start: usize)
    requires
        end <= v.len(),
    ensures
        start == component_start(v@.take(end as int)),
        start <= end,
{
    let mut start: usize = end;
    while start > 0 && !is_sep(v[start - 1])
        invariant
            start <= end <= v.len(),
            component_start(v@.take(end as int)) == component_start(v@.take(start as int)),
        decreases start,
    {
        assert(v@.take(start as int).drop_last() == v@.take(start as int - 1));
        start -= 1;
    }
    start
}

/// The file name of the path `v`, if it has one.
pub fn file_name_chars(v: &Vec<char>) -> (name: Option<Vec<char>>)
    ensures
        name is Some <==> file_name(v@) is Some,
        name matches Some(n) ==> n@ == file_name(v@)->0,
{
    let mut end: usize = v.len();
    assert(v@.take(end as int) == v@);
    loop
        invariant
            end <= v.len(),
            file_name(v@) == file_name(v@.take(end as int)),
        decreases end,
    {
        let start: usize = last_component_start(v, end);
        let len: usize = end - start;
        if len == 0 || (len == 1 && v[start] == '.') {
            if start == 0 {
                return None;
            }
            assert(v@.take(end as int).take(start as int - 1) == v@.take(start as int - 1));
            end = start - 1;
        } else if len == 2 && v[start] == '.' && v[start + 1] == '.' {
            return None;
        } else {
            return Some(slice_of(v, start, end));
        }
    }
}

/// The extension of the file name `v`, if it has one.
pub fn extension_chars(v: &Vec<char>) -> (ext: Option<Vec<char>>)
    ensures
        ext is Some <==> extension(v@) is Some,
        ext matches Some(e) ==> e@ == extension(v@)->0,
{
    let n: usize = v.len();
    let mut i: usize = n;
    assert(v@.take(n as int) == v@);
    while i > 0 && v[i - 1] != '.'
        invariant
            i <= n,
            n == v.len(),
            last_dot(v@) == last_dot(v@.take(i as int)),
        decreases i,
    {
        assert(v@.take(i as int).drop_last() == v@.take(i as int - 1));
        i -= 1;
    }
    if i >= 2 {
        Some(slice_of(v, i, n))
    } else {
        None
    }
}

fn fold(c: char) -> (v: u32)
    ensures
        v == folded(c),
{
    let v: u32 = c as u32;
    if 0x41 <= v && v <= 0x5A {
        v + 0x20
    } else {
        v
    }
}

/// Compares two texts without telling ASCII capitals from small letters.
pub fn eq_ignoring_case(a: &Vec<char>, b: &str) -> (same: bool)
    ensures
        same == same_ignoring_case(a@, b@),
{
    let other = chars_of(b);
    if a.len() != other.len() {
        return false;
    }
    let mut i: usize = 0;
    while i < a.len()
        invariant
            i <= a.len(),
            a.len() == other.len(),
            other@ == b@,
            forall|k: int| 0 <= k < i ==> folded(#[trigger] a@[k]) == folded(b@[k]),
        decreases a.len() - i,
    {
        if fold(a[i]) != fold(other[i]) {
            return false;
        }
        i += 1;
    }
    true
}

fn extension_of_path(path: &str) -> (ext: Vec<char>)
    ensures
        ext@ == extension_of(path@),
{
    match file_name_chars(&chars_of(path)) {
        Some(name) => match extension_chars(&name) {
            Some(ext) => ext,
            None => Vec::new(),
        },
        None => Vec::new(),
    }
}

fn is_text_ext(ext: &Vec<char>) -> (b: bool)
    ensures
        b == is_text_extension(ext@),
{
    eq_ignoring_case(ext, "txt") || eq_ignoring_case(ext, "md") || eq_ignoring_case(ext, "log")
        || eq_ignoring_case(ext, "json") || eq_ignoring_case(ext, "csv") || eq_ignoring_case(
        ext,
        "toml",
    ) || eq_ignoring_case(ext, "yaml") || eq_ignoring_case(ext, "yml") || eq_ignoring_case(
        ext,
        "ini",
    )
}

/// The name under which `path` is shown: its file name, or the path itself
/// where it has none.
pub fn display_name(path: &str) -> (name: String)
    ensures
        name@ == display_name_of(path@),
{
    match file_name_chars(&chars_of(path)) {
        Some(name) => string_of(&name),
        None => string_of(&chars_of(path)),
    }
}

/// Tells whether `path` names a zip-packaged word-processor document.
pub fn is_docx(path: &str) -> (b: bool)
    ensures
        b == same_ignoring_case(extension_of(path@), "docx"@),
{
    eq_ignoring_case(&extension_of_path(path), "docx")
}

/// Tells whether `path` names a portable document.
pub fn is_pdf(path: &str) -> (b: bool)
    ensures
        b == same_ignoring_case(extension_of(path@), "pdf"@),
{
    eq_ignoring_case(&extension_of_path(path), "pdf")
}

/// Tells whether `path` names a file that is read as plain text.
pub fn is_text_like(path: &str) -> (b: bool)
    ensures
        b == is_text_extension(extension_of(path@)),
{
    is_text_ext(&extension_of_path(path))
}

/// The kind of the file that `path` names: a document, a portable document
/// or plain text, in this precedence, else unsupported.
pub fn file_kind(path: &str) -> (kind: FileKind)
    ensures
        kind == kind_of(path@),
{
    let ext = extension_of_path(path);
    if eq_ignoring_case(&ext, "docx") {
        FileKind::Docx
    } else if eq_ignoring_case(&ext, "pdf") {
        FileKind::Pdf
    } else if is_text_ext(&ext) {
        FileKind::Text
    } else {
        FileKind::Unsupported
    }
}

} // verus!
