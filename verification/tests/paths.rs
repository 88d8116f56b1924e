use std::io::Write;

use wolle::extract::{
    decode_text, extract, need_for, read_docx_text, strip_markup, ArchiveFault, ExtractionError,
    Need, Supplied,
};
use wolle::paths::{display_name, file_kind, is_docx, is_pdf, is_text_like, FileKind};
use wolle::text::{chars_of, fit, push_decimal, string_of, trim};

#[test]
fn display_names() {
    assert_eq!(display_name("/usr/bin/tool.txt"), "tool.txt");
    assert_eq!(display_name("C:\\Users\\me\\notes.md"), "notes.md");
    assert_eq!(display_name("mixed/dir\\file"), "file");
    assert_eq!(display_name("plain"), "plain");
    assert_eq!(display_name("dir/"), "dir");
    assert_eq!(display_name("dir/sub//"), "sub");
    assert_eq!(display_name("foo.txt/."), "foo.txt");
    assert_eq!(display_name("foo.txt/.//"), "foo.txt");
    assert_eq!(display_name("./here"), "here");
    assert_eq!(display_name(".hidden"), ".hidden");
    assert_eq!(display_name("a/..."), "...");
}

#[test]
fn display_name_falls_back_to_the_path() {
    for path in ["", "/", "//", ".", "./", "..", "a/..", "a/../", "\\"] {
        assert_eq!(display_name(path), path);
    }
}

#[test]
fn kinds_by_extension() {
    assert_eq!(file_kind("a.docx"), FileKind::Docx);
    assert_eq!(file_kind("/x/y.DocX"), FileKind::Docx);
    assert_eq!(file_kind("b.pdf"), FileKind::Pdf);
    assert_eq!(file_kind("b.PDF"), FileKind::Pdf);
    for ext in ["txt", "md", "log", "json", "csv", "toml", "yaml", "yml", "ini", "TXT", "Json"] {
        assert_eq!(file_kind(&format!("dir.d/name.{}", ext)), FileKind::Text);
    }
    for path in [
        "a.png", "a.doc", "a.docx.bak", "docx", ".txt", "a.", "a", "", "a.txt/", "dir.txt/..",
        "a.tx", "a.txtx", "a.p\u{64}f\u{301}",
    ] {
        if path == "a.txt/" {
            assert_eq!(file_kind(path), FileKind::Text);
        } else {
            assert_eq!(file_kind(path), FileKind::Unsupported);
        }
    }
}

#[test]
fn kind_predicates() {
    assert!(is_docx("r.DOCX") && !is_docx("r.pdf") && !is_docx("docx"));
    assert!(is_pdf("r.Pdf") && !is_pdf("r.txt") && !is_pdf(".pdf"));
    assert!(is_text_like("r.YML") && !is_text_like("r.docx") && !is_text_like("r"));
    assert!(is_text_like("C:\\a.b\\c.log") && !is_text_like("C:\\a.log\\c"));
}

#[test]
fn needs_by_kind() {
    assert_eq!(need_for(FileKind::Docx), Need::Bytes);
    assert_eq!(need_for(FileKind::Pdf), Need::Text);
    assert_eq!(need_for(FileKind::Text), Need::Bytes);
    assert_eq!(need_for(FileKind::Unsupported), Need::Nothing);
}

#[test]
fn markup_is_stripped_by_angle_brackets_alone() {
    assert_eq!(strip_markup("<a>x</a>"), "x");
    assert_eq!(strip_markup("a<b>c<d e=\"f\">g</d>h"), "acgh");
    assert_eq!(strip_markup("no tags & entities &lt; stay"), "no tags & entities &lt; stay");
    assert_eq!(strip_markup("open < never closed"), "open ");
    assert_eq!(strip_markup("a > b"), "a  b");
    assert_eq!(strip_markup("<<x>>y"), "y");
    assert_eq!(strip_markup("<a\n b>line\nbreak</a>"), "line\nbreak");
    assert_eq!(strip_markup(""), "");
}

#[test]
fn text_decoding() {
    let text = |b: &[u8]| decode_text(&b.to_vec()).map(|c| c.into_iter().collect::<String>());
    assert_eq!(text(b"plain"), Some("plain".to_string()));
    assert_eq!(text(&[0xEF, 0xBB, 0xBF, b'x']), Some("x".to_string()));
    assert_eq!(text(&[0xEF, 0xBB, 0xBF]), Some(String::new()));
    assert_eq!(text(&[0xEF, 0xBB]), None);
    assert_eq!(text(&[0xEF, 0xBB, 0xBF, 0xEF, 0xBB, 0xBF, b'y']), Some("\u{feff}y".to_string()));
    assert_eq!(text(&[0xE2, 0x82, 0xAC]), Some("\u{20ac}".to_string()));
    assert_eq!(text(&[0xE2, 0x82]), None);
    assert_eq!(text(&[0xED, 0xA0, 0x80]), None);
    assert_eq!(text(b""), Some(String::new()));
}

#[test]
fn extraction_by_kind() {
    let ok = |k, s: Supplied| extract(k, "p", &s).map(|c| c.into_iter().collect::<String>());
    assert_eq!(ok(FileKind::Text, Supplied::Bytes(b"t".to_vec())), Ok("t".to_string()));
    assert_eq!(ok(FileKind::Pdf, Supplied::Text("layer".to_string())), Ok("layer".to_string()));
    assert_eq!(
        ok(FileKind::Text, Supplied::Text("t".to_string())),
        Err(ExtractionError::Unreadable { path: "p".to_string(), reason: String::new() })
    );
    assert_eq!(
        ok(FileKind::Docx, Supplied::Size(3)),
        Err(ExtractionError::Unreadable { path: "p".to_string(), reason: String::new() })
    );
    assert_eq!(
        ok(FileKind::Unsupported, Supplied::Bytes(Vec::new())),
        Err(ExtractionError::Unreadable { path: "p".to_string(), reason: String::new() })
    );
}

#[test]
fn error_messages_of_extraction() {
    let p = "f.docx".to_string();
    assert_eq!(
        ExtractionError::Unreadable { path: p.clone(), reason: String::new() }.message(),
        "failed to read file: f.docx"
    );
    assert_eq!(
        ExtractionError::Unreadable { path: p.clone(), reason: "os error 2".to_string() }.message(),
        "os error 2"
    );
    assert_eq!(ExtractionError::NotUtf8 { path: p.clone() }.message(), "file not utf8: f.docx");
    assert_eq!(
        ExtractionError::BadArchive { path: p.clone() }.message(),
        "invalid DOCX archive: f.docx"
    );
    assert_eq!(
        ExtractionError::MissingDocument { path: p.clone() }.message(),
        "DOCX missing document.xml"
    );
    assert_eq!(
        ExtractionError::BadDocument { path: p }.message(),
        "DOCX document.xml unreadable: f.docx"
    );
}

#[test]
fn text_helpers() {
    assert_eq!(string_of(&trim(&chars_of(" \t a b \r\n"))), "a b");
    assert_eq!(string_of(&trim(&chars_of("\u{2028}\u{85}"))), "");
    assert_eq!(string_of(&trim(&chars_of("\u{200b}x\u{200b}"))), "\u{200b}x\u{200b}");
    let mut digits = Vec::new();
    push_decimal(&mut digits, 0);
    push_decimal(&mut digits, 9);
    push_decimal(&mut digits, 10);
    push_decimal(&mut digits, 1234567890);
    assert_eq!(string_of(&digits), "09101234567890");
    let text = chars_of("a\u{e9}\u{20ac}\u{1f600}z");
    assert_eq!(fit(&text, 0), (0, 0));
    assert_eq!(fit(&text, 2), (1, 1));
    assert_eq!(fit(&text, 3), (2, 3));
    assert_eq!(fit(&text, 9), (3, 6));
    assert_eq!(fit(&text, 10), (4, 10));
    assert_eq!(fit(&text, 11), (5, 11));
    assert_eq!(fit(&text, usize::MAX), (5, 11));
}

#[test]
fn document_reading_tells_the_step_that_failed() {
    let text = |b: Vec<u8>| read_docx_text(&b).map(|c| c.into_iter().collect::<String>());
    assert_eq!(text(Vec::new()), Err(ArchiveFault::Container));
    assert_eq!(text(b"PK\x03\x04 but no archive".to_vec()), Err(ArchiveFault::Container));
    let mut writer = zip::ZipWriter::new(std::io::Cursor::new(Vec::new()));
    let options = zip::write::SimpleFileOptions::default();
    writer.start_file("[Content_Types].xml", options).unwrap();
    writer.write_all(b"<Types/>").unwrap();
    let without = writer.finish().unwrap().into_inner();
    assert_eq!(text(without), Err(ArchiveFault::Entry));
    let mut writer = zip::ZipWriter::new(std::io::Cursor::new(Vec::new()));
    writer.start_file("word/document.xml", options).unwrap();
    writer.write_all("<w:p><w:t>gr\u{fc}n</w:t></w:p>".as_bytes()).unwrap();
    writer.start_file("word/styles.xml", options).unwrap();
    writer.write_all(b"<w:styles/>").unwrap();
    let with = writer.finish().unwrap().into_inner();
    assert_eq!(text(with.clone()), Ok("gr\u{fc}n".to_string()));
    let mut cut = with;
    cut.truncate(cut.len() / 2);
    assert_eq!(text(cut), Err(ArchiveFault::Container));
}
