use wolle::parse::{normalize, parse_cli_json_inner, ParseError, ParseStep};
use wolle::payload::{CliContext, Coords, LaunchPayload};

fn strings(list: &serde_json::Value) -> Option<Vec<String>> {
    list.as_array()?.iter().map(|v| v.as_str().map(|s| s.to_string())).collect()
}

fn decode(text: &str) -> Option<LaunchPayload> {
    let value: serde_json::Value = serde_json::from_str(text).ok()?;
    let context = match value.get("kind")?.as_str()? {
        "files" => CliContext::Files { files: strings(value.get("files")?)? },
        "images" => CliContext::Images { images: strings(value.get("images")?)? },
        _ => return None,
    };
    let coords = match value.get("coords") {
        None => None,
        Some(c) if c.is_null() => None,
        Some(c) => Some(Coords {
            x: i32::try_from(c.get("x")?.as_i64()?).ok()?,
            y: i32::try_from(c.get("y")?.as_i64()?).ok()?,
        }),
    };
    Some(LaunchPayload { context, coords })
}

struct Run {
    result: Result<LaunchPayload, ParseError>,
    reads: Vec<String>,
    decodes: Vec<String>,
}

fn run(args: &[&str], disk: &[(&str, &[u8])]) -> Run {
    let args: Vec<String> = args.iter().map(|a| a.to_string()).collect();
    let mut reads = Vec::new();
    let mut decodes = Vec::new();
    let mut step = parse_cli_json_inner(&args);
    loop {
        step = match step {
            ParseStep::ReadFile(pending) => {
                let path = pending.path().to_string();
                let bytes = disk.iter().find(|(p, _)| *p == path).map(|(_, b)| b.to_vec());
                reads.push(path);
                pending.answer(bytes)
            }
            ParseStep::Decode(pending) => {
                let text = pending.text().to_string();
                let payload = decode(&text);
                decodes.push(text);
                pending.answer(payload)
            }
            ParseStep::Done(result) => return Run { result, reads, decodes },
        };
    }
}

fn files(paths: &[&str]) -> LaunchPayload {
    LaunchPayload {
        context: CliContext::Files { files: paths.iter().map(|p| p.to_string()).collect() },
        coords: None,
    }
}

const FILES_JSON: &str = r#"{"kind":"files","files":["a.txt","b.md"]}"#;

#[test]
fn normalize_strips_white_space_then_one_layer_of_quotes() {
    let text = |s: &str| -> String { normalize(s).into_iter().collect() };
    assert_eq!(text("  \"abc\"\n"), "abc");
    assert_eq!(text("'abc'"), "abc");
    assert_eq!(text("\"\"abc\"\""), "\"abc\"");
    assert_eq!(text("\"abc'"), "\"abc'");
    assert_eq!(text("\"abc"), "\"abc");
    assert_eq!(text("\" abc \""), " abc ");
    assert_eq!(text("\""), "\"");
    assert_eq!(text("\"\""), "");
    assert_eq!(text("\u{a0}\u{2003}x\u{3000}"), "x");
    assert_eq!(text(""), "");
}

#[test]
fn no_arguments_is_an_error_at_once() {
    let r = run(&[], &[]);
    assert_eq!(r.result, Err(ParseError::NoArguments));
    assert!(r.reads.is_empty());
    assert!(r.decodes.is_empty());
}

#[test]
fn inline_argument_is_decoded() {
    let r = run(&[FILES_JSON], &[]);
    assert_eq!(r.result, Ok(files(&["a.txt", "b.md"])));
    assert_eq!(r.decodes, vec![FILES_JSON.to_string()]);
}

#[test]
fn quoted_inline_argument_is_decoded() {
    let quoted = format!("  '{}' ", FILES_JSON);
    let r = run(&["--flag", &quoted], &[]);
    assert_eq!(r.result, Ok(files(&["a.txt", "b.md"])));
}

#[test]
fn payload_with_coords_is_decoded() {
    let r = run(&[r#"{"kind":"images","images":["p.png"],"coords":{"x":-5,"y":40}}"#], &[]);
    assert_eq!(
        r.result,
        Ok(LaunchPayload {
            context: CliContext::Images { images: vec!["p.png".to_string()] },
            coords: Some(Coords { x: -5, y: 40 }),
        })
    );
}

#[test]
fn first_inline_argument_that_decodes_wins() {
    let second = r#"{"kind":"files","files":["second"]}"#;
    let third = r#"{"kind":"files","files":["third"]}"#;
    let r = run(&["{not json}", second, third], &[]);
    assert_eq!(r.result, Ok(files(&["second"])));
    assert_eq!(r.decodes, vec!["{not json}".to_string(), second.to_string()]);
}

#[test]
fn payload_split_over_arguments_is_found_by_the_brace_scan() {
    let r = run(&["open", "{\"kind\":\"files\",", "\"files\":[\"a.txt\"]}", "now"], &[]);
    assert_eq!(r.result, Ok(files(&["a.txt"])));
    assert_eq!(r.decodes, vec!["{\"kind\":\"files\", \"files\":[\"a.txt\"]}".to_string()]);
}

#[test]
fn brace_scan_runs_from_the_first_opening_to_the_last_closing_brace() {
    let r = run(&["x}{", "a", "}{", "}y"], &[]);
    assert_eq!(r.result, Err(ParseError::NoPayloadFound));
    assert_eq!(r.decodes, vec!["{ a }{ }".to_string()]);
}

#[test]
fn inline_candidates_come_before_the_brace_scan() {
    let r = run(&["{bad}", "{worse}"], &[]);
    assert_eq!(r.result, Err(ParseError::NoPayloadFound));
    assert_eq!(
        r.decodes,
        vec!["{bad}".to_string(), "{worse}".to_string(), "{bad} {worse}".to_string()]
    );
}

#[test]
fn arguments_without_a_span_give_no_payload_and_ask_nothing() {
    for args in [&["hello"][..], &["}", "{"], &["--open", "a.txt"], &["}{"], &["{"], &[""]] {
        let r = run(args, &[]);
        assert_eq!(r.result, Err(ParseError::NoPayloadFound));
        assert!(r.reads.is_empty());
        assert!(r.decodes.is_empty());
    }
}

#[test]
fn indirection_reads_the_file() {
    let r = run(&["--x", "@/tmp/payload.json"], &[("/tmp/payload.json", FILES_JSON.as_bytes())]);
    assert_eq!(r.result, Ok(files(&["a.txt", "b.md"])));
    assert_eq!(r.reads, vec!["/tmp/payload.json".to_string()]);
}

#[test]
fn indirection_strips_a_byte_order_mark_and_trims() {
    let mut content = vec![0xEF, 0xBB, 0xBF];
    content.extend_from_slice(format!("\r\n  {}\n\n", FILES_JSON).as_bytes());
    let r = run(&["\"@C:\\tmp\\p.json\""], &[("C:\\tmp\\p.json", &content)]);
    assert_eq!(r.result, Ok(files(&["a.txt", "b.md"])));
    assert_eq!(r.decodes, vec![FILES_JSON.to_string()]);
}

#[test]
fn unreadable_file_is_terminal() {
    let r = run(&["@missing.json", FILES_JSON], &[]);
    assert_eq!(r.result, Err(ParseError::FileRead { path: "missing.json".to_string() }));
    assert!(r.decodes.is_empty());
}

#[test]
fn file_that_is_not_utf8_is_terminal() {
    let r = run(&["@p.json", FILES_JSON], &[("p.json", &[0x7B, 0xFF, 0x7D])]);
    assert_eq!(r.result, Err(ParseError::FileNotUtf8 { path: "p.json".to_string() }));
    assert!(r.decodes.is_empty());
}

#[test]
fn file_without_payload_is_terminal() {
    let r = run(&["@p.json", FILES_JSON], &[("p.json", b"{\"kind\":\"videos\"}")]);
    assert_eq!(r.result, Err(ParseError::FileParse { path: "p.json".to_string() }));
    assert_eq!(r.decodes, vec!["{\"kind\":\"videos\"}".to_string()]);
}

#[test]
fn first_indirection_decides() {
    let disk: &[(&str, &[u8])] = &[("one", b"nothing"), ("two", FILES_JSON.as_bytes())];
    let r = run(&["@one", "@two"], disk);
    assert_eq!(r.result, Err(ParseError::FileParse { path: "one".to_string() }));
    assert_eq!(r.reads, vec!["one".to_string()]);
}

#[test]
fn bare_at_sign_is_no_indirection() {
    let r = run(&["@", " '@' ", FILES_JSON], &[]);
    assert_eq!(r.result, Ok(files(&["a.txt", "b.md"])));
    assert!(r.reads.is_empty());
}

#[test]
fn error_messages() {
    assert_eq!(ParseError::NoArguments.message(), "no args");
    assert_eq!(ParseError::NoPayloadFound.message(), "no JSON payload found");
    assert_eq!(
        ParseError::FileRead { path: "a b".to_string() }.message(),
        "failed to read file: a b"
    );
    assert_eq!(ParseError::FileNotUtf8 { path: "p".to_string() }.message(), "file not utf8: p");
    assert_eq!(
        ParseError::FileParse { path: "p".to_string() }.message(),
        "failed to parse JSON from file p"
    );
}
