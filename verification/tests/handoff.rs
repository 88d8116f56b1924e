use wolle::handoff::{emit_message, DebugSnapshot, PayloadStore, Reveal, LOG_CAPACITY};
use wolle::payload::{CliContext, Coords, LaunchPayload};

fn files(paths: &[&str]) -> LaunchPayload {
    LaunchPayload {
        context: CliContext::Files { files: paths.iter().map(|p| p.to_string()).collect() },
        coords: None,
    }
}

fn images(paths: &[&str]) -> LaunchPayload {
    LaunchPayload {
        context: CliContext::Images { images: paths.iter().map(|p| p.to_string()).collect() },
        coords: Some(Coords { x: 1, y: 2 }),
    }
}

#[test]
fn new_store_is_empty() {
    let store = PayloadStore::new();
    assert_eq!(
        store.snapshot(),
        DebugSnapshot { logs: vec![], last_payload: None, activation_args: vec![] }
    );
    assert_eq!(store.log_len(), 0);
}

#[test]
fn log_lines_carry_the_stamp() {
    let mut store = PayloadStore::new();
    store.push_log(0, "zero");
    store.push_log(1_700_000_123, "startup args: []");
    store.push_log(u64::MAX, "");
    assert_eq!(
        store.snapshot().logs,
        vec![
            "[0] zero".to_string(),
            "[1700000123] startup args: []".to_string(),
            "[18446744073709551615] ".to_string(),
        ]
    );
}

#[test]
fn log_keeps_the_newest_two_hundred_lines() {
    assert_eq!(LOG_CAPACITY, 200);
    let mut store = PayloadStore::new();
    for i in 0..200u64 {
        store.push_log(i, "line");
    }
    assert_eq!(store.log_len(), 200);
    assert_eq!(store.snapshot().logs[0], "[0] line");
    store.push_log(200, "line");
    store.push_log(201, "last");
    let logs = store.snapshot().logs;
    assert_eq!(logs.len(), 200);
    assert_eq!(logs[0], "[2] line");
    assert_eq!(logs[198], "[200] line");
    assert_eq!(logs[199], "[201] last");
}

#[test]
fn resolve_stores_logs_and_pushes_when_the_surface_exists() {
    let mut store = PayloadStore::new();
    let push = store.resolve(5, files(&["a", "b"]), true);
    assert_eq!(push, Some(files(&["a", "b"])));
    let snap = store.snapshot();
    assert_eq!(snap.last_payload, Some(files(&["a", "b"])));
    assert_eq!(snap.logs, vec!["[5] emit load-context; kind=files, files=2, images=0".to_string()]);
}

#[test]
fn resolve_without_a_surface_only_stores() {
    let mut store = PayloadStore::new();
    let push = store.resolve(6, images(&["p", "q", "r"]), false);
    assert_eq!(push, None);
    let snap = store.snapshot();
    assert_eq!(snap.last_payload, Some(images(&["p", "q", "r"])));
    assert_eq!(snap.logs, vec!["[6] emit load-context; kind=images, files=0, images=3".to_string()]);
}

#[test]
fn emit_messages() {
    assert_eq!(emit_message(&files(&[])), "emit load-context; kind=files, files=0, images=0");
    let many: Vec<String> = (0..12).map(|i| i.to_string()).collect();
    let refs: Vec<&str> = many.iter().map(|s| s.as_str()).collect();
    assert_eq!(
        emit_message(&images(&refs)),
        "emit load-context; kind=images, files=0, images=12"
    );
}

#[test]
fn second_ready_signal_delivers_nothing() {
    let mut store = PayloadStore::new();
    store.resolve(1, files(&["a"]), false);
    assert_eq!(store.on_ready(), Reveal::Show(Some(files(&["a"]))));
    assert_eq!(store.on_ready(), Reveal::Skip);
    assert_eq!(store.on_ready(), Reveal::Skip);
}

#[test]
fn ready_and_fallback_share_the_flag() {
    let mut store = PayloadStore::new();
    store.resolve(1, files(&["a"]), false);
    assert_eq!(store.on_fallback(), Reveal::Show(Some(files(&["a"]))));
    assert_eq!(store.on_ready(), Reveal::Skip);
    let mut store = PayloadStore::new();
    store.resolve(1, files(&["a"]), false);
    assert_eq!(store.on_ready(), Reveal::Show(Some(files(&["a"]))));
    assert_eq!(store.on_fallback(), Reveal::Skip);
}

#[test]
fn ready_without_a_payload_still_reveals_once() {
    let mut store = PayloadStore::new();
    assert_eq!(store.on_ready(), Reveal::Show(None));
    assert_eq!(store.on_fallback(), Reveal::Skip);
}

#[test]
fn a_new_surface_may_be_revealed_again() {
    let mut store = PayloadStore::new();
    store.resolve(1, files(&["a"]), true);
    assert_eq!(store.on_ready(), Reveal::Show(Some(files(&["a"]))));
    store.surface_created();
    assert_eq!(store.on_fallback(), Reveal::Show(Some(files(&["a"]))));
    assert_eq!(store.on_ready(), Reveal::Skip);
}

#[test]
fn last_writer_wins() {
    let mut store = PayloadStore::new();
    store.resolve(1, files(&["old"]), false);
    store.resolve(2, images(&["new"]), false);
    assert_eq!(store.reemit(), Some(images(&["new"])));
    assert_eq!(store.on_ready(), Reveal::Show(Some(images(&["new"]))));
}

#[test]
fn take_last_payload_forgets_it() {
    let mut store = PayloadStore::new();
    store.resolve(1, files(&["a"]), false);
    assert_eq!(store.take_last_payload(), Some(files(&["a"])));
    assert_eq!(store.take_last_payload(), None);
    assert_eq!(store.reemit(), None);
    assert_eq!(store.on_ready(), Reveal::Show(None));
}

#[test]
fn activation_args_are_replaced() {
    let mut store = PayloadStore::new();
    store.set_activation_args(&vec!["a".to_string(), "b".to_string()]);
    store.set_activation_args(&vec!["c".to_string()]);
    assert_eq!(store.snapshot().activation_args, vec!["c".to_string()]);
}
