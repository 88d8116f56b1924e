use wolle::extract::{Need, Supplied};
use wolle::guard::{AnalysisBusyFlag, AnalysisBusyGuard};
use wolle::handoff::PayloadStore;
use wolle::payload::{CliContext, LaunchPayload};
use wolle::session::{chain_message, quick_analyze, AnalysisStep};

fn files(paths: &[&str]) -> LaunchPayload {
    LaunchPayload {
        context: CliContext::Files { files: paths.iter().map(|p| p.to_string()).collect() },
        coords: None,
    }
}

fn done(step: AnalysisStep) -> Result<String, String> {
    match step {
        AnalysisStep::Done(result) => result,
        other => panic!("not done: {:?}", other),
    }
}

#[test]
fn analysis_runs_through_its_steps() {
    let mut flag = AnalysisBusyFlag::new();
    let mut store = PayloadStore::new();
    let probe = match quick_analyze(&mut flag, files(&["a.txt", "b.png"])) {
        AnalysisStep::Probe(p) => p,
        other => panic!("unexpected {:?}", other),
    };
    assert!(flag.is_busy());
    let gather = match probe.answer(Ok("Ollama v1 reachable".to_string()), &mut flag, &mut store, 7)
    {
        AnalysisStep::Gather(g) => g,
        other => panic!("unexpected {:?}", other),
    };
    assert!(flag.is_busy());
    assert_eq!(gather.paths(), &vec!["a.txt".to_string(), "b.png".to_string()]);
    assert_eq!(gather.plan(), vec![Need::Bytes, Need::Nothing]);
    let supplied = vec![Supplied::Bytes(b"hello".to_vec()), Supplied::Nothing];
    let ask = match gather.answer(supplied, &mut flag, &mut store, 8) {
        AnalysisStep::Ask(a) => a,
        other => panic!("unexpected {:?}", other),
    };
    assert!(flag.is_busy());
    assert_eq!(
        ask.prompt(),
        "Analyze the following text from files (a.txt, b.png). Describe briefly what it contains in 1-2 sentences.\n\n---\n\nhello"
    );
    let result = done(ask.answer(Ok("a greeting".to_string()), &mut flag, &mut store, 9));
    assert_eq!(result, Ok("a greeting".to_string()));
    assert!(!flag.is_busy());
    assert_eq!(
        store.snapshot().logs,
        vec![
            "[8] quick_analyze: prepared text; bytes=5, files=2".to_string(),
            "[8] quick_analyze: querying ollama".to_string(),
            "[9] quick_analyze: success".to_string(),
        ]
    );
}

#[test]
fn second_analysis_is_turned_away_while_one_is_in_flight() {
    let mut flag = AnalysisBusyFlag::new();
    let first = quick_analyze(&mut flag, files(&["a.txt"]));
    let second = quick_analyze(&mut flag, files(&["b.txt"]));
    assert_eq!(done(second), Err("analysis already in progress".to_string()));
    assert!(flag.is_busy());
    match first {
        AnalysisStep::Probe(p) => p.abandon(&mut flag),
        other => panic!("unexpected {:?}", other),
    }
    assert!(!flag.is_busy());
    assert!(matches!(quick_analyze(&mut flag, files(&["c.txt"])), AnalysisStep::Probe(_)));
}

#[test]
fn unreachable_service_ends_the_analysis_and_frees_the_flag() {
    let mut flag = AnalysisBusyFlag::new();
    let mut store = PayloadStore::new();
    let probe = match quick_analyze(&mut flag, files(&["a.txt"])) {
        AnalysisStep::Probe(p) => p,
        other => panic!("unexpected {:?}", other),
    };
    let result = done(probe.answer(Err("no service".to_string()), &mut flag, &mut store, 3));
    assert_eq!(result, Err("no service".to_string()));
    assert!(!flag.is_busy());
    assert_eq!(
        store.snapshot().logs,
        vec!["[3] quick_analyze: ollama not reachable: no service".to_string()]
    );
}

#[test]
fn unreadable_file_ends_the_analysis_and_frees_the_flag() {
    let mut flag = AnalysisBusyFlag::new();
    let mut store = PayloadStore::new();
    let probe = match quick_analyze(&mut flag, files(&["a.docx"])) {
        AnalysisStep::Probe(p) => p,
        other => panic!("unexpected {:?}", other),
    };
    let gather = match probe.answer(Ok(String::new()), &mut flag, &mut store, 1) {
        AnalysisStep::Gather(g) => g,
        other => panic!("unexpected {:?}", other),
    };
    let result = done(gather.answer(vec![Supplied::Bytes(vec![1, 2, 3])], &mut flag, &mut store, 2));
    assert_eq!(result, Err("invalid DOCX archive: a.docx".to_string()));
    assert!(!flag.is_busy());
    assert_eq!(
        store.snapshot().logs,
        vec!["[2] quick_analyze: prepare_analysis failed: invalid DOCX archive: a.docx".to_string()]
    );
}

#[test]
fn failed_request_reports_its_causes_and_frees_the_flag() {
    let mut flag = AnalysisBusyFlag::new();
    let mut store = PayloadStore::new();
    let probe = match quick_analyze(&mut flag, files(&["a.txt"])) {
        AnalysisStep::Probe(p) => p,
        other => panic!("unexpected {:?}", other),
    };
    let gather = match probe.answer(Ok(String::new()), &mut flag, &mut store, 1) {
        AnalysisStep::Gather(g) => g,
        other => panic!("unexpected {:?}", other),
    };
    let ask = match gather.answer(vec![Supplied::Bytes(b"x".to_vec())], &mut flag, &mut store, 1) {
        AnalysisStep::Ask(a) => a,
        other => panic!("unexpected {:?}", other),
    };
    let chain = vec!["request failed".to_string(), "connection refused".to_string()];
    let result = done(ask.answer(Err(chain), &mut flag, &mut store, 5));
    assert_eq!(result, Err("request failed; caused by: connection refused".to_string()));
    assert!(!flag.is_busy());
    assert_eq!(
        store.snapshot().logs.last().unwrap(),
        "[5] quick_analyze: error: request failed; caused by: connection refused"
    );
}

#[test]
fn abandoning_any_step_frees_the_flag() {
    let mut flag = AnalysisBusyFlag::new();
    let mut store = PayloadStore::new();
    let probe = match quick_analyze(&mut flag, files(&["a.txt"])) {
        AnalysisStep::Probe(p) => p,
        other => panic!("unexpected {:?}", other),
    };
    let gather = match probe.answer(Ok(String::new()), &mut flag, &mut store, 1) {
        AnalysisStep::Gather(g) => g,
        other => panic!("unexpected {:?}", other),
    };
    gather.abandon(&mut flag);
    assert!(!flag.is_busy());
    let token = AnalysisBusyGuard::try_acquire(&mut flag);
    assert!(token.is_ok());
}

#[test]
fn chain_messages() {
    assert_eq!(chain_message(&vec![]), "");
    assert_eq!(chain_message(&vec!["a".to_string()]), "a");
    assert_eq!(
        chain_message(&vec!["a".to_string(), "b".to_string(), "c".to_string()]),
        "a; caused by: b; caused by: c"
    );
}
