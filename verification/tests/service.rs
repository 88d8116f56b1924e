use wolle::service::{
    action_failure, health_from_cli, health_from_probe, health_message, model_or_default,
    generate_request, pull_from_cli, pull_report, pull_request, response_text, stream_chunks,
    stream_line, Probe, StreamChunk, CLI_ONLY, DEFAULT_MODEL, MAX_TOKENS, NOT_AVAILABLE,
};

#[test]
fn health_tells_the_version() {
    let probe = Probe::Body("{\"version\":\"0.5.1\"}".to_string());
    assert_eq!(health_from_probe(&probe), Some("Ollama v0.5.1 reachable".to_string()));
}

#[test]
fn health_without_a_version() {
    for body in ["{}", "not json", "{\"version\":7}", "[\"version\"]", ""] {
        let probe = Probe::Body(body.to_string());
        assert_eq!(
            health_from_probe(&probe),
            Some("Ollama reachable (version unavailable)".to_string())
        );
    }
    assert_eq!(health_message(None), "Ollama reachable (version unavailable)");
    assert_eq!(health_message(Some("2")), "Ollama v2 reachable");
}

#[test]
fn health_with_an_unreadable_body() {
    let probe = Probe::BodyUnreadable("timed out".to_string());
    assert_eq!(
        health_from_probe(&probe),
        Some("Ollama reachable (failed to read version: timed out)".to_string())
    );
}

#[test]
fn health_returns_err_when_no_ollama() {
    assert_eq!(health_from_probe(&Probe::Unreachable), None);
    assert!(health_from_cli(false).is_err());
}

#[test]
fn health_falls_back_to_the_command_line_tool() {
    assert_eq!(health_from_probe(&Probe::Unreachable), None);
    assert_eq!(
        health_from_cli(true),
        Ok("Ollama CLI available, server may not be running".to_string())
    );
    assert_eq!(
        health_from_cli(false),
        Err(NOT_AVAILABLE.to_string())
    );
}

#[test]
fn health_messages_of_the_command_line_tool() {
    assert_eq!(CLI_ONLY, "Ollama CLI available, server may not be running");
    assert_eq!(
        NOT_AVAILABLE,
        "Ollama not available. Ensure Ollama is installed and the server is running \
         (ollama serve)."
    );
}

#[test]
fn response_is_picked_out_of_the_body() {
    assert_eq!(response_text("{\"response\":\"hi there\",\"done\":true}"), "hi there");
    assert_eq!(response_text("{\"response\":\"\"}"), "");
}

#[test]
fn body_without_response_is_handed_on() {
    for body in ["plain text", "{\"error\":\"no model\"}", "{\"response\":5}", "{\"response\":null}"] {
        assert_eq!(response_text(body), body);
    }
}

#[test]
fn stream_lines() {
    assert_eq!(
        stream_line("{\"response\":\"Hel\",\"done\":false}\n"),
        StreamChunk { text: Some("Hel".to_string()), done: false }
    );
    assert_eq!(
        stream_line("{\"response\":\"\",\"done\":true}\r\n"),
        StreamChunk { text: None, done: true }
    );
    assert_eq!(stream_line("{\"done\":\"true\"}"), StreamChunk { text: None, done: false });
    assert_eq!(stream_line("garbage"), StreamChunk { text: None, done: false });
    assert_eq!(stream_line(""), StreamChunk { text: None, done: false });
    assert_eq!(
        stream_line("{\"response\":\"x\",\"done\":true}"),
        StreamChunk { text: Some("x".to_string()), done: true }
    );
}

#[test]
fn stream_ends_at_the_line_that_says_done() {
    let lines: Vec<String> = [
        "{\"response\":\"Hel\",\"done\":false}\n",
        "\n",
        "{\"response\":\"\"}\n",
        "{\"response\":\"lo\"}\n",
        "{\"response\":\"!\",\"done\":true}\n",
        "{\"response\":\"ignored\"}\n",
    ]
    .iter()
    .map(|l| l.to_string())
    .collect();
    assert_eq!(stream_chunks(&lines), vec!["Hel".to_string(), "lo".to_string(), "!".to_string()]);
}

#[test]
fn stream_that_just_stops() {
    let lines = vec!["{\"response\":\"a\"}".to_string(), "{\"response\":\"b\"}".to_string()];
    assert_eq!(stream_chunks(&lines), vec!["a".to_string(), "b".to_string()]);
    assert_eq!(stream_chunks(&Vec::new()), Vec::<String>::new());
}

#[test]
fn pull_reports() {
    assert_eq!(
        pull_report("200 OK", "{\"status\":\"success\"}"),
        "pull via REST completed with status 200 OK\n{\"status\":\"success\"}"
    );
    assert_eq!(pull_from_cli(true, "pulled", "warn"), Ok("pulled".to_string()));
    assert_eq!(
        pull_from_cli(false, "out", "no such model"),
        Err("ollama pull failed: no such model".to_string())
    );
}

#[test]
fn default_model() {
    assert_eq!(DEFAULT_MODEL, "gemma3:4b");
    assert_eq!(model_or_default(None), "gemma3:4b");
    assert_eq!(model_or_default(Some("llava".to_string())), "llava");
}

#[test]
fn action_failures() {
    assert_eq!(action_failure("summarize", "timed out"), "Action 'summarize' failed: timed out");
}

#[test]
fn generate_requests() {
    assert_eq!(MAX_TOKENS, 256);
    assert_eq!(
        generate_request("Say OK.", false),
        Some(
            "{\"model\":\"gemma3:4b\",\"prompt\":\"Say OK.\",\"max_tokens\":256,\"stream\":false}"
                .to_string()
        )
    );
    let body = generate_request("a \"b\"\n\\ \u{1} \u{e9}", true).unwrap();
    assert_eq!(
        body,
        "{\"model\":\"gemma3:4b\",\"prompt\":\"a \\\"b\\\"\\n\\\\ \\u0001 \u{e9}\",\"max_tokens\":256,\"stream\":true}"
    );
    let value: serde_json::Value = serde_json::from_str(&body).unwrap();
    assert_eq!(value["prompt"], "a \"b\"\n\\ \u{1} \u{e9}");
    assert_eq!(value["stream"], true);
    assert_eq!(value["max_tokens"], 256);
    assert_eq!(value["model"], "gemma3:4b");
}

#[test]
fn pull_requests() {
    assert_eq!(pull_request("llava:7b"), Some("{\"model\":\"llava:7b\"}".to_string()));
}
