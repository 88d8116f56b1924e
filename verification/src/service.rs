//! What the answers of the text-generation service mean.
//!
//! The service is reached by the caller. Here stand the rules that turn its
//! answers into what the user sees: the health message, the text of a
//! response, the chunks of a stream, the report of a pull.

use vstd::prelude::*;
use crate::text::{chars_of, decimal, push_decimal, push_str, string_of, trim_back, trim_end};

verus! {

/// The model that is asked, and that is pulled where none is named.
pub const DEFAULT_MODEL: &'static str = "gemma3:4b";

/// A member of a JSON object, as far as the rules here read it.
#[derive(Debug, PartialEq, Eq)]
pub enum JsonField {
    /// A string.
    Text(String),
    /// `true` or `false`.
    Flag(bool),
    /// Anything else.
    Other,
}

/// Mathematical model of a [`JsonField`].
pub enum JsonFieldView {
    Text(Seq<char>),
    Flag(bool),
    Other,
}

impl View for JsonField {
    type V = JsonFieldView;

    open spec fn view(&self) -> JsonFieldView {
        match self {
            JsonField::Text(text) => JsonFieldView::Text(text@),
            JsonField::Flag(flag) => JsonFieldView::Flag(*flag),
            JsonField::Other => JsonFieldView::Other,
        }
    }
}

/// The model of a member that was found, or not.
pub open spec fn field_view(field: Option<JsonField>) -> Option<JsonFieldView> {
    match field {
        Some(field) => Some(field@),
        None => None,
    }
}

/// The member `key` of the JSON text `document`, as `serde_json` reads it:
/// none where the text is no JSON, no object, or has no such member.
pub uninterp spec fn json_member(document: Seq<char>, key: Seq<char>) -> Option<JsonFieldView>;

/// Reads one member of a JSON text with `serde_json`: `from_str` parses the
/// text into a `Value`, `Value::get` looks the key up, and the variant of
/// what it finds is told apart. The contract gives the outcome a name; it
/// depends on the two arguments alone, and nothing more is claimed of it.
#[verifier::external_body]
fn read_member(document: &str, key: &str) -> (field: Option<JsonField>)
    ensures
        field_view(field) == json_member(document@, key@),
{
    let value: serde_json::Value = serde_json::from_str(document).ok()?;
    Some(
        match value.get(key)? {
            serde_json::Value::String(text) => JsonField::Text(text.clone()),
            serde_json::Value::Bool(flag) => JsonField::Flag(*flag),
            serde_json::Value::Null => JsonField::Other,
            serde_json::Value::Number(_) => JsonField::Other,
            serde_json::Value::Array(_) => JsonField::Other,
            serde_json::Value::Object(_) => JsonField::Other,
        },
    )
}

/// The string that a member holds, if it holds one.
pub open spec fn text_of(field: Option<JsonFieldView>) -> Option<Seq<char>> {
    match field {
        Some(JsonFieldView::Text(text)) => Some(text),
        _ => None,
    }
}

/// Tells whether a member holds `true`.
pub open spec fn flag_of(field: Option<JsonFieldView>) -> bool {
    match field {
        Some(JsonFieldView::Flag(flag)) => flag,
        _ => false,
    }
}

/// The JSON string literal for `text`, as `serde_json` writes it; none
/// where it writes none.
pub uninterp spec fn json_quoted(text: Seq<char>) -> Option<Seq<char>>;

/// `serde_json::to_string` on a string slice: the text in double quotes,
/// with what JSON cannot hold as it is escaped. The contract gives the
/// outcome a name; it depends on the text alone, and nothing more is
/// claimed of it.
#[verifier::external_body]
fn quote(text: &str) -> (quoted: Option<String>)
    ensures
        quoted is Some <==> json_quoted(text@) is Some,
        quoted matches Some(q) ==> q@ == json_quoted(text@)->0,
{
    serde_json::to_string(text).ok()
}

/// Number of tokens that a response may take.
pub const MAX_TOKENS: u64 = 256;

/// The body of a request for a response to `prompt` by `model`: a JSON
/// object with the model, the prompt, the ceiling of tokens and whether the
/// response is to be streamed.
pub open spec fn generate_body(model: Seq<char>, prompt: Seq<char>, stream: bool) -> Option<
    Seq<char>,
> {
    match (json_quoted(model), json_quoted(prompt)) {
        (Some(model), Some(prompt)) => Some(
            "{\"model\":"@ + model + ",\"prompt\":"@ + prompt + ",\"max_tokens\":"@ + decimal(
                MAX_TOKENS as nat,
            ) + ",\"stream\":"@ + (if stream {
                "true"@
            } else {
                "false"@
            }) + "}"@,
        ),
        _ => None,
    }
}

/// Writes the body of a request for a response to `prompt` by the default
/// model, streamed or as a whole.
pub fn generate_request(prompt: &str, stream: bool) -> (body: Option<String>)
    ensures
        body is Some <==> generate_body(DEFAULT_MODEL@, prompt@, stream) is Some,
        body matches Some(b) ==> b@ == generate_body(DEFAULT_MODEL@, prompt@, stream)->0,
{
    match (quote(DEFAULT_MODEL), quote(prompt)) {
        (Some(model), Some(prompt)) => {
            let mut out: Vec<char> = Vec::new();
            push_str(&mut out, "{\"model\":");
            push_str(&mut out, model.as_str());
            push_str(&mut out, ",\"prompt\":");
            push_str(&mut out, prompt.as_str());
            push_str(&mut out, ",\"max_tokens\":");
            push_decimal(&mut out, MAX_TOKENS);
            push_str(&mut out, ",\"stream\":");
            push_str(&mut out, if stream {
                "true"
            } else {
                "false"
            });
            push_str(&mut out, "}");
            Some(string_of(&out))
        },
        _ => None,
    }
}

/// The body of a request to pull `model`: a JSON object with the model.
pub open spec fn pull_body(model: Seq<char>) -> Option<Seq<char>> {
    match json_quoted(model) {
        Some(model) => Some("{\"model\":"@ + model + "}"@),
        None => None,
    }
}

/// Writes the body of a request to pull `model`.
pub fn pull_request(model: &str) -> (body: Option<String>)
    ensures
        body is Some <==> pull_body(model@) is Some,
        body matches Some(b) ==> b@ == pull_body(model@)->0,
{
    match quote(model) {
        Some(model) => {
            let mut out: Vec<char> = Vec::new();
            push_str(&mut out, "{\"model\":");
            push_str(&mut out, model.as_str());
            push_str(&mut out, "}");
            Some(string_of(&out))
        },
        None => None,
    }
}

/// What the probe of the version endpoint gave.
#[derive(Debug, PartialEq, Eq)]
pub enum Probe {
    /// The service answered with success; this is the body.
    Body(String),
    /// The service answered with success, but the body could not be read.
    BodyUnreadable(String),
    /// The service did not answer, or answered with a failure.
    Unreachable,
}

/// Mathematical model of a [`Probe`].
pub enum ProbeView {
    Body(Seq<char>),
    BodyUnreadable(Seq<char>),
    Unreachable,
}

impl View for Probe {
    type V = ProbeView;

    open spec fn view(&self) -> ProbeView {
        match self {
            Probe::Body(body) => ProbeView::Body(body@),
            Probe::BodyUnreadable(reason) => ProbeView::BodyUnreadable(reason@),
            Probe::Unreachable => ProbeView::Unreachable,
        }
    }
}

/// The health message for a version that was read, or not.
pub open spec fn version_message(version: Option<Seq<char>>) -> Seq<char> {
    match version {
        Some(version) => "Ollama v"@ + version + " reachable"@,
        None => "Ollama reachable (version unavailable)"@,
    }
}

/// The health message that a probe leads to; none where the service was not
/// reached and the command-line tool is to be tried.
pub open spec fn probe_message(probe: ProbeView) -> Option<Seq<char>> {
    match probe {
        ProbeView::Body(body) => Some(version_message(text_of(json_member(body, "version"@)))),
        ProbeView::BodyUnreadable(reason) => Some(
            "Ollama reachable (failed to read version: "@ + reason + ")"@,
        ),
        ProbeView::Unreachable => None,
    }
}

/// Writes the health message for the version that the service reported, or
/// for none.
pub fn health_message(version: Option<&str>) -> (message: String)
    ensures
        message@ == version_message(
            match version {
                Some(v) => Some(v@),
                None => None,
            },
        ),
{
    let mut out: Vec<char> = Vec::new();
    match version {
        Some(version) => {
            push_str(&mut out, "Ollama v");
            push_str(&mut out, version);
            push_str(&mut out, " reachable");
        },
        None => {
            push_str(&mut out, "Ollama reachable (version unavailable)");
        },
    }
    string_of(&out)
}

/// Says what a probe of the service means: a message where the service was
/// reached, with its version if the body tells it; nothing where the
/// command-line tool is to be tried next.
pub fn health_from_probe(probe: &Probe) -> (message: Option<String>)
    ensures
        message is Some <==> probe_message(probe@) is Some,
        message matches Some(m) ==> m@ == probe_message(probe@)->0,
{
    match probe {
        Probe::Body(body) => match read_member(body.as_str(), "version") {
            Some(JsonField::Text(version)) => Some(health_message(Some(version.as_str()))),
            _ => Some(health_message(None)),
        },
        Probe::BodyUnreadable(reason) => {
            let mut out: Vec<char> = Vec::new();
            push_str(&mut out, "Ollama reachable (failed to read version: ");
            push_str(&mut out, reason.as_str());
            push_str(&mut out, ")");
            Some(string_of(&out))
        },
        Probe::Unreachable => None,
    }
}

/// What is said where the command-line tool is there but the service is not.
pub const CLI_ONLY: &'static str = "Ollama CLI available, server may not be running";

/// What is said where neither the service nor the command-line tool is there.
pub const NOT_AVAILABLE: &'static str =
    "Ollama not available. Ensure Ollama is installed and the server is running (ollama serve).";

/// Says what the command-line tool means where the service was not reached:
/// a message where the tool is there, the failure where it is not.
pub fn health_from_cli(available: bool) -> (outcome: Result<String, String>)
    ensures
        available ==> (outcome matches Ok(m) && m@ == CLI_ONLY@),
        !available ==> (outcome matches Err(m) && m@ == NOT_AVAILABLE@),
{
    if available {
        Ok(CLI_ONLY.to_owned())
    } else {
        Err(NOT_AVAILABLE.to_owned())
    }
}

/// The text of a response: its member `response` where it is a string, else
/// the body as it came.
pub open spec fn response_of(body: Seq<char>) -> Seq<char> {
    match text_of(json_member(body, "response"@)) {
        Some(text) => text,
        None => body,
    }
}

/// Picks the text out of the body of a response that was asked for as a
/// whole; a body that holds none is handed on as it came.
pub fn response_text(body: &str) -> (text: String)
    ensures
        text@ == response_of(body@),
{
    match read_member(body, "response") {
        Some(JsonField::Text(text)) => text,
        _ => body.to_owned(),
    }
}

/// What one line of a streamed response holds.
#[derive(Debug, PartialEq, Eq)]
pub struct StreamChunk {
    /// The piece of text to hand on, if the line holds one that is not empty.
    pub text: Option<String>,
    /// Whether the line ends the stream.
    pub done: bool,
}

/// The piece of text that a line holds, if it holds one that is not empty.
pub open spec fn chunk_text(line: Seq<char>) -> Option<Seq<char>> {
    match text_of(json_member(trim_back(line), "response"@)) {
        Some(text) => if text.len() > 0 {
            Some(text)
        } else {
            None
        },
        None => None,
    }
}

/// Tells whether a line ends the stream.
pub open spec fn chunk_done(line: Seq<char>) -> bool {
    flag_of(json_member(trim_back(line), "done"@))
}

/// Reads one line of a streamed response: the piece of text in its member
/// `response`, unless it is empty, and whether its member `done` is true.
/// A line that is no JSON holds nothing and ends nothing.
pub fn stream_line(line: &str) -> (chunk: StreamChunk)
    ensures
        chunk.text is Some <==> chunk_text(line@) is Some,
        chunk.text matches Some(t) ==> t@ == chunk_text(line@)->0,
        chunk.done == chunk_done(line@),
{
    let document = string_of(&trim_end(&chars_of(line)));
    let text = match read_member(document.as_str(), "response") {
        Some(JsonField::Text(text)) => if text.as_str().is_empty() {
            None
        } else {
            Some(text)
        },
        _ => None,
    };
    let done = match read_member(document.as_str(), "done") {
        Some(JsonField::Flag(flag)) => flag,
        _ => false,
    };
    StreamChunk { text, done }
}

/// The pieces of text of a stream, in order, up to and with the line that
/// ends it.
pub open spec fn chunks_of(lines: Seq<Seq<char>>) -> Seq<Seq<char>>
    decreases lines.len(),
{
    if lines.len() == 0 {
        Seq::empty()
    } else {
        let first = match chunk_text(lines[0]) {
            Some(text) => seq![text],
            None => Seq::empty(),
        };
        if chunk_done(lines[0]) {
            first
        } else {
            first + chunks_of(lines.drop_first())
        }
    }
}

/// Collects the pieces of text of a stream, line by line, until a line ends
/// it or the lines run out.
pub fn stream_chunks(lines: &Vec<String>) -> (chunks: Vec<String>)
    ensures
        chunks.deep_view() == chunks_of(lines.deep_view()),
{
    let ghost all = lines.deep_view();
    let mut chunks: Vec<String> = Vec::new();
    let mut i: usize = 0;
    assert(all.skip(0) == all);
    while i < lines.len()
        invariant
            i <= lines.len(),
            all == lines.deep_view(),
            chunks_of(all) == chunks.deep_view() + chunks_of(all.skip(i as int)),
        decreases lines.len() - i,
    {
        assert(all.skip(i as int).drop_first() == all.skip(i as int + 1));
        let chunk = stream_line(lines[i].as_str());
        if let Some(text) = chunk.text {
            chunks.push(text);
        }
        if chunk.done {
            return chunks;
        }
        i += 1;
    }
    chunks
}

/// Writes the report of a pull that the service took.
pub fn pull_report(status: &str, body: &str) -> (report: String)
    ensures
        report@ == "pull via REST completed with status "@ + status@ + "\n"@ + body@,
{
    let mut out: Vec<char> = Vec::new();
    push_str(&mut out, "pull via REST completed with status ");
    push_str(&mut out, status);
    push_str(&mut out, "\n");
    push_str(&mut out, body);
    string_of(&out)
}

/// Says what a pull by the command-line tool means: its output where it
/// succeeded, the failure with what it wrote where it did not.
pub fn pull_from_cli(success: bool, output: &str, errors: &str) -> (outcome: Result<String, String>)
    ensures
        success ==> (outcome matches Ok(text) && text@ == output@),
        !success ==> (outcome matches Err(text) && text@ == "ollama pull failed: "@ + errors@),
{
    if success {
        Ok(output.to_owned())
    } else {
        let mut out: Vec<char> = Vec::new();
        push_str(&mut out, "ollama pull failed: ");
        push_str(&mut out, errors);
        Err(string_of(&out))
    }
}

/// The model to pull: the one named, or the default.
pub fn model_or_default(model: Option<String>) -> (name: String)
    ensures
        name@ == match model {
            Some(m) => m@,
            None => DEFAULT_MODEL@,
        },
{
    match model {
        Some(model) => model,
        None => DEFAULT_MODEL.to_owned(),
    }
}

/// Writes what is shown when a named action fails.
pub fn action_failure(action: &str, error: &str) -> (text: String)
    ensures
        text@ == "Action '"@ + action@ + "' failed: "@ + error@,
{
    let mut out: Vec<char> = Vec::new();
    push_str(&mut out, "Action '");
    push_str(&mut out, action);
    push_str(&mut out, "' failed: ");
    push_str(&mut out, error);
    string_of(&out)
}

} // verus!
