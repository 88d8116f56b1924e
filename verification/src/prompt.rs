//! Prompts sent to the text-generation service.

use vstd::prelude::*;
use crate::text::{chars_of, push_all, push_str, string_of, trim, trimmed};

verus! {

/// The text of the prompt for `action` on `input`.
pub open spec fn prompt_text(action: Seq<char>, input: Seq<char>) -> Seq<char> {
    "Action: "@ + trimmed(action) + "\n\n"@ + trimmed(input)
}

/// Builds the prompt for a named action: a header line with the action,
/// a blank line, then the input; both are stripped of surrounding white space.
pub fn format_prompt(action: &str, input: &str) -> (prompt: String)
    ensures
        prompt@ == prompt_text(action@, input@),
{
    let mut out: Vec<char> = Vec::new();
    push_str(&mut out, "Action: ");
    let a = trim(&chars_of(action));
    push_all(&mut out, &a);
    push_str(&mut out, "\n\n");
    let i = trim(&chars_of(input));
    push_all(&mut out, &i);
    string_of(&out)
}

} // verus!
