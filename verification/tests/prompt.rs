use wolle::prompt::format_prompt;

#[test]
fn formats_prompt_correctly() {
    let p = format_prompt(" summarize ", "  Hello World  ");
    assert_eq!(p, "Action: summarize\n\nHello World");
}
