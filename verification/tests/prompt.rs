use commit_message::prompt::{
    build_commit_prompt, COMMIT_CONVENTION, NO_HISTORY, PROMPT_DIFF, PROMPT_FORMAT,
    PROMPT_OPENING, PROMPT_REQUIREMENTS, PROMPT_STATISTICS,
};

#[test]
fn the_prompt_holds_its_parts_in_order() {
    let prompt = build_commit_prompt("+added line", "abc123 feat: before", " 1 file changed");
    let expected = format!(
        "{}{}{}{}{}{}{}{}{}",
        PROMPT_OPENING,
        COMMIT_CONVENTION,
        PROMPT_REQUIREMENTS,
        "abc123 feat: before",
        PROMPT_STATISTICS,
        " 1 file changed",
        PROMPT_DIFF,
        "+added line",
        PROMPT_FORMAT
    );
    assert_eq!(prompt, expected);
    assert!(prompt.starts_with("You are an expert at writing clear, professional git commit"));
    assert!(prompt.contains("### Recent Commit History (for style reference)\n```\nabc123 feat: before\n```\n"));
    assert!(prompt.contains("### Change Statistics\n```\n 1 file changed\n```\n"));
    assert!(prompt.contains("### Actual Diff Content\n```diff\n+added line\n```\n"));
    assert!(prompt.contains("- Description: imperative mood, lowercase, no period at end, max 72 chars"));
    assert!(prompt.ends_with(
        "SUBJECT: <your subject line here>\nBODY: <your body here, or just \"none\" if not needed>\n\nGenerate the commit message now:"
    ));
}

#[test]
fn an_empty_history_is_said_to_be_empty() {
    let prompt = build_commit_prompt("d", "", "s");
    assert!(prompt.contains("```\n(no previous commits)\n```"));
    assert_eq!(NO_HISTORY, "(no previous commits)");
    let prompt = build_commit_prompt("d", " ", "s");
    assert!(!prompt.contains("(no previous commits)"));
}

#[test]
fn the_prompt_is_the_same_for_the_same_context() {
    assert_eq!(build_commit_prompt("d", "h", "s"), build_commit_prompt("d", "h", "s"));
    assert_ne!(build_commit_prompt("d", "h", "s"), build_commit_prompt("d2", "h", "s"));
}
