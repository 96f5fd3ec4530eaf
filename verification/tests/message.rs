use commit_message::message::CommitMessage;

#[test]
fn test_parse_structured_response() {
    let response = "SUBJECT: feat(auth): add JWT validation\nBODY: Implement token validation.";
    let msg = CommitMessage::parse_from_ai_response(response);
    assert_eq!(msg.subject, "feat(auth): add JWT validation");
    assert_eq!(msg.body, Some("Implement token validation.".to_string()));
}

#[test]
fn test_parse_no_body() {
    let response = "SUBJECT: fix: resolve null pointer\nBODY: none";
    let msg = CommitMessage::parse_from_ai_response(response);
    assert_eq!(msg.subject, "fix: resolve null pointer");
    assert_eq!(msg.body, None);
}

#[test]
fn test_to_git_message() {
    let msg = CommitMessage {
        subject: "feat: add feature".to_string(),
        body: Some("This is the body.".to_string()),
    };
    assert_eq!(msg.to_git_message(), "feat: add feature\n\nThis is the body.");
}

fn parse(response: &str) -> (String, Option<String>) {
    let msg = CommitMessage::parse_from_ai_response(response);
    (msg.subject, msg.body)
}

#[test]
fn subject_without_body_label_has_no_body() {
    assert_eq!(parse("SUBJECT: feat: add x"), ("feat: add x".to_string(), None));
    assert_eq!(
        parse("Here you go:\n  SUBJECT:   chore: tidy  \nthanks"),
        ("chore: tidy".to_string(), None)
    );
}

#[test]
fn body_none_in_any_case_is_no_body() {
    for word in ["none", "None", "NONE", "nOnE", ""] {
        let response = format!("SUBJECT: fix: y\nBODY: {}", word);
        assert_eq!(parse(&response), ("fix: y".to_string(), None), "{:?}", word);
    }
}

#[test]
fn nothing_after_body_none_is_gathered() {
    let response = "SUBJECT: fix: handle nil map\nBODY: none\nLet me know if you want changes.";
    assert_eq!(parse(response), ("fix: handle nil map".to_string(), None));
    for response in [
        "SUBJECT: s\nBODY: NONE\n\nchatter\nmore chatter",
        "SUBJECT: s\nBODY: none\nBODY: second thoughts",
        "SUBJECT: s\nBODY: first thoughts\nand more\nBODY: None",
        "SUBJECT: s\nBODY: first\nBODY: none\nBODY: third\ntail",
        "BODY: none\nSUBJECT: s\ntail",
        "SUBJECT: s\nBODY:\nBODY:   nOnE  \ntail",
    ] {
        assert_eq!(parse(response), ("s".to_string(), None), "{:?}", response);
    }
    assert_eq!(
        parse("SUBJECT: s\nBODY: none of the above"),
        ("s".to_string(), Some("none of the above".to_string()))
    );
    assert_eq!(parse("SUBJECT: s\nBODY: nonе"), ("s".to_string(), Some("nonе".to_string())));
}

#[test]
fn body_is_the_labelled_line_and_the_lines_after_it() {
    let response = "SUBJECT: feat: z\nBODY: first\n\n  - second  \n\t\n- third\n";
    assert_eq!(
        parse(response),
        ("feat: z".to_string(), Some("first\n- second\n- third".to_string()))
    );
    let response = "SUBJECT: feat: z\nBODY:\nopened by the bare label\nand continued";
    assert_eq!(
        parse(response),
        ("feat: z".to_string(), Some("opened by the bare label\nand continued".to_string()))
    );
    let response = "SUBJECT: feat: z\r\nBODY: not none\r\n";
    assert_eq!(parse(response), ("feat: z".to_string(), Some("not none".to_string())));
}

#[test]
fn the_first_subject_label_gives_the_subject() {
    assert_eq!(
        parse("SUBJECT: one\nSUBJECT: two\nBODY: b"),
        ("one".to_string(), Some("b".to_string()))
    );
    assert_eq!(parse("SUBJECT:SUBJECT: x"), ("SUBJECT: x".to_string(), None));
    assert_eq!(
        parse("BODY: early\nSUBJECT: late"),
        ("late".to_string(), Some("early".to_string()))
    );
    assert_eq!(
        parse("SUBJECT: s\nBODY: one\nBODY: two\nmore"),
        ("s".to_string(), Some("two\nmore".to_string()))
    );
}

#[test]
fn an_answer_without_labels_is_read_by_its_lines() {
    assert_eq!(
        parse("feat: plain\n\n\nthe why\nand more\n"),
        ("feat: plain".to_string(), Some("the why\nand more".to_string()))
    );
    assert_eq!(parse("  just a subject  "), ("just a subject".to_string(), None));
    assert_eq!(parse("subject\n   \n  "), ("subject".to_string(), None));
    assert_eq!(
        parse("subject\r\n\r\n  body kept as it is  \r\nlast"),
        ("subject".to_string(), Some("  body kept as it is  \nlast".to_string()))
    );
    assert_eq!(parse("SUBJECT:\nrest"), ("SUBJECT:".to_string(), Some("rest".to_string())));
    assert_eq!(
        parse("subject: small letters\nBODY: x"),
        ("subject: small letters".to_string(), Some("BODY: x".to_string()))
    );
}

#[test]
fn a_blank_answer_gives_an_empty_subject() {
    for response in ["", "   ", "\n\n", "\t\r\n"] {
        assert_eq!(parse(response), (String::new(), None), "{:?}", response);
    }
}

#[test]
fn git_message_of_a_subject_alone_is_the_subject() {
    let msg = CommitMessage::new("docs: explain".to_string());
    assert_eq!(msg.body, None);
    assert_eq!(msg.to_git_message(), "docs: explain");
    assert_eq!(msg.to_display_string(), "docs: explain");
    let msg = CommitMessage { subject: "a".to_string(), body: Some("b\nc".to_string()) };
    assert_eq!(msg.to_display_string(), "a\n\nb\nc");
}
