use commit_message::ui::{confirms_push, UserAction};

#[test]
fn choices_are_read_by_their_first_letter() {
    for (line, choice) in [
        ("a", Some(UserAction::Accept)),
        ("A\n", Some(UserAction::Accept)),
        ("yes", Some(UserAction::Accept)),
        ("  Y", Some(UserAction::Accept)),
        ("e", Some(UserAction::Edit)),
        ("Edit please", Some(UserAction::Edit)),
        ("r", Some(UserAction::Regenerate)),
        ("R\r\n", Some(UserAction::Regenerate)),
        ("q", Some(UserAction::Quit)),
        ("N", Some(UserAction::Quit)),
        ("no", Some(UserAction::Quit)),
        ("", None),
        ("   \n", None),
        ("x", None),
        ("1", None),
        ("é", None),
    ] {
        assert_eq!(UserAction::from_input(line), choice, "{:?}", line);
    }
}

#[test]
fn only_the_letter_y_confirms_the_push() {
    assert!(confirms_push("y"));
    assert!(confirms_push(" Y\n"));
    assert!(!confirms_push("yes"));
    assert!(!confirms_push(""));
    assert!(!confirms_push("n"));
    assert!(!confirms_push("\n"));
}
