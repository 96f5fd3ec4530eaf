use commit_message::emoji::{add_emoji_prefix, extract_type, get_emoji, remove_emoji_prefix};

#[test]
fn test_get_emoji() {
    assert_eq!(get_emoji("feat"), Some("✨"));
    assert_eq!(get_emoji("fix"), Some("🐛"));
    assert_eq!(get_emoji("FEAT"), Some("✨"));
    assert_eq!(get_emoji("unknown"), None);
}

#[test]
fn test_extract_type() {
    assert_eq!(extract_type("feat: add feature"), Some("feat"));
    assert_eq!(extract_type("fix(auth): fix bug"), Some("fix"));
    assert_eq!(extract_type("feat!: breaking"), Some("feat"));
}

#[test]
fn test_add_emoji_prefix() {
    assert_eq!(add_emoji_prefix("feat: add feature"), "✨ feat: add feature");
    assert_eq!(add_emoji_prefix("fix(auth): fix bug"), "🐛 fix(auth): fix bug");
}

#[test]
fn test_remove_emoji_prefix() {
    assert_eq!(remove_emoji_prefix("✨ feat: add feature"), "feat: add feature");
    assert_eq!(remove_emoji_prefix("feat: no emoji"), "feat: no emoji");
}

#[test]
fn every_commit_type_has_its_glyph() {
    let table = [
        ("feat", "✨"),
        ("fix", "🐛"),
        ("docs", "📚"),
        ("style", "💄"),
        ("refactor", "♻️"),
        ("test", "✅"),
        ("chore", "🔧"),
        ("perf", "⚡"),
        ("ci", "👷"),
        ("build", "📦"),
        ("revert", "⏪"),
        ("wip", "🚧"),
        ("security", "🔒"),
        ("deps", "📌"),
        ("release", "🚀"),
    ];
    for (token, glyph) in table {
        assert_eq!(get_emoji(token), Some(glyph));
        assert_eq!(get_emoji(&token.to_uppercase()), Some(glyph));
        let message = format!("{}(core): do the thing", token);
        let decorated = add_emoji_prefix(&message);
        assert_eq!(decorated, format!("{} {}", glyph, message));
        assert_eq!(add_emoji_prefix(&decorated), decorated);
        assert_eq!(remove_emoji_prefix(&decorated), message);
    }
    assert_eq!(commit_message::emoji::emoji_map().len(), 15);
}

#[test]
fn commit_type_ends_at_the_first_delimiter() {
    assert_eq!(extract_type("feat"), Some("feat"));
    assert_eq!(extract_type("Fix(scope)!: x"), Some("Fix"));
    assert_eq!(extract_type(": nothing before"), None);
    assert_eq!(extract_type("(scope): x"), None);
    assert_eq!(extract_type("!"), None);
    assert_eq!(extract_type(""), None);
    assert_eq!(extract_type("\nfeat: second line"), None);
    assert_eq!(extract_type("docs\nfeat: second line"), Some("docs"));
    assert_eq!(extract_type("docs\r\nmore"), Some("docs"));
    assert_eq!(extract_type("✨ feat: x"), Some("✨ feat"));
}

#[test]
fn decoration_is_left_off_where_it_does_not_belong() {
    assert_eq!(add_emoji_prefix("unknown: x"), "unknown: x");
    assert_eq!(add_emoji_prefix(""), "");
    assert_eq!(add_emoji_prefix(" feat: x"), " feat: x");
    assert_eq!(add_emoji_prefix("✨ feat: x"), "✨ feat: x");
    assert_eq!(add_emoji_prefix("FEAT: shout"), "✨ FEAT: shout");
    assert_eq!(add_emoji_prefix("fix: a\n\nbody"), "🐛 fix: a\n\nbody");
    assert_eq!(get_emoji(""), None);
    assert_eq!(get_emoji("feat "), None);
}

#[test]
fn stripping_takes_the_glyph_and_the_space_around_it() {
    assert_eq!(remove_emoji_prefix("  ✨   feat: x"), "feat: x");
    assert_eq!(remove_emoji_prefix("♻️ refactor: y"), "refactor: y");
    assert_eq!(remove_emoji_prefix("🚀"), "");
    assert_eq!(remove_emoji_prefix("  no glyph"), "  no glyph");
    assert_eq!(remove_emoji_prefix(""), "");
    assert_eq!(remove_emoji_prefix("🎉 party: z"), "🎉 party: z");
}
