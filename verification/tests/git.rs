use commit_message::git::{count_staged_files, get_staged_diff, GitError};

#[test]
fn a_blank_diff_means_nothing_is_staged() {
    assert_eq!(get_staged_diff("", 200), Err(GitError::NoStagedChanges));
    assert_eq!(get_staged_diff("  \n\t\n", 200), Err(GitError::NoStagedChanges));
}

#[test]
fn a_short_diff_is_handed_on_as_it_is() {
    let diff = "diff --git a/x b/x\r\n+one\n-two\n";
    assert_eq!(get_staged_diff(diff, 3), Ok(diff.to_string()));
    assert_eq!(get_staged_diff(diff, 200), Ok(diff.to_string()));
}

#[test]
fn a_long_diff_is_cut_and_says_so() {
    let diff = "l1\nl2\r\nl3\nl4\nl5\n";
    assert_eq!(
        get_staged_diff(diff, 2),
        Ok("l1\nl2\n\n... [TRUNCATED: 3 more lines not shown] ...".to_string())
    );
    assert_eq!(
        get_staged_diff(diff, 0),
        Ok("\n\n... [TRUNCATED: 5 more lines not shown] ...".to_string())
    );
    let long: String = (1..=250).map(|i| format!("line {}\n", i)).collect();
    let cut = get_staged_diff(&long, 200).unwrap();
    assert!(cut.ends_with("line 200\n\n... [TRUNCATED: 50 more lines not shown] ..."));
    assert_eq!(cut.lines().count(), 202);
}

#[test]
fn staged_files_are_counted_by_lines() {
    assert_eq!(count_staged_files(""), 0);
    assert_eq!(count_staged_files("src/a.rs\n"), 1);
    assert_eq!(count_staged_files("src/a.rs\nsrc/b.rs\nREADME.md\n"), 3);
    assert_eq!(count_staged_files("a\nb"), 2);
}

#[test]
fn git_errors_say_what_went_wrong() {
    assert_eq!(GitError::NotARepository.to_string(), "Not in a git repository");
    assert_eq!(GitError::NoStagedChanges.to_string(), "No staged changes to commit");
    assert_eq!(
        GitError::CommandFailed("Commit failed".to_string()).to_string(),
        "Git command failed: Commit failed"
    );
}
