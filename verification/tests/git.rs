use vibe_studio::git::{
    branch_ref, change_status, push_refspec, short_hash, text_or_default, wants_more, ChangeFlags,
    GitChange, GitCommit, GitStatus,
};

fn flags(bits: [bool; 6]) -> ChangeFlags {
    ChangeFlags {
        wt_modified: bits[0],
        index_modified: bits[1],
        wt_new: bits[2],
        index_new: bits[3],
        wt_deleted: bits[4],
        index_deleted: bits[5],
    }
}

#[test]
fn change_is_classified_in_order() {
    assert_eq!(change_status(flags([true, false, false, false, false, false])), "modified");
    assert_eq!(change_status(flags([false, true, false, false, false, false])), "modified");
    assert_eq!(change_status(flags([false, false, true, false, false, false])), "added");
    assert_eq!(change_status(flags([false, false, false, true, false, false])), "added");
    assert_eq!(change_status(flags([false, false, false, false, true, false])), "deleted");
    assert_eq!(change_status(flags([false, false, false, false, false, true])), "deleted");
    assert_eq!(change_status(flags([false; 6])), "untracked");
    assert_eq!(change_status(flags([true; 6])), "modified");
    assert_eq!(change_status(flags([false, false, true, false, true, true])), "added");
}

#[test]
fn references_of_a_branch() {
    assert_eq!(branch_ref("main"), "refs/heads/main");
    assert_eq!(push_refspec("main"), "refs/heads/main:refs/heads/main");
    assert_eq!(push_refspec("feature/x"), "refs/heads/feature/x:refs/heads/feature/x");
    assert_eq!(push_refspec(""), "refs/heads/:refs/heads/");
}

#[test]
fn short_hash_is_seven_characters() {
    assert_eq!(short_hash("0123456789abcdef0123456789abcdef01234567"), "0123456");
    assert_eq!(short_hash("1234567"), "1234567");
    assert_eq!(short_hash("12345678"), "1234567");
    assert_eq!(short_hash("abc"), "abc");
    assert_eq!(short_hash(""), "");
}

#[test]
fn missing_texts_have_defaults() {
    assert_eq!(text_or_default(Some("x"), "y"), "x");
    assert_eq!(text_or_default(None, "y"), "y");

    let change = GitChange::new(None, flags([false; 6]));
    assert_eq!((change.file.as_str(), change.status.as_str()), ("", "untracked"));
    let change = GitChange::new(Some("src/a.rs"), flags([true, false, false, false, false, false]));
    assert_eq!((change.file.as_str(), change.status.as_str()), ("src/a.rs", "modified"));

    let status = GitStatus::new(None, vec![change]);
    assert_eq!(status.branch, "HEAD");
    assert_eq!(status.changes.len(), 1);
    assert_eq!(GitStatus::new(Some("main"), Vec::new()).branch, "main");

    let commit = GitCommit::new("0123456789abcdef", None, None, "1700000000".to_string());
    assert_eq!(commit.hash, "0123456");
    assert_eq!(commit.message, "");
    assert_eq!(commit.author, "Unknown");
    assert_eq!(commit.date, "1700000000");
    let commit = GitCommit::new("0123456789abcdef", Some("fix\n"), Some("Ann"), "1".to_string());
    assert_eq!((commit.message.as_str(), commit.author.as_str()), ("fix\n", "Ann"));
}

#[test]
fn history_stops_at_the_limit() {
    assert!(wants_more(0, 1));
    assert!(!wants_more(1, 1));
    assert!(!wants_more(0, 0));
    assert!(wants_more(9, 10));
}
