use gw_bin::args::TriggerArgument;
use gw_bin::checks::git::repository::{classify_merge_analysis, collect_matched_tags, pull_guard, shorthash};
use gw_bin::checks::git::{pattern_has_glob, GitError, GitTriggerArgument};
use gw_bin::command::{create_command, wants_shell};
use gw_bin::context::Context;

#[test]
fn context_insert_and_get_round_trip() {
    let mut context = Context::new();
    assert_eq!(None, context.get("TRIGGER_NAME"));

    context.insert("TRIGGER_NAME", "ONCE".to_string());
    context.insert("CHECK_NAME", "GIT".to_string());
    assert_eq!("ONCE", context.get("TRIGGER_NAME").unwrap());
    assert_eq!("GIT", context.get("CHECK_NAME").unwrap());

    context.insert("TRIGGER_NAME", "HTTP".to_string());
    assert_eq!("HTTP", context.get("TRIGGER_NAME").unwrap());
    assert_eq!("GIT", context.get("CHECK_NAME").unwrap());
}

#[test]
fn create_command_takes_the_first_word_as_name() {
    let (name, _expr) = create_command("echo hello world", false).unwrap();
    assert_eq!("echo", name);

    let (name, _expr) = create_command("sleep 100", true).unwrap();
    assert_eq!("sleep", name);

    assert!(create_command("echo 'test", false).is_none());
    assert!(create_command("", false).is_none());
}

#[test]
fn wants_shell_spots_variables_and_connectives() {
    assert!(wants_shell("echo $HOME"));
    assert!(wants_shell("echo ${HOME}"));
    assert!(wants_shell("cat a | grep b"));
    assert!(wants_shell("true && false"));
    assert!(wants_shell("true || false"));
    assert!(!wants_shell("echo plain"));
    assert!(!wants_shell("echo 5$"));
}

#[test]
fn shorthash_takes_seven_characters() {
    assert_eq!("15898e5", shorthash("15898e57625c4f8f8c9efcbcd68963ce5244fb3f"));
    assert_eq!("abc", shorthash("abc"));
}

#[test]
fn only_fast_forward_updates() {
    // Fast-forward updates, up-to-date does nothing, anything else is a
    // conflict.
    assert_eq!(Ok(true), classify_merge_analysis(true, false));
    assert_eq!(Ok(false), classify_merge_analysis(false, true));
    assert!(matches!(classify_merge_analysis(false, false), Err(GitError::MergeConflict)));
}

#[test]
fn matched_tags_stop_at_head_and_come_back_chronological() {
    let walk = vec!["c3".to_string(), "c2".to_string(), "c1".to_string(), "c0".to_string()];
    let tags = vec![
        ("c2".to_string(), "v0.1.0".to_string()),
        ("c0".to_string(), "v0.0.1".to_string()),
    ];

    // The walk stops at the current head: the tag on c0 is out of range,
    // and the untagged c3 is skipped.
    let found = collect_matched_tags(&walk, "c1", &tags);
    assert_eq!(vec![("v0.1.0".to_string(), "c2".to_string())], found);
}

#[test]
fn matched_tags_order_is_oldest_first() {
    let walk = vec!["c3".to_string(), "c2".to_string(), "c1".to_string()];
    let tags = vec![
        ("c3".to_string(), "v0.2.0".to_string()),
        ("c2".to_string(), "v0.1.0".to_string()),
    ];

    let found = collect_matched_tags(&walk, "c1", &tags);
    assert_eq!(
        vec![
            ("v0.1.0".to_string(), "c2".to_string()),
            ("v0.2.0".to_string(), "c3".to_string()),
        ],
        found
    );
}

#[test]
fn trigger_argument_parses_the_three_forms() {
    assert!(matches!(TriggerArgument::parse("push"), Ok(TriggerArgument::Push)));
    match TriggerArgument::parse("tag") {
        Ok(TriggerArgument::Tag(p)) => assert_eq!("*", p),
        other => panic!("{other:?} should be a tag pattern"),
    }
    match TriggerArgument::parse("tag:v*") {
        Ok(TriggerArgument::Tag(p)) => assert_eq!("v*", p),
        other => panic!("{other:?} should be a tag pattern"),
    }
    assert!(TriggerArgument::parse("pull").is_err());
}

#[test]
fn trigger_argument_maps_into_the_git_policy() {
    assert!(matches!(TriggerArgument::Push.into_git(), GitTriggerArgument::Push));
    match TriggerArgument::Tag("v*".to_string()).into_git() {
        GitTriggerArgument::Tag(p) => assert_eq!("v*", p),
        other => panic!("{other:?} should be a tag pattern"),
    }
}

#[test]
fn glob_detection_names_the_four_glob_characters() {
    assert!(pattern_has_glob("v*"));
    assert!(pattern_has_glob("v?"));
    assert!(pattern_has_glob("v[12]"));
    assert!(pattern_has_glob("v{1,2}"));
    assert!(!pattern_has_glob("v1.0.0"));
}

#[test]
fn trigger_policies_describe_themselves() {
    assert_eq!("push", GitTriggerArgument::Push.describe());
    assert_eq!("tag", GitTriggerArgument::Tag("*".to_string()).describe());
    assert_eq!(
        "tag matching \"v*\"",
        GitTriggerArgument::Tag("v*".to_string()).describe()
    );
}

#[test]
fn a_dirty_working_tree_refuses_the_update() {
    assert!(pull_guard(true).is_ok());
    assert!(matches!(pull_guard(false), Err(GitError::DirtyWorkingTree)));
}

#[test]
fn a_normalized_context_keeps_the_last_value() {
    let mut context = Context::new();
    context.insert("HTTP_URL", "/".to_string());
    context.insert("HTTP_URL", "/trigger".to_string());
    let normalized = context.normalized();
    assert_eq!("/trigger", normalized.get("HTTP_URL").unwrap());
}

#[test]
fn two_tags_on_one_commit_keep_the_last_listed() {
    let walk = vec!["c2".to_string(), "c1".to_string()];
    let tags = vec![
        ("c2".to_string(), "v0.1.0".to_string()),
        ("c2".to_string(), "v0.1.1".to_string()),
    ];

    let found = collect_matched_tags(&walk, "c1", &tags);
    assert_eq!(vec![("v0.1.1".to_string(), "c2".to_string())], found);
}
