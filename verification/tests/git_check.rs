use std::error::Error;
use std::sync::mpsc;

use duct::cmd;
use gw_bin::actions::script::ScriptAction;
use gw_bin::start::run_loop;
use gw_bin::triggers::once::OnceTrigger;
use gw_bin::triggers::Trigger;
use gw_bin::checks::git::{GitCheck, GitError, GitTriggerArgument};
use gw_bin::checks::CheckError;
use gw_bin::context::Context;

fn sh(line: &str) -> Result<String, Box<dyn Error>> {
    Ok(cmd("sh", vec!["-c", line]).read()?)
}

fn git(path: &str, args: &[&str]) -> Result<String, Box<dyn Error>> {
    let mut full: Vec<String> = vec![
        "-c".to_string(),
        "user.name=gw".to_string(),
        "-c".to_string(),
        "user.email=gw@example.com".to_string(),
    ];
    for arg in args {
        full.push(arg.to_string());
    }
    Ok(cmd("git", full).dir(path).read()?)
}

fn path_is_present(path: &str) -> bool {
    cmd("test", vec!["-e", path]).run().is_ok()
}

fn realpath(path: &str) -> Result<String, Box<dyn Error>> {
    Ok(cmd("realpath", vec![path]).read()?)
}

fn create_commit(path: &str, file: &str, contents: &str) -> Result<(), Box<dyn Error>> {
    sh(&format!("printf %s '{contents}' > '{path}/{file}'"))?;
    git(path, &["add", "-A"])?;
    git(path, &["commit", "-m1"])?;
    Ok(())
}

fn push_all(path: &str) -> Result<(), Box<dyn Error>> {
    git(path, &["push", "origin", "master"])?;
    git(path, &["push", "--tags"])?;
    Ok(())
}

fn create_tag(path: &str, tag: &str) -> Result<(), Box<dyn Error>> {
    git(path, &["tag", tag])?;
    push_all(path)?;
    Ok(())
}

fn get_tags(path: &str) -> Result<String, Box<dyn Error>> {
    git(path, &["tag", "-l"])
}

fn get_last_commit(path: &str) -> Result<String, Box<dyn Error>> {
    git(path, &["rev-parse", "HEAD"])
}

fn create_empty_repository(local: &str) -> Result<(), Box<dyn Error>> {
    let remote = format!("{local}-remote");
    cmd("mkdir", vec!["-p", &remote]).read()?;
    cmd("git", vec!["init", "--bare", "-b", "master"]).dir(&remote).read()?;
    cmd("git", vec!["clone", &remote, local]).read()?;
    create_commit(local, "1", "1")?;
    push_all(local)?;
    Ok(())
}

fn create_other_repository(local: &str) -> Result<(), Box<dyn Error>> {
    let remote = format!("{local}-remote");
    let other = format!("{local}-other");
    cmd("git", vec!["clone", &remote, &other]).read()?;
    create_commit(&other, "2", "2")?;
    push_all(&other)?;
    Ok(())
}

fn create_failing_repository(local: &str, creating_commit: bool) -> Result<(), Box<dyn Error>> {
    cmd("mkdir", vec!["-p", local]).read()?;
    cmd("git", vec!["init", "-b", "master"]).dir(local).read()?;
    if creating_commit {
        create_commit(local, "1", "1")?;
    }
    Ok(())
}

fn create_merge_conflict(local: &str) -> Result<(), Box<dyn Error>> {
    let other = format!("{local}-other");
    create_commit(local, "1", "11")?;
    create_commit(&other, "1", "21")?;
    Ok(())
}

fn prepare(local: &str) -> Result<(), Box<dyn Error>> {
    cmd("mkdir", vec!["-p", "/tmp/gw_test_directories"]).read()?;
    cleanup_repository(local)?;
    Ok(())
}

fn cleanup_repository(local: &str) -> Result<(), Box<dyn Error>> {
    let remote = format!("{local}-remote");
    let other = format!("{local}-other");
    cmd("rm", vec!["-rf", local, &remote, &other]).read()?;
    Ok(())
}

#[test]
fn it_should_open_a_repository() -> Result<(), Box<dyn Error>> {
    let local = "/tmp/gw_test_directories/gw_open";
    prepare(local)?;
    create_empty_repository(local)?;

    let _ = GitCheck::open_inner(local, GitTriggerArgument::Push).map_err(|e| format!("{e:?}"))?;

    let _ = cleanup_repository(local);

    Ok(())
}

#[test]
fn it_should_fail_if_path_is_invalid() -> Result<(), Box<dyn Error>> {
    let error = GitCheck::open_inner("/path/to/nowhere", GitTriggerArgument::Push).err().unwrap();

    assert!(
        matches!(error, CheckError::Misconfigured(_)),
        "{error:?} should be Misconfigured"
    );

    Ok(())
}

#[test]
fn it_should_fail_if_we_are_not_on_a_branch() -> Result<(), Box<dyn Error>> {
    let local = "/tmp/gw_test_directories/gw_no_branch";
    prepare(local)?;

    // Don't create a commit so that HEAD stays unborn.
    create_failing_repository(local, false)?;

    let failing_check = GitCheck::open_inner(local, GitTriggerArgument::Push);
    let error = failing_check.err().unwrap();

    assert!(
        matches!(error, CheckError::Misconfigured(_)),
        "{error:?} should be Misconfigured"
    );

    let _ = cleanup_repository(local);

    Ok(())
}

#[test]
fn it_should_fail_if_there_is_no_remote() -> Result<(), Box<dyn Error>> {
    let local = "/tmp/gw_test_directories/gw_no_remote";
    prepare(local)?;

    create_failing_repository(local, true)?;

    let failing_check = GitCheck::open_inner(local, GitTriggerArgument::Push);
    let error = failing_check.err().unwrap();

    assert!(
        matches!(error, CheckError::Misconfigured(_)),
        "{error:?} should be Misconfigured"
    );

    let _ = cleanup_repository(local);

    Ok(())
}

#[test]
fn it_should_return_false_if_the_remote_didnt_change() -> Result<(), Box<dyn Error>> {
    let local = "/tmp/gw_test_directories/gw_unchanged";
    prepare(local)?;
    create_empty_repository(local)?;

    let mut check = GitCheck::open_inner(local, GitTriggerArgument::Push).map_err(|e| format!("{e:?}"))?;
    let mut context = Context::new();
    let is_pulled = check.check_inner(&mut context).map_err(|e| format!("{e:?}"))?;
    assert!(!is_pulled);

    let _ = cleanup_repository(local);

    Ok(())
}

#[test]
fn it_should_return_true_if_the_remote_changes() -> Result<(), Box<dyn Error>> {
    let local = "/tmp/gw_test_directories/gw_changed";
    prepare(local)?;
    create_empty_repository(local)?;

    // Create another repository and push a new commit.
    create_other_repository(local)?;

    let before_commit_sha = get_last_commit(local)?;
    let mut check = GitCheck::open_inner(local, GitTriggerArgument::Push).map_err(|e| format!("{e:?}"))?;
    let mut context = Context::new();
    let is_pulled = check.check_inner(&mut context).map_err(|e| format!("{e:?}"))?;
    assert!(is_pulled);

    // The pushed file should be pulled.
    assert!(path_is_present(&format!("{local}/2")));

    // It should set the context keys.
    let remote = realpath(&format!("{local}-remote"))?;
    let commit_sha = get_last_commit(local)?;
    assert_eq!("branch", context.get("GIT_REF_TYPE").unwrap());
    assert_eq!("refs/heads/master", context.get("GIT_REF_NAME").unwrap());
    assert_eq!("master", context.get("GIT_BRANCH_NAME").unwrap());
    assert_eq!(&before_commit_sha, context.get("GIT_BEFORE_COMMIT_SHA").unwrap());
    assert_eq!(
        &before_commit_sha[0..7],
        context.get("GIT_BEFORE_COMMIT_SHORT_SHA").unwrap()
    );
    assert_eq!(&commit_sha, context.get("GIT_COMMIT_SHA").unwrap());
    assert_eq!(&commit_sha[0..7], context.get("GIT_COMMIT_SHORT_SHA").unwrap());
    assert_eq!("origin", context.get("GIT_REMOTE_NAME").unwrap());
    assert_eq!(remote, realpath(context.get("GIT_REMOTE_URL").unwrap())?);

    let _ = cleanup_repository(local);

    Ok(())
}

#[test]
fn it_should_return_true_if_the_remote_changes_with_tags() -> Result<(), Box<dyn Error>> {
    let local = "/tmp/gw_test_directories/gw_tags";
    prepare(local)?;
    create_empty_repository(local)?;

    // Create another repository, push a new commit and add a tag.
    create_other_repository(local)?;

    let other = format!("{local}-other");
    create_tag(&other, "v0.1.0")?;
    create_commit(&other, "3", "3")?;
    push_all(&other)?;

    let before_commit_sha = get_last_commit(local)?;
    let mut check = GitCheck::open_inner(local, GitTriggerArgument::Tag("v*".to_string())).map_err(|e| format!("{e:?}"))?;
    let mut context = Context::new();
    let is_pulled = check.check_inner(&mut context).map_err(|e| format!("{e:?}"))?;
    assert!(is_pulled);

    // The pushed file should be pulled.
    assert!(path_is_present(&format!("{local}/2")));

    // The last commit should not be checked out.
    assert!(!path_is_present(&format!("{local}/3")));

    // The tag should be downloaded.
    let tags = get_tags(local)?;
    assert_eq!(tags, "v0.1.0");

    // It should set the context keys.
    let remote = realpath(&format!("{local}-remote"))?;
    let commit_sha = get_last_commit(local)?;
    assert_eq!("tag", context.get("GIT_REF_TYPE").unwrap());
    assert_eq!("refs/tags/v0.1.0", context.get("GIT_REF_NAME").unwrap());
    assert_eq!("master", context.get("GIT_BRANCH_NAME").unwrap());
    assert_eq!(&before_commit_sha, context.get("GIT_BEFORE_COMMIT_SHA").unwrap());
    assert_eq!(
        &before_commit_sha[0..7],
        context.get("GIT_BEFORE_COMMIT_SHORT_SHA").unwrap()
    );
    assert_eq!(&commit_sha, context.get("GIT_COMMIT_SHA").unwrap());
    assert_eq!(&commit_sha[0..7], context.get("GIT_COMMIT_SHORT_SHA").unwrap());
    assert_eq!("origin", context.get("GIT_REMOTE_NAME").unwrap());
    assert_eq!(remote, realpath(context.get("GIT_REMOTE_URL").unwrap())?);

    let _ = cleanup_repository(local);

    Ok(())
}

#[test]
fn it_should_return_false_if_no_new_tag_with_tags() -> Result<(), Box<dyn Error>> {
    let local = "/tmp/gw_test_directories/gw_no_new_tag";
    prepare(local)?;

    // Tag the current commit to test whether that triggers.
    create_empty_repository(local)?;
    create_tag(local, "v0.2.0")?;
    push_all(local)?;

    // Create another repository and push an untagged commit.
    create_other_repository(local)?;

    let other = format!("{local}-other");
    create_commit(&other, "3", "3")?;
    push_all(&other)?;

    let mut check = GitCheck::open_inner(local, GitTriggerArgument::Tag("v*".to_string())).map_err(|e| format!("{e:?}"))?;
    let mut context = Context::new();
    let is_pulled = check.check_inner(&mut context).map_err(|e| format!("{e:?}"))?;
    assert!(!is_pulled);

    // The commits should not be downloaded.
    assert!(!path_is_present(&format!("{local}/2")));
    assert!(!path_is_present(&format!("{local}/3")));

    let _ = cleanup_repository(local);

    Ok(())
}

#[test]
fn it_should_return_false_if_no_tag_matches_with_tags() -> Result<(), Box<dyn Error>> {
    let local = "/tmp/gw_test_directories/gw_no_match";
    prepare(local)?;
    create_empty_repository(local)?;

    // Create another repository, push a new commit and add a tag.
    create_other_repository(local)?;

    let other = format!("{local}-other");
    create_tag(&other, "v0.1.0")?;
    create_commit(&other, "3", "3")?;
    push_all(&other)?;

    let mut check = GitCheck::open_inner(local, GitTriggerArgument::Tag("no-match".to_string())).map_err(|e| format!("{e:?}"))?;
    let mut context = Context::new();
    let is_pulled = check.check_inner(&mut context).map_err(|e| format!("{e:?}"))?;
    assert!(!is_pulled);

    // The commits should not be downloaded.
    assert!(!path_is_present(&format!("{local}/2")));
    assert!(!path_is_present(&format!("{local}/3")));

    let _ = cleanup_repository(local);

    Ok(())
}

#[test]
fn it_should_fail_if_the_working_tree_is_dirty() -> Result<(), Box<dyn Error>> {
    let local = "/tmp/gw_test_directories/gw_dirty";
    prepare(local)?;
    create_empty_repository(local)?;

    // Create another repository and push a new commit.
    create_other_repository(local)?;

    // Add an uncommitted modification to emulate a dirty working tree.
    sh(&format!("printf %s '22' > '{local}/1'"))?;

    let mut check = GitCheck::open_inner(local, GitTriggerArgument::Push).map_err(|e| format!("{e:?}"))?;
    let mut context = Context::new();
    let error = check.check_inner(&mut context).err().unwrap();

    assert!(
        matches!(error, GitError::DirtyWorkingTree),
        "{error:?} should be DirtyWorkingTree"
    );

    // The pushed file should not be pulled.
    assert!(!path_is_present(&format!("{local}/2")));

    let _ = cleanup_repository(local);

    Ok(())
}

#[test]
fn it_should_fail_if_there_is_a_merge_conflict() -> Result<(), Box<dyn Error>> {
    let local = "/tmp/gw_test_directories/gw_conflict";
    prepare(local)?;
    create_empty_repository(local)?;

    // Create another repository and push a new commit.
    create_other_repository(local)?;

    // Modify the same file in both directories to create a merge conflict.
    create_merge_conflict(local)?;

    let mut check = GitCheck::open_inner(local, GitTriggerArgument::Push).map_err(|e| format!("{e:?}"))?;
    let mut context = Context::new();
    let error = check.check_inner(&mut context).err().unwrap();

    assert!(
        matches!(error, GitError::MergeConflict),
        "{error:?} should be MergeConflict"
    );

    let _ = cleanup_repository(local);

    Ok(())
}

#[test]
fn once_with_echo_script_runs_nothing_on_a_fresh_clone() -> Result<(), Box<dyn Error>> {
    let local = "/tmp/gw_test_directories/gw_once_fresh";
    let marker = "/tmp/gw_test_directories/gw_once_fresh_marker";
    prepare(local)?;
    cmd("rm", vec!["-rf", marker]).read()?;
    create_empty_repository(local)?;

    // A fresh clone with no upstream changes: the check reports false and
    // the script must not run.
    let (tx, rx) = mpsc::channel();
    let trigger = OnceTrigger;
    trigger.listen(tx).map_err(|e| format!("{e:?}"))?;

    let mut check = GitCheck::open_inner(local, GitTriggerArgument::Push).map_err(|e| format!("{e:?}"))?;
    let script = format!("touch {marker}");
    let mut actions =
        vec![ScriptAction::new(local.to_string(), script, true).map_err(|e| format!("{e:?}"))?];
    run_loop(&rx, &mut check, &mut actions);

    assert!(!path_is_present(marker));

    let _ = cleanup_repository(local);

    Ok(())
}
