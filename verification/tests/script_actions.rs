use gw_bin::actions::script::{classify_exit, mark_lines, script_environment, ScriptAction, ScriptError};
use gw_bin::context::Context;

const ECHO_TEST: &str = "echo test";
const EXIT_NONZERO: &str = "exit 1";
const ECHO_INVALID_UNICODE: &str =
    "python3 -c \"import sys; sys.stdout.buffer.write(b'\\xc3\\x28')\"; sys.stdout.flush()";
const ECHO_STDERR: &str = "echo err >&2";
const PRINTENV: &str = "printenv";

#[test]
fn it_should_create_new_script() {
    let command = String::from(ECHO_TEST);
    let action = ScriptAction::new(String::from("."), command, true).unwrap();

    assert_eq!("echo", action.command);
    assert_eq!(".", action.directory);
}

#[test]
fn script_it_should_fail_if_command_is_invalid() {
    let result = ScriptAction::new(String::from("."), String::from("echo 'test"), false);

    assert!(
        matches!(result, Err(ScriptError::CommandParseFailure(_))),
        "{result:?} should match CommandParseFailure"
    );
}

#[test]
fn it_should_run_the_script() -> Result<(), ScriptError> {
    let command = String::from(ECHO_TEST);
    let action = ScriptAction::new(String::from("."), command, true)?;

    let context = Context::new();
    let lines = action.run_inner(&context)?;

    assert_eq!(vec![String::from("test")], lines);

    Ok(())
}

#[test]
fn it_should_set_the_env_vars() -> Result<(), ScriptError> {
    let command = String::from(PRINTENV);
    let action = ScriptAction::new(String::from("."), command, true)?;

    let mut context = Context::new();
    context.insert("TRIGGER_NAME", "TEST-TRIGGER".to_string());
    context.insert("CHECK_NAME", "TEST-CHECK".to_string());
    let lines = action.run_inner(&context)?;

    assert!(lines.contains(&"CI=true".to_string()));
    assert!(lines.contains(&"GW_TRIGGER_NAME=TEST-TRIGGER".to_string()));
    assert!(lines.contains(&"GW_CHECK_NAME=TEST-CHECK".to_string()));
    assert!(lines.contains(&"GW_ACTION_NAME=SCRIPT".to_string()));
    assert!(lines.contains(&"GW_DIRECTORY=.".to_string()));

    Ok(())
}

#[test]
fn it_should_catch_error_output() -> Result<(), ScriptError> {
    let command = String::from(ECHO_STDERR);
    let action = ScriptAction::new(String::from("."), command, true)?;

    let context = Context::new();
    let lines = action.run_inner(&context)?;

    assert_eq!(vec![String::from("err")], lines);

    Ok(())
}

#[test]
fn it_should_record_if_the_script_returns_non_utf8() -> Result<(), ScriptError> {
    let command = String::from(ECHO_INVALID_UNICODE);
    let action = ScriptAction::new(String::from("."), command, false)?;

    let context = Context::new();
    let lines = action.run_inner(&context)?;

    assert_eq!(vec![String::from("<output cannot be parsed>")], lines);

    Ok(())
}

#[test]
fn it_should_fail_if_the_script_fails() -> Result<(), ScriptError> {
    let command = String::from(EXIT_NONZERO);
    let action = ScriptAction::new(String::from("."), command, true)?;

    let context = Context::new();
    let result = action.run_inner(&context);
    assert!(
        matches!(result, Err(ScriptError::NonZeroExitcode(1))),
        "{result:?} should match non zero exit code"
    );

    Ok(())
}

#[test]
fn script_environment_carries_every_context_key() {
    let mut context = Context::new();
    context.insert("GIT_BRANCH_NAME", "master".to_string());
    context.insert("TRIGGER_NAME", "ONCE".to_string());

    let env = script_environment("/srv/repo", &context);

    assert_eq!("true", env.get("CI").unwrap());
    assert_eq!("SCRIPT", env.get("GW_ACTION_NAME").unwrap());
    assert_eq!("/srv/repo", env.get("GW_DIRECTORY").unwrap());
    assert_eq!("master", env.get("GW_GIT_BRANCH_NAME").unwrap());
    assert_eq!("ONCE", env.get("GW_TRIGGER_NAME").unwrap());
}

#[test]
fn exit_statuses_classify_exactly() {
    let lines = vec!["out".to_string()];
    assert_eq!(Ok(vec!["out".to_string()]), classify_exit(Some((true, Some(0))), lines.clone()));
    assert!(matches!(
        classify_exit(Some((false, Some(3))), lines.clone()),
        Err(ScriptError::NonZeroExitcode(3))
    ));
    assert!(matches!(
        classify_exit(Some((false, None)), lines.clone()),
        Err(ScriptError::NonZeroExitcode(-1))
    ));
    assert!(matches!(classify_exit(None, lines), Err(ScriptError::OutputFailure)));
}

#[test]
fn unreadable_lines_become_the_marker() {
    let raw = vec![Some("ok".to_string()), None, Some("done".to_string())];
    let marked = mark_lines(raw);
    assert_eq!(
        vec![
            "ok".to_string(),
            "<output cannot be parsed>".to_string(),
            "done".to_string(),
        ],
        marked
    );
}
