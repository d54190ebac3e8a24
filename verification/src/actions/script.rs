use vstd::prelude::*;

use super::{Action, ActionError};
use crate::command::{create_command, shell_split};
use crate::context::Context;
use std::io::{BufRead, BufReader};

verus! {

#[verifier::external_type_specification]
#[verifier::external_body]
pub struct ExReaderHandle(duct::ReaderHandle);

/// An action that runs a custom script to completion.
///
/// The command runs in the configured directory with its stderr merged into
/// stdout; the captured output lines are handed back to the caller.
#[derive(Debug)]
pub struct ScriptAction {
    pub directory: String,
    pub command: String,
    pub script: duct::Expression,
    pub runs_in_shell: bool,
}

/// The error cases for the script action.
#[derive(Debug, PartialEq, Eq)]
pub enum ScriptError {
    /// The command is invalid, usually because of mismatched quotation.
    CommandParseFailure(String),
    /// Starting the script failed; the parameter holds the message.
    ScriptFailure(String),
    /// The script returned the contained non-zero exit code.
    NonZeroExitcode(i32),
    /// Reading from the output of the script failed.
    OutputFailure,
}

impl ScriptError {
    /// Turns the script error into the generic action error: every case is a
    /// runtime failure.
    pub fn into_action(self) -> (r: ActionError)
        ensures
            r is FailedAction,
    {
        match self {
            ScriptError::CommandParseFailure(c) => ActionError::FailedAction(
                "the command ".to_owned().concat(c.as_str()).concat(" cannot be parsed"),
            ),
            ScriptError::ScriptFailure(m) => ActionError::FailedAction(
                "the script cannot run: ".to_owned().concat(m.as_str()),
            ),
            ScriptError::NonZeroExitcode(_) => ActionError::FailedAction(
                "the script returned a non-zero exit code".to_owned(),
            ),
            ScriptError::OutputFailure => ActionError::FailedAction(
                "the script returned invalid output".to_owned(),
            ),
        }
    }
}

/// Relies on duct::Expression::env: the expression with one more exported
/// environment variable.
#[verifier::external_body]
fn expr_env(e: &duct::Expression, name: &str, value: &str) -> duct::Expression {
    e.env(name, value)
}

/// Relies on duct::Expression::dir: the expression with its working
/// directory set.
#[verifier::external_body]
fn expr_dir(e: &duct::Expression, directory: &str) -> duct::Expression {
    e.dir(directory)
}

/// Relies on duct::Expression::stderr_to_stdout: the expression with stderr
/// merged into stdout.
#[verifier::external_body]
fn expr_stderr_to_stdout(e: &duct::Expression) -> duct::Expression {
    e.stderr_to_stdout()
}

/// Relies on duct::Expression::stdout_capture: the expression with its
/// stdout captured.
#[verifier::external_body]
fn expr_stdout_capture(e: &duct::Expression) -> duct::Expression {
    e.stdout_capture()
}

/// Relies on duct::Expression::unchecked: the expression no longer treating
/// a non-zero exit status as an error.
#[verifier::external_body]
fn expr_unchecked(e: &duct::Expression) -> duct::Expression {
    e.unchecked()
}

/// Relies on duct::Expression::reader: starts the expression with a pipe
/// capturing its output; a start failure is handed back as its message.
#[verifier::external_body]
fn expr_reader(e: &duct::Expression) -> Result<duct::ReaderHandle, String> {
    e.reader().map_err(|err| err.to_string())
}

/// Relies on std::io::BufRead::lines over the reader handle: the output
/// lines of the child, an unreadable line handed back as `None`.
#[verifier::external_body]
fn reader_lines(child: &duct::ReaderHandle) -> Vec<Option<String>> {
    BufReader::new(child).lines().map(|line| line.ok()).collect()
}

/// Relies on duct::ReaderHandle::try_wait and std::process::ExitStatus:
/// whether the child has exited, with its success flag and exit code.
#[verifier::external_body]
fn reader_exit(child: &duct::ReaderHandle) -> Option<(bool, Option<i32>)> {
    match child.try_wait() {
        Ok(Some(output)) => Some((output.status.success(), output.status.code())),
        _ => None,
    }
}

/// Replaces an unreadable output line by the marker, keeping every other
/// line and every position as it was.
pub fn mark_lines(raw: Vec<Option<String>>) -> (r: Vec<String>)
    ensures
        r@.len() == raw@.len(),
        forall|i: int|
            0 <= i < raw@.len() ==> r@[i]@ == (match raw@[i] {
                Some(l) => l@,
                None => "<output cannot be parsed>"@,
            }),
{
    let mut lines: Vec<String> = Vec::new();
    let mut j: usize = 0;
    while j < raw.len()
        invariant
            0 <= j <= raw@.len(),
            lines@.len() == j,
            forall|i: int|
                0 <= i < j ==> lines@[i]@ == (match raw@[i] {
                    Some(l) => l@,
                    None => "<output cannot be parsed>"@,
                }),
        decreases raw@.len() - j,
    {
        match &raw[j] {
            Some(line) => lines.push(line.clone()),
            None => lines.push("<output cannot be parsed>".to_owned()),
        }
        j = j + 1;
    }
    lines
}

/// The exit rule of the script: a successful exit keeps the captured lines,
/// an exit code becomes the non-zero-exit error (`-1` when the child has no
/// code), and an unreadable exit is an output failure.
pub fn classify_exit(exit: Option<(bool, Option<i32>)>, lines: Vec<String>) -> (r: Result<
    Vec<String>,
    ScriptError,
>)
    ensures
        exit matches Some(p) ==> (if p.0 {
            r == Ok::<Vec<String>, ScriptError>(lines)
        } else {
            match p.1 {
                Some(code) => r == Err::<Vec<String>, ScriptError>(
                    ScriptError::NonZeroExitcode(code),
                ),
                None => r == Err::<Vec<String>, ScriptError>(ScriptError::NonZeroExitcode(-1 as i32)),
            }
        }),
        exit is None ==> r == Err::<Vec<String>, ScriptError>(ScriptError::OutputFailure),
{
    match exit {
        Some((true, _)) => Ok(lines),
        Some((false, Some(code))) => Err(ScriptError::NonZeroExitcode(code)),
        Some((false, None)) => Err(ScriptError::NonZeroExitcode(-1)),
        None => Err(ScriptError::OutputFailure),
    }
}

/// Appending the same prefix to two different sequences keeps them
/// different.
proof fn lemma_prepend_injective(p: Seq<char>, a: Seq<char>, b: Seq<char>)
    requires
        p + a == p + b,
    ensures
        a == b,
{
    assert((p + a).len() == p.len() + a.len());
    assert((p + b).len() == p.len() + b.len());
    assert(a.len() == b.len());
    assert forall|i: int| 0 <= i < a.len() implies a[i] == b[i] by {
        assert((p + a)[p.len() + i] == a[i]);
        assert((p + b)[p.len() + i] == b[i]);
    }
    assert(a =~= b);
}

/// The environment a script receives: `CI=true`, the action name and
/// directory, and `GW_<key>=<value>` for every context entry, the context
/// taking precedence.
pub fn script_environment(directory: &str, context: &Context) -> (r: Context)
    requires
        context.wf(),
    ensures
        r.wf(),
        r@.contains_key("CI"@) && r@["CI"@] == "true"@,
        forall|k: Seq<char>|
            context@.contains_key(k) ==> r@.contains_key(#[trigger] ("GW_"@ + k)) && r@["GW_"@ + k]
                == context@[k],
        !context@.contains_key("ACTION_NAME"@) ==> r@.contains_key("GW_ACTION_NAME"@)
            && r@["GW_ACTION_NAME"@] == "SCRIPT"@,
        !context@.contains_key("DIRECTORY"@) ==> r@.contains_key("GW_DIRECTORY"@)
            && r@["GW_DIRECTORY"@] == directory@,
{
    proof {
        reveal_strlit("CI");
        reveal_strlit("GW_");
        reveal_strlit("GW_ACTION_NAME");
        reveal_strlit("GW_DIRECTORY");
        reveal_strlit("ACTION_NAME");
        reveal_strlit("DIRECTORY");
        assert("GW_ACTION_NAME"@ =~= "GW_"@ + "ACTION_NAME"@);
        assert("GW_DIRECTORY"@ =~= "GW_"@ + "DIRECTORY"@);
    }
    let mut env = Context::new();
    env.insert("CI", "true".to_owned());
    env.insert("GW_ACTION_NAME", "SCRIPT".to_owned());
    env.insert("GW_DIRECTORY", directory.to_owned());
    let entries = context.entries();
    let ghost s = context.entry_seq();
    let mut i: usize = 0;
    while i < entries.len()
        invariant
            context.wf(),
            env.wf(),
            entries@ == s,
            s == context.entry_seq(),
            0 <= i <= s.len(),
            env@.contains_key("CI"@) && env@["CI"@] == "true"@,
            "CI"@.len() == 2 && "GW_"@.len() == 3,
            "GW_ACTION_NAME"@ == "GW_"@ + "ACTION_NAME"@,
            "GW_DIRECTORY"@ == "GW_"@ + "DIRECTORY"@,
            env@.contains_key("GW_ACTION_NAME"@),
            env@.contains_key("GW_DIRECTORY"@),
            (forall|j: int| 0 <= j < i ==> s[j].0@ != "ACTION_NAME"@) ==> env@["GW_ACTION_NAME"@]
                == "SCRIPT"@,
            (forall|j: int| 0 <= j < i ==> s[j].0@ != "DIRECTORY"@) ==> env@["GW_DIRECTORY"@]
                == directory@,
            forall|j: int|
                0 <= j < i ==> env@.contains_key(#[trigger] ("GW_"@ + s[j].0@)) && env@["GW_"@
                    + s[j].0@] == s[j].1@,
        decreases s.len() - i,
    {
        let key = "GW_".to_owned().concat(entries[i].0.as_str());
        let value = entries[i].1.clone();
        env.insert(key.as_str(), value);
        proof {
            assert(key@ == "GW_"@ + s[i as int].0@);
            assert forall|j: int| 0 <= j < i && "GW_"@ + s[j].0@ != key@ implies s[j].0@ != s[
                i as int
            ].0@ by {}
            assert forall|j: int| 0 <= j < i implies env@.contains_key(
                #[trigger] ("GW_"@ + s[j].0@),
            ) && env@["GW_"@ + s[j].0@] == s[j].1@ by {
                if "GW_"@ + s[j].0@ == key@ {
                    lemma_prepend_injective("GW_"@, s[j].0@, s[i as int].0@);
                    context.lemma_keys_distinct(j, i as int);
                    assert(false);
                }
            }
            if "GW_ACTION_NAME"@ == key@ {
                lemma_prepend_injective("GW_"@, "ACTION_NAME"@, s[i as int].0@);
            }
            if "GW_DIRECTORY"@ == key@ {
                lemma_prepend_injective("GW_"@, "DIRECTORY"@, s[i as int].0@);
            }
            assert("CI"@ != key@);
        }
        i = i + 1;
    }
    proof {
        context.lemma_entries_in_view();
        assert forall|k: Seq<char>| context@.contains_key(k) implies env@.contains_key(
            #[trigger] ("GW_"@ + k),
        ) && env@["GW_"@ + k] == context@[k] by {
            context.lemma_view_from_entries(k);
            let j = choose|j: int| 0 <= j < s.len() && s[j].0@ == k;
            assert(env@.contains_key("GW_"@ + s[j].0@));
        }
        if !context@.contains_key("ACTION_NAME"@) {
            assert forall|j: int| 0 <= j < s.len() implies s[j].0@ != "ACTION_NAME"@ by {
                context.lemma_entries_in_view();
            }
        }
        if !context@.contains_key("DIRECTORY"@) {
            assert forall|j: int| 0 <= j < s.len() implies s[j].0@ != "DIRECTORY"@ by {
                context.lemma_entries_in_view();
            }
        }
    }
    env
}

impl ScriptAction {
    /// Creates a new script action to run in the given directory.
    ///
    /// The command line is parsed eagerly, so that a misconfigured command
    /// cannot reach runtime.
    pub fn new(directory: String, original_command: String, runs_in_shell: bool) -> (r: Result<
        Self,
        ScriptError,
    >)
        ensures
            (r is Ok) == (shell_split(original_command@) matches Some(w) && w.len() > 0),
            r matches Ok(a) ==> shell_split(original_command@) matches Some(w) && a.command@ == w[0]
                && a.directory@ == directory@ && a.runs_in_shell == runs_in_shell,
            r matches Err(e) ==> e matches ScriptError::CommandParseFailure(c) && c@
                == original_command@,
    {
        match create_command(original_command.as_str(), runs_in_shell) {
            None => Err(ScriptError::CommandParseFailure(original_command)),
            Some((command, script)) => {
                let script = expr_env(&script, "CI", "true");
                let script = expr_env(&script, "GW_ACTION_NAME", "SCRIPT");
                let script = expr_env(&script, "GW_DIRECTORY", directory.as_str());
                let script = expr_stderr_to_stdout(&script);
                let script = expr_stdout_capture(&script);
                let script = expr_dir(&script, directory.as_str());
                let script = expr_unchecked(&script);
                Ok(ScriptAction { directory, command, script, runs_in_shell })
            },
        }
    }

    /// Runs the script with `GW_<key>` environment variables for every
    /// context entry and collects its output lines.
    ///
    /// The result is `Ok` exactly when the child ran and exited with status
    /// zero; the `Ok` value holds the captured output lines, an unreadable
    /// line replaced by a marker.
    pub fn run_inner(&self, context: &Context) -> (r: Result<Vec<String>, ScriptError>)
        requires
            context.wf(),
        ensures
            r matches Err(e) ==> !(e is CommandParseFailure),
    {
        let mut script = self.script.clone();
        let env = script_environment(self.directory.as_str(), context);
        let entries = env.entries();
        let mut i: usize = 0;
        while i < entries.len()
            decreases entries@.len() - i,
        {
            script = expr_env(&script, entries[i].0.as_str(), entries[i].1.as_str());
            i = i + 1;
        }
        let child = match expr_reader(&script) {
            Ok(child) => child,
            Err(message) => {
                return Err(ScriptError::ScriptFailure(message));
            },
        };
        let lines = mark_lines(reader_lines(&child));
        classify_exit(reader_exit(&child), lines)
    }
}

impl Action for ScriptAction {
    /// Runs the script to completion; any failure is a runtime action
    /// failure.
    fn run(&mut self, context: &Context) -> Result<(), ActionError> {
        match self.run_inner(context) {
            Ok(_) => Ok(()),
            Err(e) => Err(e.into_action()),
        }
    }
}

} // verus!
