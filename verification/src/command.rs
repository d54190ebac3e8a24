use vstd::prelude::*;

verus! {

#[verifier::external_type_specification]
#[verifier::external_body]
pub struct ExExpression(duct::Expression);

/// Relies on duct::Expression::clone; nothing is assumed of the copy.
pub assume_specification[ <duct::Expression as Clone>::clone ](e: &duct::Expression) -> duct::Expression;

/// The words that POSIX-shell-style lexing yields for a command line, if the
/// line can be lexed at all.
pub uninterp spec fn shell_split(s: Seq<char>) -> Option<Seq<Seq<char>>>;

/// The view of a word list as a sequence of character sequences.
pub open spec fn words_view(v: Seq<String>) -> Seq<Seq<char>> {
    v.map_values(|w: String| w@)
}

/// Relies on shlex::split: lexes a command line with POSIX-shell-style rules
/// into words; the result depends on the input characters alone.
#[verifier::external_body]
fn shlex_split(s: &str) -> (r: Option<Vec<String>>)
    ensures
        (r is Some) == (shell_split(s@) is Some),
        r matches Some(v) ==> shell_split(s@) matches Some(w) && words_view(v@) == w,
{
    shlex::split(s)
}

/// Relies on duct::cmd: builds an unstarted command expression from a program
/// and its argument list.
#[verifier::external_body]
fn duct_cmd(program: &String, args: Vec<String>) -> duct::Expression {
    duct::cmd(program.as_str(), args)
}

/// Relies on duct_sh::sh_dangerous: builds an unstarted command expression
/// that runs the whole line through the platform shell.
#[verifier::external_body]
fn duct_sh_command(line: &str) -> duct::Expression {
    duct_sh::sh_dangerous(line)
}

/// A character that can start a shell variable name after a `$`.
pub open spec fn starts_variable(c: char) -> bool {
    ('a' <= c && c <= 'z') || ('A' <= c && c <= 'Z') || c == '{'
}

/// The first `$` of the line is followed by a letter or `{`.
pub open spec fn contains_variable(s: Seq<char>) -> bool {
    exists|i: int|
        0 <= i < s.len() && #[trigger] s[i] == '$' && (forall|j: int| 0 <= j < i ==> s[j] != '$')
            && i + 1 < s.len() && starts_variable(s[i + 1])
}

/// The pattern occurs as a contiguous part of the line.
pub open spec fn contains_part(s: Seq<char>, p: Seq<char>) -> bool {
    exists|i: int| 0 <= i && i + p.len() <= s.len() && #[trigger] s.subrange(i, i + p.len()) == p
}

/// The line looks like it wants a shell: a `$NAME` or `${...}` variable, or
/// one of the connectives ` | `, ` && `, ` || `.
pub open spec fn spec_wants_shell(s: Seq<char>) -> bool {
    contains_variable(s) || contains_part(s, " | "@) || contains_part(s, " && "@) || contains_part(
        s,
        " || "@,
    )
}

fn contains_pattern(s: &str, p: &str) -> (r: bool)
    ensures
        r == contains_part(s@, p@),
{
    let n = s.unicode_len();
    let m = p.unicode_len();
    if m > n {
        return false;
    }
    if m == 0 {
        proof {
            assert(s@.subrange(0, 0 + p@.len() as int) =~= p@);
        }
        return true;
    }
    let mut i: usize = 0;
    while i <= n - m
        invariant
            1 <= m <= n,
            n == s@.len(),
            m == p@.len(),
            0 <= i <= n - m + 1,
            forall|x: int| 0 <= x < i ==> #[trigger] s@.subrange(x, x + p@.len()) != p@,
        decreases n - m - i + 1,
    {
        let mut j: usize = 0;
        let mut matches_here: bool = true;
        while j < m && matches_here
            invariant
                m <= n,
                n == s@.len(),
                m == p@.len(),
                0 <= i <= n - m,
                0 <= j <= m,
                matches_here ==> forall|k: int| 0 <= k < j ==> s@[i + k] == p@[k],
                !matches_here ==> s@.subrange(i as int, i + p@.len()) != p@,
            decreases m - j + (if matches_here { 1int } else { 0int }),
        {
            if s.get_char(i + j) == p.get_char(j) {
                j = j + 1;
            } else {
                proof {
                    assert(s@.subrange(i as int, i + p@.len())[j as int] == s@[i + j]);
                }
                matches_here = false;
            }
        }
        if matches_here {
            proof {
                assert(s@.subrange(i as int, i + p@.len()) =~= p@);
            }
            return true;
        }
        i = i + 1;
    }
    proof {
        assert forall|x: int| 0 <= x && x + p@.len() <= s@.len() implies #[trigger] s@.subrange(
            x,
            x + p@.len(),
        ) != p@ by {
            assert(0 <= x < i);
        }
    }
    false
}

fn contains_shell_variable(s: &str) -> (r: bool)
    ensures
        r == contains_variable(s@),
{
    let n = s.unicode_len();
    let mut i: usize = 0;
    while i < n
        invariant
            n == s@.len(),
            0 <= i <= n,
            forall|j: int| 0 <= j < i ==> s@[j] != '$',
        decreases n - i,
    {
        if s.get_char(i) == '$' {
            if i + 1 < n {
                let next = s.get_char(i + 1);
                let hit = (('a' <= next && next <= 'z') || ('A' <= next && next <= 'Z') || next
                    == '{');
                return hit;
            }
            return false;
        }
        i = i + 1;
    }
    false
}

/// The executable form of [`spec_wants_shell`]: whether a command line that
/// is not run in a shell deserves a warning that it might want one.
pub fn wants_shell(command: &str) -> (r: bool)
    ensures
        r == spec_wants_shell(command@),
{
    if contains_shell_variable(command) {
        return true;
    }
    if contains_pattern(command, " | ") {
        return true;
    }
    if contains_pattern(command, " && ") {
        return true;
    }
    contains_pattern(command, " || ")
}

/// Parses a user command line into a display name and an unstarted command
/// expression.
///
/// The line is lexed with POSIX-shell-style rules; lexing failure or an empty
/// word list yields `None`.  With `runs_in_shell` the whole line is handed to
/// the platform shell, otherwise the first word is invoked with the remaining
/// words as arguments.  The display name is always the first word.
pub fn create_command(original_command: &str, runs_in_shell: bool) -> (r: Option<
    (String, duct::Expression),
>)
    ensures
        (r is Some) == (shell_split(original_command@) matches Some(w) && w.len() > 0),
        r matches Some(p) ==> shell_split(original_command@) matches Some(w) && p.0@ == w[0],
{
    match shlex_split(original_command) {
        None => None,
        Some(args) => {
            if args.len() == 0 {
                None
            } else {
                let command = args[0].clone();
                let script = if runs_in_shell {
                    duct_sh_command(original_command)
                } else {
                    let mut rest: Vec<String> = Vec::new();
                    let mut i: usize = 1;
                    while i < args.len()
                        invariant
                            1 <= i <= args@.len(),
                        decreases args@.len() - i,
                    {
                        rest.push(args[i].clone());
                        i = i + 1;
                    }
                    duct_cmd(&args[0], rest)
                };
                Some((command, script))
            }
        },
    }
}

} // verus!
