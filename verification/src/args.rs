use vstd::prelude::*;

use crate::checks::git::GitTriggerArgument;

verus! {

/// The update policy named on the command line.
#[derive(Debug, Clone)]
pub enum TriggerArgument {
    Push,
    Tag(String),
}

impl TriggerArgument {
    /// Parses the `on=` argument: `push`, `tag`, or `tag:` followed by a
    /// glob pattern; anything else is rejected with a message.
    pub fn parse(s: &str) -> (r: Result<TriggerArgument, String>)
        ensures
            s@ == "push"@ ==> (r matches Ok(t) && t is Push),
            s@ == "tag"@ ==> (r matches Ok(t) && (t matches TriggerArgument::Tag(p) && p@ == "*"@)),
            s@ != "push"@ && s@ != "tag"@ && s@.len() >= 4 && s@.subrange(0, 4) == "tag:"@ ==> (
            r matches Ok(t) && (t matches TriggerArgument::Tag(p) && p@ == s@.skip(4))),
            s@ != "push"@ && s@ != "tag"@ && !(s@.len() >= 4 && s@.subrange(0, 4) == "tag:"@)
                ==> r is Err,
    {
        proof {
            reveal_strlit("push");
            reveal_strlit("tag");
            reveal_strlit("tag:");
            assert("push"@.len() == 4);
            assert("tag"@.len() == 3);
            assert("tag:"@.len() == 4);
            assert("push"@[0] == 'p');
            assert("tag:"@[0] == 't');
            assert("push"@ != "tag"@);
            assert("push"@ != "tag:"@);
            assert("tag"@ != "tag:"@);
        }
        let owned = s.to_owned();
        if owned == "push".to_owned() {
            return Ok(TriggerArgument::Push);
        }
        if owned == "tag".to_owned() {
            return Ok(TriggerArgument::Tag("*".to_owned()));
        }
        let n = s.unicode_len();
        if n >= 4 {
            let prefix = s.substring_char(0, 4).to_owned();
            if prefix == "tag:".to_owned() {
                let rest = s.substring_char(4, n).to_owned();
                proof {
                    assert(rest@ =~= s@.skip(4));
                }
                return Ok(TriggerArgument::Tag(rest));
            }
        }
        Err("cannot parse the trigger, valid values: push, tag, tag:prefix".to_owned())
    }

    /// The same policy in the git check's vocabulary.
    pub fn into_git(self) -> (r: GitTriggerArgument)
        ensures
            (self is Push) == (r is Push),
            self matches TriggerArgument::Tag(p) ==> (r matches GitTriggerArgument::Tag(q) && q
                == p),
    {
        match self {
            TriggerArgument::Push => GitTriggerArgument::Push,
            TriggerArgument::Tag(pattern) => GitTriggerArgument::Tag(pattern),
        }
    }
}

impl std::str::FromStr for TriggerArgument {
    type Err = String;

    /// Parses the `on=` argument.
    fn from_str(s: &str) -> Result<Self, String> {
        TriggerArgument::parse(s)
    }
}

/// An action named on the command line, keeping the order the arguments
/// were given in; the flag tells whether it runs in a shell.
#[derive(Debug, Clone)]
pub enum ArgAction {
    Process(String, bool),
    Script(String, bool),
}

} // verus!
