//! What to run to start a local model server, given an installed program.
use vstd::prelude::*;
use crate::text::{chars_of, occurs_at, occurs_at_chars};

verus! {

/// `needle` occurs somewhere in `hay`.
pub open spec fn contains(hay: Seq<char>, needle: Seq<char>) -> bool {
    exists|i: int| occurs_at(hay, i, needle)
}

/// Whether a program path names the server's command-line tool rather than
/// its desktop application.
pub fn is_server_cli(path: &str) -> (r: bool)
    ensures
        r == contains(path@, "lms"@),
{
    let hay = chars_of(path);
    let needle = chars_of("lms");
    let mut i: usize = 0;
    while i < hay.len()
        invariant
            i <= hay.len(),
            hay@ == path@,
            needle@ == "lms"@,
            forall|j: int| 0 <= j < i ==> !occurs_at(hay@, j, needle@),
        decreases hay.len() - i,
    {
        if occurs_at_chars(&hay, i, &needle) {
            return true;
        }
        i = i + 1;
    }
    proof {
        reveal_strlit("lms");
        assert forall|j: int| !occurs_at(hay@, j, needle@) by {
            if 0 <= j < i {
            }
        }
    }
    false
}

/// How to start the server from an installed program.
pub struct LaunchCommand {
    /// Arguments to pass to the program.
    pub args: Vec<String>,
    /// The message reported once the program has been started.
    pub message: String,
}

/// The command that starts the server from the program at `path`: the
/// command-line tool is told to start the server, the desktop application is
/// started as it is.
pub fn launch_command(path: &str) -> (r: LaunchCommand)
    ensures
        contains(path@, "lms"@) ==> r.args.len() == 2 && r.args[0]@ == "server"@ && r.args[1]@
            == "start"@ && r.message@ == "LM Studio server starting via "@ + path@,
        !contains(path@, "lms"@) ==> r.args.len() == 0 && r.message@ == "LM Studio launching from "@
            + path@,
{
    if is_server_cli(path) {
        let args = vec!["server".to_owned(), "start".to_owned()];
        LaunchCommand { args, message: "LM Studio server starting via ".to_owned().concat(path) }
    } else {
        LaunchCommand {
            args: Vec::new(),
            message: "LM Studio launching from ".to_owned().concat(path),
        }
    }
}

} // verus!
