//! The subprocess command that starts a language server.
use vstd::prelude::*;

verus! {

/// How to start a server: the executable, its arguments and its environment.
#[derive(Clone, Debug)]
pub struct LaunchCommand {
    pub command: String,
    pub args: Vec<String>,
    pub env: Vec<(String, String)>,
}

/// The flag that starts a server speaking the protocol over its standard streams.
pub open spec fn stdio_flag() -> Seq<char> {
    "stdio"@
}

/// Whether `path` is absolute: it starts at the root (`/...`), or at a drive
/// (`C:\...` or `C:/...`).
pub open spec fn is_absolute_path(path: Seq<char>) -> bool {
    ||| path.len() > 0 && path[0] == '/'
    ||| path.len() >= 3 && path[1] == ':' && (path[2] == '\\' || path[2] == '/')
}

/// Whether `path` is absolute: it starts at the root (`/...`), or at a drive
/// (`C:\...` or `C:/...`).
pub fn path_is_absolute(path: &str) -> (r: bool)
    ensures
        r == is_absolute_path(path@),
{
    let n = path.unicode_len();
    if n == 0 {
        return false;
    }
    if path.get_char(0) == '/' {
        return true;
    }
    if n < 3 {
        return false;
    }
    let sep = path.get_char(2);
    path.get_char(1) == ':' && (sep == '\\' || sep == '/')
}

/// Whether `c` starts the executable at `path` in stdio mode with the
/// environment `env`.
pub open spec fn is_command_for(c: LaunchCommand, path: Seq<char>, env: Seq<(String, String)>) -> bool {
    &&& c.command@ == path
    &&& c.args@.len() == 1
    &&& c.args@[0]@ == stdio_flag()
    &&& c.env@ == env
}

/// The command that starts the executable at `path` in stdio mode, with the
/// workspace's shell environment `env`.
pub fn build_command(path: String, env: Vec<(String, String)>) -> (r: LaunchCommand)
    ensures
        is_command_for(r, path@, env@),
{
    proof {
        reveal_strlit("stdio");
    }
    let flag = String::from_str("stdio");
    assert(flag@ =~= stdio_flag());
    let args = vec![flag];
    LaunchCommand { command: path, args, env }
}

} // verus!
