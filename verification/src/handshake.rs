//! The bootstrap handshake: the command that creates the managed session
//! and has this program run again inside it, there to set the session up.

use vstd::prelude::*;
use vstd::string::*;
use crate::command::{cmd_word, hidden_word, Cmd, HiddenCmd};
use crate::context::HARB_VAR;
use crate::exec::{Invocation, Mode};
use crate::sentinel::PRE_SETUP;
use crate::text::join2;
use crate::tmux::{request, Tmux};

verus! {

/// Where the user's configuration lies, below the home directory.
pub const CONFIG_FILE: &'static str = "/.config/harbomux";

/// The path of the configuration file of a user whose home is `home`.
pub open spec fn config_path_spec(home: Seq<char>) -> Seq<char> {
    home + CONFIG_FILE@
}

/// The words that have the new shell read the configuration file first,
/// or nothing at all where there is no such file.
pub open spec fn source_spec(config: Option<Seq<char>>) -> Seq<char> {
    match config {
        Some(path) => "source "@ + path + "; "@,
        None => Seq::<char>::empty(),
    }
}

/// What the shell of the new session runs: it reads the configuration, if
/// there is one, and then calls this program, found at `binary`, with the
/// hidden verb and the set-up action.
pub open spec fn startup_spec(binary: Seq<char>, config: Option<Seq<char>>) -> Seq<char> {
    source_spec(config) + binary + " "@ + cmd_word(Cmd::Hidden) + " "@ + hidden_word(
        HiddenCmd::Setup,
    )
}

/// What the multiplexer is told of the session to create: stay in the
/// background, mark everything inside as running in the managed server
/// with set-up due, and run the start command.
pub open spec fn session_spec(binary: Seq<char>, config: Option<Seq<char>>) -> Seq<char> {
    "-d -e "@ + HARB_VAR@ + "="@ + PRE_SETUP@ + " \""@ + startup_spec(binary, config) + "\""@
}

/// The request that creates the session on the server named `label`.
pub open spec fn launch_arg(binary: Seq<char>, config: Option<Seq<char>>) -> Seq<char> {
    "new-session "@ + session_spec(binary, config)
}

/// The view of an optional text.
pub open spec fn text_of(value: Option<String>) -> Option<Seq<char>> {
    match value {
        Some(text) => Some(text@),
        None => None,
    }
}

/// `home::home_dir`: the home directory of the current user, where the
/// system knows one and its path is valid text. Nothing is said of which
/// directory that is.
#[verifier::external_body]
fn home_dir() -> (dir: Option<String>) {
    match home::home_dir() {
        Some(path) => path.into_os_string().into_string().ok(),
        None => None,
    }
}

/// The path of the configuration file of a user whose home is `home`.
pub fn config_path(home: &str) -> (path: String)
    ensures
        path@ == config_path_spec(home@),
{
    join2(home, CONFIG_FILE)
}

/// The path at which the current user's configuration file would lie, or
/// `None` where the user has no home directory. Whether the file exists is
/// for the caller to find out.
pub fn locate_config() -> (path: Option<String>)
    ensures
        path matches Some(found) ==> exists|home: Seq<char>| found@ == config_path_spec(home),
{
    let home = home_dir();
    let path = config_under(&home);
    assert(path matches Some(found) ==> found@ == config_path_spec(home->0@));
    path
}

/// The path of the configuration file below a home directory, if there is
/// a home directory at all.
pub open spec fn config_under_spec(home: Option<Seq<char>>) -> Option<Seq<char>> {
    match home {
        Some(dir) => Some(config_path_spec(dir)),
        None => None,
    }
}

/// The path of the configuration file of a user whose home directory is
/// `home`; a user without a home directory has no configuration file.
pub fn config_under(home: &Option<String>) -> (path: Option<String>)
    ensures
        text_of(path) == config_under_spec(text_of(*home)),
{
    match home {
        Some(dir) => Some(config_path(dir.as_str())),
        None => None,
    }
}

/// The start command of the new session.
pub fn startup(binary: &str, config: &Option<String>) -> (line: String)
    ensures
        line@ == startup_spec(binary@, text_of(*config)),
{
    let mut line = String::new();
    match config {
        Some(path) => {
            line.append("source ");
            line.append(path.as_str());
            line.append("; ");
        },
        None => {},
    }
    assert(line@ =~= source_spec(text_of(*config)));
    line.append(binary);
    line.append(" ");
    line.append(Cmd::Hidden.name());
    line.append(" ");
    line.append(HiddenCmd::Setup.name());
    line
}

/// The command that creates the managed session on the server of `handle`
/// and starts set-up inside it.
pub fn launch(handle: &Tmux, binary: &str, config: &Option<String>) -> (inv: Invocation)
    ensures
        inv@ == request(Mode::Spawn, handle@, launch_arg(binary@, text_of(*config))),
{
    let mut words = String::from_str("-d -e ");
    words.append(HARB_VAR);
    words.append("=");
    words.append(PRE_SETUP);
    words.append(" \"");
    let line = startup(binary, config);
    words.append(line.as_str());
    words.append("\"");
    handle.new_sess_cmd(words.as_str())
}

/// Without a configuration file the start command holds no trace of the
/// reading step: it is the call of this program and nothing else.
pub proof fn lemma_startup_without_config(binary: Seq<char>)
    ensures
        startup_spec(binary, None) == binary + " --hidden setup"@,
{
    reveal_strlit(" ");
    reveal_strlit("--hidden");
    reveal_strlit("setup");
    reveal_strlit(" --hidden setup");
    assert(" "@ + "--hidden"@ + " "@ + "setup"@ =~= " --hidden setup"@);
    assert(startup_spec(binary, None) =~= binary + (" "@ + "--hidden"@ + " "@ + "setup"@));
}

/// With a configuration file the start command reads it before it calls
/// this program.
pub proof fn lemma_startup_with_config(binary: Seq<char>, path: Seq<char>)
    ensures
        startup_spec(binary, Some(path)) == "source "@ + path + "; "@ + startup_spec(binary, None),
{
    assert(startup_spec(binary, Some(path)) =~= "source "@ + path + "; "@ + startup_spec(
        binary,
        None,
    ));
}

} // verus!
