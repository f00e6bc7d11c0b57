//! The handle that addresses one server of the multiplexer: the default one,
//! or a named one. Every command built through a handle is routed to its
//! server.

use vstd::prelude::*;
use vstd::string::*;
use crate::exec::{captured_spec, texts, ExecErrorView, Invocation, InvocationView, Mode, Reply};
use crate::os::Os;
use crate::text::join2;

verus! {

/// The name of the server that this tool creates and owns.
pub const MANAGED_SERVER: &'static str = "harbonizer";

/// The words that route a command to the server named `label`, or nothing
/// for the default server.
pub open spec fn prefix_spec(label: Option<Seq<char>>) -> Seq<char> {
    match label {
        Some(server) => "-L "@ + server + " "@,
        None => Seq::<char>::empty(),
    }
}

/// The command line that asks the server named `label` for `arg`.
pub open spec fn command_line(label: Option<Seq<char>>, arg: Seq<char>) -> Seq<char> {
    "tmux "@ + prefix_spec(label) + arg
}

/// The arguments that have a shell run `line`.
pub open spec fn shell_argv(line: Seq<char>) -> Seq<Seq<char>> {
    seq!["sh"@, "-c"@, line]
}

/// The invocation that runs `arg` against the server named `label`.
pub open spec fn request(mode: Mode, label: Option<Seq<char>>, arg: Seq<char>) -> InvocationView {
    InvocationView { mode, argv: shell_argv(command_line(label, arg)) }
}

/// The question whether a server is alive, as the multiplexer takes it.
pub open spec fn probe_arg() -> Seq<char> {
    "has 2>&1"@
}

/// Whether a reply to the probe shows a live server: the probe ran and had
/// nothing to say. Any text is the multiplexer's report that there is no
/// such server.
pub open spec fn is_on_spec(reply: Reply) -> bool {
    captured_spec(reply) == Ok::<Seq<char>, ExecErrorView>(Seq::<char>::empty())
}

/// A handle on one server of the multiplexer. Its view is the server's
/// name, or `None` for the default server.
pub struct Tmux {
    prefix: Option<String>,
}

impl View for Tmux {
    type V = Option<Seq<char>>;

    closed spec fn view(&self) -> Option<Seq<char>> {
        match self.prefix {
            Some(server) => Some(server@),
            None => None,
        }
    }
}

impl Tmux {
    /// A server's name is never empty.
    #[verifier::type_invariant]
    closed spec fn named(&self) -> bool {
        self.prefix matches Some(server) ==> server@.len() > 0
    }

    /// A handle on the default server.
    pub fn new() -> (tmux: Tmux)
        ensures
            tmux@ is None,
    {
        Tmux { prefix: None }
    }

    /// A handle on the managed server.
    pub fn managed() -> (tmux: Tmux)
        ensures
            tmux@ == Some(MANAGED_SERVER@),
    {
        proof {
            reveal_strlit("harbonizer");
        }
        Tmux { prefix: Some(String::from_str(MANAGED_SERVER)) }
    }

    /// Names the server. A handle takes a name once, and an empty name
    /// never.
    pub fn set_server(self, server: &str) -> (named: Result<Tmux, String>)
        ensures
            named is Ok <==> self@ is None && server@.len() > 0,
            named matches Ok(tmux) ==> tmux@ == Some(server@),
            named matches Err(why) ==> why@ == if self@ is Some {
                "Server name is already set!"@
            } else {
                "Server name must not be empty!"@
            },
    {
        match self.prefix {
            Some(_) => Err(String::from_str("Server name is already set!")),
            None => {
                if server.is_empty() {
                    Err(String::from_str("Server name must not be empty!"))
                } else {
                    Ok(Tmux { prefix: Some(String::from_str(server)) })
                }
            },
        }
    }

    /// The server's name, which is not empty, or `None` for the default
    /// server.
    pub fn server(&self) -> (label: Option<String>)
        ensures
            match label {
                Some(name) => self@ == Some(name@) && name@.len() > 0,
                None => self@ is None,
            },
    {
        proof {
            use_type_invariant(self);
        }
        match &self.prefix {
            Some(server) => Some(server.clone()),
            None => None,
        }
    }

    /// The words that route a command to this server.
    pub fn prefix(&self) -> (words: String)
        ensures
            words@ == prefix_spec(self@),
    {
        match &self.prefix {
            Some(server) => {
                let mut words = String::from_str("-L ");
                words.append(server.as_str());
                words.append(" ");
                words
            },
            None => String::new(),
        }
    }

    /// The command line that asks this server for `arg`.
    pub fn prefixed(&self, arg: &str) -> (line: String)
        ensures
            line@ == command_line(self@, arg@),
    {
        let mut line = String::from_str("tmux ");
        let words = self.prefix();
        line.append(words.as_str());
        line.append(arg);
        line
    }

    /// The arguments that have a shell run `arg` against this server.
    fn argv(&self, arg: &str) -> (argv: Vec<String>)
        ensures
            texts(argv@) == shell_argv(command_line(self@, arg@)),
    {
        let mut argv: Vec<String> = Vec::new();
        argv.push(String::from_str("sh"));
        argv.push(String::from_str("-c"));
        argv.push(self.prefixed(arg));
        assert(texts(argv@) =~= shell_argv(command_line(self@, arg@)));
        argv
    }

    /// Asks this server for `arg`; the answer is of no interest.
    pub fn cmd(&self, arg: &str) -> (inv: Invocation)
        ensures
            inv@ == request(Mode::Run, self@, arg@),
    {
        Os::cmd(self.argv(arg))
    }

    /// Asks this server for `arg` and wants the answer.
    pub fn cmd_ret(&self, arg: &str) -> (inv: Invocation)
        ensures
            inv@ == request(Mode::Capture, self@, arg@),
    {
        Os::cmd_ret(self.argv(arg))
    }

    /// Asks this server for `arg` on the caller's terminal.
    pub fn cmd_spawn(&self, arg: &str) -> (inv: Invocation)
        ensures
            inv@ == request(Mode::Spawn, self@, arg@),
    {
        Os::cmd_spawn(self.argv(arg))
    }

    /// The probe that asks whether this server is alive.
    pub fn probe(&self) -> (inv: Invocation)
        ensures
            inv@ == request(Mode::Capture, self@, probe_arg()),
    {
        self.cmd_ret("has 2>&1")
    }

    /// Whether `reply`, the answer to this server's probe, shows it alive.
    /// A server that is not there is an answer, not a failure.
    pub fn is_on(&self, reply: &Reply) -> (alive: bool)
        ensures
            alive == is_on_spec(*reply),
    {
        match reply.captured() {
            Ok(said) => {
                assert(said@.len() == 0 <==> said@ =~= Seq::<char>::empty());
                said.as_str().is_empty()
            },
            Err(_) => false,
        }
    }

    /// Connects the caller's terminal to this server until the user leaves.
    pub fn attach(&self) -> (inv: Invocation)
        ensures
            inv@ == request(Mode::Spawn, self@, "attach"@),
    {
        self.cmd_spawn("attach")
    }

    /// Leaves the current session and has the terminal run `arg` in its
    /// place.
    pub fn detach_cmd(&self, arg: &str) -> (inv: Invocation)
        ensures
            inv@ == request(Mode::Capture, self@, "detach -E \""@ + arg@ + "\""@),
    {
        let mut words = String::from_str("detach -E \"");
        words.append(arg);
        words.append("\"");
        self.cmd_ret(words.as_str())
    }

    /// Leaves the current session.
    pub fn detach(&self) -> (inv: Invocation)
        ensures
            inv@ == request(Mode::Capture, self@, "detach"@),
    {
        self.cmd_ret("detach")
    }

    /// Creates a session with the options and the start command in `arg`.
    pub fn new_sess_cmd(&self, arg: &str) -> (inv: Invocation)
        ensures
            inv@ == request(Mode::Spawn, self@, "new-session "@ + arg@),
    {
        let words = join2("new-session ", arg);
        self.cmd_spawn(words.as_str())
    }

    /// Creates a plain session.
    pub fn new_sess(&self) -> (inv: Invocation)
        ensures
            inv@ == request(Mode::Capture, self@, "new-session"@),
    {
        self.cmd_ret("new-session")
    }
}

/// Every command line built for a named server begins by routing the
/// multiplexer to that server, and the request follows unchanged.
pub proof fn lemma_namespaced(server: Seq<char>, arg: Seq<char>)
    ensures
        ({
            let line = command_line(Some(server), arg);
            let head = "tmux -L "@ + server + " "@;
            &&& line.len() == head.len() + arg.len()
            &&& line.subrange(0, head.len() as int) == head
            &&& line.subrange(head.len() as int, line.len() as int) == arg
        }),
{
    reveal_strlit("tmux ");
    reveal_strlit("-L ");
    reveal_strlit("tmux -L ");
    reveal_strlit(" ");
    let line = command_line(Some(server), arg);
    let head = "tmux -L "@ + server + " "@;
    assert("tmux "@ + "-L "@ =~= "tmux -L "@);
    assert(line =~= head + arg);
    assert(line.subrange(0, head.len() as int) =~= head);
    assert(line.subrange(head.len() as int, line.len() as int) =~= arg);
}

} // verus!
